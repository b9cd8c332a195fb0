pub mod api;
pub mod arg;
pub mod client;
pub mod cmd;
pub mod json;
pub mod text;
