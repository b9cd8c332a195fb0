pub mod invoke;
pub mod metadata;

use crate::arg::{positionals, raw_texts, CliInput};
use crate::text::{str_eq, texts};
use vstd::prelude::*;
use vstd::string::StrSliceExecFns;

verus! {

/// Knows the resource providers whose commands are described under a directory.
#[derive(Debug, Clone)]
pub struct ApiManager {
    /// The directory that holds one description per resource provider.
    pub path: String,
    /// The names of the resource providers, in the order of their files.
    pub rps: Vec<String>,
}

/// Why an input names no resource provider.
#[derive(Debug, Clone, Copy, PartialEq, Eq, Structural)]
pub enum ApiError {
    RpNotSpecified,
    NoPositionalArgument,
}

impl ApiError {
    /// What the error says.
    pub open spec fn text(self) -> Seq<char> {
        match self {
            ApiError::RpNotSpecified => "the rp is not specified"@,
            ApiError::NoPositionalArgument =>
                "no positional argument specified from the CLI input"@,
        }
    }

    /// What the error says.
    pub fn to_string(&self) -> (s: String)
        ensures
            s@ == self.text(),
    {
        match self {
            ApiError::RpNotSpecified => "the rp is not specified".to_owned(),
            ApiError::NoPositionalArgument =>
                "no positional argument specified from the CLI input".to_owned(),
        }
    }
}

/// The resource provider that the file `file_name` describes: the name in
/// front of the ending `.json`, where the file has that ending and a name in
/// front of it.
pub open spec fn rp_of(file_name: Seq<char>) -> Option<Seq<char>> {
    let stem = file_name.len() - 5;
    if stem > 0 && file_name.skip(stem) == ".json"@ {
        Some(file_name.take(stem))
    } else {
        None
    }
}

/// The resource providers that the files `file_names` describe, in order.
pub open spec fn rps_of(file_names: Seq<Seq<char>>) -> Seq<Seq<char>>
    decreases file_names.len(),
{
    if file_names.len() == 0 {
        Seq::empty()
    } else {
        let front = rps_of(file_names.drop_last());
        match rp_of(file_names.last()) {
            Some(rp) => front.push(rp),
            None => front,
        }
    }
}

/// The resource provider that the file `file_name` describes.
pub fn rp_name(file_name: &str) -> (r: Option<String>)
    ensures
        match rp_of(file_name@) {
            Some(rp) => r matches Some(s) && s@ == rp,
            None => r is None,
        },
{
    let n: usize = file_name.unicode_len();
    proof {
        reveal_strlit(".json");
    }
    if n <= 5 {
        return None;
    }
    let ending = file_name.substring_char(n - 5, n);
    assert(ending@ =~= file_name@.skip(n - 5));
    if !str_eq(ending, ".json") {
        return None;
    }
    let stem = file_name.substring_char(0, n - 5);
    assert(stem@ =~= file_name@.take(n - 5));
    Some(stem.to_owned())
}

/// The first positional argument of an input, where it has one.
pub open spec fn first_positional(input: CliInput) -> Option<Seq<char>> {
    if positionals(input@).len() > 0 {
        Some(positionals(input@)[0])
    } else {
        None
    }
}

impl ApiManager {
    /// The manager for the directory `path` that holds the files `file_names`.
    pub fn new(path: String, file_names: Vec<String>) -> (r: ApiManager)
        ensures
            r.path == path,
            texts(r.rps@) == rps_of(texts(file_names@)),
    {
        let mut rps: Vec<String> = Vec::new();
        let mut i: usize = 0;
        let ghost names = texts(file_names@);
        assert(names.take(0) =~= Seq::<Seq<char>>::empty());
        assert(texts(rps@) =~= Seq::<Seq<char>>::empty());
        while i < file_names.len()
            invariant
                i <= file_names.len(),
                names == texts(file_names@),
                texts(rps@) == rps_of(names.take(i as int)),
            decreases file_names.len() - i,
        {
            let ghost before = texts(rps@);
            assert(names.take(i + 1).drop_last() =~= names.take(i as int));
            assert(names.take(i + 1).last() == file_names@[i as int]@);
            if let Some(rp) = rp_name(file_names[i].as_str()) {
                let ghost text = rp@;
                rps.push(rp);
                assert(texts(rps@) =~= before.push(text));
            }
            i += 1;
        }
        assert(names.take(i as int) =~= names);
        ApiManager { path, rps }
    }

    /// The names of the resource providers.
    pub fn list_rps(&self) -> (r: &Vec<String>)
        ensures
            *r == self.rps,
    {
        &self.rps
    }

    /// The first positional argument of the input, copied out.
    fn first_pos_arg(cli_input: &CliInput) -> (r: Option<String>)
        ensures
            match first_positional(*cli_input) {
                Some(rp) => r matches Some(s) && s@ == rp,
                None => r is None,
            },
    {
        let pos_args = cli_input.pos_args();
        if pos_args.len() == 0 {
            None
        } else {
            assert(raw_texts(pos_args@)[0] == pos_args@[0]@);
            Some(pos_args[0].to_owned())
        }
    }

    /// The resource provider whose description the context of a call is built
    /// from: the first positional argument of the input.
    pub fn build_ctx(&self, cli_input: &CliInput) -> (r: Result<String, ApiError>)
        ensures
            match first_positional(*cli_input) {
                Some(rp) => r matches Ok(s) && s@ == rp,
                None => r == Err::<String, ApiError>(ApiError::RpNotSpecified),
            },
    {
        match ApiManager::first_pos_arg(cli_input) {
            Some(rp) => Ok(rp),
            None => Err(ApiError::RpNotSpecified),
        }
    }

    /// The command group whose description the API of a call is built from:
    /// the first positional argument of the input.
    pub fn build_api(&self, cli_input: &CliInput) -> (r: Result<String, ApiError>)
        ensures
            match first_positional(*cli_input) {
                Some(group) => r matches Ok(s) && s@ == group,
                None => r == Err::<String, ApiError>(ApiError::NoPositionalArgument),
            },
    {
        match ApiManager::first_pos_arg(cli_input) {
            Some(group) => Ok(group),
            None => Err(ApiError::NoPositionalArgument),
        }
    }
}

} // verus!
