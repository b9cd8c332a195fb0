use crate::api::metadata::{
    Command, Http, Method, Operation, RequestPathParam, RequestQueryConst, Schema,
};
use crate::client::response::{bytes_from_vec, bytes_seq};
use crate::json::{
    clone_value, json_object_of, json_of_bool, json_of_integer, json_of_text, json_shown,
    json_value, member_views, parse_value, show, value_from_bool, value_from_integer,
    value_from_members, value_from_text,
};
use crate::text::{has_prefix, replace, replaced, starts_with, str_eq};
use bytes::Bytes;
use serde_json::Value;
use vstd::prelude::*;
use vstd::string::{StrSliceExecFns, StringExecFns};

verus! {

/// The value that a command line gave to one argument.
#[derive(Debug, Clone, PartialEq, Eq)]
pub enum ArgValue {
    Text(String),
    Integer(i32),
    Flag(bool),
}

/// The values that a command line gave to the arguments of a command, each
/// with the name of its argument.
#[derive(Debug, Clone)]
pub struct ArgValues {
    pub values: Vec<(String, ArgValue)>,
}

/// What a schema describes, as far as building a value goes.
#[derive(Debug, Clone, Copy, PartialEq, Eq, Structural)]
pub enum SchemaKind {
    Object,
    Array,
    Text,
    Integer,
    Flag,
    Other,
}

/// Why a call could not be made or its answer not taken.
#[derive(Debug, Clone, PartialEq, Eq)]
pub enum InvokeError {
    /// The command of this name has no operation.
    NoOperation(String),
    /// The operation is not described as an HTTP call, or no description of a
    /// response fits the answer.
    NoHttp,
    /// No value was given for this parameter of the path, which needs one.
    MissingPathParameter(String),
    /// No value was given for a parameter of the path that needs none.
    OptionalPathParameter,
    /// The value given for this argument is of another type than asked for.
    WrongType(String),
    /// The description names no API version.
    MissingApiVersion,
    /// No value was given for this argument, which needs one.
    MissingProperty(SchemaKind, String),
    /// A property of an object has no name.
    UnnamedProperty,
    /// A schema names no argument.
    UnnamedSchema(SchemaKind),
    /// The text given for this argument is not JSON.
    InvalidJson(String),
    /// The service answered with an error; this is the body of its answer.
    ErrorResponse(String),
    /// The body of the answer is not JSON.
    ResponseNotJson,
}

/// What an `InvokeError` holds, as mathematical values.
pub enum InvokeErrorView {
    NoOperation(Seq<char>),
    NoHttp,
    MissingPathParameter(Seq<char>),
    OptionalPathParameter,
    WrongType(Seq<char>),
    MissingApiVersion,
    MissingProperty(SchemaKind, Seq<char>),
    UnnamedProperty,
    UnnamedSchema(SchemaKind),
    InvalidJson(Seq<char>),
    ErrorResponse(Seq<char>),
    ResponseNotJson,
}

impl View for InvokeError {
    type V = InvokeErrorView;

    open spec fn view(&self) -> InvokeErrorView {
        match self {
            InvokeError::NoOperation(s) => InvokeErrorView::NoOperation(s@),
            InvokeError::NoHttp => InvokeErrorView::NoHttp,
            InvokeError::MissingPathParameter(s) => InvokeErrorView::MissingPathParameter(s@),
            InvokeError::OptionalPathParameter => InvokeErrorView::OptionalPathParameter,
            InvokeError::WrongType(s) => InvokeErrorView::WrongType(s@),
            InvokeError::MissingApiVersion => InvokeErrorView::MissingApiVersion,
            InvokeError::MissingProperty(k, s) => InvokeErrorView::MissingProperty(*k, s@),
            InvokeError::UnnamedProperty => InvokeErrorView::UnnamedProperty,
            InvokeError::UnnamedSchema(k) => InvokeErrorView::UnnamedSchema(*k),
            InvokeError::InvalidJson(s) => InvokeErrorView::InvalidJson(s@),
            InvokeError::ErrorResponse(s) => InvokeErrorView::ErrorResponse(s@),
            InvokeError::ResponseNotJson => InvokeErrorView::ResponseNotJson,
        }
    }
}

/// The word for a kind of schema in a message about a missing value.
pub open spec fn kind_word(kind: SchemaKind) -> Seq<char> {
    match kind {
        SchemaKind::Object => "object "@,
        SchemaKind::Array => "array "@,
        SchemaKind::Text => "string "@,
        SchemaKind::Integer => "integer "@,
        SchemaKind::Flag => "boolean "@,
        SchemaKind::Other => ""@,
    }
}

impl InvokeError {
    /// What the error says.
    pub open spec fn text(self) -> Seq<char> {
        match self {
            InvokeError::NoOperation(name) => "No operation found for command "@ + name@,
            InvokeError::NoHttp => "No HTTP information found for this operation"@,
            InvokeError::MissingPathParameter(name) => "Missing required path parameter: "@
                + name@,
            InvokeError::OptionalPathParameter => "Optional path parameter not supported yet!"@,
            InvokeError::WrongType(arg) => "Mismatch between definition and access of "@ + arg@,
            InvokeError::MissingApiVersion => "the api-version is not specified"@,
            InvokeError::MissingProperty(kind, arg) => "Missing required "@ + kind_word(kind)
                + "property: "@ + arg@,
            InvokeError::UnnamedProperty => "Property without a name in object schema"@,
            InvokeError::UnnamedSchema(SchemaKind::Object) =>
                "Object schema is not supported without a name"@,
            InvokeError::UnnamedSchema(SchemaKind::Other) =>
                "Schema is not supported without a name"@,
            InvokeError::UnnamedSchema(_) => "Array schema is not supported without a name"@,
            InvokeError::InvalidJson(arg) => "the value of "@ + arg@ + " is not JSON"@,
            InvokeError::ErrorResponse(body) => "Error response: "@ + body@,
            InvokeError::ResponseNotJson => "the response body is not JSON"@,
        }
    }

    /// What the error says.
    pub fn to_string(&self) -> (s: String)
        ensures
            s@ == self.text(),
    {
        match self {
            InvokeError::NoOperation(name) => String::from_str(
                "No operation found for command ",
            ).concat(name.as_str()),
            InvokeError::NoHttp => "No HTTP information found for this operation".to_owned(),
            InvokeError::MissingPathParameter(name) => String::from_str(
                "Missing required path parameter: ",
            ).concat(name.as_str()),
            InvokeError::OptionalPathParameter =>
                "Optional path parameter not supported yet!".to_owned(),
            InvokeError::WrongType(arg) => String::from_str(
                "Mismatch between definition and access of ",
            ).concat(arg.as_str()),
            InvokeError::MissingApiVersion => "the api-version is not specified".to_owned(),
            InvokeError::MissingProperty(kind, arg) => {
                let word = match kind {
                    SchemaKind::Object => "object ",
                    SchemaKind::Array => "array ",
                    SchemaKind::Text => "string ",
                    SchemaKind::Integer => "integer ",
                    SchemaKind::Flag => "boolean ",
                    SchemaKind::Other => "",
                };
                String::from_str("Missing required ").concat(word).concat("property: ").concat(
                    arg.as_str(),
                )
            },
            InvokeError::UnnamedProperty => "Property without a name in object schema".to_owned(),
            InvokeError::UnnamedSchema(SchemaKind::Object) =>
                "Object schema is not supported without a name".to_owned(),
            InvokeError::UnnamedSchema(SchemaKind::Other) =>
                "Schema is not supported without a name".to_owned(),
            InvokeError::UnnamedSchema(_) =>
                "Array schema is not supported without a name".to_owned(),
            InvokeError::InvalidJson(arg) => String::from_str("the value of ").concat(
                arg.as_str(),
            ).concat(" is not JSON"),
            InvokeError::ErrorResponse(body) => String::from_str("Error response: ").concat(
                body.as_str(),
            ),
            InvokeError::ResponseNotJson => "the response body is not JSON".to_owned(),
        }
    }
}

/// Whether `r` is the outcome `expected`: the same value, or an error that
/// holds what `expected` holds.
pub open spec fn comes_to<T>(r: Result<T, InvokeError>, expected: Result<T, InvokeErrorView>) -> bool {
    match (r, expected) {
        (Ok(a), Ok(b)) => a == b,
        (Err(e), Err(v)) => e@ == v,
        _ => false,
    }
}

/// The value that stands with the name `key` in `entries`, the first where
/// there are several.
pub open spec fn first_entry<T>(entries: Seq<(String, T)>, key: Seq<char>) -> Option<T>
    decreases entries.len(),
{
    if entries.len() == 0 {
        None
    } else if entries[0].0@ == key {
        Some(entries[0].1)
    } else {
        first_entry(entries.skip(1), key)
    }
}

/// The value that stands with the name `key` in `entries`.
pub fn find_entry<'a, T>(entries: &'a Vec<(String, T)>, key: &str) -> (r: Option<&'a T>)
    ensures
        match first_entry(entries@, key@) {
            Some(v) => r matches Some(found) && *found == v,
            None => r is None,
        },
{
    let mut i: usize = 0;
    assert(entries@.skip(0) =~= entries@);
    while i < entries.len()
        invariant
            i <= entries.len(),
            first_entry(entries@, key@) == first_entry(entries@.skip(i as int), key@),
        decreases entries.len() - i,
    {
        assert(entries@.skip(i as int)[0] == entries@[i as int]);
        assert(entries@.skip(i as int).skip(1) =~= entries@.skip(i + 1));
        if str_eq(entries[i].0.as_str(), key) {
            return Some(&entries[i].1);
        }
        i += 1;
    }
    None
}

/// The kind of schema that a type name stands for.
pub open spec fn kind_of(type_: Seq<char>) -> SchemaKind {
    if type_ == "object"@ {
        SchemaKind::Object
    } else if has_prefix(type_, "array"@) {
        SchemaKind::Array
    } else if type_ == "string"@ {
        SchemaKind::Text
    } else if has_prefix(type_, "integer"@) {
        SchemaKind::Integer
    } else if type_ == "boolean"@ {
        SchemaKind::Flag
    } else {
        SchemaKind::Other
    }
}

/// The kind of schema that the type name `type_` stands for.
pub fn schema_kind(type_: &str) -> (r: SchemaKind)
    ensures
        r == kind_of(type_@),
{
    if str_eq(type_, "object") {
        SchemaKind::Object
    } else if starts_with(type_, "array") {
        SchemaKind::Array
    } else if str_eq(type_, "string") {
        SchemaKind::Text
    } else if starts_with(type_, "integer") {
        SchemaKind::Integer
    } else if str_eq(type_, "boolean") {
        SchemaKind::Flag
    } else {
        SchemaKind::Other
    }
}

/// The UTF-8 bytes of a text.
pub open spec fn utf8(text: Seq<char>) -> Seq<u8> {
    vstd::utf8::encode_utf8(text)
}

/// The JSON value that the value `value` given for the argument `arg` stands
/// for under a schema of the kind `kind`. Text for an object or an array is
/// read as JSON; text for a string is that string; text for another schema is
/// read as JSON where it is JSON and is a string else. A number stands for an
/// integer only, a flag for a boolean only.
pub open spec fn from_arg(kind: SchemaKind, arg: Seq<char>, value: ArgValue) -> Result<
    Option<Value>,
    InvokeErrorView,
> {
    match (kind, value) {
        (SchemaKind::Object, ArgValue::Text(t)) | (SchemaKind::Array, ArgValue::Text(t)) => match json_value(
            utf8(t@),
        ) {
            Some(v) => Ok(Some(v)),
            None => Err(InvokeErrorView::InvalidJson(arg)),
        },
        (SchemaKind::Text, ArgValue::Text(t)) => Ok(Some(json_of_text(t@))),
        (SchemaKind::Other, ArgValue::Text(t)) => match json_value(utf8(t@)) {
            Some(v) => Ok(Some(v)),
            None => Ok(Some(json_of_text(t@))),
        },
        (SchemaKind::Integer, ArgValue::Integer(n)) => Ok(Some(json_of_integer(n as int))),
        (SchemaKind::Flag, ArgValue::Flag(b)) => Ok(Some(json_of_bool(b))),
        _ => Err(InvokeErrorView::WrongType(arg)),
    }
}

/// The name of a schema, where it has one.
pub open spec fn name_of(schema: Schema) -> Option<Seq<char>> {
    match schema.name {
        Some(n) => Some(n@),
        None => None,
    }
}

/// The properties of a schema.
pub open spec fn props_of(schema: Schema) -> Seq<Schema> {
    match schema.props {
        Some(p) => p@,
        None => Seq::empty(),
    }
}

/// The JSON value that is built for `schema` from the values `args` of the
/// command line and the values `ctx` of the context. A schema must name an
/// argument. The context's value for it comes first, then the command line's.
/// Without either, a schema that needs a value is an error, an object is
/// built from its properties, and anything else is no value.
pub open spec fn built(schema: Schema, args: Seq<(String, ArgValue)>, ctx: Seq<(String, Value)>) -> Result<
    Option<Value>,
    InvokeErrorView,
>
    decreases schema, 1nat, 0nat,
{
    let kind = kind_of(schema.type_@);
    match schema.arg {
        None => Err(InvokeErrorView::UnnamedSchema(kind)),
        Some(arg) => match first_entry(ctx, arg@) {
            Some(v) => Ok(Some(v)),
            None => match first_entry(args, arg@) {
                Some(value) => from_arg(kind, arg@, value),
                None => if schema.required == Some(true) {
                    Err(InvokeErrorView::MissingProperty(kind, arg@))
                } else if kind == SchemaKind::Object {
                    match built_members(schema, props_of(schema).len(), args, ctx) {
                        Ok(members) => Ok(Some(json_object_of(members))),
                        Err(e) => Err(e),
                    }
                } else {
                    Ok(None)
                },
            },
        },
    }
}

/// The members that are built for the first `n` properties of the object
/// `schema`, each under the name of its property. A property for which no
/// value is built is left out; the first property without a name, or whose
/// value gives an error, ends it all with that error.
pub open spec fn built_members(
    schema: Schema,
    n: nat,
    args: Seq<(String, ArgValue)>,
    ctx: Seq<(String, Value)>,
) -> Result<Seq<(Seq<char>, Value)>, InvokeErrorView>
    decreases schema, 0nat, n,
{
    let props = props_of(schema);
    if n == 0 || n > props.len() {
        Ok(Seq::empty())
    } else {
        match built_members(schema, (n - 1) as nat, args, ctx) {
            Err(e) => Err(e),
            Ok(front) => match props[n - 1].name {
                None => Err(InvokeErrorView::UnnamedProperty),
                Some(name) => match built(props[n - 1], args, ctx) {
                    Err(e) => Err(e),
                    Ok(Some(v)) => Ok(front.push((name@, v))),
                    Ok(None) => Ok(front),
                },
            },
        }
    }
}

/// An error among the first properties is the error of them all.
pub proof fn lemma_member_error_stays(
    schema: Schema,
    k: nat,
    args: Seq<(String, ArgValue)>,
    ctx: Seq<(String, Value)>,
)
    requires
        k <= props_of(schema).len(),
        built_members(schema, k, args, ctx) is Err,
    ensures
        built_members(schema, props_of(schema).len(), args, ctx) == built_members(
            schema,
            k,
            args,
            ctx,
        ),
    decreases props_of(schema).len() - k,
{
    if k < props_of(schema).len() {
        assert(built_members(schema, k + 1, args, ctx) == built_members(schema, k, args, ctx));
        lemma_member_error_stays(schema, k + 1, args, ctx);
    }
}

/// `String::from_utf8_lossy`: the text of `bytes`, with a replacement
/// character for what is no UTF-8.
pub uninterp spec fn lossy_text(bytes: Seq<u8>) -> Seq<char>;

/// `String::from_utf8_lossy`, copied into a string.
#[verifier::external_body]
fn text_lossy(bytes: &[u8]) -> (r: String)
    ensures
        r@ == lossy_text(bytes@),
{
    String::from_utf8_lossy(bytes).into_owned()
}

/// The JSON value for the value `value` of the argument `arg`.
fn value_from_arg(kind: SchemaKind, arg: &str, value: &ArgValue) -> (r: Result<
    Option<Value>,
    InvokeError,
>)
    ensures
        comes_to(r, from_arg(kind, arg@, *value)),
{
    match (kind, value) {
        (SchemaKind::Object, ArgValue::Text(t)) | (SchemaKind::Array, ArgValue::Text(t)) => match parse_value(
            t.as_str().as_bytes(),
        ) {
            Some(v) => Ok(Some(v)),
            None => Err(InvokeError::InvalidJson(arg.to_owned())),
        },
        (SchemaKind::Text, ArgValue::Text(t)) => Ok(Some(value_from_text(t.as_str()))),
        (SchemaKind::Other, ArgValue::Text(t)) => match parse_value(t.as_str().as_bytes()) {
            Some(v) => Ok(Some(v)),
            None => Ok(Some(value_from_text(t.as_str()))),
        },
        (SchemaKind::Integer, ArgValue::Integer(n)) => Ok(Some(value_from_integer(*n))),
        (SchemaKind::Flag, ArgValue::Flag(b)) => Ok(Some(value_from_bool(*b))),
        _ => Err(InvokeError::WrongType(arg.to_owned())),
    }
}

/// The JSON value that is built for `schema`.
pub fn build_value(schema: &Schema, args: &ArgValues, ctx_args: &Vec<(String, Value)>) -> (r:
    Result<Option<Value>, InvokeError>)
    ensures
        comes_to(r, built(*schema, args.values@, ctx_args@)),
    decreases schema,
{
    let kind = schema_kind(schema.type_.as_str());
    let arg = match &schema.arg {
        Some(arg) => arg,
        None => {
            return Err(InvokeError::UnnamedSchema(kind));
        },
    };
    if let Some(value) = find_entry(ctx_args, arg.as_str()) {
        return Ok(Some(clone_value(value)));
    }
    if let Some(value) = find_entry(&args.values, arg.as_str()) {
        return value_from_arg(kind, arg.as_str(), value);
    }
    if let Some(true) = schema.required {
        return Err(InvokeError::MissingProperty(kind, arg.clone()));
    }
    if kind != SchemaKind::Object {
        return Ok(None);
    }
    let mut members: Vec<(String, Value)> = Vec::new();
    assert(member_views(members@) =~= Seq::empty());
    if let Some(props) = &schema.props {
        let mut i: usize = 0;
        while i < props.len()
            invariant
                i <= props.len(),
                schema.props == Some(*props),
                kind == kind_of(schema.type_@),
                kind == SchemaKind::Object,
                schema.arg == Some(*arg),
                first_entry(ctx_args@, arg@) is None,
                first_entry(args.values@, arg@) is None,
                schema.required != Some(true),
                built_members(*schema, i as nat, args.values@, ctx_args@) == Ok::<
                    Seq<(Seq<char>, Value)>,
                    InvokeErrorView,
                >(member_views(members@)),
            decreases props.len() - i,
        {
            let prop = &props[i];
            let ghost before = member_views(members@);
            assert(props_of(*schema)[i as int] == *prop);
            let name = match &prop.name {
                Some(name) => name,
                None => {
                    proof {
                        assert(built_members(*schema, (i + 1) as nat, args.values@, ctx_args@)
                            == Err::<Seq<(Seq<char>, Value)>, InvokeErrorView>(
                            InvokeErrorView::UnnamedProperty,
                        ));
                        lemma_member_error_stays(*schema, (i + 1) as nat, args.values@, ctx_args@);
                    }
                    return Err(InvokeError::UnnamedProperty);
                },
            };
            match build_value(prop, args, ctx_args) {
                Err(e) => {
                    proof {
                        assert(built_members(*schema, (i + 1) as nat, args.values@, ctx_args@)
                            == Err::<Seq<(Seq<char>, Value)>, InvokeErrorView>(e@));
                        lemma_member_error_stays(*schema, (i + 1) as nat, args.values@, ctx_args@);
                    }
                    return Err(e);
                },
                Ok(Some(value)) => {
                    members.push((name.clone(), value));
                    assert(member_views(members@) =~= before.push((name@, value)));
                },
                Ok(None) => {},
            }
            i += 1;
        }
    }
    Ok(Some(value_from_members(members)))
}

/// A call to make: where to send what.
#[derive(Debug)]
pub struct Call {
    pub method: Method,
    pub path: String,
    pub api_version: String,
    pub body: Option<Bytes>,
}

/// What a `Call` holds, as mathematical values.
pub struct CallView {
    pub method: Method,
    pub path: Seq<char>,
    pub api_version: Seq<char>,
    pub body: Option<Seq<u8>>,
}

impl View for Call {
    type V = CallView;

    open spec fn view(&self) -> CallView {
        CallView {
            method: self.method,
            path: self.path@,
            api_version: self.api_version@,
            body: match self.body {
                Some(b) => Some(bytes_seq(b)),
                None => None,
            },
        }
    }
}

/// The text that a value of the context gives to a parameter of the path:
/// its text, where it is a JSON string.
pub open spec fn ctx_text(value: Value) -> Option<Seq<char>> {
    crate::json::json_text(value)
}

/// The place in a path that the parameter `name` is to fill.
pub open spec fn placeholder(name: Seq<char>) -> Seq<char> {
    "{"@ + name + "}"@
}

/// The path `path` with the values of the parameters `params` in place of
/// their placeholders, one parameter after the other. The command line's
/// value for a parameter comes first, then the context's.
pub open spec fn filled_path(
    path: Seq<char>,
    params: Seq<RequestPathParam>,
    args: Seq<(String, ArgValue)>,
    ctx: Seq<(String, Value)>,
) -> Result<Seq<char>, InvokeErrorView>
    decreases params.len(),
{
    if params.len() == 0 {
        Ok(path)
    } else {
        let p = params[0];
        let value = match first_entry(args, p.arg@) {
            Some(ArgValue::Text(t)) => Ok(t@),
            Some(_) => Err(InvokeErrorView::WrongType(p.arg@)),
            None => match first_entry(ctx, p.arg@) {
                Some(v) => match ctx_text(v) {
                    Some(t) => Ok(t),
                    None => Err(InvokeErrorView::WrongType(p.arg@)),
                },
                None => if p.required == Some(true) {
                    Err(InvokeErrorView::MissingPathParameter(p.name@))
                } else {
                    Err(InvokeErrorView::OptionalPathParameter)
                },
            },
        };
        match value {
            Ok(t) => filled_path(replaced(path, placeholder(p.name@), t), params.skip(1), args, ctx),
            Err(e) => Err(e),
        }
    }
}

/// The value of the last constant of the query with the name `name`.
pub open spec fn last_const(consts: Seq<RequestQueryConst>, name: Seq<char>) -> Option<Seq<char>>
    decreases consts.len(),
{
    if consts.len() == 0 {
        None
    } else if consts.last().name@ == name {
        Some(consts.last().default.value@)
    } else {
        last_const(consts.drop_last(), name)
    }
}

/// The body of the call to `http`: the text of the JSON value built for the
/// schema of its body, where there is such a schema and a value is built.
pub open spec fn body_of(http: Http, args: Seq<(String, ArgValue)>, ctx: Seq<(String, Value)>) -> Result<
    Option<Seq<u8>>,
    InvokeErrorView,
> {
    match http.request.body {
        Some(body) => match body.json.schema {
            Some(schema) => match built(schema, args, ctx) {
                Ok(Some(v)) => Ok(Some(utf8(json_shown(v)))),
                Ok(None) => Ok(None),
                Err(e) => Err(e),
            },
            None => Ok(None),
        },
        None => Ok(None),
    }
}

/// The call that the operation `operation` comes to.
pub open spec fn planned(operation: Operation, args: Seq<(String, ArgValue)>, ctx: Seq<(String, Value)>) -> Result<
    CallView,
    InvokeErrorView,
> {
    match operation.http {
        None => Err(InvokeErrorView::NoHttp),
        Some(http) => match filled_path(http.path@, http.request.path.params@, args, ctx) {
            Err(e) => Err(e),
            Ok(path) => match body_of(http, args, ctx) {
                Err(e) => Err(e),
                Ok(body) => match last_const(http.request.query.consts@, "api-version"@) {
                    None => Err(InvokeErrorView::MissingApiVersion),
                    Some(api_version) => Ok(
                        CallView { method: http.request.method, path, api_version, body },
                    ),
                },
            },
        },
    }
}

/// The status codes and the error mark of the descriptions of responses.
pub open spec fn fits(response: crate::api::metadata::Response, status_code: u16) -> Option<bool> {
    match response.status_code {
        Some(codes) => if codes@.contains(status_code as i64) {
            Some(true)
        } else {
            None
        },
        None => if response.is_error == Some(true) {
            Some(false)
        } else {
            None
        },
    }
}

/// What the first description among `responses` that fits the status code
/// says of the answer: `Some(true)` that it is a result, `Some(false)` that it
/// is an error; `None` where no description fits. A description with status
/// codes fits the codes it lists; one without fits where it stands for errors.
pub open spec fn verdict(responses: Seq<crate::api::metadata::Response>, status_code: u16) -> Option<
    bool,
>
    decreases responses.len(),
{
    if responses.len() == 0 {
        None
    } else {
        match fits(responses[0], status_code) {
            Some(v) => Some(v),
            None => verdict(responses.skip(1), status_code),
        }
    }
}

/// What the answer to the call of `operation` comes to.
pub open spec fn answered(operation: Operation, status_code: u16, body: Seq<u8>) -> Result<
    Value,
    InvokeErrorView,
> {
    match operation.http {
        None => Err(InvokeErrorView::NoHttp),
        Some(http) => match verdict(http.responses@, status_code) {
            Some(true) => match json_value(body) {
                Some(v) => Ok(v),
                None => Err(InvokeErrorView::ResponseNotJson),
            },
            Some(false) => Err(InvokeErrorView::ErrorResponse(lossy_text(body))),
            None => Err(InvokeErrorView::NoHttp),
        },
    }
}

/// Whether `codes` lists `code`.
fn lists(codes: &Vec<i64>, code: i64) -> (r: bool)
    ensures
        r == codes@.contains(code),
{
    let mut i: usize = 0;
    while i < codes.len()
        invariant
            i <= codes.len(),
            forall|j: int| 0 <= j < i ==> codes@[j] != code,
        decreases codes.len() - i,
    {
        if codes[i] == code {
            return true;
        }
        i += 1;
    }
    false
}

/// The call of one command with the values of a command line.
#[derive(Debug)]
pub struct CommandInvocation<'a> {
    pub metadata: &'a Command,
    pub args: &'a ArgValues,
}

/// The call of one operation with the values of a command line and of a context.
#[derive(Debug)]
pub struct OperationInvocation<'a> {
    pub metadata: &'a Operation,
    pub args: &'a ArgValues,
    pub ctx_args: Vec<(String, Value)>,
}

impl<'a> CommandInvocation<'a> {
    /// The call of the first operation of the command, with no values of a
    /// context; an error where the command has no operation.
    pub fn invoke(&self) -> (r: Result<OperationInvocation<'a>, InvokeError>)
        ensures
            match r {
                Ok(call) => {
                    &&& self.metadata.operations@.len() > 0
                    &&& *call.metadata == self.metadata.operations@[0]
                    &&& *call.args == *self.args
                    &&& call.ctx_args@.len() == 0
                },
                Err(e) => {
                    &&& self.metadata.operations@.len() == 0
                    &&& e@ == InvokeErrorView::NoOperation(self.metadata.name@)
                },
            },
    {
        if self.metadata.operations.len() == 0 {
            return Err(InvokeError::NoOperation(self.metadata.name.clone()));
        }
        Ok(
            OperationInvocation {
                metadata: &self.metadata.operations[0],
                args: self.args,
                ctx_args: Vec::new(),
            },
        )
    }
}

impl<'a> OperationInvocation<'a> {
    /// The JSON value that is built for `schema` from the values of this call.
    pub fn build_value(&self, schema: &Schema) -> (r: Result<Option<Value>, InvokeError>)
        ensures
            comes_to(r, built(*schema, self.args.values@, self.ctx_args@)),
    {
        build_value(schema, self.args, &self.ctx_args)
    }

    /// The path of the call, its parameters filled in.
    fn path(&self, http: &Http) -> (r: Result<String, InvokeError>)
        ensures
            match filled_path(
                http.path@,
                http.request.path.params@,
                self.args.values@,
                self.ctx_args@,
            ) {
                Ok(path) => r matches Ok(p) && p@ == path,
                Err(e) => r matches Err(x) && x@ == e,
            },
    {
        let params = &http.request.path.params;
        let mut path = http.path.clone();
        let mut i: usize = 0;
        assert(params@.skip(0) =~= params@);
        while i < params.len()
            invariant
                i <= params.len(),
                params == &http.request.path.params,
                filled_path(http.path@, params@, self.args.values@, self.ctx_args@)
                    == filled_path(
                    path@,
                    params@.skip(i as int),
                    self.args.values@,
                    self.ctx_args@,
                ),
            decreases params.len() - i,
        {
            let param = &params[i];
            assert(params@.skip(i as int)[0] == *param);
            assert(params@.skip(i as int).skip(1) =~= params@.skip(i + 1));
            let hole = String::from_str("{").concat(param.name.as_str()).concat("}");
            match find_entry(&self.args.values, param.arg.as_str()) {
                Some(ArgValue::Text(t)) => {
                    path = replace(path.as_str(), hole.as_str(), t.as_str());
                },
                Some(_) => {
                    return Err(InvokeError::WrongType(param.arg.clone()));
                },
                None => match find_entry(&self.ctx_args, param.arg.as_str()) {
                    Some(v) => match crate::json::text_of(v) {
                        Some(t) => {
                            path = replace(path.as_str(), hole.as_str(), t);
                        },
                        None => {
                            return Err(InvokeError::WrongType(param.arg.clone()));
                        },
                    },
                    None => {
                        if let Some(true) = param.required {
                            return Err(InvokeError::MissingPathParameter(param.name.clone()));
                        }
                        return Err(InvokeError::OptionalPathParameter);
                    },
                },
            }
            i += 1;
        }
        Ok(path)
    }

    /// The API version of the call.
    fn api_version(consts: &Vec<RequestQueryConst>) -> (r: Option<String>)
        ensures
            match last_const(consts@, "api-version"@) {
                Some(v) => r matches Some(s) && s@ == v,
                None => r is None,
            },
    {
        let mut found: Option<String> = None;
        let mut i: usize = 0;
        assert(consts@.take(0) =~= Seq::<RequestQueryConst>::empty());
        while i < consts.len()
            invariant
                i <= consts.len(),
                match last_const(consts@.take(i as int), "api-version"@) {
                    Some(v) => found matches Some(s) && s@ == v,
                    None => found is None,
                },
            decreases consts.len() - i,
        {
            assert(consts@.take(i + 1).drop_last() =~= consts@.take(i as int));
            assert(consts@.take(i + 1).last() == consts@[i as int]);
            if str_eq(consts[i].name.as_str(), "api-version") {
                found = Some(consts[i].default.value.clone());
            }
            i += 1;
        }
        assert(consts@.take(i as int) =~= consts@);
        found
    }

    /// The call to make: the method, the path with its parameters filled in,
    /// the API version, and the body built from the values.
    pub fn call(&self) -> (r: Result<Call, InvokeError>)
        ensures
            match planned(*self.metadata, self.args.values@, self.ctx_args@) {
                Ok(call) => r matches Ok(c) && c@ == call,
                Err(e) => r matches Err(x) && x@ == e,
            },
    {
        let http = match &self.metadata.http {
            Some(http) => http,
            None => {
                return Err(InvokeError::NoHttp);
            },
        };
        let path = self.path(http)?;
        let mut body: Option<Bytes> = None;
        if let Some(body_meta) = &http.request.body {
            if let Some(schema) = &body_meta.json.schema {
                if let Some(value) = self.build_value(schema)? {
                    let text = show(&value);
                    body = Some(bytes_from_vec(text.as_str().as_bytes_vec()));
                }
            }
        }
        match OperationInvocation::api_version(&http.request.query.consts) {
            Some(api_version) => Ok(Call { method: http.request.method, path, api_version, body }),
            None => Err(InvokeError::MissingApiVersion),
        }
    }

    /// What the answer to the call comes to: the JSON value in its body, where
    /// the description of the operation lists its status code; the error that
    /// the description makes of it; or that no description fits.
    pub fn invoke(&self, response: &crate::client::response::Response) -> (r: Result<
        Value,
        InvokeError,
    >)
        ensures
            comes_to(
                r,
                answered(*self.metadata, response.status_code, bytes_seq(response.body)),
            ),
    {
        let http = match &self.metadata.http {
            Some(http) => http,
            None => {
                return Err(InvokeError::NoHttp);
            },
        };
        let responses = &http.responses;
        let mut i: usize = 0;
        assert(responses@.skip(0) =~= responses@);
        while i < responses.len()
            invariant
                i <= responses.len(),
                responses == &http.responses,
                self.metadata.http == Some(*http),
                verdict(http.responses@, response.status_code) == verdict(
                    responses@.skip(i as int),
                    response.status_code,
                ),
            decreases responses.len() - i,
        {
            let meta = &responses[i];
            assert(responses@.skip(i as int)[0] == *meta);
            assert(responses@.skip(i as int).skip(1) =~= responses@.skip(i + 1));
            if let Some(codes) = &meta.status_code {
                if lists(codes, response.status_code as i64) {
                    return match parse_value(response.body_bytes()) {
                        Some(v) => Ok(v),
                        None => Err(InvokeError::ResponseNotJson),
                    };
                }
            } else if let Some(true) = meta.is_error {
                return Err(InvokeError::ErrorResponse(text_lossy(response.body_bytes())));
            }
            i += 1;
        }
        Err(InvokeError::NoHttp)
    }
}

} // verus!
