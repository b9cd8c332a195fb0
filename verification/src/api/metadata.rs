use crate::arg::{positionals, CliInput};
use crate::text::str_eq;
use vstd::prelude::*;
use vstd::string::StringExecFns;

verus! {

/// The description of the commands of one resource provider.
#[derive(Debug)]
pub struct Metadata {
    pub plane: Plane,
    pub command_groups: Vec<CommandGroup>,
    pub resources: Vec<Resource>,
}

/// Whether the API manages resources or works on their data.
#[derive(Debug, Copy, Clone, PartialEq, Eq, Structural)]
pub enum Plane {
    Mgmt,
    Data,
}

/// The HTTP method of an operation.
#[derive(Debug, Copy, Clone, PartialEq, Eq, Structural)]
pub enum Method {
    Head,
    Get,
    Put,
    Patch,
    Post,
    Delete,
}

/// A named group of commands, with the groups inside it.
#[derive(Debug)]
pub struct CommandGroup {
    pub name: String,
    pub commands: Vec<Command>,
    pub command_groups: Option<Vec<CommandGroup>>,
}

/// One command: its arguments and the operations it stands for.
#[derive(Debug)]
pub struct Command {
    pub resources: Vec<Resource>,
    pub name: String,
    pub version: String,
    pub arg_groups: Vec<ArgGroup>,
    pub operations: Vec<Operation>,
    pub outputs: Option<Vec<Output>>,
    pub confirmation: Option<String>,
}

/// A resource that a command works on.
#[derive(Debug)]
pub struct Resource {
    pub id: String,
    pub version: String,
    pub swagger: String,
}

/// A named group of arguments.
#[derive(Debug)]
pub struct ArgGroup {
    pub name: String,
    pub args: Vec<Arg>,
}

/// One argument of a command.
#[derive(Debug)]
pub struct Arg {
    pub type_: String,
    pub var: String,
    pub options: Vec<String>,
    pub group: Option<String>,
    pub help: Option<Help>,
    pub required: Option<bool>,
    pub id_part: Option<String>,
    pub additional_props: Option<AdditionalPropSchema>,
}

/// The help text of an argument.
#[derive(Debug)]
pub struct Help {
    pub short: String,
}

/// One operation of a command.
#[derive(Debug)]
pub struct Operation {
    pub operation_id: Option<String>,
    pub http: Option<Http>,
}

/// An operation as an HTTP call.
#[derive(Debug)]
pub struct Http {
    pub path: String,
    pub request: Request,
    pub responses: Vec<Response>,
}

/// The request of an HTTP call.
#[derive(Debug)]
pub struct Request {
    pub method: Method,
    pub path: RequestPath,
    pub query: RequestQuery,
    pub body: Option<Body>,
}

/// The parameters in the path of a request.
#[derive(Debug)]
pub struct RequestPath {
    pub params: Vec<RequestPathParam>,
}

/// One parameter in the path of a request: `name` stands in the path, `arg`
/// names the argument that fills it.
#[derive(Debug)]
pub struct RequestPathParam {
    pub type_: String,
    pub name: String,
    pub arg: String,
    pub required: Option<bool>,
    pub format: Option<RequestFormat>,
}

/// What a parameter of the path must look like.
#[derive(Debug)]
pub struct RequestFormat {
    pub pattern: String,
    pub max_length: i64,
    pub min_length: i64,
}

/// How a value of a response is written.
#[derive(Debug)]
pub struct ResponseFormat {
    pub template: String,
}

/// The query of a request.
#[derive(Debug)]
pub struct RequestQuery {
    pub consts: Vec<RequestQueryConst>,
}

/// One pair of the query with a fixed value.
#[derive(Debug)]
pub struct RequestQueryConst {
    pub name: String,
    pub type_: String,
    pub required: Option<bool>,
    pub read_only: Option<bool>,
    pub const_: bool,
    pub default: DefaultValue,
}

/// A value that is used where none is given.
#[derive(Debug)]
pub struct DefaultValue {
    pub value: String,
}

/// The body of a request or a response.
#[derive(Debug)]
pub struct Body {
    pub json: BodyJSON,
}

/// A body as JSON.
#[derive(Debug)]
pub struct BodyJSON {
    pub schema: Option<Schema>,
    /// Only in the body of a response.
    pub var: Option<String>,
    pub ref_: Option<String>,
}

/// The description of one kind of response: the status codes it comes with,
/// or that it stands for an error.
#[derive(Debug)]
pub struct Response {
    pub status_code: Option<Vec<i64>>,
    pub body: Option<Body>,
    pub is_error: Option<bool>,
}

/// What a command prints.
#[derive(Debug)]
pub struct Output {
    pub type_: String,
    pub ref_: String,
    pub client_flatten: Option<bool>,
}

/// The shape of a JSON value, and the argument that gives the value.
#[derive(Debug)]
pub struct Schema {
    pub type_: String,
    pub name: Option<String>,
    pub required: Option<bool>,
    pub arg: Option<String>,
    pub read_only: Option<bool>,
    pub props: Option<Vec<Schema>>,
    pub format: Option<ResponseFormat>,
    pub client_flatten: Option<bool>,
    pub additional_props: Option<AdditionalPropSchema>,
}

/// The shape of the members of an object that are not named beforehand.
#[derive(Debug)]
pub struct AdditionalPropSchema {
    pub item: AdditionalPropItemSchema,
}

/// The shape of one such member.
#[derive(Debug)]
pub struct AdditionalPropItemSchema {
    pub type_: String,
}

/// Why the positional arguments of an input name no command.
#[derive(Debug, Clone, PartialEq, Eq)]
pub enum ResolveError {
    /// The input holds no argument at all.
    EmptyInput,
    /// This argument names nothing where it stands.
    UnknownArgument(String),
    /// The arguments name a command group, not a command.
    NotACommand,
}

/// What a `ResolveError` holds, as mathematical values.
pub enum ResolveErrorView {
    EmptyInput,
    UnknownArgument(Seq<char>),
    NotACommand,
}

impl View for ResolveError {
    type V = ResolveErrorView;

    open spec fn view(&self) -> ResolveErrorView {
        match self {
            ResolveError::EmptyInput => ResolveErrorView::EmptyInput,
            ResolveError::UnknownArgument(arg) => ResolveErrorView::UnknownArgument(arg@),
            ResolveError::NotACommand => ResolveErrorView::NotACommand,
        }
    }
}

impl ResolveError {
    /// What the error says.
    pub open spec fn text(self) -> Seq<char> {
        match self {
            ResolveError::EmptyInput => "empty CLI input"@,
            ResolveError::UnknownArgument(arg) => "unknown argument "@ + arg@,
            ResolveError::NotACommand => "this isn't a command"@,
        }
    }

    /// What the error says.
    pub fn to_string(&self) -> (s: String)
        ensures
            s@ == self.text(),
    {
        match self {
            ResolveError::EmptyInput => "empty CLI input".to_owned(),
            ResolveError::UnknownArgument(arg) => String::from_str("unknown argument ").concat(
                arg.as_str(),
            ),
            ResolveError::NotACommand => "this isn't a command".to_owned(),
        }
    }
}

/// The place of the first group among `groups` with the name `name`, where
/// there is one.
pub open spec fn first_group(groups: Seq<CommandGroup>, name: Seq<char>) -> Option<int>
    decreases groups.len(),
{
    if groups.len() == 0 {
        None
    } else if groups[0].name@ == name {
        Some(0)
    } else {
        match first_group(groups.skip(1), name) {
            Some(i) => Some(i + 1),
            None => None,
        }
    }
}

/// The place of the first command among `commands` with the name `name`,
/// where there is one.
pub open spec fn first_command(commands: Seq<Command>, name: Seq<char>) -> Option<int>
    decreases commands.len(),
{
    if commands.len() == 0 {
        None
    } else if commands[0].name@ == name {
        Some(0)
    } else {
        match first_command(commands.skip(1), name) {
            Some(i) => Some(i + 1),
            None => None,
        }
    }
}

/// The groups inside a group.
pub open spec fn subgroups(group: CommandGroup) -> Seq<CommandGroup> {
    match group.command_groups {
        Some(groups) => groups@,
        None => Seq::empty(),
    }
}

/// The command that `args` name below the groups `groups` and beside the
/// commands `commands`. Each argument but the last names a group inside the
/// one before; the last names a command of the last group. A name is looked
/// for among the groups first.
pub open spec fn resolved(groups: Seq<CommandGroup>, commands: Seq<Command>, args: Seq<Seq<char>>) -> Result<
    Command,
    ResolveErrorView,
>
    decreases args.len(),
{
    if args.len() == 0 {
        Err(ResolveErrorView::NotACommand)
    } else {
        match first_group(groups, args[0]) {
            Some(g) => resolved(subgroups(groups[g]), groups[g].commands@, args.skip(1)),
            None => match first_command(commands, args[0]) {
                Some(c) => if args.len() > 1 {
                    Err(ResolveErrorView::UnknownArgument(args[1]))
                } else {
                    Ok(commands[c])
                },
                None => Err(ResolveErrorView::UnknownArgument(args[0])),
            },
        }
    }
}

/// `first_group` gives a place among the groups, and the group there has the name.
pub proof fn lemma_first_group(groups: Seq<CommandGroup>, name: Seq<char>)
    ensures
        match first_group(groups, name) {
            Some(i) => 0 <= i < groups.len() && groups[i].name@ == name && forall|j: int|
                0 <= j < i ==> (#[trigger] groups[j]).name@ != name,
            None => forall|j: int| 0 <= j < groups.len() ==> (#[trigger] groups[j]).name@ != name,
        },
    decreases groups.len(),
{
    if groups.len() != 0 && groups[0].name@ != name {
        lemma_first_group(groups.skip(1), name);
        let rest = groups.skip(1);
        match first_group(rest, name) {
            Some(i) => {
                assert forall|j: int| 0 <= j < i + 1 implies (#[trigger] groups[j]).name@
                    != name by {
                    if j > 0 {
                        assert(groups[j] == rest[j - 1]);
                    }
                }
            },
            None => {
                assert forall|j: int| 0 <= j < groups.len() implies (#[trigger] groups[j]).name@
                    != name by {
                    if j > 0 {
                        assert(groups[j] == rest[j - 1]);
                    }
                }
            },
        }
    }
}

/// `first_command` gives a place among the commands, and the command there has the name.
pub proof fn lemma_first_command(commands: Seq<Command>, name: Seq<char>)
    ensures
        match first_command(commands, name) {
            Some(i) => 0 <= i < commands.len() && commands[i].name@ == name && forall|j: int|
                0 <= j < i ==> (#[trigger] commands[j]).name@ != name,
            None => forall|j: int|
                0 <= j < commands.len() ==> (#[trigger] commands[j]).name@ != name,
        },
    decreases commands.len(),
{
    if commands.len() != 0 && commands[0].name@ != name {
        lemma_first_command(commands.skip(1), name);
        let rest = commands.skip(1);
        match first_command(rest, name) {
            Some(i) => {
                assert forall|j: int| 0 <= j < i + 1 implies (#[trigger] commands[j]).name@
                    != name by {
                    if j > 0 {
                        assert(commands[j] == rest[j - 1]);
                    }
                }
            },
            None => {
                assert forall|j: int| 0 <= j < commands.len() implies (
                #[trigger] commands[j]).name@ != name by {
                    if j > 0 {
                        assert(commands[j] == rest[j - 1]);
                    }
                }
            },
        }
    }
}

/// The first group among `groups` with the name `name`.
pub fn find_group<'a>(groups: &'a Vec<CommandGroup>, name: &str) -> (r: Option<&'a CommandGroup>)
    ensures
        match first_group(groups@, name@) {
            Some(i) => r == Some(&groups@[i]),
            None => r is None,
        },
{
    let mut i: usize = 0;
    while i < groups.len()
        invariant
            i <= groups.len(),
            forall|j: int| 0 <= j < i ==> (#[trigger] groups@[j]).name@ != name@,
        decreases groups.len() - i,
    {
        if str_eq(groups[i].name.as_str(), name) {
            proof {
                lemma_first_group(groups@, name@);
                let here = groups@[i as int];
                assert(here.name@ == name@);
                if let Some(k) = first_group(groups@, name@) {
                    if k < i {
                        assert(groups@[k].name@ != name@);
                    }
                }
            }
            return Some(&groups[i]);
        }
        i += 1;
    }
    proof {
        lemma_first_group(groups@, name@);
    }
    None
}

/// The first command among `commands` with the name `name`.
pub fn find_command<'a>(commands: &'a Vec<Command>, name: &str) -> (r: Option<&'a Command>)
    ensures
        match first_command(commands@, name@) {
            Some(i) => r == Some(&commands@[i]),
            None => r is None,
        },
{
    let mut i: usize = 0;
    while i < commands.len()
        invariant
            i <= commands.len(),
            forall|j: int| 0 <= j < i ==> (#[trigger] commands@[j]).name@ != name@,
        decreases commands.len() - i,
    {
        if str_eq(commands[i].name.as_str(), name) {
            proof {
                lemma_first_command(commands@, name@);
                let here = commands@[i as int];
                assert(here.name@ == name@);
                if let Some(k) = first_command(commands@, name@) {
                    if k < i {
                        assert(commands@[k].name@ != name@);
                    }
                }
            }
            return Some(&commands[i]);
        }
        i += 1;
    }
    proof {
        lemma_first_command(commands@, name@);
    }
    None
}

impl Metadata {
    /// The command that the input names, or why it names none. The first
    /// positional argument names the resource provider and is passed over;
    /// the others lead through the command groups to the command.
    pub open spec fn command_of(&self, input: CliInput) -> Result<Command, ResolveErrorView> {
        if input@.len() == 0 {
            Err(ResolveErrorView::EmptyInput)
        } else {
            let names = positionals(input@);
            resolved(
                self.command_groups@,
                Seq::empty(),
                if names.len() > 0 {
                    names.skip(1)
                } else {
                    names
                },
            )
        }
    }

    /// The command that the input names.
    pub fn resolve_command<'a>(&'a self, input: &CliInput) -> (r: Result<&'a Command, ResolveError>)
        ensures
            match self.command_of(*input) {
                Ok(command) => r matches Ok(c) && *c == command,
                Err(error) => r matches Err(e) && e@ == error,
            },
    {
        if input.is_empty() {
            return Err(ResolveError::EmptyInput);
        }
        let args = input.pos_args();
        let ghost names = crate::arg::raw_texts(args@);
        let mut groups: Option<&Vec<CommandGroup>> = Some(&self.command_groups);
        let mut commands: Option<&Vec<Command>> = None;
        let mut i: usize = if args.len() > 0 {
            1
        } else {
            0
        };
        assert(names.skip(0) =~= names);
        while i < args.len()
            invariant
                i <= args.len(),
                names == crate::arg::raw_texts(args@),
                names == positionals(input@),
                input@.len() > 0,
                self.command_of(*input) == resolved(
                    match groups {
                        Some(g) => g@,
                        None => Seq::empty(),
                    },
                    match commands {
                        Some(c) => c@,
                        None => Seq::empty(),
                    },
                    names.skip(i as int),
                ),
            decreases args.len() - i,
        {
            let arg: &str = args[i];
            let ghost rest = names.skip(i as int);
            assert(rest[0] == arg@);
            assert(rest.skip(1) =~= names.skip(i + 1));
            let group = match groups {
                Some(g) => find_group(g, arg),
                None => None,
            };
            if let Some(found) = group {
                groups = match &found.command_groups {
                    Some(g) => Some(g),
                    None => None,
                };
                commands = Some(&found.commands);
                i += 1;
                continue ;
            }
            let command = match commands {
                Some(c) => find_command(c, arg),
                None => None,
            };
            match command {
                Some(found) => {
                    if i + 1 < args.len() {
                        assert(rest[1] == args[i + 1]@);
                        return Err(ResolveError::UnknownArgument(args[i + 1].to_owned()));
                    }
                    return Ok(found);
                },
                None => {
                    return Err(ResolveError::UnknownArgument(arg.to_owned()));
                },
            }
        }
        assert(names.skip(i as int).len() == 0);
        Err(ResolveError::NotACommand)
    }
}

} // verus!
