use azure::api::metadata::{Command, CommandGroup, Metadata, Plane, ResolveError};
use azure::api::{rp_name, ApiError, ApiManager};
use azure::arg::{Arg, ArgError, CliInput};

#[test]
fn new_cli_input() {
    assert_eq!(
        CliInput::new(vec!["foo"]).unwrap().args,
        vec![Arg::Positional(String::from("foo"))]
    );
    assert_eq!(
        CliInput::new(vec!["foo", "bar"]).unwrap().args,
        vec![
            Arg::Positional(String::from("foo")),
            Arg::Positional(String::from("bar")),
        ]
    );
    assert_eq!(
        CliInput::new(vec!["foo", "--bar"]).unwrap().args,
        vec![
            Arg::Positional(String::from("foo")),
            Arg::Optional(String::from("bar"), None),
        ]
    );
    assert_eq!(
        CliInput::new(vec!["foo", "-b"]).unwrap().args,
        vec![
            Arg::Positional(String::from("foo")),
            Arg::Optional(String::from("b"), None),
        ]
    );
    assert_eq!(
        CliInput::new(vec!["foo", "--bar=baz"]).unwrap().args,
        vec![
            Arg::Positional(String::from("foo")),
            Arg::Optional(String::from("bar"), Some(String::from("baz"))),
        ]
    );
    assert_eq!(
        CliInput::new(vec!["foo", "-b=baz"]).unwrap().args,
        vec![
            Arg::Positional(String::from("foo")),
            Arg::Optional(String::from("b"), Some(String::from("baz"))),
        ]
    );
    assert_eq!(
        CliInput::new(vec!["foo", "--bar", "baz"]).unwrap().args,
        vec![
            Arg::Positional(String::from("foo")),
            Arg::Optional(String::from("bar"), Some(String::from("baz"))),
        ]
    );
    assert_eq!(
        CliInput::new(vec!["foo", "-b", "baz"]).unwrap().args,
        vec![
            Arg::Positional(String::from("foo")),
            Arg::Optional(String::from("b"), Some(String::from("baz"))),
        ]
    );
}

#[test]
fn cli_input_edge_cases() {
    assert_eq!(CliInput::new(vec![]).unwrap().args, vec![]);
    assert_eq!(
        CliInput::new(vec!["--a", "--b"]).unwrap().args,
        vec![Arg::Optional("a".into(), None), Arg::Optional("b".into(), None)]
    );
    assert_eq!(
        CliInput::new(vec!["--k=v=w"]).unwrap().args,
        vec![Arg::Optional("k".into(), Some("v=w".into()))]
    );
    assert_eq!(
        CliInput::new(vec!["--k="]).unwrap().args,
        vec![Arg::Optional("k".into(), Some("".into()))]
    );
    assert_eq!(
        CliInput::new(vec!["--=v"]).unwrap().args,
        vec![Arg::Optional("".into(), Some("v".into()))]
    );
    assert_eq!(
        CliInput::new(vec!["-"]).unwrap().args,
        vec![Arg::Optional("".into(), None)]
    );
    assert_eq!(
        CliInput::new(vec!["---x"]).unwrap().args,
        vec![Arg::Optional("-x".into(), None)]
    );
    assert_eq!(
        CliInput::new(vec!["--k", ""]).unwrap().args,
        vec![Arg::Optional("k".into(), Some("".into()))]
    );
    assert_eq!(
        CliInput::new(vec!["", "--é=ü", "--k", "値"]).unwrap().args,
        vec![
            Arg::Positional("".into()),
            Arg::Optional("é".into(), Some("ü".into())),
            Arg::Optional("k".into(), Some("値".into())),
        ]
    );
}

#[test]
fn positional_after_optional_is_refused() {
    assert_eq!(CliInput::new(vec!["--a", "b", "c"]).unwrap_err(), ArgError::PositionalAfterOptional);
    assert_eq!(CliInput::new(vec!["x", "--a=b", "c"]).unwrap_err(), ArgError::PositionalAfterOptional);
    assert_eq!(CliInput::new(vec!["-a", "-b", "v", "p"]).unwrap_err(), ArgError::PositionalAfterOptional);
    assert_eq!(
        ArgError::PositionalAfterOptional.to_string(),
        "optional raw arguments must follow positional raw arguments"
    );
}

#[test]
fn cli_input_queries() {
    let input = CliInput::new(vec!["rp", "group", "cmd", "--name", "n", "-h"]).unwrap();
    assert!(input.is_help());
    assert_eq!(input.pos_args(), vec!["rp", "group", "cmd"]);
    assert_eq!(input.len(), 5);
    assert!(!input.is_empty());
    let input = CliInput::new(vec!["rp", "--help"]).unwrap();
    assert!(input.is_help());
    let input = CliInput::new(vec!["h", "help", "--helper", "--x", "h"]).unwrap();
    assert!(!input.is_help());
    assert_eq!(input.pos_args(), vec!["h", "help"]);
    let input = CliInput::new(vec![]).unwrap();
    assert!(input.is_empty());
    assert_eq!(input.len(), 0);
    assert!(!input.is_help());
    assert!(input.pos_args().is_empty());
}

fn command(name: &str) -> Command {
    Command {
        resources: vec![],
        name: name.to_string(),
        version: "v1".to_string(),
        arg_groups: vec![],
        operations: vec![],
        outputs: None,
        confirmation: None,
    }
}

fn group(name: &str, commands: Vec<Command>, groups: Option<Vec<CommandGroup>>) -> CommandGroup {
    CommandGroup { name: name.to_string(), commands, command_groups: groups }
}

fn metadata() -> Metadata {
    Metadata {
        plane: Plane::Mgmt,
        command_groups: vec![
            group(
                "group",
                vec![command("show"), command("list"), command("inner")],
                Some(vec![
                    group("inner", vec![command("create")], None),
                    group("inner", vec![command("shadowed")], None),
                ]),
            ),
            group("empty", vec![], Some(vec![])),
        ],
        resources: vec![],
    }
}

fn resolve(args: Vec<&str>) -> Result<String, ResolveError> {
    let m = metadata();
    let input = CliInput::new(args).unwrap();
    m.resolve_command(&input).map(|c| c.name.clone())
}

#[test]
fn resolve_command_walks_the_groups() {
    assert_eq!(resolve(vec!["rp", "group", "show"]).unwrap(), "show");
    assert_eq!(resolve(vec!["rp", "group", "list", "--x", "y"]).unwrap(), "list");
    assert_eq!(resolve(vec!["rp", "group", "inner", "create"]).unwrap(), "create");
    assert_eq!(resolve(vec!["other", "group", "show"]).unwrap(), "show");
}

#[test]
fn resolve_command_errors() {
    assert_eq!(resolve(vec![]).unwrap_err(), ResolveError::EmptyInput);
    assert_eq!(resolve(vec!["--x"]).unwrap_err(), ResolveError::NotACommand);
    assert_eq!(resolve(vec!["rp"]).unwrap_err(), ResolveError::NotACommand);
    assert_eq!(resolve(vec!["rp", "group"]).unwrap_err(), ResolveError::NotACommand);
    assert_eq!(resolve(vec!["rp", "group", "inner"]).unwrap_err(), ResolveError::NotACommand);
    assert_eq!(
        resolve(vec!["rp", "nope"]).unwrap_err(),
        ResolveError::UnknownArgument("nope".to_string())
    );
    assert_eq!(
        resolve(vec!["rp", "show"]).unwrap_err(),
        ResolveError::UnknownArgument("show".to_string())
    );
    assert_eq!(
        resolve(vec!["rp", "group", "show", "extra"]).unwrap_err(),
        ResolveError::UnknownArgument("extra".to_string())
    );
    assert_eq!(
        resolve(vec!["rp", "group", "inner", "shadowed"]).unwrap_err(),
        ResolveError::UnknownArgument("shadowed".to_string())
    );
    assert_eq!(
        resolve(vec!["rp", "empty", "x"]).unwrap_err(),
        ResolveError::UnknownArgument("x".to_string())
    );
    assert_eq!(ResolveError::EmptyInput.to_string(), "empty CLI input");
    assert_eq!(ResolveError::NotACommand.to_string(), "this isn't a command");
    assert_eq!(
        ResolveError::UnknownArgument("a b".to_string()).to_string(),
        "unknown argument a b"
    );
}

#[test]
fn rp_names_come_from_json_files() {
    assert_eq!(rp_name("Microsoft.Compute.json").as_deref(), Some("Microsoft.Compute"));
    assert_eq!(rp_name("a.json").as_deref(), Some("a"));
    assert_eq!(rp_name("..json").as_deref(), Some("."));
    assert_eq!(rp_name("é.json").as_deref(), Some("é"));
    for name in [".json", "json", "a.JSON", "a.json5", "a.jso", "", "a.json.bak", "ajson"] {
        assert_eq!(rp_name(name), None, "{name}");
    }
}

#[test]
fn api_manager_lists_the_rps() {
    let files = ["b.json", "README.md", "a.json", ".json", "c.yaml", "a.b.json"];
    let m = ApiManager::new("./metadata".to_string(), files.iter().map(|s| s.to_string()).collect());
    assert_eq!(m.path, "./metadata");
    assert_eq!(m.list_rps(), &vec!["b".to_string(), "a".to_string(), "a.b".to_string()]);
    let m = ApiManager::new(String::new(), vec![]);
    assert!(m.list_rps().is_empty());
}

#[test]
fn api_manager_takes_the_first_positional() {
    let m = ApiManager::new("p".to_string(), vec![]);
    let input = CliInput::new(vec!["compute", "vm", "--name", "x"]).unwrap();
    assert_eq!(m.build_ctx(&input).unwrap(), "compute");
    assert_eq!(m.build_api(&input).unwrap(), "compute");
    let input = CliInput::new(vec!["--name", "x"]).unwrap();
    assert_eq!(m.build_ctx(&input).unwrap_err(), ApiError::RpNotSpecified);
    assert_eq!(m.build_api(&input).unwrap_err(), ApiError::NoPositionalArgument);
    assert_eq!(ApiError::RpNotSpecified.to_string(), "the rp is not specified");
    assert_eq!(
        ApiError::NoPositionalArgument.to_string(),
        "no positional argument specified from the CLI input"
    );
}
