use crate::api::metadata;
use crate::api::metadata::{
    find_command, find_group, first_command, first_group, subgroups, Command, CommandGroup,
    Metadata,
};
use crate::arg::{positionals, raw_texts, CliInput};
use crate::text::{opt_text, texts};
use vstd::prelude::*;
use vstd::string::StrSliceExecFns;
use vstd::utf8::is_ascii_chars;

verus! {

/// One argument of a command, as the command-line parser is to know it.
#[derive(Debug, Clone, PartialEq, Eq)]
pub struct ArgDef {
    /// The name under which the value is found after parsing.
    pub id: String,
    /// The word that stands for the value in the help text.
    pub value_name: Option<String>,
    pub short: Option<char>,
    pub short_aliases: Vec<char>,
    pub long: Option<String>,
    pub long_aliases: Vec<String>,
    pub required: Option<bool>,
    pub help: Option<String>,
    /// Whether the argument takes every word that is left, options too, and
    /// is not shown in the help text.
    pub takes_the_rest: bool,
}

/// What an `ArgDef` holds, as mathematical values.
pub struct ArgDefView {
    pub id: Seq<char>,
    pub value_name: Option<Seq<char>>,
    pub short: Option<char>,
    pub short_aliases: Seq<char>,
    pub long: Option<Seq<char>>,
    pub long_aliases: Seq<Seq<char>>,
    pub required: Option<bool>,
    pub help: Option<Seq<char>>,
    pub takes_the_rest: bool,
}

impl View for ArgDef {
    type V = ArgDefView;

    open spec fn view(&self) -> ArgDefView {
        ArgDefView {
            id: self.id@,
            value_name: opt_text(self.value_name),
            short: self.short,
            short_aliases: self.short_aliases@,
            long: opt_text(self.long),
            long_aliases: texts(self.long_aliases@),
            required: self.required,
            help: opt_text(self.help),
            takes_the_rest: self.takes_the_rest,
        }
    }
}

/// Whether an option is a short one: a single ASCII character.
pub open spec fn is_short(option: Seq<char>) -> bool {
    option.len() == 1 && is_ascii_chars(option)
}

/// The characters of the short options among `options`, in order.
pub open spec fn shorts(options: Seq<Seq<char>>) -> Seq<char>
    decreases options.len(),
{
    if options.len() == 0 {
        Seq::empty()
    } else if is_short(options.last()) {
        shorts(options.drop_last()).push(options.last()[0])
    } else {
        shorts(options.drop_last())
    }
}

/// The long options among `options`, in order.
pub open spec fn longs(options: Seq<Seq<char>>) -> Seq<Seq<char>>
    decreases options.len(),
{
    if options.len() == 0 {
        Seq::empty()
    } else if is_short(options.last()) {
        longs(options.drop_last())
    } else {
        longs(options.drop_last()).push(options.last())
    }
}

/// The first of `s`, where it has one.
pub open spec fn first_of<T>(s: Seq<T>) -> Option<T> {
    if s.len() > 0 {
        Some(s[0])
    } else {
        None
    }
}

/// All of `s` but its first.
pub open spec fn rest_of<T>(s: Seq<T>) -> Seq<T> {
    if s.len() > 0 {
        s.skip(1)
    } else {
        s
    }
}

/// The short text of a help entry, where there is one.
pub open spec fn help_text(help: Option<metadata::Help>) -> Option<Seq<char>> {
    match help {
        Some(h) => Some(h.short@),
        None => None,
    }
}

/// What the parser is to know of the argument `arg` of a command: the first
/// short option and the first long option name it, the others are aliases.
pub open spec fn arg_def_of(arg: metadata::Arg) -> ArgDefView {
    let options = texts(arg.options@);
    ArgDefView {
        id: arg.var@,
        value_name: Some("value"@),
        short: first_of(shorts(options)),
        short_aliases: rest_of(shorts(options)),
        long: first_of(longs(options)),
        long_aliases: rest_of(longs(options)),
        required: arg.required,
        help: help_text(arg.help),
        takes_the_rest: false,
    }
}

/// What the parser is to know of the argument `arg`.
pub fn build_arg(arg: &metadata::Arg) -> (r: ArgDef)
    ensures
        r@ == arg_def_of(*arg),
{
    let mut short: Option<char> = None;
    let mut short_aliases: Vec<char> = Vec::new();
    let mut long: Option<String> = None;
    let mut long_aliases: Vec<String> = Vec::new();
    let ghost options = texts(arg.options@);
    let mut i: usize = 0;
    assert(options.take(0) =~= Seq::<Seq<char>>::empty());
    assert(texts(long_aliases@) =~= Seq::<Seq<char>>::empty());
    while i < arg.options.len()
        invariant
            i <= arg.options.len(),
            options == texts(arg.options@),
            short == first_of(shorts(options.take(i as int))),
            short_aliases@ == rest_of(shorts(options.take(i as int))),
            opt_text(long) == first_of(longs(options.take(i as int))),
            texts(long_aliases@) == rest_of(longs(options.take(i as int))),
        decreases arg.options.len() - i,
    {
        let opt: &String = &arg.options[i];
        let ghost before = options.take(i as int);
        let ghost now = options.take(i + 1);
        assert(now.drop_last() =~= before);
        assert(now.last() == opt@);
        let ghost old_long_aliases = texts(long_aliases@);
        if opt.as_str().is_ascii() && opt.as_str().unicode_len() == 1 {
            let c: char = opt.as_str().get_char(0);
            assert(shorts(now) == shorts(before).push(c));
            if short.is_none() {
                short = Some(c);
                assert(rest_of(shorts(now)) =~= Seq::<char>::empty());
            } else {
                short_aliases.push(c);
                assert(rest_of(shorts(now)) =~= rest_of(shorts(before)).push(c));
            }
        } else {
            assert(longs(now) == longs(before).push(opt@));
            if long.is_none() {
                long = Some(opt.clone());
                assert(rest_of(longs(now)) =~= Seq::<Seq<char>>::empty());
            } else {
                long_aliases.push(opt.clone());
                assert(texts(long_aliases@) =~= old_long_aliases.push(opt@));
                assert(rest_of(longs(now)) =~= rest_of(longs(before)).push(opt@));
            }
        }
        i += 1;
    }
    assert(options.take(i as int) =~= options);
    let help = match &arg.help {
        Some(h) => Some(h.short.clone()),
        None => None,
    };
    ArgDef {
        id: arg.var.clone(),
        value_name: Some("value".to_owned()),
        short,
        short_aliases,
        long,
        long_aliases,
        required: arg.required,
        help,
        takes_the_rest: false,
    }
}

/// What a list of argument descriptions holds.
pub open spec fn arg_def_views(args: Seq<ArgDef>) -> Seq<ArgDefView> {
    args.map_values(|a: ArgDef| a@)
}

/// What the parser is to know of each of `args`, in order.
pub open spec fn arg_defs_of(args: Seq<metadata::Arg>) -> Seq<ArgDefView> {
    args.map_values(|a: metadata::Arg| arg_def_of(a))
}

/// What the parser is to know of the arguments of all of `groups`, group
/// after group.
pub open spec fn group_arg_defs(groups: Seq<metadata::ArgGroup>) -> Seq<ArgDefView>
    decreases groups.len(),
{
    if groups.len() == 0 {
        Seq::empty()
    } else {
        group_arg_defs(groups.drop_last()) + arg_defs_of(groups.last().args@)
    }
}

/// What the parser is to know of the arguments of all of `arg_groups`.
pub fn build_args(arg_groups: &Vec<metadata::ArgGroup>) -> (r: Vec<ArgDef>)
    ensures
        arg_def_views(r@) == group_arg_defs(arg_groups@),
{
    let mut out: Vec<ArgDef> = Vec::new();
    let mut g: usize = 0;
    assert(arg_groups@.take(0) =~= Seq::<metadata::ArgGroup>::empty());
    assert(arg_def_views(out@) =~= Seq::<ArgDefView>::empty());
    while g < arg_groups.len()
        invariant
            g <= arg_groups.len(),
            arg_def_views(out@) == group_arg_defs(arg_groups@.take(g as int)),
        decreases arg_groups.len() - g,
    {
        let group = &arg_groups[g];
        let ghost before = arg_def_views(out@);
        assert(arg_groups@.take(g + 1).drop_last() =~= arg_groups@.take(g as int));
        assert(arg_groups@.take(g + 1).last() == *group);
        let mut a: usize = 0;
        assert(before + arg_defs_of(group.args@.take(0)) =~= before);
        while a < group.args.len()
            invariant
                a <= group.args.len(),
                arg_def_views(out@) == before + arg_defs_of(group.args@.take(a as int)),
            decreases group.args.len() - a,
        {
            let ghost so_far = arg_def_views(out@);
            let def = build_arg(&group.args[a]);
            let ghost view = def@;
            out.push(def);
            assert(arg_def_views(out@) =~= so_far.push(view));
            assert(arg_defs_of(group.args@.take(a + 1)) =~= arg_defs_of(
                group.args@.take(a as int),
            ).push(view));
            assert(before + arg_defs_of(group.args@.take(a as int)).push(view) =~= (before
                + arg_defs_of(group.args@.take(a as int))).push(view));
            a += 1;
        }
        assert(group.args@.take(a as int) =~= group.args@);
        g += 1;
    }
    assert(arg_groups@.take(g as int) =~= arg_groups@);
    out
}

/// A command of the command line, as the command-line parser is to know it,
/// with the commands below it.
#[derive(Debug, PartialEq, Eq)]
pub struct CommandDef {
    pub name: String,
    /// Whether the command is the program itself, which takes its name,
    /// version and description from its package.
    pub from_package: bool,
    pub about: Option<String>,
    pub subcommand_required: bool,
    pub arg_required_else_help: bool,
    pub disable_help_flag: bool,
    pub args: Vec<ArgDef>,
    pub subcommands: Vec<CommandDef>,
}

/// What a `CommandDef` holds, as mathematical values.
pub struct CommandDefView {
    pub name: Seq<char>,
    pub from_package: bool,
    pub about: Option<Seq<char>>,
    pub subcommand_required: bool,
    pub arg_required_else_help: bool,
    pub disable_help_flag: bool,
    pub args: Seq<ArgDefView>,
    pub subcommands: Seq<CommandDefView>,
}

impl CommandDef {
    /// What the command holds, and the commands below it.
    pub open spec fn view(&self) -> CommandDefView
        decreases self,
    {
        CommandDefView {
            name: self.name@,
            from_package: self.from_package,
            about: opt_text(self.about),
            subcommand_required: self.subcommand_required,
            arg_required_else_help: self.arg_required_else_help,
            disable_help_flag: self.disable_help_flag,
            args: arg_def_views(self.args@),
            subcommands: Seq::new(
                self.subcommands@.len(),
                |i: int|
                    if 0 <= i < self.subcommands@.len() {
                        self.subcommands@[i].view()
                    } else {
                        arbitrary()
                    },
            ),
        }
    }
}

/// What a list of commands holds.
pub open spec fn command_views(commands: Seq<CommandDef>) -> Seq<CommandDefView> {
    Seq::new(commands.len(), |i: int| commands[i]@)
}

/// The commands below a command are what its view holds as such.
pub proof fn lemma_subcommand_views(c: CommandDef)
    ensures
        c@.subcommands == command_views(c.subcommands@),
{
    assert(c@.subcommands =~= command_views(c.subcommands@));
}

/// The command with the name `name` and nothing else.
pub open spec fn named(name: Seq<char>) -> CommandDefView {
    CommandDefView {
        name,
        from_package: false,
        about: None,
        subcommand_required: false,
        arg_required_else_help: false,
        disable_help_flag: false,
        args: Seq::empty(),
        subcommands: Seq::empty(),
    }
}

/// `c` as a command that must be followed by one of those below it.
pub open spec fn group_like(c: CommandDefView) -> CommandDefView {
    CommandDefView { subcommand_required: true, arg_required_else_help: true, ..c }
}

/// `c` with `sub` as one more command below it.
pub open spec fn with_sub(c: CommandDefView, sub: CommandDefView) -> CommandDefView {
    CommandDefView { subcommands: c.subcommands.push(sub), ..c }
}

/// `c` with `subs` as more commands below it.
pub open spec fn with_subs(c: CommandDefView, subs: Seq<CommandDefView>) -> CommandDefView {
    CommandDefView { subcommands: c.subcommands + subs, ..c }
}

/// The program itself, without the commands below it.
pub open spec fn base_view() -> CommandDefView {
    group_like(CommandDefView { from_package: true, ..named(Seq::empty()) })
}

/// The command `api`, without what is below it.
pub open spec fn api_base_view() -> CommandDefView {
    CommandDefView { about: Some("Directly invoke the Azure API primitives."@), ..named("api"@) }
}

/// The argument that takes every word behind `api` as it is.
pub open spec fn rest_arg_view() -> ArgDefView {
    ArgDefView {
        id: "args"@,
        value_name: None,
        short: None,
        short_aliases: Seq::empty(),
        long: None,
        long_aliases: Seq::empty(),
        required: None,
        help: None,
        takes_the_rest: true,
    }
}

/// The command `api` as it is known before its words are read: it takes
/// them all as they are.
pub open spec fn api_stub_view() -> CommandDefView {
    CommandDefView { disable_help_flag: true, args: seq![rest_arg_view()], ..api_base_view() }
}

/// The program with the command `api` and, below that, `inner`.
pub open spec fn under_api(inner: Seq<CommandDefView>) -> CommandDefView {
    with_sub(base_view(), with_subs(group_like(api_base_view()), inner))
}

/// One command without anything for each of `names`.
pub open spec fn leaves(names: Seq<Seq<char>>) -> Seq<CommandDefView> {
    names.map_values(|n: Seq<char>| named(n))
}

/// The names of commands.
pub open spec fn command_names(commands: Seq<Command>) -> Seq<Seq<char>> {
    commands.map_values(|c: Command| c.name@)
}

/// The names of command groups.
pub open spec fn group_names(groups: Seq<CommandGroup>) -> Seq<Seq<char>> {
    groups.map_values(|g: CommandGroup| g.name@)
}

/// Where the positional arguments of an input lead in a description.
pub struct Walked {
    /// The arguments that were read, in order.
    pub names: Seq<Seq<char>>,
    /// The groups inside the group that was reached.
    pub groups: Seq<CommandGroup>,
    /// The commands of the group that was reached.
    pub commands: Seq<Command>,
    /// The command that was reached, where one was.
    pub command: Option<Command>,
}

/// Where `args` lead from the groups `groups` and the commands `commands`,
/// `names` having been read already. An argument that names a group leads into
/// it; one that names a command ends the walk there; any other is read and
/// passed over.
pub open spec fn walk(
    names: Seq<Seq<char>>,
    groups: Seq<CommandGroup>,
    commands: Seq<Command>,
    args: Seq<Seq<char>>,
) -> Walked
    decreases args.len(),
{
    if args.len() == 0 {
        Walked { names, groups, commands, command: None }
    } else {
        let read = names.push(args[0]);
        match first_group(groups, args[0]) {
            Some(g) => walk(read, subgroups(groups[g]), groups[g].commands@, args.skip(1)),
            None => match first_command(commands, args[0]) {
                Some(c) => Walked { names: read, groups, commands, command: Some(commands[c]) },
                None => walk(read, groups, commands, args.skip(1)),
            },
        }
    }
}

/// `inner` below one group-like command for each of `names`, the first of
/// them outermost.
pub open spec fn wrapped(names: Seq<Seq<char>>, inner: CommandDefView) -> CommandDefView
    decreases names.len(),
{
    if names.len() == 0 {
        inner
    } else {
        wrapped(names.drop_last(), with_sub(group_like(named(names.last())), inner))
    }
}

/// The command for the place that a walk has reached: the command found, with
/// its arguments; or the group reached, with its commands and groups below it.
pub open spec fn reached(w: Walked) -> CommandDefView {
    let name = w.names.last();
    match w.command {
        Some(c) => CommandDefView { args: group_arg_defs(c.arg_groups@), ..named(name) },
        None => with_subs(
            with_subs(group_like(named(name)), leaves(command_names(w.commands))),
            leaves(group_names(w.groups)),
        ),
    }
}

/// The commands that the parser is to know for the positional arguments
/// `args` of an input. Without arguments: one command for each resource
/// provider in `rps`. Else the first argument names a resource provider;
/// `metadata` is its description, where it could be read. Without one the
/// resource provider is a command without anything. With one the arguments
/// lead through it, and the place they reach stands below one command for
/// each argument read before.
pub open spec fn api_commands(rps: Seq<Seq<char>>, metadata: Option<Metadata>, args: Seq<Seq<char>>) -> CommandDefView {
    if args.len() == 0 {
        under_api(leaves(rps))
    } else {
        match metadata {
            None => under_api(seq![named(args[0])]),
            Some(m) => {
                let w = walk(Seq::empty(), m.command_groups@, Seq::empty(), args);
                under_api(seq![wrapped(w.names.drop_last(), reached(w))])
            },
        }
    }
}

/// The command with the name `name` and nothing else.
pub fn new_command(name: &str) -> (r: CommandDef)
    ensures
        r@ == named(name@),
{
    let r = CommandDef {
        name: name.to_owned(),
        from_package: false,
        about: None,
        subcommand_required: false,
        arg_required_else_help: false,
        disable_help_flag: false,
        args: Vec::new(),
        subcommands: Vec::new(),
    };
    assert(r@.subcommands =~= Seq::<CommandDefView>::empty());
    assert(r@.args =~= Seq::<ArgDefView>::empty());
    r
}

impl CommandDef {
    /// This command as one that must be followed by one of those below it.
    pub fn required(self) -> (r: CommandDef)
        ensures
            r@ == group_like(self@),
    {
        let r = CommandDef { subcommand_required: true, arg_required_else_help: true, ..self };
        assert(r@.subcommands =~= self@.subcommands);
        r
    }

    /// This command with `sub` as one more command below it.
    pub fn subcommand(self, sub: CommandDef) -> (r: CommandDef)
        ensures
            r@ == with_sub(self@, sub@),
    {
        let mut r = self;
        r.subcommands.push(sub);
        assert(r@.subcommands =~= self@.subcommands.push(sub@));
        r
    }

    /// This command with `subs` as more commands below it.
    pub fn subcommands(self, subs: Vec<CommandDef>) -> (r: CommandDef)
        ensures
            r@ == with_subs(self@, command_views(subs@)),
    {
        let mut r = self;
        let mut subs = subs;
        let ghost all = subs@;
        r.subcommands.append(&mut subs);
        assert(r@.subcommands =~= self@.subcommands + command_views(all));
        r
    }
}

/// The program itself, without the commands below it.
pub fn cmd_base() -> (r: CommandDef)
    ensures
        r@ == base_view(),
{
    let r = CommandDef {
        name: String::new(),
        from_package: true,
        about: None,
        subcommand_required: true,
        arg_required_else_help: true,
        disable_help_flag: false,
        args: Vec::new(),
        subcommands: Vec::new(),
    };
    assert(r@.subcommands =~= Seq::<CommandDefView>::empty());
    assert(r@.args =~= Seq::<ArgDefView>::empty());
    assert(r@.name =~= Seq::<char>::empty());
    r
}

/// The command `api`, without what is below it.
pub fn cmd_api_base() -> (r: CommandDef)
    ensures
        r@ == api_base_view(),
{
    let r = CommandDef {
        name: "api".to_owned(),
        from_package: false,
        about: Some("Directly invoke the Azure API primitives.".to_owned()),
        subcommand_required: false,
        arg_required_else_help: false,
        disable_help_flag: false,
        args: Vec::new(),
        subcommands: Vec::new(),
    };
    assert(r@.subcommands =~= Seq::<CommandDefView>::empty());
    assert(r@.args =~= Seq::<ArgDefView>::empty());
    r
}

/// The command `api` as one that must be followed by one of those below it.
fn cmd_api_base_real() -> (r: CommandDef)
    ensures
        r@ == group_like(api_base_view()),
{
    cmd_api_base().required()
}

/// The command `api` as it is known before its words are read.
fn cmd_api_stub() -> (r: CommandDef)
    ensures
        r@ == api_stub_view(),
{
    let rest = ArgDef {
        id: "args".to_owned(),
        value_name: None,
        short: None,
        short_aliases: Vec::new(),
        long: None,
        long_aliases: Vec::new(),
        required: None,
        help: None,
        takes_the_rest: true,
    };
    assert(rest@.long_aliases =~= Seq::<Seq<char>>::empty());
    assert(rest@ == rest_arg_view());
    let mut args: Vec<ArgDef> = Vec::new();
    args.push(rest);
    let base = cmd_api_base();
    let r = CommandDef { disable_help_flag: true, args, ..base };
    assert(r@.subcommands =~= base@.subcommands);
    assert(r@.args =~= seq![rest_arg_view()]);
    r
}

/// The program as it is known before the words behind `api` are read.
pub fn cmd() -> (r: CommandDef)
    ensures
        r@ == with_sub(base_view(), api_stub_view()),
{
    cmd_base().subcommand(cmd_api_stub())
}

/// One command without anything for each of `names`.
fn leaf_commands(names: &Vec<String>) -> (r: Vec<CommandDef>)
    ensures
        command_views(r@) == leaves(texts(names@)),
{
    let mut out: Vec<CommandDef> = Vec::new();
    let mut i: usize = 0;
    while i < names.len()
        invariant
            i <= names.len(),
            out@.len() == i,
            forall|j: int| 0 <= j < i ==> (#[trigger] out@[j])@ == named(names@[j]@),
        decreases names.len() - i,
    {
        out.push(new_command(names[i].as_str()));
        i += 1;
    }
    assert(command_views(out@) =~= leaves(texts(names@)));
    out
}

/// One command without anything for each of `commands`.
fn command_leaves(commands: &Vec<Command>) -> (r: Vec<CommandDef>)
    ensures
        command_views(r@) == leaves(command_names(commands@)),
{
    let mut out: Vec<CommandDef> = Vec::new();
    let mut i: usize = 0;
    while i < commands.len()
        invariant
            i <= commands.len(),
            out@.len() == i,
            forall|j: int| 0 <= j < i ==> (#[trigger] out@[j])@ == named(commands@[j].name@),
        decreases commands.len() - i,
    {
        out.push(new_command(commands[i].name.as_str()));
        i += 1;
    }
    assert(command_views(out@) =~= leaves(command_names(commands@)));
    out
}

/// One command without anything for each of `groups`.
fn group_leaves(groups: &Vec<CommandGroup>) -> (r: Vec<CommandDef>)
    ensures
        command_views(r@) == leaves(group_names(groups@)),
{
    let mut out: Vec<CommandDef> = Vec::new();
    let mut i: usize = 0;
    while i < groups.len()
        invariant
            i <= groups.len(),
            out@.len() == i,
            forall|j: int| 0 <= j < i ==> (#[trigger] out@[j])@ == named(groups@[j].name@),
        decreases groups.len() - i,
    {
        out.push(new_command(groups[i].name.as_str()));
        i += 1;
    }
    assert(command_views(out@) =~= leaves(group_names(groups@)));
    out
}

/// The groups that a reference to a list of groups stands for.
pub open spec fn groups_at(groups: Option<&Vec<CommandGroup>>) -> Seq<CommandGroup> {
    match groups {
        Some(g) => g@,
        None => Seq::empty(),
    }
}

/// The commands that a reference to a list of commands stands for.
pub open spec fn commands_at(commands: Option<&Vec<Command>>) -> Seq<Command> {
    match commands {
        Some(c) => c@,
        None => Seq::empty(),
    }
}

/// The commands that the parser is to know for the input `input`.
/// `metadata` is the description of the resource provider that the first
/// positional argument names, where it could be read.
pub fn cmd_api(rps: &Vec<String>, input: &CliInput, metadata: Option<&Metadata>) -> (r:
    CommandDef)
    ensures
        r@ == api_commands(
            texts(rps@),
            match metadata {
                Some(m) => Some(*m),
                None => None,
            },
            positionals(input@),
        ),
{
    let pos_args = input.pos_args();
    let ghost args = raw_texts(pos_args@);
    if pos_args.len() == 0 {
        let subs = leaf_commands(rps);
        return cmd_base().subcommand(cmd_api_base_real().subcommands(subs));
    }
    assert(args[0] == pos_args@[0]@);
    let metadata = match metadata {
        Some(m) => m,
        None => {
            let mut inner: Vec<CommandDef> = Vec::new();
            inner.push(new_command(pos_args[0]));
            assert(command_views(inner@) =~= seq![named(args[0])]);
            return cmd_base().subcommand(cmd_api_base_real().subcommands(inner));
        },
    };
    let mut groups: Option<&Vec<CommandGroup>> = Some(&metadata.command_groups);
    let mut commands: Option<&Vec<Command>> = None;
    let mut command: Option<&Command> = None;
    let mut read: usize = 0;
    let ghost start = walk(Seq::empty(), metadata.command_groups@, Seq::empty(), args);
    assert(args.skip(0) =~= args);
    assert(args.take(0) =~= Seq::<Seq<char>>::empty());
    while read < pos_args.len() && command.is_none()
        invariant
            read <= pos_args.len(),
            pos_args.len() > 0,
            command is Some ==> read >= 1,
            args == raw_texts(pos_args@),
            match command {
                Some(c) => start == (Walked {
                    names: args.take(read as int),
                    groups: groups_at(groups),
                    commands: commands_at(commands),
                    command: Some(*c),
                }),
                None => start == walk(
                    args.take(read as int),
                    groups_at(groups),
                    commands_at(commands),
                    args.skip(read as int),
                ),
            },
        decreases pos_args.len() - read,
    {
        let arg: &str = pos_args[read];
        let ghost rest = args.skip(read as int);
        assert(rest[0] == arg@);
        assert(rest.skip(1) =~= args.skip(read + 1));
        assert(args.take(read as int).push(arg@) =~= args.take(read + 1));
        let group = match groups {
            Some(g) => find_group(g, arg),
            None => None,
        };
        if let Some(found) = group {
            groups = match &found.command_groups {
                Some(g) => Some(g),
                None => None,
            };
            commands = Some(&found.commands);
        } else {
            command = match commands {
                Some(c) => find_command(c, arg),
                None => None,
            };
        }
        read += 1;
    }
    proof {
        if command.is_none() {
            assert(args.skip(read as int).len() == 0);
        }
    }
    let ghost names = args.take(read as int);
    assert(start.names == names);
    assert(read >= 1);
    let last: &str = pos_args[read - 1];
    assert(names.last() == last@);
    let mut cmd = match command {
        Some(c) => {
            let args_of = build_args(&c.arg_groups);
            let plain = new_command(last);
            let r = CommandDef { args: args_of, ..plain };
            assert(r@.subcommands =~= plain@.subcommands);
            r
        },
        None => {
            let with_commands = match commands {
                Some(c) => new_command(last).required().subcommands(command_leaves(c)),
                None => {
                    let none: Vec<CommandDef> = Vec::new();
                    assert(command_views(none@) =~= leaves(command_names(Seq::empty())));
                    new_command(last).required().subcommands(none)
                },
            };
            match groups {
                Some(g) => with_commands.subcommands(group_leaves(g)),
                None => {
                    let none: Vec<CommandDef> = Vec::new();
                    assert(command_views(none@) =~= leaves(group_names(Seq::empty())));
                    with_commands.subcommands(none)
                },
            }
        },
    };
    assert(cmd@ == reached(start));
    let mut left: usize = read - 1;
    assert(names.take(left as int) =~= names.drop_last());
    while left > 0
        invariant
            left < read <= pos_args.len(),
            args == raw_texts(pos_args@),
            names == args.take(read as int),
            wrapped(names.drop_last(), reached(start)) == wrapped(names.take(left as int), cmd@),
        decreases left,
    {
        left -= 1;
        let name: &str = pos_args[left];
        assert(names.take(left + 1).last() == name@);
        assert(names.take(left + 1).drop_last() =~= names.take(left as int));
        cmd = new_command(name).required().subcommand(cmd);
    }
    assert(names.take(0).len() == 0);
    let mut inner: Vec<CommandDef> = Vec::new();
    let ghost top = cmd@;
    inner.push(cmd);
    assert(command_views(inner@) =~= seq![top]);
    cmd_base().subcommand(cmd_api_base_real().subcommands(inner))
}

} // verus!
