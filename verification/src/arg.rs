use crate::text::str_eq;
use vstd::prelude::*;
use vstd::string::StrSliceExecFns;

verus! {

/// One argument of a command line, as read.
#[derive(Debug, Clone, PartialEq, Eq)]
pub enum Arg {
    /// An option and its value: `--enable`, `--enable=true`, `--foo bar`.
    Optional(String, Option<String>),
    Positional(String),
}

/// What an argument holds, as mathematical values.
pub enum ArgView {
    Optional(Seq<char>, Option<Seq<char>>),
    Positional(Seq<char>),
}

impl View for Arg {
    type V = ArgView;

    open spec fn view(&self) -> ArgView {
        match self {
            Arg::Optional(key, Some(value)) => ArgView::Optional(key@, Some(value@)),
            Arg::Optional(key, None) => ArgView::Optional(key@, None),
            Arg::Positional(value) => ArgView::Positional(value@),
        }
    }
}

/// Why a command line was refused.
#[derive(Debug, Clone, Copy, PartialEq, Eq, Structural)]
pub enum ArgError {
    /// A positional argument stands behind an option.
    PositionalAfterOptional,
}

impl ArgError {
    /// What the error says.
    pub open spec fn text(self) -> Seq<char> {
        "optional raw arguments must follow positional raw arguments"@
    }

    /// What the error says.
    pub fn to_string(&self) -> (s: String)
        ensures
            s@ == self.text(),
    {
        "optional raw arguments must follow positional raw arguments".to_owned()
    }
}

/// The arguments of a command line, in order.
#[derive(Debug, Clone)]
pub struct CliInput {
    pub args: Vec<Arg>,
}

/// Whether a raw argument is an option: it starts with a hyphen.
pub open spec fn is_option(raw: Seq<char>) -> bool {
    raw.len() > 0 && raw[0] == '-'
}

/// A raw option without the one or two hyphens in front.
pub open spec fn option_body(raw: Seq<char>) -> Seq<char> {
    let rest = raw.skip(1);
    if is_option(rest) {
        rest.skip(1)
    } else {
        rest
    }
}

/// The number of characters of `s` in front of the first `c`; the length of
/// `s` where it holds no `c`.
pub open spec fn position_of(s: Seq<char>, c: char) -> int
    decreases s.len(),
{
    if s.len() == 0 || s[0] == c {
        0
    } else {
        1 + position_of(s.skip(1), c)
    }
}

/// `first` in front of the arguments `rest`, where there are such.
pub open spec fn followed_by(first: ArgView, rest: Option<Seq<ArgView>>) -> Option<Seq<ArgView>> {
    match rest {
        Some(args) => Some(seq![first] + args),
        None => None,
    }
}

/// The arguments that the raw arguments `raw` stand for, `seen_option` saying
/// whether an option stood in front of them. An option is written with one or
/// two hyphens; its value follows an equals sign, or is the next raw argument
/// where that is no option. Every other raw argument is positional, and none
/// where one stands behind an option.
pub open spec fn parse_args(raw: Seq<Seq<char>>, seen_option: bool) -> Option<Seq<ArgView>>
    decreases raw.len(),
{
    if raw.len() == 0 {
        Some(Seq::empty())
    } else if is_option(raw[0]) {
        let body = option_body(raw[0]);
        let at = position_of(body, '=');
        if at < body.len() {
            followed_by(
                ArgView::Optional(body.take(at), Some(body.skip(at + 1))),
                parse_args(raw.skip(1), true),
            )
        } else if raw.len() > 1 && !is_option(raw[1]) {
            followed_by(ArgView::Optional(body, Some(raw[1])), parse_args(raw.skip(2), true))
        } else {
            followed_by(ArgView::Optional(body, None), parse_args(raw.skip(1), true))
        }
    } else if seen_option {
        None
    } else {
        followed_by(ArgView::Positional(raw[0]), parse_args(raw.skip(1), false))
    }
}

/// The texts of raw arguments.
pub open spec fn raw_texts(args: Seq<&str>) -> Seq<Seq<char>> {
    args.map_values(|s: &str| s@)
}

/// What a list of arguments holds.
pub open spec fn arg_views(args: Seq<Arg>) -> Seq<ArgView> {
    args.map_values(|a: Arg| a@)
}

/// Whether an argument is the option that asks for help: `h` or `help`.
pub open spec fn asks_help(arg: ArgView) -> bool {
    arg matches ArgView::Optional(key, _) && (key == "h"@ || key == "help"@)
}

/// The positional arguments among `args`, in order.
pub open spec fn positionals(args: Seq<ArgView>) -> Seq<Seq<char>>
    decreases args.len(),
{
    if args.len() == 0 {
        Seq::empty()
    } else {
        let front = positionals(args.drop_last());
        match args.last() {
            ArgView::Positional(value) => front.push(value),
            _ => front,
        }
    }
}

/// Whether `raw` starts with a hyphen.
fn starts_with_hyphen(raw: &str) -> (r: bool)
    ensures
        r == is_option(raw@),
{
    raw.unicode_len() > 0 && raw.get_char(0) == '-'
}

/// The number of characters of `s` in front of its first equals sign.
fn find_equals(s: &str) -> (at: usize)
    ensures
        at == position_of(s@, '='),
        at <= s@.len(),
{
    let n: usize = s.unicode_len();
    let mut i: usize = 0;
    assert(s@.skip(0) =~= s@);
    while i < n
        invariant
            n == s@.len(),
            i <= n,
            position_of(s@, '=') == i + position_of(s@.skip(i as int), '='),
        decreases n - i,
    {
        if s.get_char(i) == '=' {
            assert(s@.skip(i as int)[0] == '=');
            return i;
        }
        assert(s@.skip(i as int).skip(1) =~= s@.skip(i + 1));
        i += 1;
    }
    assert(s@.skip(n as int).len() == 0);
    i
}

impl CliInput {
    /// What the input holds.
    pub open spec fn view(&self) -> Seq<ArgView> {
        arg_views(self.args@)
    }

    /// Reads the raw arguments of a command line.
    pub fn new(args: Vec<&str>) -> (r: Result<CliInput, ArgError>)
        ensures
            match parse_args(raw_texts(args@), false) {
                Some(parsed) => r matches Ok(input) && input@ == parsed,
                None => r == Err::<CliInput, ArgError>(ArgError::PositionalAfterOptional),
            },
    {
        let ghost raw = raw_texts(args@);
        let mut result: Vec<Arg> = Vec::new();
        let mut see_opt = false;
        let mut i: usize = 0;
        assert(raw.skip(0) =~= raw);
        assert(arg_views(result@) =~= Seq::<ArgView>::empty());
        while i < args.len()
            invariant
                i <= args.len(),
                raw == raw_texts(args@),
                raw.len() == args.len(),
                parse_args(raw, false) == match parse_args(raw.skip(i as int), see_opt) {
                    Some(rest) => Some(arg_views(result@) + rest),
                    None => None,
                },
            decreases args.len() - i,
        {
            let arg: &str = args[i];
            let ghost rest = raw.skip(i as int);
            let ghost before = arg_views(result@);
            assert(rest[0] == arg@);
            assert(rest.skip(1) =~= raw.skip(i + 1));
            if starts_with_hyphen(arg) {
                see_opt = true;
                let n: usize = arg.unicode_len();
                let mut body: &str = arg.substring_char(1, n);
                assert(body@ =~= arg@.skip(1));
                if starts_with_hyphen(body) {
                    body = body.substring_char(1, n - 1);
                    assert(body@ =~= arg@.skip(1).skip(1));
                }
                assert(body@ == option_body(arg@));
                let m: usize = body.unicode_len();
                let at: usize = find_equals(body);
                if at < m {
                    let key = body.substring_char(0, at).to_owned();
                    let value = body.substring_char(at + 1, m).to_owned();
                    assert(key@ =~= body@.take(at as int));
                    assert(value@ =~= body@.skip(at + 1));
                    result.push(Arg::Optional(key, Some(value)));
                    i += 1;
                } else if i + 1 < args.len() && !starts_with_hyphen(args[i + 1]) {
                    let value = args[i + 1].to_owned();
                    assert(rest[1] == args[i + 1]@);
                    assert(rest.skip(2) =~= raw.skip(i + 2));
                    result.push(Arg::Optional(body.to_owned(), Some(value)));
                    i += 2;
                } else {
                    assert(rest.len() > 1 ==> rest[1] == args[i + 1]@);
                    result.push(Arg::Optional(body.to_owned(), None));
                    i += 1;
                }
            } else {
                if see_opt {
                    return Err(ArgError::PositionalAfterOptional);
                }
                result.push(Arg::Positional(arg.to_owned()));
                i += 1;
            }
            proof {
                let last = result@.last()@;
                assert(arg_views(result@) =~= before.push(last));
                match parse_args(raw.skip(i as int), see_opt) {
                    Some(tail) => {
                        assert(before + (seq![last] + tail) =~= before.push(last) + tail);
                    },
                    None => {},
                }
            }
        }
        assert(raw.skip(i as int).len() == 0);
        assert(arg_views(result@) + Seq::<ArgView>::empty() =~= arg_views(result@));
        Ok(CliInput { args: result })
    }

    /// Whether the input asks for help.
    pub fn is_help(&self) -> (r: bool)
        ensures
            r == exists|i: int| 0 <= i < self@.len() && asks_help(#[trigger] self@[i]),
    {
        let mut i: usize = 0;
        while i < self.args.len()
            invariant
                i <= self.args.len(),
                forall|j: int| 0 <= j < i ==> !asks_help(#[trigger] self@[j]),
            decreases self.args.len() - i,
        {
            if let Arg::Optional(key, _) = &self.args[i] {
                if str_eq(key.as_str(), "h") || str_eq(key.as_str(), "help") {
                    assert(asks_help(self@[i as int]));
                    return true;
                }
            }
            assert(!asks_help(self@[i as int]));
            i += 1;
        }
        false
    }

    /// The positional arguments, in order.
    pub fn pos_args(&self) -> (r: Vec<&str>)
        ensures
            raw_texts(r@) == positionals(self@),
    {
        let mut out: Vec<&str> = Vec::new();
        let mut i: usize = 0;
        assert(self@.take(0) =~= Seq::<ArgView>::empty());
        assert(raw_texts(out@) =~= Seq::<Seq<char>>::empty());
        while i < self.args.len()
            invariant
                i <= self.args.len(),
                raw_texts(out@) == positionals(self@.take(i as int)),
            decreases self.args.len() - i,
        {
            let ghost before = raw_texts(out@);
            assert(self@.take(i + 1).drop_last() =~= self@.take(i as int));
            assert(self@.take(i + 1).last() == self@[i as int]);
            if let Arg::Positional(value) = &self.args[i] {
                out.push(value.as_str());
                assert(raw_texts(out@) =~= before.push(value@));
            }
            i += 1;
        }
        assert(self@.take(i as int) =~= self@);
        out
    }

    /// The number of arguments.
    pub fn len(&self) -> (r: usize)
        ensures
            r == self@.len(),
    {
        self.args.len()
    }

    /// Whether there is no argument.
    pub fn is_empty(&self) -> (r: bool)
        ensures
            r == (self@.len() == 0),
    {
        self.len() == 0
    }
}

} // verus!
