//! The command line: which options there are, and what an invocation asks
//! for once `getopts` has taken the arguments apart.

use getopts::{Fail, Matches, Options};
use vstd::prelude::*;
use crate::text::{append_chars, chars_of, string_of};

verus! {

/// The option table type of `getopts`.
#[verifier::external_type_specification]
#[verifier::external_body]
pub struct ExOptions(Options);

/// The parsed command line type of `getopts`.
#[verifier::external_type_specification]
#[verifier::external_body]
pub struct ExMatches(Matches);

/// The failure type of `getopts`: five kinds, each with the name of the
/// option at fault.
#[verifier::external_type_specification]
pub struct ExFail(Fail);

/// One option of a table.
pub struct OptionRow {
    pub short: Seq<char>,
    pub long: Seq<char>,
    /// The description shown in the help text.
    pub desc: Seq<char>,
    /// What stands for the value in the help text; empty for an option
    /// without one.
    pub hint: Seq<char>,
    pub takes_value: bool,
}

/// How often each option name occurred, and with which value: `None` for an
/// occurrence without one.
pub type Occurrences = Map<Seq<char>, Seq<Option<Seq<char>>>>;

/// The options that a table holds, in the order they were added.
pub uninterp spec fn option_table(options: Options) -> Seq<OptionRow>;

/// The occurrences that a parsed command line holds, under the short and
/// under the long name of each option of the table it was parsed with.
pub uninterp spec fn matches_values(matches: Matches) -> Occurrences;

/// The free arguments that a parsed command line holds, in their order.
pub uninterp spec fn matches_free(matches: Matches) -> Seq<Seq<char>>;

/// What `getopts::Options::parse` makes of arguments under a table of
/// options: the occurrences and the free arguments, or the failure.
pub uninterp spec fn parse_result(table: Seq<OptionRow>, args: Seq<Seq<char>>) -> Result<
    (Occurrences, Seq<Seq<char>>),
    OptsErrorModel,
>;

/// The kinds of failure of a command line.
#[derive(Clone, Copy, PartialEq, Eq, Structural, Debug)]
pub enum FailKind {
    ArgumentMissing,
    UnrecognizedOption,
    OptionMissing,
    OptionDuplicated,
    UnexpectedArgument,
}

/// A command line that does not fit the options: what is wrong, and with
/// which option.
#[derive(Debug)]
pub struct OptsError {
    pub kind: FailKind,
    pub option: String,
}

/// A failure as plain values.
pub struct OptsErrorModel {
    pub kind: FailKind,
    pub option: Seq<char>,
}

impl View for OptsError {
    type V = OptsErrorModel;

    open spec fn view(&self) -> OptsErrorModel {
        OptsErrorModel { kind: self.kind, option: self.option@ }
    }
}

/// The failure that a `getopts` failure stands for.
pub open spec fn fail_model(fail: Fail) -> OptsErrorModel {
    match fail {
        Fail::ArgumentMissing(option) => OptsErrorModel {
            kind: FailKind::ArgumentMissing,
            option: option@,
        },
        Fail::UnrecognizedOption(option) => OptsErrorModel {
            kind: FailKind::UnrecognizedOption,
            option: option@,
        },
        Fail::OptionMissing(option) => OptsErrorModel {
            kind: FailKind::OptionMissing,
            option: option@,
        },
        Fail::OptionDuplicated(option) => OptsErrorModel {
            kind: FailKind::OptionDuplicated,
            option: option@,
        },
        Fail::UnexpectedArgument(option) => OptsErrorModel {
            kind: FailKind::UnexpectedArgument,
            option: option@,
        },
    }
}

/// Names that `getopts` takes for an option: one ASCII character as the
/// short name, two characters or more as the long name.
pub open spec fn names_admitted(short: Seq<char>, long: Seq<char>) -> bool {
    short.len() == 1 && vstd::utf8::is_ascii_chars(short) && long.len() >= 2
}

/// Every option of a table has admitted names.
pub open spec fn table_admitted(table: Seq<OptionRow>) -> bool {
    forall|i: int| 0 <= i < table.len() ==> names_admitted((#[trigger] table[i]).short, table[i].long)
}

/// The views of a list of strings.
pub open spec fn views_of(strings: Seq<String>) -> Seq<Seq<char>> {
    Seq::new(strings.len(), |i: int| strings[i]@)
}

/// `getopts::Options::new`: a table without options.
#[verifier::external_body]
fn new_options() -> (options: Options)
    ensures
        option_table(options) == Seq::<OptionRow>::empty(),
{
    Options::new()
}

/// `getopts::Options::optflag`: adds an option that takes no value and may
/// occur once. The outside function stops the program on a short name of
/// more than one byte and on a long name of one byte.
#[verifier::external_body]
fn add_flag(options: &mut Options, short: &str, long: &str, desc: &str)
    requires
        names_admitted(short@, long@),
    ensures
        option_table(*final(options)) == option_table(*old(options)).push(
            OptionRow {
                short: short@,
                long: long@,
                desc: desc@,
                hint: Seq::empty(),
                takes_value: false,
            },
        ),
{
    options.optflag(short, long, desc);
}

/// `getopts::Options::optopt`: adds an option that takes a value and may
/// occur once. The outside function stops the program on a short name of
/// more than one byte and on a long name of one byte.
#[verifier::external_body]
fn add_value_option(options: &mut Options, short: &str, long: &str, desc: &str, hint: &str)
    requires
        names_admitted(short@, long@),
    ensures
        option_table(*final(options)) == option_table(*old(options)).push(
            OptionRow { short: short@, long: long@, desc: desc@, hint: hint@, takes_value: true },
        ),
{
    options.optopt(short, long, desc, hint);
}

/// `getopts::Options::parse`: the result is named, not described. Of a
/// parsed command line it is said that it knows every option of the table
/// under both of its names.
#[verifier::external_body]
fn parse_args(options: &Options, args: &Vec<String>) -> (r: Result<Matches, Fail>)
    requires
        table_admitted(option_table(*options)),
    ensures
        match r {
            Ok(matches) => {
                &&& parse_result(option_table(*options), views_of(args@)) == Ok::<
                    (Occurrences, Seq<Seq<char>>),
                    OptsErrorModel,
                >((matches_values(matches), matches_free(matches)))
                &&& forall|i: int|
                    0 <= i < option_table(*options).len() ==> {
                        &&& matches_values(matches).dom().contains(
                            (#[trigger] option_table(*options)[i]).short,
                        )
                        &&& matches_values(matches).dom().contains(option_table(*options)[i].long)
                    }
            },
            Err(fail) => parse_result(option_table(*options), views_of(args@)) == Err::<
                (Occurrences, Seq<Seq<char>>),
                OptsErrorModel,
            >(fail_model(fail)),
        },
{
    options.parse(args)
}

/// `getopts::Matches::opt_present`: whether the option occurred. The
/// outside function stops the program on a name that the table lacks.
#[verifier::external_body]
fn is_present(matches: &Matches, name: &str) -> (r: bool)
    requires
        matches_values(*matches).dom().contains(name@),
    ensures
        r == (matches_values(*matches)[name@].len() > 0),
{
    matches.opt_present(name)
}

/// The value of the first occurrence in a list of occurrences.
pub open spec fn first_value(occurrences: Seq<Option<Seq<char>>>) -> Option<Seq<char>> {
    if occurrences.len() > 0 {
        occurrences[0]
    } else {
        None
    }
}

/// `getopts::Matches::opt_str`: the value of the option's first occurrence,
/// if it occurred and that occurrence has one. The outside function stops
/// the program on a name that the table lacks.
#[verifier::external_body]
fn value_of(matches: &Matches, name: &str) -> (r: Option<String>)
    requires
        matches_values(*matches).dom().contains(name@),
    ensures
        match first_value(matches_values(*matches)[name@]) {
            Some(value) => r matches Some(s) && s@ == value,
            None => r is None,
        },
{
    matches.opt_str(name)
}

/// A copy of the public field `free` of `getopts::Matches`.
#[verifier::external_body]
fn free_args(matches: &Matches) -> (r: Vec<String>)
    ensures
        views_of(r@) == matches_free(*matches),
{
    matches.free.clone()
}

/// The help text that `getopts::Options::usage` lays out for a table of
/// options under a heading.
pub uninterp spec fn usage_layout(table: Seq<OptionRow>, brief: Seq<char>) -> Seq<char>;

/// `getopts::Options::usage`: the help text under a heading. The text is
/// named, not described, but for its beginning: it starts with the heading.
#[verifier::external_body]
fn usage_text(options: &Options, brief: &str) -> (text: String)
    requires
        table_admitted(option_table(*options)),
    ensures
        text@ == usage_layout(option_table(*options), brief@),
        text@.len() >= brief@.len(),
        text@.take(brief@.len() as int) == brief@,
{
    options.usage(brief)
}

/// What an invocation asks for.
#[derive(Debug)]
pub struct UserParams {
    pub user: String,
    pub pass: String,
    /// The output path template.
    pub format: String,
    /// The references to resolve.
    pub input: Vec<String>,
}

/// An invocation: a request for the help text, or a run.
#[derive(Debug)]
pub enum Invocation {
    Usage,
    Run(UserParams),
}

/// An invocation as plain values.
pub enum InvocationModel {
    Usage,
    Run { user: Seq<char>, pass: Seq<char>, format: Seq<char>, input: Seq<Seq<char>> },
}

impl View for Invocation {
    type V = InvocationModel;

    open spec fn view(&self) -> InvocationModel {
        match *self {
            Invocation::Usage => InvocationModel::Usage,
            Invocation::Run(params) => InvocationModel::Run {
                user: params.user@,
                pass: params.pass@,
                format: params.format@,
                input: views_of(params.input@),
            },
        }
    }
}

/// The template used when none is given.
pub open spec fn default_format() -> Seq<char> {
    "{author}/{album}/{name}.{ext}"@
}

/// What a command line asks for: the help text when help is asked for,
/// when the login name or the login secret is missing, or when no reference
/// is given; otherwise a run, with the default template unless one is given.
pub open spec fn invocation_for(
    help: bool,
    user: Option<Seq<char>>,
    pass: Option<Seq<char>>,
    format: Option<Seq<char>>,
    input: Seq<Seq<char>>,
) -> InvocationModel {
    match (user, pass) {
        (Some(user), Some(pass)) if !help && input.len() > 0 => InvocationModel::Run {
            user,
            pass,
            format: match format {
                Some(given) => given,
                None => default_format(),
            },
            input,
        },
        _ => InvocationModel::Usage,
    }
}

/// The view of an optional string.
pub open spec fn text_of(s: Option<String>) -> Option<Seq<char>> {
    match s {
        Some(s) => Some(s@),
        None => None,
    }
}

/// Decides what a command line asks for from what was found on it.
pub fn choose_invocation(
    help: bool,
    user: Option<String>,
    pass: Option<String>,
    format: Option<String>,
    input: Vec<String>,
) -> (r: Invocation)
    ensures
        r@ == invocation_for(help, text_of(user), text_of(pass), text_of(format), views_of(input@)),
{
    if help || input.len() == 0 {
        return Invocation::Usage;
    }
    match (user, pass) {
        (Some(user), Some(pass)) => {
            let format = match format {
                Some(given) => given,
                None => "{author}/{album}/{name}.{ext}".to_owned(),
            };
            Invocation::Run(UserParams { user, pass, format, input })
        },
        _ => Invocation::Usage,
    }
}

/// The description of the template option.
pub open spec fn format_description() -> Seq<char> {
    "output format to use. {author}/{album}/{name}.{ext} is used by default. Available format specifiers are: {author}, {album}, {name} and {ext}. Note that when tracks have more that one author, {author} will evaluate only to main one (track metadata will still we written correctly)."@
}

/// The options of the command line: `-h`/`--help`, `-u`/`--user`,
/// `-p`/`--pass` and `-f`/`--format`; all but the first take a value.
pub open spec fn cli_table() -> Seq<OptionRow> {
    seq![
        OptionRow {
            short: "h"@,
            long: "help"@,
            desc: "print the help menu"@,
            hint: Seq::empty(),
            takes_value: false,
        },
        OptionRow {
            short: "u"@,
            long: "user"@,
            desc: "user login name, required"@,
            hint: "USER"@,
            takes_value: true,
        },
        OptionRow {
            short: "p"@,
            long: "pass"@,
            desc: "user password, required"@,
            hint: "PASS"@,
            takes_value: true,
        },
        OptionRow {
            short: "f"@,
            long: "format"@,
            desc: format_description(),
            hint: "FMT"@,
            takes_value: true,
        },
    ]
}

fn cli_options() -> (options: Options)
    ensures
        option_table(options) == cli_table(),
        table_admitted(cli_table()),
{
    proof {
        reveal_strlit("h");
        reveal_strlit("u");
        reveal_strlit("p");
        reveal_strlit("f");
        reveal_strlit("help");
        reveal_strlit("user");
        reveal_strlit("pass");
        reveal_strlit("format");
    }
    let mut options = new_options();
    add_flag(&mut options, "h", "help", "print the help menu");
    add_value_option(&mut options, "u", "user", "user login name, required", "USER");
    add_value_option(&mut options, "p", "pass", "user password, required", "PASS");
    add_value_option(
        &mut options,
        "f",
        "format",
        "output format to use. {author}/{album}/{name}.{ext} is used by default. Available format specifiers are: {author}, {album}, {name} and {ext}. Note that when tracks have more that one author, {author} will evaluate only to main one (track metadata will still we written correctly).",
        "FMT",
    );
    assert(option_table(options) == cli_table());
    options
}

/// What the command line asks for, given what `getopts` made of it.
pub open spec fn parsed_invocation(parsed: Result<(Occurrences, Seq<Seq<char>>), OptsErrorModel>) -> Result<
    InvocationModel,
    OptsErrorModel,
> {
    match parsed {
        Ok((values, free)) => Ok(
            invocation_for(
                values["h"@].len() > 0,
                first_value(values["u"@]),
                first_value(values["p"@]),
                first_value(values["f"@]),
                free,
            ),
        ),
        Err(e) => Err(e),
    }
}

/// Turns a `getopts` failure into the library's own.
pub fn opts_error(fail: Fail) -> (e: OptsError)
    ensures
        e@ == fail_model(fail),
{
    match fail {
        Fail::ArgumentMissing(option) => OptsError { kind: FailKind::ArgumentMissing, option },
        Fail::UnrecognizedOption(option) => OptsError { kind: FailKind::UnrecognizedOption, option },
        Fail::OptionMissing(option) => OptsError { kind: FailKind::OptionMissing, option },
        Fail::OptionDuplicated(option) => OptsError { kind: FailKind::OptionDuplicated, option },
        Fail::UnexpectedArgument(option) => OptsError { kind: FailKind::UnexpectedArgument, option },
    }
}

/// Reads the arguments of an invocation, the program's name left out.
pub fn parse_opts(args: &Vec<String>) -> (r: Result<Invocation, OptsError>)
    ensures
        match parsed_invocation(parse_result(cli_table(), views_of(args@))) {
            Ok(invocation) => r matches Ok(found) && found@ == invocation,
            Err(e) => r matches Err(found) && found@ == e,
        },
{
    let options = cli_options();
    match parse_args(&options, args) {
        Err(fail) => Err(opts_error(fail)),
        Ok(matches) => {
            proof {
                assert(cli_table()[0].short == "h"@);
                assert(cli_table()[1].short == "u"@);
                assert(cli_table()[2].short == "p"@);
                assert(cli_table()[3].short == "f"@);
            }
            let help = is_present(&matches, "h");
            let user = value_of(&matches, "u");
            let pass = value_of(&matches, "p");
            let format = value_of(&matches, "f");
            let input = free_args(&matches);
            Ok(choose_invocation(help, user, pass, format, input))
        },
    }
}

/// The heading of the help text for a program name.
pub open spec fn usage_brief(program: Seq<char>) -> Seq<char> {
    "Usage: "@ + program + " [OPTIONS] URIs..."@
}

/// The help text for a program name: the options laid out by `getopts`
/// under the heading.
pub fn usage(program: &str) -> (text: String)
    ensures
        text@ == usage_layout(cli_table(), usage_brief(program@)),
        text@.len() >= usage_brief(program@).len(),
        text@.take(usage_brief(program@).len() as int) == usage_brief(program@),
{
    let mut brief = chars_of("Usage: ");
    append_chars(&mut brief, &chars_of(program));
    append_chars(&mut brief, &chars_of(" [OPTIONS] URIs..."));
    let options = cli_options();
    usage_text(&options, string_of(&brief).as_str())
}

} // verus!
