//! The command line.

use clap::builder::ValueParser;
use clap::ArgAction::SetTrue;
use clap::{Arg, Command};
use syscalls::SysnoSet;
use vstd::prelude::*;

use crate::protocol::TraceError;
use crate::sysno;

verus! {

/// The options of the program.
#[derive(Debug)]
pub struct Args {
    /// Trace child processes as they are created by currently traced processes.
    pub follow_forks: bool,
    /// Collapse repeated failing `execve` attempts and only show final success.
    pub collapse_exec_retries: bool,
    /// The command to trace.
    pub command: Option<ArgCommand>,
}

/// What is to be traced.
#[derive(Debug, PartialEq)]
pub enum ArgCommand {
    /// A command: a program and its arguments.
    Command(Vec<String>),
}

/// The option that names a process which is already running.
#[derive(Debug, PartialEq)]
pub struct ArgAttach {
    /// Attach to a running process with the given pid.
    pub attach: i32,
}

/// A command line that was not accepted, or that asks for help or for the version.
#[derive(Debug)]
pub struct ParseFailure {
    /// What is to be shown.
    pub message: String,
    /// The exit code of the program; where it is not zero, the message goes to the standard
    /// error stream.
    pub exit_code: i32,
}

/// A program with two flags, the first of them with a short form, that runs a command.
pub struct CommandView {
    pub program: Seq<char>,
    pub version: Seq<char>,
    pub short: char,
    pub first: Seq<char>,
    pub first_help: Seq<char>,
    pub second: Seq<char>,
    pub second_help: Seq<char>,
}

/// A name that a flag may have: lower case letters and inner hyphens, and not one of the
/// flags that every program has.
pub open spec fn is_flag_name(name: Seq<char>) -> bool {
    &&& name.len() > 0
    &&& name[0] != '-'
    &&& forall|i: int| 0 <= i < name.len() ==> 'a' <= #[trigger] name[i] <= 'z' || name[i] == '-'
    &&& name != "help"@
    &&& name != "version"@
}

impl CommandView {
    /// The names of the flags can be told apart from each other and from those that every
    /// program has.
    pub open spec fn is_valid(self) -> bool {
        &&& is_flag_name(self.first)
        &&& is_flag_name(self.second)
        &&& self.first != self.second
        &&& 'a' <= self.short <= 'z'
        &&& self.short != 'h'
    }
}

/// What a command line says: whether the first flag is given, whether the second is, and the
/// command with what follows it.
pub type CommandLine = (bool, bool, Option<(String, Vec<String>)>);

/// What comes of a command line.
pub enum Outcome {
    Parsed { first: bool, second: bool, command: Option<(Seq<char>, Seq<Seq<char>>)> },
    Rejected { message: Seq<char>, exit_code: i32 },
}

/// The texts of strings.
pub open spec fn texts(strings: Seq<String>) -> Seq<Seq<char>> {
    strings.map_values(|s: String| s@)
}

/// The outcome that a result of the parser stands for.
pub open spec fn outcome_of(parsed: Result<CommandLine, (String, i32)>) -> Outcome {
    match parsed {
        Ok((first, second, command)) => Outcome::Parsed {
            first,
            second,
            command: match command {
                Some((name, rest)) => Some((name@, texts(rest@))),
                None => None,
            },
        },
        Err((message, exit_code)) => Outcome::Rejected { message: message@, exit_code },
    }
}

/// What `clap::Command::try_get_matches_from` makes of a command line.
pub uninterp spec fn clap_outcome(command: CommandView, argv: Seq<Seq<char>>) -> Outcome;

/// `clap::Command::try_get_matches_from`, for a program with two flags, the first of them with
/// a short form, that takes any command and hands it what follows. A command line that is not
/// accepted gives the message and the exit code of the `clap::Error`.
#[verifier::external_body]
fn clap_parse(
    program: &'static str,
    version: &'static str,
    short: char,
    first: &'static str,
    first_help: &'static str,
    second: &'static str,
    second_help: &'static str,
    argv: &Vec<String>,
) -> (parsed: Result<CommandLine, (String, i32)>)
    requires
        (CommandView {
            program: program@,
            version: version@,
            short,
            first: first@,
            first_help: first_help@,
            second: second@,
            second_help: second_help@,
        }).is_valid(),
    ensures
        outcome_of(parsed) == clap_outcome(
            (CommandView {
                program: program@,
                version: version@,
                short,
                first: first@,
                first_help: first_help@,
                second: second@,
                second_help: second_help@,
            }),
            texts(argv@),
        ),
{
    let flag = Arg::new(first).short(short).long(first).help(first_help).action(SetTrue);
    let other = Arg::new(second).long(second).help(second_help).action(SetTrue);
    let parser = Command::new(program).version(version).arg(flag).arg(other)
        .external_subcommand_value_parser(ValueParser::string()).allow_external_subcommands(true);
    match parser.try_get_matches_from(argv) {
        Ok(found) => Ok((
            found.get_flag(first),
            found.get_flag(second),
            found.subcommand().map(|(name, rest)| (name.to_string(),
                rest.get_many("").unwrap_or_default().cloned().collect())),
        )),
        Err(e) => Err((e.to_string(), e.exit_code())),
    }
}

/// The command that is traced, where `name` and what follows it were given.
pub open spec fn command_words(command: Option<(Seq<char>, Seq<Seq<char>>)>) -> Option<
    Seq<Seq<char>>,
> {
    match command {
        Some((name, rest)) => Some(seq![name] + rest),
        None => None,
    }
}

impl Args {
    /// The words of the command, if there is one.
    pub open spec fn words(self) -> Option<Seq<Seq<char>>> {
        match self.command {
            Some(ArgCommand::Command(words)) => Some(texts(words@)),
            None => None,
        }
    }

    /// Reads a command line; its first word is the name of the program.
    pub fn parse_from(argv: &Vec<String>) -> (parsed: Result<Args, ParseFailure>)
        ensures
            match (clap_outcome(procactivity_command(), texts(argv@)), parsed) {
                (Outcome::Parsed { first, second, command }, Ok(args)) => {
                    &&& args.follow_forks == first
                    &&& args.collapse_exec_retries == second
                    &&& args.words() == command_words(command)
                },
                (Outcome::Rejected { message, exit_code }, Err(failure)) => {
                    &&& failure.message@ == message
                    &&& failure.exit_code == exit_code
                },
                _ => false,
            },
    {
        proof {
            reveal_strlit("follow-forks");
            reveal_strlit("collapse-exec-retries");
            reveal_strlit("help");
            reveal_strlit("version");
            assert("follow-forks"@.len() != "help"@.len());
            assert("follow-forks"@.len() != "version"@.len());
            assert("collapse-exec-retries"@.len() != "help"@.len());
            assert("collapse-exec-retries"@.len() != "version"@.len());
            assert("collapse-exec-retries"@.len() != "follow-forks"@.len());
        }
        let parsed = clap_parse(
            "procactivity",
            "0.1.0",
            'f',
            "follow-forks",
            "Trace child processes as they are created by currently traced processes",
            "collapse-exec-retries",
            "Collapse repeated failing `execve` attempts and only show final success",
            argv,
        );
        match parsed {
            Ok(line) => Ok(Args::from_command_line(line)),
            Err((message, exit_code)) => Err(ParseFailure { message, exit_code }),
        }
    }

    /// The options that a command line stands for: its flags, and the command with what
    /// follows it.
    pub fn from_command_line(line: CommandLine) -> (args: Args)
        ensures
            args.follow_forks == line.0,
            args.collapse_exec_retries == line.1,
            args.words() == (match line.2 {
                Some((name, rest)) => Some(seq![name@] + texts(rest@)),
                None => None,
            }),
    {
        let command = match line.2 {
            Some((name, rest)) => {
                let mut words: Vec<String> = Vec::new();
                words.push(name);
                let mut i: usize = 0;
                while i < rest.len()
                    invariant
                        i <= rest.len(),
                        texts(words@) == seq![name@] + texts(rest@).take(i as int),
                    decreases rest.len() - i,
                {
                    let ghost before = words@;
                    words.push(rest[i].clone());
                    assert(texts(words@) =~= texts(before).push(rest@[i as int]@));
                    assert(texts(words@) =~= seq![name@] + texts(rest@).take(i + 1));
                    i += 1;
                }
                assert(texts(rest@).take(i as int) =~= texts(rest@));
                Some(ArgCommand::Command(words))
            },
            None => None,
        };
        Args { follow_forks: line.0, collapse_exec_retries: line.1, command }
    }

    /// Makes the filter that decides which calls are shown: all of them.
    pub fn create_filter(&self) -> (filter: Result<Filter, TraceError>)
        ensures
            filter is Ok,
            filter->Ok_0.is_unrestricted(),
    {
        Ok(Filter { ret_code_filter: FilterRetCode::All, sysno_filter: FilterSysno::All })
    }
}

/// How the program is described to the parser.
pub open spec fn procactivity_command() -> CommandView {
    CommandView {
        program: "procactivity"@,
        version: "0.1.0"@,
        short: 'f',
        first: "follow-forks"@,
        first_help: "Trace child processes as they are created by currently traced processes"@,
        second: "collapse-exec-retries"@,
        second_help: "Collapse repeated failing `execve` attempts and only show final success"@,
    }
}

impl Default for Args {
    fn default() -> (args: Args)
        ensures
            !args.follow_forks,
            !args.collapse_exec_retries,
            args.command is None,
    {
        Args { follow_forks: false, collapse_exec_retries: false, command: None }
    }
}

enum FilterRetCode {
    All,
}

enum FilterSysno {
    All,
}

/// Which calls are shown.
pub struct Filter {
    ret_code_filter: FilterRetCode,
    sysno_filter: FilterSysno,
}

impl Filter {
    /// The filter lets every call through, whatever its number and its outcome.
    pub closed spec fn is_unrestricted(self) -> bool {
        self.ret_code_filter is All && self.sysno_filter is All
    }

    /// Tells whether a call is shown.
    pub fn matches(&mut self) -> (shown: bool)
        ensures
            shown,
            *final(self) == *old(self),
    {
        (match self.ret_code_filter {
            FilterRetCode::All => true,
        }) && (match &self.sysno_filter {
            FilterSysno::All => true,
        })
    }

    /// The calls that are shown.
    pub fn all_enabled(&self) -> (enabled: SysnoSet)
        ensures
            sysno::sysno_members(enabled) == sysno::all_members(),
    {
        match &self.sysno_filter {
            FilterSysno::All => sysno::sysno_set_all(),
        }
    }
}

/// The filter does not depend on the options: any two are equal.
pub proof fn filters_are_equal(a: Filter, b: Filter)
    ensures
        a == b,
{
}

/// There is no filter that holds anything back.
pub proof fn filter_is_unrestricted(filter: Filter)
    ensures
        filter.is_unrestricted(),
{
}

/// Texts are those of the strings, each in its place.
pub proof fn texts_are_those_of_the_strings(strings: Seq<String>)
    ensures
        texts(strings).len() == strings.len(),
        forall|i: int| 0 <= i < strings.len() ==> #[trigger] texts(strings)[i] == strings[i]@,
{
}

/// What the parser gives is taken as it is: the first flag for the first and the second for the
/// second, and the command with every word that follows it, in order.
pub proof fn command_line_is_taken_as_it_is(
    first: bool,
    second: bool,
    name: String,
    rest: Vec<String>,
    message: String,
    exit_code: i32,
)
    ensures
        outcome_of(Ok((first, second, None))) == (Outcome::Parsed { first, second, command: None }),
        outcome_of(Err((message, exit_code))) == (Outcome::Rejected {
            message: message@,
            exit_code,
        }),
        outcome_of(Ok((first, second, Some((name, rest))))) matches Outcome::Parsed {
            first: f,
            second: s,
            command,
        } && f == first && s == second && (command_words(command) matches Some(words) && words.len()
            == rest@.len() + 1 && words[0] == name@ && forall|i: int|
            0 <= i < rest@.len() ==> words[i + 1] == #[trigger] rest@[i]@),
        command_words(None) is None,
{
    let words = seq![name@] + texts(rest@);
    assert forall|i: int| 0 <= i < rest@.len() implies words[i + 1] == #[trigger] rest@[i]@ by {
        assert(texts(rest@)[i] == rest@[i]@);
    }
}

/// The words of a command are those of its strings, each in its place.
pub proof fn command_has_its_words(args: Args, words: Vec<String>)
    ensures
        args.command is None <==> args.words() is None,
        args.command == Some(ArgCommand::Command(words)) ==> (args.words() matches Some(seen)
            && seen.len() == words@.len() && forall|i: int|
            0 <= i < words@.len() ==> seen[i] == #[trigger] words@[i]@),
{
    if args.command == Some(ArgCommand::Command(words)) {
        assert forall|i: int| 0 <= i < words@.len() implies (args.words()->0)[i]
            == #[trigger] words@[i]@ by {
            assert(texts(words@)[i] == words@[i]@);
        }
    }
}

/// The program has the flags `follow-forks`, also `-f`, and `collapse-exec-retries`, in this
/// order.
pub proof fn program_has_its_flags()
    ensures
        procactivity_command().program == "procactivity"@,
        procactivity_command().first == "follow-forks"@,
        procactivity_command().short == 'f',
        procactivity_command().second == "collapse-exec-retries"@,
{
}

} // verus!
