//! Parsing of the command line arguments.

use vstd::prelude::*;
use vstd::string::StringExecFns;
use vstd::std_specs::cmp::PartialEqSpec;
use crate::words::{str_eq, word_list_eq};

verus! {

/// A command line interface wordle CLI command.
#[derive(Debug)]
pub enum WordleCliCommand {
    /// Output this binary version.
    Version {
        /// The name of the binary, as it was invoked: the first CLI argument.
        exec_name: String,
    },
    /// Display the help message.
    Help {
        /// The name of the binary, as it was invoked: the first CLI argument.
        exec_name: String,
    },
    /// Play wordle game.
    Run {
        /// The name of the binary, as it was invoked: the first CLI argument.
        exec_name: String,
        /// How words are loaded.
        input: WordleCliInput,
    },
}

/// How the words to guess are loaded.
#[derive(Debug)]
pub enum WordleCliInput {
    /// From the file at this path.
    File(String),
    /// From the standard input.
    Stdin,
}

/// Could not parse wordle CLI command.
#[derive(Debug)]
pub enum WordleCliCommandError {
    /// The executable name was missing: providing the executable
    /// name or path as the first argument is a convention.
    ExecMissing,
    /// A command was identified but additional arguments, not expected,
    /// were found.
    UnexpectedArguments {
        /// The identified command.
        command: String,
        /// A list of arguments that were not matched.
        arguments: Vec<String>,
    },
}

/// Error while executing wordle command.
pub enum WordleCliExecutionError {
    /// An IO error occurred.
    Io(std::io::Error),
    /// No words to guess were found, so the game could not be started.
    NoWords,
}

impl PartialEq for WordleCliInput {
    fn eq(&self, other: &WordleCliInput) -> (r: bool) {
        match (self, other) {
            (WordleCliInput::File(a), WordleCliInput::File(b)) => str_eq(a.as_str(), b.as_str()),
            (WordleCliInput::Stdin, WordleCliInput::Stdin) => true,
            _ => false,
        }
    }
}

impl vstd::std_specs::cmp::PartialEqSpecImpl for WordleCliInput {
    open spec fn obeys_eq_spec() -> bool {
        true
    }

    open spec fn eq_spec(&self, other: &WordleCliInput) -> bool {
        match (self, other) {
            (WordleCliInput::File(a), WordleCliInput::File(b)) => a@ == b@,
            (WordleCliInput::Stdin, WordleCliInput::Stdin) => true,
            _ => false,
        }
    }
}

impl PartialEq for WordleCliCommand {
    fn eq(&self, other: &WordleCliCommand) -> (r: bool) {
        match (self, other) {
            (
                WordleCliCommand::Version { exec_name: a },
                WordleCliCommand::Version { exec_name: b },
            ) => str_eq(a.as_str(), b.as_str()),
            (WordleCliCommand::Help { exec_name: a }, WordleCliCommand::Help { exec_name: b }) => str_eq(
                a.as_str(),
                b.as_str(),
            ),
            (
                WordleCliCommand::Run { exec_name: a, input: ia },
                WordleCliCommand::Run { exec_name: b, input: ib },
            ) => str_eq(a.as_str(), b.as_str()) && ia == ib,
            _ => false,
        }
    }
}

impl vstd::std_specs::cmp::PartialEqSpecImpl for WordleCliCommand {
    open spec fn obeys_eq_spec() -> bool {
        true
    }

    open spec fn eq_spec(&self, other: &WordleCliCommand) -> bool {
        match (self, other) {
            (
                WordleCliCommand::Version { exec_name: a },
                WordleCliCommand::Version { exec_name: b },
            ) => a@ == b@,
            (WordleCliCommand::Help { exec_name: a }, WordleCliCommand::Help { exec_name: b }) => a@ == b@,
            (
                WordleCliCommand::Run { exec_name: a, input: ia },
                WordleCliCommand::Run { exec_name: b, input: ib },
            ) => a@ == b@ && PartialEqSpec::eq_spec(ia, ib),
            _ => false,
        }
    }
}

impl PartialEq for WordleCliCommandError {
    fn eq(&self, other: &WordleCliCommandError) -> (r: bool) {
        match (self, other) {
            (WordleCliCommandError::ExecMissing, WordleCliCommandError::ExecMissing) => true,
            (
                WordleCliCommandError::UnexpectedArguments { command: ca, arguments: aa },
                WordleCliCommandError::UnexpectedArguments { command: cb, arguments: ab },
            ) => str_eq(ca.as_str(), cb.as_str()) && word_list_eq(aa, ab),
            _ => false,
        }
    }
}

impl vstd::std_specs::cmp::PartialEqSpecImpl for WordleCliCommandError {
    open spec fn obeys_eq_spec() -> bool {
        true
    }

    open spec fn eq_spec(&self, other: &WordleCliCommandError) -> bool {
        match (self, other) {
            (WordleCliCommandError::ExecMissing, WordleCliCommandError::ExecMissing) => true,
            (
                WordleCliCommandError::UnexpectedArguments { command: ca, arguments: aa },
                WordleCliCommandError::UnexpectedArguments { command: cb, arguments: ab },
            ) => ca@ == cb@ && aa.deep_view() == ab.deep_view(),
            _ => false,
        }
    }
}

/// The words that select the help command.
pub open spec fn is_help_token(s: Seq<char>) -> bool {
    s == "help"@ || s == "--help"@ || s == "-h"@
}

/// The words that select the version command.
pub open spec fn is_version_token(s: Seq<char>) -> bool {
    s == "version"@ || s == "--version"@ || s == "-v"@
}

impl WordleCliCommand {
    /// Attempt to get the CLI command to run from binary arguments.
    ///
    /// The first argument is the executable name; without it parsing
    /// fails. With no further argument the game runs reading words from
    /// the standard input; a single further argument selects the help or
    /// version command, or names the words file; anything after it is
    /// unexpected and reported with the command it followed.
    pub fn from_args(args: Vec<String>) -> (result: Result<
        WordleCliCommand,
        WordleCliCommandError,
    >)
        ensures
            ({
                let a = args.deep_view();
                match result {
                    Err(WordleCliCommandError::ExecMissing) => a.len() == 0,
                    Err(WordleCliCommandError::UnexpectedArguments { command, arguments }) => ({
                        &&& a.len() >= 3
                        &&& arguments.deep_view() == a.skip(2)
                        &&& command@ == (if is_help_token(a[1]) {
                            "help"@
                        } else if is_version_token(a[1]) {
                            "version"@
                        } else {
                            "input-file"@
                        })
                    }),
                    Ok(WordleCliCommand::Help { exec_name }) => a.len() == 2 && exec_name@ == a[0]
                        && is_help_token(a[1]),
                    Ok(WordleCliCommand::Version { exec_name }) => a.len() == 2 && exec_name@ == a[0]
                        && is_version_token(a[1]),
                    Ok(WordleCliCommand::Run { exec_name, input }) => ({
                        &&& exec_name@ == a[0]
                        &&& match input {
                            WordleCliInput::Stdin => a.len() == 1,
                            WordleCliInput::File(path) => ({
                                &&& a.len() == 2
                                &&& !is_help_token(a[1])
                                &&& !is_version_token(a[1])
                                &&& path@ == a[1]
                            }),
                        }
                    }),
                }
            }),
    {
        if args.len() == 0 {
            return Err(WordleCliCommandError::ExecMissing);
        }
        let exec_name = args[0].clone();
        proof {
            assert(exec_name@ == args.deep_view()[0]);
        }
        if args.len() == 1 {
            return Ok(WordleCliCommand::Run { exec_name, input: WordleCliInput::Stdin });
        }
        let first_argument = args[1].as_str();
        proof {
            assert(first_argument@ == args.deep_view()[1]);
        }
        let is_help = str_eq(first_argument, "help") || str_eq(first_argument, "--help")
            || str_eq(first_argument, "-h");
        let is_version = str_eq(first_argument, "version") || str_eq(first_argument, "--version")
            || str_eq(first_argument, "-v");
        if args.len() > 2 {
            let command = if is_help {
                String::from_str("help")
            } else if is_version {
                String::from_str("version")
            } else {
                String::from_str("input-file")
            };
            let mut remaining: Vec<String> = Vec::new();
            let n = args.len();
            for i in 2..n
                invariant
                    n == args.len(),
                    2 <= n,
                    remaining@.len() == i - 2,
                    forall|k: int|
                        0 <= k < i - 2 ==> remaining.deep_view()[k] == args.deep_view()[k + 2],
            {
                let ghost before = remaining.deep_view();
                remaining.push(args[i].clone());
                proof {
                    assert forall|k: int| 0 <= k < i - 1 implies remaining.deep_view()[k]
                        == args.deep_view()[k + 2] by {
                        assert(remaining.deep_view()[k] == remaining@[k]@);
                        if k < i - 2 {
                            assert(remaining@[k]@ == before[k]);
                        } else {
                            assert(remaining@[k]@ == args@[i as int]@);
                        }
                    }
                }
            }
            proof {
                assert(remaining.deep_view() =~= args.deep_view().skip(2));
            }
            return Err(
                WordleCliCommandError::UnexpectedArguments { command, arguments: remaining },
            );
        }
        if is_help {
            Ok(WordleCliCommand::Help { exec_name })
        } else if is_version {
            Ok(WordleCliCommand::Version { exec_name })
        } else {
            let path = args[1].clone();
            proof {
                assert(path@ == args.deep_view()[1]);
            }
            Ok(WordleCliCommand::Run { exec_name, input: WordleCliInput::File(path) })
        }
    }
}

} // verus!
