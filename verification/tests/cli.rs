use wordle::cli_arguments::{WordleCliCommand, WordleCliCommandError, WordleCliInput};

fn args(list: &[&str]) -> Vec<String> {
    list.iter().map(|s| String::from(*s)).collect()
}

#[test]
fn wordle_cli_command_from_args_exec_missing() {
    let error = WordleCliCommand::from_args(args(&[]));
    assert_eq!(error, Err(WordleCliCommandError::ExecMissing));
}

#[test]
fn wordle_cli_command_from_args_empty_is_run_stdin() {
    let expected_help = WordleCliCommand::from_args(args(&["test exec"]));
    assert_eq!(
        expected_help,
        Ok(WordleCliCommand::Run {
            exec_name: String::from("test exec"),
            input: WordleCliInput::Stdin
        })
    )
}

#[test]
fn wordle_cli_command_from_args_help() {
    let expected_help = WordleCliCommand::from_args(args(&["test exec", "help"]));
    assert_eq!(
        expected_help,
        Ok(WordleCliCommand::Help {
            exec_name: String::from("test exec")
        })
    );
    let expected_help = WordleCliCommand::from_args(args(&["test executable name", "--help"]));
    assert_eq!(
        expected_help,
        Ok(WordleCliCommand::Help {
            exec_name: String::from("test executable name")
        })
    );
    let expected_help = WordleCliCommand::from_args(args(&["test exec", "-h"]));
    assert_eq!(
        expected_help,
        Ok(WordleCliCommand::Help {
            exec_name: String::from("test exec")
        })
    );
}

#[test]
fn wordle_cli_command_from_args_version() {
    let expected_version = WordleCliCommand::from_args(args(&["test exec", "version"]));
    assert_eq!(
        expected_version,
        Ok(WordleCliCommand::Version {
            exec_name: String::from("test exec")
        })
    );
    let expected_version = WordleCliCommand::from_args(args(&["test exec", "--version"]));
    assert_eq!(
        expected_version,
        Ok(WordleCliCommand::Version {
            exec_name: String::from("test exec")
        })
    );
    let expected_version = WordleCliCommand::from_args(args(&["test exec", "-v"]));
    assert_eq!(
        expected_version,
        Ok(WordleCliCommand::Version {
            exec_name: String::from("test exec")
        })
    );
}

#[test]
fn wordle_cli_command_from_args_single_argument_is_path() {
    let expected_file_input = WordleCliCommand::from_args(args(&["the executable name", "some file"]));
    assert_eq!(
        expected_file_input,
        Ok(WordleCliCommand::Run {
            exec_name: String::from("the executable name"),
            input: WordleCliInput::File(String::from("some file"))
        })
    );
}

#[test]
fn wordle_cli_commands_from_args_unexpected_arguments_help() {
    let expected_error = WordleCliCommand::from_args(args(&["exec name", "help", "arg"]));
    assert_eq!(
        expected_error,
        Err(WordleCliCommandError::UnexpectedArguments {
            command: String::from("help"),
            arguments: vec![String::from("arg")]
        })
    );
    let expected_error = WordleCliCommand::from_args(args(&["exec name", "help", "arg", "ument"]));
    assert_eq!(
        expected_error,
        Err(WordleCliCommandError::UnexpectedArguments {
            command: String::from("help"),
            arguments: vec![String::from("arg"), String::from("ument")]
        })
    );
}

#[test]
fn wordle_cli_commands_from_args_unexpected_arguments_version() {
    let expected_error = WordleCliCommand::from_args(args(&["exec name", "version", "arg"]));
    assert_eq!(
        expected_error,
        Err(WordleCliCommandError::UnexpectedArguments {
            command: String::from("version"),
            arguments: vec![String::from("arg")]
        })
    );
    let expected_error =
        WordleCliCommand::from_args(args(&["exec name", "version", "arg", "ument"]));
    assert_eq!(
        expected_error,
        Err(WordleCliCommandError::UnexpectedArguments {
            command: String::from("version"),
            arguments: vec![String::from("arg"), String::from("ument")]
        })
    );
}

#[test]
fn wordle_cli_commands_from_args_unexpected_arguments_input_file() {
    let expected_error = WordleCliCommand::from_args(args(&["exec name", "file", "arg"]));
    assert_eq!(
        expected_error,
        Err(WordleCliCommandError::UnexpectedArguments {
            command: String::from("input-file"),
            arguments: vec![String::from("arg")]
        })
    );
    let expected_error =
        WordleCliCommand::from_args(args(&["exec name", "file path", "arg", "ument"]));
    assert_eq!(
        expected_error,
        Err(WordleCliCommandError::UnexpectedArguments {
            command: String::from("input-file"),
            arguments: vec![String::from("arg"), String::from("ument")]
        })
    );
}
