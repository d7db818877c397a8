use posthog_flags::cli::{Cli, CliError, Commands, FlagsCommands};

#[test]
fn parses_flag_subcommands() {
    assert!(matches!(
        Cli::try_parse_from(&["posthog", "flags", "list"])
            .unwrap()
            .command,
        Commands::Flags {
            command: FlagsCommands::List
        }
    ));
    assert!(matches!(
        Cli::try_parse_from(&["posthog", "flags", "enable", "flag-key"])
            .unwrap()
            .command,
        Commands::Flags {
            command: FlagsCommands::Enable { key }
        } if key == "flag-key"
    ));
    assert!(matches!(
        Cli::try_parse_from(&["posthog", "flags", "delete", "flag-key"])
            .unwrap()
            .command,
        Commands::Flags {
            command: FlagsCommands::Delete { key }
        } if key == "flag-key"
    ));
}

#[test]
fn parses_every_keyed_subcommand() {
    let parse = |sub: &str| match Cli::try_parse_from(&["posthog", "flags", sub, "k"]).unwrap().command {
        Commands::Flags { command } => command,
    };
    assert!(matches!(parse("get"), FlagsCommands::Get { key } if key == "k"));
    assert!(matches!(parse("create"), FlagsCommands::Create { key } if key == "k"));
    assert!(matches!(parse("enable"), FlagsCommands::Enable { key } if key == "k"));
    assert!(matches!(parse("disable"), FlagsCommands::Disable { key } if key == "k"));
    assert!(matches!(parse("delete"), FlagsCommands::Delete { key } if key == "k"));
}

#[test]
fn refuses_malformed_command_lines() {
    assert!(matches!(Cli::try_parse_from(&["posthog"]), Err(CliError::MissingCommand)));
    assert!(matches!(Cli::try_parse_from(&["posthog", "flags"]), Err(CliError::MissingCommand)));
    assert!(matches!(
        Cli::try_parse_from(&["posthog", "flag"]),
        Err(CliError::UnknownCommand { name }) if name == "flag"
    ));
    assert!(matches!(
        Cli::try_parse_from(&["posthog", "flags", "toggle", "k"]),
        Err(CliError::UnknownCommand { name }) if name == "toggle"
    ));
    assert!(matches!(Cli::try_parse_from(&["posthog", "flags", "get"]), Err(CliError::MissingKey)));
    assert!(matches!(
        Cli::try_parse_from(&["posthog", "flags", "list", "extra"]),
        Err(CliError::UnexpectedArgument { arg }) if arg == "extra"
    ));
    assert!(matches!(
        Cli::try_parse_from(&["posthog", "flags", "get", "a", "b"]),
        Err(CliError::UnexpectedArgument { arg }) if arg == "b"
    ));
    assert!(matches!(
        Cli::try_parse_from(&["posthog", "flags", "get", "--verbose"]),
        Err(CliError::UnexpectedArgument { arg }) if arg == "--verbose"
    ));
}

#[test]
fn help_is_asked_for_in_several_ways() {
    assert!(matches!(Cli::try_parse_from(&["posthog", "--help"]), Err(CliError::Help)));
    assert!(matches!(Cli::try_parse_from(&["posthog", "flags", "-h"]), Err(CliError::Help)));
    assert!(matches!(Cli::try_parse_from(&["posthog", "help"]), Err(CliError::Help)));
    assert!(matches!(Cli::try_parse_from(&["posthog", "flags", "get", "k", "--help"]), Err(CliError::Help)));
    let help = Cli::try_parse_from(&["posthog", "help"]).unwrap_err();
    assert!(help.is_help());
}

#[test]
fn a_dash_alone_is_a_key() {
    assert!(matches!(
        Cli::try_parse_from(&["posthog", "flags", "get", "-"]).unwrap().command,
        Commands::Flags { command: FlagsCommands::Get { key } } if key == "-"
    ));
}

#[test]
fn words_after_a_double_dash_are_never_options() {
    assert!(matches!(
        Cli::try_parse_from(&["posthog", "flags", "get", "--", "-x"]).unwrap().command,
        Commands::Flags { command: FlagsCommands::Get { key } } if key == "-x"
    ));
    assert!(matches!(
        Cli::try_parse_from(&["posthog", "flags", "delete", "--", "--help"]).unwrap().command,
        Commands::Flags { command: FlagsCommands::Delete { key } } if key == "--help"
    ));
    assert!(Cli::try_parse_from(&["posthog", "flags", "list", "--"]).is_ok());
}

#[test]
fn words_after_a_double_dash_never_name_a_command() {
    assert!(matches!(
        Cli::try_parse_from(&["posthog", "--", "flags", "list"]),
        Err(CliError::UnexpectedArgument { arg }) if arg == "flags"
    ));
    assert!(matches!(
        Cli::try_parse_from(&["posthog", "flags", "--", "list"]),
        Err(CliError::UnexpectedArgument { arg }) if arg == "list"
    ));
    assert!(matches!(
        Cli::try_parse_from(&["posthog", "flagz", "--", "list"]),
        Err(CliError::UnknownCommand { name }) if name == "flagz"
    ));
    assert!(matches!(Cli::try_parse_from(&["posthog", "flags", "--"]), Err(CliError::MissingCommand)));
    assert!(matches!(
        Cli::try_parse_from(&["posthog", "flags", "list", "--", "x"]),
        Err(CliError::UnexpectedArgument { arg }) if arg == "x"
    ));
}
