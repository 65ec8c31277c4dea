use rutify::args::CliError;
use rutify::cli::{Cli, Commands};
use rutify::commands::{token_preview, AuthAction, TokenAction};

#[test]
fn main_test_cli_parsing() {
    let args = vec!["rutify-cli", "--server", "http://localhost:8080", "notifies"];
    let cli = Cli::try_parse_from(args).unwrap();

    assert_eq!(cli.server, "http://localhost:8080");
    match cli.command {
        Commands::Notifies => {}
        _ => panic!("Expected Notifies command"),
    }
}

#[test]
fn main_test_cli_default_server() {
    let args = vec!["rutify-cli", "stats"];
    let cli = Cli::try_parse_from(args).unwrap();

    assert_eq!(cli.server, "http://127.0.0.1:3000");
    match cli.command {
        Commands::Stats => {}
        _ => panic!("Expected Stats command"),
    }
}

#[test]
fn test_send_command_parsing() {
    let args = vec![
        "rutify-cli",
        "send",
        "Hello World",
        "--title",
        "Test Title",
        "--device",
        "test-device",
    ];
    let cli = Cli::try_parse_from(args).unwrap();

    match cli.command {
        Commands::Send { message, title, device } => {
            assert_eq!(message, "Hello World");
            assert_eq!(title, Some("Test Title".to_string()));
            assert_eq!(device, Some("test-device".to_string()));
        }
        _ => panic!("Expected Send command"),
    }
}

#[test]
fn test_send_command_optional_fields() {
    let args = vec!["rutify-cli", "send", "Hello World"];
    let cli = Cli::try_parse_from(args).unwrap();

    match cli.command {
        Commands::Send { message, title, device } => {
            assert_eq!(message, "Hello World");
            assert_eq!(title, None);
            assert_eq!(device, None);
        }
        _ => panic!("Expected Send command"),
    }
}

#[test]
fn test_all_commands_exist() {
    let commands = vec![
        vec!["rutify-cli", "notifies"],
        vec!["rutify-cli", "stats"],
        vec!["rutify-cli", "send", "test"],
        vec!["rutify-cli", "listen"],
        vec!["rutify-cli", "send-and-listen", "--message", "test"],
        vec!["rutify-cli", "devices"],
        vec!["rutify-cli", "health"],
    ];

    for args in commands {
        let result = Cli::try_parse_from(args.clone());
        assert!(result.is_ok(), "Failed to parse: {:?}", args);
    }
}

#[test]
fn test_unicode_arguments() {
    let args = vec![
        "rutify-cli",
        "send",
        "🚀 Hello World 🌍",
        "--title",
        "测试标题",
        "--device",
        "デバイス",
    ];

    let result = Cli::try_parse_from(args);
    assert!(result.is_ok());

    if let Ok(cli) = result {
        match cli.command {
            Commands::Send { message, title, device } => {
                assert_eq!(message, "🚀 Hello World 🌍");
                assert_eq!(title.unwrap(), "测试标题");
                assert_eq!(device.unwrap(), "デバイス");
            }
            _ => panic!("Expected Send command"),
        }
    }
}

fn text(value: &str) -> String {
    value.to_string()
}

#[test]
fn options_take_their_value_in_every_form() {
    for args in [
        vec!["rutify-cli", "-s", "http://h", "stats"],
        vec!["rutify-cli", "-shttp://h", "stats"],
        vec!["rutify-cli", "-s=http://h", "stats"],
        vec!["rutify-cli", "--server=http://h", "stats"],
    ] {
        assert_eq!(
            Cli::try_parse_from(args),
            Ok(Cli { server: text("http://h"), command: Commands::Stats })
        );
    }
    assert_eq!(
        Cli::try_parse_from(vec!["rutify-cli", "send", "--title=a=b", "m"]),
        Ok(Cli {
            server: text("http://127.0.0.1:3000"),
            command: Commands::Send { message: text("m"), title: Some(text("a=b")), device: None },
        })
    );
    assert_eq!(
        Cli::try_parse_from(vec!["rutify-cli", "send", "--", "--title"]),
        Ok(Cli {
            server: text("http://127.0.0.1:3000"),
            command: Commands::Send { message: text("--title"), title: None, device: None },
        })
    );
    assert_eq!(
        Cli::try_parse_from(vec!["rutify-cli", "send-and-listen", "--message", "-"]),
        Ok(Cli {
            server: text("http://127.0.0.1:3000"),
            command: Commands::SendAndListen { message: text("-"), title: None, device: None },
        })
    );
}

#[test]
fn each_fault_of_a_command_line_has_its_error() {
    let parse = |args: Vec<&str>| Cli::try_parse_from(args).unwrap_err();
    assert_eq!(parse(vec![]), CliError::MissingSubcommand);
    assert_eq!(parse(vec!["rutify-cli"]), CliError::MissingSubcommand);
    assert_eq!(parse(vec!["rutify-cli", "--help"]), CliError::HelpRequested);
    assert_eq!(parse(vec!["rutify-cli", "stats", "-h"]), CliError::HelpRequested);
    assert_eq!(parse(vec!["rutify-cli", "fly"]), CliError::UnknownSubcommand(text("fly")));
    assert_eq!(parse(vec!["rutify-cli", "--port", "1"]), CliError::UnknownArgument(text("--port")));
    assert_eq!(
        parse(vec!["rutify-cli", "stats", "--server", "x"]),
        CliError::UnknownArgument(text("--server"))
    );
    assert_eq!(
        parse(vec!["rutify-cli", "send", "--message", "m"]),
        CliError::UnknownArgument(text("--message"))
    );
    assert_eq!(parse(vec!["rutify-cli", "--server"]), CliError::MissingValue(text("server")));
    assert_eq!(
        parse(vec!["rutify-cli", "send", "m", "--title", "--device", "d"]),
        CliError::MissingValue(text("title"))
    );
    assert_eq!(parse(vec!["rutify-cli", "send"]), CliError::MissingRequired(text("message")));
    assert_eq!(
        parse(vec!["rutify-cli", "send-and-listen"]),
        CliError::MissingRequired(text("message"))
    );
    assert_eq!(
        parse(vec!["rutify-cli", "-s", "a", "-s", "b", "stats"]),
        CliError::DuplicateArgument(text("server"))
    );
    assert_eq!(
        parse(vec!["rutify-cli", "send", "a", "b"]),
        CliError::UnexpectedValue(text("b"))
    );
    assert_eq!(parse(vec!["rutify-cli", "stats", "x"]), CliError::UnexpectedValue(text("x")));
}

#[test]
fn a_token_is_shown_by_its_first_twenty_characters() {
    assert_eq!(token_preview("short"), "short");
    assert_eq!(token_preview("01234567890123456789"), "01234567890123456789");
    assert_eq!(token_preview("0123456789012345678901234"), "01234567890123456789");
    assert_eq!(token_preview("ééééééééééééééééééééé"), "éééééééééééééééééééé");
}

#[test]
fn only_registration_and_login_need_no_user() {
    assert!(!AuthAction::Register { username: text("u"), password: text("p"), email: text("e") }
        .needs_user_token());
    assert!(!AuthAction::Login { username: text("u"), password: text("p") }.needs_user_token());
    assert!(AuthAction::Profile.needs_user_token());
    assert!(AuthAction::ListTokens.needs_user_token());
    assert!(AuthAction::DeleteToken { id: 1 }.needs_user_token());
    assert!(AuthAction::CreateToken { usage: text("u"), device: None, expires: 24 }
        .needs_user_token());
    assert_ne!(TokenAction::Clear, TokenAction::Status);
}
