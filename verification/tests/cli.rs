//! The command line as the front end declares it, here built with clap's
//! builder calls, and what it hands to the library.

use clap::{Arg, ArgMatches, Command};
use connect_util::types::ConnectorOptions;

enum Commands {
    Generate { name: Option<String>, output: Option<String> },
    Validate { config_file: String },
    ListPlugins { plugin_type: Option<String> },
}

struct Cli {
    command: Commands,
}

impl Cli {
    fn command() -> Command {
        Command::new("connect-util")
            .about("Interactive Kafka Connect Connector Terraform Generator")
            .version("0.1.0")
            .subcommand_required(true)
            .arg_required_else_help(true)
            .subcommand(
                Command::new("generate")
                    .about("Generate Terraform configuration interactively")
                    .arg(
                        Arg::new("name")
                            .short('n')
                            .long("name")
                            .help("Connector name (optional - will prompt if not provided)"),
                    )
                    .arg(
                        Arg::new("output")
                            .short('o')
                            .long("output")
                            .help("Output file path (optional - will prompt if not provided)"),
                    ),
            )
            .subcommand(
                Command::new("validate")
                    .about("Validate a connector configuration")
                    .arg(
                        Arg::new("config_file")
                            .short('c')
                            .long("config-file")
                            .required(true)
                            .help("Connector configuration file"),
                    ),
            )
            .subcommand(
                Command::new("list-plugins")
                    .about("List available connector plugins")
                    .arg(
                        Arg::new("type")
                            .short('t')
                            .long("type")
                            .help("Filter by connector type (source, sink)"),
                    ),
            )
    }

    fn value(matches: &ArgMatches, id: &str) -> Option<String> {
        matches.get_one::<String>(id).cloned()
    }

    fn try_parse_from<const N: usize>(args: [&str; N]) -> Result<Cli, clap::Error> {
        let matches = Cli::command().try_get_matches_from(args)?;
        let command = match matches.subcommand() {
            Some(("generate", sub)) => Commands::Generate {
                name: Cli::value(sub, "name"),
                output: Cli::value(sub, "output"),
            },
            Some(("validate", sub)) => Commands::Validate {
                config_file: Cli::value(sub, "config_file").unwrap(),
            },
            Some(("list-plugins", sub)) => Commands::ListPlugins { plugin_type: Cli::value(sub, "type") },
            _ => unreachable!(),
        };
        Ok(Cli { command })
    }
}

#[test]
fn test_cli_parsing_generate_command() {
    let cli = Cli::try_parse_from([
        "connect-util",
        "generate",
        "--name",
        "test-connector",
        "--output",
        "test-output.tf",
    ])
    .unwrap();

    match cli.command {
        Commands::Generate { name, output } => {
            assert_eq!(name, Some("test-connector".to_string()));
            assert_eq!(output, Some("test-output.tf".to_string()));
            let options = ConnectorOptions { name, output };
            assert_eq!(options.name, Some("test-connector".to_string()));
            assert_eq!(options.output, Some("test-output.tf".to_string()));
        }
        _ => panic!("Expected Generate command"),
    }
}

#[test]
fn test_cli_parsing_generate_command_minimal() {
    let cli = Cli::try_parse_from(["connect-util", "generate"]).unwrap();

    match cli.command {
        Commands::Generate { name, output } => {
            assert_eq!(name, None);
            assert_eq!(output, None);
        }
        _ => panic!("Expected Generate command"),
    }
}

#[test]
fn test_cli_parsing_validate_command() {
    let cli = Cli::try_parse_from([
        "connect-util",
        "validate",
        "--config-file",
        "test-config.tf",
    ])
    .unwrap();

    match cli.command {
        Commands::Validate { config_file } => {
            assert_eq!(config_file, "test-config.tf");
        }
        _ => panic!("Expected Validate command"),
    }
}

#[test]
fn test_cli_parsing_list_plugins_command() {
    let cli = Cli::try_parse_from(["connect-util", "list-plugins", "--type", "source"]).unwrap();

    match cli.command {
        Commands::ListPlugins { plugin_type } => {
            assert_eq!(plugin_type, Some("source".to_string()));
        }
        _ => panic!("Expected ListPlugins command"),
    }
}

#[test]
fn test_cli_parsing_list_plugins_command_minimal() {
    let cli = Cli::try_parse_from(["connect-util", "list-plugins"]).unwrap();

    match cli.command {
        Commands::ListPlugins { plugin_type } => {
            assert_eq!(plugin_type, None);
        }
        _ => panic!("Expected ListPlugins command"),
    }
}

#[test]
fn test_cli_help_generation() {
    let mut cli = Cli::command();
    let help = cli.render_help().to_string();

    assert!(help.contains("Interactive Kafka Connect Connector Terraform Generator"));
    assert!(help.contains("generate"));
    assert!(help.contains("validate"));
    assert!(help.contains("list-plugins"));
    assert!(help.contains("Usage: connect-util"));
}

#[test]
fn test_cli_generate_help() {
    let mut cli = Cli::command();
    let help = cli.render_help().to_string();

    assert!(help.contains("Generate Terraform configuration interactively"));
    assert!(help.contains("generate"));
}

#[test]
fn test_cli_validate_help() {
    let mut cli = Cli::command();
    let help = cli.render_help().to_string();

    assert!(help.contains("Validate a connector configuration"));
    assert!(help.contains("validate"));
}

#[test]
fn test_cli_list_plugins_help() {
    let mut cli = Cli::command();
    let help = cli.render_help().to_string();

    assert!(help.contains("List available connector plugins"));
    assert!(help.contains("list-plugins"));
}

#[test]
fn test_cli_invalid_command() {
    let result = Cli::try_parse_from(["connect-util", "invalid-command"]);

    assert!(result.is_err());
}

#[test]
fn test_cli_missing_required_arg() {
    let result = Cli::try_parse_from(["connect-util", "validate"]);

    assert!(result.is_err());
}

#[test]
fn test_cli_short_args() {
    let cli = Cli::try_parse_from([
        "connect-util",
        "generate",
        "-n",
        "test-connector",
        "-o",
        "test.tf",
    ])
    .unwrap();

    match cli.command {
        Commands::Generate { name, output } => {
            assert_eq!(name, Some("test-connector".to_string()));
            assert_eq!(output, Some("test.tf".to_string()));
        }
        _ => panic!("Expected Generate command"),
    }
}

#[test]
fn test_cli_validate_short_args() {
    let cli = Cli::try_parse_from(["connect-util", "validate", "-c", "test-config.tf"]).unwrap();

    match cli.command {
        Commands::Validate { config_file } => {
            assert_eq!(config_file, "test-config.tf");
        }
        _ => panic!("Expected Validate command"),
    }
}

#[test]
fn test_cli_list_plugins_short_args() {
    let cli = Cli::try_parse_from(["connect-util", "list-plugins", "-t", "sink"]).unwrap();

    match cli.command {
        Commands::ListPlugins { plugin_type } => {
            assert_eq!(plugin_type, Some("sink".to_string()));
        }
        _ => panic!("Expected ListPlugins command"),
    }
}

#[test]
fn test_cli_version() {
    let cli = Cli::command();
    let version = cli.render_version().to_string();

    assert!(version.contains("0.1.0"));
}
