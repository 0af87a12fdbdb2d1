use cmus_status_line::action::{action, Action};
use cmus_status_line::args::{
    dump_config_text, help_text, version_text, Args, CliCommand, CliCommands, CliOption,
    CliOptions,
};
use cmus_status_line::cmus_status::output::{Format, FormatPart};
use cmus_status_line::config::{config_place, config_places, Config, ConfigPlace, OutputConfig};
use cmus_status_line::error::Error;

fn args(list: &[&str]) -> Result<Args, Error> {
    Args::new(list.iter().map(|a| a.to_string()).collect())
}

fn decide(list: &[&str]) -> Result<Action, Error> {
    action(&args(list).unwrap())
}

#[test]
fn commands_are_read_by_name() {
    assert_eq!(CliCommand::try_from("status"), Ok(CliCommand::Status));
    assert_eq!(CliCommand::try_from("help"), Ok(CliCommand::Help));
    assert_eq!(CliCommand::try_from("dump-config"), Ok(CliCommand::DumpConfig));
    assert_eq!(CliCommand::try_from("  help\t"), Ok(CliCommand::Help));
    for arg in ["", " ", "Status", "statuss", "dump config", "help me", "-help", "dump_config"] {
        assert_eq!(CliCommand::try_from(arg), Err(()), "{:?}", arg);
    }
}

#[test]
fn command_names() {
    assert_eq!(CliCommand::Status.name(), "status");
    assert_eq!(CliCommand::Help.name(), "help");
    assert_eq!(CliCommand::DumpConfig.name(), "dump-config");
    assert_eq!(
        CliCommands(vec![CliCommand::Help, CliCommand::Status, CliCommand::DumpConfig])
            .to_string(),
        "help status dump-config"
    );
    assert_eq!(CliCommands(vec![]).to_string(), "");
    assert_eq!(CliCommands::default().0, vec![]);
    let commands = CliCommands(vec![CliCommand::Help, CliCommand::Status]);
    let all: Vec<&CliCommand> = commands.iter().collect();
    assert_eq!(all, vec![&CliCommand::Help, &CliCommand::Status]);
}

#[test]
fn options_are_read_by_name_and_by_letter() {
    let read = |arg: &str| CliOptions::try_from(arg).map(|o| o.into());
    assert_eq!(read("--help"), Ok(vec![CliOption::Help]));
    assert_eq!(read("--version"), Ok(vec![CliOption::Version]));
    assert_eq!(read("-h"), Ok(vec![CliOption::Help]));
    assert_eq!(read("-v"), Ok(vec![CliOption::Version]));
    assert_eq!(
        read("-hvh"),
        Ok(vec![CliOption::Help, CliOption::Version, CliOption::Help])
    );
    assert_eq!(read("  -vh \n"), Ok(vec![CliOption::Version, CliOption::Help]));
    assert_eq!(read(" --help "), Ok(vec![CliOption::Help]));
    for arg in [
        "", "-", "--", "---", "--h", "--v", "--Help", "--helpp", "---help", "-x", "-hx", "-h v",
        "-h -v", "help", "h", "- h", "-- help", "--help x", "-help",
    ] {
        assert_eq!(read(arg), Err(()), "{:?}", arg);
    }
}

#[test]
fn option_names() {
    assert_eq!(CliOption::Help.name_single(), 'h');
    assert_eq!(CliOption::Help.name_double(), "help");
    assert_eq!(CliOption::Version.name_single(), 'v');
    assert_eq!(CliOption::Version.name_double(), "version");
}

#[test]
fn options_as_a_list() {
    let options = CliOptions::from(vec![CliOption::Version]);
    assert!(options.has(&CliOption::Version));
    assert!(!options.has(&CliOption::Help));
    assert!(!options.is_empty());
    let all: Vec<&CliOption> = options.iter().collect();
    assert_eq!(all, vec![&CliOption::Version]);
    assert!(CliOptions::default().is_empty());
    assert!(!CliOptions::default().has(&CliOption::Help));
    assert_eq!(options.into(), vec![CliOption::Version]);
}

#[test]
fn arguments_are_sorted_into_commands_and_options() {
    let read = args(&["help", "-hv", "status", "--version", "dump-config"]).unwrap();
    assert_eq!(
        read.commands.0,
        vec![CliCommand::Help, CliCommand::Status, CliCommand::DumpConfig]
    );
    assert_eq!(
        read.options.0,
        vec![CliOption::Help, CliOption::Version, CliOption::Version]
    );
    let read = args(&[]).unwrap();
    assert!(read.commands.0.is_empty());
    assert!(read.options.is_empty());
}

#[test]
fn first_bad_argument_is_refused() {
    assert_eq!(
        args(&["help", "--wat", "nope"]).unwrap_err(),
        Error::InvalidArgument("--wat".to_string())
    );
    assert_eq!(
        args(&[" nope "]).unwrap_err(),
        Error::InvalidArgument(" nope ".to_string())
    );
    assert_eq!(args(&[""]).unwrap_err(), Error::InvalidArgument("".to_string()));
}

#[test]
fn actions() {
    assert_eq!(decide(&[]), Ok(Action::Status));
    assert_eq!(decide(&["status"]), Ok(Action::Status));
    assert_eq!(decide(&["help"]), Ok(Action::Help));
    assert_eq!(decide(&["dump-config"]), Ok(Action::DumpConfig));
    assert_eq!(decide(&["-h"]), Ok(Action::Help));
    assert_eq!(decide(&["--version"]), Ok(Action::Version));
    assert_eq!(decide(&["-vh"]), Ok(Action::Version));
    assert_eq!(decide(&["-h", "--version"]), Ok(Action::Help));
    assert_eq!(decide(&["help", "-v"]), Ok(Action::Help));
    assert_eq!(decide(&["-v", "dump-config"]), Ok(Action::DumpConfig));
    assert_eq!(decide(&["help", "dump-config"]), Ok(Action::DumpConfig));
    assert_eq!(decide(&["dump-config", "help"]), Ok(Action::Help));
    assert_eq!(decide(&["status", "help"]), Ok(Action::Help));
    assert_eq!(Action::default(), Action::Status);
}

#[test]
fn status_takes_no_options() {
    assert_eq!(
        decide(&["status", "-h"]),
        Err(Error::CommandTakesNoOptions("status".to_string()))
    );
    assert_eq!(
        decide(&["--version", "status", "help"]),
        Err(Error::CommandTakesNoOptions("status".to_string()))
    );
}

#[test]
fn status_must_come_first() {
    assert_eq!(
        decide(&["help", "status"]),
        Err(Error::InvalidCommandLen("help status".to_string()))
    );
    assert_eq!(
        decide(&["status", "status", "-h"]),
        Err(Error::CommandTakesNoOptions("status".to_string()))
    );
    assert_eq!(
        decide(&["status", "dump-config", "status"]),
        Err(Error::InvalidCommandLen("status dump-config status".to_string()))
    );
    assert_eq!(
        decide(&["help", "status", "-v"]),
        Err(Error::InvalidCommandLen("help status".to_string()))
    );
}

#[test]
fn configuration() {
    let config = Config::new(None, None).unwrap();
    assert!(!config.output.escape_html);
    let all: Vec<&FormatPart> = config.format.iter().collect();
    assert_eq!(all, vec![&FormatPart::Text("NO FORMAT".to_string())]);
    let config = Config::new(
        Some("%{Title}!".to_string()),
        Some(OutputConfig { escape_html: true }),
    )
    .unwrap();
    assert!(config.output.escape_html);
    let all: Vec<&FormatPart> = config.format.iter().collect();
    assert_eq!(all, vec![&FormatPart::Title, &FormatPart::Text("!".to_string())]);
    assert_eq!(
        Config::new(Some("%{Nope}".to_string()), None).unwrap_err(),
        Error::InvalidFormatKeyword("Nope".to_string())
    );
    let format = Format::default();
    assert_eq!(format.iter().count(), 1);
}

#[test]
fn help() {
    let name = "cmus-status-line";
    let want = format!(
        r#"{description}

USAGE:
    {name} [OPTIONS] [COMMAND]

OPTIONS:
    {opt_help:<opt_width$} Print this help message and exit.
    {opt_vers:<opt_width$} Print version information and exit.

COMMANDS:
    {cmd_status}
        Print the current cmus playback status
        with the format configured in the config.toml file.
        This is the default command, so you may omit this argument.
    {cmd_dump_config}
        Print the default config as TOML to stdout.
        To write the default config to the proper config file, run something like:
            mkdir -p ~/.config/{name}
            {name} {cmd_dump_config} > ~/.config/{name}/config.toml
    {cmd_help}
        Print this help message and exit."#,
        description = "Prints the current cmus playback status in a customizable format to stdout",
        name = name,
        opt_width = 16,
        opt_help = "-h, --help",
        opt_vers = "-v, --version",
        cmd_status = "status",
        cmd_help = "help",
        cmd_dump_config = "dump-config",
    );
    assert_eq!(help_text(), want);
    assert!(help_text().contains("\n    -h, --help       Print this help message and exit.\n"));
}

#[test]
fn version_and_dumped_configuration() {
    assert_eq!(version_text(), "cmus-status-line v0.1.0");
    assert_eq!(
        dump_config_text("format = \"x\"\n"),
        "# DEFAULT CONFIG FOR cmus-status-line
# To write this config to the proper config file, run something like:
#     mkdir -p ~/.config/cmus-status-line
#     cmus-status-line dump-config > ~/.config/cmus-status-line/config.toml

format = \"x\"
"
    );
}

#[test]
fn places_of_the_configuration() {
    let place = |in_config_dir: bool, name: &str| ConfigPlace {
        in_config_dir,
        name: name.to_string(),
    };
    assert_eq!(
        config_places(),
        vec![
            place(false, "./config.toml"),
            place(true, "format.ron"),
            place(true, "config.toml"),
        ]
    );
    assert_eq!(config_place("<CONFIG_DIR>"), place(true, ""));
    assert_eq!(config_place("<CONFIG_DIR>x/y"), place(true, "x/y"));
    assert_eq!(config_place("<CONFIG_DIR>//y"), place(true, "/y"));
    assert_eq!(config_place("<CONFIG_DIR"), place(false, "<CONFIG_DIR"));
    assert_eq!(config_place("a/<CONFIG_DIR>/b"), place(false, "a/<CONFIG_DIR>/b"));
    assert_eq!(config_place(""), place(false, ""));
}

#[test]
fn error_with_the_path_of_the_configuration() {
    assert_eq!(
        Error::FailedParsingConfig(None, "bad".to_string()).at_path("\"/c.toml\"".to_string()),
        Error::FailedParsingConfig(Some("\"/c.toml\"".to_string()), "bad".to_string())
    );
    assert_eq!(
        Error::FailedParsingConfig(Some("a".to_string()), "bad".to_string())
            .at_path("b".to_string()),
        Error::FailedParsingConfig(Some("a".to_string()), "bad".to_string())
    );
    assert_eq!(Error::NoConfig.at_path("b".to_string()), Error::NoConfig);
}
