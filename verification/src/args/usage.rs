//! The texts that the program prints about itself.

use super::names;
use super::{CliCommand, CliOption};
use crate::meta;
use crate::text::{chars_of, join, repeated};
use vstd::prelude::*;

verus! {

/// The width of the column of options in the help text.
pub const OPT_WIDTH: usize = 16;

/// A text with blanks behind it, up to `width` characters.
pub open spec fn padded(text: Seq<char>, width: nat) -> Seq<char> {
    if text.len() >= width {
        text
    } else {
        text + repeated(' ', (width - text.len()) as nat)
    }
}

/// An option as the help text names it: its letter and its name.
pub open spec fn option_names(option: CliOption) -> Seq<char> {
    "-"@ + seq![option.single()] + ", --"@ + option.double()
}

/// The help text.
pub open spec fn help() -> Seq<char> {
    meta::DESCRIPTION@ + "\n\nUSAGE:\n    "@ + meta::NAME@ + " [OPTIONS] [COMMAND]\n\nOPTIONS:\n    "@
        + padded(option_names(CliOption::Help), OPT_WIDTH as nat)
        + " Print this help message and exit.\n    "@ + padded(
        option_names(CliOption::Version),
        OPT_WIDTH as nat,
    ) + " Print version information and exit.\n\nCOMMANDS:\n    "@ + names::CMD_STATUS@
        + "\n        Print the current cmus playback status\n        with the format configured in the config.toml file.\n        This is the default command, so you may omit this argument.\n    "@
        + names::CMD_DUMP_CONFIG@
        + "\n        Print the default config as TOML to stdout.\n        To write the default config to the proper config file, run something like:\n            mkdir -p ~/.config/"@
        + meta::NAME@ + "\n            "@ + meta::NAME@ + " "@ + names::CMD_DUMP_CONFIG@
        + " > ~/.config/"@ + meta::NAME@ + "/config.toml\n    "@ + names::CMD_HELP@
        + "\n        Print this help message and exit."@
}

/// The line that tells the version.
pub open spec fn version() -> Seq<char> {
    meta::NAME@ + " v"@ + meta::VERSION@
}

/// A configuration with a heading that says where to put it.
pub open spec fn dumped(config: Seq<char>) -> Seq<char> {
    "# DEFAULT CONFIG FOR "@ + meta::NAME@
        + "\n# To write this config to the proper config file, run something like:\n#     mkdir -p ~/.config/"@
        + meta::NAME@ + "\n#     "@ + meta::NAME@ + " "@ + names::CMD_DUMP_CONFIG@
        + " > ~/.config/"@ + meta::NAME@ + "/config.toml\n\n"@ + config
}

fn pad(text: String, width: usize) -> (out: String)
    ensures
        out@ == padded(text@, width as nat),
{
    let len = chars_of(text.as_str()).len();
    let ghost start = text@;
    let mut out = text;
    let mut n: usize = len;
    assert(out@ =~= start + repeated(' ', 0));
    while n < width
        invariant
            len <= n,
            n == len || n <= width,
            len == start.len(),
            out@ == start + repeated(' ', (n - len) as nat),
        decreases width - n,
    {
        out.push(' ');
        n += 1;
        assert(out@ =~= start + repeated(' ', (n - len) as nat));
    }
    assert(len >= width ==> out@ =~= start);
    out
}

fn names_of(option: CliOption) -> (out: String)
    ensures
        out@ == option_names(option),
{
    let mut out = String::from_str("-");
    out.push(option.name_single());
    assert(out@ =~= "-"@ + seq![option.single()]);
    let out = join(out, ", --");
    join(out, option.name_double())
}

/// The help text.
pub fn help_text() -> (out: String)
    ensures
        out@ == help(),
{
    let cmd_status = CliCommand::Status.name();
    let cmd_help = CliCommand::Help.name();
    let cmd_dump_config = CliCommand::DumpConfig.name();
    let opt_help = pad(names_of(CliOption::Help), OPT_WIDTH);
    let opt_vers = pad(names_of(CliOption::Version), OPT_WIDTH);
    let out = String::from_str(meta::DESCRIPTION);
    let out = join(out, "\n\nUSAGE:\n    ");
    let out = join(out, meta::NAME);
    let out = join(out, " [OPTIONS] [COMMAND]\n\nOPTIONS:\n    ");
    let out = join(out, opt_help.as_str());
    let out = join(out, " Print this help message and exit.\n    ");
    let out = join(out, opt_vers.as_str());
    let out = join(out, " Print version information and exit.\n\nCOMMANDS:\n    ");
    let out = join(out, cmd_status);
    let out = join(
        out,
        "\n        Print the current cmus playback status\n        with the format configured in the config.toml file.\n        This is the default command, so you may omit this argument.\n    ",
    );
    let out = join(out, cmd_dump_config);
    let out = join(
        out,
        "\n        Print the default config as TOML to stdout.\n        To write the default config to the proper config file, run something like:\n            mkdir -p ~/.config/",
    );
    let out = join(out, meta::NAME);
    let out = join(out, "\n            ");
    let out = join(out, meta::NAME);
    let out = join(out, " ");
    let out = join(out, cmd_dump_config);
    let out = join(out, " > ~/.config/");
    let out = join(out, meta::NAME);
    let out = join(out, "/config.toml\n    ");
    let out = join(out, cmd_help);
    join(out, "\n        Print this help message and exit.")
}

/// The line that tells the version.
pub fn version_text() -> (out: String)
    ensures
        out@ == version(),
{
    let out = String::from_str(meta::NAME);
    let out = join(out, " v");
    join(out, meta::VERSION)
}

/// A configuration with a heading that says where to put it.
pub fn dump_config_text(config: &str) -> (out: String)
    ensures
        out@ == dumped(config@),
{
    let out = String::from_str("# DEFAULT CONFIG FOR ");
    let out = join(out, meta::NAME);
    let out = join(
        out,
        "\n# To write this config to the proper config file, run something like:\n#     mkdir -p ~/.config/",
    );
    let out = join(out, meta::NAME);
    let out = join(out, "\n#     ");
    let out = join(out, meta::NAME);
    let out = join(out, " ");
    let out = join(out, CliCommand::DumpConfig.name());
    let out = join(out, " > ~/.config/");
    let out = join(out, meta::NAME);
    let out = join(out, "/config.toml\n\n");
    join(out, config)
}

} // verus!
