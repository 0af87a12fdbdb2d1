//! The arguments of the command line: commands and options.

pub mod commands;
pub mod names;
pub mod options;
pub mod usage;

pub use commands::{CliCommand, CliCommands};
pub use options::{CliOption, CliOptions};
pub use usage::{dump_config_text, help_text, version_text};

use crate::error::{Error, ErrorView, MyResult};
use vstd::prelude::*;

verus! {

#[derive(Debug)]
pub struct Args {
    pub commands: CliCommands,
    pub options: CliOptions,
}

/// The commands and the options that the arguments from position `i` on
/// stand for, behind those read so far. An argument that reads as options is
/// taken for options, any other must be a command.
pub open spec fn read_from(
    args: Seq<Seq<char>>,
    i: int,
    commands: Seq<CliCommand>,
    options: Seq<CliOption>,
) -> Result<(Seq<CliCommand>, Seq<CliOption>), ErrorView>
    decreases args.len() - i,
{
    if i < 0 || i >= args.len() {
        Ok((commands, options))
    } else {
        match options::of_argument(args[i]) {
            Some(more) => read_from(args, i + 1, commands, options + more),
            None => match CliCommand::of_argument(args[i]) {
                Some(command) => read_from(args, i + 1, commands.push(command), options),
                None => Err(ErrorView::InvalidArgument(args[i])),
            },
        }
    }
}

impl Args {
    /// Reads the arguments of the command line, the name of the program left
    /// out. The first argument that is neither options nor a command is
    /// returned in the error.
    pub fn new(args: Vec<String>) -> (r: MyResult<Self>)
        ensures
            match read_from(crate::text::texts_view(args@), 0, Seq::empty(), Seq::empty()) {
                Ok((commands, options)) => r is Ok && r->Ok_0.commands.0@ == commands
                    && r->Ok_0.options.0@ == options,
                Err(e) => r is Err && r->Err_0@ == e,
            },
    {
        let ghost texts = crate::text::texts_view(args@);
        let mut commands: Vec<CliCommand> = Vec::new();
        let mut options: Vec<CliOption> = Vec::new();
        let mut i: usize = 0;
        while i < args.len()
            invariant
                i <= args.len(),
                texts == crate::text::texts_view(args@),
                read_from(texts, 0, Seq::empty(), Seq::empty()) == read_from(
                    texts,
                    i as int,
                    commands@,
                    options@,
                ),
            decreases args.len() - i,
        {
            let arg = args[i].as_str();
            assert(texts[i as int] == arg@);
            match CliOptions::try_from(arg) {
                Ok(opts) => {
                    let mut more = opts.into();
                    let ghost before = options@;
                    options.append(&mut more);
                    assert(options@ == before + opts.0@);
                },
                Err(_) => match CliCommand::try_from(arg) {
                    Ok(cmd) => {
                        commands.push(cmd);
                    },
                    Err(_) => {
                        return Err(Error::InvalidArgument(String::from_str(arg)));
                    },
                },
            }
            i += 1;
        }
        Ok(Self { commands: CliCommands(commands), options: CliOptions(options) })
    }
}

} // verus!
