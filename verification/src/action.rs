//! What a call of the program is to do.

use crate::args::commands::command_names;
use crate::args::names;
use crate::args::{Args, CliCommand, CliOption};
use crate::error::{Error, ErrorView, MyResult};
use crate::text::joined;
use vstd::prelude::*;

verus! {

#[derive(Debug, Clone, Copy, PartialEq, Eq, Structural)]
pub enum Action {
    Status,
    Help,
    Version,
    DumpConfig,
}

impl Default for Action {
    fn default() -> (action: Self)
        ensures
            action == Action::Status,
    {
        Action::Status
    }
}

/// What is wrong with the command at position `i`, if anything: `status`
/// takes no options, and it must be the first command.
pub open spec fn fault_at(commands: Seq<CliCommand>, options: Seq<CliOption>, i: int) -> Option<
    ErrorView,
> {
    if commands[i] == CliCommand::Status {
        if i != 0 {
            Some(ErrorView::InvalidCommandLen(joined(command_names(commands), 0)))
        } else if options.len() != 0 {
            Some(ErrorView::CommandTakesNoOptions(names::CMD_STATUS@))
        } else {
            None
        }
    } else {
        None
    }
}

/// What is wrong with the first command from position `i` on that has a
/// fault.
pub open spec fn first_fault(commands: Seq<CliCommand>, options: Seq<CliOption>, i: int) -> Option<
    ErrorView,
>
    decreases commands.len() - i,
{
    if i < 0 || i >= commands.len() {
        None
    } else if fault_at(commands, options, i) is Some {
        fault_at(commands, options, i)
    } else {
        first_fault(commands, options, i + 1)
    }
}

/// What a command asks for.
pub open spec fn of_command(command: CliCommand) -> Action {
    match command {
        CliCommand::Status => Action::Status,
        CliCommand::Help => Action::Help,
        CliCommand::DumpConfig => Action::DumpConfig,
    }
}

/// What an option asks for.
pub open spec fn of_option(option: CliOption) -> Action {
    match option {
        CliOption::Help => Action::Help,
        CliOption::Version => Action::Version,
    }
}

/// What the arguments ask for: what the last command asks for; without a
/// command, what the first option asks for; without either, the status. A
/// command with a fault is refused.
pub open spec fn action_of(commands: Seq<CliCommand>, options: Seq<CliOption>) -> Result<
    Action,
    ErrorView,
> {
    match first_fault(commands, options, 0) {
        Some(e) => Err(e),
        None => if commands.len() > 0 {
            Ok(of_command(commands.last()))
        } else if options.len() > 0 {
            Ok(of_option(options[0]))
        } else {
            Ok(Action::Status)
        },
    }
}

/// Decides what the arguments ask for.
pub fn action(args: &Args) -> (r: MyResult<Action>)
    ensures
        match action_of(args.commands.0@, args.options.0@) {
            Ok(action) => r == Ok::<Action, Error>(action),
            Err(e) => r is Err && r->Err_0@ == e,
        },
{
    let commands = &args.commands.0;
    let mut action_opt: Option<Action> = None;
    let mut cmd_index: usize = 0;
    while cmd_index < commands.len()
        invariant
            cmd_index <= commands.len(),
            commands@ == args.commands.0@,
            first_fault(commands@, args.options.0@, 0) == first_fault(
                commands@,
                args.options.0@,
                cmd_index as int,
            ),
            cmd_index == 0 ==> action_opt is None,
            cmd_index > 0 ==> action_opt == Some(of_command(commands@[cmd_index - 1])),
        decreases commands.len() - cmd_index,
    {
        let act = match commands[cmd_index] {
            CliCommand::Status => {
                if cmd_index == 0 {
                    if args.options.is_empty() {
                        Action::Status
                    } else {
                        return Err(
                            Error::CommandTakesNoOptions(
                                String::from_str(commands[cmd_index].name()),
                            ),
                        );
                    }
                } else {
                    return Err(Error::InvalidCommandLen(args.commands.to_string()));
                }
            },
            CliCommand::Help => Action::Help,
            CliCommand::DumpConfig => Action::DumpConfig,
        };
        action_opt = Some(act);
        cmd_index += 1;
    }
    match action_opt {
        Some(act) => Ok(act),
        None => {
            if args.options.0.len() > 0 {
                match args.options.0[0] {
                    CliOption::Help => Ok(Action::Help),
                    CliOption::Version => Ok(Action::Version),
                }
            } else {
                Ok(Action::default())
            }
        },
    }
}

} // verus!
