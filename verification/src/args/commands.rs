//! The commands of the command line.

use super::names;
use crate::text::{chars_of, join_words, joined, same_text, string_of, trim_white, trimmed_white};
use vstd::prelude::*;

verus! {

#[derive(Debug, Clone, Copy, PartialEq, Eq, Structural)]
pub enum CliCommand {
    Status,
    Help,
    DumpConfig,
}

/// The commands of one call, in the order in which they were given.
#[derive(Debug)]
pub struct CliCommands(pub Vec<CliCommand>);

impl Default for CliCommands {
    fn default() -> (commands: Self)
        ensures
            commands.0@ == Seq::<CliCommand>::empty(),
    {
        CliCommands(Vec::new())
    }
}

impl CliCommand {
    /// The name under which the command is given.
    pub open spec fn spec_name(self) -> Seq<char> {
        match self {
            CliCommand::Status => names::CMD_STATUS@,
            CliCommand::Help => names::CMD_HELP@,
            CliCommand::DumpConfig => names::CMD_DUMP_CONFIG@,
        }
    }

    /// The command that a name stands for.
    pub open spec fn named(name: Seq<char>) -> Option<CliCommand> {
        if name == names::CMD_STATUS@ {
            Some(CliCommand::Status)
        } else if name == names::CMD_HELP@ {
            Some(CliCommand::Help)
        } else if name == names::CMD_DUMP_CONFIG@ {
            Some(CliCommand::DumpConfig)
        } else {
            None
        }
    }

    /// The command that an argument stands for: its name, perhaps with
    /// white space around it.
    pub open spec fn of_argument(arg: Seq<char>) -> Option<CliCommand> {
        Self::named(trimmed_white(arg))
    }

    /// The name under which the command is given.
    pub fn name(&self) -> (name: &'static str)
        ensures
            name@ == self.spec_name(),
    {
        match self {
            CliCommand::Status => names::CMD_STATUS,
            CliCommand::Help => names::CMD_HELP,
            CliCommand::DumpConfig => names::CMD_DUMP_CONFIG,
        }
    }

    /// Reads a command from an argument of the command line.
    pub fn try_from(s: &str) -> (r: Result<Self, ()>)
        ensures
            match Self::of_argument(s@) {
                Some(command) => r == Ok::<Self, ()>(command),
                None => r is Err,
            },
    {
        let trimmed = trim_white(&chars_of(s));
        let name = string_of(&trimmed, 0, trimmed.len());
        assert(name@ == trimmed@) by {
            assert(trimmed@.subrange(0, trimmed.len() as int) == trimmed@);
        }
        if same_text(name.as_str(), names::CMD_STATUS) {
            Ok(CliCommand::Status)
        } else if same_text(name.as_str(), names::CMD_HELP) {
            Ok(CliCommand::Help)
        } else if same_text(name.as_str(), names::CMD_DUMP_CONFIG) {
            Ok(CliCommand::DumpConfig)
        } else {
            Err(())
        }
    }
}

/// The names of commands.
pub open spec fn command_names(commands: Seq<CliCommand>) -> Seq<Seq<char>> {
    Seq::new(commands.len(), |i: int| commands[i].spec_name())
}

impl CliCommands {
    /// The commands, in order.
    pub fn iter(&self) -> (it: std::slice::Iter<'_, CliCommand>)
        ensures
            vstd::std_specs::slice::into_iter_elts(it) == self.0@,
            vstd::std_specs::iter::IteratorSpec::decrease(&it) is Some,
            vstd::std_specs::iter::IteratorSpec::initial_value_relation(&it, &it),
    {
        self.0.iter()
    }

    /// The names of the commands, with one blank between each two of them.
    pub fn to_string(&self) -> (out: String)
        ensures
            out@ == joined(command_names(self.0@), 0),
    {
        let mut all: Vec<String> = Vec::new();
        let mut i: usize = 0;
        while i < self.0.len()
            invariant
                i <= self.0.len(),
                all.len() == i,
                forall|k: int| 0 <= k < i ==> all@[k]@ == self.0@[k].spec_name(),
            decreases self.0.len() - i,
        {
            all.push(String::from_str(self.0[i].name()));
            i += 1;
        }
        assert(crate::text::texts_view(all@) =~= command_names(self.0@));
        join_words(&all, 0)
    }
}

} // verus!
