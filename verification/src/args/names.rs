//! The names of the commands and the options.

use vstd::prelude::*;

verus! {

pub const CMD_HELP: &'static str = "help";

pub const CMD_STATUS: &'static str = "status";

pub const CMD_DUMP_CONFIG: &'static str = "dump-config";

pub const OPT_DOUBLE_HELP: &'static str = "help";

pub const OPT_DOUBLE_VERSION: &'static str = "version";

pub const OPT_SINGLE_HELP: char = 'h';

pub const OPT_SINGLE_VERSION: char = 'v';

} // verus!
