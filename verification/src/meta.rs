//! What the program says about itself.

use vstd::prelude::*;

verus! {

pub const NAME: &'static str = "cmus-status-line";

pub const VERSION: &'static str = "0.1.0";

pub const DESCRIPTION: &'static str =
    "Prints the current cmus playback status in a customizable format to stdout";

} // verus!
