//! How the status line is printed.

use vstd::prelude::*;

verus! {

#[derive(Debug, Clone, Copy)]
pub struct OutputConfig {
    /// Escape the title, the status and the tags for HTML.
    pub escape_html: bool,
}

impl Default for OutputConfig {
    fn default() -> (config: Self)
        ensures
            !config.escape_html,
    {
        Self { escape_html: false }
    }
}

} // verus!
