//! The configuration of the status line.

pub mod output_config;

pub use output_config::OutputConfig;

use crate::cmus_status::output::format::{parsed, Format, PartView, DEFAULT_FORMAT};
use crate::error::{ErrorView, MyResult};
use crate::text::{chars_of, string_of};
use vstd::prelude::*;

verus! {

/// What stands in the name of a file for the directory of configurations.
pub const KEYWORD_CONFIG_DIR: &'static str = "<CONFIG_DIR>";

/// The first place where the configuration is looked for.
pub const CONFIG_FILE_HERE: &'static str = "./config.toml";

/// The second place where the configuration is looked for.
pub const CONFIG_FILE_RON: &'static str = "<CONFIG_DIR>/format.ron";

/// The third place where the configuration is looked for.
pub const CONFIG_FILE_TOML: &'static str = "<CONFIG_DIR>/config.toml";

/// A place where the configuration is looked for: a file, by its name in the
/// directory of configurations or by its path.
#[derive(Debug, PartialEq, Eq)]
pub struct ConfigPlace {
    pub in_config_dir: bool,
    pub name: String,
}

/// Whether `text` starts with `start`.
pub open spec fn starts_with(text: Seq<char>, start: Seq<char>) -> bool {
    start.len() <= text.len() && text.take(start.len() as int) == start
}

/// The name of a file without the keyword that it starts with, and without
/// the slash that follows the keyword.
pub open spec fn without_keyword(filepath: Seq<char>) -> Seq<char> {
    let rest = filepath.skip(KEYWORD_CONFIG_DIR@.len() as int);
    if rest.len() > 0 && rest[0] == '/' {
        rest.skip(1)
    } else {
        rest
    }
}

impl ConfigPlace {
    /// Whether this is the place that the name of a file stands for: behind
    /// the keyword, a file in the directory of configurations; without it, a
    /// path.
    pub open spec fn stands_for(self, filepath: Seq<char>) -> bool {
        &&& self.in_config_dir == starts_with(filepath, KEYWORD_CONFIG_DIR@)
        &&& self.name@ == if self.in_config_dir {
            without_keyword(filepath)
        } else {
            filepath
        }
    }
}

/// The place that the name of a file stands for.
pub fn config_place(filepath: &str) -> (place: ConfigPlace)
    ensures
        place.stands_for(filepath@),
{
    let path = chars_of(filepath);
    let keyword = chars_of(KEYWORD_CONFIG_DIR);
    let mut starts = keyword.len() <= path.len();
    let mut i: usize = 0;
    while starts && i < keyword.len()
        invariant
            i <= keyword.len(),
            starts ==> keyword.len() <= path.len() && path@.take(i as int) == keyword@.take(
                i as int,
            ),
            !starts ==> !starts_with(path@, keyword@),
        decreases keyword.len() - i + if starts {
            1int
        } else {
            0int
        },
    {
        if path[i] != keyword[i] {
            assert(path@.take(keyword.len() as int)[i as int] != keyword@[i as int]);
            starts = false;
        } else {
            assert(path@.take(i + 1) == path@.take(i as int).push(path@[i as int]));
            assert(keyword@.take(i + 1) == keyword@.take(i as int).push(keyword@[i as int]));
            i += 1;
        }
    }
    if starts {
        assert(keyword@.take(keyword.len() as int) == keyword@);
        let mut from = keyword.len();
        if from < path.len() && path[from] == '/' {
            from += 1;
        }
        let name = string_of(&path, from, path.len());
        assert(name@ == without_keyword(filepath@));
        ConfigPlace { in_config_dir: true, name }
    } else {
        ConfigPlace { in_config_dir: false, name: String::from_str(filepath) }
    }
}

/// The places where the configuration is looked for, in this order: the
/// first that holds a file is read.
pub fn config_places() -> (places: Vec<ConfigPlace>)
    ensures
        places.len() == 3,
        places[0].stands_for(CONFIG_FILE_HERE@),
        places[1].stands_for(CONFIG_FILE_RON@),
        places[2].stands_for(CONFIG_FILE_TOML@),
{
    let mut places: Vec<ConfigPlace> = Vec::new();
    places.push(config_place(CONFIG_FILE_HERE));
    places.push(config_place(CONFIG_FILE_RON));
    places.push(config_place(CONFIG_FILE_TOML));
    places
}

#[derive(Debug)]
pub struct Config {
    pub format: Format,
    pub output: OutputConfig,
}

/// The template of a configuration: the one that is written there or,
/// without one, the default template.
pub open spec fn format_of(source: Option<Seq<char>>) -> Result<Seq<PartView>, ErrorView> {
    match source {
        Some(source) => parsed(source),
        None => Ok(seq![PartView::Text(DEFAULT_FORMAT@)]),
    }
}

impl Config {
    /// The configuration with the template written as `format` and with the
    /// given way of printing; what is not given is the default. A template
    /// that does not parse is refused with its error.
    pub fn new(format: Option<String>, output: Option<OutputConfig>) -> (r: MyResult<Self>)
        ensures
            match format_of(crate::cmus_status::data::text_view(format)) {
                Ok(parts) => r is Ok && r->Ok_0.format@ == parts && r->Ok_0.format.wf()
                    && r->Ok_0.output.escape_html == (match output {
                    Some(output) => output.escape_html,
                    None => false,
                }),
                Err(e) => r is Err && r->Err_0@ == e,
            },
    {
        let format = match format {
            Some(source) => match Format::try_from_string(source) {
                Ok(format) => format,
                Err(e) => {
                    return Err(e);
                },
            },
            None => Format::default(),
        };
        let output = match output {
            Some(output) => output,
            None => OutputConfig::default(),
        };
        Ok(Config { format, output })
    }
}

} // verus!
