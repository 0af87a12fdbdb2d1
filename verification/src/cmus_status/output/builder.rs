//! Putting a status line together.

use super::format::{Format, PartView, DEFAULT_FORMAT};
use super::{OutputView, StatusOutput};
use crate::cmus_status::data::{CmusData, DataView};
use crate::config::OutputConfig;
use crate::error::{Error, ErrorView, MyResult};
use vstd::prelude::*;

verus! {

#[derive(Debug)]
pub struct StatusOutputBuilder {
    data: Option<CmusData>,
    format: Option<Format>,
    config: Option<OutputConfig>,
}

/// A [`StatusOutputBuilder`] by the views of what it holds so far.
pub struct BuilderView {
    pub data: Option<DataView>,
    pub format: Option<Seq<PartView>>,
    pub escape_html: Option<bool>,
}

impl BuilderView {
    /// The builder that holds nothing yet.
    pub open spec fn empty() -> BuilderView {
        BuilderView { data: None, format: None, escape_html: None }
    }

    /// What is built: the state that was given, with the template and the
    /// configuration that were given or, without them, the default ones.
    pub open spec fn built(self) -> Result<OutputView, ErrorView> {
        match self.data {
            Some(data) => Ok(
                OutputView {
                    data,
                    format: match self.format {
                        Some(format) => format,
                        None => seq![PartView::Text(DEFAULT_FORMAT@)],
                    },
                    escape_html: match self.escape_html {
                        Some(escape_html) => escape_html,
                        None => false,
                    },
                },
            ),
            None => Err(ErrorView::CmusStatusNoData),
        }
    }
}

impl View for StatusOutputBuilder {
    type V = BuilderView;

    closed spec fn view(&self) -> BuilderView {
        BuilderView {
            data: match self.data {
                Some(data) => Some(data@),
                None => None,
            },
            format: match self.format {
                Some(format) => Some(format@),
                None => None,
            },
            escape_html: match self.config {
                Some(config) => Some(config.escape_html),
                None => None,
            },
        }
    }
}

impl Default for StatusOutputBuilder {
    fn default() -> (builder: Self)
        ensures
            builder@ == BuilderView::empty(),
    {
        StatusOutputBuilder { data: None, format: None, config: None }
    }
}

impl StatusOutputBuilder {
    pub fn data(self, data: CmusData) -> (builder: Self)
        ensures
            builder@ == (BuilderView { data: Some(data@), ..self@ }),
    {
        StatusOutputBuilder { data: Some(data), format: self.format, config: self.config }
    }

    pub fn format(self, format: Format) -> (builder: Self)
        ensures
            builder@ == (BuilderView { format: Some(format@), ..self@ }),
    {
        StatusOutputBuilder { data: self.data, format: Some(format), config: self.config }
    }

    pub fn config(self, config: OutputConfig) -> (builder: Self)
        ensures
            builder@ == (BuilderView { escape_html: Some(config.escape_html), ..self@ }),
    {
        StatusOutputBuilder { data: self.data, format: self.format, config: Some(config) }
    }

    /// Builds the status line. Without a state there is none.
    pub fn build(self) -> (r: MyResult<StatusOutput>)
        ensures
            match self@.built() {
                Ok(output) => r is Ok && r->Ok_0@ == output,
                Err(e) => r is Err && r->Err_0@ == e,
            },
    {
        match self.data {
            Some(data) => {
                let format = match self.format {
                    Some(format) => format,
                    None => Format::default(),
                };
                let config = match self.config {
                    Some(config) => config,
                    None => OutputConfig::default(),
                };
                Ok(StatusOutput::new(data, format, config))
            },
            None => Err(Error::CmusStatusNoData),
        }
    }
}

} // verus!
