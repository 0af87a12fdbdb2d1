//! Whether the player is playing, paused or stopped.

use crate::error::{Error, ErrorView, MyResult};
use crate::text::same_text;
use vstd::prelude::*;

verus! {

#[derive(Debug, Clone, Copy, PartialEq, Eq, Structural)]
pub enum CmusPlaybackStatus {
    Playing,
    Paused,
    Stopped,
}

/// What `str::to_lowercase` makes of a text.
pub uninterp spec fn lowercase(s: Seq<char>) -> Seq<char>;

/// `str::to_lowercase`: the text with every character in lower case, as
/// Unicode defines it. The contract only names the result.
#[verifier::external_body]
fn to_lowercase(s: &str) -> (lower: String)
    ensures
        lower@ == lowercase(s@),
{
    s.to_lowercase()
}

impl CmusPlaybackStatus {
    /// The status that a name in lower case stands for.
    pub open spec fn named(name: Seq<char>) -> Option<CmusPlaybackStatus> {
        if name == "playing"@ {
            Some(CmusPlaybackStatus::Playing)
        } else if name == "paused"@ {
            Some(CmusPlaybackStatus::Paused)
        } else if name == "stopped"@ {
            Some(CmusPlaybackStatus::Stopped)
        } else {
            None
        }
    }

    /// The status as it is shown in the status line.
    pub open spec fn label(self) -> Seq<char> {
        match self {
            CmusPlaybackStatus::Playing => "Playing"@,
            CmusPlaybackStatus::Paused => "Paused"@,
            CmusPlaybackStatus::Stopped => "Stopped"@,
        }
    }

    /// Reads a status from its name in lower case: `playing`, `paused` or
    /// `stopped`. Any other name is returned in the error.
    pub fn from_name(name: &str) -> (r: MyResult<Self>)
        ensures
            match Self::named(name@) {
                Some(status) => r == Ok::<Self, Error>(status),
                None => r is Err && r->Err_0@ == ErrorView::CmusUnknownStatus(name@),
            },
    {
        if same_text(name, "playing") {
            Ok(CmusPlaybackStatus::Playing)
        } else if same_text(name, "paused") {
            Ok(CmusPlaybackStatus::Paused)
        } else if same_text(name, "stopped") {
            Ok(CmusPlaybackStatus::Stopped)
        } else {
            Err(Error::CmusUnknownStatus(String::from_str(name)))
        }
    }

    /// Reads a status as the player reports it, in any mix of upper and lower
    /// case.
    pub fn try_from(status_str: &str) -> (r: MyResult<Self>)
        ensures
            match Self::named(lowercase(status_str@)) {
                Some(status) => r == Ok::<Self, Error>(status),
                None => r is Err && r->Err_0@ == ErrorView::CmusUnknownStatus(
                    lowercase(status_str@),
                ),
            },
    {
        let lower = to_lowercase(status_str);
        Self::from_name(lower.as_str())
    }

    /// The status as it is shown in the status line.
    pub fn to_string(&self) -> (out: String)
        ensures
            out@ == self.label(),
    {
        match self {
            CmusPlaybackStatus::Playing => String::from_str("Playing"),
            CmusPlaybackStatus::Paused => String::from_str("Paused"),
            CmusPlaybackStatus::Stopped => String::from_str("Stopped"),
        }
    }
}

} // verus!
