//! What `cmus-remote -Q` reports about the player.

pub mod playback_status;
pub mod report;
pub mod time;

pub use playback_status::CmusPlaybackStatus;
pub use time::{CmusTime, Seconds};

use crate::error::{Error, ErrorView, MyResult};
use crate::text::{chars_of, same_text};
use report::{read_report, report_of, Report, ReportView};
use vstd::prelude::*;

verus! {

/// The player's settings. Nothing is read from them.
#[derive(Debug)]
pub struct CmusSettings {}

/// One snapshot of the player's state.
#[derive(Debug)]
pub struct CmusData {
    status: CmusPlaybackStatus,
    file: Option<String>,
    title: Option<String>,
    time: Option<CmusTime>,
    tags: Vec<(String, String)>,
    settings: CmusSettings,
}

/// A [`CmusData`] as the status line sees it.
pub struct DataView {
    pub status: CmusPlaybackStatus,
    /// The path of the current track.
    pub file: Option<Seq<char>>,
    /// The title of the current track.
    pub title: Option<Seq<char>>,
    /// Position and duration, where a track is loaded.
    pub time: Option<CmusTime>,
    /// The value of each tag that is set.
    pub tags: Map<Seq<char>, Seq<char>>,
}

/// The characters of an optional text.
pub open spec fn text_view(text: Option<String>) -> Option<Seq<char>> {
    match text {
        Some(s) => Some(s@),
        None => None,
    }
}

/// A list of names and values, as sequences of characters.
pub open spec fn entries_view(entries: Seq<(String, String)>) -> Seq<(Seq<char>, Seq<char>)> {
    Seq::new(entries.len(), |i: int| (entries[i].0@, entries[i].1@))
}

/// The map that a list of names and values stands for: of two values under
/// one name, the later one counts.
pub open spec fn tags_of(entries: Seq<(Seq<char>, Seq<char>)>) -> Map<Seq<char>, Seq<char>>
    decreases entries.len(),
{
    if entries.len() == 0 {
        Map::empty()
    } else {
        tags_of(entries.drop_last()).insert(entries.last().0, entries.last().1)
    }
}

/// The value that a list of names and values gives to `name`.
pub open spec fn lookup(entries: Seq<(Seq<char>, Seq<char>)>, name: Seq<char>) -> Option<
    Seq<char>,
> {
    if tags_of(entries).contains_key(name) {
        Some(tags_of(entries)[name])
    } else {
        None
    }
}

/// A text with a blank in the place of every underscore.
pub open spec fn spaced(text: Seq<char>) -> Seq<char> {
    Seq::new(
        text.len(),
        |i: int|
            if text[i] == '_' {
                ' '
            } else {
                text[i]
            },
    )
}

/// The state that a report describes. `stem` is the name of the track's file
/// without its directories and its extension, where it has one: it becomes
/// the title. A report without a status describes no state.
pub open spec fn described(report: ReportView, stem: Option<Seq<char>>) -> Result<
    DataView,
    ErrorView,
> {
    match report.status {
        Some(status) => Ok(
            DataView {
                status,
                file: report.file,
                title: match (report.file, stem) {
                    (Some(_), Some(stem)) => Some(spaced(stem)),
                    _ => None,
                },
                time: report.time(),
                tags: tags_of(report.tags),
            },
        ),
        None => Err(ErrorView::CmusMissingData("status"@)),
    }
}

/// `Path::file_stem` on the path of a track: the name of the file without
/// its directories and its extension, where the path has one that is valid
/// Unicode. How a path is taken apart depends on the platform, so nothing is
/// claimed of the result.
#[verifier::external_body]
fn file_stem(path: &str) -> (stem: Option<String>) {
    match std::path::Path::new(path).file_stem() {
        Some(stem) => match stem.to_str() {
            Some(stem) => Some(stem.to_string()),
            None => None,
        },
        None => None,
    }
}

/// A text with a blank in the place of every underscore.
pub fn title_of(stem: &str) -> (title: String)
    ensures
        title@ == spaced(stem@),
{
    let s = chars_of(stem);
    let mut title = String::new();
    let mut i: usize = 0;
    while i < s.len()
        invariant
            i <= s.len(),
            s@ == stem@,
            title@ == spaced(stem@).take(i as int),
        decreases s.len() - i,
    {
        let c = s[i];
        if c == '_' {
            title.push(' ');
        } else {
            title.push(c);
        }
        i += 1;
        assert(title@ =~= spaced(stem@).take(i as int));
    }
    assert(spaced(stem@).take(i as int) =~= spaced(stem@));
    title
}

impl DataView {
    /// Where the player has a time, it is [well formed](CmusTime::wf).
    pub open spec fn wf(self) -> bool {
        self.time matches Some(time) ==> time.wf()
    }

    /// The value of the tag `name`, if it is set.
    pub open spec fn tag(self, name: Seq<char>) -> Option<Seq<char>> {
        if self.tags.contains_key(name) {
            Some(self.tags[name])
        } else {
            None
        }
    }
}

impl View for CmusData {
    type V = DataView;

    closed spec fn view(&self) -> DataView {
        DataView {
            status: self.status,
            file: text_view(self.file),
            title: text_view(self.title),
            time: self.time,
            tags: tags_of(entries_view(self.tags@)),
        }
    }
}

impl CmusData {
    /// The state that a report describes, with the title made of `stem`.
    pub fn from_report(report: Report, stem: Option<String>) -> (r: MyResult<Self>)
        ensures
            match described(report@, text_view(stem)) {
                Ok(data) => r is Ok && r->Ok_0@ == data,
                Err(e) => r is Err && r->Err_0@ == e,
            },
    {
        let status = match report.status {
            Some(status) => status,
            None => {
                return Err(Error::CmusMissingData(String::from_str("status")));
            },
        };
        let title = match (&report.file, &stem) {
            (Some(_), Some(stem)) => Some(title_of(stem.as_str())),
            _ => None,
        };
        let time = match (report.duration, report.position) {
            (Some(duration), Some(position)) => Some(CmusTime { duration, position }),
            _ => None,
        };
        Ok(
            CmusData {
                status,
                file: report.file,
                title,
                time,
                tags: report.tags,
                settings: CmusSettings {  },
            },
        )
    }

    /// Reads the state of the player from what `cmus-remote -Q` prints. What
    /// the lines say is read as [`report_of`] states; the title is the name
    /// of the track's file, as the platform takes it from the path, with
    /// blanks for underscores.
    pub fn try_from(string: String) -> (r: MyResult<Self>)
        ensures
            match report_of(string@) {
                Ok(report) => exists|stem: Option<Seq<char>>|
                    match #[trigger] described(report, stem) {
                        Ok(data) => r is Ok && r->Ok_0@ == data,
                        Err(e) => r is Err && r->Err_0@ == e,
                    },
                Err(e) => r is Err && r->Err_0@ == e,
            },
    {
        match read_report(string.as_str()) {
            Ok(report) => {
                let stem = match &report.file {
                    Some(file) => file_stem(file.as_str()),
                    None => None,
                };
                let ghost facts = report@;
                let ghost given = text_view(stem);
                let r = Self::from_report(report, stem);
                assert(match described(facts, given) {
                    Ok(data) => r is Ok && r->Ok_0@ == data,
                    Err(e) => r is Err && r->Err_0@ == e,
                });
                r
            },
            Err(e) => Err(e),
        }
    }

    /// The title of the current track.
    pub fn get_title(&self) -> (title: Option<String>)
        ensures
            text_view(title) == self@.title,
    {
        match &self.title {
            Some(title) => Some(title.clone()),
            None => None,
        }
    }

    pub fn get_status(&self) -> (status: &CmusPlaybackStatus)
        ensures
            *status == self@.status,
    {
        &self.status
    }

    /// The value of the tag `tag_name`, if it is set.
    pub fn get_tag(&self, tag_name: &str) -> (value: Option<String>)
        ensures
            text_view(value) == self@.tag(tag_name@),
    {
        let ghost all = entries_view(self.tags@);
        let ghost name = tag_name@;
        let mut i: usize = self.tags.len();
        assert(all.take(i as int) == all);
        while i > 0
            invariant
                i <= self.tags.len(),
                all == entries_view(self.tags@),
                name == tag_name@,
                self@.tag(name) == lookup(all.take(i as int), name),
            decreases i,
        {
            i -= 1;
            assert(all.take(i + 1).drop_last() == all.take(i as int));
            assert(all.take(i + 1).last() == all[i as int]);
            if same_text(self.tags[i].0.as_str(), tag_name) {
                return Some(self.tags[i].1.clone());
            }
        }
        None
    }

    /// Whether the tag `tag_name` is set.
    pub fn has_tag(&self, tag_name: &str) -> (b: bool)
        ensures
            b == self@.tags.contains_key(tag_name@),
    {
        self.get_tag(tag_name).is_some()
    }

    pub fn is_status(&self, other_status: &CmusPlaybackStatus) -> (b: bool)
        ensures
            b == (self@.status == *other_status),
    {
        self.status == *other_status
    }

    pub fn get_time(&self) -> (time: &Option<CmusTime>)
        ensures
            *time == self@.time,
    {
        &self.time
    }

    /// Whether the time, if there is one, is [well formed](CmusTime::wf).
    pub fn is_well_formed(&self) -> (b: bool)
        ensures
            b == self@.wf(),
    {
        match &self.time {
            Some(time) => time.is_well_formed(),
            None => true,
        }
    }
}

} // verus!
