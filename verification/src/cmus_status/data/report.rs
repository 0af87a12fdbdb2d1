//! Reading what `cmus-remote -Q` prints: one fact per line, each a name and
//! its values, with white space between them.

use super::playback_status::{lowercase, CmusPlaybackStatus};
use super::time::{CmusTime, Seconds};
use super::{entries_view, text_view};
use crate::error::{Error, ErrorView, MyResult};
use crate::text::{
    chars_of, digit_of, is_digit, is_digit_char, join, join_words, joined, line_end,
    line_end_bounds,
    number_value, number_value_grows, same_text, split_words, string_of, texts_view,
    trim_white, trimmed_white, words,
};
use vstd::prelude::*;

verus! {

/// What a line without a single word is answered with, before the report
/// itself.
pub const NO_NAME: &'static str =
    "Couldn't get data identifier name from `cmus-remote -Q` (first word per line)\nOutput:\n";

/// The facts read from a report.
#[derive(Debug)]
pub struct Report {
    pub status: Option<CmusPlaybackStatus>,
    pub file: Option<String>,
    pub duration: Option<Seconds>,
    pub position: Option<Seconds>,
    pub tags: Vec<(String, String)>,
}

/// A [`Report`] with its texts as sequences of characters.
pub struct ReportView {
    pub status: Option<CmusPlaybackStatus>,
    pub file: Option<Seq<char>>,
    pub duration: Option<Seconds>,
    pub position: Option<Seconds>,
    pub tags: Seq<(Seq<char>, Seq<char>)>,
}

impl View for Report {
    type V = ReportView;

    open spec fn view(&self) -> ReportView {
        ReportView {
            status: self.status,
            file: text_view(self.file),
            duration: self.duration,
            position: self.position,
            tags: entries_view(self.tags@),
        }
    }
}

impl ReportView {
    /// The report in which nothing has been read yet.
    pub open spec fn empty() -> ReportView {
        ReportView { status: None, file: None, duration: None, position: None, tags: Seq::empty() }
    }

    /// Position and duration, where the report holds both.
    pub open spec fn time(self) -> Option<CmusTime> {
        match (self.duration, self.position) {
            (Some(duration), Some(position)) => Some(CmusTime { duration, position }),
            _ => None,
        }
    }
}

/// Whether every character of a text is a decimal digit.
pub open spec fn all_digits(text: Seq<char>) -> bool {
    forall|k: int| 0 <= k < text.len() ==> is_digit(#[trigger] text[k])
}

/// The number of seconds that a text stands for: decimal digits, perhaps
/// behind a plus sign, that stay within 32 bits.
pub open spec fn seconds_of(text: Seq<char>) -> Option<Seconds> {
    let digits = if text.len() > 0 && text[0] == '+' {
        text.drop_first()
    } else {
        text
    };
    if digits.len() > 0 && all_digits(digits) && number_value(digits) <= u32::MAX {
        Some(number_value(digits) as u32)
    } else {
        None
    }
}

/// The report with the fact of one line added. `whole` is the text of the
/// whole report, for the error.
pub open spec fn with_line(report: ReportView, line: Seq<char>, whole: Seq<char>) -> Result<
    ReportView,
    ErrorView,
> {
    let all = words(line);
    if all.len() == 0 {
        Err(ErrorView::CmusParseError(NO_NAME@ + whole))
    } else if all[0] == "status"@ {
        match CmusPlaybackStatus::named(lowercase(joined(all, 1))) {
            Some(status) => Ok(ReportView { status: Some(status), ..report }),
            None => Err(ErrorView::CmusUnknownStatus(lowercase(joined(all, 1)))),
        }
    } else if all[0] == "file"@ {
        Ok(ReportView { file: Some(joined(all, 1)), ..report })
    } else if all[0] == "duration"@ {
        match seconds_of(joined(all, 1)) {
            Some(seconds) => Ok(ReportView { duration: Some(seconds), ..report }),
            None => Err(ErrorView::CouldntParseTimeToNumber(line)),
        }
    } else if all[0] == "position"@ {
        match seconds_of(joined(all, 1)) {
            Some(seconds) => Ok(ReportView { position: Some(seconds), ..report }),
            None => Err(ErrorView::CouldntParseTimeToNumber(line)),
        }
    } else if all[0] == "tag"@ {
        if all.len() < 2 {
            Err(ErrorView::CmusExpectDataArguments(1, line))
        } else {
            Ok(ReportView { tags: report.tags.push((all[1], joined(all, 2))), ..report })
        }
    } else if all[0] == "set"@ {
        Ok(report)
    } else {
        Err(ErrorView::CmusUnknownData(line))
    }
}

/// The report with the facts of the lines of `s` from position `i` on.
pub open spec fn with_lines(s: Seq<char>, i: int, report: ReportView, whole: Seq<char>) -> Result<
    ReportView,
    ErrorView,
>
    decreases s.len() - i,
{
    let end = line_end(s, i);
    proof {
        if 0 <= i <= s.len() {
            line_end_bounds(s, i);
        }
    }
    if i < 0 || i > s.len() {
        Ok(report)
    } else {
        match with_line(report, s.subrange(i, end), whole) {
            Ok(next) => if end >= s.len() {
                Ok(next)
            } else {
                with_lines(s, end + 1, next, whole)
            },
            Err(e) => Err(e),
        }
    }
}

/// What a report says: the facts of its lines, without the white space
/// around the report.
pub open spec fn report_of(whole: Seq<char>) -> Result<ReportView, ErrorView> {
    with_lines(trimmed_white(whole), 0, ReportView::empty(), whole)
}

/// What reading returns, by the views of the report and the error.
pub open spec fn report_view(r: MyResult<Report>) -> Result<ReportView, ErrorView> {
    match r {
        Ok(report) => Ok(report@),
        Err(e) => Err(e@),
    }
}

/// The number of seconds that a text stands for.
pub fn parse_seconds(text: &str) -> (r: Option<Seconds>)
    ensures
        r == seconds_of(text@),
{
    let s = chars_of(text);
    let start: usize = if s.len() > 0 && s[0] == '+' {
        1
    } else {
        0
    };
    let ghost digits = if text@.len() > 0 && text@[0] == '+' {
        text@.drop_first()
    } else {
        text@
    };
    assert(digits == s@.subrange(start as int, s.len() as int));
    if start >= s.len() {
        return None;
    }
    let mut n: u32 = 0;
    let mut j = start;
    assert(s@.subrange(start as int, j as int).len() == 0);
    while j < s.len()
        invariant
            start <= j <= s.len(),
            s@ == text@,
            digits == s@.subrange(start as int, s.len() as int),
            digits == if text@.len() > 0 && text@[0] == '+' {
                text@.drop_first()
            } else {
                text@
            },
            forall|k: int| start <= k < j ==> is_digit(s@[k]),
            n == number_value(s@.subrange(start as int, j as int)),
        decreases s.len() - j,
    {
        if !is_digit_char(s[j]) {
            assert(digits.len() == s.len() - start);
            assert(digits[j - start] == s@[j as int]);
            assert(!is_digit(digits[j - start]));
            assert(!all_digits(digits));
            return None;
        }
        let d = digit_of(s[j]) as u32;
        proof {
            assert(s@.subrange(start as int, j + 1).drop_last() == s@.subrange(
                start as int,
                j as int,
            ));
            number_value_grows(s@, start as int, j + 1, s.len() as int);
        }
        if n > (u32::MAX - d) / 10 {
            return None;
        }
        n = n * 10 + d;
        j += 1;
    }
    assert forall|k: int| 0 <= k < digits.len() implies is_digit(#[trigger] digits[k]) by {
        assert(digits[k] == s@[k + start]);
    }
    assert(all_digits(digits));
    assert(s@.subrange(start as int, j as int) == digits);
    Some(n)
}

/// The text of a line.
fn line_text(line: &Vec<char>) -> (out: String)
    ensures
        out@ == line@,
{
    assert(line@.subrange(0, line.len() as int) == line@);
    string_of(line, 0, line.len())
}

/// Adds the fact of one line to the report.
fn read_line(report: Report, line: &Vec<char>, whole: &str) -> (r: MyResult<Report>)
    ensures
        report_view(r) == with_line(report@, line@, whole@),
{
    let all = split_words(line);
    if all.len() == 0 {
        return Err(Error::CmusParseError(join(String::from_str(NO_NAME), whole)));
    }
    let mut report = report;
    let name = all[0].as_str();
    assert(texts_view(all@)[0] == name@);
    if same_text(name, "status") {
        let value = join_words(&all, 1);
        match CmusPlaybackStatus::try_from(value.as_str()) {
            Ok(status) => {
                report.status = Some(status);
                Ok(report)
            },
            Err(e) => Err(e),
        }
    } else if same_text(name, "file") {
        report.file = Some(join_words(&all, 1));
        Ok(report)
    } else if same_text(name, "duration") {
        match parse_seconds(join_words(&all, 1).as_str()) {
            Some(seconds) => {
                report.duration = Some(seconds);
                Ok(report)
            },
            None => Err(Error::CouldntParseTimeToNumber(line_text(line))),
        }
    } else if same_text(name, "position") {
        match parse_seconds(join_words(&all, 1).as_str()) {
            Some(seconds) => {
                report.position = Some(seconds);
                Ok(report)
            },
            None => Err(Error::CouldntParseTimeToNumber(line_text(line))),
        }
    } else if same_text(name, "tag") {
        if all.len() < 2 {
            Err(Error::CmusExpectDataArguments(1, line_text(line)))
        } else {
            let ghost before = entries_view(report.tags@);
            let tag_name = all[1].clone();
            let tag_value = join_words(&all, 2);
            assert(texts_view(all@)[1] == tag_name@);
            report.tags.push((tag_name, tag_value));
            assert(entries_view(report.tags@) =~= before.push((tag_name@, tag_value@)));
            Ok(report)
        }
    } else if same_text(name, "set") {
        Ok(report)
    } else {
        Err(Error::CmusUnknownData(line_text(line)))
    }
}

/// Reads a report of the player.
pub fn read_report(whole: &str) -> (r: MyResult<Report>)
    ensures
        report_view(r) == report_of(whole@),
{
    let all = chars_of(whole);
    let s = trim_white(&all);
    let mut report = Report {
        status: None,
        file: None,
        duration: None,
        position: None,
        tags: Vec::new(),
    };
    assert(entries_view(report.tags@) =~= Seq::empty());
    let mut i: usize = 0;
    loop
        invariant_except_break
            i <= s.len(),
            with_lines(s@, 0, ReportView::empty(), whole@) == with_lines(
                s@,
                i as int,
                report@,
                whole@,
            ),
        invariant
            s@ == trimmed_white(whole@),
        ensures
            with_lines(s@, 0, ReportView::empty(), whole@) == Ok::<ReportView, ErrorView>(
                report@,
            ),
        decreases s.len() - i,
    {
        let mut end = i;
        let mut line: Vec<char> = Vec::new();
        while end < s.len() && s[end] != '\n'
            invariant
                i <= end <= s.len(),
                line_end(s@, i as int) == line_end(s@, end as int),
                line@ == s@.subrange(i as int, end as int),
            decreases s.len() - end,
        {
            line.push(s[end]);
            end += 1;
        }
        match read_line(report, &line, whole) {
            Ok(next) => {
                report = next;
            },
            Err(e) => {
                return Err(e);
            },
        }
        if end >= s.len() {
            break;
        }
        i = end + 1;
    }
    Ok(report)
}

} // verus!
