//! The template of the status line.
//!
//! A template is literal text with keywords in it. A keyword stands between
//! `%{` and the next `}`, with at least one character between them; what
//! stands there is written in the [notation] of keywords. Everything else is
//! literal text, and text that follows text is one part with it.

pub mod decode;
pub mod format_expression;
pub mod format_part;
pub mod notation;

pub use format_expression::{ExpressionView, FormatExpression};
pub use format_part::{FormatPart, PartView, ProgressBarConfig};

use crate::error::{Error, ErrorView, MyResult};
use crate::text::{chars_of, is_space, is_space_char, string_of};
use decode::{decode_part, part_of};
use notation::{skip_spaces, value_of, Value};
use vstd::prelude::*;

verus! {

/// A parsed template: its parts, in the order in which they are printed.
#[derive(Debug)]
pub struct Format {
    parts: Vec<FormatPart>,
}

/// The parts of a list, each by its view.
pub open spec fn parts_view(parts: Seq<FormatPart>) -> Seq<PartView> {
    Seq::new(parts.len(), |i: int| parts[i]@)
}

/// Every progress bar in the parts is well formed.
pub open spec fn parts_wf(parts: Seq<PartView>) -> bool {
    forall|i: int| 0 <= i < parts.len() ==> (#[trigger] parts[i]).wf()
}

impl View for Format {
    type V = Seq<PartView>;

    closed spec fn view(&self) -> Seq<PartView> {
        parts_view(self.parts@)
    }
}

impl Format {
    /// The parts of the template, in order.
    pub fn iter(&self) -> (it: std::slice::Iter<'_, FormatPart>)
        ensures
            parts_view(vstd::std_specs::slice::into_iter_elts(it)) == self@,
            vstd::std_specs::iter::IteratorSpec::decrease(&it) is Some,
            vstd::std_specs::iter::IteratorSpec::initial_value_relation(&it, &it),
            self.wf(),
    {
        proof {
            use_type_invariant(self);
        }
        self.parts.iter()
    }
}

/// The template that is used where none is given.
pub const DEFAULT_FORMAT: &'static str = "NO FORMAT";

/// The first position from `i` on that holds a closing bracket, or the
/// length of the text where none follows.
pub open spec fn closing(s: Seq<char>, i: int) -> int
    decreases s.len() - i,
{
    if 0 <= i < s.len() && s[i] != '}' {
        closing(s, i + 1)
    } else {
        i
    }
}

/// A closing bracket is searched for from `i` on, up to the end of the text.
pub proof fn closing_bounds(s: Seq<char>, i: int)
    requires
        0 <= i,
    ensures
        i <= closing(s, i),
        i <= s.len() ==> closing(s, i) <= s.len(),
        closing(s, i) < s.len() ==> s[closing(s, i)] == '}',
    decreases s.len() - i,
{
    if i < s.len() && s[i] != '}' {
        closing_bounds(s, i + 1);
    }
}

/// Where a keyword opens at `i`, the position of the bracket that closes
/// it: the first one with at least one character between it and the opening
/// `%{`.
pub open spec fn keyword_end(s: Seq<char>, i: int) -> Option<int> {
    if 0 <= i && i + 1 < s.len() && s[i] == '%' && s[i + 1] == '{' && closing(s, i + 3)
        < s.len() {
        Some(closing(s, i + 3))
    } else {
        None
    }
}

/// The end of the text `s[lo..hi]` without the white space at its end.
pub open spec fn trim_end(s: Seq<char>, lo: int, hi: int) -> int
    decreases hi - lo,
{
    if lo < hi <= s.len() && is_space(s[hi - 1]) {
        trim_end(s, lo, hi - 1)
    } else {
        hi
    }
}

/// A text without the white space at its two ends.
pub open spec fn trimmed(s: Seq<char>) -> Seq<char> {
    let lo = skip_spaces(s, 0);
    s.subrange(lo, trim_end(s, lo, s.len() as int))
}

/// The part that the text of a keyword stands for. A text that is no
/// keyword is returned in the error.
pub open spec fn keyword_part(raw: Seq<char>) -> Result<PartView, ErrorView> {
    match value_of(raw) {
        Some(value) => part_of(value, raw),
        None => Err(ErrorView::InvalidFormatKeyword(raw)),
    }
}

/// The parts with one more character of literal text: it joins the text that
/// the parts end with, or starts a text of its own.
pub open spec fn with_char(parts: Seq<PartView>, c: char) -> Seq<PartView> {
    if parts.len() > 0 && parts.last() is Text {
        parts.drop_last().push(PartView::Text(parts.last()->Text_0.push(c)))
    } else {
        parts.push(PartView::Text(seq![c]))
    }
}

/// The parts of the template `s` from position `i` on, behind `parts`.
pub open spec fn parsed_from(s: Seq<char>, i: int, parts: Seq<PartView>) -> Result<
    Seq<PartView>,
    ErrorView,
>
    decreases s.len() - i,
{
    if i < 0 || i >= s.len() {
        Ok(parts)
    } else {
        match keyword_end(s, i) {
            Some(end) => {
                proof {
                    closing_bounds(s, i + 3);
                }
                match keyword_part(trimmed(s.subrange(i + 2, end))) {
                    Ok(part) => parsed_from(s, end + 1, parts.push(part)),
                    Err(e) => Err(e),
                }
            },
            None => parsed_from(s, i + 1, with_char(parts, s[i])),
        }
    }
}

/// The parts of a template, or the error of its first keyword that is none.
pub open spec fn parsed(s: Seq<char>) -> Result<Seq<PartView>, ErrorView> {
    parsed_from(s, 0, Seq::empty())
}

/// The parts behind which a text is still being read.
pub open spec fn parts_with(parts: Seq<PartView>, text: Option<Seq<char>>) -> Seq<PartView> {
    match text {
        Some(text) => parts.push(PartView::Text(text)),
        None => parts,
    }
}

fn find_closing(s: &Vec<char>, i: usize) -> (j: usize)
    requires
        i <= s.len(),
    ensures
        j == closing(s@, i as int),
        i <= j <= s.len(),
        j < s.len() ==> s@[j as int] == '}',
{
    let mut j = i;
    while j < s.len() && s[j] != '}'
        invariant
            i <= j <= s.len(),
            closing(s@, i as int) == closing(s@, j as int),
        decreases s.len() - j,
    {
        j += 1;
    }
    j
}

fn find_keyword_end(s: &Vec<char>, i: usize) -> (r: Option<usize>)
    requires
        i < s.len(),
    ensures
        match keyword_end(s@, i as int) {
            Some(end) => r == Some(end as usize) && i + 3 <= end < s.len(),
            None => r is None,
        },
{
    if s.len() - i >= 4 && s[i] == '%' && s[i + 1] == '{' {
        let j = find_closing(s, i + 3);
        if j < s.len() {
            Some(j)
        } else {
            None
        }
    } else {
        proof {
            if i + 1 < s.len() {
                closing_bounds(s@, i + 3);
            }
        }
        None
    }
}

/// The text `s[lo..hi]` without the white space at its two ends.
fn trimmed_text(s: &Vec<char>, lo: usize, hi: usize) -> (out: String)
    requires
        lo <= hi <= s.len(),
    ensures
        out@ == trimmed(s@.subrange(lo as int, hi as int)),
{
    let ghost t = s@.subrange(lo as int, hi as int);
    let mut a = lo;
    while a < hi && is_space_char(s[a])
        invariant
            lo <= a <= hi <= s.len(),
            t == s@.subrange(lo as int, hi as int),
            skip_spaces(t, 0) == skip_spaces(t, a - lo),
        decreases hi - a,
    {
        assert(t[a - lo] == s@[a as int]);
        a += 1;
    }
    assert(a < hi ==> t[a - lo] == s@[a as int]);
    let mut b = hi;
    while a < b && is_space_char(s[b - 1])
        invariant
            lo <= a <= b <= hi <= s.len(),
            t == s@.subrange(lo as int, hi as int),
            a - lo == skip_spaces(t, 0),
            trim_end(t, a - lo, t.len() as int) == trim_end(t, a - lo, b - lo),
        decreases b - a,
    {
        assert(t[b - 1 - lo] == s@[b - 1]);
        b -= 1;
    }
    assert(a < b ==> t[b - 1 - lo] == s@[b - 1]);
    assert(t.subrange(a - lo, b - lo) == s@.subrange(a as int, b as int));
    string_of(s, a, b)
}

/// The part that the text of a keyword stands for.
pub fn parse_keyword(raw: &str) -> (r: MyResult<FormatPart>)
    ensures
        decode::decoded_view(r) == keyword_part(raw@),
        r matches Ok(part) ==> part@.wf(),
{
    match Value::parse(raw) {
        Some(value) => decode_part(&value, raw),
        None => Err(Error::InvalidFormatKeyword(String::from_str(raw))),
    }
}

/// What parsing returns, by the views of the template and the error.
pub open spec fn format_view(r: MyResult<Format>) -> Result<Seq<PartView>, ErrorView> {
    match r {
        Ok(format) => Ok(format@),
        Err(e) => Err(e@),
    }
}

impl Default for Format {
    /// The template that says that none was given.
    fn default() -> (format: Self)
        ensures
            format@ == seq![PartView::Text(DEFAULT_FORMAT@)],
            parsed(DEFAULT_FORMAT@) == Ok::<Seq<PartView>, ErrorView>(format@),
            format.wf(),
    {
        proof {
            reveal_strlit("NO FORMAT");
            crate::cmus_status::output::laws::no_percent_no_keyword(DEFAULT_FORMAT@);
            crate::cmus_status::output::laws::literal_template_is_one_text(DEFAULT_FORMAT@);
        }
        let mut parts: Vec<FormatPart> = Vec::new();
        parts.push(FormatPart::Text(String::from_str(DEFAULT_FORMAT)));
        assert(parts_view(parts@) =~= seq![PartView::Text(DEFAULT_FORMAT@)]);
        Format { parts }
    }
}

impl Format {
    /// Every progress bar in the template is well formed.
    pub open spec fn wf(&self) -> bool {
        parts_wf(self@)
    }

    #[verifier::type_invariant]
    spec fn well_formed(self) -> bool {
        parts_wf(parts_view(self.parts@))
    }

    /// Parses a template.
    pub fn try_from(string: &str) -> (r: MyResult<Self>)
        ensures
            format_view(r) == parsed(string@),
            r matches Ok(format) ==> format.wf(),
    {
        let s = chars_of(string);
        let mut parts: Vec<FormatPart> = Vec::new();
        let mut text: Option<String> = None;
        let mut i: usize = 0;
        assert(parts_view(parts@) =~= Seq::empty());
        while i < s.len()
            invariant
                i <= s.len(),
                s@ == string@,
                parsed(s@) == parsed_from(
                    s@,
                    i as int,
                    parts_with(parts_view(parts@), crate::cmus_status::data::text_view(text)),
                ),
                text is None ==> parts.len() == 0 || !(parts@.last()@ is Text),
                parts_wf(parts_view(parts@)),
            decreases s.len() - i,
        {
            let ghost before = parts_view(parts@);
            match find_keyword_end(&s, i) {
                Some(end) => {
                    let raw = trimmed_text(&s, i + 2, end);
                    if let Some(t) = text {
                        parts.push(FormatPart::Text(t));
                        assert(parts_view(parts@) =~= before.push(PartView::Text(t@)));
                        text = None;
                    }
                    let ghost flushed = parts_view(parts@);
                    match parse_keyword(raw.as_str()) {
                        Ok(part) => {
                            match part {
                                FormatPart::Text(t) => {
                                    text = Some(t);
                                },
                                other => {
                                    parts.push(other);
                                    assert(parts_view(parts@) =~= flushed.push(other@));
                                },
                            }
                        },
                        Err(e) => {
                            return Err(e);
                        },
                    }
                    i = end + 1;
                },
                None => {
                    let c = s[i];
                    match text {
                        Some(t) => {
                            let ghost old_text = t@;
                            let mut t = t;
                            t.push(c);
                            assert(before.push(PartView::Text(old_text)).drop_last() =~= before);
                            assert(with_char(before.push(PartView::Text(old_text)), c)
                                == before.push(PartView::Text(t@)));
                            text = Some(t);
                        },
                        None => {
                            let mut t = String::new();
                            t.push(c);
                            assert(t@ =~= seq![c]);
                            assert(with_char(before, c) == before.push(PartView::Text(t@)));
                            text = Some(t);
                        },
                    }
                    i += 1;
                },
            }
        }
        if let Some(t) = text {
            let ghost before = parts_view(parts@);
            parts.push(FormatPart::Text(t));
            assert(parts_view(parts@) =~= before.push(PartView::Text(t@)));
        }
        Ok(Format { parts })
    }

    /// Parses a template.
    pub fn try_from_string(string: String) -> (r: MyResult<Self>)
        ensures
            format_view(r) == parsed(string@),
            r matches Ok(format) ==> format.wf(),
    {
        Self::try_from(string.as_str())
    }
}

} // verus!
