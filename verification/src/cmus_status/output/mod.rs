//! The status line: a template rendered against the player's state.

pub mod builder;
pub mod format;
pub mod laws;

pub use format::{
    ExpressionView, Format, FormatExpression, FormatPart, PartView, ProgressBarConfig,
};

pub use builder::StatusOutputBuilder;

use super::data::time::rounded_share;
use super::data::{text_view, CmusData, DataView};
use crate::config::OutputConfig;
use crate::text::join;
use format::parts_wf;
use format::parts_view;
use vstd::prelude::*;

verus! {

/// What a text is cut short with.
pub const OVERFLOW_STR: &'static str = "...";

/// What one character becomes when a text is escaped for HTML.
pub open spec fn escaped_char(c: char) -> Seq<char> {
    if c == '"' {
        "&quot;"@
    } else if c == '&' {
        "&amp;"@
    } else if c == '\'' {
        "&#x27;"@
    } else if c == '<' {
        "&lt;"@
    } else if c == '>' {
        "&gt;"@
    } else {
        seq![c]
    }
}

/// A text escaped for HTML: each of `"`, `&`, `'`, `<` and `>` replaced by
/// its entity, every other character kept.
pub open spec fn escaped(text: Seq<char>) -> Seq<char>
    decreases text.len(),
{
    if text.len() == 0 {
        Seq::empty()
    } else {
        escaped(text.drop_last()) + escaped_char(text.last())
    }
}

/// `htmlescape::encode_minimal` goes through the text character by
/// character and writes `&quot;`, `&amp;`, `&#x27;`, `&lt;` and `&gt;` for
/// `"`, `&`, `'`, `<` and `>`, and every other character as it is.
#[verifier::external_body]
fn encode_minimal(text: &str) -> (out: String)
    ensures
        out@ == escaped(text@),
{
    htmlescape::encode_minimal(text)
}

/// A text cut to at most `max` characters. A text that is too long loses its
/// end; where `max` has room for twice the overflow mark, the mark takes the
/// place of the last characters that are kept.
pub open spec fn truncated(text: Seq<char>, max: usize) -> Seq<char> {
    if text.len() <= max {
        text
    } else if max >= 2 * OVERFLOW_STR@.len() {
        text.take(max - OVERFLOW_STR@.len()) + OVERFLOW_STR@
    } else {
        text.take(max as int)
    }
}

/// A value of the player as it is printed: escaped where `escape` is set.
pub open spec fn shown(text: Seq<char>, escape: bool) -> Seq<char> {
    if escape {
        escaped(text)
    } else {
        text
    }
}

/// The text of an optional value, or nothing.
pub open spec fn or_empty(text: Option<Seq<char>>) -> Seq<char> {
    match text {
        Some(text) => text,
        None => Seq::empty(),
    }
}

/// Whether a condition holds of the player's state.
pub open spec fn holds(condition: ExpressionView, data: DataView) -> bool
    decreases condition,
{
    match condition {
        ExpressionView::True => true,
        ExpressionView::False => false,
        ExpressionView::And(a, b) => holds(*a, data) && holds(*b, data),
        ExpressionView::Or(a, b) => holds(*a, data) || holds(*b, data),
        ExpressionView::Not(a) => !holds(*a, data),
        ExpressionView::IsStatus(status) => data.status == status,
        ExpressionView::HasTag(name) => data.tags.contains_key(name),
    }
}

/// The bar for the player's time, if it has one.
pub open spec fn bar_text(config: ProgressBarConfig, data: DataView) -> Option<Seq<char>> {
    match data.time {
        Some(time) => Some(
            config.bar(
                rounded_share(config.inner() as nat, time.position as nat, time.duration as nat),
            ),
        ),
        None => None,
    }
}

/// What a part of a template prints for the player's state, or `None` where
/// it prints nothing. The title, the status and the tags are escaped for HTML
/// where `escape` is set; literal text and the progress bar never are.
pub open spec fn text_of(part: PartView, data: DataView, escape: bool) -> Option<Seq<char>>
    decreases part,
{
    match part {
        PartView::Text(text) => Some(text),
        PartView::Title => match data.title {
            Some(title) => Some(shown(title, escape)),
            None => None,
        },
        PartView::Status => Some(shown(data.status.label(), escape)),
        PartView::Tag(name) => match data.tag(name) {
            Some(value) => Some(shown(value, escape)),
            None => None,
        },
        PartView::Truncate(inner, max) => match text_of(*inner, data, escape) {
            Some(text) => Some(truncated(text, max)),
            None => None,
        },
        PartView::HtmlEscape(inner) => match text_of(*inner, data, escape) {
            Some(text) => Some(escaped(text)),
            None => None,
        },
        PartView::ProgressBar(config) => bar_text(config, data),
        PartView::Container(children) => Some(text_of_all(children, data, escape)),
        PartView::If(condition, inner) => if holds(condition, data) {
            text_of(*inner, data, escape)
        } else {
            None
        },
        PartView::IfElse(condition, first, second) => if holds(condition, data) {
            text_of(*first, data, escape)
        } else {
            text_of(*second, data, escape)
        },
    }
}

/// What a list of parts prints: the texts of the parts, one after the other.
pub open spec fn text_of_all(parts: Seq<PartView>, data: DataView, escape: bool) -> Seq<char>
    decreases parts,
{
    if parts.len() == 0 {
        Seq::empty()
    } else {
        text_of_all(parts.drop_last(), data, escape) + or_empty(
            text_of(parts.last(), data, escape),
        )
    }
}

/// A template together with the state that it is rendered against.
#[derive(Debug)]
pub struct StatusOutput {
    data: CmusData,
    format: Format,
    config: OutputConfig,
}

/// A [`StatusOutput`] by the views of its fields.
pub struct OutputView {
    pub data: DataView,
    pub format: Seq<PartView>,
    pub escape_html: bool,
}

impl OutputView {
    /// The whole status line.
    pub open spec fn text(self) -> Seq<char> {
        text_of_all(self.format, self.data, self.escape_html)
    }
}

impl View for StatusOutput {
    type V = OutputView;

    closed spec fn view(&self) -> OutputView {
        OutputView { data: self.data@, format: self.format@, escape_html: self.config.escape_html }
    }
}

/// Cuts `text` to at most `max` characters.
pub fn truncate(text: String, max: usize) -> (out: String)
    ensures
        out@ == truncated(text@, max),
        out@.len() <= max,
{
    let chars = crate::text::chars_of(text.as_str());
    if chars.len() > max {
        let overflow_str_len = OVERFLOW_STR.unicode_len();
        if max / 2 >= overflow_str_len {
            let kept = crate::text::string_of(&chars, 0, max - overflow_str_len);
            assert(chars@.subrange(0, max - overflow_str_len) == text@.take(
                max - overflow_str_len,
            ));
            join(kept, OVERFLOW_STR)
        } else {
            assert(chars@.subrange(0, max as int) == text@.take(max as int));
            crate::text::string_of(&chars, 0, max)
        }
    } else {
        text
    }
}

impl StatusOutput {
    pub fn builder() -> (builder: StatusOutputBuilder)
        ensures
            builder@ == builder::BuilderView::empty(),
    {
        StatusOutputBuilder::default()
    }

    /// The status line of a template, for a state and a configuration.
    pub fn new(data: CmusData, format: Format, config: OutputConfig) -> (output: Self)
        ensures
            output@ == (OutputView {
                data: data@,
                format: format@,
                escape_html: config.escape_html,
            }),
    {
        StatusOutput { data, format, config }
    }

    /// The whole status line.
    pub fn to_string(&self) -> (text: String)
        requires
            self@.data.wf(),
        ensures
            text@ == self@.text(),
    {
        let mut parts: Vec<&FormatPart> = Vec::new();
        for part in it: self.format.iter()
            invariant
                parts_view(it.seq().unref()) == self@.format,
                parts_wf(self@.format),
                parts.len() == it.index(),
                forall|k: int| 0 <= k < parts.len() ==> *parts[k] == *it.seq()[k],
        {
            parts.push(part);
        }
        assert(Seq::new(parts.len() as nat, |i: int| parts[i]@) =~= self@.format);
        assert forall|i: int| 0 <= i < parts.len() implies (#[trigger] parts[i])@.wf() by {
            assert(self@.format[i] == parts[i]@);
        }
        self.get_format_text_for_parts(parts)
    }

    /// Whether a condition holds of the player's state.
    pub fn is_expression_true(&self, expression: &FormatExpression) -> (b: bool)
        ensures
            b == holds(expression@, self@.data),
        decreases expression,
    {
        match expression {
            FormatExpression::True => true,
            FormatExpression::False => false,
            FormatExpression::And(expr_one, expr_two) => {
                self.is_expression_true(expr_one) && self.is_expression_true(expr_two)
            },
            FormatExpression::Or(expr_one, expr_two) => {
                self.is_expression_true(expr_one) || self.is_expression_true(expr_two)
            },
            FormatExpression::Not(expr) => !self.is_expression_true(expr),
            FormatExpression::IsStatus(playback_status) => self.data.is_status(playback_status),
            FormatExpression::HasTag(tag_name) => self.data.has_tag(tag_name.as_str()),
        }
    }

    /// A value of the player as it is printed: escaped where the
    /// configuration asks for it.
    fn maybe_escape_html(&self, text: String) -> (out: String)
        ensures
            out@ == shown(text@, self@.escape_html),
    {
        if self.config.escape_html {
            encode_minimal(text.as_str())
        } else {
            text
        }
    }

    /// What one part of a template prints, or `None` where it prints
    /// nothing.
    pub fn get_format_text(&self, part: &FormatPart) -> (text: Option<String>)
        requires
            self@.data.wf(),
            part@.wf(),
        ensures
            text_view(text) == text_of(part@, self@.data, self@.escape_html),
        decreases part,
    {
        match part {
            FormatPart::Text(text) => Some(text.clone()),
            FormatPart::Title => match self.data.get_title() {
                Some(title) => Some(self.maybe_escape_html(title)),
                None => None,
            },
            FormatPart::Status => Some(
                self.maybe_escape_html(self.data.get_status().to_string()),
            ),
            FormatPart::Tag(tag_name) => match self.data.get_tag(tag_name.as_str()) {
                Some(value) => Some(self.maybe_escape_html(value)),
                None => None,
            },
            FormatPart::Truncate(format_part_inner, max) => {
                match self.get_format_text(format_part_inner) {
                    Some(text) => Some(truncate(text, *max)),
                    None => None,
                }
            },
            FormatPart::HtmlEscape(format_part_inner) => {
                match self.get_format_text(format_part_inner) {
                    Some(text) => Some(encode_minimal(text.as_str())),
                    None => None,
                }
            },
            FormatPart::ProgressBar(bar_config) => {
                match self.data.get_time() {
                    Some(time) => {
                        let width = bar_config.inner_width();
                        let characters = time.filled_characters(width);
                        Some(bar_config.text_with_filled(characters))
                    },
                    None => None,
                }
            },
            FormatPart::Container(format_parts_inner) => {
                let mut out = String::new();
                let mut i: usize = 0;
                let ghost children = part@->Container_0;
                while i < format_parts_inner.len()
                    invariant
                        i <= format_parts_inner.len(),
                        self@.data.wf(),
                        part@.wf(),
                        *part == FormatPart::Container(*format_parts_inner),
                        children == part@->Container_0,
                        out@ == text_of_all(
                            children.take(i as int),
                            self@.data,
                            self@.escape_html,
                        ),
                    decreases format_parts_inner.len() - i,
                {
                    assert(children.take(i + 1).drop_last() == children.take(i as int));
                    assert(children.take(i + 1).last() == children[i as int]);
                    assert(children[i as int].wf());
                    match self.get_format_text(&format_parts_inner[i]) {
                        Some(text) => {
                            out.append(text.as_str());
                        },
                        None => {},
                    }
                    i += 1;
                }
                assert(children.take(i as int) == children);
                Some(out)
            },
            FormatPart::If(expression, format_part_inner) => {
                if self.is_expression_true(expression) {
                    self.get_format_text(format_part_inner)
                } else {
                    None
                }
            },
            FormatPart::IfElse(expression, first, second) => {
                if self.is_expression_true(expression) {
                    self.get_format_text(first)
                } else {
                    self.get_format_text(second)
                }
            },
        }
    }

    /// What a list of parts prints: the texts of the parts, one after the
    /// other.
    pub fn get_format_text_for_parts<'a>(&self, parts: Vec<&'a FormatPart>) -> (text: String)
        requires
            self@.data.wf(),
            forall|i: int| 0 <= i < parts.len() ==> (#[trigger] parts[i])@.wf(),
        ensures
            text@ == text_of_all(
                Seq::new(parts.len() as nat, |i: int| parts[i]@),
                self@.data,
                self@.escape_html,
            ),
    {
        let ghost views = Seq::new(parts.len() as nat, |i: int| parts[i]@);
        let mut out = String::new();
        let mut i: usize = 0;
        while i < parts.len()
            invariant
                i <= parts.len(),
                self@.data.wf(),
                forall|i: int| 0 <= i < parts.len() ==> (#[trigger] parts[i])@.wf(),
                views == Seq::new(parts.len() as nat, |i: int| parts[i]@),
                out@ == text_of_all(views.take(i as int), self@.data, self@.escape_html),
            decreases parts.len() - i,
        {
            assert(views.take(i + 1).drop_last() == views.take(i as int));
            assert(views.take(i + 1).last() == views[i as int]);
            match self.get_format_text(parts[i]) {
                Some(text) => {
                    out.append(text.as_str());
                },
                None => {},
            }
            i += 1;
        }
        assert(views.take(i as int) == views);
        out
    }
}

} // verus!
