//! The parts of a template, and the progress bar among them.

use super::format_expression::{ExpressionView, FormatExpression};
use crate::error::{Error, ErrorView, MyResult};
use crate::text::{chars_of, repeated};
use vstd::prelude::*;

verus! {

#[derive(Debug, PartialEq, Eq)]
pub enum FormatPart {
    /// Just print the given text.
    Text(String),
    /// Prints the currently playing song's name.
    Title,
    /// Prints the `CmusPlaybackStatus` of the playing song.
    Status,
    /// Prints the tag value for the given tag name.
    /// If the tag doesn't exist, prints nothing.
    Tag(String),
    /// Truncate the given `FormatPart` to the given length (`usize`).
    /// Max length is inclusive.
    Truncate(Box<FormatPart>, usize),
    /// Escape the wrapped `FormatPart`'s resulting string for HTML.
    HtmlEscape(Box<FormatPart>),
    /// Prints a progress bar with the given `ProgressBarConfig`.
    ProgressBar(ProgressBarConfig),
    /// A list of `FormatPart`s.
    Container(Vec<Box<FormatPart>>),
    /// If the `FormatExpression` returns `true`, the `FormatPart` is printed.
    If(FormatExpression, Box<FormatPart>),
    /// If the `FormatExpression` returns `true`, the first `FormatPart` is
    /// printed, otherwise the second.
    IfElse(FormatExpression, Box<FormatPart>, Box<FormatPart>),
}

/// A [`FormatPart`] with its texts and lists as sequences.
pub enum PartView {
    Text(Seq<char>),
    Title,
    Status,
    Tag(Seq<char>),
    Truncate(Box<PartView>, usize),
    HtmlEscape(Box<PartView>),
    ProgressBar(ProgressBarConfig),
    Container(Seq<PartView>),
    If(ExpressionView, Box<PartView>),
    IfElse(ExpressionView, Box<PartView>, Box<PartView>),
}

impl FormatPart {
    pub open spec fn model(&self) -> PartView
        decreases self,
    {
        match self {
            FormatPart::Text(text) => PartView::Text(text@),
            FormatPart::Title => PartView::Title,
            FormatPart::Status => PartView::Status,
            FormatPart::Tag(name) => PartView::Tag(name@),
            FormatPart::Truncate(inner, max) => PartView::Truncate(
                Box::new((**inner).model()),
                *max,
            ),
            FormatPart::HtmlEscape(inner) => PartView::HtmlEscape(Box::new((**inner).model())),
            FormatPart::ProgressBar(config) => PartView::ProgressBar(*config),
            FormatPart::Container(children) => PartView::Container(
                Seq::new(
                    children@.len(),
                    |i: int|
                        if 0 <= i < children@.len() {
                            (*children@[i]).model()
                        } else {
                            PartView::Title
                        },
                ),
            ),
            FormatPart::If(condition, inner) => PartView::If(
                condition@,
                Box::new((**inner).model()),
            ),
            FormatPart::IfElse(condition, first, second) => PartView::IfElse(
                condition@,
                Box::new((**first).model()),
                Box::new((**second).model()),
            ),
        }
    }

    pub fn is_text(&self) -> (b: bool)
        ensures
            b == (self@ is Text),
    {
        match self {
            FormatPart::Text(_) => true,
            _ => false,
        }
    }

    pub fn is_keyword(&self) -> (b: bool)
        ensures
            b == !(self@ is Text),
    {
        !self.is_text()
    }
}

impl Clone for FormatPart {
    fn clone(&self) -> (copy: Self)
        ensures
            copy@ == self@,
        decreases self,
    {
        match self {
            FormatPart::Text(text) => FormatPart::Text(text.clone()),
            FormatPart::Title => FormatPart::Title,
            FormatPart::Status => FormatPart::Status,
            FormatPart::Tag(name) => FormatPart::Tag(name.clone()),
            FormatPart::Truncate(inner, max) => FormatPart::Truncate(
                Box::new((**inner).clone()),
                *max,
            ),
            FormatPart::HtmlEscape(inner) => FormatPart::HtmlEscape(Box::new((**inner).clone())),
            FormatPart::ProgressBar(config) => FormatPart::ProgressBar(*config),
            FormatPart::Container(children) => {
                let mut copies: Vec<Box<FormatPart>> = Vec::new();
                let mut i: usize = 0;
                while i < children.len()
                    invariant
                        i <= children.len(),
                        *self == FormatPart::Container(*children),
                        copies.len() == i,
                        forall|k: int| 0 <= k < i ==> (*copies@[k])@ == (*children@[k])@,
                    decreases children.len() - i,
                {
                    proof {
                        assert(self is Container);
                        assert(self->Container_0 == *children);
                        assert(decreases_to!(self => self->Container_0));
                        assert(decreases_to!(*children => children[i as int]));
                        assert(decreases_to!(self => *children[i as int]));
                    }
                    let child: &FormatPart = &children[i];
                    copies.push(Box::new(child.clone()));
                    i += 1;
                }
                let copy = FormatPart::Container(copies);
                assert(copy@->Container_0 =~= self@->Container_0);
                copy
            },
            FormatPart::If(condition, inner) => FormatPart::If(
                condition.clone(),
                Box::new((**inner).clone()),
            ),
            FormatPart::IfElse(condition, first, second) => FormatPart::IfElse(
                condition.clone(),
                Box::new((**first).clone()),
                Box::new((**second).clone()),
            ),
        }
    }
}

impl View for FormatPart {
    type V = PartView;

    open spec fn view(&self) -> PartView {
        self.model()
    }
}

impl PartView {
    /// Every progress bar in the part is [well formed](ProgressBarConfig::wf).
    pub open spec fn wf(self) -> bool
        decreases self,
    {
        match self {
            PartView::Truncate(inner, _) => inner.wf(),
            PartView::HtmlEscape(inner) => inner.wf(),
            PartView::ProgressBar(config) => config.wf(),
            PartView::Container(children) => forall|i: int|
                0 <= i < children.len() ==> (#[trigger] children[i]).wf(),
            PartView::If(_, inner) => inner.wf(),
            PartView::IfElse(_, first, second) => first.wf() && second.wf(),
            _ => true,
        }
    }
}

/// How a progress bar looks. It is read from a text of at least two
/// characters, which is also as long as the bar will be.
#[derive(Debug, Clone, Copy, PartialEq, Eq)]
pub struct ProgressBarConfig {
    pub start: Option<char>,
    pub end: Option<char>,
    pub full: char,
    pub empty: char,
    /// The length of the whole bar, its two ends included.
    pub total_width: usize,
}

impl ProgressBarConfig {
    /// A bar is at least two characters long.
    pub open spec fn wf(self) -> bool {
        self.total_width >= 2
    }

    /// The number of characters between the two ends.
    pub open spec fn inner(self) -> int {
        self.total_width - (if self.start is Some {
            1int
        } else {
            0int
        }) - (if self.end is Some {
            1int
        } else {
            0int
        })
    }

    /// The bar with `filled` of its inner characters full.
    pub open spec fn bar(self, filled: nat) -> Seq<char> {
        (match self.start {
            Some(c) => seq![c],
            None => Seq::empty(),
        }) + repeated(self.full, filled) + repeated(self.empty, (self.inner() - filled) as nat)
            + (match self.end {
            Some(c) => seq![c],
            None => Seq::empty(),
        })
    }

    /// The bar that the text `s` describes. With two characters they are the
    /// full and the empty one; with three, the first is the start; with four
    /// or more, the first and the last are the two ends, the second is the
    /// full character and the last but one the empty one.
    pub open spec fn of_text(s: Seq<char>) -> ProgressBarConfig {
        ProgressBarConfig {
            start: if s.len() >= 3 {
                Some(s[0])
            } else {
                None
            },
            end: if s.len() >= 4 {
                Some(s[s.len() - 1])
            } else {
                None
            },
            full: if s.len() >= 3 {
                s[1]
            } else {
                s[0]
            },
            empty: if s.len() >= 4 {
                s[s.len() - 2]
            } else if s.len() == 3 {
                s[2]
            } else {
                s[1]
            },
            total_width: s.len() as usize,
        }
    }

    /// Reads a bar from its text. A text of fewer than two characters is
    /// returned in the error.
    pub fn try_from(s: String) -> (r: MyResult<Self>)
        ensures
            s@.len() >= 2 ==> r == Ok::<Self, Error>(Self::of_text(s@)),
            r matches Ok(config) ==> config.wf() && config.total_width == s@.len(),
            s@.len() < 2 ==> r is Err && r->Err_0@ == ErrorView::ProgressBarConfigMinLen(2, s@),
    {
        let chars = chars_of(s.as_str());
        let len = chars.len();
        if len < 2 {
            Err(Error::ProgressBarConfigMinLen(2, s))
        } else if len == 2 {
            Ok(ProgressBarConfig {
                start: None,
                end: None,
                full: chars[0],
                empty: chars[1],
                total_width: len,
            })
        } else if len == 3 {
            Ok(ProgressBarConfig {
                start: Some(chars[0]),
                end: None,
                full: chars[1],
                empty: chars[2],
                total_width: len,
            })
        } else {
            Ok(ProgressBarConfig {
                start: Some(chars[0]),
                end: Some(chars[len - 1]),
                full: chars[1],
                empty: chars[len - 2],
                total_width: len,
            })
        }
    }

    /// The number of characters between the two ends.
    pub fn inner_width(&self) -> (width: usize)
        requires
            self.wf(),
        ensures
            width == self.inner(),
    {
        self.total_width - if self.start.is_some() {
            1
        } else {
            0
        } - if self.end.is_some() {
            1
        } else {
            0
        }
    }

    /// Draws the bar with `filled_characters` of its inner characters full
    /// and the others empty.
    pub fn text_with_filled(&self, filled_characters: usize) -> (s: String)
        requires
            self.wf(),
            filled_characters <= self.inner(),
        ensures
            s@ == self.bar(filled_characters as nat),
            s@.len() == self.total_width,
    {
        let mut s = String::new();
        if let Some(start) = self.start {
            s.push(start);
        }
        let ghost head = s@;
        let mut i: usize = 0;
        while i < filled_characters
            invariant
                i <= filled_characters,
                s@ == head + repeated(self.full, i as nat),
            decreases filled_characters - i,
        {
            s.push(self.full);
            i += 1;
            assert(s@ =~= head + repeated(self.full, i as nat));
        }
        let rest = self.inner_width() - filled_characters;
        let ghost body = s@;
        let mut j: usize = 0;
        while j < rest
            invariant
                j <= rest,
                s@ == body + repeated(self.empty, j as nat),
            decreases rest - j,
        {
            s.push(self.empty);
            j += 1;
            assert(s@ =~= body + repeated(self.empty, j as nat));
        }
        if let Some(end) = self.end {
            s.push(end);
        }
        assert(s@ =~= self.bar(filled_characters as nat));
        s
    }
}

} // verus!
