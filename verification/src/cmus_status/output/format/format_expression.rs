//! The conditions of a template.

use crate::cmus_status::data::CmusPlaybackStatus;
use vstd::prelude::*;

verus! {

#[derive(Debug, PartialEq, Eq)]
pub enum FormatExpression {
    /// Always returns `true`.
    True,
    /// Always returns `false`.
    False,
    /// Returns `true` if both of the given expressions are `true`.
    And(Box<FormatExpression>, Box<FormatExpression>),
    /// Returns `true` if either of the given expressions are `true`.
    Or(Box<FormatExpression>, Box<FormatExpression>),
    /// Inverts the given expression.
    Not(Box<FormatExpression>),
    /// Returns `true` if the given `CmusPlaybackStatus`
    /// is the currently playing song's `CmusPlaybackStatus`.
    IsStatus(CmusPlaybackStatus),
    /// Returns `true` if the given tag is set for the current track.
    HasTag(String),
}

/// A [`FormatExpression`] with its texts as sequences of characters.
pub enum ExpressionView {
    True,
    False,
    And(Box<ExpressionView>, Box<ExpressionView>),
    Or(Box<ExpressionView>, Box<ExpressionView>),
    Not(Box<ExpressionView>),
    IsStatus(CmusPlaybackStatus),
    HasTag(Seq<char>),
}

impl FormatExpression {
    pub open spec fn model(&self) -> ExpressionView
        decreases self,
    {
        match self {
            FormatExpression::True => ExpressionView::True,
            FormatExpression::False => ExpressionView::False,
            FormatExpression::And(a, b) => ExpressionView::And(
                Box::new((**a).model()),
                Box::new((**b).model()),
            ),
            FormatExpression::Or(a, b) => ExpressionView::Or(
                Box::new((**a).model()),
                Box::new((**b).model()),
            ),
            FormatExpression::Not(a) => ExpressionView::Not(Box::new((**a).model())),
            FormatExpression::IsStatus(status) => ExpressionView::IsStatus(*status),
            FormatExpression::HasTag(name) => ExpressionView::HasTag(name@),
        }
    }
}

impl Clone for FormatExpression {
    fn clone(&self) -> (copy: Self)
        ensures
            copy@ == self@,
        decreases self,
    {
        match self {
            FormatExpression::True => FormatExpression::True,
            FormatExpression::False => FormatExpression::False,
            FormatExpression::And(a, b) => FormatExpression::And(
                Box::new((**a).clone()),
                Box::new((**b).clone()),
            ),
            FormatExpression::Or(a, b) => FormatExpression::Or(
                Box::new((**a).clone()),
                Box::new((**b).clone()),
            ),
            FormatExpression::Not(a) => FormatExpression::Not(Box::new((**a).clone())),
            FormatExpression::IsStatus(status) => FormatExpression::IsStatus(*status),
            FormatExpression::HasTag(name) => FormatExpression::HasTag(name.clone()),
        }
    }
}

impl View for FormatExpression {
    type V = ExpressionView;

    open spec fn view(&self) -> ExpressionView {
        self.model()
    }
}

} // verus!
