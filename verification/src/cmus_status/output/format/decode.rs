//! From the notation to the parts of a template: which names are keywords,
//! and which arguments each of them takes.

use super::format_expression::{ExpressionView, FormatExpression};
use super::format_part::{FormatPart, PartView, ProgressBarConfig};
use super::notation::{Value, ValueView};
use crate::cmus_status::data::CmusPlaybackStatus;
use crate::error::{Error, ErrorView, MyResult};
use crate::text::same_text;
use vstd::prelude::*;

verus! {

/// The status that a value names.
pub open spec fn status_of(value: ValueView) -> Option<CmusPlaybackStatus> {
    match value {
        ValueView::Name(name) => if name == "Playing"@ {
            Some(CmusPlaybackStatus::Playing)
        } else if name == "Paused"@ {
            Some(CmusPlaybackStatus::Paused)
        } else if name == "Stopped"@ {
            Some(CmusPlaybackStatus::Stopped)
        } else {
            None
        },
        _ => None,
    }
}

/// The condition that a value is the notation of: `True`, `False`,
/// `And(a, b)`, `Or(a, b)`, `Not(a)`, `IsStatus(status)` or `HasTag("name")`.
pub open spec fn expression_of(value: ValueView) -> Option<ExpressionView>
    decreases value,
{
    match value {
        ValueView::Name(name) => if name == "True"@ {
            Some(ExpressionView::True)
        } else if name == "False"@ {
            Some(ExpressionView::False)
        } else {
            None
        },
        ValueView::Call(name, args) => if name == "And"@ && args.len() == 2 {
            match (expression_of(args[0]), expression_of(args[1])) {
                (Some(a), Some(b)) => Some(ExpressionView::And(Box::new(a), Box::new(b))),
                _ => None,
            }
        } else if name == "Or"@ && args.len() == 2 {
            match (expression_of(args[0]), expression_of(args[1])) {
                (Some(a), Some(b)) => Some(ExpressionView::Or(Box::new(a), Box::new(b))),
                _ => None,
            }
        } else if name == "Not"@ && args.len() == 1 {
            match expression_of(args[0]) {
                Some(a) => Some(ExpressionView::Not(Box::new(a))),
                None => None,
            }
        } else if name == "IsStatus"@ && args.len() == 1 {
            match status_of(args[0]) {
                Some(status) => Some(ExpressionView::IsStatus(status)),
                None => None,
            }
        } else if name == "HasTag"@ && args.len() == 1 {
            match args[0] {
                ValueView::Text(tag) => Some(ExpressionView::HasTag(tag)),
                _ => None,
            }
        } else {
            None
        },
        _ => None,
    }
}

/// The part that a value is the notation of: `Title`, `Status`,
/// `Text("text")`, `Tag("name")`, `Truncate(part, max)`, `HtmlEscape(part)`,
/// `ProgressBar("bar")`, `Container([part, ...])`, `If(condition, part)` or
/// `IfElse(condition, part, part)`. Anything else is an invalid keyword, and
/// the error holds `raw`; a bar of fewer than two characters is an error of
/// its own. Of two errors the first one in the text is returned.
pub open spec fn part_of(value: ValueView, raw: Seq<char>) -> Result<PartView, ErrorView>
    decreases value, 0nat,
{
    let invalid = Err::<PartView, ErrorView>(ErrorView::InvalidFormatKeyword(raw));
    match value {
        ValueView::Name(name) => if name == "Title"@ {
            Ok(PartView::Title)
        } else if name == "Status"@ {
            Ok(PartView::Status)
        } else {
            invalid
        },
        ValueView::Call(name, args) => if name == "Text"@ && args.len() == 1 {
            match args[0] {
                ValueView::Text(text) => Ok(PartView::Text(text)),
                _ => invalid,
            }
        } else if name == "Tag"@ && args.len() == 1 {
            match args[0] {
                ValueView::Text(tag) => Ok(PartView::Tag(tag)),
                _ => invalid,
            }
        } else if name == "Truncate"@ && args.len() == 2 {
            match part_of(args[0], raw) {
                Ok(inner) => match args[1] {
                    ValueView::Number(max) => Ok(PartView::Truncate(Box::new(inner), max)),
                    _ => invalid,
                },
                Err(e) => Err(e),
            }
        } else if name == "HtmlEscape"@ && args.len() == 1 {
            match part_of(args[0], raw) {
                Ok(inner) => Ok(PartView::HtmlEscape(Box::new(inner))),
                Err(e) => Err(e),
            }
        } else if name == "ProgressBar"@ && args.len() == 1 {
            match args[0] {
                ValueView::Text(bar) => if bar.len() >= 2 {
                    Ok(PartView::ProgressBar(ProgressBarConfig::of_text(bar)))
                } else {
                    Err(ErrorView::ProgressBarConfigMinLen(2, bar))
                },
                _ => invalid,
            }
        } else if name == "Container"@ && args.len() == 1 {
            match args[0] {
                ValueView::List(items) => match parts_of(items, 0, raw, Seq::empty()) {
                    Ok(children) => Ok(PartView::Container(children)),
                    Err(e) => Err(e),
                },
                _ => invalid,
            }
        } else if name == "If"@ && args.len() == 2 {
            match expression_of(args[0]) {
                Some(condition) => match part_of(args[1], raw) {
                    Ok(inner) => Ok(PartView::If(condition, Box::new(inner))),
                    Err(e) => Err(e),
                },
                None => invalid,
            }
        } else if name == "IfElse"@ && args.len() == 3 {
            match expression_of(args[0]) {
                Some(condition) => match part_of(args[1], raw) {
                    Ok(first) => match part_of(args[2], raw) {
                        Ok(second) => Ok(
                            PartView::IfElse(condition, Box::new(first), Box::new(second)),
                        ),
                        Err(e) => Err(e),
                    },
                    Err(e) => Err(e),
                },
                None => invalid,
            }
        } else {
            invalid
        },
        _ => invalid,
    }
}

/// The parts that the values from position `i` on are the notation of,
/// behind the parts `so_far`.
pub open spec fn parts_of(
    items: Seq<ValueView>,
    i: int,
    raw: Seq<char>,
    so_far: Seq<PartView>,
) -> Result<Seq<PartView>, ErrorView>
    decreases items, items.len() - i,
{
    if i < 0 || i >= items.len() {
        Ok(so_far)
    } else {
        match part_of(items[i], raw) {
            Ok(part) => parts_of(items, i + 1, raw, so_far.push(part)),
            Err(e) => Err(e),
        }
    }
}

/// What decoding returns, by the views of the part and the error.
pub open spec fn decoded_view(r: MyResult<FormatPart>) -> Result<PartView, ErrorView> {
    match r {
        Ok(part) => Ok(part@),
        Err(e) => Err(e@),
    }
}

/// The error for a keyword that is none.
fn invalid_keyword(raw: &str) -> (e: Error)
    ensures
        e@ == ErrorView::InvalidFormatKeyword(raw@),
{
    Error::InvalidFormatKeyword(String::from_str(raw))
}

/// The status that a value names.
pub fn decode_status(value: &Value) -> (r: Option<CmusPlaybackStatus>)
    ensures
        r == status_of(value@),
{
    proof {
        value.view_by_variant();
    }
    match value {
        Value::Name(name) => {
            if same_text(name.as_str(), "Playing") {
                Some(CmusPlaybackStatus::Playing)
            } else if same_text(name.as_str(), "Paused") {
                Some(CmusPlaybackStatus::Paused)
            } else if same_text(name.as_str(), "Stopped") {
                Some(CmusPlaybackStatus::Stopped)
            } else {
                None
            }
        },
        _ => None,
    }
}

/// The views of an optional condition.
pub open spec fn expression_view(r: Option<FormatExpression>) -> Option<ExpressionView> {
    match r {
        Some(e) => Some(e@),
        None => None,
    }
}

/// The condition that a value is the notation of.
pub fn decode_expression(value: &Value) -> (r: Option<FormatExpression>)
    ensures
        expression_view(r) == expression_of(value@),
    decreases value,
{
    proof {
        value.view_by_variant();
        match value {
            Value::Call(_, args) => {
                if args.len() >= 1 {
                    args[0].view_by_variant();
                }
            },
            _ => {},
        }
    }
    match value {
        Value::Name(name) => {
            if same_text(name.as_str(), "True") {
                Some(FormatExpression::True)
            } else if same_text(name.as_str(), "False") {
                Some(FormatExpression::False)
            } else {
                None
            }
        },
        Value::Call(name, args) => {
            let word = name.as_str();
            if same_text(word, "And") && args.len() == 2 {
                match (decode_expression(&args[0]), decode_expression(&args[1])) {
                    (Some(a), Some(b)) => Some(FormatExpression::And(Box::new(a), Box::new(b))),
                    _ => None,
                }
            } else if same_text(word, "Or") && args.len() == 2 {
                match (decode_expression(&args[0]), decode_expression(&args[1])) {
                    (Some(a), Some(b)) => Some(FormatExpression::Or(Box::new(a), Box::new(b))),
                    _ => None,
                }
            } else if same_text(word, "Not") && args.len() == 1 {
                match decode_expression(&args[0]) {
                    Some(a) => Some(FormatExpression::Not(Box::new(a))),
                    None => None,
                }
            } else if same_text(word, "IsStatus") && args.len() == 1 {
                match decode_status(&args[0]) {
                    Some(status) => Some(FormatExpression::IsStatus(status)),
                    None => None,
                }
            } else if same_text(word, "HasTag") && args.len() == 1 {
                match &args[0] {
                    Value::Text(tag) => Some(FormatExpression::HasTag(tag.clone())),
                    _ => None,
                }
            } else {
                None
            }
        },
        _ => None,
    }
}

/// The part that a value is the notation of. `raw` is the text of the whole
/// keyword, for the error.
pub fn decode_part(value: &Value, raw: &str) -> (r: MyResult<FormatPart>)
    ensures
        decoded_view(r) == part_of(value@, raw@),
        r matches Ok(part) ==> part@.wf(),
    decreases value,
{
    proof {
        value.view_by_variant();
        match value {
            Value::Call(_, args) => {
                if args.len() >= 1 {
                    args[0].view_by_variant();
                }
                if args.len() >= 2 {
                    args[1].view_by_variant();
                }
            },
            _ => {},
        }
    }
    match value {
        Value::Name(name) => {
            if same_text(name.as_str(), "Title") {
                Ok(FormatPart::Title)
            } else if same_text(name.as_str(), "Status") {
                Ok(FormatPart::Status)
            } else {
                Err(invalid_keyword(raw))
            }
        },
        Value::Call(name, args) => {
            let word = name.as_str();
            if same_text(word, "Text") && args.len() == 1 {
                match &args[0] {
                    Value::Text(text) => Ok(FormatPart::Text(text.clone())),
                    _ => Err(invalid_keyword(raw)),
                }
            } else if same_text(word, "Tag") && args.len() == 1 {
                match &args[0] {
                    Value::Text(tag) => Ok(FormatPart::Tag(tag.clone())),
                    _ => Err(invalid_keyword(raw)),
                }
            } else if same_text(word, "Truncate") && args.len() == 2 {
                match decode_part(&args[0], raw) {
                    Ok(inner) => match &args[1] {
                        Value::Number(max) => Ok(FormatPart::Truncate(Box::new(inner), *max)),
                        _ => Err(invalid_keyword(raw)),
                    },
                    Err(e) => Err(e),
                }
            } else if same_text(word, "HtmlEscape") && args.len() == 1 {
                match decode_part(&args[0], raw) {
                    Ok(inner) => Ok(FormatPart::HtmlEscape(Box::new(inner))),
                    Err(e) => Err(e),
                }
            } else if same_text(word, "ProgressBar") && args.len() == 1 {
                match &args[0] {
                    Value::Text(bar) => match ProgressBarConfig::try_from(bar.clone()) {
                        Ok(config) => Ok(FormatPart::ProgressBar(config)),
                        Err(e) => Err(e),
                    },
                    _ => Err(invalid_keyword(raw)),
                }
            } else if same_text(word, "Container") && args.len() == 1 {
                match &args[0] {
                    Value::List(items) => {
                        proof {
                            assert(args[0] is List);
                            assert(decreases_to!(value => *args));
                            assert(decreases_to!(*args => args[0]));
                            assert(decreases_to!(args[0] => args[0]->List_0));
                        }
                        match decode_parts(items, raw) {
                            Ok(children) => {
                                let part = FormatPart::Container(children);
                                assert(part@->Container_0 =~= children_view(children@));
                                Ok(part)
                            },
                            Err(e) => Err(e),
                        }
                    },
                    _ => Err(invalid_keyword(raw)),
                }
            } else if same_text(word, "If") && args.len() == 2 {
                match decode_expression(&args[0]) {
                    Some(condition) => match decode_part(&args[1], raw) {
                        Ok(inner) => Ok(FormatPart::If(condition, Box::new(inner))),
                        Err(e) => Err(e),
                    },
                    None => Err(invalid_keyword(raw)),
                }
            } else if same_text(word, "IfElse") && args.len() == 3 {
                match decode_expression(&args[0]) {
                    Some(condition) => match decode_part(&args[1], raw) {
                        Ok(first) => match decode_part(&args[2], raw) {
                            Ok(second) => Ok(
                                FormatPart::IfElse(condition, Box::new(first), Box::new(second)),
                            ),
                            Err(e) => Err(e),
                        },
                        Err(e) => Err(e),
                    },
                    None => Err(invalid_keyword(raw)),
                }
            } else {
                Err(invalid_keyword(raw))
            }
        },
        _ => Err(invalid_keyword(raw)),
    }
}

/// The parts of a list, each by its view.
pub open spec fn children_view(children: Seq<Box<FormatPart>>) -> Seq<PartView> {
    Seq::new(children.len(), |i: int| (*children[i])@)
}

/// The parts that the values of a list are the notation of.
fn decode_parts(items: &Vec<Value>, raw: &str) -> (r: MyResult<Vec<Box<FormatPart>>>)
    ensures
        match parts_of(super::notation::values_view(items@), 0, raw@, Seq::empty()) {
            Ok(parts) => r is Ok && children_view(r->Ok_0@) == parts && super::parts_wf(parts),
            Err(e) => r is Err && r->Err_0@ == e,
        },
    decreases items,
{
    let ghost views = super::notation::values_view(items@);
    let mut children: Vec<Box<FormatPart>> = Vec::new();
    let mut i: usize = 0;
    assert(children_view(children@) =~= Seq::empty());
    while i < items.len()
        invariant
            i <= items.len(),
            views == super::notation::values_view(items@),
            super::parts_wf(children_view(children@)),
            parts_of(views, 0, raw@, Seq::empty()) == parts_of(
                views,
                i as int,
                raw@,
                children_view(children@),
            ),
        decreases items.len() - i,
    {
        let ghost before = children_view(children@);
        match decode_part(&items[i], raw) {
            Ok(child) => {
                children.push(Box::new(child));
                assert(children_view(children@) =~= before.push(child@));
            },
            Err(e) => {
                return Err(e);
            },
        }
        i += 1;
    }
    Ok(children)
}

} // verus!
