//! What holds of every template and every state of the player.

use super::format::notation::{
    is_name_char, is_name_start, name_end, skip_spaces, value_at, value_of, ValueView,
};
use super::format::{
    closing, keyword_end, keyword_part, parsed, parsed_from, trim_end, trimmed, with_char,
    ExpressionView, PartView, ProgressBarConfig,
};
use super::{bar_text, escaped, holds, or_empty, shown, text_of, text_of_all};
use crate::cmus_status::data::time::rounded_share_bounds;
use crate::cmus_status::data::{CmusPlaybackStatus, DataView};
use crate::error::ErrorView;
use crate::text::repeated;
use vstd::prelude::*;

verus! {

/// The parts that a template of literal text alone consists of: one text,
/// or nothing where the template is empty.
pub open spec fn one_text(s: Seq<char>) -> Seq<PartView> {
    if s.len() == 0 {
        Seq::empty()
    } else {
        seq![PartView::Text(s)]
    }
}

proof fn literal_template_from(s: Seq<char>, i: int)
    requires
        0 <= i <= s.len(),
        forall|k: int| 0 <= k < s.len() ==> keyword_end(s, k) is None,
    ensures
        parsed_from(s, i, one_text(s.take(i))) == Ok::<Seq<PartView>, ErrorView>(one_text(s)),
    decreases s.len() - i,
{
    if i < s.len() {
        assert(s.take(i + 1) == s.take(i).push(s[i]));
        assert(with_char(one_text(s.take(i)), s[i]) == one_text(s.take(i + 1))) by {
            if i > 0 {
                assert(one_text(s.take(i)).drop_last() =~= Seq::<PartView>::empty());
                assert(Seq::<PartView>::empty().push(PartView::Text(s.take(i + 1)))
                    =~= one_text(s.take(i + 1)));
            } else {
                assert(s.take(i + 1) =~= seq![s[i]]);
            }
        }
        literal_template_from(s, i + 1);
    } else {
        assert(s.take(i) == s);
    }
}

/// A template without a keyword is a single text, however long.
pub proof fn literal_template_is_one_text(s: Seq<char>)
    requires
        forall|k: int| 0 <= k < s.len() ==> keyword_end(s, k) is None,
    ensures
        parsed(s) == Ok::<Seq<PartView>, ErrorView>(one_text(s)),
{
    assert(s.take(0) =~= Seq::<char>::empty());
    literal_template_from(s, 0);
}

/// A template without a keyword is a single text, however long, and it is
/// printed as it stands.
pub proof fn literal_template(s: Seq<char>, data: DataView, escape: bool)
    requires
        forall|k: int| 0 <= k < s.len() ==> keyword_end(s, k) is None,
    ensures
        parsed(s) == Ok::<Seq<PartView>, ErrorView>(one_text(s)),
        text_of_all(one_text(s), data, escape) == s,
{
    literal_template_is_one_text(s);
    assert(text_of_all(Seq::<PartView>::empty(), data, escape) == Seq::<char>::empty());
    if s.len() > 0 {
        assert(one_text(s).drop_last() =~= Seq::<PartView>::empty());
        assert(text_of(one_text(s).last(), data, escape) == Some(s));
        assert(Seq::<char>::empty() + s =~= s);
    } else {
        assert(s =~= Seq::<char>::empty());
    }
}

/// Text without `%` holds no keyword.
pub proof fn no_percent_no_keyword(s: Seq<char>)
    requires
        forall|k: int| 0 <= k < s.len() ==> s[k] != '%',
    ensures
        forall|k: int| 0 <= k < s.len() ==> keyword_end(s, k) is None,
{
}

/// Text that holds none of the characters that keywords are written with.
pub open spec fn is_plain(t: Seq<char>) -> bool {
    forall|k: int| 0 <= k < t.len() ==> t[k] != '%' && t[k] != '{' && t[k] != '}'
}

/// The parts with the literal text `t` behind them: it joins the text that
/// the parts end with, or is one more text.
pub open spec fn with_text(parts: Seq<PartView>, t: Seq<char>) -> Seq<PartView> {
    if t.len() == 0 {
        parts
    } else if parts.len() > 0 && parts.last() is Text {
        parts.drop_last().push(PartView::Text(parts.last()->Text_0 + t))
    } else {
        parts.push(PartView::Text(t))
    }
}

proof fn closing_in_prefix(p: Seq<char>, t: Seq<char>, i: int)
    requires
        0 <= i,
        is_plain(t),
    ensures
        closing(p, i) < p.len() ==> closing(p + t, i) == closing(p, i),
        closing(p, i) >= p.len() ==> closing(p + t, i) >= (p + t).len(),
    decreases (p + t).len() - i,
{
    let s = p + t;
    if i < s.len() {
        if i < p.len() {
            assert(s[i] == p[i]);
        } else {
            assert(s[i] == t[i - p.len()]);
        }
        if s[i] != '}' {
            closing_in_prefix(p, t, i + 1);
        }
    }
}

proof fn keyword_end_in_prefix(p: Seq<char>, t: Seq<char>, i: int)
    requires
        0 <= i < p.len(),
        is_plain(t),
    ensures
        keyword_end(p + t, i) == keyword_end(p, i),
{
    let s = p + t;
    closing_in_prefix(p, t, i + 3);
    super::format::closing_bounds(p, i + 3);
    assert(s[i] == p[i]);
    if i + 1 < p.len() {
        assert(s[i + 1] == p[i + 1]);
    } else if i + 1 < s.len() {
        assert(s[i + 1] == t[0]);
    }
}

proof fn parsed_through_prefix(p: Seq<char>, t: Seq<char>, i: int, parts: Seq<PartView>)
    requires
        0 <= i <= p.len(),
        is_plain(t),
    ensures
        parsed_from(p + t, i, parts) == (match parsed_from(p, i, parts) {
            Ok(read) => parsed_from(p + t, p.len() as int, read),
            Err(e) => Err(e),
        }),
    decreases p.len() - i,
{
    let s = p + t;
    if i < p.len() {
        keyword_end_in_prefix(p, t, i);
        match keyword_end(p, i) {
            Some(end) => {
                super::format::closing_bounds(p, i + 3);
                assert(s.subrange(i + 2, end) == p.subrange(i + 2, end));
                match keyword_part(trimmed(p.subrange(i + 2, end))) {
                    Ok(part) => {
                        parsed_through_prefix(p, t, end + 1, parts.push(part));
                    },
                    Err(e) => {},
                }
            },
            None => {
                assert(s[i] == p[i]);
                parsed_through_prefix(p, t, i + 1, with_char(parts, p[i]));
            },
        }
    }
}

proof fn parsed_through_text(p: Seq<char>, t: Seq<char>, k: int, parts: Seq<PartView>)
    requires
        0 <= k <= t.len(),
        is_plain(t),
    ensures
        parsed_from(p + t, p.len() + k, with_text(parts, t.take(k))) == Ok::<
            Seq<PartView>,
            ErrorView,
        >(with_text(parts, t)),
    decreases t.len() - k,
{
    let s = p + t;
    if k < t.len() {
        assert(s[p.len() + k] == t[k]);
        assert(t.take(k + 1) == t.take(k).push(t[k]));
        assert(with_char(with_text(parts, t.take(k)), t[k]) == with_text(parts, t.take(k + 1)))
            by {
            if k == 0 {
                assert(t.take(k + 1) =~= seq![t[k]]);
                if parts.len() > 0 && parts.last() is Text {
                    assert(parts.last()->Text_0.push(t[k]) =~= parts.last()->Text_0 + t.take(
                        k + 1,
                    ));
                }
            } else if parts.len() > 0 && parts.last() is Text {
                let joined = parts.drop_last().push(
                    PartView::Text(parts.last()->Text_0 + t.take(k)),
                );
                assert(joined.drop_last() =~= parts.drop_last());
                assert((parts.last()->Text_0 + t.take(k)).push(t[k]) =~= parts.last()->Text_0
                    + t.take(k + 1));
            } else {
                assert(parts.push(PartView::Text(t.take(k))).drop_last() =~= parts);
            }
        }
        parsed_through_text(p, t, k + 1, parts);
    } else {
        assert(t.take(k) == t);
    }
}

/// Literal text behind a template joins the text that the template ends
/// with, or becomes one more text, however many characters it has: no two
/// texts come of it. A template that is refused stays refused.
pub proof fn literal_text_joins(p: Seq<char>, t: Seq<char>)
    requires
        is_plain(t),
    ensures
        match parsed(p) {
            Ok(parts) => parsed(p + t) == Ok::<Seq<PartView>, ErrorView>(with_text(parts, t)),
            Err(e) => parsed(p + t) == Err::<Seq<PartView>, ErrorView>(e),
        },
{
    parsed_through_prefix(p, t, 0, Seq::empty());
    match parsed(p) {
        Ok(parts) => {
            assert(t.take(0) =~= Seq::<char>::empty());
            parsed_through_text(p, t, 0, parts);
        },
        Err(e) => {},
    }
}

/// No two parts that follow each other are texts.
pub open spec fn no_texts_in_a_row(parts: Seq<PartView>) -> bool {
    forall|k: int| 0 <= k < parts.len() - 1 ==> !(parts[k] is Text && #[trigger] parts[k + 1] is Text)
}

/// No keyword of the template is a text.
pub open spec fn no_text_keyword(s: Seq<char>) -> bool {
    forall|i: int|
        0 <= i < s.len() ==> match #[trigger] keyword_end(s, i) {
            Some(end) => !(keyword_part(trimmed(s.subrange(i + 2, end))) matches Ok(part)
                && part is Text),
            None => true,
        }
}

proof fn texts_are_merged_from(s: Seq<char>, i: int, parts: Seq<PartView>)
    requires
        0 <= i,
        no_text_keyword(s),
        no_texts_in_a_row(parts),
    ensures
        parsed_from(s, i, parts) matches Ok(all) ==> no_texts_in_a_row(all),
    decreases s.len() - i,
{
    if i < s.len() {
        match keyword_end(s, i) {
            Some(end) => {
                super::format::closing_bounds(s, i + 3);
                match keyword_part(trimmed(s.subrange(i + 2, end))) {
                    Ok(part) => {
                        let next = parts.push(part);
                        assert forall|k: int| 0 <= k < next.len() - 1 implies !(next[k] is Text
                            && #[trigger] next[k + 1] is Text) by {
                            if k + 1 < parts.len() {
                                assert(next[k] == parts[k] && next[k + 1] == parts[k + 1]);
                            }
                        }
                        texts_are_merged_from(s, end + 1, next);
                    },
                    Err(e) => {},
                }
            },
            None => {
                let next = with_char(parts, s[i]);
                assert forall|k: int| 0 <= k < next.len() - 1 implies !(next[k] is Text
                    && #[trigger] next[k + 1] is Text) by {
                    if parts.len() > 0 && parts.last() is Text {
                        if k + 1 < parts.len() - 1 {
                            assert(next[k] == parts[k] && next[k + 1] == parts[k + 1]);
                        } else {
                            assert(next[k] == parts[k]);
                            assert(parts[k + 1] is Text);
                        }
                    } else {
                        if k + 1 < parts.len() {
                            assert(next[k] == parts[k] && next[k + 1] == parts[k + 1]);
                        } else {
                            assert(next[k] == parts.last());
                        }
                    }
                }
                texts_are_merged_from(s, i + 1, next);
            },
        }
    }
}

/// Literal text is merged: in a template whose keywords are no texts
/// themselves, no two parts that follow each other are texts.
pub proof fn literal_texts_are_merged(s: Seq<char>)
    requires
        no_text_keyword(s),
    ensures
        parsed(s) matches Ok(parts) ==> no_texts_in_a_row(parts),
{
    texts_are_merged_from(s, 0, Seq::empty());
}

/// A part under a condition is printed exactly where the condition holds,
/// and of two parts under a condition exactly one is printed.
pub proof fn conditional_parts(
    condition: ExpressionView,
    first: PartView,
    second: PartView,
    data: DataView,
    escape: bool,
)
    ensures
        text_of(PartView::If(condition, Box::new(first)), data, escape) == if holds(
            condition,
            data,
        ) {
            text_of(first, data, escape)
        } else {
            None
        },
        text_of(PartView::IfElse(condition, Box::new(first), Box::new(second)), data, escape)
            == if holds(condition, data) {
            text_of(first, data, escape)
        } else {
            text_of(second, data, escape)
        },
{
}

/// A text under the condition that the player has a given status is printed
/// exactly in that status, whatever else the state holds.
pub proof fn text_in_status(
    status: CmusPlaybackStatus,
    text: Seq<char>,
    data: DataView,
    escape: bool,
)
    ensures
        text_of(
            PartView::If(ExpressionView::IsStatus(status), Box::new(PartView::Text(text))),
            data,
            escape,
        ) == if data.status == status {
            Some(text)
        } else {
            None
        },
{
    conditional_parts(
        ExpressionView::IsStatus(status),
        PartView::Text(text),
        PartView::Text(text),
        data,
        escape,
    );
    assert(text_of(PartView::Text(text), data, escape) == Some(text));
}

/// A tag with a text to fall back on: the value of the tag is printed where
/// the tag is set, the other text where it is not.
pub proof fn tag_or_text(name: Seq<char>, text: Seq<char>, data: DataView, escape: bool)
    ensures
        text_of(
            PartView::IfElse(
                ExpressionView::HasTag(name),
                Box::new(PartView::Tag(name)),
                Box::new(PartView::Text(text)),
            ),
            data,
            escape,
        ) == Some(
            if data.tags.contains_key(name) {
                shown(data.tags[name], escape)
            } else {
                text
            },
        ),
{
    conditional_parts(
        ExpressionView::HasTag(name),
        PartView::Tag(name),
        PartView::Text(text),
        data,
        escape,
    );
    assert(text_of(PartView::Text(text), data, escape) == Some(text));
    assert(text_of(PartView::Tag(name), data, escape) == match data.tag(name) {
        Some(value) => Some(shown(value, escape)),
        None => None,
    });
}

/// The progress bar is as long as its configuration says. At the start of a
/// track all of its inner characters are empty, at the end all are full.
pub proof fn bar_at_the_ends(config: ProgressBarConfig, data: DataView)
    requires
        config.wf(),
        data.time is Some,
        data.time->Some_0.wf(),
    ensures
        bar_text(config, data) is Some,
        bar_text(config, data)->Some_0.len() == config.total_width,
        data.time->Some_0.position == 0 ==> bar_text(config, data) == Some(config.bar(0)),
        data.time->Some_0.position == data.time->Some_0.duration ==> bar_text(config, data)
            == Some(config.bar(config.inner() as nat)),
        config.bar(0) == (match config.start {
            Some(c) => seq![c],
            None => Seq::empty(),
        }) + repeated(config.empty, config.inner() as nat) + (match config.end {
            Some(c) => seq![c],
            None => Seq::empty(),
        }),
        config.bar(config.inner() as nat) == (match config.start {
            Some(c) => seq![c],
            None => Seq::empty(),
        }) + repeated(config.full, config.inner() as nat) + (match config.end {
            Some(c) => seq![c],
            None => Seq::empty(),
        }),
{
    let time = data.time->Some_0;
    rounded_share_bounds(config.inner() as nat, time.position as nat, time.duration as nat);
    assert(config.bar(0) =~= (match config.start {
        Some(c) => seq![c],
        None => Seq::empty(),
    }) + repeated(config.empty, config.inner() as nat) + (match config.end {
        Some(c) => seq![c],
        None => Seq::empty(),
    }));
    assert(config.bar(config.inner() as nat) =~= (match config.start {
        Some(c) => seq![c],
        None => Seq::empty(),
    }) + repeated(config.full, config.inner() as nat) + (match config.end {
        Some(c) => seq![c],
        None => Seq::empty(),
    }));
}

/// Escaping happens where a value of the player is printed, and nowhere
/// above it: a list of one part prints what the part prints, and so does a
/// part that is cut to a length that it does not exceed.
pub proof fn wrapping_keeps_text(part: PartView, max: usize, data: DataView, escape: bool)
    ensures
        text_of(PartView::Container(seq![part]), data, escape) == Some(
            or_empty(text_of(part, data, escape)),
        ),
        text_of(part, data, escape) is Some && text_of(part, data, escape)->Some_0.len() <= max
            ==> text_of(PartView::Truncate(Box::new(part), max), data, escape) == text_of(
            part,
            data,
            escape,
        ),
{
    let children = seq![part];
    assert(children.drop_last() =~= Seq::<PartView>::empty());
    assert(text_of_all(Seq::<PartView>::empty(), data, escape) == Seq::<char>::empty());
    assert(children.last() == part);
    assert(text_of_all(children, data, escape) =~= or_empty(text_of(part, data, escape)));
}

/// The title is escaped once where escaping is asked for, also inside a list
/// and inside a part that is cut to a length that the escaped title does not
/// exceed.
pub proof fn title_is_escaped_once(title: Seq<char>, max: usize, data: DataView)
    requires
        data.title == Some(title),
    ensures
        text_of(PartView::Title, data, true) == Some(escaped(title)),
        text_of(PartView::Container(seq![PartView::Title]), data, true) == Some(escaped(title)),
        escaped(title).len() <= max ==> text_of(
            PartView::Truncate(Box::new(PartView::Title), max),
            data,
            true,
        ) == Some(escaped(title)),
{
    wrapping_keeps_text(PartView::Title, max, data, true);
}

/// A name that is no keyword is refused, whatever the name: the template
/// `%{name}` does not parse, and the error holds the name.
pub proof fn unknown_name_is_refused(name: Seq<char>)
    requires
        name.len() > 0,
        is_name_start(name[0]),
        forall|k: int| 0 <= k < name.len() ==> is_name_char(name[k]),
        name != "Title"@,
        name != "Status"@,
    ensures
        parsed("%{"@ + name + "}"@) == Err::<Seq<PartView>, ErrorView>(
            ErrorView::InvalidFormatKeyword(name),
        ),
{
    reveal_strlit("%{");
    reveal_strlit("}");
    let s = "%{"@ + name + "}"@;
    let end: int = name.len() as int + 2;
    assert(s.len() == name.len() + 3);
    assert(s[0] == '%' && s[1] == '{' && s[end] == '}');
    assert forall|k: int| 0 <= k < name.len() implies s[k + 2] == name[k] by {}
    closing_at(s, 3, end);
    assert(keyword_end(s, 0) == Some(end));
    assert(s.subrange(2, end) =~= name);
    name_is_trimmed(name);
    name_is_a_value(name);
}

proof fn closing_at(s: Seq<char>, i: int, end: int)
    requires
        0 <= i <= end < s.len(),
        s[end] == '}',
        forall|k: int| i <= k < end ==> s[k] != '}',
    ensures
        closing(s, i) == end,
    decreases end - i,
{
    if i < end {
        closing_at(s, i + 1, end);
    }
}

proof fn name_end_is_len(name: Seq<char>, i: int)
    requires
        0 <= i <= name.len(),
        forall|k: int| 0 <= k < name.len() ==> is_name_char(name[k]),
    ensures
        name_end(name, i) == name.len(),
    decreases name.len() - i,
{
    if i < name.len() {
        name_end_is_len(name, i + 1);
    }
}

proof fn trim_end_of_name(name: Seq<char>)
    requires
        name.len() > 0,
        forall|k: int| 0 <= k < name.len() ==> is_name_char(name[k]),
    ensures
        skip_spaces(name, 0) == 0,
        trim_end(name, 0, name.len() as int) == name.len(),
{
    assert(is_name_char(name[0]));
    assert(is_name_char(name[name.len() - 1]));
}

proof fn name_is_trimmed(name: Seq<char>)
    requires
        name.len() > 0,
        forall|k: int| 0 <= k < name.len() ==> is_name_char(name[k]),
    ensures
        trimmed(name) == name,
{
    trim_end_of_name(name);
    assert(name.subrange(0, name.len() as int) =~= name);
}

proof fn name_is_a_value(name: Seq<char>)
    requires
        name.len() > 0,
        is_name_start(name[0]),
        forall|k: int| 0 <= k < name.len() ==> is_name_char(name[k]),
    ensures
        value_of(name) == Some(ValueView::Name(name)),
{
    trim_end_of_name(name);
    name_end_is_len(name, 0);
    assert(skip_spaces(name, name.len() as int) == name.len());
    assert(name.subrange(0, name.len() as int) =~= name);
    assert(value_at(name, 0) == Some((ValueView::Name(name), name.len() as int)));
}

} // verus!
