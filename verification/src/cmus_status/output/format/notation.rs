//! The notation of keywords: names, calls with arguments, texts,
//! characters, numbers and lists.
//!
//! ```text
//! value  = name | name "(" items ")" | text | character | number | "[" items "]"
//! items  = [ value { "," value } [ "," ] ]
//! name   = ( letter | "_" ) { letter | digit | "_" }
//! text   = '"' { any character but '"' and "\" | escape } '"'
//! character = "'" ( any character but "'" and "\" | escape ) "'"
//! escape = "\" ( "n" | "t" | "r" | "0" | "\" | '"' | "'" )
//! number = digit { digit }
//! ```
//!
//! White space may stand between any two of these.

use crate::text::{
    char_at, digit_of, is_digit, is_digit_char, is_space, is_space_char, number_value,
    number_value_grows, string_of,
};
use vstd::prelude::*;

verus! {

/// A value written in the notation.
#[derive(Debug, PartialEq, Eq)]
pub enum Value {
    /// A bare name, such as `Title`.
    Name(String),
    /// A name with arguments, such as `Tag("artist")`.
    Call(String, Vec<Value>),
    /// A text between double quotes.
    Text(String),
    /// A character between single quotes.
    Character(char),
    /// A number.
    Number(usize),
    /// A list between square brackets.
    List(Vec<Value>),
}

/// A [`Value`] with its texts and lists as sequences.
pub enum ValueView {
    Name(Seq<char>),
    Call(Seq<char>, Seq<ValueView>),
    Text(Seq<char>),
    Character(char),
    Number(usize),
    List(Seq<ValueView>),
}

/// The values of a list, each by its view.
pub open spec fn values_view(values: Seq<Value>) -> Seq<ValueView> {
    Seq::new(values.len(), |i: int| values[i]@)
}

impl Value {
    pub open spec fn model(&self) -> ValueView
        decreases self,
    {
        match self {
            Value::Name(name) => ValueView::Name(name@),
            Value::Call(name, args) => ValueView::Call(
                name@,
                Seq::new(
                    args@.len(),
                    |i: int|
                        if 0 <= i < args@.len() {
                            args@[i].model()
                        } else {
                            ValueView::Number(0)
                        },
                ),
            ),
            Value::Text(text) => ValueView::Text(text@),
            Value::Character(c) => ValueView::Character(*c),
            Value::Number(n) => ValueView::Number(*n),
            Value::List(items) => ValueView::List(
                Seq::new(
                    items@.len(),
                    |i: int|
                        if 0 <= i < items@.len() {
                            items@[i].model()
                        } else {
                            ValueView::Number(0)
                        },
                ),
            ),
        }
    }
}

impl Value {
    /// The view of a value, variant by variant.
    pub proof fn view_by_variant(&self)
        ensures
            self matches Value::Name(name) ==> self@ == ValueView::Name(name@),
            self matches Value::Call(name, args) ==> self@ == ValueView::Call(
                name@,
                values_view(args@),
            ),
            self matches Value::Text(text) ==> self@ == ValueView::Text(text@),
            self matches Value::Character(c) ==> self@ == ValueView::Character(*c),
            self matches Value::Number(n) ==> self@ == ValueView::Number(*n),
            self matches Value::List(items) ==> self@ == ValueView::List(values_view(items@)),
    {
        match self {
            Value::Call(name, args) => {
                assert(self@->Call_1 =~= values_view(args@));
            },
            Value::List(items) => {
                assert(self@->List_0 =~= values_view(items@));
            },
            _ => {},
        }
    }
}

impl View for Value {
    type V = ValueView;

    open spec fn view(&self) -> ValueView {
        self.model()
    }
}

/// The first position from `i` on that holds no white space.
pub open spec fn skip_spaces(s: Seq<char>, i: int) -> int
    decreases s.len() - i,
{
    if 0 <= i < s.len() && is_space(s[i]) {
        skip_spaces(s, i + 1)
    } else {
        i
    }
}

pub open spec fn is_letter(c: char) -> bool {
    ('a' <= c && c <= 'z') || ('A' <= c && c <= 'Z')
}

pub open spec fn is_name_start(c: char) -> bool {
    is_letter(c) || c == '_'
}

pub open spec fn is_name_char(c: char) -> bool {
    is_letter(c) || is_digit(c) || c == '_'
}

/// The first position from `i` on that holds no character of a name.
pub open spec fn name_end(s: Seq<char>, i: int) -> int
    decreases s.len() - i,
{
    if 0 <= i < s.len() && is_name_char(s[i]) {
        name_end(s, i + 1)
    } else {
        i
    }
}

/// The first position from `i` on that holds no digit.
pub open spec fn digits_end(s: Seq<char>, i: int) -> int
    decreases s.len() - i,
{
    if 0 <= i < s.len() && is_digit(s[i]) {
        digits_end(s, i + 1)
    } else {
        i
    }
}

/// The character that stands behind a backslash as `c`.
pub open spec fn escape(c: char) -> Option<char> {
    if c == 'n' {
        Some('\n')
    } else if c == 't' {
        Some('\t')
    } else if c == 'r' {
        Some('\r')
    } else if c == '0' {
        Some('\0')
    } else if c == '\\' || c == '"' || c == '\'' {
        Some(c)
    } else {
        None
    }
}

/// Reads a quoted text from `i`, the position behind the opening quote, up
/// to the closing `quote`: the text behind `so_far` and the position behind
/// the closing quote.
pub open spec fn quoted(s: Seq<char>, i: int, quote: char, so_far: Seq<char>) -> Option<
    (Seq<char>, int),
>
    decreases s.len() - i,
{
    if i < 0 || i >= s.len() {
        None
    } else if s[i] == quote {
        Some((so_far, i + 1))
    } else if s[i] == '\\' {
        if i + 1 < s.len() && escape(s[i + 1]) is Some {
            quoted(s, i + 2, quote, so_far.push(escape(s[i + 1])->Some_0))
        } else {
            None
        }
    } else {
        quoted(s, i + 1, quote, so_far.push(s[i]))
    }
}

pub proof fn skip_spaces_bounds(s: Seq<char>, i: int)
    requires
        0 <= i <= s.len(),
    ensures
        i <= skip_spaces(s, i) <= s.len(),
    decreases s.len() - i,
{
    if i < s.len() && is_space(s[i]) {
        skip_spaces_bounds(s, i + 1);
    }
}

pub proof fn name_end_bounds(s: Seq<char>, i: int)
    requires
        0 <= i <= s.len(),
    ensures
        i <= name_end(s, i) <= s.len(),
        i < s.len() && is_name_char(s[i]) ==> i < name_end(s, i),
    decreases s.len() - i,
{
    if i < s.len() && is_name_char(s[i]) {
        name_end_bounds(s, i + 1);
    }
}

pub proof fn digits_end_bounds(s: Seq<char>, i: int)
    requires
        0 <= i <= s.len(),
    ensures
        i <= digits_end(s, i) <= s.len(),
        i < s.len() && is_digit(s[i]) ==> i < digits_end(s, i),
    decreases s.len() - i,
{
    if i < s.len() && is_digit(s[i]) {
        digits_end_bounds(s, i + 1);
    }
}

/// Reads one value that starts at `i`: the value and the position behind it.
pub open spec fn value_at(s: Seq<char>, i: int) -> Option<(ValueView, int)>
    decreases s.len() - i, 0nat,
{
    if i < 0 || i >= s.len() {
        None
    } else if is_name_start(s[i]) {
        let e = name_end(s, i);
        let p = skip_spaces(s, e);
        proof {
            name_end_bounds(s, i);
            skip_spaces_bounds(s, e);
        }
        if p < s.len() && s[p] == '(' {
            match items_at(s, p + 1, ')', Seq::empty()) {
                Some((args, j)) => Some((ValueView::Call(s.subrange(i, e), args), j)),
                None => None,
            }
        } else {
            Some((ValueView::Name(s.subrange(i, e)), e))
        }
    } else if s[i] == '"' {
        match quoted(s, i + 1, '"', Seq::empty()) {
            Some((text, j)) => Some((ValueView::Text(text), j)),
            None => None,
        }
    } else if s[i] == '\'' {
        match quoted(s, i + 1, '\'', Seq::empty()) {
            Some((text, j)) => if text.len() == 1 {
                Some((ValueView::Character(text[0]), j))
            } else {
                None
            },
            None => None,
        }
    } else if is_digit(s[i]) {
        let e = digits_end(s, i);
        let n = number_value(s.subrange(i, e));
        if n <= usize::MAX {
            Some((ValueView::Number(n as usize), e))
        } else {
            None
        }
    } else if s[i] == '[' {
        match items_at(s, i + 1, ']', Seq::empty()) {
            Some((items, j)) => Some((ValueView::List(items), j)),
            None => None,
        }
    } else {
        None
    }
}

/// Reads values from `i` on, with commas between them and perhaps one behind
/// the last, up to the bracket `close`: the values behind `so_far`, and the
/// position behind the bracket.
pub open spec fn items_at(s: Seq<char>, i: int, close: char, so_far: Seq<ValueView>) -> Option<
    (Seq<ValueView>, int),
>
    decreases s.len() - i, 1nat,
{
    let p = skip_spaces(s, i);
    proof {
        if 0 <= i <= s.len() {
            skip_spaces_bounds(s, i);
        }
    }
    if i < 0 || p >= s.len() {
        None
    } else if s[p] == close {
        Some((so_far, p + 1))
    } else {
        match value_at(s, p) {
            None => None,
            Some((value, j)) => {
                let q = skip_spaces(s, j);
                proof {
                    if p < j <= s.len() {
                        skip_spaces_bounds(s, j);
                    }
                }
                if j <= p || j > s.len() || q >= s.len() {
                    None
                } else if s[q] == ',' {
                    items_at(s, q + 1, close, so_far.push(value))
                } else if s[q] == close {
                    Some((so_far.push(value), q + 1))
                } else {
                    None
                }
            },
        }
    }
}

/// The value that a text is the notation of: one value, with nothing but
/// white space before and behind it.
pub open spec fn value_of(s: Seq<char>) -> Option<ValueView> {
    match value_at(s, skip_spaces(s, 0)) {
        Some((value, j)) => if skip_spaces(s, j) == s.len() {
            Some(value)
        } else {
            None
        },
        None => None,
    }
}

/// What a reader returns, by the view of the value read.
pub open spec fn read_view(r: Option<(Value, usize)>) -> Option<(ValueView, int)> {
    match r {
        Some((value, j)) => Some((value@, j as int)),
        None => None,
    }
}

/// What a reader of several values returns, by the views of the values read.
pub open spec fn reads_view(r: Option<(Vec<Value>, usize)>) -> Option<(Seq<ValueView>, int)> {
    match r {
        Some((values, j)) => Some((values_view(values@), j as int)),
        None => None,
    }
}

fn is_name_start_char(c: char) -> (b: bool)
    ensures
        b == is_name_start(c),
{
    ('a' <= c && c <= 'z') || ('A' <= c && c <= 'Z') || c == '_'
}

fn is_name_part(c: char) -> (b: bool)
    ensures
        b == is_name_char(c),
{
    is_name_start_char(c) || is_digit_char(c)
}

fn escape_of(c: char) -> (r: Option<char>)
    ensures
        r == escape(c),
{
    if c == 'n' {
        Some('\n')
    } else if c == 't' {
        Some('\t')
    } else if c == 'r' {
        Some('\r')
    } else if c == '0' {
        Some('\0')
    } else if c == '\\' || c == '"' || c == '\'' {
        Some(c)
    } else {
        None
    }
}

/// The first position from `i` on that holds no white space.
fn skip_white(s: &Vec<char>, i: usize) -> (j: usize)
    requires
        i <= s.len(),
    ensures
        j == skip_spaces(s@, i as int),
        i <= j <= s.len(),
{
    let mut j = i;
    while j < s.len() && is_space_char(s[j])
        invariant
            i <= j <= s.len(),
            skip_spaces(s@, i as int) == skip_spaces(s@, j as int),
        decreases s.len() - j,
    {
        j += 1;
    }
    j
}

fn read_name(s: &Vec<char>, i: usize) -> (j: usize)
    requires
        i <= s.len(),
    ensures
        j == name_end(s@, i as int),
        i <= j <= s.len(),
{
    let mut j = i;
    while j < s.len() && is_name_part(s[j])
        invariant
            i <= j <= s.len(),
            name_end(s@, i as int) == name_end(s@, j as int),
        decreases s.len() - j,
    {
        j += 1;
    }
    j
}

fn read_number(s: &Vec<char>, i: usize) -> (r: Option<(usize, usize)>)
    requires
        i < s.len(),
        is_digit(s@[i as int]),
    ensures
        number_value(s@.subrange(i as int, digits_end(s@, i as int))) <= usize::MAX ==> r
            == Some(
            (
                number_value(s@.subrange(i as int, digits_end(s@, i as int))) as usize,
                digits_end(s@, i as int) as usize,
            ),
        ),
        number_value(s@.subrange(i as int, digits_end(s@, i as int))) > usize::MAX ==> r is None,
        i < digits_end(s@, i as int) <= s.len(),
{
    proof {
        digits_end_bounds(s@, i as int);
    }
    let ghost e = digits_end(s@, i as int);
    let mut j = i;
    let mut n: usize = 0;
    assert(s@.subrange(i as int, i as int).len() == 0);
    while j < s.len() && is_digit_char(s[j])
        invariant
            i <= j <= e <= s.len(),
            e == digits_end(s@, i as int),
            e == digits_end(s@, j as int),
            n == number_value(s@.subrange(i as int, j as int)),
        decreases s.len() - j,
    {
        let d = digit_of(s[j]) as usize;
        proof {
            digits_end_bounds(s@, j + 1);
            assert(s@.subrange(i as int, j + 1).drop_last() == s@.subrange(i as int, j as int));
            number_value_grows(s@, i as int, j + 1, e);
        }
        if n > (usize::MAX - d) / 10 {
            return None;
        }
        n = n * 10 + d;
        j += 1;
    }
    Some((n, j))
}

fn read_quoted(s: &Vec<char>, i: usize, quote: char) -> (r: Option<(String, usize)>)
    requires
        i <= s.len(),
    ensures
        match quoted(s@, i as int, quote, Seq::empty()) {
            Some((text, j)) => r is Some && r->Some_0.0@ == text && r->Some_0.1 == j && i < j
                <= s.len(),
            None => r is None,
        },
{
    let mut text = String::new();
    let mut j = i;
    loop
        invariant
            i <= j <= s.len(),
            quoted(s@, i as int, quote, Seq::empty()) == quoted(s@, j as int, quote, text@),
        decreases s.len() - j,
    {
        if j >= s.len() {
            return None;
        }
        let c = s[j];
        if c == quote {
            return Some((text, j + 1));
        } else if c == '\\' {
            if j + 1 >= s.len() {
                return None;
            }
            match escape_of(s[j + 1]) {
                Some(e) => {
                    text.push(e);
                    j += 2;
                },
                None => {
                    return None;
                },
            }
        } else {
            text.push(c);
            j += 1;
        }
    }
}

/// Reads one value that starts at `i`.
fn read_value(s: &Vec<char>, i: usize) -> (r: Option<(Value, usize)>)
    requires
        i <= s.len(),
    ensures
        read_view(r) == value_at(s@, i as int),
        r matches Some((_, j)) ==> i < j <= s.len(),
    decreases s.len() - i, 0nat,
{
    if i >= s.len() {
        return None;
    }
    let c = s[i];
    if is_name_start_char(c) {
        let e = read_name(s, i);
        proof {
            name_end_bounds(s@, i as int);
        }
        let p = skip_white(s, e);
        let name = string_of(s, i, e);
        if p < s.len() && s[p] == '(' {
            match read_items(s, p + 1, ')') {
                Some((args, j)) => {
                    let value = Value::Call(name, args);
                    proof {
                        value.view_by_variant();
                    }
                    Some((value, j))
                },
                None => None,
            }
        } else {
            Some((Value::Name(name), e))
        }
    } else if c == '"' {
        match read_quoted(s, i + 1, '"') {
            Some((text, j)) => Some((Value::Text(text), j)),
            None => None,
        }
    } else if c == '\'' {
        match read_quoted(s, i + 1, '\'') {
            Some((text, j)) => {
                let chars = crate::text::chars_of(text.as_str());
                if chars.len() == 1 {
                    Some((Value::Character(char_at(&chars, 0)), j))
                } else {
                    None
                }
            },
            None => None,
        }
    } else if is_digit_char(c) {
        match read_number(s, i) {
            Some((n, e)) => Some((Value::Number(n), e)),
            None => None,
        }
    } else if c == '[' {
        match read_items(s, i + 1, ']') {
            Some((items, j)) => {
                let value = Value::List(items);
                proof {
                    value.view_by_variant();
                }
                Some((value, j))
            },
            None => None,
        }
    } else {
        None
    }
}

/// Reads values from `i` on, up to the bracket `close`.
fn read_items(s: &Vec<char>, i: usize, close: char) -> (r: Option<(Vec<Value>, usize)>)
    requires
        i <= s.len(),
    ensures
        reads_view(r) == items_at(s@, i as int, close, Seq::empty()),
        r matches Some((_, j)) ==> i < j <= s.len(),
    decreases s.len() - i, 1nat,
{
    let mut values: Vec<Value> = Vec::new();
    let mut at = i;
    assert(values_view(values@) =~= Seq::empty());
    loop
        invariant
            i <= at <= s.len(),
            items_at(s@, i as int, close, Seq::empty()) == items_at(
                s@,
                at as int,
                close,
                values_view(values@),
            ),
        decreases s.len() - at,
    {
        let p = skip_white(s, at);
        if p >= s.len() {
            return None;
        }
        if s[p] == close {
            return Some((values, p + 1));
        }
        match read_value(s, p) {
            None => {
                return None;
            },
            Some((value, j)) => {
                let q = skip_white(s, j);
                if q >= s.len() {
                    return None;
                }
                let ghost before = values_view(values@);
                let ghost v = value@;
                values.push(value);
                assert(values_view(values@) =~= before.push(v));
                if s[q] == ',' {
                    at = q + 1;
                } else if s[q] == close {
                    return Some((values, q + 1));
                } else {
                    return None;
                }
            },
        }
    }
}

impl Value {
    /// Reads the value that a text is the notation of. The text must hold
    /// one value, with nothing but white space before and behind it.
    pub fn parse(text: &str) -> (r: Option<Value>)
        ensures
            match r {
                Some(value) => value_of(text@) == Some(value@),
                None => value_of(text@) is None,
            },
    {
        let s = crate::text::chars_of(text);
        let start = skip_white(&s, 0);
        match read_value(&s, start) {
            Some((value, j)) => {
                let end = skip_white(&s, j);
                if end == s.len() {
                    Some(value)
                } else {
                    None
                }
            },
            None => None,
        }
    }
}

} // verus!
