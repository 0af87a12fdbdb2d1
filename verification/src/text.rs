//! Characters and strings: conversions between `String` and `Vec<char>`,
//! white space, and decimal numbers.

use vstd::prelude::*;

verus! {

/// `String::push` appends one character to the end of the string.
pub assume_specification[ String::push ](s: &mut String, c: char)
    ensures
        final(s)@ == old(s)@.push(c),
;

/// `char::is_whitespace` tells whether a character has Unicode's `White_Space`
/// property. Which characters those are is left to [`is_unicode_space`].
pub assume_specification[ char::is_whitespace ](c: char) -> (b: bool)
    ensures
        b == is_unicode_space(c),
;

/// Whether `c` has Unicode's `White_Space` property.
pub uninterp spec fn is_unicode_space(c: char) -> bool;

/// White space inside a template's keyword brackets.
pub open spec fn is_space(c: char) -> bool {
    c == ' ' || c == '\t' || c == '\n' || c == '\r' || c == '\x0B' || c == '\x0C'
}

pub fn is_space_char(c: char) -> (b: bool)
    ensures
        b == is_space(c),
{
    c == ' ' || c == '\t' || c == '\n' || c == '\r' || c == '\x0B' || c == '\x0C'
}

/// The characters of `s`, in order.
pub fn chars_of(s: &str) -> (out: Vec<char>)
    ensures
        out@ == s@,
{
    let mut out: Vec<char> = Vec::new();
    for c in it: s.chars()
        invariant
            out@ == it.seq().take(it.index() as int),
            it.seq() == s@,
    {
        out.push(c);
    }
    out
}

/// The string made of `v[from..to]`.
pub fn string_of(v: &Vec<char>, from: usize, to: usize) -> (out: String)
    requires
        from <= to <= v.len(),
    ensures
        out@ == v@.subrange(from as int, to as int),
{
    let mut out = String::new();
    let mut i: usize = from;
    while i < to
        invariant
            from <= i <= to <= v.len(),
            out@ == v@.subrange(from as int, i as int),
        decreases to - i,
    {
        out.push(v[i]);
        i += 1;
    }
    out
}

/// Whether two strings hold the same characters.
pub fn same_text(a: &str, b: &str) -> (same: bool)
    ensures
        same == (a@ == b@),
{
    let x = chars_of(a);
    let y = chars_of(b);
    if x.len() != y.len() {
        return false;
    }
    let mut i: usize = 0;
    while i < x.len()
        invariant
            i <= x.len(),
            x.len() == y.len(),
            x@ == a@,
            y@ == b@,
            x@.take(i as int) == y@.take(i as int),
        decreases x.len() - i,
    {
        if x[i] != y[i] {
            return false;
        }
        assert(x@.take(i + 1) == x@.take(i as int).push(x@[i as int]));
        assert(y@.take(i + 1) == y@.take(i as int).push(y@[i as int]));
        i += 1;
    }
    assert(x@ == x@.take(x.len() as int));
    assert(y@ == y@.take(y.len() as int));
    true
}

/// `count` times the character `c`.
pub open spec fn repeated(c: char, count: nat) -> Seq<char> {
    Seq::new(count, |i: int| c)
}

/// The decimal digit for `d`, a number below ten.
pub open spec fn digit(d: nat) -> char {
    if d == 0 {
        '0'
    } else if d == 1 {
        '1'
    } else if d == 2 {
        '2'
    } else if d == 3 {
        '3'
    } else if d == 4 {
        '4'
    } else if d == 5 {
        '5'
    } else if d == 6 {
        '6'
    } else if d == 7 {
        '7'
    } else if d == 8 {
        '8'
    } else {
        '9'
    }
}

/// `n` written in decimal, without leading zeros.
pub open spec fn decimal(n: nat) -> Seq<char>
    decreases n,
{
    if n < 10 {
        seq![digit(n)]
    } else {
        decimal(n / 10).push(digit(n % 10))
    }
}

fn digit_char(d: usize) -> (c: char)
    requires
        d < 10,
    ensures
        c == digit(d as nat),
{
    if d == 0 {
        '0'
    } else if d == 1 {
        '1'
    } else if d == 2 {
        '2'
    } else if d == 3 {
        '3'
    } else if d == 4 {
        '4'
    } else if d == 5 {
        '5'
    } else if d == 6 {
        '6'
    } else if d == 7 {
        '7'
    } else if d == 8 {
        '8'
    } else {
        '9'
    }
}

/// Writes `n` in decimal.
pub fn decimal_string(n: usize) -> (out: String)
    ensures
        out@ == decimal(n as nat),
    decreases n,
{
    if n < 10 {
        let mut out = String::new();
        out.push(digit_char(n));
        out
    } else {
        let mut out = decimal_string(n / 10);
        out.push(digit_char(n % 10));
        out
    }
}

/// `a` followed by `b`.
pub fn join(a: String, b: &str) -> (out: String)
    ensures
        out@ == a@ + b@,
{
    let mut out = a;
    out.append(b);
    out
}

/// The first position from `i` on that holds no Unicode white space.
pub open spec fn white_end(s: Seq<char>, i: int) -> int
    decreases s.len() - i,
{
    if 0 <= i < s.len() && is_unicode_space(s[i]) {
        white_end(s, i + 1)
    } else {
        i
    }
}

/// The first position from `i` on that holds Unicode white space, or the
/// length of the text where none follows.
pub open spec fn word_end(s: Seq<char>, i: int) -> int
    decreases s.len() - i,
{
    if 0 <= i < s.len() && !is_unicode_space(s[i]) {
        word_end(s, i + 1)
    } else {
        i
    }
}

pub proof fn white_end_bounds(s: Seq<char>, i: int)
    requires
        0 <= i <= s.len(),
    ensures
        i <= white_end(s, i) <= s.len(),
        white_end(s, i) < s.len() ==> !is_unicode_space(s[white_end(s, i)]),
    decreases s.len() - i,
{
    if i < s.len() && is_unicode_space(s[i]) {
        white_end_bounds(s, i + 1);
    }
}

pub proof fn word_end_bounds(s: Seq<char>, i: int)
    requires
        0 <= i <= s.len(),
    ensures
        i <= word_end(s, i) <= s.len(),
        i < s.len() && !is_unicode_space(s[i]) ==> i < word_end(s, i),
    decreases s.len() - i,
{
    if i < s.len() && !is_unicode_space(s[i]) {
        word_end_bounds(s, i + 1);
    }
}

pub proof fn line_end_bounds(s: Seq<char>, i: int)
    requires
        0 <= i <= s.len(),
    ensures
        i <= line_end(s, i) <= s.len(),
    decreases s.len() - i,
{
    if i < s.len() && s[i] != '\n' {
        line_end_bounds(s, i + 1);
    }
}

/// The words of `s` from position `i` on, behind `so_far`.
pub open spec fn words_from(s: Seq<char>, i: int, so_far: Seq<Seq<char>>) -> Seq<Seq<char>>
    decreases s.len() - i,
{
    let from = white_end(s, i);
    let to = word_end(s, from);
    proof {
        if 0 <= i <= s.len() {
            white_end_bounds(s, i);
            word_end_bounds(s, from);
        }
    }
    if i < 0 || from >= s.len() {
        so_far
    } else {
        words_from(s, to, so_far.push(s.subrange(from, to)))
    }
}

/// The words of a text: its longest pieces without Unicode white space.
pub open spec fn words(s: Seq<char>) -> Seq<Seq<char>> {
    words_from(s, 0, Seq::empty())
}

/// The words from position `from` up to position `to`, with one blank between
/// each two of them.
pub open spec fn joined_up_to(words: Seq<Seq<char>>, from: int, to: int) -> Seq<char>
    decreases to - from,
{
    if to <= from || from < 0 || to > words.len() {
        Seq::empty()
    } else if to == from + 1 {
        words[from]
    } else {
        joined_up_to(words, from, to - 1) + seq![' '] + words[to - 1]
    }
}

/// The words from position `from` on, with one blank between each two of
/// them.
pub open spec fn joined(words: Seq<Seq<char>>, from: int) -> Seq<char> {
    joined_up_to(words, from, words.len() as int)
}

/// The end of the text `s[lo..hi]` without the Unicode white space at its
/// end.
pub open spec fn white_start(s: Seq<char>, lo: int, hi: int) -> int
    decreases hi - lo,
{
    if lo < hi <= s.len() && is_unicode_space(s[hi - 1]) {
        white_start(s, lo, hi - 1)
    } else {
        hi
    }
}

/// A text without the Unicode white space at its two ends.
pub open spec fn trimmed_white(s: Seq<char>) -> Seq<char> {
    let lo = white_end(s, 0);
    s.subrange(lo, white_start(s, lo, s.len() as int))
}

/// The first position from `i` on that holds a line feed, or the length of
/// the text where none follows.
pub open spec fn line_end(s: Seq<char>, i: int) -> int
    decreases s.len() - i,
{
    if 0 <= i < s.len() && s[i] != '\n' {
        line_end(s, i + 1)
    } else {
        i
    }
}

/// The texts of a list, each by its view.
pub open spec fn texts_view(texts: Seq<String>) -> Seq<Seq<char>> {
    Seq::new(texts.len(), |i: int| texts[i]@)
}

pub open spec fn is_digit(c: char) -> bool {
    '0' <= c && c <= '9'
}

/// The number that a digit stands for.
pub open spec fn digit_value(c: char) -> nat {
    (c as nat - '0' as nat) as nat
}

/// The number that a sequence of digits stands for.
pub open spec fn number_value(digits: Seq<char>) -> nat
    decreases digits.len(),
{
    if digits.len() == 0 {
        0
    } else {
        number_value(digits.drop_last()) * 10 + digit_value(digits.last())
    }
}

/// A longer sequence of digits stands for no smaller number.
pub proof fn number_value_grows(s: Seq<char>, i: int, k: int, e: int)
    requires
        0 <= i <= k <= e <= s.len(),
    ensures
        number_value(s.subrange(i, k)) <= number_value(s.subrange(i, e)),
    decreases e - k,
{
    if k < e {
        number_value_grows(s, i, k, e - 1);
        assert(s.subrange(i, e).drop_last() == s.subrange(i, e - 1));
    }
}

pub(crate) fn is_digit_char(c: char) -> (b: bool)
    ensures
        b == is_digit(c),
{
    '0' <= c && c <= '9'
}

pub(crate) fn digit_of(c: char) -> (d: u8)
    requires
        is_digit(c),
    ensures
        d == digit_value(c),
        d < 10,
{
    (c as u32 - '0' as u32) as u8
}

/// The character at position `i`.
pub(crate) fn char_at(s: &Vec<char>, i: usize) -> (c: char)
    requires
        i < s.len(),
    ensures
        c == s@[i as int],
{
    s[i]
}

/// The words of a text.
pub fn split_words(s: &Vec<char>) -> (out: Vec<String>)
    ensures
        texts_view(out@) == words(s@),
{
    let mut out: Vec<String> = Vec::new();
    let mut i: usize = 0;
    assert(texts_view(out@) =~= Seq::empty());
    loop
        invariant
            i <= s.len(),
            words(s@) == words_from(s@, i as int, texts_view(out@)),
        decreases s.len() - i,
    {
        let mut from = i;
        while from < s.len() && s[from].is_whitespace()
            invariant
                i <= from <= s.len(),
                white_end(s@, i as int) == white_end(s@, from as int),
            decreases s.len() - from,
        {
            from += 1;
        }
        if from >= s.len() {
            return out;
        }
        let mut to = from;
        while to < s.len() && !s[to].is_whitespace()
            invariant
                from <= to <= s.len(),
                word_end(s@, from as int) == word_end(s@, to as int),
            decreases s.len() - to,
        {
            to += 1;
        }
        let ghost before = texts_view(out@);
        let word = string_of(s, from, to);
        out.push(word);
        assert(texts_view(out@) =~= before.push(s@.subrange(from as int, to as int)));
        i = to;
    }
}

/// The words from position `from` on, with one blank between each two of
/// them.
pub fn join_words(words: &Vec<String>, from: usize) -> (out: String)
    ensures
        out@ == joined(texts_view(words@), from as int),
{
    let mut out = String::new();
    if from >= words.len() {
        return out;
    }
    let mut k: usize = from;
    while k < words.len()
        invariant
            from <= k <= words.len(),
            out@ == joined_up_to(texts_view(words@), from as int, k as int),
        decreases words.len() - k,
    {
        if k > from {
            out.push(' ');
        }
        out.append(words[k].as_str());
        k += 1;
        assert(out@ =~= joined_up_to(texts_view(words@), from as int, k as int));
    }
    out
}

/// The characters of a text without the Unicode white space at its two ends.
pub fn trim_white(s: &Vec<char>) -> (out: Vec<char>)
    ensures
        out@ == trimmed_white(s@),
{
    let mut lo: usize = 0;
    while lo < s.len() && s[lo].is_whitespace()
        invariant
            lo <= s.len(),
            white_end(s@, 0) == white_end(s@, lo as int),
        decreases s.len() - lo,
    {
        lo += 1;
    }
    let mut hi: usize = s.len();
    while lo < hi && s[hi - 1].is_whitespace()
        invariant
            lo <= hi <= s.len(),
            white_start(s@, lo as int, s.len() as int) == white_start(s@, lo as int, hi as int),
        decreases hi - lo,
    {
        hi -= 1;
    }
    let mut out: Vec<char> = Vec::new();
    let mut i: usize = lo;
    while i < hi
        invariant
            lo <= i <= hi <= s.len(),
            out@ == s@.subrange(lo as int, i as int),
        decreases hi - i,
    {
        out.push(s[i]);
        i += 1;
    }
    out
}

} // verus!
