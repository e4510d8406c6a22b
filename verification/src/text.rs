//! Character-level text helpers: conversion between strings and character
//! buffers, trimming, splitting on a delimiter and joining with a separator.
//!
//! Everything here works on sequences of `char`; an offset into a buffer counts
//! characters, never bytes.

use vstd::prelude::*;
use vstd::std_specs::iter::IteratorSpec;

verus! {

/// What `char::is_whitespace` answers for `c`.
pub uninterp spec fn white_space(c: char) -> bool;

/// Whether `c` is whitespace. The plain space is written out, so that proofs
/// know of one whitespace character without asking the standard library.
pub open spec fn is_blank(c: char) -> bool {
    c == ' ' || white_space(c)
}

/// `char::is_whitespace` depends on the character alone, and its documentation
/// gives the plain space as whitespace. Nothing else is claimed of it.
pub assume_specification[ char::is_whitespace ](c: char) -> (b: bool)
    ensures
        b == (c == ' ' || white_space(c)),
;

/// `String::push` appends exactly the given character to the end of the string.
pub assume_specification[ String::push ](s: &mut String, ch: char)
    ensures
        final(s)@ == old(s)@.push(ch),
;

/// The number of whitespace characters at the front of `s`.
pub open spec fn leading_blanks(s: Seq<char>) -> nat
    decreases s.len(),
{
    if s.len() > 0 && is_blank(s[0]) {
        1 + leading_blanks(s.skip(1))
    } else {
        0
    }
}

/// The number of whitespace characters at the back of `s`.
pub open spec fn trailing_blanks(s: Seq<char>) -> nat
    decreases s.len(),
{
    if s.len() > 0 && is_blank(s.last()) {
        1 + trailing_blanks(s.drop_last())
    } else {
        0
    }
}

/// `s` without its leading and trailing whitespace.
pub open spec fn trimmed(s: Seq<char>) -> Seq<char> {
    let rest = s.skip(leading_blanks(s) as int);
    rest.take(rest.len() - trailing_blanks(rest))
}

/// The segments of `s` between occurrences of `delimiter`, in order. There is
/// always one segment more than there are delimiters, so the empty text has
/// one empty segment.
pub open spec fn split_on(s: Seq<char>, delimiter: char) -> Seq<Seq<char>>
    decreases s.len(),
{
    if s.len() == 0 {
        seq![Seq::<char>::empty()]
    } else {
        let before = split_on(s.drop_last(), delimiter);
        if s.last() == delimiter {
            before.push(Seq::<char>::empty())
        } else {
            before.drop_last().push(before.last().push(s.last()))
        }
    }
}

/// The parts written one after another with `separator` between neighbours.
pub open spec fn join_with(parts: Seq<Seq<char>>, separator: Seq<char>) -> Seq<char>
    decreases parts.len(),
{
    if parts.len() == 0 {
        Seq::<char>::empty()
    } else if parts.len() == 1 {
        parts[0]
    } else {
        join_with(parts.drop_last(), separator) + separator + parts.last()
    }
}

/// Every segment of `split_on(s, delimiter)` trimmed.
pub open spec fn split_trimmed(s: Seq<char>, delimiter: char) -> Seq<Seq<char>> {
    split_on(s, delimiter).map_values(|part: Seq<char>| trimmed(part))
}

/// The characters of `s` as a buffer.
pub fn chars_of(s: &str) -> (buffer: Vec<char>)
    ensures
        buffer@ == s@,
{
    let mut buffer: Vec<char> = Vec::new();
    for c in it: s.chars()
        invariant
            buffer@ == it.seq().take(it.index()),
            it.seq() == s@,
    {
        buffer.push(c);
    }
    buffer
}

/// The characters `buffer[from..to]` as a string.
pub fn string_of_range(buffer: &Vec<char>, from: usize, to: usize) -> (s: String)
    requires
        from <= to <= buffer.len(),
    ensures
        s@ == buffer@.subrange(from as int, to as int),
{
    let mut s = String::new();
    let mut i: usize = from;
    while i < to
        invariant
            from <= i <= to <= buffer.len(),
            s@ == buffer@.subrange(from as int, i as int),
        decreases to - i,
    {
        s.push(buffer[i]);
        i += 1;
    }
    s
}

/// The whole buffer as a string.
pub fn string_of(buffer: &Vec<char>) -> (s: String)
    ensures
        s@ == buffer@,
{
    string_of_range(buffer, 0, buffer.len())
}

/// Narrows `[from, to)` to the part of it that is left after trimming.
pub fn trim_bounds(buffer: &Vec<char>, from: usize, to: usize) -> (bounds: (usize, usize))
    requires
        from <= to <= buffer.len(),
    ensures
        from <= bounds.0 <= bounds.1 <= to,
        bounds.0 == from + leading_blanks(buffer@.subrange(from as int, to as int)),
        buffer@.subrange(bounds.0 as int, bounds.1 as int) == trimmed(
            buffer@.subrange(from as int, to as int),
        ),
{
    let ghost whole = buffer@.subrange(from as int, to as int);
    let mut a: usize = from;
    while a < to && buffer[a].is_whitespace()
        invariant
            from <= a <= to <= buffer.len(),
            whole == buffer@.subrange(from as int, to as int),
            leading_blanks(whole) == (a - from) + leading_blanks(
                buffer@.subrange(a as int, to as int),
            ),
        decreases to - a,
    {
        assert(buffer@.subrange(a as int, to as int).skip(1) == buffer@.subrange(
            a as int + 1,
            to as int,
        ));
        a += 1;
    }
    let ghost rest = buffer@.subrange(a as int, to as int);
    assert(rest == whole.skip(leading_blanks(whole) as int));
    let mut b: usize = to;
    while a < b && buffer[b - 1].is_whitespace()
        invariant
            a <= b <= to <= buffer.len(),
            rest == buffer@.subrange(a as int, to as int),
            trailing_blanks(rest) == (to - b) + trailing_blanks(
                buffer@.subrange(a as int, b as int),
            ),
        decreases b - a,
    {
        assert(buffer@.subrange(a as int, b as int).drop_last() == buffer@.subrange(
            a as int,
            b as int - 1,
        ));
        b -= 1;
    }
    (a, b)
}

/// `s` without its leading and trailing whitespace.
pub fn trim(s: &str) -> (t: String)
    ensures
        t@ == trimmed(s@),
{
    let buffer = chars_of(s);
    assert(buffer@.subrange(0, buffer.len() as int) == buffer@);
    let (from, to) = trim_bounds(&buffer, 0, buffer.len());
    string_of_range(&buffer, from, to)
}

/// Splits `text` on `delimiter` and trims every segment. An empty segment
/// stays in the result as an empty string.
pub fn split_and_trim(text: &Vec<char>, delimiter: char) -> (parts: Vec<String>)
    ensures
        parts.deep_view() == split_trimmed(text@, delimiter),
{
    let mut parts: Vec<String> = Vec::new();
    let ghost mut raw: Seq<Seq<char>> = Seq::empty();
    let mut start: usize = 0;
    let mut i: usize = 0;
    assert(text@.take(0) == Seq::<char>::empty());
    while i < text.len()
        invariant
            start <= i <= text.len(),
            split_on(text@.take(i as int), delimiter) == raw.push(
                text@.subrange(start as int, i as int),
            ),
            parts.deep_view() == raw.map_values(|part: Seq<char>| trimmed(part)),
        decreases text.len() - i,
    {
        assert(text@.take(i as int + 1).drop_last() == text@.take(i as int));
        if text[i] == delimiter {
            let (a, b) = trim_bounds(text, start, i);
            let part = string_of_range(text, a, b);
            proof {
                let ghost segment = text@.subrange(start as int, i as int);
                let ghost longer = raw.push(segment);
                assert(parts.deep_view().push(part@) == longer.map_values(
                    |part: Seq<char>| trimmed(part),
                ));
                raw = longer;
            }
            parts.push(part);
            start = i + 1;
            assert(text@.subrange(start as int, start as int) == Seq::<char>::empty());
        } else {
            assert(text@.subrange(start as int, i as int).push(text@[i as int])
                == text@.subrange(start as int, i as int + 1));
        }
        i += 1;
    }
    assert(text@.take(text.len() as int) == text@);
    let (a, b) = trim_bounds(text, start, text.len());
    let part = string_of_range(text, a, b);
    let ghost before = parts.deep_view();
    parts.push(part);
    assert(parts.deep_view() == before.push(part@));
    parts
}

/// Joins `parts` with `separator` between neighbours.
pub fn join_strings(parts: &Vec<String>, separator: &str) -> (joined: Vec<char>)
    ensures
        joined@ == join_with(parts.deep_view(), separator@),
{
    let mut joined: Vec<char> = Vec::new();
    let ghost all = parts.deep_view();
    let mut i: usize = 0;
    while i < parts.len()
        invariant
            i <= parts.len(),
            all == parts.deep_view(),
            joined@ == join_with(all.take(i as int), separator@),
        decreases parts.len() - i,
    {
        if i > 0 {
            append_chars(&mut joined, separator);
        }
        append_chars(&mut joined, parts[i].as_str());
        assert(all.take(i as int + 1).drop_last() == all.take(i as int));
        i += 1;
    }
    assert(all.take(parts.len() as int) == all);
    joined
}

/// Appends the characters of `s` to `buffer`.
pub fn append_chars(buffer: &mut Vec<char>, s: &str)
    ensures
        final(buffer)@ == old(buffer)@ + s@,
{
    for c in it: s.chars()
        invariant
            buffer@ == old(buffer)@ + it.seq().take(it.index()),
            it.seq() == s@,
    {
        buffer.push(c);
    }
}

/// Splitting yields at least one segment.
pub proof fn lemma_split_is_not_empty(s: Seq<char>, delimiter: char)
    ensures
        split_on(s, delimiter).len() >= 1,
    decreases s.len(),
{
    if s.len() > 0 {
        lemma_split_is_not_empty(s.drop_last(), delimiter);
    }
}

/// Splitting loses nothing: no segment holds the delimiter, and the segments
/// written with the delimiter between them give the text again.
pub proof fn lemma_split_then_join(s: Seq<char>, delimiter: char)
    ensures
        forall|i: int|
            0 <= i < split_on(s, delimiter).len() ==> !(#[trigger] split_on(s, delimiter)[i])
                .contains(delimiter),
        join_with(split_on(s, delimiter), seq![delimiter]) == s,
    decreases s.len(),
{
    if s.len() > 0 {
        let parts = split_on(s, delimiter);
        let shorter = s.drop_last();
        let before = split_on(shorter, delimiter);
        lemma_split_is_not_empty(shorter, delimiter);
        lemma_split_then_join(shorter, delimiter);
        assert(s == shorter.push(s.last()));
        if s.last() == delimiter {
            assert(parts.drop_last() == before);
        } else {
            assert(parts.drop_last() == before.drop_last());
        }
    }
}

/// A text without the delimiter is its own single segment.
pub proof fn lemma_split_without_delimiter(s: Seq<char>, delimiter: char)
    requires
        !s.contains(delimiter),
    ensures
        split_on(s, delimiter) == seq![s],
    decreases s.len(),
{
    if s.len() == 0 {
        assert(s == Seq::<char>::empty());
    } else {
        let shorter = s.drop_last();
        lemma_split_without_delimiter(shorter, delimiter);
        assert(shorter.push(s.last()) == s);
    }
}

/// Splitting a text that has a delimiter between `left` and `right` gives the
/// segments of `left` followed by the segments of `right`.
pub proof fn lemma_split_around_delimiter(left: Seq<char>, right: Seq<char>, delimiter: char)
    ensures
        split_on(left + seq![delimiter] + right, delimiter) == split_on(left, delimiter)
            + split_on(right, delimiter),
    decreases right.len(),
{
    let whole = left + seq![delimiter] + right;
    lemma_split_is_not_empty(left, delimiter);
    if right.len() == 0 {
        assert(whole.drop_last() == left);
    } else {
        let shorter = right.drop_last();
        lemma_split_around_delimiter(left, shorter, delimiter);
        lemma_split_is_not_empty(shorter, delimiter);
        assert(whole.drop_last() == left + seq![delimiter] + shorter);
    }
}

/// A space in front of a text does not change what trimming leaves of it.
pub proof fn lemma_trim_ignores_leading_space(s: Seq<char>)
    ensures
        trimmed(seq![' '] + s) == trimmed(s),
{
    let spaced = seq![' '] + s;
    assert(spaced.skip(1) == s);
    lemma_leading_blanks_fit(s);
    assert(spaced.skip(leading_blanks(spaced) as int) == s.skip(leading_blanks(s) as int));
}

/// There are no more leading blanks than characters.
pub proof fn lemma_leading_blanks_fit(s: Seq<char>)
    ensures
        leading_blanks(s) <= s.len(),
    decreases s.len(),
{
    if s.len() > 0 && is_blank(s[0]) {
        lemma_leading_blanks_fit(s.skip(1));
    }
}

/// Joining texts with "; " and then splitting on ';' and trimming gives them
/// back, provided that there is at least one of them, that none holds a ';',
/// and that each is already trimmed.
pub proof fn lemma_join_then_split(commands: Seq<Seq<char>>)
    requires
        commands.len() > 0,
        forall|i: int| 0 <= i < commands.len() ==> !(#[trigger] commands[i]).contains(';'),
        forall|i: int| 0 <= i < commands.len() ==> trimmed(#[trigger] commands[i]) == commands[i],
    ensures
        split_trimmed(join_with(commands, seq![';', ' ']), ';') == commands,
    decreases commands.len(),
{
    let separator = seq![';', ' '];
    let joined = join_with(commands, separator);
    let last = commands.last();
    if commands.len() == 1 {
        lemma_split_without_delimiter(joined, ';');
    } else {
        let earlier = commands.drop_last();
        let left = join_with(earlier, separator);
        let right = seq![' '] + last;
        lemma_join_then_split(earlier);
        assert(joined == left + seq![';'] + right);
        lemma_split_around_delimiter(left, right, ';');
        lemma_split_without_delimiter(right, ';');
        lemma_trim_ignores_leading_space(last);
        assert(split_trimmed(joined, ';') == split_trimmed(left, ';').push(trimmed(right)));
    }
}

} // verus!
