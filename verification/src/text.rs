//! Operations on strings, stated over their sequences of characters.

use vstd::prelude::*;

verus! {

/// `str`'s equality: two strings are equal exactly when they hold the same
/// characters in the same order.
pub assume_specification[ <str as PartialEq>::eq ](a: &str, b: &str) -> (r: bool)
    ensures
        r == (a@ == b@),
;

/// `String::push`: appends one character to the end of the string.
pub assume_specification[ String::push ](s: &mut String, ch: char)
    ensures
        final(s)@ == old(s)@.push(ch),
;

/// How `std` formats a list of strings for debugging (`{:?}`): the items
/// in order, each quoted and escaped, in square brackets.
pub uninterp spec fn debug_list(items: Seq<Seq<char>>) -> Seq<char>;

/// Formats a list of strings with `format!("{:?}", ..)`. The text depends
/// on the strings alone.
#[verifier::external_body]
pub(crate) fn format_debug_list(items: &Vec<String>) -> (s: String)
    ensures
        s@ == debug_list(texts(items@)),
{
    format!("{:?}", items)
}

/// How `std` formats a string for debugging (`{:?}`): quoted and escaped.
pub uninterp spec fn debug_text(item: Seq<char>) -> Seq<char>;

/// Formats a string with `format!("{:?}", ..)`. The text depends on the
/// string alone.
#[verifier::external_body]
pub(crate) fn format_debug(item: &str) -> (s: String)
    ensures
        s@ == debug_text(item@),
{
    format!("{:?}", item)
}

/// The views of a sequence of strings.
pub open spec fn texts(items: Seq<String>) -> Seq<Seq<char>> {
    items.map_values(|s: String| s@)
}

/// The views of an optional list of strings.
pub open spec fn opt_texts(items: Option<Vec<String>>) -> Option<Seq<Seq<char>>> {
    match items {
        Some(v) => Some(texts(v@)),
        None => None,
    }
}

/// The view of an optional string.
pub open spec fn opt_text(item: Option<String>) -> Option<Seq<char>> {
    match item {
        Some(s) => Some(s@),
        None => None,
    }
}

/// The view of an optional string slice.
pub open spec fn opt_str(item: Option<&str>) -> Option<Seq<char>> {
    match item {
        Some(s) => Some(s@),
        None => None,
    }
}

/// An owned copy of an optional string slice.
pub fn own_opt_str(item: Option<&str>) -> (out: Option<String>)
    ensures
        opt_text(out) == opt_str(item),
{
    match item {
        Some(s) => Some(String::from_str(s)),
        None => None,
    }
}

/// A copy of a list of strings.
pub fn clone_strings(items: &Vec<String>) -> (out: Vec<String>)
    ensures
        texts(out@) == texts(items@),
{
    let mut out: Vec<String> = Vec::new();
    let mut i: usize = 0;
    while i < items.len()
        invariant
            i <= items.len(),
            texts(out@) == texts(items@.take(i as int)),
        decreases items.len() - i,
    {
        let item = items[i].clone();
        proof {
            assert(texts(out@).len() == i);
            assert forall|j: int| 0 <= j < i implies out@[j]@ == items@[j]@ by {
                assert(texts(out@)[j] == texts(items@.take(i as int))[j]);
            }
        }
        out.push(item);
        assert(texts(out@) =~= texts(items@.take(i as int + 1)));
        i += 1;
    }
    assert(items@.take(items.len() as int) =~= items@);
    out
}

/// A copy of an optional list of strings.
pub fn clone_opt_strings(items: &Option<Vec<String>>) -> (out: Option<Vec<String>>)
    ensures
        opt_texts(out) == opt_texts(*items),
{
    match items {
        Some(v) => Some(clone_strings(v)),
        None => None,
    }
}

/// A copy of an optional string.
pub fn clone_opt_string(item: &Option<String>) -> (out: Option<String>)
    ensures
        opt_text(out) == opt_text(*item),
{
    match item {
        Some(s) => Some(s.clone()),
        None => None,
    }
}

/// The characters of a string, in order.
pub fn chars_of(s: &str) -> (out: Vec<char>)
    ensures
        out@ == s@,
{
    let mut out: Vec<char> = Vec::new();
    for c in it: s.chars()
        invariant
            out@ == s@.take(it.index() as int),
            it.seq() == s@,
    {
        out.push(c);
        assert(out@ =~= s@.take(it.index() as int + 1));
    }
    assert(s@.take(s@.len() as int) =~= s@);
    out
}

/// The string made of `chars[from..to]`.
pub fn string_of(chars: &Vec<char>, from: usize, to: usize) -> (out: String)
    requires
        from <= to <= chars.len(),
    ensures
        out@ == chars@.subrange(from as int, to as int),
{
    let mut out = String::new();
    let mut i: usize = from;
    while i < to
        invariant
            from <= i <= to <= chars.len(),
            out@ == chars@.subrange(from as int, i as int),
        decreases to - i,
    {
        out.push(chars[i]);
        assert(out@ =~= chars@.subrange(from as int, i as int + 1));
        i += 1;
    }
    out
}

/// Whether `s` begins with `prefix`.
pub fn starts_with(s: &str, prefix: &str) -> (r: bool)
    ensures
        r == prefix@.is_prefix_of(s@),
{
    let a = chars_of(s);
    let b = chars_of(prefix);
    if b.len() > a.len() {
        return false;
    }
    let mut i: usize = 0;
    while i < b.len()
        invariant
            i <= b.len() <= a.len(),
            a@ == s@,
            b@ == prefix@,
            forall|j: int| 0 <= j < i ==> a@[j] == b@[j],
        decreases b.len() - i,
    {
        if a[i] != b[i] {
            assert(s@.subrange(0, prefix@.len() as int)[i as int] != prefix@[i as int]);
            return false;
        }
        i += 1;
    }
    assert(s@.subrange(0, prefix@.len() as int) =~= prefix@);
    true
}

/// `s` with every occurrence of `from` replaced by `to`.
pub open spec fn replaced(s: Seq<char>, from: char, to: char) -> Seq<char> {
    Seq::new(
        s.len(),
        |i: int|
            if s[i] == from {
                to
            } else {
                s[i]
            },
    )
}

/// Replaces every occurrence of the character `from` in `s` by `to`.
pub fn replace_char(s: &str, from: char, to: char) -> (out: String)
    ensures
        out@ == replaced(s@, from, to),
{
    let mut out = String::new();
    for c in it: s.chars()
        invariant
            out@ == replaced(s@.take(it.index() as int), from, to),
            it.seq() == s@,
    {
        if c == from {
            out.push(to);
        } else {
            out.push(c);
        }
        assert(out@ =~= replaced(s@.take(it.index() as int + 1), from, to));
    }
    assert(s@.take(s@.len() as int) =~= s@);
    out
}

/// Where the last segment of `s` begins, when `sep` separates segments:
/// just after the last `sep`, or at 0 when there is none.
pub open spec fn last_segment_start(s: Seq<char>, sep: char) -> nat
    decreases s.len(),
{
    if s.len() == 0 {
        0
    } else if s.last() == sep {
        s.len()
    } else {
        last_segment_start(s.drop_last(), sep)
    }
}

/// What follows the last `sep` in `s`; all of `s` when it holds no `sep`.
pub open spec fn last_segment(s: Seq<char>, sep: char) -> Seq<char> {
    s.skip(last_segment_start(s, sep) as int)
}

/// The last segment starts within `s`, holds no separator, and is preceded
/// by a separator unless it is all of `s`.
pub proof fn lemma_last_segment(s: Seq<char>, sep: char)
    ensures
        last_segment_start(s, sep) <= s.len(),
        !last_segment(s, sep).contains(sep),
        last_segment_start(s, sep) > 0 ==> s[last_segment_start(s, sep) - 1] == sep,
        last_segment_start(s, sep) == 0 ==> !s.contains(sep),
    decreases s.len(),
{
    if s.len() == 0 {
    } else if s.last() == sep {
    } else {
        let t = s.drop_last();
        lemma_last_segment(t, sep);
        let k = last_segment_start(t, sep) as int;
        assert forall|i: int| 0 <= i < s.skip(k).len() implies s.skip(k)[i] != sep by {
            if i < t.skip(k).len() {
                assert(t.skip(k)[i] == s.skip(k)[i]);
                assert(t.skip(k).contains(t.skip(k)[i]));
            }
        }
        if k == 0 {
            assert forall|i: int| 0 <= i < s.len() implies s[i] != sep by {
                if i < t.len() {
                    assert(t[i] == s[i]);
                    assert(t.contains(t[i]));
                }
            }
        }
    }
}

/// Finds where the last segment of `s` begins under the separator `sep`,
/// counted in characters, and how many characters `s` has.
pub fn last_segment_position(s: &str, sep: char) -> (r: (usize, usize))
    ensures
        r.0 == last_segment_start(s@, sep),
        r.1 == s@.len(),
        r.0 <= r.1,
{
    let chars = chars_of(s);
    let mut start: usize = 0;
    let mut i: usize = 0;
    while i < chars.len()
        invariant
            i <= chars.len(),
            start <= i,
            start == last_segment_start(chars@.take(i as int), sep),
        decreases chars.len() - i,
    {
        proof {
            let next = chars@.take(i as int + 1);
            assert(next.drop_last() =~= chars@.take(i as int));
            assert(next.last() == chars@[i as int]);
        }
        if chars[i] == sep {
            start = i + 1;
        }
        i += 1;
    }
    assert(chars@.take(chars.len() as int) =~= chars@);
    (start, chars.len())
}

/// The lines joined into one text, with a line feed between each two.
pub open spec fn joined_lines(lines: Seq<Seq<char>>) -> Seq<char>
    decreases lines.len(),
{
    if lines.len() == 0 {
        Seq::empty()
    } else if lines.len() == 1 {
        lines[0]
    } else {
        joined_lines(lines.drop_last()) + "\n"@ + lines.last()
    }
}

/// Joins lines into one text, with a line feed between each two.
pub fn join_lines(lines: &Vec<String>) -> (out: String)
    ensures
        out@ == joined_lines(texts(lines@)),
{
    let mut out = String::new();
    let mut i: usize = 0;
    while i < lines.len()
        invariant
            i <= lines.len(),
            out@ == joined_lines(texts(lines@).take(i as int)),
        decreases lines.len() - i,
    {
        proof {
            let next = texts(lines@).take(i as int + 1);
            assert(next.drop_last() =~= texts(lines@).take(i as int));
            assert(next.last() == lines@[i as int]@);
            assert(next[0] == texts(lines@)[0]);
            reveal_with_fuel(joined_lines, 2);
        }
        if i > 0 {
            out.append("\n");
        }
        out.append(lines[i].as_str());
        proof {
            if i == 0 {
                assert(out@ =~= lines@[0]@);
            }
        }
        i += 1;
    }
    assert(texts(lines@).take(lines.len() as int) =~= texts(lines@));
    out
}

/// The first position below `n` at which `flags` holds, if any.
pub open spec fn first_match(flags: Seq<bool>, n: nat) -> Option<int>
    decreases n,
{
    if n == 0 {
        None
    } else {
        match first_match(flags, (n - 1) as nat) {
            Some(i) => Some(i),
            None => if flags[n - 1] {
                Some(n - 1)
            } else {
                None
            },
        }
    }
}

/// `first_match` gives the least position that holds, and none only when
/// none holds.
pub proof fn lemma_first_match(flags: Seq<bool>, n: nat)
    requires
        n <= flags.len(),
    ensures
        match first_match(flags, n) {
            Some(i) => 0 <= i < n && flags[i] && forall|j: int| 0 <= j < i ==> !flags[j],
            None => forall|j: int| 0 <= j < n ==> !flags[j],
        },
    decreases n,
{
    if n > 0 {
        lemma_first_match(flags, (n - 1) as nat);
    }
}

/// How many of the first `n` positions of `flags` hold.
pub open spec fn count_matches(flags: Seq<bool>, n: nat) -> nat
    decreases n,
{
    if n == 0 {
        0
    } else {
        count_matches(flags, (n - 1) as nat) + if flags[n - 1] {
            1nat
        } else {
            0nat
        }
    }
}

/// The parts of `s` from position `i` on, where `::` separates parts and
/// the part being read began at `start`.
pub open spec fn split_from(s: Seq<char>, i: int, start: int) -> Seq<Seq<char>>
    decreases s.len() - i,
{
    if i < 0 || start < 0 || start > i || i > s.len() {
        Seq::empty()
    } else if i == s.len() {
        seq![s.subrange(start, i)]
    } else if i + 1 < s.len() && s[i] == ':' && s[i + 1] == ':' {
        seq![s.subrange(start, i)] + split_from(s, i + 2, i + 2)
    } else {
        split_from(s, i + 1, start)
    }
}

/// The parts of a path: what lies between its `::` separators, read from
/// the left. A path without a separator is one part.
pub open spec fn path_parts(s: Seq<char>) -> Seq<Seq<char>> {
    split_from(s, 0, 0)
}

/// Splits a path at its `::` separators.
pub fn split_path(path: &str) -> (parts: Vec<String>)
    ensures
        texts(parts@) == path_parts(path@),
{
    let chars = chars_of(path);
    let mut parts: Vec<String> = Vec::new();
    let mut start: usize = 0;
    let mut i: usize = 0;
    while i < chars.len()
        invariant
            start <= i <= chars.len(),
            chars@ == path@,
            texts(parts@) + split_from(chars@, i as int, start as int) == path_parts(path@),
        decreases chars.len() - i,
    {
        let ghost before = texts(parts@);
        if i + 1 < chars.len() && chars[i] == ':' && chars[i + 1] == ':' {
            let part = string_of(&chars, start, i);
            parts.push(part);
            proof {
                assert(texts(parts@) =~= before.push(chars@.subrange(start as int, i as int)));
                assert(before + (seq![chars@.subrange(start as int, i as int)] + split_from(
                    chars@,
                    i as int + 2,
                    i as int + 2,
                )) =~= texts(parts@) + split_from(chars@, i as int + 2, i as int + 2));
            }
            i += 2;
            start = i;
        } else {
            i += 1;
        }
    }
    let ghost before = texts(parts@);
    let last = string_of(&chars, start, chars.len());
    parts.push(last);
    assert(texts(parts@) =~= before + seq![chars@.subrange(start as int, chars.len() as int)]);
    parts
}

} // verus!
