//! Searching and trimming texts.
use vstd::prelude::*;
use super::chars::{chars_of, is_whitespace, string_of, whitespace};

verus! {

/// The pattern stands in the text at the given position.
pub open spec fn occurs_at(s: Seq<char>, pattern: Seq<char>, i: int) -> bool {
    0 <= i && i + pattern.len() <= s.len() && s.subrange(i, i + pattern.len()) == pattern
}

/// The pattern stands somewhere in the text.
pub open spec fn contains_text(s: Seq<char>, pattern: Seq<char>) -> bool {
    exists|i: int| occurs_at(s, pattern, i)
}

/// The text starts with the pattern.
pub open spec fn starts_with(s: Seq<char>, pattern: Seq<char>) -> bool {
    occurs_at(s, pattern, 0)
}

/// The text without the white space at its start.
pub open spec fn trim_start(s: Seq<char>) -> Seq<char>
    decreases s.len(),
{
    if s.len() > 0 && is_whitespace(s[0]) {
        trim_start(s.drop_first())
    } else {
        s
    }
}

/// The text without the white space at its end.
pub open spec fn trim_end(s: Seq<char>) -> Seq<char>
    decreases s.len(),
{
    if s.len() > 0 && is_whitespace(s.last()) {
        trim_end(s.drop_last())
    } else {
        s
    }
}

/// The text without the white space at its start and its end.
pub open spec fn trim(s: Seq<char>) -> Seq<char> {
    trim_end(trim_start(s))
}

/// The text without the given pattern at its end, however often it is repeated there.
pub open spec fn trim_end_pattern(s: Seq<char>, pattern: Seq<char>) -> Seq<char>
    decreases s.len(),
{
    if pattern.len() > 0 && occurs_at(s, pattern, s.len() - pattern.len()) {
        trim_end_pattern(s.take(s.len() - pattern.len()), pattern)
    } else {
        s
    }
}

fn matches_at(s: &Vec<char>, pattern: &Vec<char>, at: usize) -> (res: bool)
    requires
        at + pattern@.len() <= s@.len(),
    ensures
        res == occurs_at(s@, pattern@, at as int),
{
    let n = s.len();
    for i in 0..pattern.len()
        invariant
            n == s@.len(),
            at + pattern@.len() <= n,
            forall|j: int| 0 <= j < i ==> s@[at + j] == pattern@[j],
    {
        if s[at + i] != pattern[i] {
            assert(s@.subrange(at as int, at + pattern@.len())[i as int] != pattern@[i as int]);
            return false;
        }
    }
    assert(s@.subrange(at as int, at + pattern@.len()) =~= pattern@);
    true
}

/// Whether the pattern stands somewhere in the text.
pub fn contains(s: &str, pattern: &str) -> (res: bool)
    ensures
        res == contains_text(s@, pattern@),
{
    let chars = chars_of(s);
    let wanted = chars_of(pattern);
    if wanted.len() > chars.len() {
        return false;
    }
    let last = chars.len() - wanted.len();
    let mut i: usize = 0;
    while i <= last
        invariant
            chars@ == s@,
            wanted@ == pattern@,
            last + pattern@.len() == s@.len(),
            i <= last + 1,
            last < chars@.len() + 1,
            chars@.len() <= usize::MAX,
            forall|j: int| 0 <= j < i ==> !occurs_at(s@, pattern@, j),
        decreases last + 1 - i,
    {
        if matches_at(&chars, &wanted, i) {
            return true;
        }
        if i == last {
            assert forall|j: int| !occurs_at(s@, pattern@, j) by {}
            return false;
        }
        i = i + 1;
    }
    false
}

/// Whether the text starts with the pattern.
pub fn starts_with_text(s: &str, pattern: &str) -> (res: bool)
    ensures
        res == starts_with(s@, pattern@),
{
    let chars = chars_of(s);
    let wanted = chars_of(pattern);
    wanted.len() <= chars.len() && matches_at(&chars, &wanted, 0)
}

/// The characters without those at the end that repeat the pattern.
pub fn trim_end_chars(s: Vec<char>, pattern: &str) -> (res: Vec<char>)
    requires
        pattern@.len() > 0,
    ensures
        res@ == trim_end_pattern(s@, pattern@),
{
    let wanted = chars_of(pattern);
    let n = wanted.len();
    let mut res = s;
    while res.len() >= n && matches_at(&res, &wanted, res.len() - n)
        invariant
            n == pattern@.len(),
            n > 0,
            wanted@ == pattern@,
            trim_end_pattern(res@, pattern@) == trim_end_pattern(s@, pattern@),
        decreases res@.len(),
    {
        let ghost before = res@;
        let keep = res.len() - n;
        res.truncate(keep);
        assert(res@ =~= before.take(keep as int));
    }
    res
}

/// The text without the pattern at its end, however often it is repeated there.
pub fn trim_end_text(s: &str, pattern: &str) -> (res: String)
    requires
        pattern@.len() > 0,
    ensures
        res@ == trim_end_pattern(s@, pattern@),
{
    let chars = trim_end_chars(chars_of(s), pattern);
    let res = string_of(&chars, 0, chars.len());
    assert(res@ =~= chars@);
    res
}

/// The characters without the white space at the start and the end.
pub fn trim_chars(s: &str) -> (res: Vec<char>)
    ensures
        res@ == trim(s@),
{
    let chars = chars_of(s);
    let mut from: usize = 0;
    assert(s@.skip(0) =~= s@);
    while from < chars.len() && whitespace(chars[from])
        invariant
            chars@ == s@,
            from <= s@.len(),
            trim_start(s@.skip(from as int)) == trim_start(s@),
        decreases s@.len() - from,
    {
        assert(s@.skip(from as int).drop_first() =~= s@.skip(from + 1));
        from = from + 1;
    }
    let mut to: usize = chars.len();
    assert(s@.subrange(from as int, to as int) =~= s@.skip(from as int));
    while to > from && whitespace(chars[to - 1])
        invariant
            chars@ == s@,
            from <= to <= s@.len(),
            trim_end(s@.subrange(from as int, to as int)) == trim(s@),
        decreases to,
    {
        assert(s@.subrange(from as int, to as int).drop_last() =~= s@.subrange(
            from as int,
            to - 1,
        ));
        to = to - 1;
    }
    let mut res: Vec<char> = Vec::new();
    for i in from..to
        invariant
            chars@ == s@,
            from <= to <= s@.len(),
            res@ == s@.subrange(from as int, i as int),
    {
        res.push(chars[i]);
        assert(s@.subrange(from as int, i + 1) =~= s@.subrange(from as int, i as int).push(
            s@[i as int],
        ));
    }
    res
}

/// The text without the white space at its start and its end.
pub fn trim_text(s: &str) -> (res: String)
    ensures
        res@ == trim(s@),
{
    let chars = trim_chars(s);
    let res = string_of(&chars, 0, chars.len());
    assert(res@ =~= chars@);
    res
}

} // verus!
