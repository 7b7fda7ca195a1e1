//! Splitting texts at separators, and joining them back.
use vstd::prelude::*;
use super::chars::{chars_of, string_of, texts};

verus! {

/// The pieces of the text between the separators; one piece more than there are separators.
pub open spec fn split(s: Seq<char>, sep: char) -> Seq<Seq<char>>
    decreases s.len(),
{
    if s.len() == 0 {
        seq![Seq::empty()]
    } else {
        let before = split(s.drop_last(), sep);
        if s.last() == sep {
            before.push(Seq::empty())
        } else {
            before.update(before.len() - 1, before.last().push(s.last()))
        }
    }
}

/// The texts of the list, with the separator between each two neighbours.
pub open spec fn join(list: Seq<Seq<char>>, sep: Seq<char>) -> Seq<char>
    decreases list.len(),
{
    if list.len() == 0 {
        Seq::empty()
    } else if list.len() == 1 {
        list[0]
    } else {
        join(list.drop_last(), sep) + sep + list.last()
    }
}

/// What stands before and after the first separator.
pub open spec fn split_once(s: Seq<char>, sep: char) -> Option<(Seq<char>, Seq<char>)> {
    match s.index_of_first(sep) {
        Some(i) => Some((s.take(i), s.skip(i + 1))),
        None => None,
    }
}

/// What stands before and after the last separator.
pub open spec fn rsplit_once(s: Seq<char>, sep: char) -> Option<(Seq<char>, Seq<char>)> {
    match s.index_of_last(sep) {
        Some(i) => Some((s.take(i), s.skip(i + 1))),
        None => None,
    }
}

/// The last piece of the text: what stands after the last separator.
pub open spec fn last_piece(s: Seq<char>, sep: char) -> Seq<char> {
    match rsplit_once(s, sep) {
        Some((_, last)) => last,
        None => s,
    }
}

/// The first piece of the text: what stands before the first separator.
pub open spec fn first_piece(s: Seq<char>, sep: char) -> Seq<char> {
    match split_once(s, sep) {
        Some((first, _)) => first,
        None => s,
    }
}

/// The texts of the list that are not empty.
pub open spec fn nonempty(list: Seq<Seq<char>>) -> Seq<Seq<char>> {
    list.filter(|s: Seq<char>| s.len() > 0)
}

/// The text without one carriage return at its end, where it has one.
pub open spec fn strip_cr(s: Seq<char>) -> Seq<char> {
    if s.len() > 0 && s.last() == '\r' {
        s.drop_last()
    } else {
        s
    }
}

/// The lines of a text. A line ends in a line feed, or in a carriage return and a line feed; what
/// follows the last line feed is a line where it is not empty.
pub open spec fn lines(s: Seq<char>) -> Seq<Seq<char>> {
    let parts = split(s, '\n');
    let ended = parts.drop_last().map_values(|p: Seq<char>| strip_cr(p));
    if parts.last().len() == 0 {
        ended
    } else {
        ended.push(parts.last())
    }
}

pub proof fn lemma_split_len(s: Seq<char>, sep: char)
    ensures
        split(s, sep).len() >= 1,
    decreases s.len(),
{
    if s.len() > 0 {
        lemma_split_len(s.drop_last(), sep);
    }
}

/// Text without separators that is appended extends the last piece.
proof fn lemma_split_extend(a: Seq<char>, b: Seq<char>, sep: char)
    requires
        !b.contains(sep),
    ensures
        split(a + b, sep) == split(a, sep).update(
            split(a, sep).len() - 1,
            split(a, sep).last() + b,
        ),
    decreases b.len(),
{
    lemma_split_len(a, sep);
    if b.len() == 0 {
        assert(a + b =~= a);
        assert(split(a, sep).last() + b =~= split(a, sep).last());
        assert(split(a, sep).update(split(a, sep).len() - 1, split(a, sep).last()) =~= split(
            a,
            sep,
        ));
    } else {
        let c = b.drop_last();
        assert(!c.contains(sep)) by {
            if c.contains(sep) {
                let k = choose|k: int| 0 <= k < c.len() && c[k] == sep;
                assert(b[k] == sep);
            }
        }
        lemma_split_extend(a, c, sep);
        assert((a + b).drop_last() =~= a + c);
        assert(b.last() != sep) by {
            assert(b[b.len() - 1] == b.last());
        }
        assert((split(a, sep).last() + c).push(b.last()) =~= split(a, sep).last() + b);
        assert(split(a + b, sep) =~= split(a, sep).update(
            split(a, sep).len() - 1,
            split(a, sep).last() + b,
        ));
    }
}

/// Splitting joined texts that hold no separator gives the texts back.
pub proof fn lemma_split_join(list: Seq<Seq<char>>, sep: char)
    requires
        list.len() > 0,
        forall|i: int| 0 <= i < list.len() ==> !(#[trigger] list[i]).contains(sep),
    ensures
        split(join(list, seq![sep]), sep) == list,
    decreases list.len(),
{
    let empty = Seq::<char>::empty();
    if list.len() == 1 {
        lemma_split_extend(empty, list[0], sep);
        assert(empty + list[0] =~= list[0]);
        assert(split(list[0], sep) =~= list);
    } else {
        let init = list.drop_last();
        assert forall|i: int| 0 <= i < init.len() implies !(#[trigger] init[i]).contains(sep) by {
            assert(init[i] == list[i]);
        }
        lemma_split_join(init, sep);
        let a = join(init, seq![sep]) + seq![sep];
        assert(a.drop_last() =~= join(init, seq![sep]));
        assert(split(a, sep) =~= init.push(empty));
        lemma_split_extend(a, list.last(), sep);
        assert(empty + list.last() =~= list.last());
        assert(split(join(list, seq![sep]), sep) =~= list);
    }
}

/// A list of texts that are not empty loses none when the empty ones are left out.
pub proof fn lemma_nonempty_all(list: Seq<Seq<char>>)
    requires
        forall|i: int| 0 <= i < list.len() ==> (#[trigger] list[i]).len() > 0,
    ensures
        nonempty(list) == list,
    decreases list.len(),
{
    reveal(Seq::filter);
    if list.len() > 0 {
        let init = list.drop_last();
        assert forall|i: int| 0 <= i < init.len() implies (#[trigger] init[i]).len() > 0 by {
            assert(init[i] == list[i]);
        }
        lemma_nonempty_all(init);
        assert(list =~= init.push(list.last()));
    } else {
        assert(nonempty(list) =~= list);
    }
}

/// A joined text holds no character that neither the texts nor the separator hold.
pub proof fn lemma_join_free(list: Seq<Seq<char>>, sep: Seq<char>, c: char)
    requires
        !sep.contains(c),
        forall|i: int| 0 <= i < list.len() ==> !(#[trigger] list[i]).contains(c),
    ensures
        !join(list, sep).contains(c),
    decreases list.len(),
{
    if list.len() > 1 {
        let init = list.drop_last();
        assert forall|i: int| 0 <= i < init.len() implies !(#[trigger] init[i]).contains(c) by {
            assert(init[i] == list[i]);
        }
        lemma_join_free(init, sep, c);
        let head = join(init, sep);
        let last = list.last();
        assert(!list[list.len() - 1].contains(c));
        if join(list, sep).contains(c) {
            let k = choose|k: int| 0 <= k < join(list, sep).len() && join(list, sep)[k] == c;
            if k < head.len() {
                assert(head[k] == c);
            } else if k < head.len() + sep.len() {
                assert(sep[k - head.len()] == c);
            } else {
                assert(last[k - head.len() - sep.len()] == c);
            }
        }
    } else if list.len() == 1 {
        assert(!list[0].contains(c));
    }
}

/// A joined text is at least as long as its separators.
pub proof fn lemma_join_len(list: Seq<Seq<char>>, sep: Seq<char>)
    ensures
        join(list, sep).len() >= (list.len() - 1) * sep.len(),
        list.len() > 0 ==> join(list, sep).len() >= list[0].len(),
    decreases list.len(),
{
    if list.len() > 1 {
        lemma_join_len(list.drop_last(), sep);
        assert((list.len() - 1) * sep.len() == (list.len() - 2) * sep.len() + sep.len())
            by (nonlinear_arith);
    } else if list.len() == 1 {
        assert(0 * sep.len() == 0);
    } else {
        assert(-1 * sep.len() <= 0) by (nonlinear_arith);
    }
}

/// The position of the first separator is the only one with none before it.
pub proof fn lemma_split_once_at(s: Seq<char>, sep: char, i: int)
    requires
        0 <= i < s.len(),
        s[i] == sep,
        forall|j: int| 0 <= j < i ==> s[j] != sep,
    ensures
        split_once(s, sep) == Some((s.take(i), s.skip(i + 1))),
{
    s.index_of_first_ensures(sep);
    assert(s.contains(sep));
}

/// The position of the last separator is the only one with none after it.
pub proof fn lemma_rsplit_once_at(s: Seq<char>, sep: char, i: int)
    requires
        0 <= i < s.len(),
        s[i] == sep,
        forall|j: int| i < j < s.len() ==> s[j] != sep,
    ensures
        rsplit_once(s, sep) == Some((s.take(i), s.skip(i + 1))),
{
    s.index_of_last_ensures(sep);
    assert(s.contains(sep));
}

/// The pieces of a text.
pub fn split_text(s: &str, sep: char) -> (res: Vec<String>)
    ensures
        texts(res@) == split(s@, sep),
{
    let mut pieces: Vec<String> = Vec::new();
    let mut cur = String::new();
    for c in it: s.chars()
        invariant
            it.seq() == s@,
            texts(pieces@).push(cur@) == split(s@.take(it.index() as int), sep),
    {
        let ghost i = it.index() as int;
        let ghost old_pieces = pieces@;
        let ghost old_cur = cur@;
        assert(s@.take(i + 1).drop_last() =~= s@.take(i));
        if c == sep {
            pieces.push(cur);
            cur = String::new();
            assert(texts(pieces@) =~= texts(old_pieces).push(old_cur));
        } else {
            cur.push(c);
        }
        assert(texts(pieces@).push(cur@) =~= split(s@.take(i + 1), sep));
    }
    assert(s@.take(s@.len() as int) =~= s@);
    let ghost last = cur@;
    let ghost old_pieces = pieces@;
    pieces.push(cur);
    assert(texts(pieces@) =~= texts(old_pieces).push(last));
    pieces
}

/// What stands before and after the first separator.
pub fn split_once_text(s: &str, sep: char) -> (res: Option<(String, String)>)
    ensures
        match res {
            Some((a, b)) => split_once(s@, sep) == Some((a@, b@)),
            None => split_once(s@, sep) is None,
        },
{
    let chars = chars_of(s);
    for i in 0..chars.len()
        invariant
            chars@ == s@,
            forall|j: int| 0 <= j < i ==> s@[j] != sep,
    {
        if chars[i] == sep {
            proof {
                lemma_split_once_at(s@, sep, i as int);
            }
            let a = string_of(&chars, 0, i);
            let b = string_of(&chars, i + 1, chars.len());
            assert(a@ =~= s@.take(i as int));
            assert(b@ =~= s@.skip(i + 1));
            return Some((a, b));
        }
    }
    proof {
        s@.index_of_first_ensures(sep);
    }
    None
}

/// What stands before and after the last separator.
pub fn rsplit_once_text(s: &str, sep: char) -> (res: Option<(String, String)>)
    ensures
        match res {
            Some((a, b)) => rsplit_once(s@, sep) == Some((a@, b@)),
            None => rsplit_once(s@, sep) is None,
        },
{
    let chars = chars_of(s);
    let mut i: usize = chars.len();
    while i > 0
        invariant
            chars@ == s@,
            i <= s@.len(),
            forall|j: int| i <= j < s@.len() ==> s@[j] != sep,
        decreases i,
    {
        i = i - 1;
        if chars[i] == sep {
            proof {
                lemma_rsplit_once_at(s@, sep, i as int);
            }
            let a = string_of(&chars, 0, i);
            let b = string_of(&chars, i + 1, chars.len());
            assert(a@ =~= s@.take(i as int));
            assert(b@ =~= s@.skip(i + 1));
            return Some((a, b));
        }
    }
    proof {
        s@.index_of_last_ensures(sep);
    }
    None
}

/// The last piece of a text.
pub fn last_piece_text(s: &str, sep: char) -> (res: String)
    ensures
        res@ == last_piece(s@, sep),
{
    match rsplit_once_text(s, sep) {
        Some((_, last)) => last,
        None => s.to_owned(),
    }
}

/// The first piece of a text.
pub fn first_piece_text(s: &str, sep: char) -> (res: String)
    ensures
        res@ == first_piece(s@, sep),
{
    match split_once_text(s, sep) {
        Some((first, _)) => first,
        None => s.to_owned(),
    }
}

/// The pieces of a text that are not empty.
pub fn split_nonempty(s: &str, sep: char) -> (res: Vec<String>)
    ensures
        texts(res@) == nonempty(split(s@, sep)),
{
    let pieces = split_text(s, sep);
    let ghost all = split(s@, sep);
    let ghost keep = |s: Seq<char>| s.len() > 0;
    let mut res: Vec<String> = Vec::new();
    proof {
        assert(all.take(0) =~= Seq::empty());
        reveal(Seq::filter);
    }
    for i in 0..pieces.len()
        invariant
            texts(pieces@) == all,
            keep == (|s: Seq<char>| s.len() > 0),
            texts(res@) == all.take(i as int).filter(keep),
    {
        let ghost before = res@;
        proof {
            reveal(Seq::filter);
            assert(all.take(i + 1).drop_last() =~= all.take(i as int));
            assert(all[i as int] == pieces@[i as int]@);
        }
        if pieces[i].as_str().unicode_len() > 0 {
            res.push(pieces[i].clone());
            assert(texts(res@) =~= texts(before).push(pieces@[i as int]@));
        }
    }
    assert(all.take(all.len() as int) =~= all);
    res
}

/// The texts of a list, with the separator between each two neighbours.
pub fn join_texts(list: &Vec<String>, sep: &str) -> (res: String)
    ensures
        res@ == join(texts(list@), sep@),
{
    let mut res = String::new();
    let ghost all = texts(list@);
    for i in 0..list.len()
        invariant
            all == texts(list@),
            res@ == join(all.take(i as int), sep@),
    {
        proof {
            assert(all.take(i + 1).drop_last() =~= all.take(i as int));
        }
        if i > 0 {
            res.append(sep);
        }
        res.append(list[i].as_str());
        assert(res@ =~= join(all.take(i + 1), sep@));
    }
    assert(all.take(all.len() as int) =~= all);
    res
}

/// The text without one carriage return at its end, where it has one.
fn strip_cr_text(s: &String) -> (res: String)
    ensures
        res@ == strip_cr(s@),
{
    let chars = chars_of(s.as_str());
    let n = chars.len();
    if n > 0 && chars[n - 1] == '\r' {
        let res = string_of(&chars, 0, n - 1);
        assert(res@ =~= s@.drop_last());
        res
    } else {
        s.clone()
    }
}

/// The lines of a text.
pub fn lines_text(s: &str) -> (res: Vec<String>)
    ensures
        texts(res@) == lines(s@),
{
    let parts = split_text(s, '\n');
    let ghost all = split(s@, '\n');
    let ghost ended = all.drop_last().map_values(|p: Seq<char>| strip_cr(p));
    proof {
        lemma_split_len(s@, '\n');
        assert(texts(parts@).len() == parts@.len());
    }
    let n = parts.len() - 1;
    let mut res: Vec<String> = Vec::new();
    for i in 0..n
        invariant
            texts(parts@) == all,
            n == parts@.len() - 1,
            ended == all.drop_last().map_values(|p: Seq<char>| strip_cr(p)),
            texts(res@) == ended.take(i as int),
    {
        let ghost before = res@;
        assert(all[i as int] == parts@[i as int]@);
        res.push(strip_cr_text(&parts[i]));
        assert(texts(res@) =~= texts(before).push(res@.last()@));
        assert(ended.take(i + 1) =~= ended.take(i as int).push(ended[i as int]));
    }
    assert(ended.take(n as int) =~= ended);
    assert(all.last() == parts@[n as int]@);
    if parts[n].as_str().unicode_len() > 0 {
        let ghost before = res@;
        res.push(parts[n].clone());
        assert(texts(res@) =~= texts(before).push(all.last()));
    }
    res
}

} // verus!
