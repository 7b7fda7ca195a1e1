//! Texts in code point order.
use vstd::prelude::*;
use super::chars::{chars_of, texts};

verus! {

/// The first text stands strictly before the second: at the first difference it has the smaller
/// character, or it ends.
pub open spec fn text_lt(a: Seq<char>, b: Seq<char>) -> bool
    decreases a.len(),
{
    if b.len() == 0 {
        false
    } else if a.len() == 0 {
        true
    } else if a[0] == b[0] {
        text_lt(a.drop_first(), b.drop_first())
    } else {
        a[0] < b[0]
    }
}

/// Each text of the list stands strictly before those that follow it.
pub open spec fn strictly_sorted(list: Seq<Seq<char>>) -> bool {
    forall|i: int, j: int| 0 <= i < j < list.len() ==> text_lt(#[trigger] list[i], #[trigger] list[j])
}

pub proof fn lemma_lt_trans(a: Seq<char>, b: Seq<char>, c: Seq<char>)
    requires
        text_lt(a, b),
        text_lt(b, c),
    ensures
        text_lt(a, c),
    decreases a.len(),
{
    if a.len() > 0 && a[0] == b[0] && b[0] == c[0] {
        lemma_lt_trans(a.drop_first(), b.drop_first(), c.drop_first());
    }
}

pub proof fn lemma_lt_total(a: Seq<char>, b: Seq<char>)
    ensures
        text_lt(a, b) || text_lt(b, a) || a == b,
        !(text_lt(a, b) && text_lt(b, a)),
        text_lt(a, b) ==> a != b,
    decreases a.len(),
{
    if a.len() > 0 && b.len() > 0 && a[0] == b[0] {
        lemma_lt_total(a.drop_first(), b.drop_first());
        assert(a =~= seq![a[0]] + a.drop_first());
        assert(b =~= seq![b[0]] + b.drop_first());
    } else if a.len() == 0 && b.len() == 0 {
        assert(a =~= b);
    }
}

/// Whether the first text stands strictly before the second.
pub fn text_before(a: &str, b: &str) -> (res: bool)
    ensures
        res == text_lt(a@, b@),
{
    let xs = chars_of(a);
    let ys = chars_of(b);
    let mut i: usize = 0;
    assert(a@.skip(0) =~= a@);
    assert(b@.skip(0) =~= b@);
    while i < xs.len() && i < ys.len() && xs[i] == ys[i]
        invariant
            xs@ == a@,
            ys@ == b@,
            i <= a@.len(),
            i <= b@.len(),
            text_lt(a@.skip(i as int), b@.skip(i as int)) == text_lt(a@, b@),
        decreases a@.len() - i,
    {
        assert(a@.skip(i as int).drop_first() =~= a@.skip(i + 1));
        assert(b@.skip(i as int).drop_first() =~= b@.skip(i + 1));
        i = i + 1;
    }
    if i == ys.len() {
        false
    } else if i == xs.len() {
        true
    } else {
        xs[i] < ys[i]
    }
}

/// Adds the text to a sorted list without repetitions, unless it stands there already.
pub fn insert_sorted(list: &mut Vec<String>, text: String)
    requires
        strictly_sorted(texts(old(list)@)),
    ensures
        strictly_sorted(texts(final(list)@)),
        texts(final(list)@).to_set() == texts(old(list)@).to_set().insert(text@),
{
    let ghost before = texts(list@);
    let mut at: usize = 0;
    while at < list.len() && text_before(list[at].as_str(), text.as_str())
        invariant
            at <= list@.len(),
            list@ == old(list)@,
            before == texts(list@),
            strictly_sorted(before),
            forall|j: int| 0 <= j < at ==> text_lt(#[trigger] before[j], text@),
        decreases list@.len() - at,
    {
        assert(before[at as int] == list@[at as int]@);
        at = at + 1;
    }
    if at < list.len() {
        assert(before[at as int] == list@[at as int]@);
        if list[at] == text {
            assert(before.contains(text@)) by {
                assert(before[at as int] == text@);
            }
            assert(before.to_set().insert(text@) =~= before.to_set());
            return;
        }
        proof {
            lemma_lt_total(before[at as int], text@);
            assert forall|j: int| at <= j < before.len() implies text_lt(
                text@,
                #[trigger] before[j],
            ) by {
                if j > at {
                    lemma_lt_trans(text@, before[at as int], before[j]);
                }
            }
        }
    }
    let ghost added = text@;
    list.insert(at, text);
    proof {
        let after = texts(list@);
        assert(after =~= before.insert(at as int, added));
        assert forall|i: int, j: int| 0 <= i < j < after.len() implies text_lt(
            #[trigger] after[i],
            #[trigger] after[j],
        ) by {
            let i0 = if i < at { i } else { i - 1 };
            let j0 = if j < at { j } else { j - 1 };
            if i != at {
                assert(after[i] == before[i0]);
            }
            if j != at {
                assert(after[j] == before[j0]);
            }
        }
        assert forall|x: Seq<char>| after.to_set().contains(x) == before.to_set().insert(
            added,
        ).contains(x) by {
            if after.contains(x) {
                let k = choose|k: int| 0 <= k < after.len() && after[k] == x;
                if k < at {
                    assert(before[k] == x);
                } else if k > at {
                    assert(before[k - 1] == x);
                }
            }
            if before.contains(x) {
                let k = choose|k: int| 0 <= k < before.len() && before[k] == x;
                if k < at {
                    assert(after[k] == x);
                } else {
                    assert(after[k + 1] == x);
                }
            }
            if x == added {
                assert(after[at as int] == x);
            }
        }
        assert(after.to_set() =~= before.to_set().insert(added));
    }
}

} // verus!
