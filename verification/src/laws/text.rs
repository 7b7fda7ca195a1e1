//! What taking texts apart, and putting them together, gives.
use vstd::prelude::*;
use crate::text::chars::{ascii_lower, is_digit, is_whitespace};
use crate::text::decimal::{decimal, digits_value, lemma_decimal, parse_u64};
use crate::text::order::{lemma_lt_total, text_lt};
use crate::text::search::{trim, trim_end, trim_start};
use crate::text::split::{
    first_piece, join, last_piece, lemma_split_join, lemma_split_len, lines, nonempty, rsplit_once, split, split_once,
};
use crate::zvol_replica::csv;

verus! {

/// Every character is white space.
pub open spec fn is_blank(s: Seq<char>) -> bool {
    forall|i: int| 0 <= i < s.len() ==> is_whitespace(#[trigger] s[i])
}

/// A text is split at the first separator: the parts make the text up again, and the first of them
/// is free of it.
pub proof fn law_split_once(s: Seq<char>, sep: char)
    ensures
        split_once(s, sep) is Some <==> s.contains(sep),
        split_once(s, sep) matches Some((a, b)) ==> s == a + seq![sep] + b && !a.contains(sep)
            && first_piece(s, sep) == a,
        !s.contains(sep) ==> first_piece(s, sep) == s,
{
    s.index_of_first_ensures(sep);
    if let Some(i) = s.index_of_first(sep) {
        assert(s =~= s.take(i) + seq![sep] + s.skip(i + 1));
        assert(!s.take(i).contains(sep));
    }
}

/// A text is split at the last separator: the parts make the text up again, and the last of them is
/// free of it.
pub proof fn law_rsplit_once(s: Seq<char>, sep: char)
    ensures
        rsplit_once(s, sep) is Some <==> s.contains(sep),
        rsplit_once(s, sep) matches Some((a, b)) ==> s == a + seq![sep] + b && !b.contains(sep)
            && last_piece(s, sep) == b,
        !s.contains(sep) ==> last_piece(s, sep) == s,
{
    s.index_of_last_ensures(sep);
    if let Some(i) = s.index_of_last(sep) {
        assert(s =~= s.take(i) + seq![sep] + s.skip(i + 1));
        let rest = s.skip(i + 1);
        assert forall|j: int| 0 <= j < rest.len() implies #[trigger] rest[j] != sep by {
            assert(rest[j] == s[i + 1 + j]);
        }
        assert(!rest.contains(sep));
    }
}

/// The pieces of a text are free of the separator, and joining them gives the text back.
pub proof fn law_split(s: Seq<char>, sep: char)
    ensures
        split(s, sep).len() >= 1,
        join(split(s, sep), seq![sep]) == s,
        forall|i: int| 0 <= i < split(s, sep).len() ==> !(#[trigger] split(s, sep)[i]).contains(sep),
    decreases s.len(),
{
    lemma_split_len(s, sep);
    if s.len() == 0 {
        assert(join(split(s, sep), seq![sep]) =~= s);
    } else {
        let init = s.drop_last();
        let before = split(init, sep);
        let after = split(s, sep);
        law_split(init, sep);
        let n = before.len() - 1;
        assert(s =~= init.push(s.last()));
        if s.last() == sep {
            assert(after.drop_last() =~= before);
            assert(join(after, seq![sep]) =~= s);
            assert forall|i: int| 0 <= i < after.len() implies !(#[trigger] after[i]).contains(
                sep,
            ) by {
                if i < before.len() {
                    assert(after[i] == before[i]);
                }
            }
        } else {
            assert(after.drop_last() =~= before.drop_last());
            assert(after.last() == before.last().push(s.last()));
            assert(join(after, seq![sep]) =~= s);
            assert forall|i: int| 0 <= i < after.len() implies !(#[trigger] after[i]).contains(
                sep,
            ) by {
                assert(!before[i].contains(sep));
                if i == n && after[i].contains(sep) {
                    let k = choose|k: int| 0 <= k < after[i].len() && after[i][k] == sep;
                    if k < before[i].len() {
                        assert(before[i][k] == sep);
                    }
                }
            }
        }
    }
}

/// The entries of a comma separated list are its pieces which are not empty, in order.
pub proof fn law_csv(list: Seq<Seq<char>>, entry: Seq<char>)
    requires
        forall|i: int| 0 <= i < list.len() ==> !(#[trigger] list[i]).contains(','),
    ensures
        csv(None) == Seq::<Seq<char>>::empty(),
        !entry.contains(',') && entry.len() > 0 ==> csv(Some(entry)) == seq![entry],
        csv(Some(Seq::empty())) == Seq::<Seq<char>>::empty(),
        list.len() > 0 && !entry.contains(',') ==> csv(
            Some(join(list.push(entry), seq![','])),
        ) == csv(Some(join(list, seq![',']))) + csv(Some(entry)),
{
    reveal(Seq::filter);
    let keep = |s: Seq<char>| s.len() > 0;
    let none = Seq::<char>::empty();
    if !entry.contains(',') {
        lemma_split_join(seq![entry], ',');
        assert(join(seq![entry], seq![',']) == entry);
        assert(split(entry, ',') == seq![entry]);
        assert(seq![entry].drop_last() =~= Seq::empty());
        assert(seq![entry].drop_last().filter(keep) =~= Seq::empty());
        assert(nonempty(seq![entry]) =~= if entry.len() > 0 {
            seq![entry]
        } else {
            Seq::empty()
        });
    }
    assert(!none.contains(','));
    lemma_split_join(seq![none], ',');
    assert(join(seq![none], seq![',']) == none);
    assert(seq![none].drop_last() =~= Seq::empty());
    assert(seq![none].drop_last().filter(keep) =~= Seq::empty());
    assert(nonempty(seq![none]) =~= Seq::empty());
    if list.len() > 0 && !entry.contains(',') {
        let all = list.push(entry);
        lemma_split_join(list, ',');
        assert forall|i: int| 0 <= i < all.len() implies !(#[trigger] all[i]).contains(',') by {
            if i < list.len() {
                assert(all[i] == list[i]);
            }
        }
        lemma_split_join(all, ',');
        assert(all.drop_last() =~= list);
        assert(nonempty(all) =~= nonempty(list) + nonempty(seq![entry]));
    }
}

/// What is trimmed is the white space around a text, and all of it.
pub proof fn law_trim(before: Seq<char>, s: Seq<char>, after: Seq<char>)
    requires
        is_blank(before),
        is_blank(after),
        s.len() > 0 ==> !is_whitespace(s[0]) && !is_whitespace(s.last()),
    ensures
        trim(before + s + after) == s,
{
    lemma_trim_start(before, s + after);
    assert(before + s + after =~= before + (s + after));
    if s.len() > 0 {
        assert((s + after)[0] == s[0]);
        lemma_trim_end(s, after);
    } else {
        assert(s + after =~= after);
        assert(after + s =~= after);
        lemma_trim_start(after, s);
        assert(trim_start(s) =~= s);
        assert(trim_end(s) =~= s);
    }
}

proof fn lemma_trim_start(before: Seq<char>, s: Seq<char>)
    requires
        is_blank(before),
    ensures
        trim_start(before + s) == trim_start(s),
    decreases before.len(),
{
    if before.len() == 0 {
        assert(before + s =~= s);
    } else {
        let rest = before.drop_first();
        assert forall|i: int| 0 <= i < rest.len() implies is_whitespace(#[trigger] rest[i]) by {
            assert(rest[i] == before[i + 1]);
        }
        lemma_trim_start(rest, s);
        assert((before + s)[0] == before[0]);
        assert((before + s).drop_first() =~= rest + s);
    }
}

proof fn lemma_trim_end(s: Seq<char>, after: Seq<char>)
    requires
        is_blank(after),
    ensures
        trim_end(s + after) == trim_end(s),
    decreases after.len(),
{
    if after.len() == 0 {
        assert(s + after =~= s);
    } else {
        let rest = after.drop_last();
        assert forall|i: int| 0 <= i < rest.len() implies is_whitespace(#[trigger] rest[i]) by {
            assert(rest[i] == after[i]);
        }
        lemma_trim_end(s, rest);
        assert((s + after).last() == after[after.len() - 1]);
        assert((s + after).drop_last() =~= s + rest);
    }
}

/// A line ends with a line feed, which a carriage return may precede; what follows the last line
/// feed is a line if it is not empty.
pub proof fn law_lines(s: Seq<char>, line: Seq<char>)
    requires
        !line.contains('\n'),
        line.len() > 0 ==> line.last() != '\r',
        s.len() > 0 ==> s.last() == '\n',
    ensures
        lines(s + line + seq!['\n']) == lines(s).push(line),
        lines(s + line + seq!['\r', '\n']) == lines(s).push(line),
        line.len() > 0 ==> lines(s + line) == lines(s).push(line),
        lines(Seq::empty()) == Seq::<Seq<char>>::empty(),
{
    lemma_split_len(s, '\n');
    let parts = split(s, '\n');
    assert(parts.last().len() == 0);
    let none = Seq::<char>::empty();
    assert(split(none, '\n') =~= seq![none]);
    assert(lines(none) =~= Seq::empty());
    let cr = line.push('\r');
    assert(!cr.contains('\n')) by {
        if cr.contains('\n') {
            let k = choose|k: int| 0 <= k < cr.len() && cr[k] == '\n';
            if k < line.len() {
                assert(line[k] == '\n');
            }
        }
    }
    lemma_split_tail(s, line);
    lemma_split_tail(s, cr);
    let with_line = split(s + line, '\n');
    let with_cr = split(s + cr, '\n');
    let ended = (s + line).push('\n');
    let cr_ended = (s + cr).push('\n');
    assert(ended.drop_last() =~= s + line);
    assert(cr_ended.drop_last() =~= s + cr);
    assert(s + line + seq!['\n'] =~= ended);
    assert(s + line + seq!['\r', '\n'] =~= cr_ended);
    assert(split(ended, '\n') =~= with_line.push(none));
    assert(split(cr_ended, '\n') =~= with_cr.push(none));
    assert(with_line.push(none).drop_last() =~= with_line);
    assert(with_cr.push(none).drop_last() =~= with_cr);
    assert(with_line.drop_last() =~= parts.drop_last());
    assert(with_cr.drop_last() =~= parts.drop_last());
    assert(with_line.last() == line);
    assert(with_cr.last() == cr);
    assert(cr.drop_last() =~= line);
    assert(lines(ended) =~= lines(s).push(line));
    assert(lines(cr_ended) =~= lines(s).push(line));
    if line.len() > 0 {
        assert(lines(s + line) =~= lines(s).push(line));
    }
}

proof fn lemma_split_tail(s: Seq<char>, b: Seq<char>)
    requires
        !b.contains('\n'),
        s.len() > 0 ==> s.last() == '\n',
    ensures
        split(s + b, '\n') == split(s, '\n').drop_last().push(b),
        split(s, '\n').len() >= 1,
        split(s, '\n').last().len() == 0,
    decreases b.len(),
{
    lemma_split_len(s, '\n');
    let parts = split(s, '\n');
    if b.len() == 0 {
        assert(s + b =~= s);
        assert(parts.last() =~= b);
        assert(parts =~= parts.drop_last().push(b));
    } else {
        let init = b.drop_last();
        assert(!init.contains('\n')) by {
            if init.contains('\n') {
                let k = choose|k: int| 0 <= k < init.len() && init[k] == '\n';
                assert(b[k] == '\n');
            }
        }
        lemma_split_tail(s, init);
        assert(b[b.len() - 1] != '\n');
        assert((s + b).drop_last() =~= s + init);
        assert((s + b).last() == b.last());
        assert(init.push(b.last()) =~= b);
        assert(split(s + b, '\n') =~= parts.drop_last().push(b));
    }
}

/// A number is written as its digits, and read from them, with a plus sign or without; leading
/// zeros do not matter, and nothing else is a number.
pub proof fn law_numbers(n: u64, s: Seq<char>)
    ensures
        parse_u64(decimal(n as nat)) == Some(n),
        parse_u64(seq!['+'] + decimal(n as nat)) == Some(n),
        parse_u64(seq!['0'] + decimal(n as nat)) == Some(n),
        parse_u64(s) is Some ==> s.len() > 0 && (is_digit(s[0]) || s[0] == '+'),
        parse_u64(s) is Some ==> forall|i: int| 0 < i < s.len() ==> is_digit(#[trigger] s[i]),
        n >= 10 ==> decimal(n as nat)[0] != '0',
{
    let d = decimal(n as nat);
    lemma_decimal(n as nat);
    lemma_leading(n as nat);
    assert(d[0] != '+') by {
        assert(is_digit(d[0]));
    }
    assert((seq!['+'] + d).skip(1) =~= d);
    let zero = seq!['0'] + d;
    assert forall|i: int| 0 <= i < zero.len() implies is_digit(#[trigger] zero[i]) by {
        if i > 0 {
            assert(zero[i] == d[i - 1]);
        }
    }
    lemma_leading_zero(d);
    if parse_u64(s) is Some {
        if s[0] == '+' {
            assert forall|i: int| 0 < i < s.len() implies is_digit(#[trigger] s[i]) by {
                assert(s.skip(1)[i - 1] == s[i]);
            }
        }
    }
}

proof fn lemma_leading(n: nat)
    ensures
        n > 0 ==> decimal(n)[0] != '0',
        decimal(n).len() > 0,
    decreases n,
{
    if n >= 10 {
        lemma_leading(n / 10);
    }
}

proof fn lemma_leading_zero(d: Seq<char>)
    ensures
        digits_value(seq!['0'] + d) == digits_value(d),
    decreases d.len(),
{
    let all = seq!['0'] + d;
    if d.len() == 0 {
        assert(all.drop_last() =~= Seq::empty());
        assert(digits_value(all.drop_last()) == 0);
    } else {
        lemma_leading_zero(d.drop_last());
        assert(all.drop_last() =~= seq!['0'] + d.drop_last());
        assert(all.last() == d.last());
    }
}

/// The digits of a number are those of all but its last digit, and then the last.
pub proof fn law_digits(s: Seq<char>, c: char)
    requires
        is_digit(c),
    ensures
        digits_value(s.push(c)) == digits_value(s) * 10 + (c as u32 - '0' as u32),
        digits_value(Seq::empty()) == 0,
{
    assert(s.push(c).drop_last() =~= s);
}

/// Texts are ordered by their first difference, a prefix before what it is a prefix of.
pub proof fn law_text_order(common: Seq<char>, a: Seq<char>, b: Seq<char>)
    requires
        b.len() > 0,
        a.len() > 0 ==> a[0] < b[0],
    ensures
        text_lt(common + a, common + b),
        !text_lt(common + b, common + a),
    decreases common.len(),
{
    if common.len() == 0 {
        assert(common + a =~= a);
        assert(common + b =~= b);
    } else {
        law_text_order(common.drop_first(), a, b);
        assert((common + a).drop_first() =~= common.drop_first() + a);
        assert((common + b).drop_first() =~= common.drop_first() + b);
    }
    lemma_lt_total(common + a, common + b);
}

/// Only the upper case letters of a text change when it is put in lower case.
pub proof fn law_ascii_lower(s: Seq<char>)
    ensures
        ascii_lower(s).len() == s.len(),
        forall|i: int|
            0 <= i < s.len() ==> (if 'A' <= s[i] <= 'Z' {
                (#[trigger] ascii_lower(s)[i]) as u32 == s[i] as u32 + 32
            } else {
                ascii_lower(s)[i] == s[i]
            }),
{
}

} // verus!
