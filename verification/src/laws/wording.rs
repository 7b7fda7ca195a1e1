//! The words in which queries and failures to read are told.
use vstd::prelude::*;
use crate::cli::{first_control, refusal, rows_of_lines, ZfsQueryArgs};
use crate::engine::Protocol;
use crate::error::ErrorView;
use crate::laws::arguments::written;
use crate::laws::decoding::{has_columns, law_lines_decoded};
use crate::property::PropertyView;
use crate::snapshot::SnapQueryArgs;
use crate::text::chars::{control_free, is_control};
use crate::text::decimal::{decimal, digit_char};
use crate::text::search::{occurs_at, trim_end_pattern};
use crate::text::split::split;
use crate::zvol_replica::VolQueryArgs;

verus! {

/// The text is free of a comma at its end.
pub open spec fn ends_plain(text: Seq<char>) -> bool {
    text.len() > 0 ==> text.last() != ','
}

proof fn lemma_trim_comma(text: Seq<char>)
    requires
        ends_plain(text),
    ensures
        trim_end_pattern(text, ","@) == text,
        trim_end_pattern(text + ","@, ","@) == text,
{
    reveal_strlit(",");
    assert(","@ =~= seq![',']);
    let more = text + ","@;
    assert(more.subrange(more.len() - 1, more.len() as int) =~= ","@);
    assert(more.take(more.len() - 1) =~= text);
    if text.len() > 0 {
        assert(text.subrange(text.len() - 1, text.len() as int)[0] == text.last());
    }
    assert(!occurs_at(text, ","@, text.len() - 1));
    assert(trim_end_pattern(text, ","@) == text);
    assert(occurs_at(more, ","@, more.len() - 1));
    assert(","@.len() == 1);
    assert(trim_end_pattern(more, ","@) == trim_end_pattern(more.take(more.len() - 1), ","@));
}

/// A query is told by the name and the uuid that it asks for, as far as it does.
pub proof fn law_query_text(query: ZfsQueryArgs, text: String)
    requires
        call_ensures(ZfsQueryArgs::query, (&query,), text),
        query.name is Some ==> ends_plain(query.name->0@),
        query.uuid is Some ==> ends_plain(query.uuid->0@),
    ensures
        query.name is Some && query.uuid is Some ==> text@ == "name="@ + query.name->0@ + ",uuid="@
            + query.uuid->0@,
        query.name is Some && query.uuid is None ==> text@ == "name="@ + query.name->0@,
        query.name is None && query.uuid is Some ==> text@ == "uuid="@ + query.uuid->0@,
        query.name is None && query.uuid is None ==> text@.len() == 0,
{
    reveal_strlit("name=");
    reveal_strlit("uuid=");
    reveal_strlit(",uuid=");
    reveal_strlit(",");
    let none = Seq::<char>::empty();
    assert(","@ + "uuid="@ =~= ",uuid="@);
    if query.name is Some && query.uuid is Some {
        let whole = "name="@ + query.name->0@ + ",uuid="@ + query.uuid->0@;
        assert(whole.last() == if query.uuid->0@.len() > 0 {
            query.uuid->0@.last()
        } else {
            '='
        });
        lemma_trim_comma(whole);
        assert("name="@ + query.name->0@ + ","@ + ("uuid="@ + query.uuid->0@ + ","@) =~= whole
            + ","@);
    } else if query.name is Some {
        let whole = "name="@ + query.name->0@;
        assert(whole.last() == if query.name->0@.len() > 0 {
            query.name->0@.last()
        } else {
            '='
        });
        lemma_trim_comma(whole);
        assert(whole + ","@ + none =~= whole + ","@);
    } else if query.uuid is Some {
        let whole = "uuid="@ + query.uuid->0@;
        assert(whole.last() == if query.uuid->0@.len() > 0 {
            query.uuid->0@.last()
        } else {
            '='
        });
        lemma_trim_comma(whole);
        assert(none + (whole + ","@) =~= whole + ","@);
    } else {
        lemma_trim_comma(none);
        assert(none + none =~= none);
    }
}

/// A query for replicas is told by what it asks of them and of their pools, one for snapshots by
/// their uuid and by that of their source.
pub proof fn law_query_texts(
    vols: VolQueryArgs,
    vol: String,
    pool: String,
    text: String,
    snaps: SnapQueryArgs,
    told: String,
)
    requires
        call_ensures(ZfsQueryArgs::query, (&vols.vol,), vol),
        call_ensures(ZfsQueryArgs::query, (&vols.pool,), pool),
        call_ensures(VolQueryArgs::query, (&vols,), text),
        call_ensures(SnapQueryArgs::query, (&snaps,), told),
    ensures
        text@ == "vol("@ + vol@ + "),pool("@ + pool@ + ")"@,
        ({
            let uuid = match snaps.uuid {
                Some(uuid) => uuid@,
                None => Seq::empty(),
            };
            let source = match snaps.source_uuid {
                Some(source) => source@,
                None => Seq::empty(),
            };
            told@ == "uuid="@ + uuid + ",source="@ + source
        }),
{
}

/// Output which cannot be read names the first line which has not as many columns as expected.
pub proof fn law_bad_line(
    command: Seq<char>,
    good: Seq<Seq<char>>,
    bad: Seq<char>,
    rest: Seq<Seq<char>>,
    ncols: nat,
)
    requires
        forall|i: int| 0 <= i < good.len() ==> #[trigger] has_columns(good[i], ncols),
        !has_columns(bad, ncols),
    ensures
        rows_of_lines(command, good.push(bad) + rest, ncols) == Err::<
            Seq<Seq<Seq<char>>>,
            ErrorView,
        >(
            ErrorView::OutputParsing {
                command,
                error: "expected "@ + decimal(ncols) + " columns, got "@ + decimal(
                    split(bad, '\t').len(),
                ) + ": '"@ + bad + "'"@,
            },
        ),
    decreases rest.len(),
{
    let all = good.push(bad) + rest;
    law_lines_decoded(command, good, ncols);
    if rest.len() == 0 {
        assert(all =~= good.push(bad));
        assert(all.drop_last() =~= good);
    } else {
        law_bad_line(command, good, bad, rest.drop_last(), ncols);
        assert(all.drop_last() =~= good.push(bad) + rest.drop_last());
    }
}

/// A property whose value holds a control character is refused by its key, and the first such
/// character is told by its two hexadecimal digits.
pub proof fn law_refusal_text(property: PropertyView, before: Seq<char>, bad: char, after: Seq<char>)
    requires
        !(property is Zfs),
        written(property).1 == before.push(bad) + after,
        control_free(before),
        is_control(bad),
        property matches PropertyView::Share(_) ==> false,
        property matches PropertyView::Discarded(_) ==> false,
        property matches PropertyView::PoolVolBlockSize(_) ==> false,
    ensures
        refusal(property) == Some(
            ErrorView::InvalidPropertyValue {
                key: written(property).0,
                error: "value contains a control character (0x"@ + seq![
                    digit_char((bad as u32 as nat) / 16),
                    digit_char((bad as u32 as nat) % 16),
                ] + ")"@,
            },
        ),
{
    lemma_first_bad(before, bad, after);
}

proof fn lemma_first_bad(before: Seq<char>, bad: char, after: Seq<char>)
    requires
        control_free(before),
        is_control(bad),
    ensures
        first_control(before.push(bad) + after) == Some(bad),
    decreases before.len(),
{
    let all = before.push(bad) + after;
    if before.len() > 0 {
        let rest = before.drop_first();
        assert forall|i: int| 0 <= i < rest.len() implies !is_control(#[trigger] rest[i]) by {
            assert(rest[i] == before[i + 1]);
        }
        lemma_first_bad(rest, bad, after);
        assert(all.drop_first() =~= rest.push(bad) + after);
        assert(all[0] == before[0]);
    } else {
        assert(all[0] == bad);
    }
}

/// The hexadecimal digits.
pub proof fn law_hex_digits(n: nat)
    ensures
        n < 10 ==> digit_char(n) as u32 == 48 + n,
        10 <= n < 16 ==> digit_char(n) as u32 == 87 + n,
{
}

/// A volume is not shared unless it is told to be.
pub proof fn law_default_protocol(protocol: Protocol)
    requires
        call_ensures(<Protocol as Default>::default, (), protocol),
    ensures
        protocol == Protocol::Off,
{
}

} // verus!
