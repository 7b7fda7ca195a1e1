//! Reading what the commands report.
use vstd::prelude::*;
use crate::cli::{
    pairs_of, props_of, props_of_rows, rows_of_lines, source_of, DsPropsView, PropSource,
};
use crate::laws::inventory::lemma_first_named;
use crate::laws::output::{clean_rows, law_rows_round_trip, render_rows};
use crate::text::split::split;

verus! {

/// The line has as many columns as are expected.
pub open spec fn has_columns(line: Seq<char>, ncols: nat) -> bool {
    split(line, '\t').len() == ncols
}

/// Lines are decoded only if each of them has as many columns as are expected; each of them is then
/// one row, in order.
pub proof fn law_lines_decoded(command: Seq<char>, lines: Seq<Seq<char>>, ncols: nat)
    ensures
        rows_of_lines(command, lines, ncols) is Ok <==> forall|i: int|
            0 <= i < lines.len() ==> #[trigger] has_columns(lines[i], ncols),
        rows_of_lines(command, lines, ncols) matches Ok(rows) ==> rows.len() == lines.len()
            && forall|i: int|
            0 <= i < lines.len() ==> #[trigger] rows[i] == split(lines[i], '\t'),
        rows_of_lines(command, lines, ncols) matches Err(error) ==> error is OutputParsing
            && error->OutputParsing_command == command,
    decreases lines.len(),
{
    if lines.len() > 0 {
        let init = lines.drop_last();
        law_lines_decoded(command, init, ncols);
        assert forall|i: int| 0 <= i < init.len() implies init[i] == #[trigger] lines[i] by {}
        assert(lines[lines.len() - 1] == lines.last());
        if rows_of_lines(command, init, ncols) is Err {
            let k = choose|k: int|
                0 <= k < init.len() && !#[trigger] has_columns(init[k], ncols);
            assert(!has_columns(lines[k], ncols));
        } else {
            assert forall|i: int| 0 <= i < init.len() implies #[trigger] has_columns(
                lines[i],
                ncols,
            ) by {
                assert(has_columns(init[i], ncols));
            }
            assert(has_columns(lines.last(), ncols) == has_columns(
                lines[lines.len() - 1],
                ncols,
            ));
        }
    }
}

/// The rows of two columns which are reported are read as pairs, all of them and in order.
pub proof fn law_pairs_decoded(command: Seq<char>, rows: Seq<Seq<Seq<char>>>)
    requires
        clean_rows(rows, 2),
    ensures
        pairs_of(command, render_rows(rows)) is Ok,
        ({
            let pairs = pairs_of(command, render_rows(rows))->Ok_0;
            pairs.len() == rows.len() && forall|i: int|
                0 <= i < rows.len() ==> #[trigger] pairs[i] == (rows[i][0], rows[i][1])
        }),
{
    law_rows_round_trip(command, rows, 2);
}

/// The source of a property is read off its name.
pub proof fn law_sources(source: Seq<char>)
    ensures
        source_of(source) == PropSource::Local <==> source == "local"@,
        source_of(source) == PropSource::Default <==> source == "default"@,
        source_of(source) == PropSource::Received <==> source == "received"@,
        source_of(source) == PropSource::Inherited <==> (source.len() >= 9 && source.take(9)
            == "inherited"@),
{
    reveal_strlit("local");
    reveal_strlit("default");
    reveal_strlit("received");
    reveal_strlit("inherited");
    assert("local"@.len() == 5);
    assert("default"@.len() == 7);
    assert("received"@.len() == 8);
    assert("inherited"@.len() == 9);
    assert("local"@[0] == 'l');
}

/// The rows of four columns which are reported are read one after the other: each sets the property
/// of its dataset, and leaves every other property and dataset as it is. A dataset that was not
/// reported before comes last.
pub proof fn law_row_decoded(
    command: Seq<char>,
    rows: Seq<Seq<Seq<char>>>,
    row: Seq<Seq<char>>,
    list: Seq<DsPropsView>,
    at: int,
)
    requires
        clean_rows(rows.push(row), 4),
        list == props_of_rows(rows),
        0 <= at <= list.len(),
        at < list.len() ==> list[at].name == row[0],
        forall|i: int| 0 <= i < at ==> (#[trigger] list[i]).name != row[0],
    ensures
        props_of(command, render_rows(rows.push(row))) is Ok,
        ({
            let after = props_of(command, render_rows(rows.push(row)))->Ok_0;
            let value = (row[2], source_of(row[3]));
            &&& at == list.len() ==> after == list.push(
                DsPropsView { name: row[0], props: Map::empty().insert(row[1], value) },
            )
            &&& at < list.len() ==> after == list.update(
                at,
                DsPropsView { name: row[0], props: list[at].props.insert(row[1], value) },
            )
        }),
{
    law_rows_round_trip(command, rows.push(row), 4);
    assert(rows.push(row).drop_last() =~= rows);
    lemma_first_named(list, row[0], at);
}

} // verus!
