//! Reading what was written: the tab-separated output of the commands, and the properties which
//! are passed to them.
use vstd::prelude::*;
use crate::cli::{
    distinct_names, lemma_distinct_names, lemma_first_control, lemma_position, position_of,
    props_of_rows, refusal, rows_of, rows_of_lines, source_of, CmdView, DsPropsView, PropSource,
};
use crate::error::ErrorView;
use crate::property::PropertyView;
use crate::text::chars::{control_free, is_control};
use crate::text::split::{
    join, lemma_join_free, lemma_join_len, lemma_nonempty_all, lemma_split_join, lines, split,
    strip_cr,
};

verus! {

/// The lines of rows: the cells of each, separated by tabs.
pub open spec fn row_lines(rows: Seq<Seq<Seq<char>>>) -> Seq<Seq<char>> {
    rows.map_values(|row: Seq<Seq<char>>| join(row, seq!['\t']))
}

/// The -Hp output which reports rows: their lines, each ended by a line feed.
pub open spec fn render_rows(rows: Seq<Seq<Seq<char>>>) -> Seq<char> {
    join(row_lines(rows).push(Seq::empty()), seq!['\n'])
}

/// Every row has the given number of cells, and no cell holds a control character.
pub open spec fn clean_rows(rows: Seq<Seq<Seq<char>>>, ncols: nat) -> bool {
    &&& forall|i: int| 0 <= i < rows.len() ==> (#[trigger] rows[i]).len() == ncols
    &&& forall|i: int, j: int|
        0 <= i < rows.len() && 0 <= j < rows[i].len() ==> control_free(#[trigger] rows[i][j])
}

/// A text without control characters holds none of them in particular.
proof fn lemma_free_of(s: Seq<char>, c: char)
    requires
        control_free(s),
        is_control(c),
    ensures
        !s.contains(c),
{
    if s.contains(c) {
        let k = choose|k: int| 0 <= k < s.len() && s[k] == c;
        assert(!is_control(s[k]));
    }
}

proof fn lemma_clean_line(row: Seq<Seq<char>>)
    requires
        row.len() > 1 || (row.len() == 1 && row[0].len() > 0),
        forall|j: int| 0 <= j < row.len() ==> control_free(#[trigger] row[j]),
    ensures
        split(join(row, seq!['\t']), '\t') == row,
        !join(row, seq!['\t']).contains('\n'),
        !join(row, seq!['\t']).contains('\r'),
        join(row, seq!['\t']).len() > 0,
{
    assert forall|j: int| 0 <= j < row.len() implies !(#[trigger] row[j]).contains('\t') by {
        lemma_free_of(row[j], '\t');
    }
    assert forall|j: int| 0 <= j < row.len() implies !(#[trigger] row[j]).contains('\n') by {
        lemma_free_of(row[j], '\n');
    }
    assert forall|j: int| 0 <= j < row.len() implies !(#[trigger] row[j]).contains('\r') by {
        lemma_free_of(row[j], '\r');
    }
    lemma_split_join(row, '\t');
    lemma_join_free(row, seq!['\t'], '\n');
    lemma_join_free(row, seq!['\t'], '\r');
    lemma_join_len(row, seq!['\t']);
    assert((row.len() - 1) * 1 == row.len() - 1);
}

proof fn lemma_rows_of_clean_lines(command: Seq<char>, rows: Seq<Seq<Seq<char>>>, ncols: nat)
    requires
        clean_rows(rows, ncols),
        ncols > 1 || (ncols == 1 && forall|i: int|
            0 <= i < rows.len() ==> (#[trigger] rows[i])[0].len() > 0),
    ensures
        rows_of_lines(command, row_lines(rows), ncols) == Ok::<Seq<Seq<Seq<char>>>, ErrorView>(
            rows,
        ),
    decreases rows.len(),
{
    if rows.len() > 0 {
        let init = rows.drop_last();
        assert forall|i: int| 0 <= i < init.len() implies (#[trigger] init[i]).len() == ncols by {
            assert(init[i] == rows[i]);
        }
        assert forall|i: int, j: int| 0 <= i < init.len() && 0 <= j < init[i].len() implies
            control_free(#[trigger] init[i][j]) by {
            assert(init[i] == rows[i]);
        }
        if ncols == 1 {
            assert forall|i: int| 0 <= i < init.len() implies (#[trigger] init[i])[0].len() > 0 by {
                assert(init[i] == rows[i]);
            }
        }
        lemma_rows_of_clean_lines(command, init, ncols);
        assert(row_lines(rows).drop_last() =~= row_lines(init));
        let last = rows.last();
        assert(last == rows[rows.len() - 1]);
        assert forall|j: int| 0 <= j < last.len() implies control_free(#[trigger] last[j]) by {
            assert(control_free(rows[rows.len() - 1][j]));
        }
        lemma_clean_line(last);
        assert(row_lines(rows).last() == join(last, seq!['\t']));
        assert(init.push(last) =~= rows);
    } else {
        assert(row_lines(rows).len() == 0);
        assert(rows =~= Seq::empty());
    }
}

/// Reading the output which reports rows gives the rows back, as long as no cell holds a control
/// character; a row of a single cell must not be empty.
pub proof fn law_rows_round_trip(command: Seq<char>, rows: Seq<Seq<Seq<char>>>, ncols: nat)
    requires
        clean_rows(rows, ncols),
        ncols > 1 || (ncols == 1 && forall|i: int|
            0 <= i < rows.len() ==> (#[trigger] rows[i])[0].len() > 0),
    ensures
        rows_of(command, render_rows(rows), ncols) == Ok::<Seq<Seq<Seq<char>>>, ErrorView>(rows),
{
    let list = row_lines(rows);
    let parts = list.push(Seq::empty());
    assert forall|i: int| 0 <= i < list.len() implies !(#[trigger] list[i]).contains('\n')
        && !list[i].contains('\r') && list[i].len() > 0 by {
        let row = rows[i];
        assert forall|j: int| 0 <= j < row.len() implies control_free(#[trigger] row[j]) by {
            assert(control_free(rows[i][j]));
        }
        lemma_clean_line(row);
    }
    assert forall|i: int| 0 <= i < parts.len() implies !(#[trigger] parts[i]).contains('\n') by {
        if i < list.len() {
            assert(parts[i] == list[i]);
        }
    }
    lemma_split_join(parts, '\n');
    let output = render_rows(rows);
    assert(split(output, '\n') == parts);
    let ended = parts.drop_last().map_values(|p: Seq<char>| strip_cr(p));
    assert forall|i: int| 0 <= i < list.len() implies ended[i] == list[i] by {
        assert(parts.drop_last()[i] == list[i]);
        if list[i].last() == '\r' {
            assert(list[i][list[i].len() - 1] == '\r');
        }
    }
    assert(ended =~= list);
    assert(lines(output) == list);
    lemma_nonempty_all(list);
    lemma_rows_of_clean_lines(command, rows, ncols);
}

/// The value and source of the last row which reports the property of the dataset.
pub open spec fn reported(
    rows: Seq<Seq<Seq<char>>>,
    name: Seq<char>,
    key: Seq<char>,
) -> Option<(Seq<char>, PropSource)>
    decreases rows.len(),
{
    if rows.len() == 0 {
        None
    } else {
        let row = rows.last();
        if row[0] == name && row[1] == key {
            Some((row[2], source_of(row[3])))
        } else {
            reported(rows.drop_last(), name, key)
        }
    }
}

/// The value and source of the property of the dataset with the given name.
pub open spec fn held(
    list: Seq<DsPropsView>,
    name: Seq<char>,
    key: Seq<char>,
) -> Option<(Seq<char>, PropSource)> {
    let at = position_of(list, name);
    if at < list.len() && list[at].props.contains_key(key) {
        Some(list[at].props[key])
    } else {
        None
    }
}

/// The position of a dataset is where its name is, as long as names are distinct.
proof fn lemma_position_is(list: Seq<DsPropsView>, name: Seq<char>, at: int)
    requires
        distinct_names(list),
        0 <= at < list.len(),
        list[at].name == name,
    ensures
        position_of(list, name) == at,
{
    lemma_position(list, name);
    let p = position_of(list, name);
    if p < at {
        assert(list[p].name != list[at].name);
    } else if p > at {
        assert(list[at].name != name);
    }
}

/// Each property of each dataset is decoded as the output reports it, whichever way the rows are
/// grouped, and no dataset occurs twice.
pub proof fn law_props_decoded(rows: Seq<Seq<Seq<char>>>, name: Seq<char>, key: Seq<char>)
    ensures
        held(props_of_rows(rows), name, key) == reported(rows, name, key),
        distinct_names(props_of_rows(rows)),
    decreases rows.len(),
{
    lemma_distinct_names(rows);
    if rows.len() > 0 {
        let before = props_of_rows(rows.drop_last());
        let after = props_of_rows(rows);
        let row = rows.last();
        law_props_decoded(rows.drop_last(), name, key);
        lemma_position(before, row[0]);
        lemma_position(before, name);
        lemma_position(after, name);
        let at = position_of(before, row[0]);
        let p = position_of(before, name);
        if row[0] == name {
            lemma_position_is(after, name, at);
        } else if p < before.len() {
            assert(after[p].name == name);
            lemma_position_is(after, name, p);
        } else {
            let q = position_of(after, name);
            if q < after.len() && q < before.len() {
                assert(before[q].name == name);
            }
        }
    }
}

/// A command with properties runs only if none of their values holds a control character; else
/// the first which does stops it.
pub proof fn law_props_validated(cmd: CmdView, properties: Seq<PropertyView>)
    requires
        cmd.deferred is None,
    ensures
        cmd.with_props(properties).deferred is None <==> forall|i: int|
            0 <= i < properties.len() ==> refusal(#[trigger] properties[i]) is None,
        forall|i: int|
            0 <= i < properties.len() && refusal(#[trigger] properties[i]) is Some && (forall|j: int|
                0 <= j < i ==> refusal(#[trigger] properties[j]) is None)
                ==> cmd.with_props(properties).deferred == refusal(properties[i]),
    decreases properties.len(),
{
    if properties.len() > 0 {
        let init = properties.drop_last();
        law_props_validated(cmd, init);
        assert forall|i: int| 0 <= i < init.len() implies init[i] == #[trigger] properties[i] by {}
        assert(properties[properties.len() - 1] == properties.last());
        let all = forall|i: int| 0 <= i < init.len() ==> refusal(#[trigger] init[i]) is None;
        if all {
            assert forall|i: int| 0 <= i < init.len() implies refusal(#[trigger] properties[i])
                is None by {
                assert(init[i] == properties[i]);
            }
        } else {
            let k = choose|k: int| 0 <= k < init.len() && refusal(#[trigger] init[k]) is Some;
            assert(refusal(properties[k]) is Some);
            assert forall|i: int|
                0 <= i < properties.len() && refusal(#[trigger] properties[i]) is Some && (forall|
                    j: int,
                |
                    0 <= j < i ==> refusal(#[trigger] properties[j]) is None) implies cmd.with_props(
                properties,
            ).deferred == refusal(properties[i]) by {
                assert(i <= k);
                assert(init[i] == properties[i]);
                assert forall|j: int| 0 <= j < i implies refusal(#[trigger] init[j]) is None by {
                    assert(init[j] == properties[j]);
                }
            }
        }
    }
}

/// A command which sets properties runs only if none of their values holds a control character;
/// else the first which does stops it.
pub proof fn law_settings_validated(cmd: CmdView, properties: Seq<PropertyView>)
    requires
        cmd.deferred is None,
    ensures
        cmd.set_props(properties).deferred is None <==> forall|i: int|
            0 <= i < properties.len() ==> refusal(#[trigger] properties[i]) is None,
        forall|i: int|
            0 <= i < properties.len() && refusal(#[trigger] properties[i]) is Some && (forall|j: int|
                0 <= j < i ==> refusal(#[trigger] properties[j]) is None)
                ==> cmd.set_props(properties).deferred == refusal(properties[i]),
    decreases properties.len(),
{
    if properties.len() > 0 {
        let init = properties.drop_last();
        law_settings_validated(cmd, init);
        assert forall|i: int| 0 <= i < init.len() implies init[i] == #[trigger] properties[i] by {}
        assert(properties[properties.len() - 1] == properties.last());
        let all = forall|i: int| 0 <= i < init.len() ==> refusal(#[trigger] init[i]) is None;
        if all {
            assert forall|i: int| 0 <= i < init.len() implies refusal(#[trigger] properties[i])
                is None by {
                assert(init[i] == properties[i]);
            }
        } else {
            let k = choose|k: int| 0 <= k < init.len() && refusal(#[trigger] init[k]) is Some;
            assert(refusal(properties[k]) is Some);
            assert forall|i: int|
                0 <= i < properties.len() && refusal(#[trigger] properties[i]) is Some && (forall|
                    j: int,
                |
                    0 <= j < i ==> refusal(#[trigger] properties[j]) is None) implies cmd.set_props(
                properties,
            ).deferred == refusal(properties[i]) by {
                assert(i <= k);
                assert(init[i] == properties[i]);
                assert forall|j: int| 0 <= j < i implies refusal(#[trigger] init[j]) is None by {
                    assert(init[j] == properties[j]);
                }
            }
        }
    }
}

/// The value of a property is refused exactly where it holds a control character.
pub proof fn law_refusal(property: PropertyView)
    ensures
        refusal(property) is Some <==> (property.value() matches Some(value) && !control_free(
            value,
        )),
{
    if let Some(value) = property.value() {
        lemma_first_control(value);
    }
}

} // verus!
