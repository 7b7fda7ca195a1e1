//! The arguments of the commands which are run.
use vstd::prelude::*;
use crate::cli::{refusal, CmdView};
use crate::engine::Protocol;
use crate::flow::share::set_cmd;
use crate::laws::output::law_refusal;
use crate::property::PropertyView;
use crate::text::chars::control_free;
use crate::text::decimal::decimal;
use crate::text::split::join;

verus! {

/// Options of a command: "-o" and key=value for each of them, in order.
pub open spec fn option_args(pairs: Seq<(Seq<char>, Seq<char>)>) -> Seq<Seq<char>> {
    Seq::new(
        2 * pairs.len(),
        |i: int|
            if i % 2 == 0 {
                "-o"@
            } else {
                pairs[i / 2].0 + "="@ + pairs[i / 2].1
            },
    )
}

/// Settings of a command: key=value for each of them, in order.
pub open spec fn setting_args(pairs: Seq<(Seq<char>, Seq<char>)>) -> Seq<Seq<char>> {
    Seq::new(pairs.len(), |i: int| pairs[i].0 + "="@ + pairs[i].1)
}

/// The user property which persists something, and its value.
pub open spec fn written(property: PropertyView) -> (Seq<char>, Seq<char>) {
    match property {
        PropertyView::Zfs => ("io.mayastor"@, Seq::empty()),
        PropertyView::PoolUuid(v) => ("io.mayastor:pool"@, v),
        PropertyView::PoolDisks(v) => ("io.mayastor:disks"@, v),
        PropertyView::PoolVolBlockSize(v) => ("io.mayastor:volblocksize"@, decimal(v as nat)),
        PropertyView::VolUuid(v) => ("io.mayastor:uuid"@, v),
        PropertyView::Name(v) => ("io.mayastor:name"@, v),
        PropertyView::Share(Protocol::Nvmf) => ("io.mayastor:share"@, "nvmf"@),
        PropertyView::Share(Protocol::Off) => ("io.mayastor:share"@, "off"@),
        PropertyView::AllowedHosts(v) => ("io.mayastor:allowed_hosts"@, join(v, ","@)),
        PropertyView::EntityId(v) => ("io.mayastor:entity_id"@, v),
        PropertyView::SnapshotUuid(v) => ("io.mayastor:snapshot_uuid"@, v),
        PropertyView::ParentId(v) => ("io.mayastor:parent_id"@, v),
        PropertyView::TxnId(v) => ("io.mayastor:txn_id"@, v),
        PropertyView::CreateTime(v) => ("io.mayastor:create_time"@, v),
        PropertyView::Discarded(true) => ("io.mayastor:discarded"@, "true"@),
        PropertyView::Discarded(false) => ("io.mayastor:discarded"@, "false"@),
        PropertyView::Unknown(key, value) => (key, value),
    }
}

/// The user properties which persist something, and their values.
pub open spec fn all_written(properties: Seq<PropertyView>) -> Seq<(Seq<char>, Seq<char>)> {
    properties.map_values(|p: PropertyView| written(p))
}

/// No value holds a control character, and none is the mere mark of ours.
pub open spec fn writable(properties: Seq<PropertyView>) -> bool {
    forall|i: int|
        0 <= i < properties.len() ==> control_free(written(#[trigger] properties[i]).1)
            && !(properties[i] is Zfs)
}

proof fn lemma_written(property: PropertyView)
    requires
        !(property is Zfs),
    ensures
        property.key() == written(property).0,
        property.value() == Some(written(property).1),
        property.set_arg() == written(property).0 + "="@ + written(property).1,
        refusal(property) is None <==> control_free(written(property).1),
{
    law_refusal(property);
}

proof fn lemma_option_push(pairs: Seq<(Seq<char>, Seq<char>)>)
    requires
        pairs.len() > 0,
    ensures
        option_args(pairs) == option_args(pairs.drop_last()) + seq![
            "-o"@,
            pairs.last().0 + "="@ + pairs.last().1,
        ],
        setting_args(pairs) == setting_args(pairs.drop_last()).push(
            pairs.last().0 + "="@ + pairs.last().1,
        ),
{
    let init = pairs.drop_last();
    let all = option_args(pairs);
    let parts = option_args(init) + seq!["-o"@, pairs.last().0 + "="@ + pairs.last().1];
    assert(all.len() == parts.len());
    assert forall|i: int| 0 <= i < all.len() implies all[i] == parts[i] by {
        if i < 2 * init.len() {
            assert(0 <= i / 2 < init.len());
            assert(pairs[i / 2] == init[i / 2]);
        } else if i == 2 * init.len() {
            assert(i % 2 == 0);
        } else {
            assert(i % 2 == 1 && i / 2 == init.len());
        }
    }
    assert(all =~= parts);
    assert(setting_args(pairs) =~= setting_args(init).push(
        pairs.last().0 + "="@ + pairs.last().1,
    ));
}

/// Each option of a request becomes an argument of the command, in order, after the arguments it
/// has already; nothing else changes.
pub proof fn law_pairs_appended(cmd: CmdView, pairs: Seq<(Seq<char>, Seq<char>)>)
    ensures
        cmd.with_pairs(pairs) == (CmdView { argv: cmd.argv + option_args(pairs), ..cmd }),
    decreases pairs.len(),
{
    if pairs.len() == 0 {
        assert(cmd.argv + option_args(pairs) =~= cmd.argv);
    } else {
        law_pairs_appended(cmd, pairs.drop_last());
        lemma_option_push(pairs);
        assert(cmd.with_pairs(pairs).argv =~= cmd.argv + option_args(pairs));
    }
}

/// Each property becomes an option of the command, in order, after the arguments it has already;
/// nothing else changes.
pub proof fn law_props_appended(cmd: CmdView, properties: Seq<PropertyView>)
    requires
        writable(properties),
    ensures
        cmd.with_props(properties) == (CmdView {
            argv: cmd.argv + option_args(all_written(properties)),
            ..cmd
        }),
    decreases properties.len(),
{
    let pairs = all_written(properties);
    if properties.len() == 0 {
        assert(cmd.argv + option_args(pairs) =~= cmd.argv);
    } else {
        let init = properties.drop_last();
        assert forall|i: int| 0 <= i < init.len() implies control_free(
            written(#[trigger] init[i]).1,
        ) && !(init[i] is Zfs) by {
            assert(init[i] == properties[i]);
        }
        law_props_appended(cmd, init);
        assert(all_written(init) =~= pairs.drop_last());
        assert(properties[properties.len() - 1] == properties.last());
        lemma_written(properties.last());
        assert(pairs.last() == written(properties.last()));
        lemma_option_push(pairs);
        assert(cmd.with_props(properties).argv =~= cmd.argv + option_args(pairs));
    }
}

/// Each property becomes a setting of the command, in order, after the arguments it has already;
/// nothing else changes.
pub proof fn law_settings_appended(cmd: CmdView, properties: Seq<PropertyView>)
    requires
        writable(properties),
    ensures
        cmd.set_props(properties) == (CmdView {
            argv: cmd.argv + setting_args(all_written(properties)),
            ..cmd
        }),
    decreases properties.len(),
{
    let pairs = all_written(properties);
    if properties.len() == 0 {
        assert(cmd.argv + setting_args(pairs) =~= cmd.argv);
    } else {
        let init = properties.drop_last();
        assert forall|i: int| 0 <= i < init.len() implies control_free(
            written(#[trigger] init[i]).1,
        ) && !(init[i] is Zfs) by {
            assert(init[i] == properties[i]);
        }
        law_settings_appended(cmd, init);
        assert(all_written(init) =~= pairs.drop_last());
        assert(properties[properties.len() - 1] == properties.last());
        lemma_written(properties.last());
        assert(pairs.last() == written(properties.last()));
        lemma_option_push(pairs);
        assert(cmd.set_props(properties).argv =~= cmd.argv + setting_args(pairs));
    }
}

/// A command never runs with a value that holds a control character, whether it creates something
/// or sets properties: it is refused then, with the key of the first such property.
pub proof fn law_control_refused(cmd: CmdView, before: Seq<PropertyView>, bad: PropertyView, after: Seq<PropertyView>)
    requires
        cmd.deferred is None,
        writable(before),
        !(bad is Zfs),
        !control_free(written(bad).1),
    ensures
        cmd.with_props(before.push(bad) + after).deferred is Some,
        cmd.with_props(before.push(bad) + after).deferred->0 is InvalidPropertyValue,
        cmd.with_props(before.push(bad) + after).deferred->0->InvalidPropertyValue_key == written(bad).0,
        cmd.set_props(before.push(bad) + after).deferred is Some,
        cmd.set_props(before.push(bad) + after).deferred->0 is InvalidPropertyValue,
        cmd.set_props(before.push(bad) + after).deferred->0->InvalidPropertyValue_key == written(bad).0,
    decreases after.len(),
{
    lemma_written(bad);
    if after.len() == 0 {
        law_props_appended(cmd, before);
        law_settings_appended(cmd, before);
        assert(before.push(bad) + after =~= before.push(bad));
        assert(before.push(bad).drop_last() =~= before);
    } else {
        law_control_refused(cmd, before, bad, after.drop_last());
        let all = before.push(bad) + after;
        assert(all.drop_last() =~= before.push(bad) + after.drop_last());
    }
}

/// Properties are persisted on a dataset by one command, which sets all of them.
pub proof fn law_set_command(dataset: Seq<char>, properties: Seq<PropertyView>)
    requires
        writable(properties),
    ensures
        set_cmd(dataset, properties) == (CmdView {
            cmd: "zfs"@,
            argv: seq!["set"@] + setting_args(all_written(properties)) + seq![dataset],
            input: None,
            deferred: None,
        }),
{
    law_settings_appended(CmdView::zfs(seq!["set"@]), properties);
    assert(set_cmd(dataset, properties).argv =~= seq!["set"@] + setting_args(
        all_written(properties),
    ) + seq![dataset]);
}

} // verus!
