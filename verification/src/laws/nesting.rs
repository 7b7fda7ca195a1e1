//! Work which is an operation itself, and the paths of what is kept beside the datasets.
use vstd::prelude::*;
use crate::dataset::{is_component, is_component_char};
use crate::flow::device::{BdevClose, BdevOpen, DeviceWait};
use crate::flow::nested::Nested;
use crate::flow::pool_create::PoolAdopt;
use crate::flow::pool_list::{PoolList, PoolLookup};
use crate::flow::pool_remove::PoolExport;
use crate::flow::snapshot::{SnapList, SnapLookup};
use crate::flow::volume::{VolList, VolLookup};
use crate::laws::closing::all_within;
use crate::laws::commands::runs_zfs;
use crate::operation::{Effect, Step};
use crate::laws::inventory::lemma_last_component;
use crate::laws::reported::ends_path;
use crate::laws::text::law_rsplit_once;
use crate::ptpl::{join_path, pool_subpath, trim_path, ZfsPoolPtpl, ZvolPtpl};

verus! {

/// Work which is an operation of the backend is taken up by starting just that operation, on just
/// what it is about; all other work is left as it is.
pub proof fn law_taken_up(effect: Effect, nested: Nested)
    requires
        call_ensures(Effect::take_up, (effect,), nested),
    ensures
        match effect {
            Effect::AwaitDevice(path) => nested is AwaitDevice && nested->AwaitDevice_0 == Step::<
                DeviceWait,
                (),
            >::Do(Effect::Probe { path, delay_ms: 0 }, DeviceWait { path }),
            Effect::OpenVol(device) => nested is OpenVol && nested->OpenVol_0 is Do
                && nested->OpenVol_0->Do_0 == Effect::PunchHole(device.path)
                && nested->OpenVol_0->Do_1 == (BdevOpen::Probing { device }),
            Effect::CloseBdev(uri) => nested is CloseBdev && nested->CloseBdev_0 == Step::<
                BdevClose,
                (),
            >::Do(Effect::ReadBdev(uri), BdevClose::Reading { uri }),
            Effect::ListVols(query) => nested is ListVols && nested->ListVols_0 is Do
                && nested->ListVols_0->Do_0 is Run && nested->ListVols_0->Do_1
                == (VolList::Fetching { query }),
            Effect::LookupVol(query) => nested is LookupVol && nested->LookupVol_0 is Do
                && nested->LookupVol_0->Do_0 == Effect::ListVols(query)
                && nested->LookupVol_0->Do_1 == (VolLookup { query }),
            Effect::ListSnaps(query) => nested is ListSnaps && nested->ListSnaps_0 is Do
                && nested->ListSnaps_0->Do_0 is Run && nested->ListSnaps_0->Do_1
                == (SnapList { query }),
            Effect::LookupSnap(query) => nested is LookupSnap && nested->LookupSnap_0 is Do
                && nested->LookupSnap_0->Do_0 == Effect::ListSnaps(query)
                && nested->LookupSnap_0->Do_1 == (SnapLookup { query }),
            Effect::ListPools(query) => nested is ListPools && runs_zfs(
                nested->ListPools_0,
                seq![
                    "get"@,
                    "-Hp"@,
                    "-t"@,
                    "filesystem"@,
                    "-s"@,
                    "local"@,
                    "-o"@,
                    "name,value"@,
                    "io.mayastor:pool"@,
                ],
            ) && nested->ListPools_0->Do_1 == (PoolList::Discovering { query }),
            Effect::LookupPool(query) => nested is LookupPool && nested->LookupPool_0 is Do
                && nested->LookupPool_0->Do_0 == Effect::ListPools(query)
                && nested->LookupPool_0->Do_1 == (PoolLookup { query }),
            Effect::AdoptPool { args, opts } => nested is AdoptPool && (is_component(args.name@)
                ==> nested->AdoptPool_0 is Do && nested->AdoptPool_0->Do_0 is Run
                && nested->AdoptPool_0->Do_0->Run_0@.argv.last() == opts@.parent + "/"@
                + args.name@ && nested->AdoptPool_0->Do_1 == (PoolAdopt::Inspecting {
                args,
                opts,
            })),
            Effect::ExportPool(dataset) => nested is ExportPool && nested->ExportPool_0 is Do
                && nested->ExportPool_0->Do_0 is ListVols && all_within(
                nested->ExportPool_0->Do_0->ListVols_0,
                dataset@,
            ) && nested->ExportPool_0->Do_1 == (PoolExport::Listing { dataset }),
            _ => nested == Nested::Work(effect),
        },
{
}

/// What lists the replicas or the snapshots of a dataset names that dataset.
pub proof fn law_taken_up_scoped(effect: Effect, nested: Nested)
    requires
        call_ensures(Effect::take_up, (effect,), nested),
    ensures
        effect matches Effect::ListVols(query) ==> match query.dataset {
            Some(dataset) => nested->ListVols_0->Do_0->Run_0@.argv.last() == dataset@,
            None => nested->ListVols_0->Do_0->Run_0@.argv.len() == 7,
        },
        effect matches Effect::ListSnaps(query) ==> match query.dataset {
            Some(dataset) => nested->ListSnaps_0->Do_0->Run_0@.argv.last() == dataset@,
            None => nested->ListSnaps_0->Do_0->Run_0@.argv.len() == 7,
        },
{
}

/// What persists the reservations of a pool is kept in a directory of its own.
pub proof fn law_pool_path(ptpl: ZfsPoolPtpl, path: String)
    requires
        call_ensures(ZfsPoolPtpl::subpath, (&ptpl,), path),
        ptpl.pool_name().len() > 0,
        ptpl.pool_name()[0] != '/',
    ensures
        path@ == "pool/zfs/"@ + ptpl.pool_name(),
{
    reveal_strlit("pool/zfs/");
    assert("pool/zfs/"@.len() == 9);
}

/// What persists the reservations of a replica is kept in a file of its own in the directory of its
/// pool, named after the uuid of the replica up to its last dot.
pub proof fn law_replica_path(ptpl: ZvolPtpl, stem: Seq<char>, rest: Seq<char>, path: String)
    requires
        call_ensures(ZvolPtpl::subpath, (&ptpl,), path),
        is_component(ptpl.pool_name()),
        is_component(ptpl.replica()),
        ptpl.replica() == stem || ptpl.replica() == stem + seq!['.'] + rest,
        ptpl.replica() == stem ==> !stem.contains('.'),
        !rest.contains('.'),
        rest.len() > 0,
    ensures
        path@ == "pool/zfs/"@ + ptpl.pool_name() + "/vol/"@ + stem + ".json"@,
{
    reveal_strlit("pool/zfs/");
    reveal_strlit("vol/");
    reveal_strlit("/vol/");
    reveal_strlit("/");
    reveal_strlit(".");
    reveal_strlit("..");
    reveal_strlit("json");
    reveal_strlit(".json");
    let pool = ptpl.pool_name();
    let uuid = ptpl.replica();
    let head = "pool/zfs/"@ + pool;
    assert(pool[0] != '/');
    assert("pool/zfs/"@.last() == '/');
    assert(pool_subpath(pool) == head);
    assert(head.last() == pool.last());
    assert(pool.last() == pool[pool.len() - 1]);
    assert(pool.last() != '/');
    let dir = head + "/"@ + "vol/"@;
    assert("vol/"@[0] == 'v');
    assert(join_path(head, "vol/"@) == dir);
    assert(dir.last() == '/');
    assert(!uuid.contains('/')) by {
        if uuid.contains('/') {
            let k = choose|k: int| 0 <= k < uuid.len() && uuid[k] == '/';
            assert(k == 0 || is_component_char(uuid[k]));
        }
    }
    assert(uuid[0] != '/');
    let full = dir + uuid;
    assert(join_path(dir, uuid) == full);
    let n = full.len() as int;
    assert(full[n - 1] == uuid[uuid.len() - 1]);
    assert(uuid.contains(uuid[uuid.len() - 1]));
    if uuid.len() > 1 {
        assert(full[n - 2] == uuid[uuid.len() - 2]);
        assert(uuid.contains(uuid[uuid.len() - 2]));
    } else {
        assert(full[n - 1] == uuid[0]);
    }
    assert(trim_path(full) == full);
    assert(ends_path(full, uuid)) by {
        assert(full.skip(full.len() - uuid.len() - 1) =~= seq!['/'] + uuid);
    }
    lemma_last_component(full, uuid);
    assert(uuid != ".."@) by {
        assert(".."@[0] == '.');
    }
    law_rsplit_once(uuid, '.');
    if uuid != stem {
        let at = stem.len() as int;
        assert(uuid[at] == '.');
        assert(uuid.contains('.'));
        uuid.index_of_last_ensures('.');
        let i = uuid.index_of_last('.')->0;
        if i > at {
            assert(rest[i - at - 1] == uuid[i]);
            assert(rest.contains('.'));
        }
        assert(uuid.take(i) =~= stem);
        assert(stem.len() > 0) by {
            if stem.len() == 0 {
                assert(uuid[0] == '.');
            }
        }
    }
    assert(full.take(full.len() - uuid.len()) =~= dir);
    assert(path@ =~= "pool/zfs/"@ + pool + "/vol/"@ + stem + ".json"@);
}

} // verus!
