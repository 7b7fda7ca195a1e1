//! Snapshots: listing, creating, destroying and cloning them.
use vstd::prelude::*;
use crate::cli::{
    lemma_one_prop, lemma_push_prop, lemma_with_props_add, optional, parse_props, props_of,
    props_views, strs, with_optional, CmdView, DsProps, DsPropsView, QueryView, ZfsCmd,
    ZfsQueryArgs,
};
use crate::dataset::{component_check, is_valid_dataset_component};
use crate::engine::{CloneParams, Protocol, SnapshotParams, SnapshotParamsView};
use crate::error::{Error, ErrorView};
use crate::flow::share::set_cmd;
use crate::flow::volume::{child, child_dataset};
use crate::operation::{fails, runs, Effect, Reply, Step};
use crate::outside::{is_utc_time, utc_now};
use crate::property::{Property, PropertyView};
use crate::snapshot::{snap_views, SnapQueryArgs, SnapQueryView, SnapView, ZfsSnapshot};
use crate::text::chars::texts;
use crate::zvol_replica::{
    device_path_of, zvol_device, VolQueryArgs, VolQueryView, VolView, ZfsVol,
};

verus! {

/// The properties fetched for the snapshot bulk query.
pub const SNAP_PROPS: &'static str = "used,referenced,volsize,volblocksize,clones,defer_destroy,io.mayastor:pool,io.mayastor:snapshot_uuid,io.mayastor:name,io.mayastor:entity_id,io.mayastor:parent_id,io.mayastor:txn_id,io.mayastor:create_time,io.mayastor:discarded";

/// The command which fetches the snapshots, those of the given zvol if there is one.
pub open spec fn snaps_cmd(dataset: Option<Seq<char>>) -> CmdView {
    let cmd = CmdView::zfs(
        seq![
            "get"@,
            "-Hp"@,
            "-t"@,
            "snapshot"@,
            "-o"@,
            "name,property,value,source"@,
            SNAP_PROPS@,
        ],
    );
    match dataset {
        Some(dataset) => cmd.args(seq!["-d"@, "1"@, dataset]),
        None => cmd,
    }
}

/// The snapshots among datasets which meet the list options.
pub open spec fn snaps_of(list: Seq<DsPropsView>, query: SnapQueryView) -> Seq<SnapView>
    decreases list.len(),
{
    if list.len() == 0 {
        Seq::empty()
    } else {
        let rest = snaps_of(list.drop_last(), query);
        match SnapView::of_props(list.last()) {
            Some(snap) => if snap.meets(query) {
                rest.push(snap)
            } else {
                rest
            },
            None => rest,
        }
    }
}

/// Build the snapshots which meet the list options.
fn build_snaps(list: &Vec<DsProps>, query: &SnapQueryArgs) -> (res: Vec<ZfsSnapshot>)
    ensures
        snap_views(res@) == snaps_of(props_views(list@), query@),
{
    let ghost all = props_views(list@);
    let mut snaps: Vec<ZfsSnapshot> = Vec::new();
    assert(snap_views(snaps@) =~= Seq::empty());
    for i in 0..list.len()
        invariant
            all == props_views(list@),
            snap_views(snaps@) == snaps_of(all.take(i as int), query@),
    {
        let ghost before = snaps@;
        proof {
            assert(all.take(i + 1).drop_last() =~= all.take(i as int));
            assert(all[i as int] == list@[i as int]@);
        }
        if let Some(snap) = ZfsSnapshot::from_props(&list[i]) {
            if snap.matches(query) {
                snaps.push(snap);
                assert(snap_views(snaps@) =~= snap_views(before).push(snap@));
            }
        }
    }
    assert(all.take(all.len() as int) =~= all);
    snaps
}

/// Listing snapshots.
#[derive(Debug)]
pub struct SnapList {
    pub query: SnapQueryArgs,
}

impl SnapList {
    /// How the listing goes on.
    pub open spec fn resumed(self, reply: Reply, next: Step<SnapList, Vec<ZfsSnapshot>>) -> bool {
        match reply {
            Reply::Output(Err(error)) => next == Step::<SnapList, Vec<ZfsSnapshot>>::Failed(error),
            Reply::Output(Ok(output)) => match props_of("zfs"@, output@) {
                Err(error) => fails(next, error),
                Ok(list) => next matches Step::Done(snaps) && snap_views(snaps@) == snaps_of(
                    list,
                    self.query@,
                ),
            },
            _ => true,
        }
    }

    /// Go on with the reply.
    pub fn resume(self, reply: Reply) -> (res: Step<SnapList, Vec<ZfsSnapshot>>)
        requires
            reply is Output,
        ensures
            self.resumed(reply, res),
    {
        match reply {
            Reply::Output(output) => match output {
                Err(error) => Step::Failed(error),
                Ok(output) => match parse_props("zfs", output.as_str()) {
                    Err(error) => Step::Failed(error),
                    Ok(list) => Step::Done(build_snaps(&list, &self.query)),
                },
            },
            _ => unreached(),
        }
    }
}

/// Looking a snapshot up.
#[derive(Debug)]
pub struct SnapLookup {
    pub query: SnapQueryArgs,
}

impl SnapLookup {
    /// How the lookup goes on: the first snapshot is the one looked for.
    pub open spec fn resumed(self, reply: Reply, next: Step<SnapLookup, ZfsSnapshot>) -> bool {
        match reply {
            Reply::Snaps(Err(error)) => next == Step::<SnapLookup, ZfsSnapshot>::Failed(error),
            Reply::Snaps(Ok(snaps)) => if snaps@.len() > 0 {
                next == Step::<SnapLookup, ZfsSnapshot>::Done(snaps@[0])
            } else {
                fails(next, ErrorView::SnapNotFound { query: self.query@.display() })
            },
            _ => true,
        }
    }

    /// Go on with the reply.
    pub fn resume(self, reply: Reply) -> (res: Step<SnapLookup, ZfsSnapshot>)
        requires
            reply is Snaps,
        ensures
            self.resumed(reply, res),
    {
        match reply {
            Reply::Snaps(listed) => match listed {
                Err(error) => Step::Failed(error),
                Ok(snaps) => {
                    let mut snaps = snaps;
                    if snaps.len() > 0 {
                        Step::Done(snaps.swap_remove(0))
                    } else {
                        Step::Failed(Error::SnapNotFound { query: self.query.query() })
                    }
                },
            },
            _ => unreached(),
        }
    }
}

/// The path of a snapshot of a zvol.
pub open spec fn snapshot_path(dataset: Seq<char>, uuid: Seq<char>) -> Seq<char> {
    dataset + "@"@ + uuid
}

/// The name property, if there is a name.
pub open spec fn name_prop(params: SnapshotParamsView) -> Option<PropertyView> {
    match params.name {
        Some(name) => Some(PropertyView::Name(name)),
        None => None,
    }
}

/// The owner property, if there is an owner.
pub open spec fn owner_prop(params: SnapshotParamsView) -> Option<PropertyView> {
    match params.entity_id {
        Some(id) => Some(PropertyView::EntityId(id)),
        None => None,
    }
}

/// The transaction property, if there is a transaction.
pub open spec fn txn_prop(params: SnapshotParamsView) -> Option<PropertyView> {
    match params.txn_id {
        Some(id) => Some(PropertyView::TxnId(id)),
        None => None,
    }
}

/// The properties which persist the parameters of a snapshot: where no parent is given it is the
/// snapshotted replica, and where no time is given it is now.
pub open spec fn snapshot_properties(
    vol: VolView,
    uuid: Seq<char>,
    params: SnapshotParamsView,
    now: Seq<char>,
) -> Seq<PropertyView> {
    seq![
        PropertyView::SnapshotUuid(uuid),
        PropertyView::ParentId(
            match params.parent_id {
                Some(id) => id,
                None => vol.uuid,
            },
        ),
        PropertyView::CreateTime(
            match params.create_time {
                Some(time) => time,
                None => now,
            },
        ),
        PropertyView::Discarded(params.discarded_snapshot),
    ] + optional(name_prop(params)) + optional(owner_prop(params)) + optional(txn_prop(params))
}

/// The command which creates a snapshot, with its parameters as properties of the snapshot.
pub open spec fn snapshot_cmd(
    vol: VolView,
    uuid: Seq<char>,
    params: SnapshotParamsView,
    now: Seq<char>,
) -> CmdView {
    CmdView::zfs(seq!["snapshot"@]).with_props(snapshot_properties(vol, uuid, params, now)).arg(
        snapshot_path(vol.dataset, uuid),
    )
}

/// The query which finds the snapshot of a zvol.
pub open spec fn snapshot_query(dataset: Seq<char>, uuid: Seq<char>) -> SnapQueryView {
    SnapQueryView { uuid: Some(uuid), dataset: Some(dataset), ..SnapQueryView::any() }
}

/// Creating a snapshot.
#[derive(Debug)]
pub enum SnapCreate {
    /// The snapshot is created.
    Creating { query: SnapQueryArgs },
    /// The snapshot is looked up.
    Looking,
}

impl SnapCreate {
    /// The reply is of the kind that is awaited.
    pub open spec fn awaits(self, reply: Reply) -> bool {
        match self {
            SnapCreate::Creating { .. } => reply is Output,
            SnapCreate::Looking => reply is Snap,
        }
    }

    /// How the creation starts at the given time.
    pub open spec fn started(
        vol: VolView,
        params: SnapshotParamsView,
        now: Seq<char>,
        next: Step<SnapCreate, ZfsSnapshot>,
    ) -> bool {
        match params.snapshot_uuid {
            None => fails(
                next,
                ErrorView::InvalidOption { error: "a snapshot uuid must be provided"@ },
            ),
            Some(uuid) => match component_check(uuid) {
                Err(error) => fails(next, error),
                Ok(_) => next matches Step::Do(
                    Effect::Run(cmd),
                    SnapCreate::Creating { query },
                ) && cmd@ == snapshot_cmd(vol, uuid, params, now) && query@ == snapshot_query(
                    vol.dataset,
                    uuid,
                ),
            },
        }
    }

    /// How the creation goes on.
    pub open spec fn resumed(self, reply: Reply) -> Step<SnapCreate, ZfsSnapshot> {
        match (self, reply) {
            (SnapCreate::Creating { query }, Reply::Output(Ok(_))) => Step::Do(
                Effect::LookupSnap(query),
                SnapCreate::Looking,
            ),
            (SnapCreate::Creating { .. }, Reply::Output(Err(error))) => Step::Failed(error),
            (SnapCreate::Looking, Reply::Snap(Ok(snap))) => Step::Done(snap),
            (SnapCreate::Looking, Reply::Snap(Err(error))) => Step::Failed(error),
            _ => Step::Failed(Error::ReactorSpawn),
        }
    }

    /// Go on with the reply.
    pub fn resume(self, reply: Reply) -> (res: Step<SnapCreate, ZfsSnapshot>)
        requires
            self.awaits(reply),
        ensures
            res == self.resumed(reply),
    {
        match (self, reply) {
            (SnapCreate::Creating { query }, Reply::Output(output)) => match output {
                Ok(_) => Step::Do(Effect::LookupSnap(query), SnapCreate::Looking),
                Err(error) => Step::Failed(error),
            },
            (SnapCreate::Looking, Reply::Snap(looked)) => match looked {
                Ok(snap) => Step::Done(snap),
                Err(error) => Step::Failed(error),
            },
            _ => unreached(),
        }
    }
}

/// The command which destroys a snapshot.
pub open spec fn snap_destroy_cmd(path: Seq<char>) -> CmdView {
    CmdView::zfs(seq!["destroy"@, path])
}

/// The command which destroys a snapshot once its last clone is gone.
pub open spec fn snap_defer_cmd(path: Seq<char>) -> CmdView {
    CmdView::zfs(seq!["destroy"@, "-d"@, path])
}

/// Destroying a snapshot.
#[derive(Debug)]
pub enum SnapDestroy {
    /// The snapshot, which has clones, is marked as discarded.
    Discarding { path: String },
    /// The snapshot is destroyed.
    Destroying,
}

impl SnapDestroy {
    /// How the destruction starts.
    pub open spec fn started(snap: SnapView, next: Step<SnapDestroy, ()>) -> bool {
        if snap.clones.len() == 0 {
            runs(next, snap_destroy_cmd(snap.path), SnapDestroy::Destroying)
        } else {
            next matches Step::Do(Effect::Run(cmd), SnapDestroy::Discarding { path }) && cmd@
                == set_cmd(snap.path, seq![PropertyView::Discarded(true)]) && path@ == snap.path
        }
    }

    /// How the destruction goes on.
    pub open spec fn resumed(self, reply: Reply, next: Step<SnapDestroy, ()>) -> bool {
        match (self, reply) {
            (_, Reply::Output(Err(error))) => next == Step::<SnapDestroy, ()>::Failed(error),
            (SnapDestroy::Discarding { path }, Reply::Output(Ok(_))) => runs(
                next,
                snap_defer_cmd(path@),
                SnapDestroy::Destroying,
            ),
            (SnapDestroy::Destroying, Reply::Output(Ok(_))) => next == Step::<
                SnapDestroy,
                (),
            >::Done(()),
            _ => true,
        }
    }

    /// Go on with the reply.
    pub fn resume(self, reply: Reply) -> (res: Step<SnapDestroy, ()>)
        requires
            reply is Output,
        ensures
            self.resumed(reply, res),
    {
        match reply {
            Reply::Output(output) => {
                if let Err(error) = output {
                    return Step::Failed(error);
                }
                match self {
                    SnapDestroy::Discarding { path } => {
                        let cmd = ZfsCmd::zfs("destroy").arg("-d").arg(path.as_str());
                        assert(cmd@ =~= snap_defer_cmd(path@));
                        Step::Do(Effect::Run(cmd), SnapDestroy::Destroying)
                    },
                    SnapDestroy::Destroying => Step::Done(()),
                }
            },
            _ => unreached(),
        }
    }
}

/// The properties which persist what a clone is.
pub open spec fn clone_properties(snap: SnapView, uuid: Seq<char>, name: Seq<char>) -> Seq<
    PropertyView,
> {
    seq![
        PropertyView::VolUuid(uuid),
        PropertyView::Name(name),
        PropertyView::SnapshotUuid(snap.uuid),
        PropertyView::Share(Protocol::Off),
    ]
}

/// The command which creates a clone of a snapshot.
pub open spec fn clone_cmd(
    snap: SnapView,
    uuid: Seq<char>,
    name: Seq<char>,
    dataset: Seq<char>,
) -> CmdView {
    CmdView::zfs(seq!["clone"@]).with_props(clone_properties(snap, uuid, name)).arg(snap.path).arg(
        dataset,
    )
}

/// The query which finds the clone in the container.
pub open spec fn clone_query(container: Seq<char>, uuid: Seq<char>) -> VolQueryView {
    VolQueryView {
        vol: QueryView { name: None, uuid: Some(uuid) },
        dataset: Some(container),
        ..VolQueryView::any()
    }
}

/// Creating a clone of a snapshot.
#[derive(Debug)]
pub enum CloneCreate {
    /// The clone is created.
    Cloning { device: String, query: VolQueryArgs },
    /// The device of the clone is waited for.
    Waiting { query: VolQueryArgs },
    /// The clone is looked up.
    Looking,
}

impl CloneCreate {
    /// The reply is of the kind that is awaited.
    pub open spec fn awaits(self, reply: Reply) -> bool {
        match self {
            CloneCreate::Cloning { .. } => reply is Output,
            CloneCreate::Waiting { .. } => reply is Finished,
            CloneCreate::Looking => reply is Vol,
        }
    }

    /// How the creation starts.
    pub open spec fn started(
        snap: SnapView,
        params: CloneParams,
        next: Step<CloneCreate, ZfsVol>,
    ) -> bool {
        match (params.clone_uuid, params.clone_name) {
            (Some(uuid), Some(name)) => match component_check(uuid@) {
                Err(error) => fails(next, error),
                Ok(_) => {
                    let dataset = child_dataset(snap.container, uuid@);
                    next matches Step::Do(
                        Effect::Run(cmd),
                        CloneCreate::Cloning { device, query },
                    ) && cmd@ == clone_cmd(snap, uuid@, name@, dataset) && device@
                        == device_path_of(dataset) && query@ == clone_query(snap.container, uuid@)
                },
            },
            _ => fails(
                next,
                ErrorView::InvalidOption { error: "a clone uuid and name must be provided"@ },
            ),
        }
    }

    /// How the creation goes on.
    pub open spec fn resumed(self, reply: Reply) -> Step<CloneCreate, ZfsVol> {
        match (self, reply) {
            (CloneCreate::Cloning { device, query }, Reply::Output(Ok(_))) => Step::Do(
                Effect::AwaitDevice(device),
                CloneCreate::Waiting { query },
            ),
            (CloneCreate::Cloning { .. }, Reply::Output(Err(error))) => Step::Failed(error),
            (CloneCreate::Waiting { query }, Reply::Finished(Ok(_))) => Step::Do(
                Effect::LookupVol(query),
                CloneCreate::Looking,
            ),
            (CloneCreate::Waiting { .. }, Reply::Finished(Err(error))) => Step::Failed(error),
            (CloneCreate::Looking, Reply::Vol(Ok(vol))) => Step::Done(vol),
            (CloneCreate::Looking, Reply::Vol(Err(error))) => Step::Failed(error),
            _ => Step::Failed(Error::ReactorSpawn),
        }
    }

    /// Go on with the reply.
    pub fn resume(self, reply: Reply) -> (res: Step<CloneCreate, ZfsVol>)
        requires
            self.awaits(reply),
        ensures
            res == self.resumed(reply),
    {
        match (self, reply) {
            (CloneCreate::Cloning { device, query }, Reply::Output(output)) => match output {
                Ok(_) => Step::Do(Effect::AwaitDevice(device), CloneCreate::Waiting { query }),
                Err(error) => Step::Failed(error),
            },
            (CloneCreate::Waiting { query }, Reply::Finished(waited)) => match waited {
                Ok(_) => Step::Do(Effect::LookupVol(query), CloneCreate::Looking),
                Err(error) => Step::Failed(error),
            },
            (CloneCreate::Looking, Reply::Vol(looked)) => match looked {
                Ok(vol) => Step::Done(vol),
                Err(error) => Step::Failed(error),
            },
            _ => unreached(),
        }
    }
}

/// Four properties are added one after the other.
proof fn lemma_four_props(cmd: CmdView, list: Seq<PropertyView>)
    requires
        list.len() == 4,
    ensures
        cmd.with_props(list) == cmd.prop(list[0]).prop(list[1]).prop(list[2]).prop(list[3]),
{
    lemma_one_prop(cmd, list[0]);
    let one = seq![list[0]];
    lemma_push_prop(cmd, one, list[1]);
    lemma_push_prop(cmd, one.push(list[1]), list[2]);
    lemma_push_prop(cmd, one.push(list[1]).push(list[2]), list[3]);
    assert(list =~= one.push(list[1]).push(list[2]).push(list[3]));
}

impl ZfsSnapshot {
    /// List snapshots using the provided options as query criteria. The query is a single bulk
    /// "zfs get" whose output is filtered client-side. Ours = snapshots with a local
    /// io.mayastor:snapshot_uuid property (set atomically at snapshot creation).
    pub fn list(query: SnapQueryArgs) -> (res: Step<SnapList, Vec<ZfsSnapshot>>)
        ensures
            runs(res, snaps_cmd(query@.dataset), SnapList { query }),
    {
        let args: [&str; 6] = [
            "-Hp",
            "-t",
            "snapshot",
            "-o",
            "name,property,value,source",
            SNAP_PROPS,
        ];
        let cmd = ZfsCmd::zfs("get").args(&args);
        assert(cmd@ =~= snaps_cmd(None));
        let cmd = match &query.dataset {
            Some(dataset) => {
                let scope: [&str; 3] = ["-d", "1", dataset.as_str()];
                assert(strs(scope@) =~= seq!["-d"@, "1"@, dataset@]);
                cmd.args(&scope)
            },
            None => cmd,
        };
        Step::Do(Effect::Run(cmd), SnapList { query })
    }

    /// Lookup a single snapshot.
    pub fn lookup(query: SnapQueryArgs) -> (res: Step<SnapLookup, ZfsSnapshot>)
        ensures
            res matches Step::Do(Effect::ListSnaps(listed), SnapLookup { query: q }) && listed
                == query && q == query,
    {
        let listed = query.copy();
        Step::Do(Effect::ListSnaps(listed), SnapLookup { query })
    }

    /// Create a snapshot of the given zvol at the given time, persisting the snapshot parameters
    /// atomically as user properties of the snapshot.
    pub fn create_at(vol: &ZfsVol, params: SnapshotParams, now: String) -> (res: Step<
        SnapCreate,
        ZfsSnapshot,
    >)
        ensures
            SnapCreate::started(vol@, params@, now@, res),
    {
        let ghost at = now@;
        let uuid = match &params.snapshot_uuid {
            Some(uuid) => uuid.clone(),
            None => {
                return Step::Failed(
                    Error::InvalidOption { error: "a snapshot uuid must be provided".to_owned() },
                );
            },
        };
        if let Err(error) = is_valid_dataset_component(uuid.as_str()) {
            return Step::Failed(error);
        }
        let path = vol.dataset().to_owned().concat("@").concat(uuid.as_str());
        let parent_id = match &params.parent_id {
            Some(id) => id.clone(),
            None => vol.uuid().to_owned(),
        };
        let create_time = match &params.create_time {
            Some(time) => time.clone(),
            None => now,
        };
        let name = match &params.name {
            Some(name) => Some(Property::Name(name.clone())),
            None => None,
        };
        let owner = match &params.entity_id {
            Some(id) => Some(Property::EntityId(id.clone())),
            None => None,
        };
        let txn = match &params.txn_id {
            Some(id) => Some(Property::TxnId(id.clone())),
            None => None,
        };
        let ghost head = CmdView::zfs(seq!["snapshot"@]);
        let ghost fixed = seq![
            PropertyView::SnapshotUuid(uuid@),
            PropertyView::ParentId(parent_id@),
            PropertyView::CreateTime(create_time@),
            PropertyView::Discarded(params.discarded_snapshot),
        ];
        let cmd = ZfsCmd::zfs("snapshot").prop(Property::SnapshotUuid(uuid.clone())).prop(
            Property::ParentId(parent_id),
        ).prop(Property::CreateTime(create_time)).prop(
            Property::Discarded(params.discarded_snapshot),
        );
        proof {
            lemma_four_props(head, fixed);
            let a = optional(name_prop(params@));
            let b = optional(owner_prop(params@));
            let c = optional(txn_prop(params@));
            lemma_with_props_add(head, fixed, a);
            lemma_with_props_add(head, fixed + a, b);
            lemma_with_props_add(head, fixed + a + b, c);
            assert(fixed + a + b + c =~= snapshot_properties(vol@, uuid@, params@, at));
        }
        let cmd = with_optional(with_optional(with_optional(cmd, name), owner), txn);
        let cmd = cmd.arg(path.as_str());
        let query = SnapQueryArgs::new().uuid(uuid.as_str()).scoped(vol.dataset());
        Step::Do(Effect::Run(cmd), SnapCreate::Creating { query })
    }

    /// Create a snapshot of the given zvol, persisting the snapshot parameters atomically as user
    /// properties of the snapshot.
    pub fn create(vol: &ZfsVol, params: SnapshotParams) -> (res: Step<SnapCreate, ZfsSnapshot>)
        ensures
            exists|now: Seq<char>|
                is_utc_time(now) && #[trigger] SnapCreate::started(vol@, params@, now, res),
    {
        let now = utc_now();
        let ghost at = now@;
        let res = ZfsSnapshot::create_at(vol, params, now);
        assert(is_utc_time(at) && SnapCreate::started(vol@, params@, at, res));
        res
    }

    /// Destroy the snapshot. When clones still reference the snapshot's data, it is marked as
    /// discarded and destroyed with zfs deferred destroy (-d), so ZFS itself removes it when the
    /// last clone goes away.
    pub fn destroy(self) -> (res: Step<SnapDestroy, ()>)
        ensures
            SnapDestroy::started(self@, res),
    {
        let clones = self.clones();
        assert(texts(clones@).len() == clones@.len());
        if clones.len() == 0 {
            let cmd = ZfsCmd::zfs("destroy").arg(self.path());
            assert(cmd@ =~= snap_destroy_cmd(self@.path));
            Step::Do(Effect::Run(cmd), SnapDestroy::Destroying)
        } else {
            let cmd = ZfsCmd::zfs("set").set_prop(&Property::Discarded(true)).arg(self.path());
            proof {
                let set = CmdView::zfs(seq!["set"@]);
                let discarded = PropertyView::Discarded(true);
                assert(seq![discarded].drop_last() =~= Seq::empty());
                assert(set.set_props(seq![discarded].drop_last()) == set);
            }
            Step::Do(Effect::Run(cmd), SnapDestroy::Discarding { path: self.path().to_owned() })
        }
    }

    /// Creates a COW clone zvol from the snapshot, in the same pool container. Encryption
    /// properties are never passed: they are read-only on clones and inherited from the origin.
    /// The volsize/volblocksize are likewise inherited from the origin.
    pub fn create_clone(&self, params: CloneParams) -> (res: Step<CloneCreate, ZfsVol>)
        ensures
            CloneCreate::started(self@, params, res),
    {
        match (params.clone_uuid, params.clone_name) {
            (Some(uuid), Some(name)) => {
                if let Err(error) = is_valid_dataset_component(uuid.as_str()) {
                    return Step::Failed(error);
                }
                let dataset = child(self.container(), uuid.as_str());
                proof {
                    let list = clone_properties(self@, uuid@, name@);
                    lemma_four_props(CmdView::zfs(seq!["clone"@]), list);
                }
                let cmd = ZfsCmd::zfs("clone").prop(Property::VolUuid(uuid.clone())).prop(
                    Property::Name(name),
                ).prop(Property::SnapshotUuid(self.uuid().to_owned())).prop(
                    Property::Share(Protocol::Off),
                ).arg(self.path()).arg(dataset.as_str());
                let query = VolQueryArgs::new().with_vol(
                    ZfsQueryArgs::any().uuid(uuid.as_str()),
                ).scoped(self.container());
                let device = zvol_device(dataset.as_str());
                Step::Do(Effect::Run(cmd), CloneCreate::Cloning { device, query })
            },
            _ => Step::Failed(
                Error::InvalidOption {
                    error: "a clone uuid and name must be provided".to_owned(),
                },
            ),
        }
    }
}

impl ZfsVol {
    /// Create a snapshot of this zvol, with the snapshot parameters persisted atomically as user
    /// properties of the snapshot itself.
    pub fn create_snapshot(&self, params: SnapshotParams) -> (res: Step<SnapCreate, ZfsSnapshot>)
        ensures
            exists|now: Seq<char>|
                is_utc_time(now) && #[trigger] SnapCreate::started(self@, params@, now, res),
    {
        ZfsSnapshot::create(self, params)
    }
}

} // verus!
