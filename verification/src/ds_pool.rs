//! ZFS pools: the container filesystem datasets.
use vstd::prelude::*;
use crate::cli::{
    find_props, props_named, props_views, DsProps, DsPropsView, QueryView, ZfsQueryArgs,
};
use crate::engine::{CoreError, Errno, PoolArgs, PoolBackend};
use crate::error::{result_view, Error, ErrorView};
use crate::options::{
    validate_volblocksize, volblocksize_check, PoolOptsView, ZfsPoolOpts, DEFAULT_VOLBLOCKSIZE,
};
use crate::property::PropertyType;
use crate::ptpl::ZfsPoolPtpl;
use crate::text::chars::{str_eq, text_pairs, texts};
use crate::text::decimal::{parse_u64, parse_u64_text};
use crate::text::split::{
    first_piece, first_piece_text, last_piece, last_piece_text, rsplit_once, rsplit_once_text,
};

verus! {

/// A pool which is a ZFS filesystem dataset acting as the container for the replica zvols, eg:
/// creating the pool "p1" on the disks entry "tank/data" creates the container dataset
/// "tank/data/p1".
///
/// Ownership is persisted as the local user property "io.mayastor:pool", whose value is the pool
/// uuid.
#[derive(Debug, Clone)]
pub struct ZfsPool {
    /// The pool name, which is the last path component of the dataset.
    name: String,
    /// The full container dataset path, eg: "tank/data/p1".
    dataset: String,
    /// The parent dataset path, eg: "tank/data".
    parent: String,
    /// The verbatim disks entry, including any query parameters.
    disks: String,
    /// The pool uuid, persisted as the io.mayastor:pool user property.
    uuid: String,
    /// Space used by the container dataset and all its children.
    used: u64,
    /// Space available to the container dataset (quota-aware).
    available: u64,
    /// Sum of the child zvol volsizes.
    committed: u64,
    /// The size of the underlying zpool.
    zpool_size: u64,
    /// The default volblocksize for child zvols.
    volblocksize: u64,
    /// Whether the container dataset is encrypted.
    encrypted: bool,
}

/// The mathematical view of a pool.
#[verifier::ext_equal]
pub struct PoolView {
    pub name: Seq<char>,
    pub dataset: Seq<char>,
    pub parent: Seq<char>,
    pub disks: Seq<char>,
    pub uuid: Seq<char>,
    pub used: u64,
    pub available: u64,
    pub committed: u64,
    pub zpool_size: u64,
    pub volblocksize: u64,
    pub encrypted: bool,
}

impl View for ZfsPool {
    type V = PoolView;

    closed spec fn view(&self) -> PoolView {
        PoolView {
            name: self.name@,
            dataset: self.dataset@,
            parent: self.parent@,
            disks: self.disks@,
            uuid: self.uuid@,
            used: self.used,
            available: self.available,
            committed: self.committed,
            zpool_size: self.zpool_size,
            volblocksize: self.volblocksize,
            encrypted: self.encrypted,
        }
    }
}

/// The views of pools.
pub open spec fn pool_views(pools: Seq<ZfsPool>) -> Seq<PoolView> {
    pools.map_values(|p: ZfsPool| p@)
}

impl PoolView {
    /// The pool that the properties of its container dataset stand for.
    pub open spec fn of_props(
        dataset: Seq<char>,
        uuid: Seq<char>,
        props: DsPropsView,
        committed: u64,
        zpool_size: u64,
    ) -> PoolView {
        let (parent, name) = match rsplit_once(dataset, '/') {
            Some((parent, name)) => (parent, name),
            None => (Seq::empty(), dataset),
        };
        PoolView {
            name,
            dataset,
            parent,
            disks: match props.local(PropertyType::PoolDisks.key()) {
                Some(disks) => disks,
                None => dataset,
            },
            uuid,
            used: props.number_or_zero("used"@),
            available: props.number_or_zero("available"@),
            committed,
            zpool_size,
            volblocksize: match props.local(PropertyType::PoolVolBlockSize.key()) {
                Some(value) => match parse_u64(value) {
                    Some(size) => size,
                    None => DEFAULT_VOLBLOCKSIZE,
                },
                None => DEFAULT_VOLBLOCKSIZE,
            },
            encrypted: props.encrypted(),
        }
    }
}

/// The default volblocksize for the child zvols of a pool: the size asked for when the pool is
/// created, if any, else that of the disks entry, else 16KiB.
pub open spec fn volblocksize_default(cluster_size: Option<u32>, opts: PoolOptsView) -> Result<
    u64,
    ErrorView,
> {
    match cluster_size {
        Some(size) => match volblocksize_check(size as u64) {
            Ok(_) => Ok(size as u64),
            Err(error) => Err(error),
        },
        None => match opts.volblocksize {
            Some(size) => Ok(size),
            None => Ok(DEFAULT_VOLBLOCKSIZE),
        },
    }
}

impl ZfsPool {
    /// Build a `ZfsPool` from the detail properties of its container dataset.
    pub fn from_props(
        dataset: String,
        uuid: String,
        props: &DsProps,
        committed: u64,
        zpool_size: u64,
    ) -> (res: Self)
        ensures
            res@ == PoolView::of_props(dataset@, uuid@, props@, committed, zpool_size),
    {
        let (parent, name) = match rsplit_once_text(dataset.as_str(), '/') {
            Some((parent, name)) => (parent, name),
            None => (String::new(), dataset.clone()),
        };
        let disks = match props.local_text(PropertyType::PoolDisks.value()) {
            Some(disks) => disks,
            None => dataset.clone(),
        };
        let volblocksize = match props.local(PropertyType::PoolVolBlockSize.value()) {
            Some(value) => match parse_u64_text(value) {
                Some(size) => size,
                None => DEFAULT_VOLBLOCKSIZE,
            },
            None => DEFAULT_VOLBLOCKSIZE,
        };
        ZfsPool {
            name,
            parent,
            disks,
            uuid,
            used: props.u64_or_zero("used"),
            available: props.u64_or_zero("available"),
            committed,
            zpool_size,
            volblocksize,
            encrypted: props.encrypted(),
            dataset,
        }
    }

    /// The default volblocksize for the pool's child zvols: the create pool request cluster_size
    /// if set, else the ?volblocksize= disks query parameter, else 16KiB.
    pub fn default_volblocksize(args: &PoolArgs, opts: &ZfsPoolOpts) -> (res: Result<u64, Error>)
        ensures
            result_view(res) == volblocksize_default(args.cluster_size, opts@),
    {
        match args.cluster_size {
            Some(cluster_size) => {
                let volblocksize = cluster_size as u64;
                match validate_volblocksize(volblocksize) {
                    Ok(_) => Ok(volblocksize),
                    Err(error) => Err(error),
                }
            },
            None => match opts.volblocksize() {
                Some(size) => Ok(size),
                None => Ok(DEFAULT_VOLBLOCKSIZE),
            },
        }
    }

    /// Get the pool name (the last path component of the dataset).
    pub fn name(&self) -> (res: &str)
        ensures
            res@ == self@.name,
    {
        self.name.as_str()
    }

    /// Get the pool uuid.
    pub fn uuid(&self) -> (res: &str)
        ensures
            res@ == self@.uuid,
    {
        self.uuid.as_str()
    }

    /// Get the full container dataset path.
    pub fn dataset(&self) -> (res: &str)
        ensures
            res@ == self@.dataset,
    {
        self.dataset.as_str()
    }

    /// Get the parent dataset path.
    pub fn parent(&self) -> (res: &str)
        ensures
            res@ == self@.parent,
    {
        self.parent.as_str()
    }

    /// Get the verbatim disks entry, including any query parameters.
    pub fn disks(&self) -> (res: String)
        ensures
            res@ == self@.disks,
    {
        self.disks.clone()
    }

    /// Get the pool capacity in bytes. This is quota-aware if a ?quota= parameter was given;
    /// otherwise it floats with the free space of the shared underlying zpool.
    pub fn capacity(&self) -> (res: u64)
        requires
            self@.used + self@.available <= u64::MAX,
        ensures
            res == self@.used + self@.available,
    {
        self.used + self.available
    }

    /// Get the pool used bytes.
    pub fn used(&self) -> (res: u64)
        ensures
            res == self@.used,
    {
        self.used
    }

    /// Get the bytes available to the pool.
    pub fn available(&self) -> (res: u64)
        ensures
            res == self@.available,
    {
        self.available
    }

    /// Get the pool committed bytes (sum of child zvol volsizes).
    pub fn committed(&self) -> (res: u64)
        ensures
            res == self@.committed,
    {
        self.committed
    }

    /// Get the size of the underlying zpool.
    pub fn zpool_size(&self) -> (res: u64)
        ensures
            res == self@.zpool_size,
    {
        self.zpool_size
    }

    /// Get the default volblocksize for the pool's child zvols.
    pub fn volblocksize(&self) -> (res: u64)
        ensures
            res == self@.volblocksize,
    {
        self.volblocksize
    }

    /// Check if the container dataset is encrypted.
    pub fn encrypted(&self) -> (res: bool)
        ensures
            res == self@.encrypted,
    {
        self.encrypted
    }

    /// Get the persist through power loss files of the pool.
    pub fn ptpl(&self) -> (res: ZfsPoolPtpl)
        ensures
            res.pool_name() == self@.name,
    {
        ZfsPool::pool_ptpl(self.name())
    }

    /// Get the persist through power loss files of the pool with the given name.
    pub fn pool_ptpl(name: &str) -> (res: ZfsPoolPtpl)
        ensures
            res.pool_name() == name@,
    {
        ZfsPoolPtpl::new(name)
    }

    /// Get the kind of backend of the pool.
    pub fn pool_type(&self) -> (res: PoolBackend)
        ensures
            res == PoolBackend::Zfs,
    {
        PoolBackend::Zfs
    }

    /// Get the disks entries of the pool.
    pub fn disk_list(&self) -> (res: Vec<String>)
        ensures
            texts(res@) == seq![self@.disks],
    {
        let mut res: Vec<String> = Vec::new();
        res.push(self.disks());
        assert(texts(res@) =~= seq![self@.disks]);
        res
    }

    /// Get the capacity of the disks, which is the size of the underlying zpool.
    pub fn disk_capacity(&self) -> (res: u64)
        ensures
            res == self@.zpool_size,
    {
        self.zpool_size
    }

    /// Get the size of the units the pool allocates, truncated to the width it is reported with.
    pub fn cluster_size(&self) -> (res: u32)
        ensures
            res == self@.volblocksize as u32,
    {
        #[verifier::truncate]
        (self.volblocksize as u32)
    }

    /// Get the page size of the pool metadata, which there is none of.
    pub fn page_size(&self) -> (res: Option<u32>)
        ensures
            res is None,
    {
        None
    }

    /// Get the size the pool can be expanded to, which is not known.
    pub fn max_expandable_size(&self) -> (res: Option<u64>)
        ensures
            res is None,
    {
        None
    }

    /// Expand the pool, which is not supported.
    pub fn grow(&self) -> (res: Result<(), Error>)
        ensures
            res == Err::<(), Error>(Error::GrowNotSup),
    {
        Err(Error::GrowNotSup)
    }

    /// Reset the error counters of the pool, which is not supported.
    pub fn reset_errors(&self) -> (res: Result<(), Error>)
        ensures
            res == Err::<(), Error>(Error::GrowNotSup),
    {
        Err(Error::GrowNotSup)
    }

    /// The statistics of the pool, which are not supported.
    pub fn stats(&self) -> (res: Result<(), CoreError>)
        ensures
            res == Err::<(), CoreError>(CoreError::NotSupported { source: Errno::ENOSYS }),
    {
        Err(CoreError::NotSupported { source: Errno::ENOSYS })
    }

    /// Reset the statistics of the pool, which is not supported.
    pub fn reset_stats(&self) -> (res: Result<(), CoreError>)
        ensures
            res == Err::<(), CoreError>(CoreError::NotSupported { source: Errno::ENOSYS }),
    {
        Err(CoreError::NotSupported { source: Errno::ENOSYS })
    }
}

/// The pools among the discovered datasets which meet the query: the name of a pool is the last
/// path component of its dataset.
pub open spec fn candidates(
    pairs: Seq<(Seq<char>, Seq<char>)>,
    query: QueryView,
) -> Seq<(Seq<char>, Seq<char>)> {
    pairs.filter(|pair: (Seq<char>, Seq<char>)| query.matches(last_piece(pair.0, '/'), pair.1))
}

/// The datasets of discovered pools.
pub open spec fn datasets(pairs: Seq<(Seq<char>, Seq<char>)>) -> Seq<Seq<char>> {
    pairs.map_values(|pair: (Seq<char>, Seq<char>)| pair.0)
}

/// The size a listed zvol commits of the container.
pub open spec fn committed_by(volume: (Seq<char>, Seq<char>), dataset: Seq<char>) -> nat {
    match rsplit_once(volume.0, '/') {
        Some((parent, _)) => if parent == dataset {
            match parse_u64(volume.1) {
                Some(size) => size as nat,
                None => 0,
            }
        } else {
            0
        },
        None => 0,
    }
}

/// The sum of the sizes of the zvols in the container.
pub open spec fn committed_of(volumes: Seq<(Seq<char>, Seq<char>)>, dataset: Seq<char>) -> nat
    decreases volumes.len(),
{
    if volumes.len() == 0 {
        0
    } else {
        committed_of(volumes.drop_last(), dataset) + committed_by(volumes.last(), dataset)
    }
}

/// The second text of the first pair with the given first text.
pub open spec fn second_of(pairs: Seq<(Seq<char>, Seq<char>)>, first: Seq<char>) -> Option<
    Seq<char>,
>
    decreases pairs.len(),
{
    if pairs.len() == 0 {
        None
    } else if pairs[0].0 == first {
        Some(pairs[0].1)
    } else {
        second_of(pairs.drop_first(), first)
    }
}

/// The size of the zpool of a dataset, which is named by the first path component.
pub open spec fn zpool_size_of(sizes: Seq<(Seq<char>, Seq<char>)>, dataset: Seq<char>) -> u64 {
    match second_of(sizes, first_piece(dataset, '/')) {
        Some(value) => match parse_u64(value) {
            Some(size) => size,
            None => 0,
        },
        None => 0,
    }
}

/// The pools that the discovered datasets and their details stand for; a dataset without details
/// is gone by now.
pub open spec fn pools_of(
    found: Seq<(Seq<char>, Seq<char>)>,
    details: Seq<DsPropsView>,
    volumes: Seq<(Seq<char>, Seq<char>)>,
    sizes: Seq<(Seq<char>, Seq<char>)>,
) -> Seq<PoolView>
    decreases found.len(),
{
    if found.len() == 0 {
        Seq::empty()
    } else {
        let rest = pools_of(found.drop_last(), details, volumes, sizes);
        let (dataset, uuid) = found.last();
        match props_named(details, dataset) {
            Some(props) => rest.push(
                PoolView::of_props(
                    dataset,
                    uuid,
                    props,
                    committed_of(volumes, dataset) as u64,
                    zpool_size_of(sizes, dataset),
                ),
            ),
            None => rest,
        }
    }
}

/// The sizes that each of the pools commits can be added up; those of a dataset without details
/// are not.
pub open spec fn sums_fit(
    found: Seq<(Seq<char>, Seq<char>)>,
    details: Seq<DsPropsView>,
    volumes: Seq<(Seq<char>, Seq<char>)>,
) -> bool {
    forall|i: int|
        0 <= i < found.len() && props_named(details, (#[trigger] found[i]).0) is Some
            ==> committed_of(volumes, found[i].0) <= u64::MAX
}

/// Find the pools which meet the query among the discovered datasets.
pub fn matching_pools(pairs: Vec<(String, String)>, query: &ZfsQueryArgs) -> (res: Vec<
    (String, String),
>)
    ensures
        text_pairs(res@) == candidates(text_pairs(pairs@), query@),
{
    let ghost all = text_pairs(pairs@);
    let ghost keep = |pair: (Seq<char>, Seq<char>)|
        query@.matches(last_piece(pair.0, '/'), pair.1);
    let mut res: Vec<(String, String)> = Vec::new();
    proof {
        reveal(Seq::filter);
        assert(text_pairs(res@) =~= all.take(0).filter(keep));
    }
    for i in 0..pairs.len()
        invariant
            all == text_pairs(pairs@),
            keep == (|pair: (Seq<char>, Seq<char>)|
                query@.matches(last_piece(pair.0, '/'), pair.1)),
            text_pairs(res@) == all.take(i as int).filter(keep),
    {
        let ghost before = res@;
        proof {
            reveal(Seq::filter);
            assert(all.take(i + 1).drop_last() =~= all.take(i as int));
            assert(all[i as int] == (pairs@[i as int].0@, pairs@[i as int].1@));
        }
        let dataset = &pairs[i].0;
        let uuid = &pairs[i].1;
        let name = last_piece_text(dataset.as_str(), '/');
        if query.admits_entry(name.as_str(), uuid.as_str()) {
            res.push((dataset.clone(), uuid.clone()));
            assert(text_pairs(res@) =~= text_pairs(before).push(all[i as int]));
        }
    }
    assert(all.take(all.len() as int) =~= all);
    res
}

/// The datasets of discovered pools.
pub fn pool_datasets(found: &Vec<(String, String)>) -> (res: Vec<String>)
    ensures
        texts(res@) == datasets(text_pairs(found@)),
{
    let ghost all = datasets(text_pairs(found@));
    let mut res: Vec<String> = Vec::new();
    for i in 0..found.len()
        invariant
            all == datasets(text_pairs(found@)),
            texts(res@) == all.take(i as int),
    {
        let ghost before = res@;
        res.push(found[i].0.clone());
        assert(all[i as int] == found@[i as int].0@);
        assert(texts(res@) =~= texts(before).push(all[i as int]));
        assert(all.take(i + 1) =~= all.take(i as int).push(all[i as int]));
    }
    assert(all.take(all.len() as int) =~= all);
    res
}

proof fn lemma_committed_grows(
    volumes: Seq<(Seq<char>, Seq<char>)>,
    dataset: Seq<char>,
    n: int,
)
    requires
        0 <= n <= volumes.len(),
    ensures
        committed_of(volumes.take(n), dataset) <= committed_of(volumes, dataset),
    decreases volumes.len() - n,
{
    if n == volumes.len() {
        assert(volumes.take(n) =~= volumes);
    } else {
        lemma_committed_grows(volumes, dataset, n + 1);
        assert(volumes.take(n + 1).drop_last() =~= volumes.take(n));
    }
}

/// The size a listed zvol commits of the container.
fn volume_commits(volume: &(String, String), dataset: &str) -> (res: u64)
    ensures
        res == committed_by((volume.0@, volume.1@), dataset@),
{
    match rsplit_once_text(volume.0.as_str(), '/') {
        Some((parent, _)) => {
            if str_eq(parent.as_str(), dataset) {
                match parse_u64_text(volume.1.as_str()) {
                    Some(size) => size,
                    None => 0,
                }
            } else {
                0
            }
        },
        None => 0,
    }
}

/// The sum of the sizes of the zvols in the container, unless it does not fit.
pub fn committed_size(volumes: &Vec<(String, String)>, dataset: &str) -> (res: Option<u64>)
    ensures
        match res {
            Some(sum) => sum == committed_of(text_pairs(volumes@), dataset@),
            None => committed_of(text_pairs(volumes@), dataset@) > u64::MAX,
        },
{
    let ghost all = text_pairs(volumes@);
    let mut sum: u64 = 0;
    for i in 0..volumes.len()
        invariant
            all == text_pairs(volumes@),
            sum == committed_of(all.take(i as int), dataset@),
    {
        proof {
            assert(all.take(i + 1).drop_last() =~= all.take(i as int));
            assert(all[i as int] == (volumes@[i as int].0@, volumes@[i as int].1@));
            lemma_committed_grows(all, dataset@, i + 1);
        }
        let size = volume_commits(&volumes[i], dataset);
        if size > u64::MAX - sum {
            return None;
        }
        sum = sum + size;
    }
    assert(all.take(all.len() as int) =~= all);
    Some(sum)
}

/// Whether the sizes that each of the pools commits can be added up.
pub fn can_sum(
    found: &Vec<(String, String)>,
    details: &Vec<DsProps>,
    volumes: &Vec<(String, String)>,
) -> (res: bool)
    ensures
        res == sums_fit(text_pairs(found@), props_views(details@), text_pairs(volumes@)),
{
    let ghost all = text_pairs(found@);
    let ghost list = props_views(details@);
    for i in 0..found.len()
        invariant
            all == text_pairs(found@),
            list == props_views(details@),
            forall|j: int|
                0 <= j < i && props_named(list, (#[trigger] all[j]).0) is Some ==> committed_of(
                    text_pairs(volumes@),
                    all[j].0,
                ) <= u64::MAX,
    {
        assert(all[i as int].0 == found@[i as int].0@);
        let dataset = found[i].0.as_str();
        if find_props(details, dataset).is_some() && committed_size(volumes, dataset).is_none() {
            return false;
        }
    }
    true
}

/// The size of the zpool of a dataset.
fn zpool_size_in(sizes: &Vec<(String, String)>, dataset: &str) -> (res: u64)
    ensures
        res == zpool_size_of(text_pairs(sizes@), dataset@),
{
    let zpool = first_piece_text(dataset, '/');
    let ghost all = text_pairs(sizes@);
    assert(all.skip(0) =~= all);
    for i in 0..sizes.len()
        invariant
            all == text_pairs(sizes@),
            zpool@ == first_piece(dataset@, '/'),
            second_of(all, zpool@) == second_of(all.skip(i as int), zpool@),
    {
        assert(all[i as int] == (sizes@[i as int].0@, sizes@[i as int].1@));
        assert(all.skip(i as int).drop_first() =~= all.skip(i + 1));
        if str_eq(sizes[i].0.as_str(), zpool.as_str()) {
            return match parse_u64_text(sizes[i].1.as_str()) {
                Some(size) => size,
                None => 0,
            };
        }
    }
    assert(all.skip(all.len() as int).len() == 0);
    0
}

/// Build the pools from the discovered datasets and their details.
pub fn build_pools(
    found: Vec<(String, String)>,
    details: &Vec<DsProps>,
    volumes: &Vec<(String, String)>,
    sizes: &Vec<(String, String)>,
) -> (res: Vec<ZfsPool>)
    requires
        sums_fit(text_pairs(found@), props_views(details@), text_pairs(volumes@)),
    ensures
        pool_views(res@) == pools_of(
            text_pairs(found@),
            props_views(details@),
            text_pairs(volumes@),
            text_pairs(sizes@),
        ),
{
    let ghost all = text_pairs(found@);
    let mut pools: Vec<ZfsPool> = Vec::new();
    assert(pool_views(pools@) =~= Seq::empty());
    for i in 0..found.len()
        invariant
            all == text_pairs(found@),
            sums_fit(all, props_views(details@), text_pairs(volumes@)),
            pool_views(pools@) == pools_of(
                all.take(i as int),
                props_views(details@),
                text_pairs(volumes@),
                text_pairs(sizes@),
            ),
    {
        let ghost before = pools@;
        proof {
            assert(all.take(i + 1).drop_last() =~= all.take(i as int));
            assert(all[i as int] == (found@[i as int].0@, found@[i as int].1@));
        }
        let dataset = &found[i].0;
        if let Some(props) = find_props(details, dataset.as_str()) {
            let committed = match committed_size(volumes, dataset.as_str()) {
                Some(sum) => sum,
                None => 0,
            };
            let zpool_size = zpool_size_in(sizes, dataset.as_str());
            let pool = ZfsPool::from_props(
                dataset.clone(),
                found[i].1.clone(),
                props,
                committed,
                zpool_size,
            );
            pools.push(pool);
            assert(pool_views(pools@) =~= pool_views(before).push(pool@));
        }
    }
    assert(all.take(all.len() as int) =~= all);
    pools
}

} // verus!
