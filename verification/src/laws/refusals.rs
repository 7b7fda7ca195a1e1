//! Why requests are refused.
use vstd::prelude::*;
use crate::dataset::{
    component_check, components_check, is_component, is_valid_dataset_component,
    is_valid_dataset_path,
};
use crate::ds_pool::ZfsPool;
use crate::engine::{CloneParams, PoolArgs, ReplicaArgs, SnapshotParams};
use crate::error::{Error, ErrorView};
use crate::flow::snapshot::{CloneCreate, SnapCreate};
use crate::flow::volume::{create_block, VolCreate};
use crate::laws::text::law_split_once;
use crate::operation::Step;
use crate::options::{
    can_round_up, is_volblocksize, law_round_up, parse_size, pool_opts_of_disks, round_up,
    size_of_text, validate_prop_value, validate_volblocksize, with_pool_pair, with_pool_pairs,
    with_zvol_pair, zvol_opts_of, PoolOptsView, ZfsPoolOpts, ZvolCreateOpts, ZvolOptsView,
};
use crate::snapshot::ZfsSnapshot;
use crate::text::chars::{
    control, is_alphanumeric, is_control, is_digit, is_whitespace, text_pairs, texts,
};
use crate::text::decimal::decimal;
use crate::text::split::{lemma_split_once_at, split};
use crate::zvol_replica::ZfsVol;

verus! {

/// The characters that are told apart: decimal digits and letters without accents, control
/// characters, and white space.
pub proof fn law_characters(c: char)
    ensures
        is_digit(c) <==> c == '0' || c == '1' || c == '2' || c == '3' || c == '4' || c == '5' || c
            == '6' || c == '7' || c == '8' || c == '9',
        is_alphanumeric(c) <==> (48 <= c as u32 <= 57) || (65 <= c as u32 <= 90) || (97 <= c as u32
            <= 122),
        is_control(c) <==> c as u32 <= 31 || (127 <= c as u32 <= 159),
        is_whitespace(c) <==> (9 <= c as u32 <= 13) || c as u32 == 32 || c as u32 == 133 || c as u32
            == 160 || c as u32 == 5760 || (8192 <= c as u32 <= 8202) || c as u32 == 8232 || c as u32
            == 8233 || c as u32 == 8239 || c as u32 == 8287 || c as u32 == 12288,
{
}

/// A value may be passed to zfs if it is a word of letters, digits, "-", "_" and ".".
pub proof fn law_value_refused(key: &str, value: &str, res: Result<(), Error>)
    requires
        call_ensures(validate_prop_value, (key, value), res),
    ensures
        res is Ok <==> value@.len() > 0 && forall|i: int|
            0 <= i < value@.len() ==> is_alphanumeric(#[trigger] value@[i]) || value@[i] == '-'
                || value@[i] == '_' || value@[i] == '.',
        res is Err ==> res->Err_0 is InvalidOption && res->Err_0->InvalidOption_error@ == "'"@
            + value@ + "' is not a valid value for '"@ + key@ + "'"@,
{
}

/// A block size is refused with the bounds that it must keep.
pub proof fn law_block_refused(size: u64, res: Result<(), Error>)
    requires
        call_ensures(validate_volblocksize, (size,), res),
    ensures
        res is Ok <==> is_volblocksize(size),
        res is Err ==> res->Err_0 is InvalidOption && res->Err_0->InvalidOption_error@
            == "volblocksize "@ + decimal(size as nat) + " must be a power of two between "@
            + decimal(512) + " and "@ + decimal(131072),
{
}

/// A size is read as its text says, or refused as an option.
pub proof fn law_size_read(value: &str, res: Result<u64, Error>)
    requires
        call_ensures(parse_size, (value,), res),
    ensures
        res is Ok <==> size_of_text(value@) is Ok,
        res matches Ok(size) ==> size_of_text(value@) == Ok::<u64, ErrorView>(size),
        res is Err ==> res->Err_0 is InvalidOption,
{
}

/// A size is rounded up to the least multiple of the block size which holds it, where there is one.
pub proof fn law_size_rounded(size: u64, block: u64, fits: bool, res: u64)
    requires
        block > 0,
        call_ensures(can_round_up, (size, block), fits),
        fits ==> call_ensures(round_up, (size, block), res),
    ensures
        fits ==> res % block == 0 && size <= res && res < size + block,
        size + block <= u64::MAX ==> fits,
        size as int % block as int == 0 ==> fits && res == size,
{
    law_round_up(size, block);
}

/// A name which is not valid is refused with its name and the form that it must have.
pub proof fn law_name_refused(value: &str, res: Result<(), Error>)
    requires
        call_ensures(is_valid_dataset_component, (value,), res),
    ensures
        res is Ok <==> is_component(value@),
        res is Err ==> res->Err_0 is InvalidName && res->Err_0->InvalidName_name@ == value@
            && res->Err_0->InvalidName_error@ == "must be [a-zA-Z0-9][a-zA-Z0-9_.:-]*"@,
{
}

/// A path is refused if it is empty, or for the first of its components which is not valid.
pub proof fn law_path_refused(value: &str, at: int, res: Result<(), Error>)
    requires
        call_ensures(is_valid_dataset_path, (value,), res),
    ensures
        value@.len() == 0 ==> res is Err && res->Err_0 is InvalidName
            && res->Err_0->InvalidName_name@ == value@ && res->Err_0->InvalidName_error@
            == "must not be empty"@,
        res is Ok ==> forall|i: int|
            0 <= i < split(value@, '/').len() ==> is_component(#[trigger] split(value@, '/')[i]),
        value@.len() > 0 && 0 <= at < split(value@, '/').len() && !is_component(
            split(value@, '/')[at],
        ) && (forall|i: int|
            0 <= i < at ==> is_component(#[trigger] split(value@, '/')[i])) ==> res is Err
            && res->Err_0 is InvalidName && res->Err_0->InvalidName_name@ == split(value@, '/')[at],
{
    let parts = split(value@, '/');
    if value@.len() > 0 && 0 <= at < parts.len() && !is_component(parts[at]) && (forall|i: int|
        0 <= i < at ==> is_component(#[trigger] parts[i])) {
        lemma_first_component(parts, at);
    }
}

proof fn lemma_first_component(parts: Seq<Seq<char>>, at: int)
    requires
        0 <= at < parts.len(),
        !is_component(parts[at]),
        forall|i: int| 0 <= i < at ==> is_component(#[trigger] parts[i]),
    ensures
        components_check(parts) == component_check(parts[at]),
    decreases parts.len(),
{
    let init = parts.drop_last();
    if at < parts.len() - 1 {
        assert forall|i: int| 0 <= i < at implies is_component(#[trigger] init[i]) by {
            assert(init[i] == parts[i]);
        }
        lemma_first_component(init, at);
    } else {
        assert forall|i: int| 0 <= i < init.len() implies is_component(#[trigger] init[i]) by {
            assert(init[i] == parts[i]);
        }
        lemma_all_components(init);
    }
}

proof fn lemma_all_components(parts: Seq<Seq<char>>)
    requires
        forall|i: int| 0 <= i < parts.len() ==> is_component(#[trigger] parts[i]),
    ensures
        components_check(parts) is Ok,
    decreases parts.len(),
{
    if parts.len() > 0 {
        let init = parts.drop_last();
        assert forall|i: int| 0 <= i < init.len() implies is_component(#[trigger] init[i]) by {
            assert(init[i] == parts[i]);
        }
        lemma_all_components(init);
        assert(is_component(parts[parts.len() - 1]));
    }
}

/// The options of a request are taken one after the other: the first which is refused decides.
pub proof fn law_first_option_decides(
    opts: PoolOptsView,
    pool: Seq<Seq<char>>,
    pool_bad: Seq<char>,
    pool_rest: Seq<Seq<char>>,
    own: Seq<(Seq<char>, Seq<char>)>,
    own_bad: (Seq<char>, Seq<char>),
    own_rest: Seq<(Seq<char>, Seq<char>)>,
)
    ensures
        with_pool_pairs(opts, pool) matches Ok(before) ==> (with_pool_pair(before, pool_bad) is Err
            ==> with_pool_pairs(opts, pool.push(pool_bad) + pool_rest) == with_pool_pair(
            before,
            pool_bad,
        )),
        zvol_opts_of(own) matches Ok(before) ==> (with_zvol_pair(before, own_bad) is Err
            ==> zvol_opts_of(own.push(own_bad) + own_rest) == with_zvol_pair(before, own_bad)),
    decreases pool_rest.len() + own_rest.len(),
{
    let all = pool.push(pool_bad) + pool_rest;
    let whole = own.push(own_bad) + own_rest;
    if pool_rest.len() == 0 {
        assert(all =~= pool.push(pool_bad));
        assert(all.drop_last() =~= pool);
    }
    if own_rest.len() == 0 {
        assert(whole =~= own.push(own_bad));
        assert(whole.drop_last() =~= own);
    }
    if pool_rest.len() > 0 {
        law_first_option_decides(opts, pool, pool_bad, pool_rest.drop_last(), own, own_bad, own_rest);
        assert(all.drop_last() =~= pool.push(pool_bad) + pool_rest.drop_last());
    }
    if own_rest.len() > 0 {
        law_first_option_decides(opts, pool, pool_bad, pool_rest, own, own_bad, own_rest.drop_last());
        assert(whole.drop_last() =~= own.push(own_bad) + own_rest.drop_last());
    }
}

/// An option which is not known is refused by name, and one which is not written as a pair as it is.
pub proof fn law_options_refused(
    opts: PoolOptsView,
    own: ZvolOptsView,
    pair: Seq<char>,
    key: Seq<char>,
    value: Seq<char>,
)
    requires
        !key.contains('='),
        key != "volblocksize"@,
        key != "compression"@,
        key != "dedup"@,
        key != "logbias"@,
        key != "sync"@,
    ensures
        !pair.contains('=') ==> with_pool_pair(opts, pair) == Err::<PoolOptsView, ErrorView>(
            ErrorView::InvalidOption { error: "'"@ + pair + "' is not a key=value pair"@ },
        ),
        key != "quota"@ ==> with_pool_pair(opts, key + seq!['='] + value) == Err::<
            PoolOptsView,
            ErrorView,
        >(
            ErrorView::InvalidOption {
                error: "'"@ + key + "' is not a supported ZFS pool option"@,
            },
        ),
        with_zvol_pair(own, (key, value)) == Err::<ZvolOptsView, ErrorView>(
            ErrorView::InvalidOption {
                error: "'"@ + key + "' is not a supported ZFS replica property"@,
            },
        ),
{
    law_split_once(pair, '=');
    let text = key + seq!['='] + value;
    let at = key.len() as int;
    assert(text[at] == '=');
    assert forall|j: int| 0 <= j < at implies text[j] != '=' by {
        assert(text[j] == key[j]);
    }
    lemma_split_once_at(text, '=', at);
    assert(text.take(at) =~= key);
}

/// A pool has exactly one disks entry.
pub proof fn law_disks_refused(disks: &[String], res: Result<ZfsPoolOpts, Error>)
    requires
        call_ensures(ZfsPoolOpts::try_from_disks, (disks,), res),
    ensures
        disks@.len() == 0 ==> res is Err && res->Err_0 is InvalidDisks
            && res->Err_0->InvalidDisks_error@
            == "a ZFS pool requires exactly one disks entry, none given"@,
        disks@.len() > 1 ==> res is Err && res->Err_0 is InvalidDisks
            && res->Err_0->InvalidDisks_error@ == "a ZFS pool requires exactly one disks entry, "@
            + decimal(disks@.len()) + " given"@,
        disks@.len() == 1 ==> match res {
            Ok(opts) => pool_opts_of_disks(seq![disks@[0]@]) == Ok::<PoolOptsView, ErrorView>(
                opts@,
            ),
            Err(error) => pool_opts_of_disks(seq![disks@[0]@]) == Err::<PoolOptsView, ErrorView>(
                error@,
            ),
        },
{
    assert(texts(disks@).len() == disks@.len());
    if disks@.len() == 1 {
        assert(texts(disks@) =~= seq![disks@[0]@]);
    }
}

/// The parsed options are told as they are.
pub proof fn law_options_told(
    opts: ZfsPoolOpts,
    own: ZvolCreateOpts,
    parent: &str,
    disks: &str,
    block: Option<u64>,
    quota: Option<u64>,
    own_block: Option<u64>,
)
    requires
        call_ensures(ZfsPoolOpts::parent, (&opts,), parent),
        call_ensures(ZfsPoolOpts::disks, (&opts,), disks),
        call_ensures(ZfsPoolOpts::volblocksize, (&opts,), block),
        call_ensures(ZfsPoolOpts::quota, (&opts,), quota),
        call_ensures(ZvolCreateOpts::volblocksize, (&own,), own_block),
    ensures
        parent@ == opts@.parent,
        disks@ == opts@.disks,
        block == opts@.volblocksize,
        quota == opts@.quota,
        own_block == own@.volblocksize,
{
}

/// A snapshot needs a uuid, and a clone a uuid and a name; the uuids must be valid names.
pub proof fn law_snapshot_refused(
    vol: ZfsVol,
    params: SnapshotParams,
    now: String,
    a: Step<SnapCreate, ZfsSnapshot>,
    snap: ZfsSnapshot,
    clone: CloneParams,
    b: Step<CloneCreate, ZfsVol>,
)
    requires
        call_ensures(ZfsSnapshot::create_at, (&vol, params, now), a),
        call_ensures(ZfsSnapshot::create_clone, (&snap, clone), b),
    ensures
        params.snapshot_uuid is None ==> a is Failed && a->Failed_0 is InvalidOption
            && a->Failed_0->InvalidOption_error@ == "a snapshot uuid must be provided"@,
        params.snapshot_uuid is Some && !is_component(params.snapshot_uuid->0@) ==> a is Failed
            && a->Failed_0 is InvalidName && a->Failed_0->InvalidName_name@
            == params.snapshot_uuid->0@,
        clone.clone_uuid is None || clone.clone_name is None ==> b is Failed
            && b->Failed_0 is InvalidOption && b->Failed_0->InvalidOption_error@
            == "a clone uuid and name must be provided"@,
        clone.clone_uuid is Some && clone.clone_name is Some && !is_component(
            clone.clone_uuid->0@,
        ) ==> b is Failed && b->Failed_0 is InvalidName && b->Failed_0->InvalidName_name@
            == clone.clone_uuid->0@,
{
}

/// A replica whose uuid is not a valid name is refused by it; else one with an option that is not
/// valid is refused for that.
pub proof fn law_replica_refused(pool: ZfsPool, args: ReplicaArgs, step: Step<VolCreate, ZfsVol>)
    requires
        call_ensures(ZfsVol::create, (&pool, args), step) || call_ensures(
            ZfsPool::create_zvol,
            (&pool, args),
            step,
        ),
    ensures
        !is_component(args.uuid@) ==> step is Failed && step->Failed_0 is InvalidName
            && step->Failed_0->InvalidName_name@ == args.uuid@,
        is_component(args.uuid@) ==> (zvol_opts_of(text_pairs(args.properties@)) matches Err(error)
            ==> step is Failed && step->Failed_0@ == error),
{
}

/// A replica can be created unless its size, rounded up to its blocks, is more than can be told.
pub proof fn law_replica_fits(pool: ZfsPool, args: ReplicaArgs, fits: bool)
    requires
        call_ensures(VolCreate::fits, (&pool, &args), fits),
    ensures
        args.size + 131072 <= u64::MAX ==> fits,
        !is_component(args.uuid@) ==> fits,
        zvol_opts_of(text_pairs(args.properties@)) is Err ==> fits,
        !fits ==> args.size > u64::MAX - 131072,
{
    if let Ok((_, block)) = create_block(pool@, args) {
        law_round_up(args.size, block);
    }
}

/// A pool tells its default block size, or refuses the one that is asked for.
pub proof fn law_pool_block(args: PoolArgs, opts: ZfsPoolOpts, res: Result<u64, Error>)
    requires
        call_ensures(ZfsPool::default_volblocksize, (&args, &opts), res),
    ensures
        args.cluster_size matches Some(size) ==> (res is Ok <==> is_volblocksize(size as u64)) && (
        res is Ok ==> res == Ok::<u64, Error>(size as u64)) && (res is Err
            ==> res->Err_0 is InvalidOption),
        args.cluster_size is None && opts@.volblocksize is Some ==> res == Ok::<u64, Error>(
            opts@.volblocksize->0,
        ),
        args.cluster_size is None && opts@.volblocksize is None ==> res == Ok::<u64, Error>(16384),
{
}

} // verus!
