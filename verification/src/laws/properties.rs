//! Properties: how they are written and read, and what the properties of a dataset tell.
use vstd::prelude::*;
use crate::cli::DsProps;
use crate::engine::Protocol;
use crate::laws::arguments::written;
use crate::laws::reported::{counts, silent, tells, tells_own};
use crate::laws::text::law_split_once;
use crate::property::{lemma_keys, Property, PropertyType, PropertyView};
use crate::text::chars::{str_opt, text_opt};
use crate::text::decimal::{decimal, lemma_parse_decimal, parse_u64};
use crate::text::split::{join, lemma_nonempty_all, lemma_split_join};

verus! {

/// A property is written under its key, with its value after an equals sign, and removed by its key
/// alone.
pub proof fn law_property_written(
    property: Property,
    key: &str,
    value: Option<String>,
    set: String,
    create: [String; 2],
    inherit: String,
)
    requires
        !(property is Zfs),
        call_ensures(Property::key, (&property,), key),
        call_ensures(Property::value, (&property,), value),
        call_ensures(Property::set_arg, (&property,), set),
        call_ensures(Property::create_arg, (&property,), create),
        call_ensures(Property::inherit_arg, (&property,), inherit),
    ensures
        key@ == written(property@).0,
        value is Some,
        value->0@ == written(property@).1,
        set@ == key@ + "="@ + value->0@,
        create@.len() == 2,
        create@[0]@ == "-o"@,
        create@[1]@ == set@,
        inherit@ == key@,
{
}

/// A property is read by its key: the value as it is, but for a size, which must be a number, for a
/// protocol, which is off unless it is "nvmf", for a truth, which is false unless it is "true" or
/// "on", and for hosts, which are separated by commas. What is not known is kept as it is.
pub proof fn law_property_read(key: &str, value: &str, property: Property, n: u64, hosts: Seq<Seq<char>>)
    requires
        call_ensures(Property::from_kv, (key, value), property),
        forall|i: int|
            0 <= i < hosts.len() ==> (#[trigger] hosts[i]).len() > 0 && !hosts[i].contains(','),
    ensures
        key@ == "io.mayastor:pool"@ ==> property@ == PropertyView::PoolUuid(value@),
        key@ == "io.mayastor:disks"@ ==> property@ == PropertyView::PoolDisks(value@),
        key@ == "io.mayastor:volblocksize"@ && value@ == decimal(n as nat) ==> property@
            == PropertyView::PoolVolBlockSize(n),
        key@ == "io.mayastor:volblocksize"@ && parse_u64(value@) is None ==> property@
            == PropertyView::Unknown(key@, value@),
        key@ == "io.mayastor:uuid"@ ==> property@ == PropertyView::VolUuid(value@),
        key@ == "io.mayastor:name"@ ==> property@ == PropertyView::Name(value@),
        key@ == "io.mayastor:share"@ && value@ == "nvmf"@ ==> property@ == PropertyView::Share(
            Protocol::Nvmf,
        ),
        key@ == "io.mayastor:share"@ && value@ != "nvmf"@ ==> property@ == PropertyView::Share(
            Protocol::Off,
        ),
        key@ == "io.mayastor:allowed_hosts"@ && hosts.len() > 0 && value@ == join(hosts, seq![','])
            ==> property@ == PropertyView::AllowedHosts(hosts),
        key@ == "io.mayastor:entity_id"@ ==> property@ == PropertyView::EntityId(value@),
        key@ == "io.mayastor:snapshot_uuid"@ ==> property@ == PropertyView::SnapshotUuid(value@),
        key@ == "io.mayastor:parent_id"@ ==> property@ == PropertyView::ParentId(value@),
        key@ == "io.mayastor:txn_id"@ ==> property@ == PropertyView::TxnId(value@),
        key@ == "io.mayastor:create_time"@ ==> property@ == PropertyView::CreateTime(value@),
        key@ == "io.mayastor:discarded"@ ==> property@ == PropertyView::Discarded(
            value@ == "true"@ || value@ == "on"@,
        ),
        property is Unknown ==> property@ == PropertyView::Unknown(key@, value@),
{
    lemma_parse_decimal(n);
    lemma_keys(PropertyType::PoolUuid);
    lemma_keys(PropertyType::PoolDisks);
    lemma_keys(PropertyType::PoolVolBlockSize);
    lemma_keys(PropertyType::VolUuid);
    lemma_keys(PropertyType::Name);
    lemma_keys(PropertyType::Share);
    lemma_keys(PropertyType::AllowedHosts);
    lemma_keys(PropertyType::EntityId);
    lemma_keys(PropertyType::SnapshotUuid);
    lemma_keys(PropertyType::ParentId);
    lemma_keys(PropertyType::TxnId);
    lemma_keys(PropertyType::CreateTime);
    lemma_keys(PropertyType::Discarded);
    if hosts.len() > 0 {
        lemma_split_join(hosts, ',');
        lemma_nonempty_all(hosts);
    }
}

/// A text is read as a property by what stands before and after its first equals sign; a text
/// without one is a key without a value.
pub proof fn law_property_tag(
    tag: &str,
    key: &str,
    value: &str,
    whole: Property,
    parts: Property,
)
    requires
        call_ensures(Property::new, (tag,), whole),
        call_ensures(Property::from_kv, (key, value), parts),
        !key@.contains('='),
    ensures
        tag@ == key@ + seq!['='] + value@ ==> whole@ == parts@,
        tag@ == key@ && value@.len() == 0 ==> whole@ == parts@,
{
    law_split_once(tag@, '=');
    if tag@ == key@ + seq!['='] + value@ {
        let at = key@.len() as int;
        assert(tag@[at] == '=');
        assert(tag@.contains('='));
        tag@.index_of_first_ensures('=');
        let i = tag@.index_of_first('=')->0;
        if i < at {
            assert(key@[i] == '=');
        }
        assert(tag@.take(i) =~= key@);
        assert(tag@.skip(i + 1) =~= value@);
    }
    if tag@ == key@ && value@.len() == 0 {
        assert(value@ =~= Seq::empty());
    }
}

/// What a dataset tells of a property is what was reported for it last: its value from whatever
/// source, or only where it is set on the dataset itself. A property that is not set tells nothing.
pub proof fn law_dataset_tells(
    props: DsProps,
    key: &str,
    value: Option<&str>,
    local: Option<&str>,
    value_text: Option<String>,
    local_text: Option<String>,
    v: Seq<char>,
)
    requires
        call_ensures(DsProps::value, (&props, key), value),
        call_ensures(DsProps::local, (&props, key), local),
        call_ensures(DsProps::value_text, (&props, key), value_text),
        call_ensures(DsProps::local_text, (&props, key), local_text),
    ensures
        tells(props@, key@, v) <==> str_opt(value) == Some(v),
        silent(props@, key@) <==> value is None,
        tells_own(props@, key@, v) <==> str_opt(local) == Some(v),
        text_opt(value_text) == str_opt(value),
        text_opt(local_text) == str_opt(local),
{
}

/// A dataset tells numbers as they are reported, and zero where there is none; a switch is on only
/// where it is reported on; the dataset is encrypted where its encryption is told and not off.
pub proof fn law_dataset_counts(
    props: DsProps,
    key: &str,
    number: Option<u64>,
    or_zero: u64,
    on: bool,
    encrypted: bool,
    name: &str,
    n: u64,
)
    requires
        call_ensures(DsProps::u64, (&props, key), number),
        call_ensures(DsProps::u64_or_zero, (&props, key), or_zero),
        call_ensures(DsProps::bool_on, (&props, key), on),
        call_ensures(DsProps::encrypted, (&props,), encrypted),
        call_ensures(DsProps::name, (&props,), name),
    ensures
        counts(props@, key@, n) ==> number == Some(n) && or_zero == n,
        silent(props@, key@) ==> number is None && or_zero == 0,
        on <==> tells(props@, key@, "on"@),
        encrypted <==> !silent(props@, "encryption"@) && !tells(props@, "encryption"@, "off"@),
        name@ == props@.name,
{
    lemma_parse_decimal(n);
    reveal_strlit("-");
    reveal_strlit("on");
    reveal_strlit("off");
    assert("on"@ != "-"@) by {
        assert("on"@.len() == 2 && "-"@.len() == 1);
    }
}

} // verus!
