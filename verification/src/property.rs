//! Properties are attributes which are persisted as ZFS user properties (namespace
//! "io.mayastor:") on a given ZFS dataset and which can be used to identify or retrieve specific
//! information from a resource, even across reboots.
//!
//! # Warning
//! ZFS user properties are inherited by child datasets and snapshots, so any ownership check must
//! require the property source to be "local", see `DsProps::local`.
use vstd::prelude::*;
use crate::engine::Protocol;
use crate::text::chars::{str_eq, texts};
use crate::text::decimal::{decimal, decimal_text, lemma_parse_decimal, parse_u64, parse_u64_text};
use crate::text::split::{
    join, join_texts, lemma_nonempty_all, lemma_split_join, lemma_split_once_at, nonempty, split, split_nonempty,
    split_once, split_once_text,
};

verus! {

/// The kinds of properties.
#[derive(Debug, Clone, Copy, PartialEq, Eq, Structural)]
pub enum PropertyType {
    /// The namespace of the properties itself.
    Zfs,
    /// The pool uuid; its local presence marks a dataset as a pool.
    PoolUuid,
    /// The verbatim disks entry of the pool.
    PoolDisks,
    /// The default volblocksize of the pool.
    PoolVolBlockSize,
    /// The replica uuid; its local presence marks a zvol as a replica.
    VolUuid,
    /// The name of the replica or snapshot.
    Name,
    /// The share protocol of the replica.
    Share,
    /// The hosts which may connect to the shared replica.
    AllowedHosts,
    /// The entity which owns the resource.
    EntityId,
    /// The snapshot uuid; on a clone, that of its source.
    SnapshotUuid,
    /// The replica a snapshot was taken of.
    ParentId,
    /// The transaction a snapshot was taken by.
    TxnId,
    /// The time a snapshot was taken at.
    CreateTime,
    /// Whether a snapshot was deleted whilst having clones.
    Discarded,
}

/// A property along with its value.
#[derive(Debug, Clone, PartialEq, Eq)]
pub enum Property {
    Zfs,
    PoolUuid(String),
    PoolDisks(String),
    PoolVolBlockSize(u64),
    VolUuid(String),
    Name(String),
    Share(Protocol),
    AllowedHosts(Vec<String>),
    EntityId(String),
    SnapshotUuid(String),
    ParentId(String),
    TxnId(String),
    CreateTime(String),
    Discarded(bool),
    /// A property which is not of any known kind, or whose value does not suit its kind.
    Unknown(String, String),
}

/// The mathematical view of a property.
#[verifier::ext_equal]
pub enum PropertyView {
    Zfs,
    PoolUuid(Seq<char>),
    PoolDisks(Seq<char>),
    PoolVolBlockSize(u64),
    VolUuid(Seq<char>),
    Name(Seq<char>),
    Share(Protocol),
    AllowedHosts(Seq<Seq<char>>),
    EntityId(Seq<char>),
    SnapshotUuid(Seq<char>),
    ParentId(Seq<char>),
    TxnId(Seq<char>),
    CreateTime(Seq<char>),
    Discarded(bool),
    Unknown(Seq<char>, Seq<char>),
}

impl View for Property {
    type V = PropertyView;

    open spec fn view(&self) -> PropertyView {
        match self {
            Property::Zfs => PropertyView::Zfs,
            Property::PoolUuid(v) => PropertyView::PoolUuid(v@),
            Property::PoolDisks(v) => PropertyView::PoolDisks(v@),
            Property::PoolVolBlockSize(v) => PropertyView::PoolVolBlockSize(*v),
            Property::VolUuid(v) => PropertyView::VolUuid(v@),
            Property::Name(v) => PropertyView::Name(v@),
            Property::Share(v) => PropertyView::Share(*v),
            Property::AllowedHosts(v) => PropertyView::AllowedHosts(texts(v@)),
            Property::EntityId(v) => PropertyView::EntityId(v@),
            Property::SnapshotUuid(v) => PropertyView::SnapshotUuid(v@),
            Property::ParentId(v) => PropertyView::ParentId(v@),
            Property::TxnId(v) => PropertyView::TxnId(v@),
            Property::CreateTime(v) => PropertyView::CreateTime(v@),
            Property::Discarded(v) => PropertyView::Discarded(*v),
            Property::Unknown(key, value) => PropertyView::Unknown(key@, value@),
        }
    }
}

impl PropertyType {
    /// The key under which properties of this kind are persisted.
    pub open spec fn key(self) -> Seq<char> {
        match self {
            PropertyType::Zfs => "io.mayastor"@,
            PropertyType::PoolUuid => "io.mayastor:pool"@,
            PropertyType::PoolDisks => "io.mayastor:disks"@,
            PropertyType::PoolVolBlockSize => "io.mayastor:volblocksize"@,
            PropertyType::VolUuid => "io.mayastor:uuid"@,
            PropertyType::Name => "io.mayastor:name"@,
            PropertyType::Share => "io.mayastor:share"@,
            PropertyType::AllowedHosts => "io.mayastor:allowed_hosts"@,
            PropertyType::EntityId => "io.mayastor:entity_id"@,
            PropertyType::SnapshotUuid => "io.mayastor:snapshot_uuid"@,
            PropertyType::ParentId => "io.mayastor:parent_id"@,
            PropertyType::TxnId => "io.mayastor:txn_id"@,
            PropertyType::CreateTime => "io.mayastor:create_time"@,
            PropertyType::Discarded => "io.mayastor:discarded"@,
        }
    }

    /// The key under which properties of this kind are persisted.
    pub fn value(&self) -> (res: &'static str)
        ensures
            res@ == self.key(),
    {
        match self {
            PropertyType::Zfs => "io.mayastor",
            PropertyType::PoolUuid => "io.mayastor:pool",
            PropertyType::PoolDisks => "io.mayastor:disks",
            PropertyType::PoolVolBlockSize => "io.mayastor:volblocksize",
            PropertyType::VolUuid => "io.mayastor:uuid",
            PropertyType::Name => "io.mayastor:name",
            PropertyType::Share => "io.mayastor:share",
            PropertyType::AllowedHosts => "io.mayastor:allowed_hosts",
            PropertyType::EntityId => "io.mayastor:entity_id",
            PropertyType::SnapshotUuid => "io.mayastor:snapshot_uuid",
            PropertyType::ParentId => "io.mayastor:parent_id",
            PropertyType::TxnId => "io.mayastor:txn_id",
            PropertyType::CreateTime => "io.mayastor:create_time",
            PropertyType::Discarded => "io.mayastor:discarded",
        }
    }

    /// The kind of property with the given key.
    pub open spec fn of_key(key: Seq<char>) -> Option<PropertyType> {
        if key == PropertyType::Zfs.key() {
            Some(PropertyType::Zfs)
        } else if key == PropertyType::PoolUuid.key() {
            Some(PropertyType::PoolUuid)
        } else if key == PropertyType::PoolDisks.key() {
            Some(PropertyType::PoolDisks)
        } else if key == PropertyType::PoolVolBlockSize.key() {
            Some(PropertyType::PoolVolBlockSize)
        } else if key == PropertyType::VolUuid.key() {
            Some(PropertyType::VolUuid)
        } else if key == PropertyType::Name.key() {
            Some(PropertyType::Name)
        } else if key == PropertyType::Share.key() {
            Some(PropertyType::Share)
        } else if key == PropertyType::AllowedHosts.key() {
            Some(PropertyType::AllowedHosts)
        } else if key == PropertyType::EntityId.key() {
            Some(PropertyType::EntityId)
        } else if key == PropertyType::SnapshotUuid.key() {
            Some(PropertyType::SnapshotUuid)
        } else if key == PropertyType::ParentId.key() {
            Some(PropertyType::ParentId)
        } else if key == PropertyType::TxnId.key() {
            Some(PropertyType::TxnId)
        } else if key == PropertyType::CreateTime.key() {
            Some(PropertyType::CreateTime)
        } else if key == PropertyType::Discarded.key() {
            Some(PropertyType::Discarded)
        } else {
            None
        }
    }

    /// The kind of property with the given key.
    pub fn from_key(key: &str) -> (res: Option<PropertyType>)
        ensures
            res == Self::of_key(key@),
    {
        if str_eq(key, "io.mayastor") {
            Some(PropertyType::Zfs)
        } else if str_eq(key, "io.mayastor:pool") {
            Some(PropertyType::PoolUuid)
        } else if str_eq(key, "io.mayastor:disks") {
            Some(PropertyType::PoolDisks)
        } else if str_eq(key, "io.mayastor:volblocksize") {
            Some(PropertyType::PoolVolBlockSize)
        } else if str_eq(key, "io.mayastor:uuid") {
            Some(PropertyType::VolUuid)
        } else if str_eq(key, "io.mayastor:name") {
            Some(PropertyType::Name)
        } else if str_eq(key, "io.mayastor:share") {
            Some(PropertyType::Share)
        } else if str_eq(key, "io.mayastor:allowed_hosts") {
            Some(PropertyType::AllowedHosts)
        } else if str_eq(key, "io.mayastor:entity_id") {
            Some(PropertyType::EntityId)
        } else if str_eq(key, "io.mayastor:snapshot_uuid") {
            Some(PropertyType::SnapshotUuid)
        } else if str_eq(key, "io.mayastor:parent_id") {
            Some(PropertyType::ParentId)
        } else if str_eq(key, "io.mayastor:txn_id") {
            Some(PropertyType::TxnId)
        } else if str_eq(key, "io.mayastor:create_time") {
            Some(PropertyType::CreateTime)
        } else if str_eq(key, "io.mayastor:discarded") {
            Some(PropertyType::Discarded)
        } else {
            None
        }
    }
}

/// The persisted text of a truth value.
pub open spec fn bool_value(b: bool) -> Seq<char> {
    if b {
        "true"@
    } else {
        "false"@
    }
}

/// The truth value that a persisted text stands for.
pub open spec fn is_true(value: Seq<char>) -> bool {
    value == "true"@ || value == "on"@
}

/// The persisted text of a share protocol.
pub open spec fn protocol_value(protocol: Protocol) -> Seq<char> {
    match protocol {
        Protocol::Off => "off"@,
        Protocol::Nvmf => "nvmf"@,
    }
}

/// The share protocol that a persisted text stands for.
pub open spec fn protocol_of(value: Seq<char>) -> Protocol {
    if value == "nvmf"@ {
        Protocol::Nvmf
    } else {
        Protocol::Off
    }
}

/// Each host of the list can be told from the text that joins them with commas.
pub open spec fn faithful_hosts(hosts: Seq<Seq<char>>) -> bool {
    &&& forall|i: int| 0 <= i < hosts.len() ==> (#[trigger] hosts[i]).len() > 0
    &&& forall|i: int| 0 <= i < hosts.len() ==> !(#[trigger] hosts[i]).contains(',')
}

impl PropertyView {
    /// The key of the property.
    pub open spec fn key(self) -> Seq<char> {
        match self {
            PropertyView::Zfs => PropertyType::Zfs.key(),
            PropertyView::PoolUuid(..) => PropertyType::PoolUuid.key(),
            PropertyView::PoolDisks(..) => PropertyType::PoolDisks.key(),
            PropertyView::PoolVolBlockSize(..) => PropertyType::PoolVolBlockSize.key(),
            PropertyView::VolUuid(..) => PropertyType::VolUuid.key(),
            PropertyView::Name(..) => PropertyType::Name.key(),
            PropertyView::Share(..) => PropertyType::Share.key(),
            PropertyView::AllowedHosts(..) => PropertyType::AllowedHosts.key(),
            PropertyView::EntityId(..) => PropertyType::EntityId.key(),
            PropertyView::SnapshotUuid(..) => PropertyType::SnapshotUuid.key(),
            PropertyView::ParentId(..) => PropertyType::ParentId.key(),
            PropertyView::TxnId(..) => PropertyType::TxnId.key(),
            PropertyView::CreateTime(..) => PropertyType::CreateTime.key(),
            PropertyView::Discarded(..) => PropertyType::Discarded.key(),
            PropertyView::Unknown(key, _) => key,
        }
    }

    /// The value of the property as a text.
    pub open spec fn value(self) -> Option<Seq<char>> {
        match self {
            PropertyView::Zfs => None,
            PropertyView::PoolUuid(v) => Some(v),
            PropertyView::PoolDisks(v) => Some(v),
            PropertyView::PoolVolBlockSize(v) => Some(decimal(v as nat)),
            PropertyView::VolUuid(v) => Some(v),
            PropertyView::Name(v) => Some(v),
            PropertyView::Share(v) => Some(protocol_value(v)),
            PropertyView::AllowedHosts(v) => Some(join(v, ","@)),
            PropertyView::EntityId(v) => Some(v),
            PropertyView::SnapshotUuid(v) => Some(v),
            PropertyView::ParentId(v) => Some(v),
            PropertyView::TxnId(v) => Some(v),
            PropertyView::CreateTime(v) => Some(v),
            PropertyView::Discarded(v) => Some(bool_value(v)),
            PropertyView::Unknown(_, value) => Some(value),
        }
    }

    /// The property as an argument of "zfs set": key=value.
    pub open spec fn set_arg(self) -> Seq<char> {
        match self.value() {
            None => self.key(),
            Some(value) => self.key() + "="@ + value,
        }
    }

    /// The property with the given key and value, where the key is known and the value suits it.
    pub open spec fn known(key: Seq<char>, value: Seq<char>) -> Option<PropertyView> {
        match PropertyType::of_key(key) {
            None => None,
            Some(PropertyType::Zfs) => Some(PropertyView::Zfs),
            Some(PropertyType::PoolUuid) => Some(PropertyView::PoolUuid(value)),
            Some(PropertyType::PoolDisks) => Some(PropertyView::PoolDisks(value)),
            Some(PropertyType::PoolVolBlockSize) => match parse_u64(value) {
                Some(size) => Some(PropertyView::PoolVolBlockSize(size)),
                None => None,
            },
            Some(PropertyType::VolUuid) => Some(PropertyView::VolUuid(value)),
            Some(PropertyType::Name) => Some(PropertyView::Name(value)),
            Some(PropertyType::Share) => Some(PropertyView::Share(protocol_of(value))),
            Some(PropertyType::AllowedHosts) => Some(PropertyView::AllowedHosts(nonempty(split(value, ',')))),
            Some(PropertyType::EntityId) => Some(PropertyView::EntityId(value)),
            Some(PropertyType::SnapshotUuid) => Some(PropertyView::SnapshotUuid(value)),
            Some(PropertyType::ParentId) => Some(PropertyView::ParentId(value)),
            Some(PropertyType::TxnId) => Some(PropertyView::TxnId(value)),
            Some(PropertyType::CreateTime) => Some(PropertyView::CreateTime(value)),
            Some(PropertyType::Discarded) => Some(PropertyView::Discarded(is_true(value))),
        }
    }

    /// The property with the given key and value.
    pub open spec fn of_kv(key: Seq<char>, value: Seq<char>) -> PropertyView {
        match PropertyView::known(key, value) {
            Some(property) => property,
            None => PropertyView::Unknown(key, value),
        }
    }

    /// The property that a text of the form key=value, or a mere key, stands for.
    pub open spec fn of_tag(tag: Seq<char>) -> PropertyView {
        match split_once(tag, '=') {
            Some((key, value)) => PropertyView::of_kv(key, value),
            None => PropertyView::of_kv(tag, Seq::empty()),
        }
    }

    /// The property can be told from its key and value: a list of hosts has neither an empty entry
    /// nor one with a comma, and an unknown property has a key which is not a known one and holds
    /// no equals sign.
    pub open spec fn faithful(self) -> bool {
        match self {
            PropertyView::AllowedHosts(hosts) => faithful_hosts(hosts),
            PropertyView::Unknown(key, _) => PropertyType::of_key(key) is None && !key.contains(
                '=',
            ),
            _ => true,
        }
    }
}

impl Property {
    /// The key of this property.
    pub fn key(&self) -> (res: &str)
        ensures
            res@ == self@.key(),
    {
        match self {
            Property::Zfs => PropertyType::Zfs.value(),
            Property::PoolUuid(..) => PropertyType::PoolUuid.value(),
            Property::PoolDisks(..) => PropertyType::PoolDisks.value(),
            Property::PoolVolBlockSize(..) => PropertyType::PoolVolBlockSize.value(),
            Property::VolUuid(..) => PropertyType::VolUuid.value(),
            Property::Name(..) => PropertyType::Name.value(),
            Property::Share(..) => PropertyType::Share.value(),
            Property::AllowedHosts(..) => PropertyType::AllowedHosts.value(),
            Property::EntityId(..) => PropertyType::EntityId.value(),
            Property::SnapshotUuid(..) => PropertyType::SnapshotUuid.value(),
            Property::ParentId(..) => PropertyType::ParentId.value(),
            Property::TxnId(..) => PropertyType::TxnId.value(),
            Property::CreateTime(..) => PropertyType::CreateTime.value(),
            Property::Discarded(..) => PropertyType::Discarded.value(),
            Property::Unknown(key, _) => key.as_str(),
        }
    }

    /// The value of this property as a string.
    pub fn value(&self) -> (res: Option<String>)
        ensures
            match res {
                Some(value) => self@.value() == Some(value@),
                None => self@.value() is None,
            },
    {
        match self {
            Property::Zfs => None,
            Property::PoolUuid(v) => Some(v.clone()),
            Property::PoolDisks(v) => Some(v.clone()),
            Property::PoolVolBlockSize(v) => Some(decimal_text(*v)),
            Property::VolUuid(v) => Some(v.clone()),
            Property::Name(v) => Some(v.clone()),
            Property::Share(v) => Some(protocol_str(v).to_owned()),
            Property::AllowedHosts(v) => Some(join_texts(v, ",")),
            Property::EntityId(v) => Some(v.clone()),
            Property::SnapshotUuid(v) => Some(v.clone()),
            Property::ParentId(v) => Some(v.clone()),
            Property::TxnId(v) => Some(v.clone()),
            Property::CreateTime(v) => Some(v.clone()),
            Property::Discarded(v) => Some(bool_str(*v).to_owned()),
            Property::Unknown(_, value) => Some(value.clone()),
        }
    }

    /// Format this property as a "zfs set" argument: key=value.
    pub fn set_arg(&self) -> (res: String)
        ensures
            res@ == self@.set_arg(),
    {
        let key = self.key().to_owned();
        match self.value() {
            None => key,
            Some(value) => key.concat("=").concat(value.as_str()),
        }
    }

    /// Format this property as "zfs create/snapshot/clone" arguments: -o key=value.
    pub fn create_arg(&self) -> (res: [String; 2])
        ensures
            res@.len() == 2,
            res@[0]@ == "-o"@,
            res@[1]@ == self@.set_arg(),
    {
        ["-o".to_owned(), self.set_arg()]
    }

    /// Format this property as a "zfs inherit" argument, which effectively removes the local value
    /// of the property.
    pub fn inherit_arg(&self) -> (res: String)
        ensures
            res@ == self@.key(),
    {
        self.key().to_owned()
    }

    /// Builds a property from the given key and value. If the pair is not valid then nothing is
    /// returned.
    pub fn new_known(key: &str, value: &str) -> (res: Option<Self>)
        ensures
            match res {
                Some(property) => PropertyView::known(key@, value@) == Some(property@),
                None => PropertyView::known(key@, value@) is None,
            },
    {
        match PropertyType::from_key(key) {
            None => None,
            Some(PropertyType::Zfs) => Some(Self::Zfs),
            Some(PropertyType::PoolUuid) => Some(Self::PoolUuid(value.to_owned())),
            Some(PropertyType::PoolDisks) => Some(Self::PoolDisks(value.to_owned())),
            Some(PropertyType::PoolVolBlockSize) => match parse_u64_text(value) {
                Some(size) => Some(Self::PoolVolBlockSize(size)),
                None => None,
            },
            Some(PropertyType::VolUuid) => Some(Self::VolUuid(value.to_owned())),
            Some(PropertyType::Name) => Some(Self::Name(value.to_owned())),
            Some(PropertyType::Share) => Some(Self::Share(protocol_from(value))),
            Some(PropertyType::AllowedHosts) => Some(Self::AllowedHosts(split_nonempty(value, ','))),
            Some(PropertyType::EntityId) => Some(Self::EntityId(value.to_owned())),
            Some(PropertyType::SnapshotUuid) => Some(Self::SnapshotUuid(value.to_owned())),
            Some(PropertyType::ParentId) => Some(Self::ParentId(value.to_owned())),
            Some(PropertyType::TxnId) => Some(Self::TxnId(value.to_owned())),
            Some(PropertyType::CreateTime) => Some(Self::CreateTime(value.to_owned())),
            Some(PropertyType::Discarded) => Some(Self::Discarded(truth(value))),
        }
    }

    /// Builds a property from the given key/value pair, which should be in the following format:
    /// key=value. If the pair is not a known property then `Property::Unknown` is returned.
    pub fn new(tag: &str) -> (res: Self)
        ensures
            res@ == PropertyView::of_tag(tag@),
    {
        match split_once_text(tag, '=') {
            Some((key, value)) => Self::from_kv(key.as_str(), value.as_str()),
            None => {
                let empty = String::new();
                Self::from_kv(tag, empty.as_str())
            },
        }
    }

    /// Builds a property from a key and value as returned separately by "zfs get" output.
    pub fn from_kv(key: &str, value: &str) -> (res: Self)
        ensures
            res@ == PropertyView::of_kv(key@, value@),
    {
        match Self::new_known(key, value) {
            Some(property) => property,
            None => Property::Unknown(key.to_owned(), value.to_owned()),
        }
    }
}

/// The persisted string value for a truth value.
fn bool_str(b: bool) -> (res: &'static str)
    ensures
        res@ == bool_value(b),
{
    if b {
        "true"
    } else {
        "false"
    }
}

/// The truth value that a persisted string value stands for.
pub fn truth(value: &str) -> (res: bool)
    ensures
        res == is_true(value@),
{
    str_eq(value, "true") || str_eq(value, "on")
}

/// The persisted string value for the given share protocol.
pub fn protocol_str(protocol: &Protocol) -> (res: &'static str)
    ensures
        res@ == protocol_value(*protocol),
{
    match protocol {
        Protocol::Off => "off",
        Protocol::Nvmf => "nvmf",
    }
}

/// Parse a share protocol from its persisted string value.
pub fn protocol_from(value: &str) -> (res: Protocol)
    ensures
        res == protocol_of(value@),
{
    if str_eq(value, "nvmf") {
        Protocol::Nvmf
    } else {
        Protocol::Off
    }
}

/// The length of the key, and the first character behind the namespace.
spec fn key_mark(kind: PropertyType) -> (int, char) {
    match kind {
        PropertyType::Zfs => (11, ' '),
        PropertyType::PoolUuid => (16, 'p'),
        PropertyType::PoolDisks => (17, 'd'),
        PropertyType::PoolVolBlockSize => (24, 'v'),
        PropertyType::VolUuid => (16, 'u'),
        PropertyType::Name => (16, 'n'),
        PropertyType::Share => (17, 's'),
        PropertyType::AllowedHosts => (25, 'a'),
        PropertyType::EntityId => (21, 'e'),
        PropertyType::SnapshotUuid => (25, 's'),
        PropertyType::ParentId => (21, 'p'),
        PropertyType::TxnId => (18, 't'),
        PropertyType::CreateTime => (23, 'c'),
        PropertyType::Discarded => (21, 'd'),
    }
}

proof fn lemma_key_mark(kind: PropertyType)
    ensures
        kind.key().len() == key_mark(kind).0,
        kind != PropertyType::Zfs ==> kind.key()[12] == key_mark(kind).1,
        !kind.key().contains('='),
{
    reveal_strlit("io.mayastor");
    reveal_strlit("io.mayastor:pool");
    reveal_strlit("io.mayastor:disks");
    reveal_strlit("io.mayastor:volblocksize");
    reveal_strlit("io.mayastor:uuid");
    reveal_strlit("io.mayastor:name");
    reveal_strlit("io.mayastor:share");
    reveal_strlit("io.mayastor:allowed_hosts");
    reveal_strlit("io.mayastor:entity_id");
    reveal_strlit("io.mayastor:snapshot_uuid");
    reveal_strlit("io.mayastor:parent_id");
    reveal_strlit("io.mayastor:txn_id");
    reveal_strlit("io.mayastor:create_time");
    reveal_strlit("io.mayastor:discarded");
}

/// The keys of the known kinds are told apart, and none holds an equals sign.
pub proof fn lemma_keys(kind: PropertyType)
    ensures
        PropertyType::of_key(kind.key()) == Some(kind),
        !kind.key().contains('='),
{
    lemma_key_mark(kind);
    lemma_key_mark(PropertyType::Zfs);
    lemma_key_mark(PropertyType::PoolUuid);
    lemma_key_mark(PropertyType::PoolDisks);
    lemma_key_mark(PropertyType::PoolVolBlockSize);
    lemma_key_mark(PropertyType::VolUuid);
    lemma_key_mark(PropertyType::Name);
    lemma_key_mark(PropertyType::Share);
    lemma_key_mark(PropertyType::AllowedHosts);
    lemma_key_mark(PropertyType::EntityId);
    lemma_key_mark(PropertyType::SnapshotUuid);
    lemma_key_mark(PropertyType::ParentId);
    lemma_key_mark(PropertyType::TxnId);
    lemma_key_mark(PropertyType::CreateTime);
    lemma_key_mark(PropertyType::Discarded);
}

/// The hosts of a list are told from their persisted text.
proof fn lemma_hosts(hosts: Seq<Seq<char>>)
    requires
        faithful_hosts(hosts),
    ensures
        nonempty(split(join(hosts, ","@), ',')) == hosts,
{
    reveal_strlit(",");
    assert(","@ =~= seq![',']);
    if hosts.len() == 0 {
        reveal(Seq::filter);
        let pieces = split(join(hosts, ","@), ',');
        assert(pieces =~= seq![Seq::<char>::empty()]);
        lemma_nonempty_all(pieces.drop_last());
        assert(pieces.last().len() == 0);
        assert(nonempty(pieces) == nonempty(pieces.drop_last()));
        assert(pieces.drop_last() =~= hosts);
    } else {
        lemma_split_join(hosts, ',');
        lemma_nonempty_all(hosts);
    }
}

/// Reading a property from its key and value gives the property back.
pub proof fn law_property_from_kv(property: PropertyView)
    requires
        property.faithful(),
        property.value() is Some,
    ensures
        PropertyView::of_kv(property.key(), property.value().unwrap()) == property,
{
    reveal_strlit("true");
    reveal_strlit("false");
    reveal_strlit("on");
    reveal_strlit("off");
    reveal_strlit("nvmf");
    assert("false"@ != "true"@ && "false"@ != "on"@) by {
        assert("false"@.len() == 5 && "true"@.len() == 4 && "on"@.len() == 2);
    }
    assert("off"@ != "nvmf"@) by {
        assert("off"@.len() == 3 && "nvmf"@.len() == 4);
    }
    match property {
        PropertyView::Zfs => {},
        PropertyView::PoolVolBlockSize(size) => {
            lemma_keys(PropertyType::PoolVolBlockSize);
            lemma_parse_decimal(size);
        },
        PropertyView::AllowedHosts(hosts) => {
            lemma_keys(PropertyType::AllowedHosts);
            lemma_hosts(hosts);
        },
        PropertyView::Unknown(..) => {},
        PropertyView::PoolUuid(..) => {
            lemma_keys(PropertyType::PoolUuid);
        },
        PropertyView::PoolDisks(..) => {
            lemma_keys(PropertyType::PoolDisks);
        },
        PropertyView::VolUuid(..) => {
            lemma_keys(PropertyType::VolUuid);
        },
        PropertyView::Name(..) => {
            lemma_keys(PropertyType::Name);
        },
        PropertyView::Share(..) => {
            lemma_keys(PropertyType::Share);
        },
        PropertyView::EntityId(..) => {
            lemma_keys(PropertyType::EntityId);
        },
        PropertyView::SnapshotUuid(..) => {
            lemma_keys(PropertyType::SnapshotUuid);
        },
        PropertyView::ParentId(..) => {
            lemma_keys(PropertyType::ParentId);
        },
        PropertyView::TxnId(..) => {
            lemma_keys(PropertyType::TxnId);
        },
        PropertyView::CreateTime(..) => {
            lemma_keys(PropertyType::CreateTime);
        },
        PropertyView::Discarded(..) => {
            lemma_keys(PropertyType::Discarded);
        },
    }
}

/// Reading a property from the argument it is persisted with gives the property back.
pub proof fn law_property_round_trip(property: PropertyView)
    requires
        property.faithful(),
    ensures
        PropertyView::of_tag(property.set_arg()) == property,
{
    let key = property.key();
    let tag = property.set_arg();
    assert(!key.contains('=')) by {
        match property {
            PropertyView::Unknown(..) => {},
            PropertyView::Zfs => {
                lemma_keys(PropertyType::Zfs);
            },
            PropertyView::PoolUuid(..) => {
                lemma_keys(PropertyType::PoolUuid);
            },
            PropertyView::PoolDisks(..) => {
                lemma_keys(PropertyType::PoolDisks);
            },
            PropertyView::PoolVolBlockSize(..) => {
                lemma_keys(PropertyType::PoolVolBlockSize);
            },
            PropertyView::VolUuid(..) => {
                lemma_keys(PropertyType::VolUuid);
            },
            PropertyView::Name(..) => {
                lemma_keys(PropertyType::Name);
            },
            PropertyView::Share(..) => {
                lemma_keys(PropertyType::Share);
            },
            PropertyView::AllowedHosts(..) => {
                lemma_keys(PropertyType::AllowedHosts);
            },
            PropertyView::EntityId(..) => {
                lemma_keys(PropertyType::EntityId);
            },
            PropertyView::SnapshotUuid(..) => {
                lemma_keys(PropertyType::SnapshotUuid);
            },
            PropertyView::ParentId(..) => {
                lemma_keys(PropertyType::ParentId);
            },
            PropertyView::TxnId(..) => {
                lemma_keys(PropertyType::TxnId);
            },
            PropertyView::CreateTime(..) => {
                lemma_keys(PropertyType::CreateTime);
            },
            PropertyView::Discarded(..) => {
                lemma_keys(PropertyType::Discarded);
            },
        }
    }
    match property.value() {
        None => {
            lemma_keys(PropertyType::Zfs);
            tag.index_of_first_ensures('=');
        },
        Some(value) => {
            reveal_strlit("=");
            assert(tag[key.len() as int] == '=');
            assert forall|j: int| 0 <= j < key.len() implies tag[j] != '=' by {
                assert(tag[j] == key[j]);
            }
            lemma_split_once_at(tag, '=', key.len() as int);
            assert(tag.take(key.len() as int) =~= key);
            assert(tag.skip(key.len() as int + 1) =~= value);
            law_property_from_kv(property);
        },
    }
}

} // verus!
