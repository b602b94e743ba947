//! The collection entities exchanged with the server.

use vstd::prelude::*;
use crate::api::arg::{IntoText, IntoOption};
use crate::api::text::str_eq;

verus! {

/// The type of a collection.
#[derive(Clone, Copy, Debug, PartialEq, Eq, Structural)]
pub enum CollectionType {
    Documents,
    Edges,
}

/// The number by which the server names a collection type.
pub open spec fn collection_type_id(kind: CollectionType) -> u8 {
    match kind {
        CollectionType::Documents => 2,
        CollectionType::Edges => 3,
    }
}

/// The collection type a number names, if any.
pub open spec fn collection_type_of(id: u64) -> Option<CollectionType> {
    if id == 2 {
        Some(CollectionType::Documents)
    } else if id == 3 {
        Some(CollectionType::Edges)
    } else {
        None
    }
}

impl CollectionType {
    /// The number by which the server names this collection type.
    pub fn type_id(&self) -> (r: u8)
        ensures
            r == collection_type_id(*self),
    {
        match *self {
            CollectionType::Documents => 2,
            CollectionType::Edges => 3,
        }
    }

    /// The collection type named by `id`; `None` for any number but 2 and 3.
    pub fn from_type_id(id: u64) -> (r: Option<Self>)
        ensures
            r == collection_type_of(id),
    {
        if id == 2 {
            Some(CollectionType::Documents)
        } else if id == 3 {
            Some(CollectionType::Edges)
        } else {
            None
        }
    }
}

/// Reading the number of a collection type gives back the type.
pub proof fn lemma_collection_type_round_trip(kind: CollectionType)
    ensures
        collection_type_of(collection_type_id(kind) as u64) == Some(kind),
{
}

/// The server names a document collection `2` and an edge collection `3`;
/// no other number names a collection type.
pub proof fn lemma_collection_type_numbers()
    ensures
        collection_type_id(CollectionType::Documents) == 2,
        collection_type_id(CollectionType::Edges) == 3,
        collection_type_of(2) == Some(CollectionType::Documents),
        collection_type_of(3) == Some(CollectionType::Edges),
        forall|id: u64| id != 2 && id != 3 ==> collection_type_of(id) is None,
{
}

/// The status of a collection.
#[derive(Clone, Copy, Debug, PartialEq, Eq, Structural)]
pub enum CollectionStatus {
    NewBorn,
    Unloaded,
    Loaded,
    BeingUnloaded,
    Deleted,
    BeingLoaded,
    Corrupted,
}

/// The number by which the server names a collection status.
pub open spec fn collection_status_id(status: CollectionStatus) -> u8 {
    match status {
        CollectionStatus::NewBorn => 1,
        CollectionStatus::Unloaded => 2,
        CollectionStatus::Loaded => 3,
        CollectionStatus::BeingUnloaded => 4,
        CollectionStatus::Deleted => 5,
        CollectionStatus::BeingLoaded => 6,
        CollectionStatus::Corrupted => 255,
    }
}

/// The collection status a number names; every number outside 1 to 6 names
/// a corrupted collection.
pub open spec fn collection_status_of(id: u64) -> CollectionStatus {
    if id == 1 {
        CollectionStatus::NewBorn
    } else if id == 2 {
        CollectionStatus::Unloaded
    } else if id == 3 {
        CollectionStatus::Loaded
    } else if id == 4 {
        CollectionStatus::BeingUnloaded
    } else if id == 5 {
        CollectionStatus::Deleted
    } else if id == 6 {
        CollectionStatus::BeingLoaded
    } else {
        CollectionStatus::Corrupted
    }
}

impl CollectionStatus {
    /// The number by which the server names this status.
    pub fn status_id(&self) -> (r: u8)
        ensures
            r == collection_status_id(*self),
    {
        match *self {
            CollectionStatus::NewBorn => 1,
            CollectionStatus::Unloaded => 2,
            CollectionStatus::Loaded => 3,
            CollectionStatus::BeingUnloaded => 4,
            CollectionStatus::Deleted => 5,
            CollectionStatus::BeingLoaded => 6,
            CollectionStatus::Corrupted => 255,
        }
    }

    /// The status named by `id`.
    pub fn from_status_id(id: u64) -> (r: Self)
        ensures
            r == collection_status_of(id),
    {
        if id == 1 {
            CollectionStatus::NewBorn
        } else if id == 2 {
            CollectionStatus::Unloaded
        } else if id == 3 {
            CollectionStatus::Loaded
        } else if id == 4 {
            CollectionStatus::BeingUnloaded
        } else if id == 5 {
            CollectionStatus::Deleted
        } else if id == 6 {
            CollectionStatus::BeingLoaded
        } else {
            CollectionStatus::Corrupted
        }
    }
}

/// Reading the number of a status gives back the status.
pub proof fn lemma_collection_status_round_trip(status: CollectionStatus)
    ensures
        collection_status_of(collection_status_id(status) as u64) == status,
{
}

/// The server numbers the statuses of a collection from `1` (new born) to
/// `6` (being loaded) and marks a corrupted one with `255`; every other
/// number is read as corrupted.
pub proof fn lemma_collection_status_numbers()
    ensures
        collection_status_id(CollectionStatus::NewBorn) == 1 && collection_status_of(1) == CollectionStatus::NewBorn,
        collection_status_id(CollectionStatus::Unloaded) == 2 && collection_status_of(2) == CollectionStatus::Unloaded,
        collection_status_id(CollectionStatus::Loaded) == 3 && collection_status_of(3) == CollectionStatus::Loaded,
        collection_status_id(CollectionStatus::BeingUnloaded) == 4
            && collection_status_of(4) == CollectionStatus::BeingUnloaded,
        collection_status_id(CollectionStatus::Deleted) == 5 && collection_status_of(5) == CollectionStatus::Deleted,
        collection_status_id(CollectionStatus::BeingLoaded) == 6
            && collection_status_of(6) == CollectionStatus::BeingLoaded,
        collection_status_id(CollectionStatus::Corrupted) == 255,
        forall|id: u64| (id < 1 || id > 6) ==> collection_status_of(id) == CollectionStatus::Corrupted,
{
}

/// The kind of generator the server uses for document keys.
#[derive(Clone, Copy, Debug, PartialEq, Eq, Structural)]
pub enum KeyGeneratorType {
    Traditional,
    AutoIncrement,
}

/// The name by which the server knows a key generator.
pub open spec fn key_generator_text(kind: KeyGeneratorType) -> Seq<char> {
    match kind {
        KeyGeneratorType::Traditional => "traditional"@,
        KeyGeneratorType::AutoIncrement => "autoincrement"@,
    }
}

/// The server knows the key generators as `traditional` and
/// `autoincrement`.
pub proof fn lemma_key_generator_names()
    ensures
        key_generator_text(KeyGeneratorType::Traditional) == "traditional"@,
        key_generator_text(KeyGeneratorType::AutoIncrement) == "autoincrement"@,
{
}

/// The names of the key generators differ, so that reading back a name
/// gives the key generator it names.
pub proof fn lemma_key_generator_texts_differ()
    ensures
        key_generator_text(KeyGeneratorType::Traditional) != key_generator_text(KeyGeneratorType::AutoIncrement),
{
    reveal_strlit("traditional");
    reveal_strlit("autoincrement");
    assert("traditional"@[0] != "autoincrement"@[0]);
}

impl KeyGeneratorType {
    /// The name by which the server knows this key generator.
    pub fn as_api_str(&self) -> (r: &'static str)
        ensures
            r@ == key_generator_text(*self),
    {
        match *self {
            KeyGeneratorType::Traditional => "traditional",
            KeyGeneratorType::AutoIncrement => "autoincrement",
        }
    }

    /// The key generator with the given name; any other text is refused with
    /// `Unknown KeyGeneratorType: <text>`.
    pub fn from_api_str(value: &str) -> (r: Result<Self, String>)
        ensures
            value@ == "traditional"@ ==> r == Ok::<KeyGeneratorType, String>(KeyGeneratorType::Traditional),
            value@ == "autoincrement"@ ==> r == Ok::<KeyGeneratorType, String>(KeyGeneratorType::AutoIncrement),
            value@ != "traditional"@ && value@ != "autoincrement"@ ==>
                (r matches Err(msg) && msg@ == "Unknown KeyGeneratorType: "@ + value@),
    {
        proof {
            reveal_strlit("traditional");
            reveal_strlit("autoincrement");
            assert("traditional"@[0] != "autoincrement"@[0]);
        }
        if str_eq(value, "traditional") {
            Ok(KeyGeneratorType::Traditional)
        } else if str_eq(value, "autoincrement") {
            Ok(KeyGeneratorType::AutoIncrement)
        } else {
            let mut msg = "Unknown KeyGeneratorType: ".to_owned();
            msg.append(value);
            Err(msg)
        }
    }
}

/// A collection as the server lists it.
#[derive(Clone, Debug, PartialEq, Eq)]
pub struct Collection {
    id: String,
    name: String,
    kind: CollectionType,
    status: CollectionStatus,
    is_system: bool,
}

/// The content of a `Collection`.
pub struct CollectionView {
    pub id: Seq<char>,
    pub name: Seq<char>,
    pub kind: CollectionType,
    pub status: CollectionStatus,
    pub is_system: bool,
}

impl View for Collection {
    type V = CollectionView;

    closed spec fn view(&self) -> CollectionView {
        CollectionView {
            id: self.id@,
            name: self.name@,
            kind: self.kind,
            status: self.status,
            is_system: self.is_system,
        }
    }
}

impl Collection {
    /// A collection with the given properties.
    pub fn new<I: IntoText, N: IntoText>(id: I, name: N, kind: CollectionType, status: CollectionStatus, is_system: bool) -> (r: Self)
        ensures
            r@ == (CollectionView { id: id.text_view(), name: name.text_view(), kind, status, is_system }),
    {
        Collection { id: id.into_text(), name: name.into_text(), kind, status, is_system }
    }

    pub fn id(&self) -> (r: &str)
        ensures
            r@ == self@.id,
    {
        self.id.as_str()
    }

    pub fn name(&self) -> (r: &str)
        ensures
            r@ == self@.name,
    {
        self.name.as_str()
    }

    pub fn kind(&self) -> (r: CollectionType)
        ensures
            r == self@.kind,
    {
        self.kind
    }

    pub fn status(&self) -> (r: CollectionStatus)
        ensures
            r == self@.status,
    {
        self.status
    }

    pub fn is_system(&self) -> (r: bool)
        ensures
            r == self@.is_system,
    {
        self.is_system
    }
}

/// How a new collection shall generate document keys.
#[derive(Clone, Debug, PartialEq, Eq)]
pub struct NewKeyOptions {
    allow_user_keys: Option<bool>,
    kind: KeyGeneratorType,
    increment: Option<u64>,
    offset: Option<u64>,
}

/// The content of a `NewKeyOptions`.
pub struct NewKeyOptionsView {
    pub allow_user_keys: Option<bool>,
    pub kind: KeyGeneratorType,
    pub increment: Option<u64>,
    pub offset: Option<u64>,
}

impl View for NewKeyOptions {
    type V = NewKeyOptionsView;

    closed spec fn view(&self) -> NewKeyOptionsView {
        NewKeyOptionsView {
            allow_user_keys: self.allow_user_keys,
            kind: self.kind,
            increment: self.increment,
            offset: self.offset,
        }
    }
}

impl NewKeyOptions {
    /// Key options that leave everything to the server's defaults, with the
    /// traditional key generator.
    pub open spec fn default_view() -> NewKeyOptionsView {
        NewKeyOptionsView { allow_user_keys: None, kind: KeyGeneratorType::Traditional, increment: None, offset: None }
    }

    fn new() -> (r: Self)
        ensures
            r@ == Self::default_view(),
    {
        NewKeyOptions { allow_user_keys: None, kind: KeyGeneratorType::Traditional, increment: None, offset: None }
    }

    pub fn set_allow_user_keys<A: IntoOption<bool>>(&mut self, allow_user_keys: A)
        ensures
            final(self)@ == (NewKeyOptionsView { allow_user_keys: allow_user_keys.option_view(), ..old(self)@ }),
    {
        self.allow_user_keys = allow_user_keys.into_option();
    }

    pub fn is_allow_user_keys(&self) -> (r: Option<bool>)
        ensures
            r == self@.allow_user_keys,
    {
        self.allow_user_keys
    }

    pub fn set_kind(&mut self, kind: KeyGeneratorType)
        ensures
            final(self)@ == (NewKeyOptionsView { kind: kind, ..old(self)@ }),
    {
        self.kind = kind;
    }

    pub fn kind(&self) -> (r: &KeyGeneratorType)
        ensures
            *r == self@.kind,
    {
        &self.kind
    }

    pub fn set_increment<A: IntoOption<u64>>(&mut self, increment: A)
        ensures
            final(self)@ == (NewKeyOptionsView { increment: increment.option_view(), ..old(self)@ }),
    {
        self.increment = increment.into_option();
    }

    pub fn increment(&self) -> (r: Option<u64>)
        ensures
            r == self@.increment,
    {
        self.increment
    }

    pub fn set_offset<A: IntoOption<u64>>(&mut self, offset: A)
        ensures
            final(self)@ == (NewKeyOptionsView { offset: offset.option_view(), ..old(self)@ }),
    {
        self.offset = offset.into_option();
    }

    pub fn offset(&self) -> (r: Option<u64>)
        ensures
            r == self@.offset,
    {
        self.offset
    }
}

/// The properties of a collection to be created.
#[derive(Clone, Debug, PartialEq, Eq)]
pub struct NewCollection {
    name: String,
    kind: Option<CollectionType>,
    is_system: Option<bool>,
    key_options: Option<NewKeyOptions>,
    wait_for_sync: Option<bool>,
    number_of_shards: Option<u16>,
    shard_keys: Option<String>,
    replication_factor: Option<u16>,
    is_volatile: Option<bool>,
    do_compact: Option<bool>,
    index_buckets: Option<u16>,
    journal_size: Option<u64>,
}

/// The content of a `NewCollection`.
pub struct NewCollectionView {
    pub name: Seq<char>,
    pub kind: Option<CollectionType>,
    pub is_system: Option<bool>,
    pub key_options: Option<NewKeyOptionsView>,
    pub wait_for_sync: Option<bool>,
    pub number_of_shards: Option<u16>,
    pub shard_keys: Option<Seq<char>>,
    pub replication_factor: Option<u16>,
    pub is_volatile: Option<bool>,
    pub do_compact: Option<bool>,
    pub index_buckets: Option<u16>,
    pub journal_size: Option<u64>,
}

impl View for NewCollection {
    type V = NewCollectionView;

    closed spec fn view(&self) -> NewCollectionView {
        NewCollectionView {
            name: self.name@,
            kind: self.kind,
            is_system: self.is_system,
            key_options: match self.key_options { Some(x) => Some(x@), None => None },
            wait_for_sync: self.wait_for_sync,
            number_of_shards: self.number_of_shards,
            shard_keys: self.shard_keys.deep_view(),
            replication_factor: self.replication_factor,
            is_volatile: self.is_volatile,
            do_compact: self.do_compact,
            index_buckets: self.index_buckets,
            journal_size: self.journal_size,
        }
    }
}

impl NewCollection {
    /// The properties of a new collection that are not given are left unset.
    pub open spec fn initial(name: Seq<char>, kind: Option<CollectionType>, is_system: Option<bool>) -> NewCollectionView {
        NewCollectionView {
            name, kind, is_system,
            key_options: None, wait_for_sync: None, number_of_shards: None, shard_keys: None,
            replication_factor: None, is_volatile: None, do_compact: None, index_buckets: None,
            journal_size: None,
        }
    }

    fn new(name: String, kind: Option<CollectionType>, is_system: Option<bool>) -> (r: Self)
        ensures
            r@ == Self::initial(name@, kind, is_system),
    {
        NewCollection {
            name, kind, is_system,
            key_options: None, wait_for_sync: None, number_of_shards: None, shard_keys: None,
            replication_factor: None, is_volatile: None, do_compact: None, index_buckets: None,
            journal_size: None,
        }
    }

    /// A new collection of the server's default type.
    pub fn with_name<N: IntoText>(name: N) -> (r: Self)
        ensures
            r@ == Self::initial(name.text_view(), None, None),
    {
        NewCollection::new(name.into_text(), None, None)
    }

    /// A new document collection.
    pub fn documents_with_name<N: IntoText>(name: N) -> (r: Self)
        ensures
            r@ == Self::initial(name.text_view(), Some(CollectionType::Documents), None),
    {
        NewCollection::new(name.into_text(), Some(CollectionType::Documents), None)
    }

    /// A new edge collection.
    pub fn edges_with_name<N: IntoText>(name: N) -> (r: Self)
        ensures
            r@ == Self::initial(name.text_view(), Some(CollectionType::Edges), None),
    {
        NewCollection::new(name.into_text(), Some(CollectionType::Edges), None)
    }

    /// A new system document collection.
    pub fn system_documents_with_name<N: IntoText>(name: N) -> (r: Self)
        ensures
            r@ == Self::initial(name.text_view(), Some(CollectionType::Documents), Some(true)),
    {
        NewCollection::new(name.into_text(), Some(CollectionType::Documents), Some(true))
    }

    /// A new system edge collection.
    pub fn system_edges_with_name<N: IntoText>(name: N) -> (r: Self)
        ensures
            r@ == Self::initial(name.text_view(), Some(CollectionType::Edges), Some(true)),
    {
        NewCollection::new(name.into_text(), Some(CollectionType::Edges), Some(true))
    }

    pub fn name(&self) -> (r: &str)
        ensures
            r@ == self@.name,
    {
        self.name.as_str()
    }

    pub fn kind(&self) -> (r: &Option<CollectionType>)
        ensures
            *r == self@.kind,
    {
        &self.kind
    }

    pub fn is_system(&self) -> (r: Option<bool>)
        ensures
            r == self@.is_system,
    {
        self.is_system
    }

    /// The key options, created with the defaults when there are none yet.
    pub fn key_options_mut(&mut self) -> (r: &mut NewKeyOptions)
        ensures
            old(self)@.key_options is Some ==> Some(r@) == old(self)@.key_options,
            old(self)@.key_options is None ==> r@ == NewKeyOptions::default_view(),
            final(self)@ == (NewCollectionView { key_options: Some(final(r)@), ..old(self)@ }),
    {
        let fresh = NewKeyOptions::new();
        self.key_options.get_or_insert(fresh)
    }

    /// Takes the key options out, leaving none.
    pub fn remove_key_options(&mut self) -> (r: Option<NewKeyOptions>)
        ensures
            match r { Some(x) => old(self)@.key_options == Some(x@), None => old(self)@.key_options is None },
            final(self)@ == (NewCollectionView { key_options: None, ..old(self)@ }),
    {
        self.key_options.take()
    }

    pub fn key_options(&self) -> (r: Option<&NewKeyOptions>)
        ensures
            match r { Some(x) => self@.key_options == Some(x@), None => self@.key_options is None },
    {
        self.key_options.as_ref()
    }

    pub fn set_wait_for_sync<A: IntoOption<bool>>(&mut self, wait_for_sync: A)
        ensures
            final(self)@ == (NewCollectionView { wait_for_sync: wait_for_sync.option_view(), ..old(self)@ }),
    {
        self.wait_for_sync = wait_for_sync.into_option();
    }

    pub fn is_wait_for_sync(&self) -> (r: Option<bool>)
        ensures
            r == self@.wait_for_sync,
    {
        self.wait_for_sync
    }

    pub fn set_number_of_shards<A: IntoOption<u16>>(&mut self, number_of_shards: A)
        ensures
            final(self)@ == (NewCollectionView { number_of_shards: number_of_shards.option_view(), ..old(self)@ }),
    {
        self.number_of_shards = number_of_shards.into_option();
    }

    pub fn number_of_shards(&self) -> (r: Option<u16>)
        ensures
            r == self@.number_of_shards,
    {
        self.number_of_shards
    }

    pub fn set_shard_keys<K: IntoOption<String>>(&mut self, shard_keys: K)
        ensures
            final(self)@ == (NewCollectionView { shard_keys: shard_keys.option_view().deep_view(), ..old(self)@ }),
    {
        self.shard_keys = shard_keys.into_option();
    }

    pub fn shard_keys(&self) -> (r: Option<&String>)
        ensures
            r.deep_view() == self@.shard_keys,
    {
        self.shard_keys.as_ref()
    }

    pub fn set_replication_factor<A: IntoOption<u16>>(&mut self, replication_factor: A)
        ensures
            final(self)@ == (NewCollectionView { replication_factor: replication_factor.option_view(), ..old(self)@ }),
    {
        self.replication_factor = replication_factor.into_option();
    }

    pub fn replication_factor(&self) -> (r: Option<u16>)
        ensures
            r == self@.replication_factor,
    {
        self.replication_factor
    }

    pub fn set_volatile<V: IntoOption<bool>>(&mut self, volatile: V)
        ensures
            final(self)@ == (NewCollectionView { is_volatile: volatile.option_view(), ..old(self)@ }),
    {
        self.is_volatile = volatile.into_option();
    }

    pub fn is_volatile(&self) -> (r: Option<bool>)
        ensures
            r == self@.is_volatile,
    {
        self.is_volatile
    }

    pub fn set_do_compact<A: IntoOption<bool>>(&mut self, do_compact: A)
        ensures
            final(self)@ == (NewCollectionView { do_compact: do_compact.option_view(), ..old(self)@ }),
    {
        self.do_compact = do_compact.into_option();
    }

    pub fn is_do_compact(&self) -> (r: Option<bool>)
        ensures
            r == self@.do_compact,
    {
        self.do_compact
    }

    pub fn set_index_buckets<A: IntoOption<u16>>(&mut self, index_buckets: A)
        ensures
            final(self)@ == (NewCollectionView { index_buckets: index_buckets.option_view(), ..old(self)@ }),
    {
        self.index_buckets = index_buckets.into_option();
    }

    pub fn index_buckets(&self) -> (r: Option<u16>)
        ensures
            r == self@.index_buckets,
    {
        self.index_buckets
    }

    pub fn set_journal_size<A: IntoOption<u64>>(&mut self, journal_size: A)
        ensures
            final(self)@ == (NewCollectionView { journal_size: journal_size.option_view(), ..old(self)@ }),
    {
        self.journal_size = journal_size.into_option();
    }

    pub fn journal_size(&self) -> (r: Option<u64>)
        ensures
            r == self@.journal_size,
    {
        self.journal_size
    }
}

/// The basic properties of a collection as the server reports them.
#[derive(Clone, Debug, PartialEq, Eq)]
pub struct BasicCollectionProperties {
    id: String,
    name: String,
    kind: CollectionType,
    status: CollectionStatus,
    is_system: bool,
    wait_for_sync: bool,
    is_volatile: bool,
}

/// The content of a `BasicCollectionProperties`.
pub struct BasicCollectionPropertiesView {
    pub id: Seq<char>,
    pub name: Seq<char>,
    pub kind: CollectionType,
    pub status: CollectionStatus,
    pub is_system: bool,
    pub wait_for_sync: bool,
    pub is_volatile: bool,
}

impl View for BasicCollectionProperties {
    type V = BasicCollectionPropertiesView;

    closed spec fn view(&self) -> BasicCollectionPropertiesView {
        BasicCollectionPropertiesView {
            id: self.id@,
            name: self.name@,
            kind: self.kind,
            status: self.status,
            is_system: self.is_system,
            wait_for_sync: self.wait_for_sync,
            is_volatile: self.is_volatile,
        }
    }
}

impl BasicCollectionProperties {
    pub fn new<I: IntoText, N: IntoText>(id: I, name: N, kind: CollectionType, status: CollectionStatus,
        is_system: bool, wait_for_sync: bool, is_volatile: bool) -> (r: Self)
        ensures
            r@ == (BasicCollectionPropertiesView { id: id.text_view(), name: name.text_view(), kind, status, is_system, wait_for_sync, is_volatile }),
    {
        BasicCollectionProperties { id: id.into_text(), name: name.into_text(), kind, status, is_system, wait_for_sync, is_volatile }
    }

    pub fn id(&self) -> (r: &str)
        ensures
            r@ == self@.id,
    {
        self.id.as_str()
    }

    pub fn name(&self) -> (r: &str)
        ensures
            r@ == self@.name,
    {
        self.name.as_str()
    }

    pub fn kind(&self) -> (r: CollectionType)
        ensures
            r == self@.kind,
    {
        self.kind
    }

    pub fn status(&self) -> (r: CollectionStatus)
        ensures
            r == self@.status,
    {
        self.status
    }

    pub fn is_system(&self) -> (r: bool)
        ensures
            r == self@.is_system,
    {
        self.is_system
    }

    pub fn is_wait_for_sync(&self) -> (r: bool)
        ensures
            r == self@.wait_for_sync,
    {
        self.wait_for_sync
    }

    pub fn is_volatile(&self) -> (r: bool)
        ensures
            r == self@.is_volatile,
    {
        self.is_volatile
    }
}

/// How a collection generates document keys.
#[derive(Clone, Copy, Debug, PartialEq, Eq)]
pub struct KeyOptions {
    allow_user_keys: bool,
    kind: KeyGeneratorType,
    last_value: u64,
}

/// The content of a `KeyOptions`.
pub struct KeyOptionsView {
    pub allow_user_keys: bool,
    pub kind: KeyGeneratorType,
    pub last_value: u64,
}

impl View for KeyOptions {
    type V = KeyOptionsView;

    closed spec fn view(&self) -> KeyOptionsView {
        KeyOptionsView {
            allow_user_keys: self.allow_user_keys,
            kind: self.kind,
            last_value: self.last_value,
        }
    }
}

impl KeyOptions {
    pub fn new(allow_user_keys: bool, kind: KeyGeneratorType, last_value: u64) -> (r: Self)
        ensures
            r@ == (KeyOptionsView { allow_user_keys, kind, last_value }),
    {
        KeyOptions { allow_user_keys, kind, last_value }
    }

    pub fn is_allow_user_keys(&self) -> (r: bool)
        ensures
            r == self@.allow_user_keys,
    {
        self.allow_user_keys
    }

    pub fn kind(&self) -> (r: KeyGeneratorType)
        ensures
            r == self@.kind,
    {
        self.kind
    }

    pub fn last_value(&self) -> (r: u64)
        ensures
            r == self@.last_value,
    {
        self.last_value
    }
}

/// All properties of a collection as the server reports them.
#[derive(Clone, Debug, PartialEq, Eq)]
pub struct CollectionProperties {
    id: String,
    name: String,
    kind: CollectionType,
    status: CollectionStatus,
    is_system: bool,
    key_options: KeyOptions,
    wait_for_sync: bool,
    number_of_shards: u16,
    shard_keys: String,
    replication_factor: u64,
    is_volatile: bool,
    do_compact: bool,
    index_buckets: u16,
    journal_size: u64,
}

/// The content of a `CollectionProperties`.
pub struct CollectionPropertiesView {
    pub id: Seq<char>,
    pub name: Seq<char>,
    pub kind: CollectionType,
    pub status: CollectionStatus,
    pub is_system: bool,
    pub key_options: KeyOptionsView,
    pub wait_for_sync: bool,
    pub number_of_shards: u16,
    pub shard_keys: Seq<char>,
    pub replication_factor: u64,
    pub is_volatile: bool,
    pub do_compact: bool,
    pub index_buckets: u16,
    pub journal_size: u64,
}

impl View for CollectionProperties {
    type V = CollectionPropertiesView;

    closed spec fn view(&self) -> CollectionPropertiesView {
        CollectionPropertiesView {
            id: self.id@,
            name: self.name@,
            kind: self.kind,
            status: self.status,
            is_system: self.is_system,
            key_options: self.key_options@,
            wait_for_sync: self.wait_for_sync,
            number_of_shards: self.number_of_shards,
            shard_keys: self.shard_keys@,
            replication_factor: self.replication_factor,
            is_volatile: self.is_volatile,
            do_compact: self.do_compact,
            index_buckets: self.index_buckets,
            journal_size: self.journal_size,
        }
    }
}

impl CollectionProperties {
    pub fn new(id: String, name: String, kind: CollectionType, status: CollectionStatus, is_system: bool,
        key_options: KeyOptions, wait_for_sync: bool, number_of_shards: u16, shard_keys: String,
        replication_factor: u64, is_volatile: bool, do_compact: bool, index_buckets: u16, journal_size: u64,
    ) -> (r: Self)
        ensures
            r@ == (CollectionPropertiesView { id: id@, name: name@, kind, status, is_system, key_options: key_options@,
                wait_for_sync, number_of_shards, shard_keys: shard_keys@, replication_factor, is_volatile,
                do_compact, index_buckets, journal_size }),
    {
        CollectionProperties { id, name, kind, status, is_system, key_options, wait_for_sync, number_of_shards,
            shard_keys, replication_factor, is_volatile, do_compact, index_buckets, journal_size }
    }

    pub fn id(&self) -> (r: &str)
        ensures
            r@ == self@.id,
    {
        self.id.as_str()
    }

    pub fn name(&self) -> (r: &str)
        ensures
            r@ == self@.name,
    {
        self.name.as_str()
    }

    pub fn kind(&self) -> (r: CollectionType)
        ensures
            r == self@.kind,
    {
        self.kind
    }

    pub fn status(&self) -> (r: CollectionStatus)
        ensures
            r == self@.status,
    {
        self.status
    }

    pub fn is_system(&self) -> (r: bool)
        ensures
            r == self@.is_system,
    {
        self.is_system
    }

    pub fn key_options(&self) -> (r: &KeyOptions)
        ensures
            r@ == self@.key_options,
    {
        &self.key_options
    }

    pub fn is_wait_for_sync(&self) -> (r: bool)
        ensures
            r == self@.wait_for_sync,
    {
        self.wait_for_sync
    }

    pub fn number_of_shards(&self) -> (r: u16)
        ensures
            r == self@.number_of_shards,
    {
        self.number_of_shards
    }

    pub fn shard_keys(&self) -> (r: &str)
        ensures
            r@ == self@.shard_keys,
    {
        self.shard_keys.as_str()
    }

    pub fn replication_factor(&self) -> (r: u64)
        ensures
            r == self@.replication_factor,
    {
        self.replication_factor
    }

    pub fn is_volatile(&self) -> (r: bool)
        ensures
            r == self@.is_volatile,
    {
        self.is_volatile
    }

    pub fn is_do_compact(&self) -> (r: bool)
        ensures
            r == self@.do_compact,
    {
        self.do_compact
    }

    pub fn index_buckets(&self) -> (r: u16)
        ensures
            r == self@.index_buckets,
    {
        self.index_buckets
    }

    pub fn journal_size(&self) -> (r: u64)
        ensures
            r == self@.journal_size,
    {
        self.journal_size
    }
}

/// The properties of a collection that can be changed.
#[derive(Clone, Copy, Debug, PartialEq, Eq)]
pub struct CollectionPropertiesUpdate {
    wait_for_sync: Option<bool>,
    journal_size: Option<u64>,
}

/// The content of a `CollectionPropertiesUpdate`.
pub struct CollectionPropertiesUpdateView {
    pub wait_for_sync: Option<bool>,
    pub journal_size: Option<u64>,
}

impl View for CollectionPropertiesUpdate {
    type V = CollectionPropertiesUpdateView;

    closed spec fn view(&self) -> CollectionPropertiesUpdateView {
        CollectionPropertiesUpdateView {
            wait_for_sync: self.wait_for_sync,
            journal_size: self.journal_size,
        }
    }
}

impl CollectionPropertiesUpdate {
    /// An update that changes nothing.
    pub fn new() -> (r: Self)
        ensures
            r@ == (CollectionPropertiesUpdateView { wait_for_sync: None, journal_size: None }),
    {
        CollectionPropertiesUpdate { wait_for_sync: None, journal_size: None }
    }

    pub fn set_wait_for_sync<A: IntoOption<bool>>(&mut self, wait_for_sync: A)
        ensures
            final(self)@ == (CollectionPropertiesUpdateView { wait_for_sync: wait_for_sync.option_view(), ..old(self)@ }),
    {
        self.wait_for_sync = wait_for_sync.into_option();
    }

    pub fn is_wait_for_sync(&self) -> (r: Option<bool>)
        ensures
            r == self@.wait_for_sync,
    {
        self.wait_for_sync
    }

    pub fn set_journal_size<A: IntoOption<u64>>(&mut self, journal_size: A)
        ensures
            final(self)@ == (CollectionPropertiesUpdateView { journal_size: journal_size.option_view(), ..old(self)@ }),
    {
        self.journal_size = journal_size.into_option();
    }

    pub fn journal_size(&self) -> (r: Option<u64>)
        ensures
            r == self@.journal_size,
    {
        self.journal_size
    }
}

/// The new name of a collection to be renamed.
#[derive(Clone, Debug, PartialEq, Eq)]
pub struct RenameTo {
    name: String,
}

/// The content of a `RenameTo`.
pub struct RenameToView {
    pub name: Seq<char>,
}

impl View for RenameTo {
    type V = RenameToView;

    closed spec fn view(&self) -> RenameToView {
        RenameToView {
            name: self.name@,
        }
    }
}

impl RenameTo {
    pub fn new<N: IntoText>(new_name: N) -> (r: Self)
        ensures
            r@.name == new_name.text_view(),
    {
        RenameTo { name: new_name.into_text() }
    }

    pub fn name(&self) -> (r: &str)
        ensures
            r@ == self@.name,
    {
        self.name.as_str()
    }
}

} // verus!
