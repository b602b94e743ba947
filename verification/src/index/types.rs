//! The index entities exchanged with the server and the identifiers of
//! indexes.

use vstd::prelude::*;
use vstd::std_specs::convert::FromSpecImpl;
use crate::api::arg::IntoText;
use crate::api::text::str_eq;
use crate::arango::protocol::{Handle, HandleKey, HandleOption, parse_handle, no_slash, contains_slash,
    debug_string, debug_text, handle_text, concat3, missing_context_message, invalid_handle_message};

verus! {

/// The name under which index identifiers appear in error messages.
pub open spec fn index_id_name() -> Seq<char> {
    "index id"@
}

/// The message for an index key that holds a `/`.
pub open spec fn slash_in_index_key_message(value: Seq<char>) -> Seq<char> {
    "An index key must not contain any '/' character, but got: "@ + debug_text(value)
}

/// The identifier of an index, qualified by its collection or not.
#[derive(Clone, Debug, PartialEq, Eq, Hash)]
pub enum IndexIdOption {
    Qualified(IndexId),
    Local(IndexKey),
}

/// The content of an `IndexIdOption`.
pub enum IndexIdOptionView {
    Qualified(IndexIdView),
    Local(Seq<char>),
}

impl View for IndexIdOption {
    type V = IndexIdOptionView;

    open spec fn view(&self) -> IndexIdOptionView {
        match self {
            IndexIdOption::Qualified(id) => IndexIdOptionView::Qualified(id@),
            IndexIdOption::Local(key) => IndexIdOptionView::Local(key@),
        }
    }
}

impl IndexIdOption {
    /// Reads an index identifier, qualified (`collection/key`) or a bare key.
    pub fn from_str(value: &str) -> (r: Result<Self, String>)
        ensures
            match r {
                Ok(IndexIdOption::Qualified(id)) =>
                    parse_handle(value@) == Some((Some(id@.collection_name), id@.index_key)),
                Ok(IndexIdOption::Local(key)) => parse_handle(value@) == Some((None::<Seq<char>>, key@)),
                Err(msg) => parse_handle(value@) is None
                    && msg@ == invalid_handle_message(index_id_name(), value@),
            },
    {
        match HandleOption::from_str("index id", value) {
            Ok(HandleOption::Qualified(handle)) => {
                let (collection_name, index_key) = handle.deconstruct();
                Ok(IndexIdOption::Qualified(IndexId { collection_name, index_key }))
            },
            Ok(HandleOption::Local(handle_key)) => {
                let key = handle_key.deconstruct();
                Ok(IndexIdOption::Local(IndexKey(key)))
            },
            Err(msg) => Err(msg),
        }
    }
}

impl From<IndexId> for IndexIdOption {
    fn from(index_id: IndexId) -> (r: Self) {
        IndexIdOption::Qualified(index_id)
    }
}

impl FromSpecImpl<IndexId> for IndexIdOption {
    open spec fn obeys_from_spec() -> bool {
        true
    }

    open spec fn from_spec(v: IndexId) -> Self {
        IndexIdOption::Qualified(v)
    }
}

impl From<IndexKey> for IndexIdOption {
    fn from(index_key: IndexKey) -> (r: Self) {
        IndexIdOption::Local(index_key)
    }
}

impl FromSpecImpl<IndexKey> for IndexIdOption {
    open spec fn obeys_from_spec() -> bool {
        true
    }

    open spec fn from_spec(v: IndexKey) -> Self {
        IndexIdOption::Local(v)
    }
}

/// The identifier of an index qualified by its collection,
/// `collection/key`.
#[derive(Clone, Debug, PartialEq, Eq, Hash)]
pub struct IndexId {
    collection_name: String,
    index_key: String,
}

/// The content of an `IndexId`.
pub struct IndexIdView {
    pub collection_name: Seq<char>,
    pub index_key: Seq<char>,
}

impl View for IndexId {
    type V = IndexIdView;

    closed spec fn view(&self) -> IndexIdView {
        IndexIdView { collection_name: self.collection_name@, index_key: self.index_key@ }
    }
}

impl IndexId {
    /// The identifier of the index `index_key` of `collection_name`. Neither
    /// part may hold a `/`.
    pub fn new<C: IntoText, K: IntoText>(collection_name: C, index_key: K) -> (r: Self)
        requires
            no_slash(collection_name.text_view()),
            no_slash(index_key.text_view()),
        ensures
            r@ == (IndexIdView { collection_name: collection_name.text_view(), index_key: index_key.text_view() }),
    {
        IndexId { collection_name: collection_name.into_text(), index_key: index_key.into_text() }
    }

    /// Reads a qualified index identifier `collection/key`.
    pub fn from_str(value: &str) -> (r: Result<Self, String>)
        ensures
            match r {
                Ok(id) => parse_handle(value@) == Some((Some(id@.collection_name), id@.index_key)),
                Err(msg) => match parse_handle(value@) {
                    Some((None, _)) => msg@ == missing_context_message(index_id_name(), value@),
                    None => msg@ == invalid_handle_message(index_id_name(), value@),
                    Some((Some(_), _)) => false,
                },
            },
    {
        let handle = Handle::from_str("index id", value)?;
        let (collection_name, index_key) = handle.deconstruct();
        Ok(IndexId { collection_name, index_key })
    }

    /// The text of the identifier, `collection/key`.
    pub fn as_string(&self) -> (r: String)
        ensures
            r@ == handle_text(self@.collection_name, self@.index_key),
    {
        concat3(self.collection_name.as_str(), "/", self.index_key.as_str())
    }

    /// The text of the identifier, `collection/key`.
    pub fn to_string(&self) -> (r: String)
        ensures
            r@ == handle_text(self@.collection_name, self@.index_key),
    {
        self.as_string()
    }

    pub fn collection_name(&self) -> (r: &str)
        ensures
            r@ == self@.collection_name,
    {
        self.collection_name.as_str()
    }

    pub fn index_key(&self) -> (r: &str)
        ensures
            r@ == self@.index_key,
    {
        self.index_key.as_str()
    }
}

/// The key of an index within its collection.
#[derive(Clone, Debug, PartialEq, Eq, Hash)]
pub struct IndexKey(String);

impl View for IndexKey {
    type V = Seq<char>;

    closed spec fn view(&self) -> Seq<char> {
        self.0@
    }
}

impl IndexKey {
    /// The key `index_key`, which must not hold a `/`.
    pub fn new<K: IntoText>(index_key: K) -> (r: Self)
        requires
            no_slash(index_key.text_view()),
        ensures
            r@ == index_key.text_view(),
    {
        IndexKey(index_key.into_text())
    }

    /// Accepts `value` as a key unless it holds a `/`.
    pub fn from_str(value: &str) -> (r: Result<Self, String>)
        ensures
            no_slash(value@) <==> r is Ok,
            r matches Ok(k) ==> k@ == value@,
            r matches Err(msg) ==> msg@ == slash_in_index_key_message(value@),
    {
        IndexKey::from_string(value.to_owned())
    }

    /// Accepts `value` as a key unless it holds a `/`.
    pub fn from_string(value: String) -> (r: Result<Self, String>)
        ensures
            no_slash(value@) <==> r is Ok,
            r matches Ok(k) ==> k@ == value@,
            r matches Err(msg) ==> msg@ == slash_in_index_key_message(value@),
    {
        if contains_slash(value.as_str()) {
            let quoted = debug_string(value.as_str());
            let mut msg = "An index key must not contain any '/' character, but got: ".to_owned();
            msg.append(quoted.as_str());
            Err(msg)
        } else {
            Ok(IndexKey(value))
        }
    }

    pub fn as_str(&self) -> (r: &str)
        ensures
            r@ == self@,
    {
        self.0.as_str()
    }
}

/// The type of an index as the server names it.
#[derive(Clone, Copy, Debug, PartialEq, Eq, Structural)]
pub enum IndexType {
    Primary,
    Hash,
    SkipList,
    Persistent,
    Geo1,
    Geo2,
    Geo,
    Fulltext,
    Edge,
}

/// The name of an index type.
pub open spec fn index_type_text(kind: IndexType) -> Seq<char> {
    match kind {
        IndexType::Primary => "primary"@,
        IndexType::Hash => "hash"@,
        IndexType::SkipList => "skiplist"@,
        IndexType::Persistent => "persistent"@,
        IndexType::Geo1 => "geo1"@,
        IndexType::Geo2 => "geo2"@,
        IndexType::Geo => "geo"@,
        IndexType::Fulltext => "fulltext"@,
        IndexType::Edge => "edge"@,
    }
}

/// The index type a name stands for, the first in the list that matches.
pub open spec fn index_type_of(v: Seq<char>) -> Option<IndexType> {
    if v == "primary"@ { Some(IndexType::Primary) }
    else if v == "hash"@ { Some(IndexType::Hash) }
    else if v == "skiplist"@ { Some(IndexType::SkipList) }
    else if v == "persistent"@ { Some(IndexType::Persistent) }
    else if v == "geo1"@ { Some(IndexType::Geo1) }
    else if v == "geo2"@ { Some(IndexType::Geo2) }
    else if v == "geo"@ { Some(IndexType::Geo) }
    else if v == "fulltext"@ { Some(IndexType::Fulltext) }
    else if v == "edge"@ { Some(IndexType::Edge) }
    else { None }
}

/// Each index type has the name by which ArangoDB knows it, and that name
/// reads back as the type.
pub proof fn lemma_index_type_names()
    ensures
        index_type_text(IndexType::Primary) == "primary"@ && index_type_of("primary"@) == Some(IndexType::Primary),
        index_type_text(IndexType::Hash) == "hash"@ && index_type_of("hash"@) == Some(IndexType::Hash),
        index_type_text(IndexType::SkipList) == "skiplist"@ && index_type_of("skiplist"@) == Some(IndexType::SkipList),
        index_type_text(IndexType::Persistent) == "persistent"@ && index_type_of("persistent"@) == Some(IndexType::Persistent),
        index_type_text(IndexType::Geo1) == "geo1"@ && index_type_of("geo1"@) == Some(IndexType::Geo1),
        index_type_text(IndexType::Geo2) == "geo2"@ && index_type_of("geo2"@) == Some(IndexType::Geo2),
        index_type_text(IndexType::Geo) == "geo"@ && index_type_of("geo"@) == Some(IndexType::Geo),
        index_type_text(IndexType::Fulltext) == "fulltext"@ && index_type_of("fulltext"@) == Some(IndexType::Fulltext),
        index_type_text(IndexType::Edge) == "edge"@ && index_type_of("edge"@) == Some(IndexType::Edge),
{
    lemma_index_type_text_read_back(IndexType::Primary);
    lemma_index_type_text_read_back(IndexType::Hash);
    lemma_index_type_text_read_back(IndexType::SkipList);
    lemma_index_type_text_read_back(IndexType::Persistent);
    lemma_index_type_text_read_back(IndexType::Geo1);
    lemma_index_type_text_read_back(IndexType::Geo2);
    lemma_index_type_text_read_back(IndexType::Geo);
    lemma_index_type_text_read_back(IndexType::Fulltext);
    lemma_index_type_text_read_back(IndexType::Edge);
}

/// Reading back the name of an index type gives the index type.
pub proof fn lemma_index_type_text_read_back(kind: IndexType)
    ensures
        index_type_of(index_type_text(kind)) == Some(kind),
{
    reveal_strlit("primary");
    reveal_strlit("hash");
    reveal_strlit("skiplist");
    reveal_strlit("persistent");
    reveal_strlit("geo1");
    reveal_strlit("geo2");
    reveal_strlit("geo");
    reveal_strlit("fulltext");
    reveal_strlit("edge");
    assert("primary"@.len() == 7);
    assert("hash"@.len() == 4);
    assert("skiplist"@.len() == 8);
    assert("persistent"@.len() == 10);
    assert("geo1"@.len() == 4);
    assert("geo2"@.len() == 4);
    assert("geo"@.len() == 3);
    assert("fulltext"@.len() == 8);
    assert("edge"@.len() == 4);
    assert("hash"@[0] != "geo1"@[0]);
    assert("hash"@[0] != "edge"@[0]);
    assert("geo1"@[3] != "geo2"@[3]);
    assert("geo1"@[0] != "edge"@[0]);
    assert("hash"@[0] != "geo2"@[0]);
    assert("geo2"@[0] != "edge"@[0]);
    assert("skiplist"@[0] != "fulltext"@[0]);
}

impl IndexType {
    /// The name of this index type.
    pub fn as_api_str(&self) -> (r: &'static str)
        ensures
            r@ == index_type_text(*self),
    {
        match *self {
            IndexType::Primary => "primary",
            IndexType::Hash => "hash",
            IndexType::SkipList => "skiplist",
            IndexType::Persistent => "persistent",
            IndexType::Geo1 => "geo1",
            IndexType::Geo2 => "geo2",
            IndexType::Geo => "geo",
            IndexType::Fulltext => "fulltext",
            IndexType::Edge => "edge",
        }
    }

    /// The index type named `value`; any other name is refused with
    /// `Unsupported index type: <quoted name>`.
    pub fn from_api_str(value: &str) -> (r: Result<Self, String>)
        ensures
            match r {
                Ok(kind) => index_type_of(value@) == Some(kind),
                Err(msg) => index_type_of(value@) is None
                    && msg@ == "Unsupported index type: "@ + debug_text(value@),
            },
    {
        if str_eq(value, "primary") { Ok(IndexType::Primary) }
        else if str_eq(value, "hash") { Ok(IndexType::Hash) }
        else if str_eq(value, "skiplist") { Ok(IndexType::SkipList) }
        else if str_eq(value, "persistent") { Ok(IndexType::Persistent) }
        else if str_eq(value, "geo1") { Ok(IndexType::Geo1) }
        else if str_eq(value, "geo2") { Ok(IndexType::Geo2) }
        else if str_eq(value, "geo") { Ok(IndexType::Geo) }
        else if str_eq(value, "fulltext") { Ok(IndexType::Fulltext) }
        else if str_eq(value, "edge") { Ok(IndexType::Edge) }
        else {
            let quoted = debug_string(value);
            let mut msg = "Unsupported index type: ".to_owned();
            msg.append(quoted.as_str());
            Err(msg)
        }
    }
}

/// The details that every index reports.
pub trait IndexDetails {
    fn id(&self) -> &IndexIdOption;

    fn fields(&self) -> &[String];

    fn is_newly_created(&self) -> bool;

    fn is_unique(&self) -> bool;

    fn is_sparse(&self) -> bool;
}

/// The primary index of a collection.
#[derive(Clone, Debug, PartialEq, Eq)]
pub struct PrimaryIndex {
    newly_created: bool,
    id: IndexIdOption,
    fields: Vec<String>,
    unique: bool,
    sparse: bool,
    selectivity_estimate: u32,
}

/// The content of a `PrimaryIndex`.
pub struct PrimaryIndexView {
    pub newly_created: bool,
    pub id: IndexIdOptionView,
    pub fields: Seq<Seq<char>>,
    pub unique: bool,
    pub sparse: bool,
    pub selectivity_estimate: u32,
}

impl View for PrimaryIndex {
    type V = PrimaryIndexView;

    closed spec fn view(&self) -> PrimaryIndexView {
        PrimaryIndexView {
            newly_created: self.newly_created,
            id: self.id@,
            fields: self.fields.deep_view(),
            unique: self.unique,
            sparse: self.sparse,
            selectivity_estimate: self.selectivity_estimate,
        }
    }
}

impl PrimaryIndex {
    pub fn new(newly_created: bool, id: IndexIdOption, fields: Vec<String>, unique: bool, sparse: bool, selectivity_estimate: u32) -> (r: Self)
        ensures
            r@ == (PrimaryIndexView { newly_created, id: id@, fields: fields.deep_view(), unique, sparse, selectivity_estimate }),
    {
        PrimaryIndex { newly_created, id, fields, unique, sparse, selectivity_estimate }
    }

    pub fn selectivity_estimate(&self) -> (r: u32)
        ensures
            r == self@.selectivity_estimate,
    {
        self.selectivity_estimate
    }
}

/// A hash index.
#[derive(Clone, Debug, PartialEq, Eq)]
pub struct HashIndex {
    newly_created: bool,
    id: IndexIdOption,
    fields: Vec<String>,
    unique: bool,
    sparse: bool,
    deduplicate: bool,
    selectivity_estimate: u32,
}

/// The content of a `HashIndex`.
pub struct HashIndexView {
    pub newly_created: bool,
    pub id: IndexIdOptionView,
    pub fields: Seq<Seq<char>>,
    pub unique: bool,
    pub sparse: bool,
    pub deduplicate: bool,
    pub selectivity_estimate: u32,
}

impl View for HashIndex {
    type V = HashIndexView;

    closed spec fn view(&self) -> HashIndexView {
        HashIndexView {
            newly_created: self.newly_created,
            id: self.id@,
            fields: self.fields.deep_view(),
            unique: self.unique,
            sparse: self.sparse,
            deduplicate: self.deduplicate,
            selectivity_estimate: self.selectivity_estimate,
        }
    }
}

impl HashIndex {
    pub fn new(newly_created: bool, id: IndexIdOption, fields: Vec<String>, unique: bool, sparse: bool, deduplicate: bool, selectivity_estimate: u32) -> (r: Self)
        ensures
            r@ == (HashIndexView { newly_created, id: id@, fields: fields.deep_view(), unique, sparse, deduplicate, selectivity_estimate }),
    {
        HashIndex { newly_created, id, fields, unique, sparse, deduplicate, selectivity_estimate }
    }

    pub fn is_deduplicate(&self) -> (r: bool)
        ensures
            r == self@.deduplicate,
    {
        self.deduplicate
    }

    pub fn selectivity_estimate(&self) -> (r: u32)
        ensures
            r == self@.selectivity_estimate,
    {
        self.selectivity_estimate
    }
}

/// A skip list index.
#[derive(Clone, Debug, PartialEq, Eq)]
pub struct SkipListIndex {
    newly_created: bool,
    id: IndexIdOption,
    fields: Vec<String>,
    unique: bool,
    sparse: bool,
    deduplicate: bool,
}

/// The content of a `SkipListIndex`.
pub struct SkipListIndexView {
    pub newly_created: bool,
    pub id: IndexIdOptionView,
    pub fields: Seq<Seq<char>>,
    pub unique: bool,
    pub sparse: bool,
    pub deduplicate: bool,
}

impl View for SkipListIndex {
    type V = SkipListIndexView;

    closed spec fn view(&self) -> SkipListIndexView {
        SkipListIndexView {
            newly_created: self.newly_created,
            id: self.id@,
            fields: self.fields.deep_view(),
            unique: self.unique,
            sparse: self.sparse,
            deduplicate: self.deduplicate,
        }
    }
}

impl SkipListIndex {
    pub fn new(newly_created: bool, id: IndexIdOption, fields: Vec<String>, unique: bool, sparse: bool, deduplicate: bool) -> (r: Self)
        ensures
            r@ == (SkipListIndexView { newly_created, id: id@, fields: fields.deep_view(), unique, sparse, deduplicate }),
    {
        SkipListIndex { newly_created, id, fields, unique, sparse, deduplicate }
    }

    pub fn is_deduplicate(&self) -> (r: bool)
        ensures
            r == self@.deduplicate,
    {
        self.deduplicate
    }
}

/// A persistent index.
#[derive(Clone, Debug, PartialEq, Eq)]
pub struct PersistentIndex {
    newly_created: bool,
    id: IndexIdOption,
    fields: Vec<String>,
    unique: bool,
    sparse: bool,
    deduplicate: bool,
}

/// The content of a `PersistentIndex`.
pub struct PersistentIndexView {
    pub newly_created: bool,
    pub id: IndexIdOptionView,
    pub fields: Seq<Seq<char>>,
    pub unique: bool,
    pub sparse: bool,
    pub deduplicate: bool,
}

impl View for PersistentIndex {
    type V = PersistentIndexView;

    closed spec fn view(&self) -> PersistentIndexView {
        PersistentIndexView {
            newly_created: self.newly_created,
            id: self.id@,
            fields: self.fields.deep_view(),
            unique: self.unique,
            sparse: self.sparse,
            deduplicate: self.deduplicate,
        }
    }
}

impl PersistentIndex {
    pub fn new(newly_created: bool, id: IndexIdOption, fields: Vec<String>, unique: bool, sparse: bool, deduplicate: bool) -> (r: Self)
        ensures
            r@ == (PersistentIndexView { newly_created, id: id@, fields: fields.deep_view(), unique, sparse, deduplicate }),
    {
        PersistentIndex { newly_created, id, fields, unique, sparse, deduplicate }
    }

    pub fn is_deduplicate(&self) -> (r: bool)
        ensures
            r == self@.deduplicate,
    {
        self.deduplicate
    }
}

/// A geo index over one location field.
#[derive(Clone, Debug, PartialEq, Eq)]
pub struct Geo1Index {
    newly_created: bool,
    id: IndexIdOption,
    fields: Vec<String>,
    unique: bool,
    sparse: bool,
    constraint: bool,
    geo_json: bool,
}

/// The content of a `Geo1Index`.
pub struct Geo1IndexView {
    pub newly_created: bool,
    pub id: IndexIdOptionView,
    pub fields: Seq<Seq<char>>,
    pub unique: bool,
    pub sparse: bool,
    pub constraint: bool,
    pub geo_json: bool,
}

impl View for Geo1Index {
    type V = Geo1IndexView;

    closed spec fn view(&self) -> Geo1IndexView {
        Geo1IndexView {
            newly_created: self.newly_created,
            id: self.id@,
            fields: self.fields.deep_view(),
            unique: self.unique,
            sparse: self.sparse,
            constraint: self.constraint,
            geo_json: self.geo_json,
        }
    }
}

impl Geo1Index {
    pub fn new(newly_created: bool, id: IndexIdOption, fields: Vec<String>, unique: bool, sparse: bool, constraint: bool, geo_json: bool) -> (r: Self)
        ensures
            r@ == (Geo1IndexView { newly_created, id: id@, fields: fields.deep_view(), unique, sparse, constraint, geo_json }),
    {
        Geo1Index { newly_created, id, fields, unique, sparse, constraint, geo_json }
    }

    pub fn is_constraint(&self) -> (r: bool)
        ensures
            r == self@.constraint,
    {
        self.constraint
    }

    pub fn is_geo_json(&self) -> (r: bool)
        ensures
            r == self@.geo_json,
    {
        self.geo_json
    }
}

/// A geo index over a latitude and a longitude field.
#[derive(Clone, Debug, PartialEq, Eq)]
pub struct Geo2Index {
    newly_created: bool,
    id: IndexIdOption,
    fields: Vec<String>,
    unique: bool,
    sparse: bool,
    constraint: bool,
}

/// The content of a `Geo2Index`.
pub struct Geo2IndexView {
    pub newly_created: bool,
    pub id: IndexIdOptionView,
    pub fields: Seq<Seq<char>>,
    pub unique: bool,
    pub sparse: bool,
    pub constraint: bool,
}

impl View for Geo2Index {
    type V = Geo2IndexView;

    closed spec fn view(&self) -> Geo2IndexView {
        Geo2IndexView {
            newly_created: self.newly_created,
            id: self.id@,
            fields: self.fields.deep_view(),
            unique: self.unique,
            sparse: self.sparse,
            constraint: self.constraint,
        }
    }
}

impl Geo2Index {
    pub fn new(newly_created: bool, id: IndexIdOption, fields: Vec<String>, unique: bool, sparse: bool, constraint: bool) -> (r: Self)
        ensures
            r@ == (Geo2IndexView { newly_created, id: id@, fields: fields.deep_view(), unique, sparse, constraint }),
    {
        Geo2Index { newly_created, id, fields, unique, sparse, constraint }
    }

    pub fn is_constraint(&self) -> (r: bool)
        ensures
            r == self@.constraint,
    {
        self.constraint
    }
}

/// A fulltext index.
#[derive(Clone, Debug, PartialEq, Eq)]
pub struct FulltextIndex {
    newly_created: bool,
    id: IndexIdOption,
    fields: Vec<String>,
    unique: bool,
    sparse: bool,
    min_length: u32,
}

/// The content of a `FulltextIndex`.
pub struct FulltextIndexView {
    pub newly_created: bool,
    pub id: IndexIdOptionView,
    pub fields: Seq<Seq<char>>,
    pub unique: bool,
    pub sparse: bool,
    pub min_length: u32,
}

impl View for FulltextIndex {
    type V = FulltextIndexView;

    closed spec fn view(&self) -> FulltextIndexView {
        FulltextIndexView {
            newly_created: self.newly_created,
            id: self.id@,
            fields: self.fields.deep_view(),
            unique: self.unique,
            sparse: self.sparse,
            min_length: self.min_length,
        }
    }
}

impl FulltextIndex {
    pub fn new(newly_created: bool, id: IndexIdOption, fields: Vec<String>, unique: bool, sparse: bool, min_length: u32) -> (r: Self)
        ensures
            r@ == (FulltextIndexView { newly_created, id: id@, fields: fields.deep_view(), unique, sparse, min_length }),
    {
        FulltextIndex { newly_created, id, fields, unique, sparse, min_length }
    }

    pub fn min_length(&self) -> (r: u32)
        ensures
            r == self@.min_length,
    {
        self.min_length
    }
}

/// The edge index of an edge collection.
#[derive(Clone, Debug, PartialEq, Eq)]
pub struct EdgeIndex {
    newly_created: bool,
    id: IndexIdOption,
    fields: Vec<String>,
    unique: bool,
    sparse: bool,
}

/// The content of a `EdgeIndex`.
pub struct EdgeIndexView {
    pub newly_created: bool,
    pub id: IndexIdOptionView,
    pub fields: Seq<Seq<char>>,
    pub unique: bool,
    pub sparse: bool,
}

impl View for EdgeIndex {
    type V = EdgeIndexView;

    closed spec fn view(&self) -> EdgeIndexView {
        EdgeIndexView {
            newly_created: self.newly_created,
            id: self.id@,
            fields: self.fields.deep_view(),
            unique: self.unique,
            sparse: self.sparse,
        }
    }
}

impl EdgeIndex {
    pub fn new(newly_created: bool, id: IndexIdOption, fields: Vec<String>, unique: bool, sparse: bool) -> (r: Self)
        ensures
            r@ == (EdgeIndexView { newly_created, id: id@, fields: fields.deep_view(), unique, sparse }),
    {
        EdgeIndex { newly_created, id, fields, unique, sparse }
    }
}

impl IndexDetails for PrimaryIndex {
    fn id(&self) -> (r: &IndexIdOption)
        ensures
            r@ == self@.id,
    {
        &self.id
    }

    fn fields(&self) -> (r: &[String])
        ensures
            r.deep_view() == self@.fields,
    {
        self.fields.as_slice()
    }

    fn is_newly_created(&self) -> (r: bool)
        ensures
            r == self@.newly_created,
    {
        self.newly_created
    }

    fn is_unique(&self) -> (r: bool)
        ensures
            r == self@.unique,
    {
        self.unique
    }

    fn is_sparse(&self) -> (r: bool)
        ensures
            r == self@.sparse,
    {
        self.sparse
    }
}

impl From<PrimaryIndex> for Index {
    fn from(index: PrimaryIndex) -> (r: Self) {
        Index::Primary(index)
    }
}

impl FromSpecImpl<PrimaryIndex> for Index {
    open spec fn obeys_from_spec() -> bool {
        true
    }

    open spec fn from_spec(v: PrimaryIndex) -> Self {
        Index::Primary(v)
    }
}

impl IndexDetails for HashIndex {
    fn id(&self) -> (r: &IndexIdOption)
        ensures
            r@ == self@.id,
    {
        &self.id
    }

    fn fields(&self) -> (r: &[String])
        ensures
            r.deep_view() == self@.fields,
    {
        self.fields.as_slice()
    }

    fn is_newly_created(&self) -> (r: bool)
        ensures
            r == self@.newly_created,
    {
        self.newly_created
    }

    fn is_unique(&self) -> (r: bool)
        ensures
            r == self@.unique,
    {
        self.unique
    }

    fn is_sparse(&self) -> (r: bool)
        ensures
            r == self@.sparse,
    {
        self.sparse
    }
}

impl From<HashIndex> for Index {
    fn from(index: HashIndex) -> (r: Self) {
        Index::Hash(index)
    }
}

impl FromSpecImpl<HashIndex> for Index {
    open spec fn obeys_from_spec() -> bool {
        true
    }

    open spec fn from_spec(v: HashIndex) -> Self {
        Index::Hash(v)
    }
}

impl IndexDetails for SkipListIndex {
    fn id(&self) -> (r: &IndexIdOption)
        ensures
            r@ == self@.id,
    {
        &self.id
    }

    fn fields(&self) -> (r: &[String])
        ensures
            r.deep_view() == self@.fields,
    {
        self.fields.as_slice()
    }

    fn is_newly_created(&self) -> (r: bool)
        ensures
            r == self@.newly_created,
    {
        self.newly_created
    }

    fn is_unique(&self) -> (r: bool)
        ensures
            r == self@.unique,
    {
        self.unique
    }

    fn is_sparse(&self) -> (r: bool)
        ensures
            r == self@.sparse,
    {
        self.sparse
    }
}

impl From<SkipListIndex> for Index {
    fn from(index: SkipListIndex) -> (r: Self) {
        Index::SkipList(index)
    }
}

impl FromSpecImpl<SkipListIndex> for Index {
    open spec fn obeys_from_spec() -> bool {
        true
    }

    open spec fn from_spec(v: SkipListIndex) -> Self {
        Index::SkipList(v)
    }
}

impl IndexDetails for PersistentIndex {
    fn id(&self) -> (r: &IndexIdOption)
        ensures
            r@ == self@.id,
    {
        &self.id
    }

    fn fields(&self) -> (r: &[String])
        ensures
            r.deep_view() == self@.fields,
    {
        self.fields.as_slice()
    }

    fn is_newly_created(&self) -> (r: bool)
        ensures
            r == self@.newly_created,
    {
        self.newly_created
    }

    fn is_unique(&self) -> (r: bool)
        ensures
            r == self@.unique,
    {
        self.unique
    }

    fn is_sparse(&self) -> (r: bool)
        ensures
            r == self@.sparse,
    {
        self.sparse
    }
}

impl From<PersistentIndex> for Index {
    fn from(index: PersistentIndex) -> (r: Self) {
        Index::Persistent(index)
    }
}

impl FromSpecImpl<PersistentIndex> for Index {
    open spec fn obeys_from_spec() -> bool {
        true
    }

    open spec fn from_spec(v: PersistentIndex) -> Self {
        Index::Persistent(v)
    }
}

impl IndexDetails for Geo1Index {
    fn id(&self) -> (r: &IndexIdOption)
        ensures
            r@ == self@.id,
    {
        &self.id
    }

    fn fields(&self) -> (r: &[String])
        ensures
            r.deep_view() == self@.fields,
    {
        self.fields.as_slice()
    }

    fn is_newly_created(&self) -> (r: bool)
        ensures
            r == self@.newly_created,
    {
        self.newly_created
    }

    fn is_unique(&self) -> (r: bool)
        ensures
            r == self@.unique,
    {
        self.unique
    }

    fn is_sparse(&self) -> (r: bool)
        ensures
            r == self@.sparse,
    {
        self.sparse
    }
}

impl From<Geo1Index> for Index {
    fn from(index: Geo1Index) -> (r: Self) {
        Index::Geo1(index)
    }
}

impl FromSpecImpl<Geo1Index> for Index {
    open spec fn obeys_from_spec() -> bool {
        true
    }

    open spec fn from_spec(v: Geo1Index) -> Self {
        Index::Geo1(v)
    }
}

impl IndexDetails for Geo2Index {
    fn id(&self) -> (r: &IndexIdOption)
        ensures
            r@ == self@.id,
    {
        &self.id
    }

    fn fields(&self) -> (r: &[String])
        ensures
            r.deep_view() == self@.fields,
    {
        self.fields.as_slice()
    }

    fn is_newly_created(&self) -> (r: bool)
        ensures
            r == self@.newly_created,
    {
        self.newly_created
    }

    fn is_unique(&self) -> (r: bool)
        ensures
            r == self@.unique,
    {
        self.unique
    }

    fn is_sparse(&self) -> (r: bool)
        ensures
            r == self@.sparse,
    {
        self.sparse
    }
}

impl From<Geo2Index> for Index {
    fn from(index: Geo2Index) -> (r: Self) {
        Index::Geo2(index)
    }
}

impl FromSpecImpl<Geo2Index> for Index {
    open spec fn obeys_from_spec() -> bool {
        true
    }

    open spec fn from_spec(v: Geo2Index) -> Self {
        Index::Geo2(v)
    }
}

impl IndexDetails for FulltextIndex {
    fn id(&self) -> (r: &IndexIdOption)
        ensures
            r@ == self@.id,
    {
        &self.id
    }

    fn fields(&self) -> (r: &[String])
        ensures
            r.deep_view() == self@.fields,
    {
        self.fields.as_slice()
    }

    fn is_newly_created(&self) -> (r: bool)
        ensures
            r == self@.newly_created,
    {
        self.newly_created
    }

    fn is_unique(&self) -> (r: bool)
        ensures
            r == self@.unique,
    {
        self.unique
    }

    fn is_sparse(&self) -> (r: bool)
        ensures
            r == self@.sparse,
    {
        self.sparse
    }
}

impl From<FulltextIndex> for Index {
    fn from(index: FulltextIndex) -> (r: Self) {
        Index::Fulltext(index)
    }
}

impl FromSpecImpl<FulltextIndex> for Index {
    open spec fn obeys_from_spec() -> bool {
        true
    }

    open spec fn from_spec(v: FulltextIndex) -> Self {
        Index::Fulltext(v)
    }
}

impl IndexDetails for EdgeIndex {
    fn id(&self) -> (r: &IndexIdOption)
        ensures
            r@ == self@.id,
    {
        &self.id
    }

    fn fields(&self) -> (r: &[String])
        ensures
            r.deep_view() == self@.fields,
    {
        self.fields.as_slice()
    }

    fn is_newly_created(&self) -> (r: bool)
        ensures
            r == self@.newly_created,
    {
        self.newly_created
    }

    fn is_unique(&self) -> (r: bool)
        ensures
            r == self@.unique,
    {
        self.unique
    }

    fn is_sparse(&self) -> (r: bool)
        ensures
            r == self@.sparse,
    {
        self.sparse
    }
}

impl From<EdgeIndex> for Index {
    fn from(index: EdgeIndex) -> (r: Self) {
        Index::Edge(index)
    }
}

impl FromSpecImpl<EdgeIndex> for Index {
    open spec fn obeys_from_spec() -> bool {
        true
    }

    open spec fn from_spec(v: EdgeIndex) -> Self {
        Index::Edge(v)
    }
}
/// An index as the server reports it.
#[derive(Clone, Debug, PartialEq, Eq)]
pub enum Index {
    Primary(PrimaryIndex),
    Hash(HashIndex),
    SkipList(SkipListIndex),
    Persistent(PersistentIndex),
    Geo1(Geo1Index),
    Geo2(Geo2Index),
    Fulltext(FulltextIndex),
    Edge(EdgeIndex),
}

/// The content of an `Index`.
pub enum IndexView {
    Primary(PrimaryIndexView),
    Hash(HashIndexView),
    SkipList(SkipListIndexView),
    Persistent(PersistentIndexView),
    Geo1(Geo1IndexView),
    Geo2(Geo2IndexView),
    Fulltext(FulltextIndexView),
    Edge(EdgeIndexView),
}

impl View for Index {
    type V = IndexView;

    open spec fn view(&self) -> IndexView {
        match self {
            Index::Primary(x) => IndexView::Primary(x@),
            Index::Hash(x) => IndexView::Hash(x@),
            Index::SkipList(x) => IndexView::SkipList(x@),
            Index::Persistent(x) => IndexView::Persistent(x@),
            Index::Geo1(x) => IndexView::Geo1(x@),
            Index::Geo2(x) => IndexView::Geo2(x@),
            Index::Fulltext(x) => IndexView::Fulltext(x@),
            Index::Edge(x) => IndexView::Edge(x@),
        }
    }
}

impl Index {
    /// The identifier of whichever index this is.
    pub open spec fn id_view(&self) -> IndexIdOptionView {
        match self {
            Index::Primary(x) => x@.id,
            Index::Hash(x) => x@.id,
            Index::SkipList(x) => x@.id,
            Index::Persistent(x) => x@.id,
            Index::Geo1(x) => x@.id,
            Index::Geo2(x) => x@.id,
            Index::Fulltext(x) => x@.id,
            Index::Edge(x) => x@.id,
        }
    }

    /// The indexed fields of whichever index this is.
    pub open spec fn fields_view(&self) -> Seq<Seq<char>> {
        match self {
            Index::Primary(x) => x@.fields,
            Index::Hash(x) => x@.fields,
            Index::SkipList(x) => x@.fields,
            Index::Persistent(x) => x@.fields,
            Index::Geo1(x) => x@.fields,
            Index::Geo2(x) => x@.fields,
            Index::Fulltext(x) => x@.fields,
            Index::Edge(x) => x@.fields,
        }
    }
}

impl IndexDetails for Index {
    fn id(&self) -> (r: &IndexIdOption)
        ensures
            r@ == self.id_view(),
    {
        match self {
            Index::Primary(x) => x.id(),
            Index::Hash(x) => x.id(),
            Index::SkipList(x) => x.id(),
            Index::Persistent(x) => x.id(),
            Index::Geo1(x) => x.id(),
            Index::Geo2(x) => x.id(),
            Index::Fulltext(x) => x.id(),
            Index::Edge(x) => x.id(),
        }
    }

    fn fields(&self) -> (r: &[String])
        ensures
            r.deep_view() == self.fields_view(),
    {
        match self {
            Index::Primary(x) => x.fields(),
            Index::Hash(x) => x.fields(),
            Index::SkipList(x) => x.fields(),
            Index::Persistent(x) => x.fields(),
            Index::Geo1(x) => x.fields(),
            Index::Geo2(x) => x.fields(),
            Index::Fulltext(x) => x.fields(),
            Index::Edge(x) => x.fields(),
        }
    }

    fn is_newly_created(&self) -> (r: bool)
        ensures
            r == match self {
                Index::Primary(x) => x@.newly_created,
                Index::Hash(x) => x@.newly_created,
                Index::SkipList(x) => x@.newly_created,
                Index::Persistent(x) => x@.newly_created,
                Index::Geo1(x) => x@.newly_created,
                Index::Geo2(x) => x@.newly_created,
                Index::Fulltext(x) => x@.newly_created,
                Index::Edge(x) => x@.newly_created,
            },
    {
        match self {
            Index::Primary(x) => x.is_newly_created(),
            Index::Hash(x) => x.is_newly_created(),
            Index::SkipList(x) => x.is_newly_created(),
            Index::Persistent(x) => x.is_newly_created(),
            Index::Geo1(x) => x.is_newly_created(),
            Index::Geo2(x) => x.is_newly_created(),
            Index::Fulltext(x) => x.is_newly_created(),
            Index::Edge(x) => x.is_newly_created(),
        }
    }

    fn is_unique(&self) -> (r: bool)
        ensures
            r == match self {
                Index::Primary(x) => x@.unique,
                Index::Hash(x) => x@.unique,
                Index::SkipList(x) => x@.unique,
                Index::Persistent(x) => x@.unique,
                Index::Geo1(x) => x@.unique,
                Index::Geo2(x) => x@.unique,
                Index::Fulltext(x) => x@.unique,
                Index::Edge(x) => x@.unique,
            },
    {
        match self {
            Index::Primary(x) => x.is_unique(),
            Index::Hash(x) => x.is_unique(),
            Index::SkipList(x) => x.is_unique(),
            Index::Persistent(x) => x.is_unique(),
            Index::Geo1(x) => x.is_unique(),
            Index::Geo2(x) => x.is_unique(),
            Index::Fulltext(x) => x.is_unique(),
            Index::Edge(x) => x.is_unique(),
        }
    }

    fn is_sparse(&self) -> (r: bool)
        ensures
            r == match self {
                Index::Primary(x) => x@.sparse,
                Index::Hash(x) => x@.sparse,
                Index::SkipList(x) => x@.sparse,
                Index::Persistent(x) => x@.sparse,
                Index::Geo1(x) => x@.sparse,
                Index::Geo2(x) => x@.sparse,
                Index::Fulltext(x) => x@.sparse,
                Index::Edge(x) => x@.sparse,
            },
    {
        match self {
            Index::Primary(x) => x.is_sparse(),
            Index::Hash(x) => x.is_sparse(),
            Index::SkipList(x) => x.is_sparse(),
            Index::Persistent(x) => x.is_sparse(),
            Index::Geo1(x) => x.is_sparse(),
            Index::Geo2(x) => x.is_sparse(),
            Index::Fulltext(x) => x.is_sparse(),
            Index::Edge(x) => x.is_sparse(),
        }
    }
}

/// The fields of an index as the server sends them, before they are sorted
/// into the kind of index they describe.
#[derive(Clone, Debug, PartialEq, Eq)]
pub struct GenericIndex {
    pub kind: IndexType,
    pub id: IndexIdOption,
    pub fields: Vec<String>,
    pub selectivity_estimate: Option<u32>,
    pub is_newly_created: Option<bool>,
    pub unique: Option<bool>,
    pub sparse: Option<bool>,
    pub deduplicate: Option<bool>,
    pub constraint: Option<bool>,
    pub min_length: Option<u32>,
    pub geo_json: Option<bool>,
}

/// The index that the fields of `g` describe: the kind names the index and
/// every field that kind requires must be present. `None` where a required
/// field is missing and for the kind `geo`, which the server never reports.
pub open spec fn index_of_generic(g: GenericIndex) -> Option<IndexView> {
    let newly_created = match g.is_newly_created { Some(b) => b, None => false };
    let id = g.id@;
    let fields = g.fields.deep_view();
    match g.kind {
        IndexType::Primary => match (g.selectivity_estimate, g.sparse, g.unique) {
            (Some(selectivity_estimate), Some(sparse), Some(unique)) => Some(IndexView::Primary(
                PrimaryIndexView { newly_created, id, fields, unique, sparse, selectivity_estimate })),
            _ => None,
        },
        IndexType::Hash => match (g.deduplicate, g.selectivity_estimate, g.sparse, g.unique) {
            (Some(deduplicate), Some(selectivity_estimate), Some(sparse), Some(unique)) => Some(IndexView::Hash(
                HashIndexView { newly_created, id, fields, unique, sparse, deduplicate, selectivity_estimate })),
            _ => None,
        },
        IndexType::SkipList => match (g.deduplicate, g.sparse, g.unique) {
            (Some(deduplicate), Some(sparse), Some(unique)) => Some(IndexView::SkipList(
                SkipListIndexView { newly_created, id, fields, unique, sparse, deduplicate })),
            _ => None,
        },
        IndexType::Persistent => match (g.deduplicate, g.sparse, g.unique) {
            (Some(deduplicate), Some(sparse), Some(unique)) => Some(IndexView::Persistent(
                PersistentIndexView { newly_created, id, fields, unique, sparse, deduplicate })),
            _ => None,
        },
        IndexType::Geo1 => match (g.geo_json, g.constraint, g.sparse, g.unique) {
            (Some(geo_json), Some(constraint), Some(sparse), Some(unique)) => Some(IndexView::Geo1(
                Geo1IndexView { newly_created, id, fields, unique, sparse, constraint, geo_json })),
            _ => None,
        },
        IndexType::Geo2 => match (g.constraint, g.sparse, g.unique) {
            (Some(constraint), Some(sparse), Some(unique)) => Some(IndexView::Geo2(
                Geo2IndexView { newly_created, id, fields, unique, sparse, constraint })),
            _ => None,
        },
        IndexType::Fulltext => match (g.min_length, g.sparse, g.unique) {
            (Some(min_length), Some(sparse), Some(unique)) => Some(IndexView::Fulltext(
                FulltextIndexView { newly_created, id, fields, unique, sparse, min_length })),
            _ => None,
        },
        IndexType::Edge => match (g.sparse, g.unique) {
            (Some(sparse), Some(unique)) => Some(IndexView::Edge(
                EdgeIndexView { newly_created, id, fields, unique, sparse })),
            _ => None,
        },
        IndexType::Geo => None,
    }
}

/// Reading an index the server describes keeps what it sent: the index is of
/// the kind the description names, carries its identifier and fields, is
/// newly created only where the description says so, and takes each flag and
/// number from the field of the same name. A description is read exactly
/// when its kind is one the server reports and every field that kind needs
/// is present.
pub proof fn lemma_index_from_generic_keeps_fields(g: GenericIndex)
    ensures
        index_of_generic(g) is Some <==> (
            (g.kind == IndexType::Primary && g.unique is Some && g.sparse is Some && g.selectivity_estimate is Some)
            || (g.kind == IndexType::Hash && g.unique is Some && g.sparse is Some && g.deduplicate is Some && g.selectivity_estimate is Some)
            || (g.kind == IndexType::SkipList && g.unique is Some && g.sparse is Some && g.deduplicate is Some)
            || (g.kind == IndexType::Persistent && g.unique is Some && g.sparse is Some && g.deduplicate is Some)
            || (g.kind == IndexType::Geo1 && g.unique is Some && g.sparse is Some && g.constraint is Some && g.geo_json is Some)
            || (g.kind == IndexType::Geo2 && g.unique is Some && g.sparse is Some && g.constraint is Some)
            || (g.kind == IndexType::Fulltext && g.unique is Some && g.sparse is Some && g.min_length is Some)
            || (g.kind == IndexType::Edge && g.unique is Some && g.sparse is Some)),
        index_of_generic(g) matches Some(IndexView::Primary(x)) ==> g.kind == IndexType::Primary
            && x.id == g.id@
            && x.fields == g.fields.deep_view()
            && x.newly_created == (g.is_newly_created == Some(true))
            && g.unique == Some(x.unique)
            && g.sparse == Some(x.sparse)
            && g.selectivity_estimate == Some(x.selectivity_estimate),
        index_of_generic(g) matches Some(IndexView::Hash(x)) ==> g.kind == IndexType::Hash
            && x.id == g.id@
            && x.fields == g.fields.deep_view()
            && x.newly_created == (g.is_newly_created == Some(true))
            && g.unique == Some(x.unique)
            && g.sparse == Some(x.sparse)
            && g.deduplicate == Some(x.deduplicate)
            && g.selectivity_estimate == Some(x.selectivity_estimate),
        index_of_generic(g) matches Some(IndexView::SkipList(x)) ==> g.kind == IndexType::SkipList
            && x.id == g.id@
            && x.fields == g.fields.deep_view()
            && x.newly_created == (g.is_newly_created == Some(true))
            && g.unique == Some(x.unique)
            && g.sparse == Some(x.sparse)
            && g.deduplicate == Some(x.deduplicate),
        index_of_generic(g) matches Some(IndexView::Persistent(x)) ==> g.kind == IndexType::Persistent
            && x.id == g.id@
            && x.fields == g.fields.deep_view()
            && x.newly_created == (g.is_newly_created == Some(true))
            && g.unique == Some(x.unique)
            && g.sparse == Some(x.sparse)
            && g.deduplicate == Some(x.deduplicate),
        index_of_generic(g) matches Some(IndexView::Geo1(x)) ==> g.kind == IndexType::Geo1
            && x.id == g.id@
            && x.fields == g.fields.deep_view()
            && x.newly_created == (g.is_newly_created == Some(true))
            && g.unique == Some(x.unique)
            && g.sparse == Some(x.sparse)
            && g.constraint == Some(x.constraint)
            && g.geo_json == Some(x.geo_json),
        index_of_generic(g) matches Some(IndexView::Geo2(x)) ==> g.kind == IndexType::Geo2
            && x.id == g.id@
            && x.fields == g.fields.deep_view()
            && x.newly_created == (g.is_newly_created == Some(true))
            && g.unique == Some(x.unique)
            && g.sparse == Some(x.sparse)
            && g.constraint == Some(x.constraint),
        index_of_generic(g) matches Some(IndexView::Fulltext(x)) ==> g.kind == IndexType::Fulltext
            && x.id == g.id@
            && x.fields == g.fields.deep_view()
            && x.newly_created == (g.is_newly_created == Some(true))
            && g.unique == Some(x.unique)
            && g.sparse == Some(x.sparse)
            && g.min_length == Some(x.min_length),
        index_of_generic(g) matches Some(IndexView::Edge(x)) ==> g.kind == IndexType::Edge
            && x.id == g.id@
            && x.fields == g.fields.deep_view()
            && x.newly_created == (g.is_newly_created == Some(true))
            && g.unique == Some(x.unique)
            && g.sparse == Some(x.sparse),
{
}

impl Index {
    /// Sorts the fields the server sent into the index they describe. A
    /// missing field is refused with `Unsupported type/fields combination`,
    /// the kind `geo` with `Unsupported index type`.
    pub fn from_generic(g: GenericIndex) -> (r: Result<Index, String>)
        ensures
            match r {
                Ok(index) => index_of_generic(g) == Some(index@),
                Err(msg) => index_of_generic(g) is None && msg@ == (if g.kind == IndexType::Geo {
                    "Unsupported index type"@
                } else {
                    "Unsupported type/fields combination"@
                }),
            },
    {
        let ghost g0 = g;
        let GenericIndex { kind, id, fields, selectivity_estimate, is_newly_created, unique, sparse,
            deduplicate, constraint, min_length, geo_json } = g;
        let newly_created = match is_newly_created { Some(b) => b, None => false };
        let unsupported = "Unsupported type/fields combination";
        match kind {
            IndexType::Primary => match (selectivity_estimate, sparse, unique) {
                (Some(selectivity_estimate), Some(sparse), Some(unique)) => Ok(Index::Primary(
                    PrimaryIndex { newly_created, id, fields, unique, sparse, selectivity_estimate })),
                _ => Err(unsupported.to_owned()),
            },
            IndexType::Hash => match (deduplicate, selectivity_estimate, sparse, unique) {
                (Some(deduplicate), Some(selectivity_estimate), Some(sparse), Some(unique)) => Ok(Index::Hash(
                    HashIndex { newly_created, id, fields, unique, sparse, deduplicate, selectivity_estimate })),
                _ => Err(unsupported.to_owned()),
            },
            IndexType::SkipList => match (deduplicate, sparse, unique) {
                (Some(deduplicate), Some(sparse), Some(unique)) => Ok(Index::SkipList(
                    SkipListIndex { newly_created, id, fields, unique, sparse, deduplicate })),
                _ => Err(unsupported.to_owned()),
            },
            IndexType::Persistent => match (deduplicate, sparse, unique) {
                (Some(deduplicate), Some(sparse), Some(unique)) => Ok(Index::Persistent(
                    PersistentIndex { newly_created, id, fields, unique, sparse, deduplicate })),
                _ => Err(unsupported.to_owned()),
            },
            IndexType::Geo1 => match (geo_json, constraint, sparse, unique) {
                (Some(geo_json), Some(constraint), Some(sparse), Some(unique)) => Ok(Index::Geo1(
                    Geo1Index { newly_created, id, fields, unique, sparse, constraint, geo_json })),
                _ => Err(unsupported.to_owned()),
            },
            IndexType::Geo2 => match (constraint, sparse, unique) {
                (Some(constraint), Some(sparse), Some(unique)) => Ok(Index::Geo2(
                    Geo2Index { newly_created, id, fields, unique, sparse, constraint })),
                _ => Err(unsupported.to_owned()),
            },
            IndexType::Fulltext => match (min_length, sparse, unique) {
                (Some(min_length), Some(sparse), Some(unique)) => Ok(Index::Fulltext(
                    FulltextIndex { newly_created, id, fields, unique, sparse, min_length })),
                _ => Err(unsupported.to_owned()),
            },
            IndexType::Edge => match (sparse, unique) {
                (Some(sparse), Some(unique)) => Ok(Index::Edge(
                    EdgeIndex { newly_created, id, fields, unique, sparse })),
                _ => Err(unsupported.to_owned()),
            },
            IndexType::Geo => Err("Unsupported index type".to_owned()),
        }
    }
}

/// An index to be created.
#[derive(Clone, Debug, PartialEq, Eq)]
pub enum NewIndex {
    Hash(NewHashIndex),
    SkipList(NewSkipListIndex),
    Persistent(NewPersistentIndex),
    Geo(NewGeoIndex),
    Fulltext(NewFulltextIndex),
}

/// A hash index to be created.
#[derive(Clone, Debug, PartialEq, Eq)]
pub struct NewHashIndex {
    kind: IndexType,
    fields: Vec<String>,
    unique: bool,
    sparse: bool,
    deduplicate: bool,
}

/// The content of a `NewHashIndex`.
pub struct NewHashIndexView {
    pub kind: IndexType,
    pub fields: Seq<Seq<char>>,
    pub unique: bool,
    pub sparse: bool,
    pub deduplicate: bool,
}

impl View for NewHashIndex {
    type V = NewHashIndexView;

    closed spec fn view(&self) -> NewHashIndexView {
        NewHashIndexView {
            kind: self.kind,
            fields: self.fields.deep_view(),
            unique: self.unique,
            sparse: self.sparse,
            deduplicate: self.deduplicate,
        }
    }
}

impl NewHashIndex {
    /// An index over `fields`; the type is set by the kind of index.
    pub fn new(fields: Vec<String>, unique: bool, sparse: bool, deduplicate: bool) -> (r: Self)
        ensures
            r@ == (NewHashIndexView { kind: IndexType::Hash, fields: fields.deep_view(), unique, sparse, deduplicate }),
    {
        NewHashIndex { kind: IndexType::Hash, fields, sparse, unique, deduplicate }
    }

    pub fn fields_mut(&mut self) -> (r: &mut Vec<String>)
        ensures
            r.deep_view() == old(self)@.fields,
            final(self)@ == (NewHashIndexView { fields: final(r).deep_view(), ..old(self)@ }),
    {
        &mut self.fields
    }

    pub fn fields(&self) -> (r: &[String])
        ensures
            r.deep_view() == self@.fields,
    {
        self.fields.as_slice()
    }

    pub fn set_unique(&mut self, unique: bool)
        ensures
            final(self)@ == (NewHashIndexView { unique: unique, ..old(self)@ }),
    {
        self.unique = unique;
    }

    pub fn is_unique(&self) -> (r: bool)
        ensures
            r == self@.unique,
    {
        self.unique
    }

    pub fn set_sparse(&mut self, sparse: bool)
        ensures
            final(self)@ == (NewHashIndexView { sparse: sparse, ..old(self)@ }),
    {
        self.sparse = sparse;
    }

    pub fn is_sparse(&self) -> (r: bool)
        ensures
            r == self@.sparse,
    {
        self.sparse
    }

    pub fn set_deduplicate(&mut self, deduplicate: bool)
        ensures
            final(self)@ == (NewHashIndexView { deduplicate: deduplicate, ..old(self)@ }),
    {
        self.deduplicate = deduplicate;
    }

    pub fn is_deduplicate(&self) -> (r: bool)
        ensures
            r == self@.deduplicate,
    {
        self.deduplicate
    }
}

/// A skip list index to be created.
#[derive(Clone, Debug, PartialEq, Eq)]
pub struct NewSkipListIndex {
    kind: IndexType,
    fields: Vec<String>,
    sparse: bool,
    unique: bool,
    deduplicate: bool,
}

/// The content of a `NewSkipListIndex`.
pub struct NewSkipListIndexView {
    pub kind: IndexType,
    pub fields: Seq<Seq<char>>,
    pub sparse: bool,
    pub unique: bool,
    pub deduplicate: bool,
}

impl View for NewSkipListIndex {
    type V = NewSkipListIndexView;

    closed spec fn view(&self) -> NewSkipListIndexView {
        NewSkipListIndexView {
            kind: self.kind,
            fields: self.fields.deep_view(),
            sparse: self.sparse,
            unique: self.unique,
            deduplicate: self.deduplicate,
        }
    }
}

impl NewSkipListIndex {
    /// An index over `fields`; the type is set by the kind of index.
    pub fn new(fields: Vec<String>, unique: bool, sparse: bool, deduplicate: bool) -> (r: Self)
        ensures
            r@ == (NewSkipListIndexView { kind: IndexType::SkipList, fields: fields.deep_view(), unique, sparse, deduplicate }),
    {
        NewSkipListIndex { kind: IndexType::SkipList, fields, sparse, unique, deduplicate }
    }

    pub fn fields_mut(&mut self) -> (r: &mut Vec<String>)
        ensures
            r.deep_view() == old(self)@.fields,
            final(self)@ == (NewSkipListIndexView { fields: final(r).deep_view(), ..old(self)@ }),
    {
        &mut self.fields
    }

    pub fn fields(&self) -> (r: &[String])
        ensures
            r.deep_view() == self@.fields,
    {
        self.fields.as_slice()
    }

    pub fn set_sparse(&mut self, sparse: bool)
        ensures
            final(self)@ == (NewSkipListIndexView { sparse: sparse, ..old(self)@ }),
    {
        self.sparse = sparse;
    }

    pub fn is_sparse(&self) -> (r: bool)
        ensures
            r == self@.sparse,
    {
        self.sparse
    }

    pub fn set_unique(&mut self, unique: bool)
        ensures
            final(self)@ == (NewSkipListIndexView { unique: unique, ..old(self)@ }),
    {
        self.unique = unique;
    }

    pub fn is_unique(&self) -> (r: bool)
        ensures
            r == self@.unique,
    {
        self.unique
    }

    pub fn set_deduplicate(&mut self, deduplicate: bool)
        ensures
            final(self)@ == (NewSkipListIndexView { deduplicate: deduplicate, ..old(self)@ }),
    {
        self.deduplicate = deduplicate;
    }

    pub fn is_deduplicate(&self) -> (r: bool)
        ensures
            r == self@.deduplicate,
    {
        self.deduplicate
    }
}

/// A persistent index to be created.
#[derive(Clone, Debug, PartialEq, Eq)]
pub struct NewPersistentIndex {
    kind: IndexType,
    fields: Vec<String>,
    sparse: bool,
    unique: bool,
}

/// The content of a `NewPersistentIndex`.
pub struct NewPersistentIndexView {
    pub kind: IndexType,
    pub fields: Seq<Seq<char>>,
    pub sparse: bool,
    pub unique: bool,
}

impl View for NewPersistentIndex {
    type V = NewPersistentIndexView;

    closed spec fn view(&self) -> NewPersistentIndexView {
        NewPersistentIndexView {
            kind: self.kind,
            fields: self.fields.deep_view(),
            sparse: self.sparse,
            unique: self.unique,
        }
    }
}

impl NewPersistentIndex {
    pub fn new(fields: Vec<String>, unique: bool, sparse: bool) -> (r: Self)
        ensures
            r@ == (NewPersistentIndexView { kind: IndexType::Persistent, fields: fields.deep_view(), unique, sparse }),
    {
        NewPersistentIndex { kind: IndexType::Persistent, fields, sparse, unique }
    }

    pub fn fields_mut(&mut self) -> (r: &mut Vec<String>)
        ensures
            r.deep_view() == old(self)@.fields,
            final(self)@ == (NewPersistentIndexView { fields: final(r).deep_view(), ..old(self)@ }),
    {
        &mut self.fields
    }

    pub fn fields(&self) -> (r: &[String])
        ensures
            r.deep_view() == self@.fields,
    {
        self.fields.as_slice()
    }

    pub fn set_sparse(&mut self, sparse: bool)
        ensures
            final(self)@ == (NewPersistentIndexView { sparse: sparse, ..old(self)@ }),
    {
        self.sparse = sparse;
    }

    pub fn is_sparse(&self) -> (r: bool)
        ensures
            r == self@.sparse,
    {
        self.sparse
    }

    pub fn set_unique(&mut self, unique: bool)
        ensures
            final(self)@ == (NewPersistentIndexView { unique: unique, ..old(self)@ }),
    {
        self.unique = unique;
    }

    pub fn is_unique(&self) -> (r: bool)
        ensures
            r == self@.unique,
    {
        self.unique
    }
}

/// A geo index to be created.
#[derive(Clone, Debug, PartialEq, Eq)]
pub struct NewGeoIndex {
    kind: IndexType,
    fields: Vec<String>,
    geo_json: bool,
}

/// The content of a `NewGeoIndex`.
pub struct NewGeoIndexView {
    pub kind: IndexType,
    pub fields: Seq<Seq<char>>,
    pub geo_json: bool,
}

impl View for NewGeoIndex {
    type V = NewGeoIndexView;

    closed spec fn view(&self) -> NewGeoIndexView {
        NewGeoIndexView {
            kind: self.kind,
            fields: self.fields.deep_view(),
            geo_json: self.geo_json,
        }
    }
}

impl NewGeoIndex {
    pub fn new(fields: Vec<String>, geo_json: bool) -> (r: Self)
        ensures
            r@ == (NewGeoIndexView { kind: IndexType::Geo, fields: fields.deep_view(), geo_json }),
    {
        NewGeoIndex { kind: IndexType::Geo, fields, geo_json }
    }

    /// A geo index over one field that holds a location.
    pub fn with_location_field<L: IntoText>(location_field: L, geo_json: bool) -> (r: Self)
        ensures
            r@ == (NewGeoIndexView { kind: IndexType::Geo, fields: seq![location_field.text_view()], geo_json }),
    {
        let mut fields: Vec<String> = Vec::new();
        fields.push(location_field.into_text());
        assert(fields.deep_view() =~= seq![location_field.text_view()]);
        NewGeoIndex::new(fields, geo_json)
    }

    /// A geo index over a latitude and a longitude field.
    pub fn with_lat_lng_fields<LAT: IntoText, LNG: IntoText>(lat_field: LAT, lng_field: LNG) -> (r: Self)
        ensures
            r@ == (NewGeoIndexView { kind: IndexType::Geo, fields: seq![lat_field.text_view(), lng_field.text_view()], geo_json: false }),
    {
        let mut fields: Vec<String> = Vec::new();
        fields.push(lat_field.into_text());
        fields.push(lng_field.into_text());
        assert(fields.deep_view() =~= seq![lat_field.text_view(), lng_field.text_view()]);
        NewGeoIndex::new(fields, false)
    }

    pub fn fields_mut(&mut self) -> (r: &mut Vec<String>)
        ensures
            r.deep_view() == old(self)@.fields,
            final(self)@ == (NewGeoIndexView { fields: final(r).deep_view(), ..old(self)@ }),
    {
        &mut self.fields
    }

    pub fn fields(&self) -> (r: &[String])
        ensures
            r.deep_view() == self@.fields,
    {
        self.fields.as_slice()
    }

    pub fn set_geo_json(&mut self, geo_json: bool)
        ensures
            final(self)@ == (NewGeoIndexView { geo_json: geo_json, ..old(self)@ }),
    {
        self.geo_json = geo_json;
    }

    pub fn is_geo_json(&self) -> (r: bool)
        ensures
            r == self@.geo_json,
    {
        self.geo_json
    }
}

/// A fulltext index to be created.
#[derive(Clone, Debug, PartialEq, Eq)]
pub struct NewFulltextIndex {
    kind: IndexType,
    fields: Vec<String>,
    min_length: u32,
}

/// The content of a `NewFulltextIndex`.
pub struct NewFulltextIndexView {
    pub kind: IndexType,
    pub fields: Seq<Seq<char>>,
    pub min_length: u32,
}

impl View for NewFulltextIndex {
    type V = NewFulltextIndexView;

    closed spec fn view(&self) -> NewFulltextIndexView {
        NewFulltextIndexView {
            kind: self.kind,
            fields: self.fields.deep_view(),
            min_length: self.min_length,
        }
    }
}

impl NewFulltextIndex {
    /// A fulltext index over one field.
    pub fn new<F: IntoText>(field: F, min_length: u32) -> (r: Self)
        ensures
            r@ == (NewFulltextIndexView { kind: IndexType::Fulltext, fields: seq![field.text_view()], min_length }),
    {
        let mut fields: Vec<String> = Vec::new();
        fields.push(field.into_text());
        assert(fields.deep_view() =~= seq![field.text_view()]);
        NewFulltextIndex { kind: IndexType::Fulltext, fields, min_length }
    }

    pub fn fields_mut(&mut self) -> (r: &mut Vec<String>)
        ensures
            r.deep_view() == old(self)@.fields,
            final(self)@ == (NewFulltextIndexView { fields: final(r).deep_view(), ..old(self)@ }),
    {
        &mut self.fields
    }

    pub fn fields(&self) -> (r: &[String])
        ensures
            r.deep_view() == self@.fields,
    {
        self.fields.as_slice()
    }

    pub fn set_min_length(&mut self, min_length: u32)
        ensures
            final(self)@ == (NewFulltextIndexView { min_length: min_length, ..old(self)@ }),
    {
        self.min_length = min_length;
    }

    pub fn min_length(&self) -> (r: u32)
        ensures
            r == self@.min_length,
    {
        self.min_length
    }
}
impl From<NewHashIndex> for NewIndex {
    fn from(index: NewHashIndex) -> (r: Self) {
        NewIndex::Hash(index)
    }
}

impl FromSpecImpl<NewHashIndex> for NewIndex {
    open spec fn obeys_from_spec() -> bool {
        true
    }

    open spec fn from_spec(v: NewHashIndex) -> Self {
        NewIndex::Hash(v)
    }
}

impl From<NewSkipListIndex> for NewIndex {
    fn from(index: NewSkipListIndex) -> (r: Self) {
        NewIndex::SkipList(index)
    }
}

impl FromSpecImpl<NewSkipListIndex> for NewIndex {
    open spec fn obeys_from_spec() -> bool {
        true
    }

    open spec fn from_spec(v: NewSkipListIndex) -> Self {
        NewIndex::SkipList(v)
    }
}

impl From<NewPersistentIndex> for NewIndex {
    fn from(index: NewPersistentIndex) -> (r: Self) {
        NewIndex::Persistent(index)
    }
}

impl FromSpecImpl<NewPersistentIndex> for NewIndex {
    open spec fn obeys_from_spec() -> bool {
        true
    }

    open spec fn from_spec(v: NewPersistentIndex) -> Self {
        NewIndex::Persistent(v)
    }
}

impl From<NewGeoIndex> for NewIndex {
    fn from(index: NewGeoIndex) -> (r: Self) {
        NewIndex::Geo(index)
    }
}

impl FromSpecImpl<NewGeoIndex> for NewIndex {
    open spec fn obeys_from_spec() -> bool {
        true
    }

    open spec fn from_spec(v: NewGeoIndex) -> Self {
        NewIndex::Geo(v)
    }
}

impl From<NewFulltextIndex> for NewIndex {
    fn from(index: NewFulltextIndex) -> (r: Self) {
        NewIndex::Fulltext(index)
    }
}

impl FromSpecImpl<NewFulltextIndex> for NewIndex {
    open spec fn obeys_from_spec() -> bool {
        true
    }

    open spec fn from_spec(v: NewFulltextIndex) -> Self {
        NewIndex::Fulltext(v)
    }
}
/// The indexes of a collection, listed and by identifier.
#[derive(Clone, Debug, PartialEq, Eq)]
pub struct IndexList {
    indexes: Vec<Index>,
    identifiers: Vec<(String, Index)>,
}

/// The content of a `IndexList`.
pub struct IndexListView {
    pub indexes: Seq<IndexView>,
    pub identifiers: Vec<(String, Index)>,
}

impl View for IndexList {
    type V = IndexListView;

    closed spec fn view(&self) -> IndexListView {
        IndexListView {
            indexes: self.indexes@.map_values(|x: Index| x@),
            identifiers: self.identifiers,
        }
    }
}

impl IndexList {
    pub fn new(indexes: Vec<Index>, identifiers: Vec<(String, Index)>) -> (r: Self)
        ensures
            r@ == (IndexListView { indexes: indexes@.map_values(|x: Index| x@), identifiers }),
    {
        IndexList { indexes, identifiers }
    }

    pub fn indexes(&self) -> (r: &[Index])
        ensures
            r@.map_values(|x: Index| x@) == self@.indexes,
    {
        self.indexes.as_slice()
    }

    /// Each index with the text of its identifier.
    pub fn identifiers(&self) -> (r: &[(String, Index)])
        ensures
            r@ == self@.identifiers@,
    {
        self.identifiers.as_slice()
    }
}

} // verus!
