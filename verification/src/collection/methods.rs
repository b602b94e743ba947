//! The request methods on collections.

use vstd::prelude::*;
use crate::api::arg::IntoText;
use crate::api::method::{Method, Operation, Parameters, Prepare, RpcReturnType, with_param_if};
use crate::api::text::push_segment;
use crate::arango::protocol::{FIELD_CODE, FIELD_ID, FIELD_RESULT, PARAM_EXCLUDE_SYSTEM,
    PARAM_WAIT_FOR_SYNC_REPLICATION, PATH_API_COLLECTION, PATH_PROPERTIES, PATH_RENAME, VALUE_TRUE,
    VALUE_ZERO};
use crate::collection::types::{BasicCollectionProperties, Collection, CollectionProperties, CollectionType,
    CollectionPropertiesUpdate, CollectionPropertiesUpdateView, NewCollection, NewCollectionView, RenameTo,
    RenameToView};

verus! {

/// Lists the existing collections.
#[derive(Clone, Debug, PartialEq)]
pub struct ListCollections {
    exclude_system: bool,
}

/// The content of a `ListCollections`.
pub struct ListCollectionsView {
    pub exclude_system: bool,
}

impl View for ListCollections {
    type V = ListCollectionsView;

    closed spec fn view(&self) -> ListCollectionsView {
        ListCollectionsView {
            exclude_system: self.exclude_system,
        }
    }
}

impl ListCollections {
    /// Lists the collections, leaving out the system collections.
    pub fn new() -> (r: Self)
        ensures
            r@.exclude_system,
    {
        ListCollections { exclude_system: true }
    }

    /// Lists the collections, the system collections among them.
    pub fn including_system() -> (r: Self)
        ensures
            !r@.exclude_system,
    {
        ListCollections { exclude_system: false }
    }

    pub fn set_exclude_system(&mut self, exclude: bool)
        ensures
            final(self)@ == (ListCollectionsView { exclude_system: exclude, ..old(self)@ }),
    {
        self.exclude_system = exclude;
    }

    pub fn is_exclude_system(&self) -> (r: bool)
        ensures
            r == self@.exclude_system,
    {
        self.exclude_system
    }
}

impl Method for ListCollections {
    type Result = Vec<Collection>;

    fn return_type(&self) -> (r: RpcReturnType)
        ensures
            r == (RpcReturnType { result_field: Some(FIELD_RESULT), code_field: Some(FIELD_CODE) }),
    {
        RpcReturnType { result_field: Some(FIELD_RESULT), code_field: Some(FIELD_CODE) }
    }
}

impl Prepare for ListCollections {
    type Content = ();

    fn operation(&self) -> (r: Operation)
        ensures
            r == Operation::Read,
    {
        Operation::Read
    }

    fn path(&self) -> (r: String)
        ensures
            r@ == PATH_API_COLLECTION@,
    {
        let mut r = PATH_API_COLLECTION.to_owned();
        r
    }

    fn parameters(&self) -> (r: Parameters)
        ensures
            r@ == with_param_if(Seq::<(Seq<char>, Seq<char>)>::empty(), self@.exclude_system, PARAM_EXCLUDE_SYSTEM@, VALUE_TRUE@),
    {
        let mut params = Parameters::new();
        if self.exclude_system {
            params.insert(PARAM_EXCLUDE_SYSTEM, VALUE_TRUE);
        }
        params
    }

    fn header(&self) -> (r: Parameters)
        ensures
            r@ == Seq::<(Seq<char>, Seq<char>)>::empty(),
    {
        Parameters::empty()
    }

    fn content(&self) -> (r: Option<&Self::Content>)
        ensures
            r is None,
    {
        None
    }
}

/// Creates a collection.
#[derive(Clone, Debug, PartialEq)]
pub struct CreateCollection {
    collection: NewCollection,
    wait_for_sync_replication: bool,
}

/// The content of a `CreateCollection`.
pub struct CreateCollectionView {
    pub collection: NewCollectionView,
    pub wait_for_sync_replication: bool,
}

impl View for CreateCollection {
    type V = CreateCollectionView;

    closed spec fn view(&self) -> CreateCollectionView {
        CreateCollectionView {
            collection: self.collection@,
            wait_for_sync_replication: self.wait_for_sync_replication,
        }
    }
}

impl CreateCollection {
    /// Creates the collection described by `collection`.
    pub fn new(collection: NewCollection) -> (r: Self)
        ensures
            r@ == (CreateCollectionView { collection: collection@, wait_for_sync_replication: true }),
    {
        CreateCollection { collection, wait_for_sync_replication: true }
    }

    /// Creates a collection of the server's default type.
    pub fn with_name<N: IntoText>(name: N) -> (r: Self)
        ensures
            r@.collection == NewCollection::initial(name.text_view(), None, None),
            r@.wait_for_sync_replication,
    {
        CreateCollection { collection: NewCollection::with_name(name), wait_for_sync_replication: true }
    }

    /// Creates a document collection.
    pub fn documents_with_name<N: IntoText>(name: N) -> (r: Self)
        ensures
            r@.collection == NewCollection::initial(name.text_view(), Some(CollectionType::Documents), None),
            r@.wait_for_sync_replication,
    {
        CreateCollection { collection: NewCollection::documents_with_name(name), wait_for_sync_replication: true }
    }

    /// Creates an edge collection.
    pub fn edges_with_name<N: IntoText>(name: N) -> (r: Self)
        ensures
            r@.collection == NewCollection::initial(name.text_view(), Some(CollectionType::Edges), None),
            r@.wait_for_sync_replication,
    {
        CreateCollection { collection: NewCollection::edges_with_name(name), wait_for_sync_replication: true }
    }

    pub fn set_wait_for_sync_replication(&mut self, wait_for_sync_replication: bool)
        ensures
            final(self)@ == (CreateCollectionView { wait_for_sync_replication: wait_for_sync_replication, ..old(self)@ }),
    {
        self.wait_for_sync_replication = wait_for_sync_replication;
    }

    pub fn collection(&self) -> (r: &NewCollection)
        ensures
            r@ == self@.collection,
    {
        &self.collection
    }

    pub fn is_wait_for_sync_replication(&self) -> (r: bool)
        ensures
            r == self@.wait_for_sync_replication,
    {
        self.wait_for_sync_replication
    }
}

impl Method for CreateCollection {
    type Result = BasicCollectionProperties;

    fn return_type(&self) -> (r: RpcReturnType)
        ensures
            r == (RpcReturnType { result_field: None, code_field: Some(FIELD_CODE) }),
    {
        RpcReturnType { result_field: None, code_field: Some(FIELD_CODE) }
    }
}

impl Prepare for CreateCollection {
    type Content = NewCollection;

    fn operation(&self) -> (r: Operation)
        ensures
            r == Operation::Create,
    {
        Operation::Create
    }

    fn path(&self) -> (r: String)
        ensures
            r@ == PATH_API_COLLECTION@,
    {
        let mut r = PATH_API_COLLECTION.to_owned();
        r
    }

    fn parameters(&self) -> (r: Parameters)
        ensures
            r@ == with_param_if(Seq::<(Seq<char>, Seq<char>)>::empty(), !self@.wait_for_sync_replication, PARAM_WAIT_FOR_SYNC_REPLICATION@, VALUE_ZERO@),
    {
        let mut params = Parameters::new();
        if !self.wait_for_sync_replication {
            params.insert(PARAM_WAIT_FOR_SYNC_REPLICATION, VALUE_ZERO);
        }
        params
    }

    fn header(&self) -> (r: Parameters)
        ensures
            r@ == Seq::<(Seq<char>, Seq<char>)>::empty(),
    {
        Parameters::empty()
    }

    fn content(&self) -> (r: Option<&Self::Content>)
        ensures
            r matches Some(c) && c@ == self@.collection,
    {
        Some(&self.collection)
    }
}

/// Drops a collection.
#[derive(Clone, Debug, PartialEq)]
pub struct DropCollection {
    name: String,
    system: bool,
}

/// The content of a `DropCollection`.
pub struct DropCollectionView {
    pub name: Seq<char>,
    pub system: bool,
}

impl View for DropCollection {
    type V = DropCollectionView;

    closed spec fn view(&self) -> DropCollectionView {
        DropCollectionView {
            name: self.name@,
            system: self.system,
        }
    }
}

impl DropCollection {
    /// Drops the user collection `name`.
    pub fn with_name<N: IntoText>(name: N) -> (r: Self)
        ensures
            r@ == (DropCollectionView { name: name.text_view(), system: false }),
    {
        DropCollection { name: name.into_text(), system: false }
    }

    /// Drops the system collection `name`.
    pub fn system_with_name<N: IntoText>(name: N) -> (r: Self)
        ensures
            r@ == (DropCollectionView { name: name.text_view(), system: true }),
    {
        DropCollection { name: name.into_text(), system: true }
    }

    pub fn set_system(&mut self, system: bool)
        ensures
            final(self)@ == (DropCollectionView { system: system, ..old(self)@ }),
    {
        self.system = system;
    }

    pub fn name(&self) -> (r: &str)
        ensures
            r@ == self@.name,
    {
        self.name.as_str()
    }

    pub fn is_system(&self) -> (r: bool)
        ensures
            r == self@.system,
    {
        self.system
    }
}

impl Method for DropCollection {
    type Result = String;

    fn return_type(&self) -> (r: RpcReturnType)
        ensures
            r == (RpcReturnType { result_field: Some(FIELD_ID), code_field: Some(FIELD_CODE) }),
    {
        RpcReturnType { result_field: Some(FIELD_ID), code_field: Some(FIELD_CODE) }
    }
}

impl Prepare for DropCollection {
    type Content = ();

    fn operation(&self) -> (r: Operation)
        ensures
            r == Operation::Delete,
    {
        Operation::Delete
    }

    fn path(&self) -> (r: String)
        ensures
            r@ == PATH_API_COLLECTION@ + "/"@ + self@.name,
    {
        let mut r = PATH_API_COLLECTION.to_owned();
        push_segment(&mut r, self.name.as_str());
        r
    }

    fn parameters(&self) -> (r: Parameters)
        ensures
            r@ == Seq::<(Seq<char>, Seq<char>)>::empty(),
    {
        Parameters::empty()
    }

    fn header(&self) -> (r: Parameters)
        ensures
            r@ == Seq::<(Seq<char>, Seq<char>)>::empty(),
    {
        Parameters::empty()
    }

    fn content(&self) -> (r: Option<&Self::Content>)
        ensures
            r is None,
    {
        None
    }
}

/// Reads the description of a collection.
#[derive(Clone, Debug, PartialEq)]
pub struct GetCollection {
    name: String,
}

/// The content of a `GetCollection`.
pub struct GetCollectionView {
    pub name: Seq<char>,
}

impl View for GetCollection {
    type V = GetCollectionView;

    closed spec fn view(&self) -> GetCollectionView {
        GetCollectionView {
            name: self.name@,
        }
    }
}

impl GetCollection {
    pub fn new(name: String) -> (r: Self)
        ensures
            r@.name == name@,
    {
        GetCollection { name }
    }

    pub fn with_name<N: IntoText>(name: N) -> (r: Self)
        ensures
            r@.name == name.text_view(),
    {
        GetCollection { name: name.into_text() }
    }

    pub fn name(&self) -> (r: &str)
        ensures
            r@ == self@.name,
    {
        self.name.as_str()
    }
}

impl Method for GetCollection {
    type Result = Collection;

    fn return_type(&self) -> (r: RpcReturnType)
        ensures
            r == (RpcReturnType { result_field: None, code_field: Some(FIELD_CODE) }),
    {
        RpcReturnType { result_field: None, code_field: Some(FIELD_CODE) }
    }
}

impl Prepare for GetCollection {
    type Content = ();

    fn operation(&self) -> (r: Operation)
        ensures
            r == Operation::Read,
    {
        Operation::Read
    }

    fn path(&self) -> (r: String)
        ensures
            r@ == PATH_API_COLLECTION@ + "/"@ + self@.name,
    {
        let mut r = PATH_API_COLLECTION.to_owned();
        push_segment(&mut r, self.name.as_str());
        r
    }

    fn parameters(&self) -> (r: Parameters)
        ensures
            r@ == Seq::<(Seq<char>, Seq<char>)>::empty(),
    {
        Parameters::empty()
    }

    fn header(&self) -> (r: Parameters)
        ensures
            r@ == Seq::<(Seq<char>, Seq<char>)>::empty(),
    {
        Parameters::empty()
    }

    fn content(&self) -> (r: Option<&Self::Content>)
        ensures
            r is None,
    {
        None
    }
}

/// Reads the properties of a collection.
#[derive(Clone, Debug, PartialEq)]
pub struct GetCollectionProperties {
    name: String,
}

/// The content of a `GetCollectionProperties`.
pub struct GetCollectionPropertiesView {
    pub name: Seq<char>,
}

impl View for GetCollectionProperties {
    type V = GetCollectionPropertiesView;

    closed spec fn view(&self) -> GetCollectionPropertiesView {
        GetCollectionPropertiesView {
            name: self.name@,
        }
    }
}

impl GetCollectionProperties {
    pub fn new(name: String) -> (r: Self)
        ensures
            r@.name == name@,
    {
        GetCollectionProperties { name }
    }

    pub fn with_name<N: IntoText>(name: N) -> (r: Self)
        ensures
            r@.name == name.text_view(),
    {
        GetCollectionProperties { name: name.into_text() }
    }

    pub fn name(&self) -> (r: &str)
        ensures
            r@ == self@.name,
    {
        self.name.as_str()
    }
}

impl Method for GetCollectionProperties {
    type Result = CollectionProperties;

    fn return_type(&self) -> (r: RpcReturnType)
        ensures
            r == (RpcReturnType { result_field: None, code_field: Some(FIELD_CODE) }),
    {
        RpcReturnType { result_field: None, code_field: Some(FIELD_CODE) }
    }
}

impl Prepare for GetCollectionProperties {
    type Content = ();

    fn operation(&self) -> (r: Operation)
        ensures
            r == Operation::Read,
    {
        Operation::Read
    }

    fn path(&self) -> (r: String)
        ensures
            r@ == PATH_API_COLLECTION@ + "/"@ + self@.name + "/"@ + PATH_PROPERTIES@,
    {
        let mut r = PATH_API_COLLECTION.to_owned();
        push_segment(&mut r, self.name.as_str());
        push_segment(&mut r, PATH_PROPERTIES);
        r
    }

    fn parameters(&self) -> (r: Parameters)
        ensures
            r@ == Seq::<(Seq<char>, Seq<char>)>::empty(),
    {
        Parameters::empty()
    }

    fn header(&self) -> (r: Parameters)
        ensures
            r@ == Seq::<(Seq<char>, Seq<char>)>::empty(),
    {
        Parameters::empty()
    }

    fn content(&self) -> (r: Option<&Self::Content>)
        ensures
            r is None,
    {
        None
    }
}

/// Changes the properties of a collection.
#[derive(Clone, Debug, PartialEq)]
pub struct ChangeCollectionProperties {
    name: String,
    updates: CollectionPropertiesUpdate,
}

/// The content of a `ChangeCollectionProperties`.
pub struct ChangeCollectionPropertiesView {
    pub name: Seq<char>,
    pub updates: CollectionPropertiesUpdateView,
}

impl View for ChangeCollectionProperties {
    type V = ChangeCollectionPropertiesView;

    closed spec fn view(&self) -> ChangeCollectionPropertiesView {
        ChangeCollectionPropertiesView {
            name: self.name@,
            updates: self.updates@,
        }
    }
}

impl ChangeCollectionProperties {
    pub fn new(name: String, updates: CollectionPropertiesUpdate) -> (r: Self)
        ensures
            r@ == (ChangeCollectionPropertiesView { name: name@, updates: updates@ }),
    {
        ChangeCollectionProperties { name, updates }
    }

    pub fn name(&self) -> (r: &str)
        ensures
            r@ == self@.name,
    {
        self.name.as_str()
    }

    pub fn updates(&self) -> (r: &CollectionPropertiesUpdate)
        ensures
            r@ == self@.updates,
    {
        &self.updates
    }
}

impl Method for ChangeCollectionProperties {
    type Result = CollectionProperties;

    fn return_type(&self) -> (r: RpcReturnType)
        ensures
            r == (RpcReturnType { result_field: None, code_field: Some(FIELD_CODE) }),
    {
        RpcReturnType { result_field: None, code_field: Some(FIELD_CODE) }
    }
}

impl Prepare for ChangeCollectionProperties {
    type Content = CollectionPropertiesUpdate;

    fn operation(&self) -> (r: Operation)
        ensures
            r == Operation::Replace,
    {
        Operation::Replace
    }

    fn path(&self) -> (r: String)
        ensures
            r@ == PATH_API_COLLECTION@ + "/"@ + self@.name + "/"@ + PATH_PROPERTIES@,
    {
        let mut r = PATH_API_COLLECTION.to_owned();
        push_segment(&mut r, self.name.as_str());
        push_segment(&mut r, PATH_PROPERTIES);
        r
    }

    fn parameters(&self) -> (r: Parameters)
        ensures
            r@ == Seq::<(Seq<char>, Seq<char>)>::empty(),
    {
        Parameters::empty()
    }

    fn header(&self) -> (r: Parameters)
        ensures
            r@ == Seq::<(Seq<char>, Seq<char>)>::empty(),
    {
        Parameters::empty()
    }

    fn content(&self) -> (r: Option<&Self::Content>)
        ensures
            r matches Some(c) && c@ == self@.updates,
    {
        Some(&self.updates)
    }
}

/// Renames a collection.
#[derive(Clone, Debug, PartialEq)]
pub struct RenameCollection {
    name: String,
    rename_to: RenameTo,
}

/// The content of a `RenameCollection`.
pub struct RenameCollectionView {
    pub name: Seq<char>,
    pub rename_to: RenameToView,
}

impl View for RenameCollection {
    type V = RenameCollectionView;

    closed spec fn view(&self) -> RenameCollectionView {
        RenameCollectionView {
            name: self.name@,
            rename_to: self.rename_to@,
        }
    }
}

impl RenameCollection {
    pub fn new(name: String, rename_to: RenameTo) -> (r: Self)
        ensures
            r@ == (RenameCollectionView { name: name@, rename_to: rename_to@ }),
    {
        RenameCollection { name, rename_to }
    }

    /// Starts the renaming of the collection `name`; the new name is given to
    /// the builder.
    pub fn with_name<N: IntoText>(name: N) -> (r: RenameCollectionBuilder)
        ensures
            r@.collection_name == name.text_view(),
    {
        RenameCollectionBuilder { collection_name: name.into_text() }
    }

    pub fn name(&self) -> (r: &str)
        ensures
            r@ == self@.name,
    {
        self.name.as_str()
    }

    pub fn rename_to(&self) -> (r: &RenameTo)
        ensures
            r@ == self@.rename_to,
    {
        &self.rename_to
    }
}

impl Method for RenameCollection {
    type Result = Collection;

    fn return_type(&self) -> (r: RpcReturnType)
        ensures
            r == (RpcReturnType { result_field: None, code_field: Some(FIELD_CODE) }),
    {
        RpcReturnType { result_field: None, code_field: Some(FIELD_CODE) }
    }
}

impl Prepare for RenameCollection {
    type Content = RenameTo;

    fn operation(&self) -> (r: Operation)
        ensures
            r == Operation::Replace,
    {
        Operation::Replace
    }

    fn path(&self) -> (r: String)
        ensures
            r@ == PATH_API_COLLECTION@ + "/"@ + self@.name + "/"@ + PATH_RENAME@,
    {
        let mut r = PATH_API_COLLECTION.to_owned();
        push_segment(&mut r, self.name.as_str());
        push_segment(&mut r, PATH_RENAME);
        r
    }

    fn parameters(&self) -> (r: Parameters)
        ensures
            r@ == Seq::<(Seq<char>, Seq<char>)>::empty(),
    {
        Parameters::empty()
    }

    fn header(&self) -> (r: Parameters)
        ensures
            r@ == Seq::<(Seq<char>, Seq<char>)>::empty(),
    {
        Parameters::empty()
    }

    fn content(&self) -> (r: Option<&Self::Content>)
        ensures
            r matches Some(c) && c@ == self@.rename_to,
    {
        Some(&self.rename_to)
    }
}

/// The collection to be renamed, waiting for its new name.
#[derive(Debug)]
pub struct RenameCollectionBuilder {
    collection_name: String,
}

/// The content of a `RenameCollectionBuilder`.
pub struct RenameCollectionBuilderView {
    pub collection_name: Seq<char>,
}

impl View for RenameCollectionBuilder {
    type V = RenameCollectionBuilderView;

    closed spec fn view(&self) -> RenameCollectionBuilderView {
        RenameCollectionBuilderView {
            collection_name: self.collection_name@,
        }
    }
}

impl RenameCollectionBuilder {
    /// Renames the collection of this builder to `name`.
    pub fn to_name<N: IntoText>(self, name: N) -> (r: RenameCollection)
        ensures
            r@.name == self@.collection_name,
            r@.rename_to.name == name.text_view(),
    {
        RenameCollection { name: self.collection_name, rename_to: RenameTo::new(name) }
    }
}

} // verus!
