//! The request methods on indexes.

use vstd::prelude::*;
use vstd::std_specs::convert::IntoSpec;
use crate::api::arg::IntoText;
use crate::api::method::{Method, Operation, Parameters, Prepare, RpcReturnType};
use crate::api::text::push_segment;
use crate::arango::protocol::{FIELD_CODE, FIELD_ID, PARAM_COLLECTION, PATH_API_INDEX, handle_text};
use crate::index::types::{Index, IndexId, IndexIdOption, IndexIdView, IndexList, NewIndex};

verus! {

/// Lists the indexes of a collection.
#[derive(Clone, Debug, PartialEq)]
pub struct GetIndexList {
    collection_name: String,
}

/// The content of a `GetIndexList`.
pub struct GetIndexListView {
    pub collection_name: Seq<char>,
}

impl View for GetIndexList {
    type V = GetIndexListView;

    closed spec fn view(&self) -> GetIndexListView {
        GetIndexListView {
            collection_name: self.collection_name@,
        }
    }
}

impl GetIndexList {
    pub fn new<C: IntoText>(collection_name: C) -> (r: Self)
        ensures
            r@.collection_name == collection_name.text_view(),
    {
        GetIndexList { collection_name: collection_name.into_text() }
    }

    pub fn of_collection<C: IntoText>(collection_name: C) -> (r: Self)
        ensures
            r@.collection_name == collection_name.text_view(),
    {
        GetIndexList { collection_name: collection_name.into_text() }
    }

    pub fn collection_name(&self) -> (r: &str)
        ensures
            r@ == self@.collection_name,
    {
        self.collection_name.as_str()
    }
}

impl Method for GetIndexList {
    type Result = IndexList;

    fn return_type(&self) -> (r: RpcReturnType)
        ensures
            r == (RpcReturnType { result_field: None, code_field: Some(FIELD_CODE) }),
    {
        RpcReturnType { result_field: None, code_field: Some(FIELD_CODE) }
    }
}

impl Prepare for GetIndexList {
    type Content = ();

    fn operation(&self) -> (r: Operation)
        ensures
            r == Operation::Read,
    {
        Operation::Read
    }

    fn path(&self) -> (r: String)
        ensures
            r@ == PATH_API_INDEX@,
    {
        let mut r = PATH_API_INDEX.to_owned();
        r
    }

    fn parameters(&self) -> (r: Parameters)
        ensures
            r@ == Seq::<(Seq<char>, Seq<char>)>::empty().push((PARAM_COLLECTION@, self@.collection_name)),
    {
        let mut params = Parameters::new();
        params.insert(PARAM_COLLECTION, self.collection_name.clone());
        params
    }

    fn header(&self) -> (r: Parameters)
        ensures
            r@ == Seq::<(Seq<char>, Seq<char>)>::empty(),
    {
        Parameters::empty()
    }

    fn content(&self) -> (r: Option<&Self::Content>)
        ensures
            r is None,
    {
        None
    }
}

/// Reads the description of an index.
#[derive(Clone, Debug, PartialEq)]
pub struct GetIndex {
    index_id: IndexId,
}

/// The content of a `GetIndex`.
pub struct GetIndexView {
    pub index_id: IndexIdView,
}

impl View for GetIndex {
    type V = GetIndexView;

    closed spec fn view(&self) -> GetIndexView {
        GetIndexView {
            index_id: self.index_id@,
        }
    }
}

impl GetIndex {
    pub fn new(index_id: IndexId) -> (r: Self)
        ensures
            r@.index_id == index_id@,
    {
        GetIndex { index_id }
    }

    pub fn index_id(&self) -> (r: &IndexId)
        ensures
            r@ == self@.index_id,
    {
        &self.index_id
    }
}

impl Method for GetIndex {
    type Result = Index;

    fn return_type(&self) -> (r: RpcReturnType)
        ensures
            r == (RpcReturnType { result_field: None, code_field: Some(FIELD_CODE) }),
    {
        RpcReturnType { result_field: None, code_field: Some(FIELD_CODE) }
    }
}

impl Prepare for GetIndex {
    type Content = ();

    fn operation(&self) -> (r: Operation)
        ensures
            r == Operation::Read,
    {
        Operation::Read
    }

    fn path(&self) -> (r: String)
        ensures
            r@ == PATH_API_INDEX@ + "/"@ + handle_text(self@.index_id.collection_name, self@.index_id.index_key),
    {
        let mut r = PATH_API_INDEX.to_owned();
        push_segment(&mut r, self.index_id.to_string().as_str());
        r
    }

    fn parameters(&self) -> (r: Parameters)
        ensures
            r@ == Seq::<(Seq<char>, Seq<char>)>::empty(),
    {
        Parameters::empty()
    }

    fn header(&self) -> (r: Parameters)
        ensures
            r@ == Seq::<(Seq<char>, Seq<char>)>::empty(),
    {
        Parameters::empty()
    }

    fn content(&self) -> (r: Option<&Self::Content>)
        ensures
            r is None,
    {
        None
    }
}

/// Drops an index.
#[derive(Clone, Debug, PartialEq)]
pub struct DeleteIndex {
    index_id: IndexId,
}

/// The content of a `DeleteIndex`.
pub struct DeleteIndexView {
    pub index_id: IndexIdView,
}

impl View for DeleteIndex {
    type V = DeleteIndexView;

    closed spec fn view(&self) -> DeleteIndexView {
        DeleteIndexView {
            index_id: self.index_id@,
        }
    }
}

impl DeleteIndex {
    pub fn new(index_id: IndexId) -> (r: Self)
        ensures
            r@.index_id == index_id@,
    {
        DeleteIndex { index_id }
    }

    pub fn index_id(&self) -> (r: &IndexId)
        ensures
            r@ == self@.index_id,
    {
        &self.index_id
    }
}

impl Method for DeleteIndex {
    type Result = IndexIdOption;

    fn return_type(&self) -> (r: RpcReturnType)
        ensures
            r == (RpcReturnType { result_field: Some(FIELD_ID), code_field: Some(FIELD_CODE) }),
    {
        RpcReturnType { result_field: Some(FIELD_ID), code_field: Some(FIELD_CODE) }
    }
}

impl Prepare for DeleteIndex {
    type Content = ();

    fn operation(&self) -> (r: Operation)
        ensures
            r == Operation::Delete,
    {
        Operation::Delete
    }

    fn path(&self) -> (r: String)
        ensures
            r@ == PATH_API_INDEX@ + "/"@ + handle_text(self@.index_id.collection_name, self@.index_id.index_key),
    {
        let mut r = PATH_API_INDEX.to_owned();
        push_segment(&mut r, self.index_id.to_string().as_str());
        r
    }

    fn parameters(&self) -> (r: Parameters)
        ensures
            r@ == Seq::<(Seq<char>, Seq<char>)>::empty(),
    {
        Parameters::empty()
    }

    fn header(&self) -> (r: Parameters)
        ensures
            r@ == Seq::<(Seq<char>, Seq<char>)>::empty(),
    {
        Parameters::empty()
    }

    fn content(&self) -> (r: Option<&Self::Content>)
        ensures
            r is None,
    {
        None
    }
}

/// Creates an index on a collection.
#[derive(Clone, Debug, PartialEq)]
pub struct CreateIndex {
    collection_name: String,
    index: NewIndex,
}

/// The content of a `CreateIndex`.
pub struct CreateIndexView {
    pub collection_name: Seq<char>,
    pub index: NewIndex,
}

impl View for CreateIndex {
    type V = CreateIndexView;

    closed spec fn view(&self) -> CreateIndexView {
        CreateIndexView {
            collection_name: self.collection_name@,
            index: self.index,
        }
    }
}

impl CreateIndex {
    pub fn new<C: IntoText, I: Into<NewIndex>>(collection_name: C, index: I) -> (r: Self)
        ensures
            r@.collection_name == collection_name.text_view(),
            I::obeys_into_spec() ==> r@.index == index.into_spec(),
    {
        CreateIndex { collection_name: collection_name.into_text(), index: index.into() }
    }

    pub fn collection_name(&self) -> (r: &str)
        ensures
            r@ == self@.collection_name,
    {
        self.collection_name.as_str()
    }

    pub fn index(&self) -> (r: &NewIndex)
        ensures
            *r == self@.index,
    {
        &self.index
    }
}

impl Method for CreateIndex {
    type Result = Index;

    fn return_type(&self) -> (r: RpcReturnType)
        ensures
            r == (RpcReturnType { result_field: None, code_field: Some(FIELD_CODE) }),
    {
        RpcReturnType { result_field: None, code_field: Some(FIELD_CODE) }
    }
}

impl Prepare for CreateIndex {
    type Content = NewIndex;

    fn operation(&self) -> (r: Operation)
        ensures
            r == Operation::Create,
    {
        Operation::Create
    }

    fn path(&self) -> (r: String)
        ensures
            r@ == PATH_API_INDEX@,
    {
        let mut r = PATH_API_INDEX.to_owned();
        r
    }

    fn parameters(&self) -> (r: Parameters)
        ensures
            r@ == Seq::<(Seq<char>, Seq<char>)>::empty().push((PARAM_COLLECTION@, self@.collection_name)),
    {
        let mut params = Parameters::new();
        params.insert(PARAM_COLLECTION, self.collection_name.clone());
        params
    }

    fn header(&self) -> (r: Parameters)
        ensures
            r@ == Seq::<(Seq<char>, Seq<char>)>::empty(),
    {
        Parameters::empty()
    }

    fn content(&self) -> (r: Option<&Self::Content>)
        ensures
            r matches Some(c) && *c == self@.index,
    {
        Some(&self.index)
    }
}

} // verus!
