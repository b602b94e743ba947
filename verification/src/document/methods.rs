//! The request methods on documents.

use vstd::prelude::*;
use core::marker::PhantomData;
use crate::api::arg::{IntoText, IntoOption, bool_text};
use crate::api::method::{Method, Operation, Parameters, Prepare, RpcReturnType, with_param_opt};
use crate::api::text::push_segment;
use crate::api::types::Empty;
use crate::arango::protocol::{FIELD_CODE, HEADER_IF_MATCH, HEADER_IF_NON_MATCH, PARAM_RETURN_NEW, PARAM_SILENT,
    PARAM_WAIT_FOR_SYNC, PATH_API_DOCUMENT, handle_text};
use crate::document::types::{Document, DocumentHeader, DocumentId, DocumentIdView, NewDocument, NewDocumentView};

verus! {

/// Inserts a document into a collection; the server answers with the header of the new document.
#[derive(Clone, Debug, PartialEq)]
pub struct InsertDocument<T> {
    collection_name: String,
    document: NewDocument<T>,
    wait_for_sync: Option<bool>,
    silent: Option<bool>,
}

/// The content of a `InsertDocument`.
pub struct InsertDocumentView<T> {
    pub collection_name: Seq<char>,
    pub document: NewDocumentView<T>,
    pub wait_for_sync: Option<bool>,
    pub silent: Option<bool>,
}

impl<T> View for InsertDocument<T> {
    type V = InsertDocumentView<T>;

    closed spec fn view(&self) -> InsertDocumentView<T> {
        InsertDocumentView {
            collection_name: self.collection_name@,
            document: self.document@,
            wait_for_sync: self.wait_for_sync,
            silent: self.silent,
        }
    }
}

impl<T> InsertDocument<T> {
    /// Inserts `document` into the collection `collection_name`.
    pub fn new<N: IntoText>(collection_name: N, document: NewDocument<T>) -> (r: Self)
        ensures
            r@ == (InsertDocumentView { collection_name: collection_name.text_view(), document: document@, wait_for_sync: None,
                silent: None }),
    {
        InsertDocument { collection_name: collection_name.into_text(), document, wait_for_sync: None, silent: None }
    }

    pub fn collection_name(&self) -> (r: &str)
        ensures
            r@ == self@.collection_name,
    {
        self.collection_name.as_str()
    }

    pub fn document(&self) -> (r: &NewDocument<T>)
        ensures
            r@ == self@.document,
    {
        &self.document
    }

    /// Whether the server shall wait until the document is synced to disk;
    /// `None` leaves it to the collection's setting.
    pub fn with_force_wait_for_sync<A: IntoOption<bool>>(self, force_wait_for_sync: A) -> (r: Self)
        ensures
            r@ == (InsertDocumentView { wait_for_sync: force_wait_for_sync.option_view(), ..self@ }),
    {
        InsertDocument { wait_for_sync: force_wait_for_sync.into_option(), ..self }
    }

    pub fn is_force_wait_for_sync(&self) -> (r: Option<bool>)
        ensures
            r == self@.wait_for_sync,
    {
        self.wait_for_sync
    }

    /// Whether the server shall answer with an empty body.
    pub fn with_silent<A: IntoOption<bool>>(self, silent: A) -> (r: Self)
        ensures
            r@ == (InsertDocumentView { silent: silent.option_view(), ..self@ }),
    {
        InsertDocument { silent: silent.into_option(), ..self }
    }

    pub fn is_silent(&self) -> (r: Option<bool>)
        ensures
            r == self@.silent,
    {
        self.silent
    }
}

impl<T> Method for InsertDocument<T> {
    type Result = DocumentHeader;

    fn return_type(&self) -> (r: RpcReturnType)
        ensures
            r == (RpcReturnType { result_field: None, code_field: Some(FIELD_CODE) }),
    {
        RpcReturnType { result_field: None, code_field: Some(FIELD_CODE) }
    }
}

impl<T> Prepare for InsertDocument<T> {
    type Content = NewDocument<T>;

    fn operation(&self) -> (r: Operation)
        ensures
            r == Operation::Create,
    {
        Operation::Create
    }

    fn path(&self) -> (r: String)
        ensures
            r@ == PATH_API_DOCUMENT@ + "/"@ + self@.collection_name,
    {
        let mut r = PATH_API_DOCUMENT.to_owned();
        push_segment(&mut r, self.collection_name.as_str());
        r
    }

    fn parameters(&self) -> (r: Parameters)
        ensures
            r@ == with_param_opt(with_param_opt(Seq::<(Seq<char>, Seq<char>)>::empty().push((PARAM_RETURN_NEW@, bool_text(false))), PARAM_WAIT_FOR_SYNC@, match self@.wait_for_sync { Some(b) => Some(bool_text(b)), None => None }), PARAM_SILENT@, match self@.silent { Some(b) => Some(bool_text(b)), None => None }),
    {
        let mut params = Parameters::new();
        params.insert(PARAM_RETURN_NEW, false);
        if let Some(v) = self.wait_for_sync {
            params.insert(PARAM_WAIT_FOR_SYNC, v);
        }
        if let Some(v) = self.silent {
            params.insert(PARAM_SILENT, v);
        }
        params
    }

    fn header(&self) -> (r: Parameters)
        ensures
            r@ == Seq::<(Seq<char>, Seq<char>)>::empty(),
    {
        Parameters::empty()
    }

    fn content(&self) -> (r: Option<&Self::Content>)
        ensures
            r matches Some(c) && c@ == self@.document,
    {
        Some(&self.document)
    }
}

/// Inserts a document into a collection; the server answers with the new document.
#[derive(Clone, Debug, PartialEq)]
pub struct InsertDocumentReturnNew<T> {
    collection_name: String,
    document: NewDocument<T>,
    wait_for_sync: Option<bool>,
    silent: Option<bool>,
}

/// The content of a `InsertDocumentReturnNew`.
pub struct InsertDocumentReturnNewView<T> {
    pub collection_name: Seq<char>,
    pub document: NewDocumentView<T>,
    pub wait_for_sync: Option<bool>,
    pub silent: Option<bool>,
}

impl<T> View for InsertDocumentReturnNew<T> {
    type V = InsertDocumentReturnNewView<T>;

    closed spec fn view(&self) -> InsertDocumentReturnNewView<T> {
        InsertDocumentReturnNewView {
            collection_name: self.collection_name@,
            document: self.document@,
            wait_for_sync: self.wait_for_sync,
            silent: self.silent,
        }
    }
}

impl<T> InsertDocumentReturnNew<T> {
    /// Inserts `document` into the collection `collection_name`.
    pub fn new<N: IntoText>(collection_name: N, document: NewDocument<T>) -> (r: Self)
        ensures
            r@ == (InsertDocumentReturnNewView { collection_name: collection_name.text_view(), document: document@, wait_for_sync: None,
                silent: None }),
    {
        InsertDocumentReturnNew { collection_name: collection_name.into_text(), document, wait_for_sync: None, silent: None }
    }

    pub fn collection_name(&self) -> (r: &str)
        ensures
            r@ == self@.collection_name,
    {
        self.collection_name.as_str()
    }

    pub fn document(&self) -> (r: &NewDocument<T>)
        ensures
            r@ == self@.document,
    {
        &self.document
    }

    /// Whether the server shall wait until the document is synced to disk;
    /// `None` leaves it to the collection's setting.
    pub fn with_force_wait_for_sync<A: IntoOption<bool>>(self, force_wait_for_sync: A) -> (r: Self)
        ensures
            r@ == (InsertDocumentReturnNewView { wait_for_sync: force_wait_for_sync.option_view(), ..self@ }),
    {
        InsertDocumentReturnNew { wait_for_sync: force_wait_for_sync.into_option(), ..self }
    }

    pub fn is_force_wait_for_sync(&self) -> (r: Option<bool>)
        ensures
            r == self@.wait_for_sync,
    {
        self.wait_for_sync
    }

    /// Whether the server shall answer with an empty body.
    pub fn with_silent<A: IntoOption<bool>>(self, silent: A) -> (r: Self)
        ensures
            r@ == (InsertDocumentReturnNewView { silent: silent.option_view(), ..self@ }),
    {
        InsertDocumentReturnNew { silent: silent.into_option(), ..self }
    }

    pub fn is_silent(&self) -> (r: Option<bool>)
        ensures
            r == self@.silent,
    {
        self.silent
    }
}

impl<T> Method for InsertDocumentReturnNew<T> {
    type Result = Document<T>;

    fn return_type(&self) -> (r: RpcReturnType)
        ensures
            r == (RpcReturnType { result_field: None, code_field: Some(FIELD_CODE) }),
    {
        RpcReturnType { result_field: None, code_field: Some(FIELD_CODE) }
    }
}

impl<T> Prepare for InsertDocumentReturnNew<T> {
    type Content = NewDocument<T>;

    fn operation(&self) -> (r: Operation)
        ensures
            r == Operation::Create,
    {
        Operation::Create
    }

    fn path(&self) -> (r: String)
        ensures
            r@ == PATH_API_DOCUMENT@ + "/"@ + self@.collection_name,
    {
        let mut r = PATH_API_DOCUMENT.to_owned();
        push_segment(&mut r, self.collection_name.as_str());
        r
    }

    fn parameters(&self) -> (r: Parameters)
        ensures
            r@ == with_param_opt(with_param_opt(Seq::<(Seq<char>, Seq<char>)>::empty().push((PARAM_RETURN_NEW@, bool_text(true))), PARAM_WAIT_FOR_SYNC@, match self@.wait_for_sync { Some(b) => Some(bool_text(b)), None => None }), PARAM_SILENT@, match self@.silent { Some(b) => Some(bool_text(b)), None => None }),
    {
        let mut params = Parameters::new();
        params.insert(PARAM_RETURN_NEW, true);
        if let Some(v) = self.wait_for_sync {
            params.insert(PARAM_WAIT_FOR_SYNC, v);
        }
        if let Some(v) = self.silent {
            params.insert(PARAM_SILENT, v);
        }
        params
    }

    fn header(&self) -> (r: Parameters)
        ensures
            r@ == Seq::<(Seq<char>, Seq<char>)>::empty(),
    {
        Parameters::empty()
    }

    fn content(&self) -> (r: Option<&Self::Content>)
        ensures
            r matches Some(c) && c@ == self@.document,
    {
        Some(&self.document)
    }
}

/// Reads a document.
#[derive(Debug, PartialEq)]
pub struct GetDocument<T> {
    id: DocumentId,
    if_match: Option<String>,
    if_non_match: Option<String>,
    content: PhantomData<T>,
}

/// The content of a `GetDocument`.
pub struct GetDocumentView<T> {
    pub id: DocumentIdView,
    pub if_match: Option<Seq<char>>,
    pub if_non_match: Option<Seq<char>>,
    pub content: PhantomData<T>,
}

impl<T> View for GetDocument<T> {
    type V = GetDocumentView<T>;

    closed spec fn view(&self) -> GetDocumentView<T> {
        GetDocumentView {
            id: self.id@,
            if_match: self.if_match.deep_view(),
            if_non_match: self.if_non_match.deep_view(),
            content: self.content,
        }
    }
}

impl<T> GetDocument<T> {
    /// Reads the document `id`, whatever its revision.
    pub fn new(id: DocumentId) -> (r: Self)
        ensures
            r@.id == id@,
            r@.if_match is None,
            r@.if_non_match is None,
    {
        GetDocument { id, if_match: None, if_non_match: None, content: PhantomData }
    }

    /// Reads the document only if its revision is `if_match`.
    pub fn with_if_match<A: IntoOption<String>>(self, if_match: A) -> (r: Self)
        ensures
            r@ == (GetDocumentView { if_match: if_match.option_view().deep_view(), ..self@ }),
    {
        GetDocument { if_match: if_match.into_option(), ..self }
    }

    /// Reads the document only if its revision is not `if_non_match`.
    pub fn with_if_non_match<A: IntoOption<String>>(self, if_non_match: A) -> (r: Self)
        ensures
            r@ == (GetDocumentView { if_non_match: if_non_match.option_view().deep_view(), ..self@ }),
    {
        GetDocument { if_non_match: if_non_match.into_option(), ..self }
    }

    pub fn id(&self) -> (r: &DocumentId)
        ensures
            r@ == self@.id,
    {
        &self.id
    }

    pub fn if_match(&self) -> (r: Option<&String>)
        ensures
            r.deep_view() == self@.if_match,
    {
        self.if_match.as_ref()
    }

    pub fn if_non_match(&self) -> (r: Option<&String>)
        ensures
            r.deep_view() == self@.if_non_match,
    {
        self.if_non_match.as_ref()
    }
}

impl<T> Clone for GetDocument<T> {
    fn clone(&self) -> (r: Self)
        ensures
            r@.if_match == self@.if_match,
            r@.if_non_match == self@.if_non_match,
    {
        GetDocument {
            id: self.id.clone(),
            if_match: self.if_match.clone(),
            if_non_match: self.if_non_match.clone(),
            content: PhantomData,
        }
    }
}

impl<T> Method for GetDocument<T> {
    type Result = Document<T>;

    fn return_type(&self) -> (r: RpcReturnType)
        ensures
            r == (RpcReturnType { result_field: None, code_field: Some(FIELD_CODE) }),
    {
        RpcReturnType { result_field: None, code_field: Some(FIELD_CODE) }
    }
}

impl<T> Prepare for GetDocument<T> {
    type Content = ();

    fn operation(&self) -> (r: Operation)
        ensures
            r == Operation::Read,
    {
        Operation::Read
    }

    fn path(&self) -> (r: String)
        ensures
            r@ == PATH_API_DOCUMENT@ + "/"@ + handle_text(self@.id.collection_name, self@.id.document_key),
    {
        let mut r = PATH_API_DOCUMENT.to_owned();
        push_segment(&mut r, self.id.as_string().as_str());
        r
    }

    fn parameters(&self) -> (r: Parameters)
        ensures
            r@ == Seq::<(Seq<char>, Seq<char>)>::empty(),
    {
        Parameters::empty()
    }

    fn header(&self) -> (r: Parameters)
        ensures
            r@ == with_param_opt(with_param_opt(Seq::<(Seq<char>, Seq<char>)>::empty(), HEADER_IF_MATCH@, self@.if_match), HEADER_IF_NON_MATCH@, self@.if_non_match),
    {
        let mut params = Parameters::new();
        if let Some(v) = &self.if_match {
            params.insert(HEADER_IF_MATCH, v.clone());
        }
        if let Some(v) = &self.if_non_match {
            params.insert(HEADER_IF_NON_MATCH, v.clone());
        }
        params
    }

    fn content(&self) -> (r: Option<&Self::Content>)
        ensures
            r is None,
    {
        None
    }
}

/// Reads the header of a document.
#[derive(Clone, Debug, PartialEq)]
pub struct GetDocumentHeader {
    id: DocumentId,
    if_match: Option<String>,
    if_non_match: Option<String>,
}

/// The content of a `GetDocumentHeader`.
pub struct GetDocumentHeaderView {
    pub id: DocumentIdView,
    pub if_match: Option<Seq<char>>,
    pub if_non_match: Option<Seq<char>>,
}

impl View for GetDocumentHeader {
    type V = GetDocumentHeaderView;

    closed spec fn view(&self) -> GetDocumentHeaderView {
        GetDocumentHeaderView {
            id: self.id@,
            if_match: self.if_match.deep_view(),
            if_non_match: self.if_non_match.deep_view(),
        }
    }
}

impl GetDocumentHeader {
    /// Reads the document `id`, whatever its revision.
    pub fn new(id: DocumentId) -> (r: Self)
        ensures
            r@.id == id@,
            r@.if_match is None,
            r@.if_non_match is None,
    {
        GetDocumentHeader { id, if_match: None, if_non_match: None }
    }

    /// Reads the document only if its revision is `if_match`.
    pub fn with_if_match<A: IntoOption<String>>(self, if_match: A) -> (r: Self)
        ensures
            r@ == (GetDocumentHeaderView { if_match: if_match.option_view().deep_view(), ..self@ }),
    {
        GetDocumentHeader { if_match: if_match.into_option(), ..self }
    }

    /// Reads the document only if its revision is not `if_non_match`.
    pub fn with_if_non_match<A: IntoOption<String>>(self, if_non_match: A) -> (r: Self)
        ensures
            r@ == (GetDocumentHeaderView { if_non_match: if_non_match.option_view().deep_view(), ..self@ }),
    {
        GetDocumentHeader { if_non_match: if_non_match.into_option(), ..self }
    }

    pub fn id(&self) -> (r: &DocumentId)
        ensures
            r@ == self@.id,
    {
        &self.id
    }

    pub fn if_match(&self) -> (r: Option<&String>)
        ensures
            r.deep_view() == self@.if_match,
    {
        self.if_match.as_ref()
    }

    pub fn if_non_match(&self) -> (r: Option<&String>)
        ensures
            r.deep_view() == self@.if_non_match,
    {
        self.if_non_match.as_ref()
    }
}

impl Method for GetDocumentHeader {
    type Result = Empty;

    fn return_type(&self) -> (r: RpcReturnType)
        ensures
            r == (RpcReturnType { result_field: None, code_field: Some(FIELD_CODE) }),
    {
        RpcReturnType { result_field: None, code_field: Some(FIELD_CODE) }
    }
}

impl Prepare for GetDocumentHeader {
    type Content = ();

    fn operation(&self) -> (r: Operation)
        ensures
            r == Operation::ReadHeader,
    {
        Operation::ReadHeader
    }

    fn path(&self) -> (r: String)
        ensures
            r@ == PATH_API_DOCUMENT@ + "/"@ + handle_text(self@.id.collection_name, self@.id.document_key),
    {
        let mut r = PATH_API_DOCUMENT.to_owned();
        push_segment(&mut r, self.id.as_string().as_str());
        r
    }

    fn parameters(&self) -> (r: Parameters)
        ensures
            r@ == Seq::<(Seq<char>, Seq<char>)>::empty(),
    {
        Parameters::empty()
    }

    fn header(&self) -> (r: Parameters)
        ensures
            r@ == with_param_opt(with_param_opt(Seq::<(Seq<char>, Seq<char>)>::empty(), HEADER_IF_MATCH@, self@.if_match), HEADER_IF_NON_MATCH@, self@.if_non_match),
    {
        let mut params = Parameters::new();
        if let Some(v) = &self.if_match {
            params.insert(HEADER_IF_MATCH, v.clone());
        }
        if let Some(v) = &self.if_non_match {
            params.insert(HEADER_IF_NON_MATCH, v.clone());
        }
        params
    }

    fn content(&self) -> (r: Option<&Self::Content>)
        ensures
            r is None,
    {
        None
    }
}

} // verus!
