//! The document entities exchanged with the server and the identifiers of
//! documents.

use vstd::prelude::*;
use vstd::std_specs::convert::FromSpecImpl;
use crate::api::arg::{IntoText, IntoOption};
use crate::arango::protocol::{Handle, HandleOption, parse_handle, no_slash, contains_slash,
    debug_string, debug_text, handle_text, concat3, missing_context_message, invalid_handle_message};

verus! {

/// The name under which document identifiers appear in error messages.
pub open spec fn document_id_name() -> Seq<char> {
    "document id"@
}

/// The message for a document key that holds a `/`.
pub open spec fn slash_in_document_key_message(value: Seq<char>) -> Seq<char> {
    "A document key must not contain any '/' character, but got "@ + debug_text(value)
}

/// The identifier of a document, qualified by its collection or not.
#[derive(Clone, Debug, PartialEq, Eq, Hash)]
pub enum DocumentIdOption {
    Qualified(DocumentId),
    Local(DocumentKey),
}

/// The content of a `DocumentIdOption`.
pub enum DocumentIdOptionView {
    Qualified(DocumentIdView),
    Local(Seq<char>),
}

impl View for DocumentIdOption {
    type V = DocumentIdOptionView;

    open spec fn view(&self) -> DocumentIdOptionView {
        match self {
            DocumentIdOption::Qualified(id) => DocumentIdOptionView::Qualified(id@),
            DocumentIdOption::Local(key) => DocumentIdOptionView::Local(key@),
        }
    }
}

impl DocumentIdOption {
    /// Reads a document identifier, qualified (`collection/key`) or a bare
    /// key.
    pub fn from_str(value: &str) -> (r: Result<Self, String>)
        ensures
            match r {
                Ok(DocumentIdOption::Qualified(id)) =>
                    parse_handle(value@) == Some((Some(id@.collection_name), id@.document_key)),
                Ok(DocumentIdOption::Local(key)) => parse_handle(value@) == Some((None::<Seq<char>>, key@)),
                Err(msg) => parse_handle(value@) is None
                    && msg@ == invalid_handle_message(document_id_name(), value@),
            },
    {
        match HandleOption::from_str("document id", value) {
            Ok(HandleOption::Qualified(handle)) => {
                let (collection_name, document_key) = handle.deconstruct();
                Ok(DocumentIdOption::Qualified(DocumentId { collection_name, document_key }))
            },
            Ok(HandleOption::Local(handle_key)) => {
                let key = handle_key.deconstruct();
                Ok(DocumentIdOption::Local(DocumentKey(key)))
            },
            Err(msg) => Err(msg),
        }
    }
}

impl From<DocumentId> for DocumentIdOption {
    fn from(document_id: DocumentId) -> (r: Self) {
        DocumentIdOption::Qualified(document_id)
    }
}

impl FromSpecImpl<DocumentId> for DocumentIdOption {
    open spec fn obeys_from_spec() -> bool {
        true
    }

    open spec fn from_spec(v: DocumentId) -> Self {
        DocumentIdOption::Qualified(v)
    }
}

impl From<DocumentKey> for DocumentIdOption {
    fn from(document_key: DocumentKey) -> (r: Self) {
        DocumentIdOption::Local(document_key)
    }
}

impl FromSpecImpl<DocumentKey> for DocumentIdOption {
    open spec fn obeys_from_spec() -> bool {
        true
    }

    open spec fn from_spec(v: DocumentKey) -> Self {
        DocumentIdOption::Local(v)
    }
}

/// The identifier of a document qualified by its collection,
/// `collection/key`.
#[derive(Clone, Debug, PartialEq, Eq, Hash)]
pub struct DocumentId {
    collection_name: String,
    document_key: String,
}

/// The content of a `DocumentId`.
pub struct DocumentIdView {
    pub collection_name: Seq<char>,
    pub document_key: Seq<char>,
}

impl View for DocumentId {
    type V = DocumentIdView;

    closed spec fn view(&self) -> DocumentIdView {
        DocumentIdView { collection_name: self.collection_name@, document_key: self.document_key@ }
    }
}

impl DocumentId {
    /// The identifier of document `document_key` in `collection_name`.
    /// Neither part may hold a `/`.
    pub fn new<C: IntoText, K: IntoText>(collection_name: C, document_key: K) -> (r: Self)
        requires
            no_slash(collection_name.text_view()),
            no_slash(document_key.text_view()),
        ensures
            r@ == (DocumentIdView { collection_name: collection_name.text_view(), document_key: document_key.text_view() }),
    {
        DocumentId { collection_name: collection_name.into_text(), document_key: document_key.into_text() }
    }

    /// Reads a qualified document identifier `collection/key`.
    pub fn from_str(value: &str) -> (r: Result<Self, String>)
        ensures
            match r {
                Ok(id) => parse_handle(value@) == Some((Some(id@.collection_name), id@.document_key)),
                Err(msg) => match parse_handle(value@) {
                    Some((None, _)) => msg@ == missing_context_message(document_id_name(), value@),
                    None => msg@ == invalid_handle_message(document_id_name(), value@),
                    Some((Some(_), _)) => false,
                },
            },
    {
        let handle = Handle::from_str("document id", value)?;
        let (collection_name, document_key) = handle.deconstruct();
        Ok(DocumentId { collection_name, document_key })
    }

    /// The text of the identifier, `collection/key`.
    pub fn as_string(&self) -> (r: String)
        ensures
            r@ == handle_text(self@.collection_name, self@.document_key),
    {
        concat3(self.collection_name.as_str(), "/", self.document_key.as_str())
    }

    pub fn collection_name(&self) -> (r: &str)
        ensures
            r@ == self@.collection_name,
    {
        self.collection_name.as_str()
    }

    pub fn document_key(&self) -> (r: &str)
        ensures
            r@ == self@.document_key,
    {
        self.document_key.as_str()
    }
}

/// The key of a document within its collection.
#[derive(Clone, Debug, PartialEq, Eq, Hash)]
pub struct DocumentKey(String);

impl View for DocumentKey {
    type V = Seq<char>;

    closed spec fn view(&self) -> Seq<char> {
        self.0@
    }
}

impl DocumentKey {
    /// The key `document_key`, which must not hold a `/`.
    pub fn new<K: IntoText>(document_key: K) -> (r: Self)
        requires
            no_slash(document_key.text_view()),
        ensures
            r@ == document_key.text_view(),
    {
        DocumentKey(document_key.into_text())
    }

    /// Accepts `value` as a key unless it holds a `/`.
    pub fn from_string(value: String) -> (r: Result<Self, String>)
        ensures
            no_slash(value@) <==> r is Ok,
            r matches Ok(k) ==> k@ == value@,
            r matches Err(msg) ==> msg@ == slash_in_document_key_message(value@),
    {
        if contains_slash(value.as_str()) {
            let quoted = debug_string(value.as_str());
            let mut msg = "A document key must not contain any '/' character, but got ".to_owned();
            msg.append(quoted.as_str());
            Err(msg)
        } else {
            Ok(DocumentKey(value))
        }
    }

    /// Accepts `value` as a key unless it holds a `/`.
    pub fn from_str(value: &str) -> (r: Result<Self, String>)
        ensures
            no_slash(value@) <==> r is Ok,
            r matches Ok(k) ==> k@ == value@,
            r matches Err(msg) ==> msg@ == slash_in_document_key_message(value@),
    {
        DocumentKey::from_string(value.to_owned())
    }

    pub fn as_str(&self) -> (r: &str)
        ensures
            r@ == self@,
    {
        self.0.as_str()
    }
}

impl IntoOption<DocumentKey> for DocumentKey {
    open spec fn option_view(&self) -> Option<DocumentKey> {
        Some(*self)
    }

    fn into_option(self) -> (o: Option<DocumentKey>) {
        Some(self)
    }
}

/// The revision of a document.
#[derive(Clone, Debug, PartialEq, Eq)]
pub struct Revision(String);

impl View for Revision {
    type V = Seq<char>;

    closed spec fn view(&self) -> Seq<char> {
        self.0@
    }
}

impl Revision {
    pub fn new<R: IntoText>(value: R) -> (r: Self)
        ensures
            r@ == value.text_view(),
    {
        Revision(value.into_text())
    }

    pub fn from_string(value: String) -> (r: Self)
        ensures
            r@ == value@,
    {
        Revision(value)
    }

    pub fn into_string(self) -> (r: String)
        ensures
            r@ == self@,
    {
        self.0
    }

    pub fn from_str(value: &str) -> (r: Self)
        ensures
            r@ == value@,
    {
        Revision(value.to_owned())
    }

    pub fn as_str(&self) -> (r: &str)
        ensures
            r@ == self@,
    {
        self.0.as_str()
    }
}

/// Marks the types that may be the content of a document: those that are
/// written as a JSON object.
pub trait Content {}

/// The content of a document given as JSON text.
#[derive(Clone, Debug, PartialEq, Eq)]
pub struct RawJson(String);

impl Content for RawJson {}

impl View for RawJson {
    type V = Seq<char>;

    closed spec fn view(&self) -> Seq<char> {
        self.0@
    }
}

impl RawJson {
    pub fn new<J: IntoText>(value: J) -> (r: Self)
        ensures
            r@ == value.text_view(),
    {
        RawJson(value.into_text())
    }

    pub fn from_string(value: String) -> (r: Self)
        ensures
            r@ == value@,
    {
        RawJson(value)
    }

    pub fn from_str(value: &str) -> (r: Self)
        ensures
            r@ == value@,
    {
        RawJson(value.to_owned())
    }

    pub fn into_string(self) -> (r: String)
        ensures
            r@ == self@,
    {
        self.0
    }

    pub fn as_str(&self) -> (r: &str)
        ensures
            r@ == self@,
    {
        self.0.as_str()
    }
}

/// A document stored in a collection: its identifier, key, revision and
/// content.
#[derive(Clone, Debug, PartialEq, Eq)]
pub struct Document<T> {
    id: DocumentId,
    key: DocumentKey,
    revision: Revision,
    content: T,
}

/// The content of a `Document`.
pub struct DocumentView<T> {
    pub id: DocumentIdView,
    pub key: Seq<char>,
    pub revision: Seq<char>,
    pub content: T,
}

impl<T> View for Document<T> {
    type V = DocumentView<T>;

    closed spec fn view(&self) -> DocumentView<T> {
        DocumentView { id: self.id@, key: self.key@, revision: self.revision@, content: self.content }
    }
}

impl<T> Document<T> {
    pub fn new(id: DocumentId, key: DocumentKey, revision: Revision, content: T) -> (r: Self)
        ensures
            r@ == (DocumentView { id: id@, key: key@, revision: revision@, content }),
    {
        Document { id, key, revision, content }
    }

    /// Builds a document from the system fields the server sent and the
    /// remaining content. A missing field is refused with
    /// ``missing field `<name>` ``; an identifier or key that cannot be read
    /// is refused with the message of `DocumentId::from_str` or
    /// `DocumentKey::from_string`.
    pub fn from_fields(id: Option<String>, key: Option<String>, revision: Option<String>, content: T)
        -> (r: Result<Self, String>)
        ensures
            (id is Some && key is Some && revision is Some
                && (parse_handle(id->0@) matches Some((Some(_), _))) && no_slash(key->0@)) <==> r is Ok,
            r matches Ok(d) ==> parse_handle(id->0@) == Some((Some(d@.id.collection_name), d@.id.document_key))
                && d@.key == key->0@ && d@.revision == revision->0@ && d@.content == content,
            id is None ==> (r matches Err(msg) && msg@ == "missing field `_id`"@),
            id is Some && key is None ==> (r matches Err(msg) && msg@ == "missing field `_key`"@),
            id is Some && key is Some && revision is None ==> (r matches Err(msg) && msg@ == "missing field `_rev`"@),
    {
        match (id, key, revision) {
            (Some(id), Some(key), Some(revision)) => {
                let id = DocumentId::from_str(id.as_str())?;
                let key = DocumentKey::from_string(key)?;
                let revision = Revision::from_string(revision);
                Ok(Document { id, key, revision, content })
            },
            (None, _, _) => Err("missing field `_id`".to_owned()),
            (_, None, _) => Err("missing field `_key`".to_owned()),
            (_, _, None) => Err("missing field `_rev`".to_owned()),
        }
    }

    pub fn id(&self) -> (r: &DocumentId)
        ensures
            r@ == self@.id,
    {
        &self.id
    }

    pub fn key(&self) -> (r: &DocumentKey)
        ensures
            r@ == self@.key,
    {
        &self.key
    }

    pub fn revision(&self) -> (r: &Revision)
        ensures
            r@ == self@.revision,
    {
        &self.revision
    }

    pub fn content(&self) -> (r: &T)
        ensures
            *r == self@.content,
    {
        &self.content
    }

    pub fn unwrap_content(self) -> (r: T)
        ensures
            r == self@.content,
    {
        self.content
    }
}

/// The identity of a stored document: its id, its key and its revision.
#[derive(Clone, Debug, PartialEq, Eq)]
pub struct DocumentHeader {
    id: DocumentId,
    key: DocumentKey,
    revision: Revision,
}

/// The content of a `DocumentHeader`.
pub struct DocumentHeaderView {
    pub id: DocumentIdView,
    pub key: Seq<char>,
    pub revision: Seq<char>,
}

impl View for DocumentHeader {
    type V = DocumentHeaderView;

    closed spec fn view(&self) -> DocumentHeaderView {
        DocumentHeaderView { id: self.id@, key: self.key@, revision: self.revision@ }
    }
}

impl DocumentHeader {
    pub fn new(id: DocumentId, key: DocumentKey, revision: Revision) -> (r: Self)
        ensures
            r@ == (DocumentHeaderView { id: id@, key: key@, revision: revision@ }),
    {
        DocumentHeader { id, key, revision }
    }

    pub fn id(&self) -> (r: &DocumentId)
        ensures
            r@ == self@.id,
    {
        &self.id
    }

    pub fn key(&self) -> (r: &DocumentKey)
        ensures
            r@ == self@.key,
    {
        &self.key
    }

    pub fn revision(&self) -> (r: &Revision)
        ensures
            r@ == self@.revision,
    {
        &self.revision
    }

    /// The id, the key and the revision.
    pub fn deconstruct(self) -> (r: (DocumentId, DocumentKey, Revision))
        ensures
            r.0@ == self@.id,
            r.1@ == self@.key,
            r.2@ == self@.revision,
    {
        (self.id, self.key, self.revision)
    }
}

/// A document to be inserted: its content and, optionally, the key it shall
/// be stored under.
#[derive(Clone, Debug, PartialEq, Eq)]
pub struct NewDocument<T> {
    key: Option<DocumentKey>,
    content: T,
}

/// The content of a `NewDocument`.
pub struct NewDocumentView<T> {
    pub key: Option<Seq<char>>,
    pub content: T,
}

impl<T> View for NewDocument<T> {
    type V = NewDocumentView<T>;

    closed spec fn view(&self) -> NewDocumentView<T> {
        NewDocumentView {
            key: match self.key { Some(k) => Some(k@), None => None },
            content: self.content,
        }
    }
}

impl<T> NewDocument<T> {
    /// A new document without a key; the server will choose one.
    pub fn from_content(content: T) -> (r: Self)
        ensures
            r@ == (NewDocumentView { key: None::<Seq<char>>, content }),
    {
        NewDocument { key: None, content }
    }

    /// The same document under the given key, or without a key.
    pub fn with_key<K: IntoOption<DocumentKey>>(self, key: K) -> (r: Self)
        ensures
            r@ == (NewDocumentView {
                key: match key.option_view() { Some(k) => Some(k@), None => None },
                content: self@.content,
            }),
    {
        NewDocument { key: key.into_option(), content: self.content }
    }

    pub fn key(&self) -> (r: Option<&DocumentKey>)
        ensures
            match r { Some(k) => self@.key == Some(k@), None => self@.key is None },
    {
        self.key.as_ref()
    }

    pub fn content(&self) -> (r: &T)
        ensures
            *r == self@.content,
    {
        &self.content
    }
}

impl<T> From<T> for NewDocument<T> {
    fn from(content: T) -> (r: Self) {
        NewDocument::from_content(content)
    }
}

impl<T> FromSpecImpl<T> for NewDocument<T> {
    open spec fn obeys_from_spec() -> bool {
        true
    }

    closed spec fn from_spec(v: T) -> Self {
        NewDocument { key: None, content: v }
    }
}

} // verus!
