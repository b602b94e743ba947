//! The edge entities of graphs.

use vstd::prelude::*;
use crate::api::arg::IntoOption;
use crate::document::types::{DocumentId, DocumentIdView, DocumentKey, Revision};

verus! {

/// An edge of a graph as the server stores it: a document that links one document to another.
#[derive(Clone, Debug, PartialEq)]
pub struct Edge<T> {
    id: DocumentId,
    key: DocumentKey,
    revision: Revision,
    from: DocumentId,
    to: DocumentId,
    content: T,
}

/// The content of a `Edge`.
pub struct EdgeView<T> {
    pub id: DocumentIdView,
    pub key: Seq<char>,
    pub revision: Seq<char>,
    pub from: DocumentIdView,
    pub to: DocumentIdView,
    pub content: T,
}

impl<T> View for Edge<T> {
    type V = EdgeView<T>;

    closed spec fn view(&self) -> EdgeView<T> {
        EdgeView {
            id: self.id@,
            key: self.key@,
            revision: self.revision@,
            from: self.from@,
            to: self.to@,
            content: self.content,
        }
    }
}

impl<T> Edge<T> {
    pub fn new(id: DocumentId, key: DocumentKey, revision: Revision, from: DocumentId, to: DocumentId, content: T) -> (r: Self)
        ensures
            r@ == (EdgeView { id: id@, key: key@, revision: revision@, from: from@, to: to@, content }),
    {
        Edge { id, key, revision, from, to, content }
    }

    pub fn id(&self) -> (r: &DocumentId)
        ensures
            r@ == self@.id,
    {
        &self.id
    }

    pub fn key(&self) -> (r: &DocumentKey)
        ensures
            r@ == self@.key,
    {
        &self.key
    }

    pub fn revision(&self) -> (r: &Revision)
        ensures
            r@ == self@.revision,
    {
        &self.revision
    }

    pub fn from(&self) -> (r: &DocumentId)
        ensures
            r@ == self@.from,
    {
        &self.from
    }

    pub fn to(&self) -> (r: &DocumentId)
        ensures
            r@ == self@.to,
    {
        &self.to
    }

    pub fn content(&self) -> (r: &T)
        ensures
            *r == self@.content,
    {
        &self.content
    }

    pub fn unwrap_content(self) -> (r: T)
        ensures
            r == self@.content,
    {
        self.content
    }
}

/// An edge to be inserted into a graph.
#[derive(Clone, Debug, PartialEq)]
pub struct NewEdge<T> {
    key: Option<DocumentKey>,
    from: DocumentId,
    to: DocumentId,
    content: T,
}

/// The content of a `NewEdge`.
pub struct NewEdgeView<T> {
    pub key: Option<Seq<char>>,
    pub from: DocumentIdView,
    pub to: DocumentIdView,
    pub content: T,
}

impl<T> View for NewEdge<T> {
    type V = NewEdgeView<T>;

    closed spec fn view(&self) -> NewEdgeView<T> {
        NewEdgeView {
            key: match self.key { Some(k) => Some(k@), None => None },
            from: self.from@,
            to: self.to@,
            content: self.content,
        }
    }
}

impl<T> NewEdge<T> {
    /// An edge from `from` to `to` without a key; the server will choose one.
    pub fn new(from: DocumentId, to: DocumentId, content: T) -> (r: Self)
        ensures
            r@ == (NewEdgeView { key: None, from: from@, to: to@, content }),
    {
        NewEdge { key: None, from, to, content }
    }

    /// The same edge under the given key, or without a key.
    pub fn with_key<K: IntoOption<DocumentKey>>(self, key: K) -> (r: Self)
        ensures
            r@ == (NewEdgeView { key: match key.option_view() { Some(k) => Some(k@), None => None }, ..self@ }),
    {
        NewEdge { key: key.into_option(), ..self }
    }

    pub fn key(&self) -> (r: Option<&DocumentKey>)
        ensures
            match r { Some(k) => self@.key == Some(k@), None => self@.key is None },
    {
        self.key.as_ref()
    }

    pub fn from(&self) -> (r: &DocumentId)
        ensures
            r@ == self@.from,
    {
        &self.from
    }

    pub fn to(&self) -> (r: &DocumentId)
        ensures
            r@ == self@.to,
    {
        &self.to
    }

    pub fn content(&self) -> (r: &T)
        ensures
            *r == self@.content,
    {
        &self.content
    }
}

} // verus!
