//! Small value types used in requests and results.

use vstd::prelude::*;
use crate::api::arg::IntoText;

verus! {

/// The empty content of a request or result.
#[derive(Clone, Copy, Debug, PartialEq, Eq)]
pub struct Empty {}

impl Default for Empty {
    fn default() -> (r: Self) {
        Empty {}
    }
}

/// A text that holds a JSON document.
#[derive(Clone, Debug, PartialEq, Eq)]
pub struct JsonString(String);

impl View for JsonString {
    type V = Seq<char>;

    closed spec fn view(&self) -> Seq<char> {
        self.0@
    }
}

impl JsonString {
    pub fn new<J: IntoText>(value: J) -> (r: Self)
        ensures
            r@ == value.text_view(),
    {
        JsonString(value.into_text())
    }

    pub fn from_string(value: String) -> (r: Self)
        ensures
            r@ == value@,
    {
        JsonString(value)
    }

    pub fn from_str(value: &str) -> (r: Self)
        ensures
            r@ == value@,
    {
        JsonString(value.to_owned())
    }

    pub fn into_string(self) -> (r: String)
        ensures
            r@ == self@,
    {
        self.0
    }

    pub fn as_str(&self) -> (r: &str)
        ensures
            r@ == self@,
    {
        self.0.as_str()
    }
}

/// The raw text of a document sent to or received from the server.
#[derive(Clone, Debug, PartialEq, Eq)]
pub struct Document {
    text: String,
}

impl View for Document {
    type V = Seq<char>;

    closed spec fn view(&self) -> Seq<char> {
        self.text@
    }
}

impl Document {
    pub fn from_str(text: &str) -> (r: Self)
        ensures
            r@ == text@,
    {
        Document { text: text.to_owned() }
    }

    pub fn from_string(text: String) -> (r: Self)
        ensures
            r@ == text@,
    {
        Document { text }
    }

    pub fn text(&self) -> (r: &str)
        ensures
            r@ == self@,
    {
        self.text.as_str()
    }

    /// The UTF-8 encoding of the text.
    pub fn bytes(&self) -> (r: &[u8])
        ensures
            r@ == vstd::utf8::encode_utf8(self@),
    {
        self.text.as_str().as_bytes()
    }
}

} // verus!
