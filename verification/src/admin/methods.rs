//! The request methods that ask the server about itself.

use vstd::prelude::*;
use crate::api::method::{Method, Operation, Parameters, Prepare, RpcReturnType, with_param_if};
use crate::api::text::push_segment;
use crate::admin::types::{ServerVersion, TargetVersion};
use crate::arango::protocol::{FIELD_CODE, PARAM_DETAILS, PATH_ADMIN, PATH_API_VERSION, PATH_DATABASE,
    PATH_TARGET_VERSION, VALUE_TRUE};

verus! {

/// Reads the version of the databases the server is meant for.
#[derive(Clone, Debug, PartialEq, Eq)]
pub struct GetTargetVersion {}

impl GetTargetVersion {
    pub fn new() -> (r: Self)
        ensures
            r == (GetTargetVersion {}),
    {
        GetTargetVersion {}
    }
}

impl Method for GetTargetVersion {
    type Result = TargetVersion;

    fn return_type(&self) -> (r: RpcReturnType)
        ensures
            r == (RpcReturnType { result_field: None, code_field: Some(FIELD_CODE) }),
    {
        RpcReturnType { result_field: None, code_field: Some(FIELD_CODE) }
    }
}

impl Prepare for GetTargetVersion {
    type Content = ();

    fn operation(&self) -> (r: Operation)
        ensures
            r == Operation::Read,
    {
        Operation::Read
    }

    fn path(&self) -> (r: String)
        ensures
            r@ == PATH_ADMIN@ + "/"@ + PATH_DATABASE@ + "/"@ + PATH_TARGET_VERSION@,
    {
        let mut r = PATH_ADMIN.to_owned();
        push_segment(&mut r, PATH_DATABASE);
        push_segment(&mut r, PATH_TARGET_VERSION);
        r
    }

    fn parameters(&self) -> (r: Parameters)
        ensures
            r@ == Seq::<(Seq<char>, Seq<char>)>::empty(),
    {
        Parameters::empty()
    }

    fn header(&self) -> (r: Parameters)
        ensures
            r@ == Seq::<(Seq<char>, Seq<char>)>::empty(),
    {
        Parameters::empty()
    }

    fn content(&self) -> (r: Option<&Self::Content>)
        ensures
            r is None,
    {
        None
    }
}

/// Reads the version of the server.
#[derive(Clone, Debug, PartialEq, Eq)]
pub struct GetServerVersion {
    details: bool,
}

/// The content of a `GetServerVersion`.
pub struct GetServerVersionView {
    pub details: bool,
}

impl View for GetServerVersion {
    type V = GetServerVersionView;

    closed spec fn view(&self) -> GetServerVersionView {
        GetServerVersionView {
            details: self.details,
        }
    }
}

impl GetServerVersion {
    /// Reads the version without its details.
    pub fn new() -> (r: Self)
        ensures
            !r@.details,
    {
        GetServerVersion { details: false }
    }

    /// Reads the version with its details.
    pub fn with_details() -> (r: Self)
        ensures
            r@.details,
    {
        GetServerVersion { details: true }
    }

    pub fn details(&self) -> (r: bool)
        ensures
            r == self@.details,
    {
        self.details
    }
}

impl Method for GetServerVersion {
    type Result = ServerVersion;

    fn return_type(&self) -> (r: RpcReturnType)
        ensures
            r == (RpcReturnType { result_field: None, code_field: None }),
    {
        RpcReturnType { result_field: None, code_field: None }
    }
}

impl Prepare for GetServerVersion {
    type Content = ();

    fn operation(&self) -> (r: Operation)
        ensures
            r == Operation::Read,
    {
        Operation::Read
    }

    fn path(&self) -> (r: String)
        ensures
            r@ == PATH_API_VERSION@,
    {
        let mut r = PATH_API_VERSION.to_owned();
        r
    }

    fn parameters(&self) -> (r: Parameters)
        ensures
            r@ == with_param_if(Seq::<(Seq<char>, Seq<char>)>::empty(), self@.details, PARAM_DETAILS@, VALUE_TRUE@),
    {
        let mut params = Parameters::new();
        if self.details {
            params.insert(PARAM_DETAILS, VALUE_TRUE);
        }
        params
    }

    fn header(&self) -> (r: Parameters)
        ensures
            r@ == Seq::<(Seq<char>, Seq<char>)>::empty(),
    {
        Parameters::empty()
    }

    fn content(&self) -> (r: Option<&Self::Content>)
        ensures
            r is None,
    {
        None
    }
}

} // verus!
