//! Logging in: the request that trades a user's credentials for a token.

use vstd::prelude::*;
use crate::api::arg::IntoText;
use crate::api::auth::Credentials;
use crate::api::method::{Method, Operation, Parameters, Prepare, RpcReturnType};
use crate::api::text::push_segment;
use crate::arango::protocol::{FIELD_CODE, PATH_OPEN_AUTH};

verus! {

/// The credentials sent to log in.
#[derive(Clone, Debug, PartialEq, Eq)]
pub struct AuthenticationRequest {
    username: String,
    password: String,
}

/// The content of a `AuthenticationRequest`.
pub struct AuthenticationRequestView {
    pub username: Seq<char>,
    pub password: Seq<char>,
}

impl View for AuthenticationRequest {
    type V = AuthenticationRequestView;

    closed spec fn view(&self) -> AuthenticationRequestView {
        AuthenticationRequestView {
            username: self.username@,
            password: self.password@,
        }
    }
}

impl AuthenticationRequest {
    pub fn new<N: IntoText, P: IntoText>(username: N, password: P) -> (r: Self)
        ensures
            r@ == (AuthenticationRequestView { username: username.text_view(), password: password.text_view() }),
    {
        AuthenticationRequest { username: username.into_text(), password: password.into_text() }
    }

    pub fn username(&self) -> (r: &str)
        ensures
            r@ == self@.username,
    {
        self.username.as_str()
    }

    pub fn password(&self) -> (r: &str)
        ensures
            r@ == self@.password,
    {
        self.password.as_str()
    }
}

/// The token the server answers a successful login with.
#[derive(Clone, Debug, PartialEq, Eq)]
pub struct AuthenticationResponse {
    jwt: String,
}

/// The content of a `AuthenticationResponse`.
pub struct AuthenticationResponseView {
    pub jwt: Seq<char>,
}

impl View for AuthenticationResponse {
    type V = AuthenticationResponseView;

    closed spec fn view(&self) -> AuthenticationResponseView {
        AuthenticationResponseView {
            jwt: self.jwt@,
        }
    }
}

impl AuthenticationResponse {
    pub fn new<J: IntoText>(jwt: J) -> (r: Self)
        ensures
            r@.jwt == jwt.text_view(),
    {
        AuthenticationResponse { jwt: jwt.into_text() }
    }

    pub fn jwt(&self) -> (r: &str)
        ensures
            r@ == self@.jwt,
    {
        self.jwt.as_str()
    }
}

/// Logs a user in.
#[derive(Clone, Debug, PartialEq, Eq)]
pub struct Authenticate {
    request: AuthenticationRequest,
}

/// The content of a `Authenticate`.
pub struct AuthenticateView {
    pub request: AuthenticationRequestView,
}

impl View for Authenticate {
    type V = AuthenticateView;

    closed spec fn view(&self) -> AuthenticateView {
        AuthenticateView {
            request: self.request@,
        }
    }
}

impl Authenticate {
    pub fn with_credentials(credentials: Credentials) -> (r: Self)
        ensures
            r@.request == (AuthenticationRequestView { username: credentials.username_view(),
                password: credentials.password_view() }),
    {
        Authenticate { request: AuthenticationRequest::new(credentials.username(), credentials.password()) }
    }

    pub fn with_user<N: IntoText, P: IntoText>(username: N, password: P) -> (r: Self)
        ensures
            r@.request == (AuthenticationRequestView { username: username.text_view(), password: password.text_view() }),
    {
        Authenticate { request: AuthenticationRequest::new(username, password) }
    }

    pub fn request(&self) -> (r: &AuthenticationRequest)
        ensures
            r@ == self@.request,
    {
        &self.request
    }
}

impl Method for Authenticate {
    type Result = AuthenticationResponse;

    fn return_type(&self) -> (r: RpcReturnType)
        ensures
            r == (RpcReturnType { result_field: None, code_field: Some(FIELD_CODE) }),
    {
        RpcReturnType { result_field: None, code_field: Some(FIELD_CODE) }
    }
}

impl Prepare for Authenticate {
    type Content = AuthenticationRequest;

    fn operation(&self) -> (r: Operation)
        ensures
            r == Operation::Create,
    {
        Operation::Create
    }

    fn path(&self) -> (r: String)
        ensures
            r@ == PATH_OPEN_AUTH@,
    {
        let mut r = PATH_OPEN_AUTH.to_owned();
        r
    }

    fn parameters(&self) -> (r: Parameters)
        ensures
            r@ == Seq::<(Seq<char>, Seq<char>)>::empty(),
    {
        Parameters::empty()
    }

    fn header(&self) -> (r: Parameters)
        ensures
            r@ == Seq::<(Seq<char>, Seq<char>)>::empty(),
    {
        Parameters::empty()
    }

    fn content(&self) -> (r: Option<&Self::Content>)
        ensures
            r matches Some(c) && c@ == self@.request,
    {
        Some(&self.request)
    }
}

} // verus!
