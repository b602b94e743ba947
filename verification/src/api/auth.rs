//! How a client authenticates itself to the server.

use vstd::prelude::*;
use crate::api::arg::IntoText;

verus! {

/// The supported authentication methods.
#[derive(Debug, PartialEq, Eq)]
pub enum Authentication {
    /// Basic authentication.
    Basic(Credentials),
    /// Authentication by a JSON Web Token.
    Jwt(Credentials),
    NoAuthentication,
}

/// The content of an `Authentication`: the username and password of the
/// credentials, where there are any.
pub enum AuthenticationView {
    Basic(Seq<char>, Seq<char>),
    Jwt(Seq<char>, Seq<char>),
    NoAuthentication,
}

impl View for Authentication {
    type V = AuthenticationView;

    open spec fn view(&self) -> AuthenticationView {
        match self {
            Authentication::Basic(c) => AuthenticationView::Basic(c.username_view(), c.password_view()),
            Authentication::Jwt(c) => AuthenticationView::Jwt(c.username_view(), c.password_view()),
            Authentication::NoAuthentication => AuthenticationView::NoAuthentication,
        }
    }
}

impl Clone for Authentication {
    fn clone(&self) -> (r: Self)
        ensures
            r@ == self@,
    {
        match self {
            Authentication::Basic(c) => Authentication::Basic(c.clone()),
            Authentication::Jwt(c) => Authentication::Jwt(c.clone()),
            Authentication::NoAuthentication => Authentication::NoAuthentication,
        }
    }
}

/// The credentials a user authenticates with.
#[derive(Debug, PartialEq, Eq, Hash)]
pub struct Credentials {
    username: String,
    password: String,
}

/// A JSON Web Token.
pub type Jwt = String;

impl Credentials {
    pub closed spec fn username_view(&self) -> Seq<char> {
        self.username@
    }

    pub closed spec fn password_view(&self) -> Seq<char> {
        self.password@
    }

    /// Credentials with the given username and password.
    pub fn new<S: IntoText>(username: S, password: S) -> (r: Self)
        ensures
            r.username_view() == username.text_view(),
            r.password_view() == password.text_view(),
    {
        Credentials { username: username.into_text(), password: password.into_text() }
    }

    /// The username registered for a user.
    pub fn username(&self) -> (r: &str)
        ensures
            r@ == self.username_view(),
    {
        self.username.as_str()
    }

    /// The password registered with the username.
    pub fn password(&self) -> (r: &str)
        ensures
            r@ == self.password_view(),
    {
        self.password.as_str()
    }
}

impl Clone for Credentials {
    fn clone(&self) -> (r: Self)
        ensures
            r.username_view() == self.username_view(),
            r.password_view() == self.password_view(),
    {
        Credentials { username: self.username.clone(), password: self.password.clone() }
    }
}

} // verus!
