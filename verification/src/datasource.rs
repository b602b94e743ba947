//! Where the server is and how to log in to it: a data source, read from a
//! URL or built up from defaults.

use vstd::prelude::*;
use core::time::Duration;
pub use crate::api::auth::{Authentication, AuthenticationView, Credentials};
use crate::api::arg::IntoText;

verus! {

pub const DEFAULT_PROTOCOL: &'static str = "http";
pub const DEFAULT_HOST: &'static str = "localhost";
pub const DEFAULT_PORT: u16 = 8529;
pub const DEFAULT_USERNAME: &'static str = "root";
pub const DEFAULT_PASSWORD: &'static str = "";
pub const DEFAULT_DATABASE_NAME: &'static str = "_system";
pub const DEFAULT_TIMEOUT: u64 = 30;

/// The environment variable that holds the root password where the URL of
/// a data source gives none.
pub const ENV_ROOT_PASSWORD: &'static str = "ARANGO_ROOT_PASSWORD";

/// The span of time `Duration::from_secs` gives for a number of seconds.
pub uninterp spec fn duration_from_secs(secs: u64) -> Duration;

/// `Duration::from_secs`: the span of `secs` whole seconds, which depends on
/// `secs` alone.
#[verifier::external_body]
fn seconds(secs: u64) -> (r: Duration)
    ensures
        r == duration_from_secs(secs),
{
    Duration::from_secs(secs)
}

/// The error of the url crate for a text that is no absolute URL.
#[verifier::external_type_specification]
#[verifier::external_body]
pub struct ExParseError(url::ParseError);

/// The parts of a URL that a data source is made from.
#[derive(Clone, Debug, PartialEq, Eq)]
pub struct UrlParts {
    pub scheme: String,
    pub host: Option<String>,
    pub port: Option<u16>,
    pub username: String,
    pub password: Option<String>,
}

/// The content of a `UrlParts`.
pub struct UrlPartsView {
    pub scheme: Seq<char>,
    pub host: Option<Seq<char>>,
    pub port: Option<u16>,
    pub username: Seq<char>,
    pub password: Option<Seq<char>>,
}

impl View for UrlParts {
    type V = UrlPartsView;

    open spec fn view(&self) -> UrlPartsView {
        UrlPartsView {
            scheme: self.scheme@,
            host: self.host.deep_view(),
            port: self.port,
            username: self.username@,
            password: self.password.deep_view(),
        }
    }
}

/// What `url::Url::parse` makes of a text: `None` where it is no absolute
/// URL, else the scheme, host, port, username and password of the URL.
pub uninterp spec fn url_parse(input: Seq<char>) -> Option<UrlPartsView>;

/// `url::Url::parse`, with the parts a data source needs read off the parsed
/// URL by `scheme`, `host_str`, `port`, `username` and `password`. What the
/// parser accepts and how it normalises the parts is left to the url crate:
/// the result is named, not described.
#[verifier::external_body]
fn parse_url(input: &str) -> (r: Result<UrlParts, url::ParseError>)
    ensures
        r is Ok <==> url_parse(input@) is Some,
        r matches Ok(parts) ==> url_parse(input@) == Some(parts@),
{
    let url = url::Url::parse(input)?;
    Ok(UrlParts {
        scheme: url.scheme().to_owned(),
        host: url.host_str().map(|h| h.to_owned()),
        port: url.port(),
        username: url.username().to_owned(),
        password: url.password().map(|p| p.to_owned()),
    })
}

/// Why a data source could not be made.
#[derive(Debug)]
pub enum Error {
    /// The text is no URL.
    InvalidUrl(url::ParseError),
}

impl From<url::ParseError> for Error {
    fn from(parse_error: url::ParseError) -> (r: Self)
        ensures
            r == Error::InvalidUrl(parse_error),
    {
        Error::InvalidUrl(parse_error)
    }
}

impl vstd::std_specs::convert::FromSpecImpl<url::ParseError> for Error {
    open spec fn obeys_from_spec() -> bool {
        true
    }

    open spec fn from_spec(v: url::ParseError) -> Self {
        Error::InvalidUrl(v)
    }
}

/// The server to connect to, the credentials to log in with, the database to
/// use and how long to wait for an answer.
#[derive(Debug)]
pub struct DataSource {
    protocol: String,
    host: String,
    port: u16,
    authentication: Authentication,
    database_name: Option<String>,
    timeout: Duration,
}

/// The content of a `DataSource`.
pub struct DataSourceView {
    pub protocol: Seq<char>,
    pub host: Seq<char>,
    pub port: u16,
    pub authentication: AuthenticationView,
    pub database_name: Option<Seq<char>>,
    pub timeout: Duration,
}

impl View for DataSource {
    type V = DataSourceView;

    closed spec fn view(&self) -> DataSourceView {
        DataSourceView {
            protocol: self.protocol@,
            host: self.host@,
            port: self.port,
            authentication: self.authentication@,
            database_name: self.database_name.deep_view(),
            timeout: self.timeout,
        }
    }
}

/// The basic credentials of `username` and `password`.
pub open spec fn basic_authentication(username: Seq<char>, password: Seq<char>) -> AuthenticationView {
    AuthenticationView::Basic(username, password)
}

/// The data source for the parts of a URL: its scheme, its host or the
/// default host, its port or the default port, and basic credentials of its
/// username or the default username with its password, else the password
/// from the environment, else the default password.
pub open spec fn data_source_of(parts: UrlPartsView, env_password: Option<Seq<char>>) -> DataSourceView {
    DataSourceView {
        protocol: parts.scheme,
        host: match parts.host { Some(h) => h, None => DEFAULT_HOST@ },
        port: match parts.port { Some(p) => p, None => DEFAULT_PORT },
        authentication: basic_authentication(
            if parts.username.len() == 0 { DEFAULT_USERNAME@ } else { parts.username },
            match parts.password {
                Some(p) => p,
                None => match env_password { Some(p) => p, None => DEFAULT_PASSWORD@ },
            },
        ),
        database_name: None,
        timeout: duration_from_secs(DEFAULT_TIMEOUT),
    }
}

/// A data source read from a URL speaks the URL's scheme, to its host
/// (`localhost` where it names none) at its port (`8529` where it names
/// none), as its user (`root` where it names none) with its password, else
/// the password the environment holds, else the empty password; it names no
/// database.
pub proof fn lemma_data_source_takes_url_parts(parts: UrlPartsView, env_password: Option<Seq<char>>)
    ensures
        data_source_of(parts, env_password).protocol == parts.scheme,
        parts.host matches Some(h) ==> data_source_of(parts, env_password).host == h,
        parts.host is None ==> data_source_of(parts, env_password).host == "localhost"@,
        parts.port matches Some(p) ==> data_source_of(parts, env_password).port == p,
        parts.port is None ==> data_source_of(parts, env_password).port == 8529,
        data_source_of(parts, env_password).authentication matches AuthenticationView::Basic(user, password)
            && (parts.username.len() > 0 ==> user == parts.username)
            && (parts.username.len() == 0 ==> user == "root"@)
            && (parts.password matches Some(p) ==> password == p)
            && (parts.password is None ==> (env_password matches Some(p) ==> password == p))
            && (parts.password is None && env_password is None ==> password == ""@),
        data_source_of(parts, env_password).database_name is None,
{
}

/// The data source that is used where nothing else is said: the default
/// protocol, host and port, and basic credentials of the default username
/// and password.
pub open spec fn default_data_source() -> DataSourceView {
    DataSourceView {
        protocol: DEFAULT_PROTOCOL@,
        host: DEFAULT_HOST@,
        port: DEFAULT_PORT,
        authentication: basic_authentication(DEFAULT_USERNAME@, DEFAULT_PASSWORD@),
        database_name: None,
        timeout: duration_from_secs(DEFAULT_TIMEOUT),
    }
}

fn owned_or(value: Option<String>, default: &str) -> (r: String)
    ensures
        r@ == match value.deep_view() { Some(v) => v, None => default@ },
{
    match value {
        Some(v) => v,
        None => default.to_owned(),
    }
}

impl DataSource {
    /// The data source for the parts of a parsed URL; `env_password` is the
    /// password the environment holds, if any.
    pub fn from_parts(parts: UrlParts, env_password: Option<String>) -> (r: Self)
        ensures
            r@ == data_source_of(parts@, env_password.deep_view()),
    {
        let username = if parts.username.unicode_len() == 0 {
            DEFAULT_USERNAME.to_owned()
        } else {
            parts.username
        };
        let password = match parts.password {
            Some(p) => p,
            None => owned_or(env_password, DEFAULT_PASSWORD),
        };
        DataSource {
            protocol: parts.scheme,
            host: owned_or(parts.host, DEFAULT_HOST),
            port: match parts.port { Some(p) => p, None => DEFAULT_PORT },
            authentication: Authentication::Basic(Credentials::new(username, password)),
            database_name: None,
            timeout: seconds(DEFAULT_TIMEOUT),
        }
    }

    /// The data source for the URL `url`; `env_password` is the password the
    /// environment holds, if any, for a URL that gives none. Fails where the
    /// text is no URL.
    pub fn from_url(url: &str, env_password: Option<String>) -> (r: Result<Self, Error>)
        ensures
            match url_parse(url@) {
                Some(parts) => r matches Ok(ds) && ds@ == data_source_of(parts, env_password.deep_view()),
                None => r is Err,
            },
    {
        match parse_url(url) {
            Ok(parts) => Ok(DataSource::from_parts(parts, env_password)),
            Err(e) => Err(Error::from(e)),
        }
    }

    fn copy(&self) -> (r: Self)
        ensures
            r@ == self@,
    {
        DataSource {
            protocol: self.protocol.clone(),
            host: self.host.clone(),
            port: self.port,
            authentication: self.authentication.clone(),
            database_name: self.database_name.clone(),
            timeout: self.timeout,
        }
    }

    /// The same data source with basic credentials of `username` and
    /// `password`.
    pub fn with_basic_authentication(&self, username: &str, password: &str) -> (r: Self)
        ensures
            r@ == (DataSourceView { authentication: basic_authentication(username@, password@), ..self@ }),
    {
        let mut ds = self.copy();
        ds.authentication = Authentication::Basic(Credentials::new(username.to_owned(), password.to_owned()));
        ds
    }

    /// The same data source without credentials.
    pub fn without_authentication(&self) -> (r: Self)
        ensures
            r@ == (DataSourceView { authentication: AuthenticationView::NoAuthentication, ..self@ }),
    {
        let mut ds = self.copy();
        ds.authentication = Authentication::NoAuthentication;
        ds
    }

    /// The same data source with the given authentication.
    pub fn with_authentication(&self, authentication: Authentication) -> (r: Self)
        ensures
            r@ == (DataSourceView { authentication: authentication@, ..self@ }),
    {
        let mut ds = self.copy();
        ds.authentication = authentication;
        ds
    }

    /// The same data source for the database `database_name`; an empty name
    /// stands for the default database.
    pub fn use_database(&self, database_name: &str) -> (r: Self)
        ensures
            r@ == (DataSourceView {
                database_name: if database_name@.len() == 0 { None } else { Some(database_name@) },
                ..self@
            }),
    {
        let mut ds = self.copy();
        ds.database_name = if database_name.unicode_len() == 0 {
            None
        } else {
            Some(database_name.to_owned())
        };
        ds
    }

    /// The same data source for the default database.
    pub fn use_default_database(&self) -> (r: Self)
        ensures
            r@ == (DataSourceView { database_name: None, ..self@ }),
    {
        let mut ds = self.copy();
        ds.database_name = None;
        ds
    }

    /// The same data source with the given timeout.
    pub fn with_timeout(&self, timeout: Duration) -> (r: Self)
        ensures
            r@ == (DataSourceView { timeout, ..self@ }),
    {
        let mut ds = self.copy();
        ds.timeout = timeout;
        ds
    }

    pub fn protocol(&self) -> (r: &str)
        ensures
            r@ == self@.protocol,
    {
        self.protocol.as_str()
    }

    pub fn host(&self) -> (r: &str)
        ensures
            r@ == self@.host,
    {
        self.host.as_str()
    }

    pub fn port(&self) -> (r: u16)
        ensures
            r == self@.port,
    {
        self.port
    }

    pub fn authentication(&self) -> (r: &Authentication)
        ensures
            r@ == self@.authentication,
    {
        &self.authentication
    }

    pub fn database_name(&self) -> (r: Option<&String>)
        ensures
            r.deep_view() == self@.database_name,
    {
        self.database_name.as_ref()
    }

    pub fn timeout(&self) -> (r: &Duration)
        ensures
            *r == self@.timeout,
    {
        &self.timeout
    }
}

impl Clone for DataSource {
    fn clone(&self) -> (r: Self)
        ensures
            r@ == self@,
    {
        self.copy()
    }
}

impl Default for DataSource {
    fn default() -> (r: Self)
        ensures
            r@ == default_data_source(),
    {
        DataSource {
            protocol: DEFAULT_PROTOCOL.to_owned(),
            host: DEFAULT_HOST.to_owned(),
            port: DEFAULT_PORT,
            authentication: Authentication::Basic(Credentials::new(DEFAULT_USERNAME.to_owned(),
                DEFAULT_PASSWORD.to_owned())),
            database_name: None,
            timeout: seconds(DEFAULT_TIMEOUT),
        }
    }
}

} // verus!
