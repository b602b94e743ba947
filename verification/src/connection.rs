//! The address of a request: the URI made of the data source, the path of
//! the request method and its parameters, each part percent-encoded.

use vstd::prelude::*;
use crate::api::auth::{Authentication, AuthenticationView};
use crate::api::error_code::{ErrorCode, error_code_of, error_code_description};
use crate::api::method::{Error, Operation, Parameters, Prepare};
use crate::api::text::{decimal_text, u64_to_text};
use crate::arango::protocol::PATH_DB;
use crate::datasource::{DataSource, DataSourceView};

verus! {

/// The digits of a hexadecimal number, in order of their value.
pub const HEX_DIGITS: &'static str = "0123456789ABCDEF";

/// Whether a byte is written as `%XX` in a URI: the control characters, the
/// bytes that are not ASCII, and the space and `"`, `#`, `<`, `>`, `?`, `` ` ``,
/// `{` and `}`.
pub open spec fn must_escape(b: u8) -> bool {
    ||| b < 0x20
    ||| b >= 0x7F
    ||| b == 0x20
    ||| b == 0x22
    ||| b == 0x23
    ||| b == 0x3C
    ||| b == 0x3E
    ||| b == 0x3F
    ||| b == 0x60
    ||| b == 0x7B
    ||| b == 0x7D
}

/// How a byte that must be escaped is written: `%` and its two hexadecimal
/// digits, the larger first.
pub open spec fn escaped_text(b: u8) -> Seq<char> {
    "%"@ + seq![HEX_DIGITS@[(b / 16) as int], HEX_DIGITS@[(b % 16) as int]]
}

/// How a byte is written in a URI.
pub open spec fn byte_text(b: u8) -> Seq<char> {
    if must_escape(b) {
        escaped_text(b)
    } else {
        seq![b as char]
    }
}

/// How a sequence of bytes is written in a URI, byte by byte.
pub open spec fn percent_encoded(bytes: Seq<u8>) -> Seq<char>
    decreases bytes.len(),
{
    if bytes.len() == 0 {
        Seq::empty()
    } else {
        percent_encoded(bytes.drop_last()) + byte_text(bytes.last())
    }
}

/// How a text is written in a URI: its UTF-8 bytes, percent-encoded.
pub open spec fn uri_text(s: Seq<char>) -> Seq<char> {
    percent_encoded(vstd::utf8::encode_utf8(s))
}

proof fn lemma_percent_encoded_concat(a: Seq<u8>, b: Seq<u8>)
    ensures
        percent_encoded(a + b) == percent_encoded(a) + percent_encoded(b),
    decreases b.len(),
{
    if b.len() == 0 {
        assert(a + b =~= a);
    } else {
        assert((a + b).drop_last() =~= a + b.drop_last());
        assert((a + b).last() == b.last());
        lemma_percent_encoded_concat(a, b.drop_last());
    }
}

proof fn lemma_encode_utf8_push(s: Seq<char>, c: char)
    ensures
        vstd::utf8::encode_utf8(s.push(c)) == vstd::utf8::encode_utf8(s) + vstd::utf8::encode_scalar(c as u32),
    decreases s.len(),
{
    if s.len() == 0 {
        assert(s.push(c).drop_first() =~= Seq::<char>::empty());
        assert(vstd::utf8::encode_utf8(Seq::<char>::empty()) =~= Seq::<u8>::empty());
        assert(vstd::utf8::encode_scalar(c as u32) + Seq::<u8>::empty() =~= vstd::utf8::encode_scalar(c as u32));
        assert(Seq::<u8>::empty() + vstd::utf8::encode_scalar(c as u32) =~= vstd::utf8::encode_scalar(c as u32));
    } else {
        assert(s.push(c).drop_first() =~= s.drop_first().push(c));
        lemma_encode_utf8_push(s.drop_first(), c);
        assert(s.push(c)[0] == s[0]);
        let e0 = vstd::utf8::encode_scalar(s[0] as u32);
        assert(e0 + (vstd::utf8::encode_utf8(s.drop_first()) + vstd::utf8::encode_scalar(c as u32))
            =~= (e0 + vstd::utf8::encode_utf8(s.drop_first())) + vstd::utf8::encode_scalar(c as u32));
    }
}

/// Appends the escaped form `%XX` of `b`.
fn push_escaped(r: &mut String, b: u8)
    ensures
        final(r)@ == old(r)@ + escaped_text(b),
{
    let hi = (b / 16) as usize;
    let lo = (b % 16) as usize;
    proof {
        reveal_strlit("0123456789ABCDEF");
    }
    r.append("%");
    r.append(HEX_DIGITS.substring_char(hi, hi + 1));
    r.append(HEX_DIGITS.substring_char(lo, lo + 1));
    proof {
        assert(HEX_DIGITS@.subrange(hi as int, hi + 1) =~= seq![HEX_DIGITS@[hi as int]]);
        assert(HEX_DIGITS@.subrange(lo as int, lo + 1) =~= seq![HEX_DIGITS@[lo as int]]);
        assert(old(r)@ + "%"@ + seq![HEX_DIGITS@[hi as int]] + seq![HEX_DIGITS@[lo as int]]
            =~= old(r)@ + escaped_text(b));
    }
}

/// Appends how `b` is written, for a byte that must be escaped.
fn push_byte_escaped(r: &mut String, b: u8)
    requires
        must_escape(b),
    ensures
        final(r)@ == old(r)@ + byte_text(b),
{
    push_escaped(r, b)
}

fn is_escaped(b: u8) -> (r: bool)
    ensures
        r == must_escape(b),
{
    b < 0x20 || b >= 0x7F || b == 0x20 || b == 0x22 || b == 0x23 || b == 0x3C || b == 0x3E || b == 0x3F
        || b == 0x60 || b == 0x7B || b == 0x7D
}

/// Appends how the character at position `i` of `s` is written.
fn push_char_encoded(r: &mut String, s: &str, i: usize)
    requires
        i < s@.len(),
    ensures
        final(r)@ == old(r)@ + percent_encoded(vstd::utf8::encode_scalar(s@[i as int] as u32)),
{
    let _n = s.unicode_len();
    let c = s.get_char(i);
    let cp = c as u32;
    let ghost e = vstd::utf8::encode_scalar(cp);
    if cp <= 0x7F {
        let b = cp as u8;
        proof {
            assert(cp & 0x7F == cp) by (bit_vector)
                requires
                    cp <= 0x7F;
            assert(e =~= seq![b]);
            reveal_with_fuel(percent_encoded, 2);
            assert(seq![b].drop_last() =~= Seq::<u8>::empty());
            assert(percent_encoded(e) =~= byte_text(b));
        }
        if is_escaped(b) {
            push_escaped(r, b);
        } else {
            r.append(s.substring_char(i, i + 1));
            proof {
                assert(s@.subrange(i as int, i + 1) =~= seq![c]);
                assert(b as char == c);
            }
        }
    } else if cp <= 0x7FF {
        let b1 = 0xC0 | ((cp >> 6) & 0x1F) as u8;
        let b2 = 0x80 | (cp & 0x3F) as u8;
        proof {
            assert(b1 >= 0x80 && b2 >= 0x80) by (bit_vector)
                requires
                    b1 == 0xC0 | ((cp >> 6) & 0x1F) as u8,
                    b2 == 0x80 | (cp & 0x3F) as u8;
            assert(e =~= seq![b1, b2]);
            lemma_percent_encoded_concat(seq![b1], seq![b2]);
            assert(seq![b1] + seq![b2] =~= e);
            reveal_with_fuel(percent_encoded, 2);
            assert(seq![b1].drop_last() =~= Seq::<u8>::empty());
            assert(seq![b2].drop_last() =~= Seq::<u8>::empty());
        }
        push_byte_escaped(r, b1);
        push_byte_escaped(r, b2);
    } else if cp <= 0xFFFF {
        let b1 = 0xE0 | ((cp >> 12) & 0x0F) as u8;
        let b2 = 0x80 | ((cp >> 6) & 0x3F) as u8;
        let b3 = 0x80 | (cp & 0x3F) as u8;
        proof {
            assert(b1 >= 0x80 && b2 >= 0x80 && b3 >= 0x80) by (bit_vector)
                requires
                    b1 == 0xE0 | ((cp >> 12) & 0x0F) as u8,
                    b2 == 0x80 | ((cp >> 6) & 0x3F) as u8,
                    b3 == 0x80 | (cp & 0x3F) as u8;
            vstd::utf8::char_is_scalar(c);
            assert(e =~= seq![b1, b2, b3]);
            lemma_percent_encoded_concat(seq![b1], seq![b2]);
            lemma_percent_encoded_concat(seq![b1] + seq![b2], seq![b3]);
            assert(seq![b1] + seq![b2] + seq![b3] =~= e);
            reveal_with_fuel(percent_encoded, 2);
            assert(seq![b1].drop_last() =~= Seq::<u8>::empty());
            assert(seq![b2].drop_last() =~= Seq::<u8>::empty());
            assert(seq![b3].drop_last() =~= Seq::<u8>::empty());
        }
        push_byte_escaped(r, b1);
        push_byte_escaped(r, b2);
        push_byte_escaped(r, b3);
    } else {
        let b1 = 0xF0 | ((cp >> 18) & 0x7) as u8;
        let b2 = 0x80 | ((cp >> 12) & 0x3F) as u8;
        let b3 = 0x80 | ((cp >> 6) & 0x3F) as u8;
        let b4 = 0x80 | (cp & 0x3F) as u8;
        proof {
            assert(b1 >= 0x80 && b2 >= 0x80 && b3 >= 0x80 && b4 >= 0x80) by (bit_vector)
                requires
                    b1 == 0xF0 | ((cp >> 18) & 0x7) as u8,
                    b2 == 0x80 | ((cp >> 12) & 0x3F) as u8,
                    b3 == 0x80 | ((cp >> 6) & 0x3F) as u8,
                    b4 == 0x80 | (cp & 0x3F) as u8;
            vstd::utf8::char_is_scalar(c);
            assert(e =~= seq![b1, b2, b3, b4]);
            lemma_percent_encoded_concat(seq![b1], seq![b2]);
            lemma_percent_encoded_concat(seq![b1] + seq![b2], seq![b3]);
            lemma_percent_encoded_concat(seq![b1] + seq![b2] + seq![b3], seq![b4]);
            assert(seq![b1] + seq![b2] + seq![b3] + seq![b4] =~= e);
            reveal_with_fuel(percent_encoded, 2);
            assert(seq![b1].drop_last() =~= Seq::<u8>::empty());
            assert(seq![b2].drop_last() =~= Seq::<u8>::empty());
            assert(seq![b3].drop_last() =~= Seq::<u8>::empty());
            assert(seq![b4].drop_last() =~= Seq::<u8>::empty());
        }
        push_byte_escaped(r, b1);
        push_byte_escaped(r, b2);
        push_byte_escaped(r, b3);
        push_byte_escaped(r, b4);
    }
}

/// Appends how `s` is written in a URI.
pub fn push_percent_encoded(r: &mut String, s: &str)
    ensures
        final(r)@ == old(r)@ + uri_text(s@),
{
    let n = s.unicode_len();
    let mut i: usize = 0;
    let ghost r0 = r@;
    proof {
        assert(s@.take(0) =~= Seq::<char>::empty());
        assert(vstd::utf8::encode_utf8(Seq::<char>::empty()) =~= Seq::<u8>::empty());
        assert(r0 + percent_encoded(Seq::<u8>::empty()) =~= r0);
    }
    while i < n
        invariant
            n == s@.len(),
            i <= n,
            r@ == r0 + uri_text(s@.take(i as int)),
        decreases n - i,
    {
        let ghost before = r@;
        push_char_encoded(r, s, i);
        proof {
            let c = s@[i as int];
            assert(s@.take(i + 1) =~= s@.take(i as int).push(c));
            lemma_encode_utf8_push(s@.take(i as int), c);
            lemma_percent_encoded_concat(vstd::utf8::encode_utf8(s@.take(i as int)),
                vstd::utf8::encode_scalar(c as u32));
        }
        i = i + 1;
    }
    proof {
        assert(s@.take(n as int) =~= s@);
    }
}

/// The percent-encoded form of `s`.
pub fn percent_encode(s: &str) -> (r: String)
    ensures
        r@ == uri_text(s@),
{
    let mut r = String::new();
    push_percent_encoded(&mut r, s);
    r
}

/// A text of ASCII characters none of which must be escaped is written in a
/// URI as it is.
pub proof fn lemma_plain_text_unchanged(s: Seq<char>)
    requires
        forall|i: int| 0 <= i < s.len() ==> (#[trigger] s[i] as u32) < 0x80 && !must_escape(s[i] as u32 as u8),
    ensures
        uri_text(s) == s,
    decreases s.len(),
{
    if s.len() == 0 {
        assert(vstd::utf8::encode_utf8(s) =~= Seq::<u8>::empty());
    } else {
        let t = s.drop_last();
        let c = s.last();
        assert forall|i: int| 0 <= i < t.len() implies (#[trigger] t[i] as u32) < 0x80
            && !must_escape(t[i] as u32 as u8) by {
            assert(t[i] == s[i]);
        }
        lemma_plain_text_unchanged(t);
        assert(s =~= t.push(c));
        lemma_encode_utf8_push(t, c);
        let cp = c as u32;
        assert(cp < 0x80);
        assert(cp & 0x7F == cp) by (bit_vector)
            requires
                cp < 0x80;
        let b = cp as u8;
        assert(b as u32 == cp) by (bit_vector)
            requires
                cp < 0x80,
                b == cp as u8;
        assert(vstd::utf8::encode_scalar(cp) =~= seq![b]);
        lemma_percent_encoded_concat(vstd::utf8::encode_utf8(t), seq![b]);
        reveal_with_fuel(percent_encoded, 2);
        assert(seq![b].drop_last() =~= Seq::<u8>::empty());
        assert(percent_encoded(seq![b]) =~= seq![b as char]);
        vstd::utf8::char_u32_cast(c, b as u32);
        assert(b as char == c);
        assert(t + seq![c] =~= s);
    }
}

/// How one parameter is written in the query of a URI: `name=value`.
pub open spec fn query_pair(p: (Seq<char>, Seq<char>)) -> Seq<char> {
    uri_text(p.0) + "="@ + uri_text(p.1)
}

/// How the parameters are written in the query of a URI, joined by `&`.
pub open spec fn query_text(params: Seq<(Seq<char>, Seq<char>)>) -> Seq<char>
    decreases params.len(),
{
    if params.len() == 0 {
        Seq::empty()
    } else if params.len() == 1 {
        query_pair(params[0])
    } else {
        query_text(params.drop_last()) + "&"@ + query_pair(params.last())
    }
}

/// The URI of a request with the path `path` and the parameters `params` to
/// the data source `ds`: protocol, host and port, the database if one is
/// chosen, the path, and the query if there are parameters.
pub open spec fn request_uri_text(ds: DataSourceView, path: Seq<char>, params: Seq<(Seq<char>, Seq<char>)>)
    -> Seq<char> {
    ds.protocol + "://"@ + ds.host + ":"@ + decimal_text(ds.port as nat)
        + match ds.database_name { Some(db) => PATH_DB@ + uri_text(db), None => Seq::empty() }
        + uri_text(path)
        + if params.len() == 0 { Seq::empty() } else { "?"@ + query_text(params) }
}

/// The URI of a request with the path `path` and the parameters `params` to
/// the data source `datasource`.
pub fn request_uri(datasource: &DataSource, path: &str, params: &Parameters) -> (r: String)
    ensures
        r@ == request_uri_text(datasource@, path@, params@),
{
    let mut r = String::new();
    r.append(datasource.protocol());
    r.append("://");
    r.append(datasource.host());
    r.append(":");
    let port = u64_to_text(datasource.port() as u64);
    r.append(port.as_str());
    let ghost head = r@;
    match datasource.database_name() {
        Some(db) => {
            r.append(PATH_DB);
            push_percent_encoded(&mut r, db.as_str());
        },
        None => {},
    }
    let ghost with_db = r@;
    push_percent_encoded(&mut r, path);
    let ghost with_path = r@;
    let n = params.len();
    if n > 0 {
        r.append("?");
        let ghost q0 = r@;
        let mut i: usize = 0;
        while i < n
            invariant
                n == params@.len(),
                n > 0,
                i <= n,
                r@ == q0 + query_text(params@.take(i as int)),
            decreases n - i,
        {
            let pair = params.get(i);
            if i > 0 {
                r.append("&");
            }
            push_percent_encoded(&mut r, pair.0.as_str());
            r.append("=");
            push_percent_encoded(&mut r, pair.1.as_str());
            proof {
                let t = params@.take(i + 1);
                assert(t.drop_last() =~= params@.take(i as int));
                assert(t.last() == params@[i as int]);
                if i == 0 {
                    assert(params@.take(0) =~= Seq::<(Seq<char>, Seq<char>)>::empty());
                    assert(t.len() == 1);
                }
            }
            i = i + 1;
        }
        proof {
            assert(params@.take(n as int) =~= params@);
        }
    }
    proof {
        assert(r@ =~= request_uri_text(datasource@, path@, params@));
    }
    r
}

/// The URI of the request `prepare` to the data source `datasource`, built
/// from the path and the parameters that `prepare` gives.
pub fn build_request_uri<P: Prepare>(datasource: &DataSource, prepare: &P) -> (r: String)
    ensures
        exists|path: String, params: Parameters|
            call_ensures(P::path, (prepare,), path) && call_ensures(P::parameters, (prepare,), params)
            && r@ == request_uri_text(datasource@, path@, params@),
{
    let path = prepare.path();
    let params = prepare.parameters();
    let r = request_uri(datasource, path.as_str(), &params);
    assert(call_ensures(P::path, (prepare,), path) && call_ensures(P::parameters, (prepare,), params)
        && r@ == request_uri_text(datasource@, path@, params@));
    r
}

/// The user agent a connection announces itself with.
pub const DEFAULT_USER_AGENT: &'static str = "Mozilla/5.0 (compatible; ArangoDB-RustDriver/1.1)";

/// The message for a request that needs a token before the client logged in.
pub const NOT_AUTHENTICATED: &'static str = "the client must be authenticated first, when using JWT authentication";

/// The name of the HTTP method that performs an operation.
pub open spec fn http_method_name(operation: Operation) -> Seq<char> {
    match operation {
        Operation::Create => "POST"@,
        Operation::Read => "GET"@,
        Operation::Modify => "PATCH"@,
        Operation::Replace => "PUT"@,
        Operation::Delete => "DELETE"@,
        Operation::ReadHeader => "HEAD"@,
    }
}

/// Creating is done by `POST`, reading by `GET`, modifying by `PATCH`,
/// replacing by `PUT`, deleting by `DELETE` and reading the header alone by
/// `HEAD`.
pub proof fn lemma_http_method_names()
    ensures
        http_method_name(Operation::Create) == "POST"@,
        http_method_name(Operation::Read) == "GET"@,
        http_method_name(Operation::Modify) == "PATCH"@,
        http_method_name(Operation::Replace) == "PUT"@,
        http_method_name(Operation::Delete) == "DELETE"@,
        http_method_name(Operation::ReadHeader) == "HEAD"@,
{
}

/// The HTTP method that performs `operation`.
pub fn http_method_for_operation(operation: &Operation) -> (r: &'static str)
    ensures
        r@ == http_method_name(*operation),
{
    match *operation {
        Operation::Create => "POST",
        Operation::Read => "GET",
        Operation::Modify => "PATCH",
        Operation::Replace => "PUT",
        Operation::Delete => "DELETE",
        Operation::ReadHeader => "HEAD",
    }
}

/// The authorization a request carries.
#[derive(Clone, Debug, PartialEq, Eq)]
pub enum AuthorizationHeader {
    /// Basic authorization with a username and a password.
    Basic { username: String, password: String },
    /// A token obtained by logging in.
    Bearer(String),
    /// No authorization.
    NoHeader,
}

/// The authorization a request carries for the authentication of its data
/// source: basic credentials as they are, the token of the login for a
/// token authentication, which fails where the client has not logged in yet,
/// and none where the data source asks for none.
pub fn authorization_header(authentication: &Authentication, token: Option<&String>)
    -> (r: Result<AuthorizationHeader, String>)
    ensures
        match authentication@ {
            AuthenticationView::Basic(u, p) =>
                r matches Ok(AuthorizationHeader::Basic { username, password }) && username@ == u && password@ == p,
            AuthenticationView::Jwt(_, _) => match token {
                Some(t) => r matches Ok(AuthorizationHeader::Bearer(b)) && b@ == t@,
                None => r matches Err(msg) && msg@ == NOT_AUTHENTICATED@,
            },
            AuthenticationView::NoAuthentication => r == Ok::<AuthorizationHeader, String>(AuthorizationHeader::NoHeader),
        },
{
    match authentication {
        Authentication::Basic(credentials) => Ok(AuthorizationHeader::Basic {
            username: credentials.username().to_owned(),
            password: credentials.password().to_owned(),
        }),
        Authentication::Jwt(_) => match token {
            Some(t) => Ok(AuthorizationHeader::Bearer(t.clone())),
            None => Err(NOT_AUTHENTICATED.to_owned()),
        },
        Authentication::NoAuthentication => Ok(AuthorizationHeader::NoHeader),
    }
}

/// Whether an HTTP status code reports success: 200 to 299.
pub fn is_success(status_code: u16) -> (r: bool)
    ensures
        r == (200 <= status_code < 300),
{
    200 <= status_code && status_code < 300
}

/// The error for an answer that failed with `status_code` and whose body,
/// read as text, is no error the server describes: the error code of the
/// status code, with the body as its message, or the code's description
/// where the body is empty.
pub fn fallback_error(status_code: u16, body: &str) -> (r: Error)
    ensures
        r.status_code_spec() == status_code,
        r.error_code_spec() == error_code_of(status_code),
        r.message_view() == (if body@.len() == 0 {
            error_code_description(error_code_of(status_code))
        } else {
            body@
        }),
{
    let error_code = ErrorCode::from_u16(status_code);
    if body.unicode_len() == 0 {
        let message = error_code.description();
        Error::new(status_code, error_code, message)
    } else {
        Error::new(status_code, error_code, body)
    }
}

} // verus!
