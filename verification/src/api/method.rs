//! What a request method is made of: its operation, path, parameters and
//! headers, and the envelope that a result arrives in.

use vstd::prelude::*;
use crate::api::arg::IntoText;

verus! {

/// The kind of HTTP operation a request method performs.
#[derive(Clone, Copy, Debug, PartialEq, Eq)]
pub enum Operation {
    Create,
    Read,
    Modify,
    Replace,
    Delete,
    ReadHeader,
}

/// Where in the server's answer the result and the status code are found.
#[derive(Clone, Copy, Debug, PartialEq, Eq)]
pub struct RpcReturnType {
    pub result_field: Option<&'static str>,
    pub code_field: Option<&'static str>,
}

/// The result envelope that the server answers with.
#[derive(Debug, PartialEq, Eq)]
pub struct Result<T> {
    error: bool,
    code: ResultCode,
    result: T,
}

pub type ResultCode = i32;

impl<T> Result<T> {
    pub fn new(error: bool, code: ResultCode, result: T) -> (r: Self)
        ensures
            r.error_spec() == error,
            r.code_spec() == code,
            r.result_spec() == result,
    {
        Result { error, code, result }
    }

    pub closed spec fn error_spec(&self) -> bool {
        self.error
    }

    pub closed spec fn code_spec(&self) -> ResultCode {
        self.code
    }

    pub closed spec fn result_spec(&self) -> T {
        self.result
    }

    pub fn is_error(&self) -> (r: bool)
        ensures
            r == self.error_spec(),
    {
        self.error
    }

    pub fn code(&self) -> (r: ResultCode)
        ensures
            r == self.code_spec(),
    {
        self.code
    }

    pub fn result(&self) -> (r: &T)
        ensures
            *r == self.result_spec(),
    {
        &self.result
    }
}

/// A list of name/value pairs for the query string or the header of a
/// request, in the order they were added.
#[derive(Clone, Debug, PartialEq, Eq)]
pub struct Parameters {
    list: Vec<(String, String)>,
}

/// The text of one name/value pair as it is displayed: `name=value`.
pub open spec fn param_text(p: (Seq<char>, Seq<char>)) -> Seq<char> {
    p.0 + "="@ + p.1
}

/// The pairs joined by `, `.
pub open spec fn params_joined(s: Seq<(Seq<char>, Seq<char>)>) -> Seq<char>
    decreases s.len(),
{
    if s.len() == 0 {
        Seq::empty()
    } else if s.len() == 1 {
        param_text(s[0])
    } else {
        params_joined(s.drop_last()) + ", "@ + param_text(s.last())
    }
}

/// The list `s` with the pair `name=value` appended where `c` holds.
pub open spec fn with_param_if(s: Seq<(Seq<char>, Seq<char>)>, c: bool, name: Seq<char>, value: Seq<char>)
    -> Seq<(Seq<char>, Seq<char>)> {
    if c {
        s.push((name, value))
    } else {
        s
    }
}

/// The list `s` with the pair `name=value` appended where a value is given.
pub open spec fn with_param_opt(s: Seq<(Seq<char>, Seq<char>)>, name: Seq<char>, value: Option<Seq<char>>)
    -> Seq<(Seq<char>, Seq<char>)> {
    match value {
        Some(v) => s.push((name, v)),
        None => s,
    }
}

/// How a list of parameters is displayed: `Parameters[a=1, b=2]`.
pub open spec fn params_display(s: Seq<(Seq<char>, Seq<char>)>) -> Seq<char> {
    "Parameters["@ + params_joined(s) + "]"@
}

impl View for Parameters {
    type V = Seq<(Seq<char>, Seq<char>)>;

    closed spec fn view(&self) -> Seq<(Seq<char>, Seq<char>)> {
        self.list@.map_values(|p: (String, String)| (p.0@, p.1@))
    }
}

impl Parameters {
    /// An empty list of parameters.
    pub fn empty() -> (r: Self)
        ensures
            r@ == Seq::<(Seq<char>, Seq<char>)>::empty(),
    {
        let r = Parameters { list: Vec::new() };
        assert(r@ =~= Seq::<(Seq<char>, Seq<char>)>::empty());
        r
    }

    /// An empty list of parameters.
    pub fn new() -> (r: Self)
        ensures
            r@ == Seq::<(Seq<char>, Seq<char>)>::empty(),
    {
        Parameters::empty()
    }

    /// An empty list of parameters with room for `capacity` pairs.
    pub fn with_capacity(capacity: usize) -> (r: Self)
        ensures
            r@ == Seq::<(Seq<char>, Seq<char>)>::empty(),
    {
        let r = Parameters { list: Vec::with_capacity(capacity) };
        assert(r@ =~= Seq::<(Seq<char>, Seq<char>)>::empty());
        r
    }

    pub fn is_empty(&self) -> (r: bool)
        ensures
            r == (self@.len() == 0),
    {
        self.list.len() == 0
    }

    /// The number of pairs.
    pub fn len(&self) -> (r: usize)
        ensures
            r == self@.len(),
    {
        self.list.len()
    }

    /// The pair at position `i`.
    pub fn get(&self, i: usize) -> (r: &(String, String))
        requires
            i < self@.len(),
        ensures
            (r.0@, r.1@) == self@[i as int],
    {
        &self.list[i]
    }

    /// Walks the pairs in the order they were added.
    pub fn iter(&self) -> (r: ParameterIter<'_>)
        ensures
            r.remaining() == self@,
    {
        let r = ParameterIter { list: self.list.as_slice(), pos: 0 };
        assert(r.remaining() =~= self@);
        r
    }

    /// Appends the pair `name=value`.
    pub fn push<K: IntoText, V: IntoText>(&mut self, name: K, value: V)
        ensures
            final(self)@ == old(self)@.push((name.text_view(), value.text_view())),
    {
        let name = name.into_text();
        let value = value.into_text();
        self.list.push((name, value));
        assert(self@ =~= old(self)@.push((name@, value@)));
    }

    /// Appends the pair `name=value`; the value is written as its text.
    pub fn insert<K: IntoText, V: IntoText>(&mut self, name: K, value: V)
        ensures
            final(self)@ == old(self)@.push((name.text_view(), value.text_view())),
    {
        self.push(name, value)
    }

    /// The display text of the list, `Parameters[name=value, ...]`.
    pub fn to_string(&self) -> (r: String)
        ensures
            r@ == params_display(self@),
    {
        let mut display = String::new();
        display.append("Parameters[");
        let n = self.list.len();
        let mut i: usize = 0;
        let ghost s = self@;
        while i < n
            invariant
                n == self.list.len(),
                s == self@,
                s.len() == n,
                i <= n,
                display@ == "Parameters["@ + params_joined(s.take(i as int)),
            decreases n - i,
        {
            let pair = &self.list[i];
            if i > 0 {
                display.append(", ");
            }
            display.append(pair.0.as_str());
            display.append("=");
            display.append(pair.1.as_str());
            proof {
                let t = s.take(i + 1);
                assert(t.drop_last() =~= s.take(i as int));
                assert(t.last() == s[i as int]);
                if i == 0 {
                    reveal_with_fuel(params_joined, 2);
                    assert(params_joined(s.take(0)) =~= Seq::<char>::empty());
                }
            }
            i = i + 1;
        }
        display.append("]");
        assert(s.take(n as int) =~= s);
        display
    }
}

impl Default for Parameters {
    fn default() -> (r: Self)
        ensures
            r@ == Seq::<(Seq<char>, Seq<char>)>::empty(),
    {
        Parameters::empty()
    }
}

/// Walks the pairs of a `Parameters` list in order.
#[derive(Debug)]
pub struct ParameterIter<'a> {
    list: &'a [(String, String)],
    pos: usize,
}

impl<'a> ParameterIter<'a> {
    /// The pairs that are still to come.
    pub closed spec fn remaining(&self) -> Seq<(Seq<char>, Seq<char>)> {
        if self.pos <= self.list@.len() {
            self.list@.skip(self.pos as int).map_values(|p: (String, String)| (p.0@, p.1@))
        } else {
            Seq::empty()
        }
    }

    /// The next pair, if any is left.
    pub fn next(&mut self) -> (r: Option<&'a (String, String)>)
        ensures
            old(self).remaining().len() == 0 ==> r is None && final(self).remaining() == old(self).remaining(),
            old(self).remaining().len() > 0 ==> (r matches Some(p)
                && (p.0@, p.1@) == old(self).remaining()[0]
                && final(self).remaining() == old(self).remaining().drop_first()),
    {
        if self.pos < self.list.len() {
            let p = &self.list[self.pos];
            assert(old(self).remaining()[0] == (p.0@, p.1@));
            self.pos = self.pos + 1;
            assert(self.remaining() =~= old(self).remaining().drop_first());
            Some(p)
        } else {
            None
        }
    }

    /// The number of pairs still to come.
    pub fn len(&self) -> (r: usize)
        ensures
            r == self.remaining().len(),
    {
        if self.pos < self.list.len() {
            self.list.len() - self.pos
        } else {
            0
        }
    }
}

/// A request method: the type of its result and where the result is found
/// in the server's answer.
pub trait Method {
    type Result;

    fn return_type(&self) -> RpcReturnType;
}

/// What it takes to send a request method to the server.
pub trait Prepare {
    /// What the request carries as its body.
    type Content;

    fn operation(&self) -> Operation;

    fn path(&self) -> String;

    fn parameters(&self) -> Parameters;

    fn header(&self) -> Parameters;

    fn content(&self) -> Option<&Self::Content>;
}

} // verus!

verus! {

use crate::api::error_code::{ErrorCode, error_code_value, error_code_description};
use crate::api::text::{decimal_text, u64_to_text};

/// An error reported by the server.
#[derive(Clone, Debug, PartialEq, Eq)]
pub struct Error {
    status_code: u16,
    error_code: ErrorCode,
    message: String,
}

impl Error {
    pub closed spec fn status_code_spec(&self) -> u16 {
        self.status_code
    }

    pub closed spec fn error_code_spec(&self) -> ErrorCode {
        self.error_code
    }

    pub closed spec fn message_view(&self) -> Seq<char> {
        self.message@
    }

    pub fn new<M: IntoText>(status_code: u16, error_code: ErrorCode, message: M) -> (r: Self)
        ensures
            r.status_code_spec() == status_code,
            r.error_code_spec() == error_code,
            r.message_view() == message.text_view(),
    {
        Error { status_code, error_code, message: message.into_text() }
    }

    pub fn status_code(&self) -> (r: u16)
        ensures
            r == self.status_code_spec(),
    {
        self.status_code
    }

    pub fn error_code(&self) -> (r: ErrorCode)
        ensures
            r == self.error_code_spec(),
    {
        self.error_code
    }

    pub fn message(&self) -> (r: &str)
        ensures
            r@ == self.message_view(),
    {
        self.message.as_str()
    }

    /// The display text, `Error <code>: <message> (Status: <status>)`.
    pub fn to_string(&self) -> (r: String)
        ensures
            r@ == "Error "@ + decimal_text(error_code_value(self.error_code_spec()) as nat) + ": "@
                + self.message_view() + " (Status: "@ + decimal_text(self.status_code_spec() as nat) + ")"@,
    {
        let mut r = "Error ".to_owned();
        let code = u64_to_text(self.error_code.as_u16() as u64);
        r.append(code.as_str());
        r.append(": ");
        r.append(self.message.as_str());
        r.append(" (Status: ");
        let status = u64_to_text(self.status_code as u64);
        r.append(status.as_str());
        r.append(")");
        r
    }
}

} // verus!
