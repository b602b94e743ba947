//! Names used by the ArangoDB protocol and the grammar of entity handles.
//!
//! A handle names an entity either by its key alone (`key`) or qualified by
//! the context it lives in (`context/key`). Neither part may be empty or hold
//! a `/`.

use vstd::prelude::*;
use vstd::std_specs::convert::FromSpecImpl;

verus! {

pub const FIELD_CODE: &'static str = "code";
pub const FIELD_EDGE_DEFINITIONS: &'static str = "edgeDefinitions";
pub const FIELD_ENTITY_ID: &'static str = "_id";
pub const FIELD_ENTITY_KEY: &'static str = "_key";
pub const FIELD_ENTITY_REVISION: &'static str = "_rev";
pub const FIELD_ENTITY_NEW: &'static str = "new";
pub const FIELD_ENTITY_OLD: &'static str = "old";
pub const FIELD_ENTITY_OLD_REVISION: &'static str = "_oldRev";
pub const FIELD_ERROR: &'static str = "error";
pub const FIELD_ERROR_MESSAGE: &'static str = "errorMessage";
pub const FIELD_ERROR_NUMBER: &'static str = "errorNum";
pub const FIELD_GRAPH: &'static str = "graph";
pub const FIELD_GRAPHS: &'static str = "graphs";
pub const FIELD_ID: &'static str = "id";
pub const FIELD_IS_SMART: &'static str = "isSmart";
pub const FIELD_NAME: &'static str = "name";
pub const FIELD_NUMBER_OF_SHARDS: &'static str = "numberOfShards";
pub const FIELD_ORPHAN_COLLECTIONS: &'static str = "orphanCollections";
pub const FIELD_REMOVED: &'static str = "removed";
pub const FIELD_REPLICATION_FACTOR: &'static str = "replicationFactor";
pub const FIELD_RESULT: &'static str = "result";
pub const FIELD_SMART_GRAPH_ATTRIBUTE: &'static str = "smartGraphAttribute";

pub const HEADER_IF_MATCH: &'static str = "If-Match";
pub const HEADER_IF_NON_MATCH: &'static str = "If-None-Match";

pub const PARAM_COLLECTION: &'static str = "collection";
pub const PARAM_DETAILS: &'static str = "details";
pub const PARAM_EXCLUDE_SYSTEM: &'static str = "excludeSystem";
pub const PARAM_IGNORE_REVISIONS: &'static str = "ignoreRevs";
pub const PARAM_KEEP_NULL: &'static str = "keepNull";
pub const PARAM_MERGE_OBJECTS: &'static str = "mergeObjects";
pub const PARAM_RETURN_NEW: &'static str = "returnNew";
pub const PARAM_RETURN_OLD: &'static str = "returnOld";
pub const PARAM_SILENT: &'static str = "silent";
pub const PARAM_WAIT_FOR_SYNC: &'static str = "waitForSync";
pub const PARAM_WAIT_FOR_SYNC_REPLICATION: &'static str = "waitForSyncReplication";

pub const PATH_ADMIN: &'static str = "/_admin";
pub const PATH_API_COLLECTION: &'static str = "/_api/collection";
pub const PATH_API_CURSOR: &'static str = "/_api/cursor";
pub const PATH_API_DATABASE: &'static str = "/_api/database";
pub const PATH_API_DOCUMENT: &'static str = "/_api/document";
pub const PATH_API_EXPLAIN: &'static str = "/_api/explain";
pub const PATH_API_GHARIAL: &'static str = "/_api/gharial";
pub const PATH_API_INDEX: &'static str = "/_api/index";
pub const PATH_API_QUERY: &'static str = "/_api/query";
pub const PATH_API_USER: &'static str = "/_api/user";
pub const PATH_API_VERSION: &'static str = "/_api/version";
pub const PATH_OPEN_AUTH: &'static str = "/_open/auth";

pub const PATH_CURRENT: &'static str = "current";
pub const PATH_DATABASE: &'static str = "database";
pub const PATH_DB: &'static str = "/_db/";
pub const PATH_PROPERTIES: &'static str = "properties";
pub const PATH_RENAME: &'static str = "rename";
pub const PATH_TARGET_VERSION: &'static str = "target-version";
pub const PATH_USER: &'static str = "user";

pub const VALUE_TRUE: &'static str = "true";
pub const VALUE_ZERO: &'static str = "0";

/// No character of `s` is a `/`.
pub open spec fn no_slash(s: Seq<char>) -> bool {
    forall|i: int| 0 <= i < s.len() ==> s[i] != '/'
}

/// A well-formed part of a handle: not empty and free of `/`.
pub open spec fn is_handle_part(s: Seq<char>) -> bool {
    s.len() > 0 && no_slash(s)
}

/// `v` is `context/key` with the `/` at position `i` and both parts well-formed.
pub open spec fn splits_at(v: Seq<char>, i: int) -> bool {
    &&& 0 <= i < v.len()
    &&& v[i] == '/'
    &&& is_handle_part(v.take(i))
    &&& is_handle_part(v.skip(i + 1))
}

/// `v` is a qualified handle `context/key`.
pub open spec fn is_qualified_handle(v: Seq<char>) -> bool {
    exists|i: int| splits_at(v, i)
}

/// The text of a qualified handle with the given parts.
pub open spec fn handle_text(context: Seq<char>, key: Seq<char>) -> Seq<char> {
    context + "/"@ + key
}

/// What a handle text is read as: `Some((Some(context), key))` for
/// `context/key`, `Some((None, key))` for a bare key and `None` for any text
/// that is neither.
pub open spec fn parse_handle(v: Seq<char>) -> Option<(Option<Seq<char>>, Seq<char>)> {
    if is_handle_part(v) {
        Some((None, v))
    } else if is_qualified_handle(v) {
        let i = choose|i: int| splits_at(v, i);
        Some((Some(v.take(i)), v.skip(i + 1)))
    } else {
        None
    }
}

/// The text that Rust's `Debug` formatting gives for a string slice: the
/// characters between double quotes, with quotes, backslashes and control
/// characters escaped.
pub uninterp spec fn debug_text(s: Seq<char>) -> Seq<char>;

/// Formats `s` with `<str as Debug>::fmt`, as `format!("{:?}", s)` does.
/// The result is named by `debug_text`; its exact escaping rules are not
/// stated here.
#[verifier::external_body]
pub(crate) fn debug_string(s: &str) -> (r: String)
    ensures
        r@ == debug_text(s@),
{
    format!("{:?}", s)
}

/// Concatenates three texts.
pub fn concat3(a: &str, b: &str, c: &str) -> (r: String)
    ensures
        r@ == a@ + b@ + c@,
{
    let mut r = a.to_owned();
    r.append(b);
    r.append(c);
    r
}

/// The message for a text that is not a handle at all.
pub open spec fn invalid_handle_message(handle_name: Seq<char>, value: Seq<char>) -> Seq<char> {
    "Invalid "@ + handle_name + ": "@ + debug_text(value)
}

/// The message for a bare key where a qualified handle is required.
pub open spec fn missing_context_message(handle_name: Seq<char>, value: Seq<char>) -> Seq<char> {
    handle_name + " does not have a context: "@ + debug_text(value)
}

/// The message for a key that holds a `/`.
pub open spec fn slash_in_key_message(handle_name: Seq<char>, value: Seq<char>) -> Seq<char> {
    "A "@ + handle_name + " key must not contain any '/' character, but got: "@ + debug_text(value)
}

/// Finds the first `/` in `s`.
pub fn find_slash(s: &str) -> (r: Option<usize>)
    ensures
        match r {
            Some(i) => i < s@.len() && s@[i as int] == '/' && no_slash(s@.take(i as int)),
            None => no_slash(s@),
        },
{
    let n = s.unicode_len();
    let mut i: usize = 0;
    while i < n
        invariant
            n == s@.len(),
            i <= n,
            no_slash(s@.take(i as int)),
        decreases n - i,
    {
        if s.get_char(i) == '/' {
            return Some(i);
        }
        assert(s@.take(i + 1) =~= s@.take(i as int).push(s@[i as int]));
        i = i + 1;
    }
    assert(s@.take(n as int) =~= s@);
    None
}

/// Whether `s` holds a `/`.
pub fn contains_slash(s: &str) -> (b: bool)
    ensures
        b == !no_slash(s@),
{
    match find_slash(s) {
        Some(_) => true,
        None => false,
    }
}

proof fn lemma_split_unique(v: Seq<char>, i: int, j: int)
    requires
        splits_at(v, i),
        0 <= j < v.len(),
        v[j] == '/',
        no_slash(v.take(j)),
    ensures
        i == j,
{
    if j < i {
        assert(v.take(i)[j] == v[j]);
    } else if i < j {
        assert(v.take(j)[i] == v[i]);
    }
}

/// Splits `v` as a handle: the context, if there is one, and the key.
fn split_handle(v: &str) -> (r: Option<(Option<String>, String)>)
    ensures
        match r {
            Some((c, k)) => parse_handle(v@) == Some((
                match c { Some(c) => Some(c@), None => None::<Seq<char>> }, k@)),
            None => parse_handle(v@) is None,
        },
{
    let n = v.unicode_len();
    match find_slash(v) {
        None => {
            if n == 0 {
                None
            } else {
                Some((None, v.to_owned()))
            }
        },
        Some(i) => {
            let rest = v.substring_char(i + 1, n);
            let context = v.substring_char(0, i);
            assert(rest@ =~= v@.skip(i + 1));
            assert(context@ =~= v@.take(i as int));
            proof {
                if is_qualified_handle(v@) {
                    let j = choose|j: int| splits_at(v@, j);
                    lemma_split_unique(v@, j, i as int);
                }
            }
            if i == 0 || rest.unicode_len() == 0 || contains_slash(rest) {
                assert(!is_qualified_handle(v@));
                None
            } else {
                assert(splits_at(v@, i as int));
                Some((Some(context.to_owned()), rest.to_owned()))
            }
        },
    }
}

/// A handle that may or may not name its context.
#[derive(Clone, Debug, PartialEq, Eq, Hash)]
pub enum HandleOption {
    Qualified(Handle),
    Local(HandleKey),
}

/// A handle of the form `context/key`.
#[derive(Clone, Debug, PartialEq, Eq, Hash)]
pub struct Handle {
    context: String,
    key: String,
}

/// The key part of a handle.
#[derive(Clone, Debug, PartialEq, Eq, Hash)]
pub struct HandleKey(String);

impl Handle {
    pub closed spec fn context_view(&self) -> Seq<char> {
        self.context@
    }

    pub closed spec fn key_view(&self) -> Seq<char> {
        self.key@
    }

    /// Reads a qualified handle `context/key`. A bare key is refused with a
    /// message saying the context is missing; any other text is refused as
    /// invalid.
    pub fn from_str(handle_name: &str, value: &str) -> (r: Result<Self, String>)
        ensures
            match r {
                Ok(h) => parse_handle(value@) == Some((Some(h.context_view()), h.key_view())),
                Err(msg) => match parse_handle(value@) {
                    Some((None, _)) => msg@ == missing_context_message(handle_name@, value@),
                    None => msg@ == invalid_handle_message(handle_name@, value@),
                    Some((Some(_), _)) => false,
                },
            },
    {
        match split_handle(value) {
            Some((Some(context), key)) => {
                let h = Handle { context, key };
                assert(h.context_view() == context@);
                Ok(h)
            },
            Some((None, _)) => {
                let quoted = debug_string(value);
                Err(concat3(handle_name, " does not have a context: ", quoted.as_str()))
            },
            None => {
                let quoted = debug_string(value);
                let mut msg = concat3("Invalid ", handle_name, ": ");
                msg.append(quoted.as_str());
                Err(msg)
            },
        }
    }

    /// Gives up the handle for its context and its key.
    pub fn deconstruct(self) -> (r: (String, String))
        ensures
            r.0@ == self.context_view(),
            r.1@ == self.key_view(),
    {
        (self.context, self.key)
    }

    /// The handle's text, `context/key`.
    pub fn to_string(&self) -> (r: String)
        ensures
            r@ == handle_text(self.context_view(), self.key_view()),
    {
        concat3(self.context.as_str(), "/", self.key.as_str())
    }
}

impl HandleKey {
    pub closed spec fn key_view(&self) -> Seq<char> {
        self.0@
    }

    /// Gives up the key for its text.
    pub fn deconstruct(self) -> (r: String)
        ensures
            r@ == self.key_view(),
    {
        self.0
    }

    /// Accepts `value` as a key unless it holds a `/`.
    pub fn from_string(handle_name: &str, value: String) -> (r: Result<Self, String>)
        ensures
            no_slash(value@) <==> r is Ok,
            r matches Ok(k) ==> k.key_view() == value@,
            r matches Err(msg) ==> msg@ == slash_in_key_message(handle_name@, value@),
    {
        if contains_slash(value.as_str()) {
            let quoted = debug_string(value.as_str());
            let mut msg = concat3("A ", handle_name, " key must not contain any '/' character, but got: ");
            msg.append(quoted.as_str());
            Err(msg)
        } else {
            Ok(HandleKey(value))
        }
    }
}

impl HandleOption {
    /// Reads a handle that may be qualified (`context/key`) or a bare key.
    pub fn from_str(handle_name: &str, value: &str) -> (r: Result<HandleOption, String>)
        ensures
            match r {
                Ok(HandleOption::Qualified(h)) =>
                    parse_handle(value@) == Some((Some(h.context_view()), h.key_view())),
                Ok(HandleOption::Local(k)) => parse_handle(value@) == Some((None::<Seq<char>>, k.key_view())),
                Err(msg) => parse_handle(value@) is None
                    && msg@ == invalid_handle_message(handle_name@, value@),
            },
    {
        match split_handle(value) {
            Some((Some(context), key)) => Ok(HandleOption::Qualified(Handle { context, key })),
            Some((None, key)) => Ok(HandleOption::Local(HandleKey(key))),
            None => {
                let quoted = debug_string(value);
                let mut msg = concat3("Invalid ", handle_name, ": ");
                msg.append(quoted.as_str());
                Err(msg)
            },
        }
    }
}

impl From<Handle> for HandleOption {
    fn from(handle: Handle) -> (r: Self) {
        HandleOption::Qualified(handle)
    }
}

impl FromSpecImpl<Handle> for HandleOption {
    open spec fn obeys_from_spec() -> bool {
        true
    }

    open spec fn from_spec(v: Handle) -> Self {
        HandleOption::Qualified(v)
    }
}

impl From<HandleKey> for HandleOption {
    fn from(handle_key: HandleKey) -> (r: Self) {
        HandleOption::Local(handle_key)
    }
}

impl FromSpecImpl<HandleKey> for HandleOption {
    open spec fn obeys_from_spec() -> bool {
        true
    }

    open spec fn from_spec(v: HandleKey) -> Self {
        HandleOption::Local(v)
    }
}

/// Reading the text of a qualified handle gives back its parts: `to_string`
/// and `from_str` undo each other.
pub proof fn lemma_handle_text_parses(context: Seq<char>, key: Seq<char>)
    requires
        is_handle_part(context),
        is_handle_part(key),
    ensures
        parse_handle(handle_text(context, key)) == Some((Some(context), key)),
{
    reveal_strlit("/");
    let v = handle_text(context, key);
    let i = context.len() as int;
    assert(v.take(i) =~= context);
    assert(v.skip(i + 1) =~= key);
    assert(splits_at(v, i));
    assert(!no_slash(v));
    let j = choose|j: int| splits_at(v, j);
    lemma_split_unique(v, i, j);
}

/// A bare key is read back as itself.
pub proof fn lemma_key_parses(key: Seq<char>)
    requires
        is_handle_part(key),
    ensures
        parse_handle(key) == Some((None::<Seq<char>>, key)),
{
}

} // verus!
