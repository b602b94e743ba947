//! What the server tells about itself: its version and the version its
//! databases are meant for.

use vstd::prelude::*;
use crate::api::arg::IntoText;
use crate::api::types::JsonString;

verus! {

/// The fields of a text separated by `.`, in order, as splitting the text at
/// each `.` yields them: there is always at least one, and two dots in a row
/// enclose an empty field.
pub open spec fn dot_fields(s: Seq<char>) -> Seq<Seq<char>>
    decreases s.len(),
{
    if s.len() == 0 {
        seq![Seq::<char>::empty()]
    } else {
        let fields = dot_fields(s.drop_last());
        if s.last() == '.' {
            fields.push(Seq::<char>::empty())
        } else {
            fields.update(fields.len() - 1, fields.last().push(s.last()))
        }
    }
}

proof fn lemma_dot_fields_not_empty(s: Seq<char>)
    ensures
        dot_fields(s).len() >= 1,
    decreases s.len(),
{
    if s.len() > 0 {
        lemma_dot_fields_not_empty(s.drop_last());
    }
}

/// Reading on past the end of a prefix only adds fields or extends its last
/// field: the fields before the last one stay as they are.
proof fn lemma_dot_fields_prefix(s: Seq<char>, i: int, j: int)
    requires
        0 <= i <= j <= s.len(),
    ensures
        dot_fields(s.take(i)).len() <= dot_fields(s.take(j)).len(),
        forall|k: int| 0 <= k < dot_fields(s.take(i)).len() - 1
            ==> #[trigger] dot_fields(s.take(j))[k] == dot_fields(s.take(i))[k],
    decreases j - i,
{
    if i < j {
        lemma_dot_fields_prefix(s, i, j - 1);
        let t = s.take(j);
        assert(t.drop_last() =~= s.take(j - 1));
        lemma_dot_fields_not_empty(s.take(j - 1));
        assert forall|k: int| 0 <= k < dot_fields(s.take(i)).len() - 1
            implies #[trigger] dot_fields(s.take(j))[k] == dot_fields(s.take(i))[k] by {
            assert(dot_fields(s.take(j - 1))[k] == dot_fields(s.take(i))[k]);
        }
    }
}

/// The fields joined by `.`.
pub open spec fn join_dots(fields: Seq<Seq<char>>) -> Seq<char>
    decreases fields.len(),
{
    if fields.len() <= 1 {
        if fields.len() == 1 { fields[0] } else { Seq::empty() }
    } else {
        join_dots(fields.drop_last()) + "."@ + fields.last()
    }
}

proof fn lemma_join_dots_extend_last(f: Seq<Seq<char>>, c: char)
    requires
        f.len() >= 1,
    ensures
        join_dots(f.update(f.len() - 1, f.last().push(c))) == join_dots(f).push(c),
{
    let g = f.update(f.len() - 1, f.last().push(c));
    if f.len() > 1 {
        assert(g.drop_last() =~= f.drop_last());
        assert(g.last() == f.last().push(c));
        assert(join_dots(f.drop_last()) + "."@ + f.last().push(c) =~= (join_dots(f.drop_last()) + "."@ + f.last()).push(c));
    }
}

/// Joining the fields of a text by `.` gives back the text.
pub proof fn lemma_dot_fields_join(s: Seq<char>)
    ensures
        join_dots(dot_fields(s)) == s,
    decreases s.len(),
{
    if s.len() == 0 {
        assert(dot_fields(s) =~= seq![Seq::<char>::empty()]);
        assert(s =~= Seq::<char>::empty());
    } else {
        let t = s.drop_last();
        let c = s.last();
        lemma_dot_fields_join(t);
        lemma_dot_fields_not_empty(t);
        let f = dot_fields(t);
        if c == '.' {
            let g = f.push(Seq::<char>::empty());
            assert(g.drop_last() =~= f);
            reveal_strlit(".");
            assert(join_dots(f) + "."@ + Seq::<char>::empty() =~= s);
        } else {
            lemma_join_dots_extend_last(f, c);
            assert(t.push(c) =~= s);
        }
    }
}

/// The field number `n` of `s`, counting from 0.
fn nth_dot_field(s: &str, n: usize) -> (r: &str)
    requires
        n < dot_fields(s@).len(),
    ensures
        r@ == dot_fields(s@)[n as int],
{
    let len = s.unicode_len();
    let mut i: usize = 0;
    let mut start: usize = 0;
    let mut count: usize = 0;
    proof {
        assert(s@.take(0) =~= Seq::<char>::empty());
    }
    while i < len
        invariant
            len == s@.len(),
            start <= i <= len,
            count <= n,
            n < dot_fields(s@).len(),
            dot_fields(s@.take(i as int)).len() == count + 1,
            dot_fields(s@.take(i as int)).last() == s@.subrange(start as int, i as int),
        decreases len - i,
    {
        let c = s.get_char(i);
        let ghost t = s@.take(i + 1);
        proof {
            assert(t.drop_last() =~= s@.take(i as int));
            assert(t.last() == c);
        }
        if c == '.' {
            if count == n {
                proof {
                    lemma_dot_fields_prefix(s@, i + 1, len as int);
                    assert(s@.take(len as int) =~= s@);
                    assert(dot_fields(t)[n as int] == dot_fields(s@.take(i as int)).last());
                }
                return s.substring_char(start, i);
            }
            count = count + 1;
            start = i + 1;
            proof {
                assert(s@.subrange(start as int, start as int) =~= Seq::<char>::empty());
            }
        } else {
            proof {
                assert(s@.subrange(start as int, i + 1) =~= s@.subrange(start as int, i as int).push(c));
            }
        }
        i = i + 1;
    }
    proof {
        assert(s@.take(len as int) =~= s@);
    }
    s.substring_char(start, len)
}

/// The version of the databases the server is meant for.
#[derive(Clone, Debug, PartialEq, Eq)]
pub struct TargetVersion {
    version: String,
}

impl View for TargetVersion {
    type V = Seq<char>;

    closed spec fn view(&self) -> Seq<char> {
        self.version@
    }
}

impl TargetVersion {
    pub fn new<V: IntoText>(version: V) -> (r: Self)
        ensures
            r@ == version.text_view(),
    {
        TargetVersion { version: version.into_text() }
    }

    pub fn version(&self) -> (r: &str)
        ensures
            r@ == self@,
    {
        self.version.as_str()
    }
}

/// The version of the server; its details, where they were asked for, are
/// kept as the JSON text they arrived in.
#[derive(Clone, Debug, PartialEq, Eq)]
pub struct ServerVersion {
    server: String,
    version: String,
    license: String,
    details: Option<JsonString>,
}

/// The content of a `ServerVersion`.
pub struct ServerVersionView {
    pub server: Seq<char>,
    pub version: Seq<char>,
    pub license: Seq<char>,
    pub details: Option<Seq<char>>,
}

impl View for ServerVersion {
    type V = ServerVersionView;

    closed spec fn view(&self) -> ServerVersionView {
        ServerVersionView {
            server: self.server@,
            version: self.version@,
            license: self.license@,
            details: match self.details { Some(d) => Some(d@), None => None },
        }
    }
}

impl ServerVersion {
    pub fn new<S: IntoText, V: IntoText, L: IntoText>(server: S, version: V, license: L,
        details: Option<JsonString>) -> (r: Self)
        ensures
            r@ == (ServerVersionView {
                server: server.text_view(),
                version: version.text_view(),
                license: license.text_view(),
                details: match details { Some(d) => Some(d@), None => None },
            }),
    {
        ServerVersion { server: server.into_text(), version: version.into_text(), license: license.into_text(), details }
    }

    /// The major version: the version up to its first `.`, or all of it.
    pub fn major(&self) -> (r: &str)
        ensures
            r@ == dot_fields(self@.version)[0],
    {
        proof { lemma_dot_fields_not_empty(self.version@); }
        nth_dot_field(self.version.as_str(), 0)
    }

    /// The minor version: the version between its first and its second `.`;
    /// the version must have a `.`.
    pub fn minor(&self) -> (r: &str)
        requires
            dot_fields(self@.version).len() > 1,
        ensures
            r@ == dot_fields(self@.version)[1],
    {
        nth_dot_field(self.version.as_str(), 1)
    }

    /// The sub version: the version between its second and its third `.`;
    /// the version must have two of them.
    pub fn sub(&self) -> (r: &str)
        requires
            dot_fields(self@.version).len() > 2,
        ensures
            r@ == dot_fields(self@.version)[2],
    {
        nth_dot_field(self.version.as_str(), 2)
    }

    pub fn server(&self) -> (r: &str)
        ensures
            r@ == self@.server,
    {
        self.server.as_str()
    }

    pub fn version(&self) -> (r: &str)
        ensures
            r@ == self@.version,
    {
        self.version.as_str()
    }

    pub fn license(&self) -> (r: &str)
        ensures
            r@ == self@.license,
    {
        self.license.as_str()
    }

    pub fn details(&self) -> (r: Option<&JsonString>)
        ensures
            match r { Some(d) => self@.details == Some(d@), None => self@.details is None },
    {
        self.details.as_ref()
    }
}

} // verus!
