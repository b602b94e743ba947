//! Statements: a request method together with what it takes to send it, its
//! operation, path, parameters and document.

use vstd::prelude::*;
use crate::api::text::str_eq;

verus! {

/// A request method, by the type of its result.
pub trait Method {
    type Result;
}

/// A request method that can be turned into a statement.
pub trait Prepare<M: Method> {
    fn prepare(self) -> PreparedStatement<M>;
}

/// The kind of operation a statement performs.
#[derive(Clone, Copy, Debug, PartialEq, Eq, Structural)]
pub enum Operation {
    Create,
    Read,
    Update,
    Delete,
}

/// Named parameters of a statement, each name with one value.
#[derive(Debug)]
pub struct Parameters {
    entries: Vec<(String, String)>,
}

/// The names of a list of entries, in order.
pub open spec fn entry_names(s: Seq<(String, String)>) -> Seq<Seq<char>> {
    s.map_values(|e: (String, String)| e.0@)
}

impl View for Parameters {
    type V = Map<Seq<char>, Seq<char>>;

    closed spec fn view(&self) -> Map<Seq<char>, Seq<char>> {
        Map::new(
            |k: Seq<char>| entry_names(self.entries@).contains(k),
            |k: Seq<char>| self.entries@[entry_names(self.entries@).index_of(k)].1@,
        )
    }
}

impl Parameters {
    /// No name is given twice.
    #[verifier::type_invariant]
    closed spec fn well_formed(self) -> bool {
        entry_names(self.entries@).no_duplicates()
    }

    /// Sets the parameter `name` to `value`, replacing a value it had.
    pub fn set_string(&mut self, name: String, value: String)
        ensures
            final(self)@ == old(self)@.insert(name@, value@),
    {
        proof { use_type_invariant(&*self); }
        let ghost old_entries = self.entries@;
        let mut entries: Vec<(String, String)> = Vec::new();
        std::mem::swap(&mut entries, &mut self.entries);
        let ghost names0 = entry_names(old_entries);
        match find_entry(&entries, name.as_str()) {
            Some(i) => {
                let ghost nv = name@;
                let ghost vv = value@;
                entries.set(i, (name, value));
                proof {
                    let names1 = entry_names(entries@);
                    assert(names1 =~= names0.update(i as int, nv));
                    assert(names0[i as int] == nv);
                    assert(names1 =~= names0);
                    let m0 = Map::new(|k: Seq<char>| names0.contains(k), |k: Seq<char>| old_entries[names0.index_of(k)].1@);
                    let m1 = Map::new(|k: Seq<char>| names1.contains(k), |k: Seq<char>| entries@[names1.index_of(k)].1@);
                    assert forall|k: Seq<char>| #[trigger] names1.contains(k) implies
                        m1[k] == m0.insert(nv, vv)[k] by {
                        let j = names1.index_of(k);
                        if k == nv {
                            assert(j == i) by {
                                assert(names1[i as int] == k);
                            }
                        } else {
                            assert(j != i);
                        }
                    }
                    assert(m1 =~= m0.insert(nv, vv));
                }
                self.entries = entries;
            }
            None => {
                let ghost nv = name@;
                let ghost vv = value@;
                entries.push((name, value));
                proof {
                    let names1 = entry_names(entries@);
                    assert(names1 =~= names0.push(nv));
                    assert forall|a: int, b: int| 0 <= a < b < names1.len() implies names1[a] != names1[b] by {
                        if b == names0.len() {
                            assert(names0[a] == names1[a]);
                            assert(names0.contains(names1[a]));
                        } else {
                            assert(names0[a] == names1[a]);
                            assert(names0[b] == names1[b]);
                        }
                    }
                    let m0 = Map::new(|k: Seq<char>| names0.contains(k), |k: Seq<char>| old_entries[names0.index_of(k)].1@);
                    let m1 = Map::new(|k: Seq<char>| names1.contains(k), |k: Seq<char>| entries@[names1.index_of(k)].1@);
                    assert forall|k: Seq<char>| #[trigger] m1.dom().contains(k) <==> m0.insert(nv, vv).dom().contains(k) by {
                        if names0.contains(k) {
                            let j = names0.index_of(k);
                            assert(names1[j] == k);
                        }
                        if names1.contains(k) && k != nv {
                            let j = names1.index_of(k);
                            assert(j < names0.len());
                            assert(names0[j] == k);
                        }
                        if k == nv {
                            assert(names1[names0.len() as int] == k);
                        }
                    }
                    assert forall|k: Seq<char>| #[trigger] m1.dom().contains(k) implies
                        m1[k] == m0.insert(nv, vv)[k] by {
                        let j = names1.index_of(k);
                        if k == nv {
                            assert(names1[names0.len() as int] == k);
                            assert(j == names0.len());
                        } else {
                            assert(j < names0.len());
                            assert(names0[j] == k);
                            let j0 = names0.index_of(k);
                            assert(j0 == j);
                        }
                    }
                    assert(m1 =~= m0.insert(nv, vv));
                }
                self.entries = entries;
            }
        }
    }

    /// Sets the parameter `name` to `value`, replacing a value it had.
    pub fn set_str(&mut self, name: &str, value: &str)
        ensures
            final(self)@ == old(self)@.insert(name@, value@),
    {
        self.set_string(name.to_owned(), value.to_owned())
    }
}

/// The position of the entry named `name`, if there is one.
fn find_entry(entries: &Vec<(String, String)>, name: &str) -> (r: Option<usize>)
    ensures
        match r {
            Some(i) => i < entries@.len() && entries@[i as int].0@ == name@,
            None => !entry_names(entries@).contains(name@),
        },
{
    let n = entries.len();
    let mut i: usize = 0;
    while i < n
        invariant
            n == entries@.len(),
            i <= n,
            forall|j: int| 0 <= j < i ==> entries@[j].0@ != name@,
        decreases n - i,
    {
        if str_eq(entries[i].0.as_str(), name) {
            return Some(i);
        }
        i = i + 1;
    }
    proof {
        let names = entry_names(entries@);
        if names.contains(name@) {
            let j = choose|j: int| 0 <= j < names.len() && names[j] == name@;
            assert(entries@[j].0@ == name@);
        }
    }
    None
}

impl Default for Parameters {
    fn default() -> (r: Self)
        ensures
            r@ == Map::<Seq<char>, Seq<char>>::empty(),
    {
        let r = Parameters { entries: Vec::new() };
        assert(r@ =~= Map::<Seq<char>, Seq<char>>::empty());
        r
    }
}

impl Clone for Parameters {
    fn clone(&self) -> (r: Self)
        ensures
            r@ == self@,
    {
        proof { use_type_invariant(self); }
        let mut entries: Vec<(String, String)> = Vec::new();
        let n = self.entries.len();
        let mut i: usize = 0;
        while i < n
            invariant
                n == self.entries@.len(),
                i <= n,
                entries@.len() == i,
                forall|j: int| 0 <= j < i ==> (#[trigger] entries@[j]).0@ == self.entries@[j].0@
                    && entries@[j].1@ == self.entries@[j].1@,
            decreases n - i,
        {
            let e = &self.entries[i];
            entries.push((e.0.clone(), e.1.clone()));
            i = i + 1;
        }
        proof {
            assert(entry_names(entries@) =~= entry_names(self.entries@));
        }
        let r = Parameters { entries };
        assert(r@ =~= self@);
        r
    }
}

/// The text of a document that a statement sends or receives.
#[derive(Clone, Debug, PartialEq, Eq)]
pub struct Document {
    text: String,
}

impl View for Document {
    type V = Seq<char>;

    closed spec fn view(&self) -> Seq<char> {
        self.text@
    }
}

impl Document {
    pub fn from_str(text: &str) -> (r: Self)
        ensures
            r@ == text@,
    {
        Document { text: text.to_owned() }
    }

    pub fn from_string(text: String) -> (r: Self)
        ensures
            r@ == text@,
    {
        Document { text }
    }

    pub fn text(&self) -> (r: &str)
        ensures
            r@ == self@,
    {
        self.text.as_str()
    }
}

/// What a statement gave back: a document, if any.
#[derive(Clone, Debug, PartialEq, Eq)]
pub struct StatementResult {
    document: Option<Document>,
}

impl View for StatementResult {
    type V = Option<Seq<char>>;

    closed spec fn view(&self) -> Option<Seq<char>> {
        match self.document { Some(d) => Some(d@), None => None }
    }
}

impl StatementResult {
    pub fn new(document: Option<Document>) -> (r: Self)
        ensures
            r@ == match document { Some(d) => Some(d@), None => None },
    {
        StatementResult { document }
    }

    pub fn document(&self) -> (r: Option<&Document>)
        ensures
            match r { Some(d) => self@ == Some(d@), None => self@ is None },
    {
        self.document.as_ref()
    }
}

/// A request method ready to be sent: its operation, path, parameters and
/// the document it carries, if any.
#[derive(Debug)]
pub struct PreparedStatement<M: Method> {
    method: M,
    operation: Operation,
    path: String,
    parameters: Parameters,
    document: Option<Document>,
}

/// The content of a `PreparedStatement`.
pub struct PreparedStatementView<M: Method> {
    pub method: M,
    pub operation: Operation,
    pub path: Seq<char>,
    pub parameters: Map<Seq<char>, Seq<char>>,
    pub document: Option<Seq<char>>,
}

impl<M: Method> View for PreparedStatement<M> {
    type V = PreparedStatementView<M>;

    closed spec fn view(&self) -> PreparedStatementView<M> {
        PreparedStatementView {
            method: self.method,
            operation: self.operation,
            path: self.path@,
            parameters: self.parameters@,
            document: match self.document { Some(d) => Some(d@), None => None },
        }
    }
}

impl<M: Method> PreparedStatement<M> {
    /// A statement without parameters or a document.
    pub fn new(method: M, operation: Operation, path: &str) -> (r: Self)
        ensures
            r@ == (PreparedStatementView { method, operation, path: path@,
                parameters: Map::<Seq<char>, Seq<char>>::empty(), document: None }),
    {
        PreparedStatement { method, operation, path: path.to_owned(), parameters: Parameters::default(),
            document: None }
    }

    /// A statement with the given parameters and no document.
    pub fn with_parameters(method: M, operation: Operation, path: &str, parameters: Parameters) -> (r: Self)
        ensures
            r@ == (PreparedStatementView { method, operation, path: path@, parameters: parameters@,
                document: None }),
    {
        PreparedStatement { method, operation, path: path.to_owned(), parameters, document: None }
    }

    /// The same statement carrying `document`.
    pub fn with_document(self, document: Document) -> (r: Self)
        ensures
            r@ == (PreparedStatementView { document: Some(document@), ..self@ }),
    {
        PreparedStatement { document: Some(document), ..self }
    }

    pub fn method(&self) -> (r: &M)
        ensures
            *r == self@.method,
    {
        &self.method
    }

    pub fn operation(&self) -> (r: &Operation)
        ensures
            *r == self@.operation,
    {
        &self.operation
    }

    pub fn path(&self) -> (r: &str)
        ensures
            r@ == self@.path,
    {
        self.path.as_str()
    }

    pub fn parameters(&self) -> (r: &Parameters)
        ensures
            r@ == self@.parameters,
    {
        &self.parameters
    }

    /// The parameters, to be changed in place.
    pub fn parameters_mut(&mut self) -> (r: &mut Parameters)
        ensures
            r@ == old(self)@.parameters,
            final(self)@ == (PreparedStatementView { parameters: final(r)@, ..old(self)@ }),
    {
        &mut self.parameters
    }

    pub fn document(&self) -> (r: Option<&Document>)
        ensures
            match r { Some(d) => self@.document == Some(d@), None => self@.document is None },
    {
        self.document.as_ref()
    }
}

} // verus!
