//! AQL queries and the values bound to their parameters.

use vstd::prelude::*;
use crate::api::arg::IntoText;
use crate::api::text::str_eq;

verus! {

/// A value bound to a named parameter of a query.
#[derive(Debug, PartialEq)]
pub enum Value {
    Bool(bool),
    I8(i8),
    I16(i16),
    I32(i32),
    I64(i64),
    U8(u8),
    U16(u16),
    U32(u32),
    U64(u64),
    String(String),
    VecBool(Vec<bool>),
    VecI64(Vec<i64>),
    VecU64(Vec<u64>),
    VecString(Vec<String>),
}

/// The mathematical content of a `Value`.
pub enum ValueView {
    Bool(bool),
    I8(i8),
    I16(i16),
    I32(i32),
    I64(i64),
    U8(u8),
    U16(u16),
    U32(u32),
    U64(u64),
    String(Seq<char>),
    VecBool(Seq<bool>),
    VecI64(Seq<i64>),
    VecU64(Seq<u64>),
    VecString(Seq<Seq<char>>),
}

impl View for Value {
    type V = ValueView;

    open spec fn view(&self) -> ValueView {
        match self {
            Value::Bool(v) => ValueView::Bool(*v),
            Value::I8(v) => ValueView::I8(*v),
            Value::I16(v) => ValueView::I16(*v),
            Value::I32(v) => ValueView::I32(*v),
            Value::I64(v) => ValueView::I64(*v),
            Value::U8(v) => ValueView::U8(*v),
            Value::U16(v) => ValueView::U16(*v),
            Value::U32(v) => ValueView::U32(*v),
            Value::U64(v) => ValueView::U64(*v),
            Value::String(v) => ValueView::String(v@),
            Value::VecBool(v) => ValueView::VecBool(v@),
            Value::VecI64(v) => ValueView::VecI64(v@),
            Value::VecU64(v) => ValueView::VecU64(v@),
            Value::VecString(v) => ValueView::VecString(v@.map_values(|s: String| s@)),
        }
    }
}

fn copy_vec<T: Copy>(v: &Vec<T>) -> (r: Vec<T>)
    ensures
        r@ == v@,
{
    let mut r: Vec<T> = Vec::new();
    let n = v.len();
    let mut i: usize = 0;
    while i < n
        invariant
            n == v@.len(),
            i <= n,
            r@ == v@.take(i as int),
        decreases n - i,
    {
        r.push(v[i]);
        proof { assert(v@.take(i + 1) =~= v@.take(i as int).push(v@[i as int])); }
        i = i + 1;
    }
    proof { assert(v@.take(n as int) =~= v@); }
    r
}

fn copy_texts(v: &Vec<String>) -> (r: Vec<String>)
    ensures
        r@.map_values(|s: String| s@) == v@.map_values(|s: String| s@),
{
    let mut r: Vec<String> = Vec::new();
    let n = v.len();
    let mut i: usize = 0;
    while i < n
        invariant
            n == v@.len(),
            i <= n,
            r@.len() == i,
            forall|j: int| 0 <= j < i ==> (#[trigger] r@[j])@ == v@[j]@,
        decreases n - i,
    {
        r.push(v[i].clone());
        i = i + 1;
    }
    proof {
        assert(r@.map_values(|s: String| s@) =~= v@.map_values(|s: String| s@));
    }
    r
}

impl Clone for Value {
    fn clone(&self) -> (r: Self)
        ensures
            r@ == self@,
    {
        match self {
            Value::Bool(v) => Value::Bool(*v),
            Value::I8(v) => Value::I8(*v),
            Value::I16(v) => Value::I16(*v),
            Value::I32(v) => Value::I32(*v),
            Value::I64(v) => Value::I64(*v),
            Value::U8(v) => Value::U8(*v),
            Value::U16(v) => Value::U16(*v),
            Value::U32(v) => Value::U32(*v),
            Value::U64(v) => Value::U64(*v),
            Value::String(v) => Value::String(v.clone()),
            Value::VecBool(v) => Value::VecBool(copy_vec(v)),
            Value::VecI64(v) => Value::VecI64(copy_vec(v)),
            Value::VecU64(v) => Value::VecU64(copy_vec(v)),
            Value::VecString(v) => Value::VecString(copy_texts(v)),
        }
    }
}

/// A Rust value that can be bound to a query parameter.
pub trait IntoValue: Sized {
    /// The value this stands for.
    spec fn value_view(&self) -> ValueView;

    fn into_value(self) -> (v: Value)
        ensures
            v@ == self.value_view(),
    ;
}

impl IntoValue for Value {
    open spec fn value_view(&self) -> ValueView {
        self@
    }

    fn into_value(self) -> (v: Value) {
        self
    }
}

impl<'a> IntoValue for &'a str {
    open spec fn value_view(&self) -> ValueView {
        ValueView::String((*self)@)
    }

    fn into_value(self) -> (v: Value) {
        Value::String(self.to_owned())
    }
}

impl IntoValue for String {
    open spec fn value_view(&self) -> ValueView {
        ValueView::String(self@)
    }

    fn into_value(self) -> (v: Value) {
        Value::String(self)
    }
}

impl IntoValue for Vec<bool> {
    open spec fn value_view(&self) -> ValueView {
        ValueView::VecBool(self@)
    }

    fn into_value(self) -> (v: Value) {
        Value::VecBool(self)
    }
}

impl IntoValue for Vec<i64> {
    open spec fn value_view(&self) -> ValueView {
        ValueView::VecI64(self@)
    }

    fn into_value(self) -> (v: Value) {
        Value::VecI64(self)
    }
}

impl IntoValue for Vec<u64> {
    open spec fn value_view(&self) -> ValueView {
        ValueView::VecU64(self@)
    }

    fn into_value(self) -> (v: Value) {
        Value::VecU64(self)
    }
}

impl IntoValue for Vec<String> {
    open spec fn value_view(&self) -> ValueView {
        ValueView::VecString(self@.map_values(|s: String| s@))
    }

    fn into_value(self) -> (v: Value) {
        Value::VecString(self)
    }
}

/// A Rust value that can be read back out of a bound `Value` of the
/// matching kind.
pub trait UnwrapValue: Sized {
    /// Whether a value of this kind is held in `v`.
    spec fn holds(v: ValueView) -> bool;

    /// The value this stands for.
    spec fn unwrapped_view(&self) -> ValueView;

    fn unwrap(v: &Value) -> (r: Option<&Self>)
        ensures
            r is Some <==> Self::holds(v@),
            r matches Some(x) ==> x.unwrapped_view() == v@,
    ;
}

impl UnwrapValue for String {
    open spec fn holds(v: ValueView) -> bool {
        v is String
    }

    open spec fn unwrapped_view(&self) -> ValueView {
        ValueView::String(self@)
    }

    fn unwrap(v: &Value) -> (r: Option<&Self>) {
        match v {
            Value::String(x) => Some(x),
            _ => None,
        }
    }
}

impl UnwrapValue for Vec<bool> {
    open spec fn holds(v: ValueView) -> bool {
        v is VecBool
    }

    open spec fn unwrapped_view(&self) -> ValueView {
        ValueView::VecBool(self@)
    }

    fn unwrap(v: &Value) -> (r: Option<&Self>) {
        match v {
            Value::VecBool(x) => Some(x),
            _ => None,
        }
    }
}

impl UnwrapValue for Vec<i64> {
    open spec fn holds(v: ValueView) -> bool {
        v is VecI64
    }

    open spec fn unwrapped_view(&self) -> ValueView {
        ValueView::VecI64(self@)
    }

    fn unwrap(v: &Value) -> (r: Option<&Self>) {
        match v {
            Value::VecI64(x) => Some(x),
            _ => None,
        }
    }
}

impl UnwrapValue for Vec<u64> {
    open spec fn holds(v: ValueView) -> bool {
        v is VecU64
    }

    open spec fn unwrapped_view(&self) -> ValueView {
        ValueView::VecU64(self@)
    }

    fn unwrap(v: &Value) -> (r: Option<&Self>) {
        match v {
            Value::VecU64(x) => Some(x),
            _ => None,
        }
    }
}

impl UnwrapValue for Vec<String> {
    open spec fn holds(v: ValueView) -> bool {
        v is VecString
    }

    open spec fn unwrapped_view(&self) -> ValueView {
        ValueView::VecString(self@.map_values(|s: String| s@))
    }

    fn unwrap(v: &Value) -> (r: Option<&Self>) {
        match v {
            Value::VecString(x) => Some(x),
            _ => None,
        }
    }
}

impl IntoValue for bool {
    open spec fn value_view(&self) -> ValueView {
        ValueView::Bool(*self)
    }

    fn into_value(self) -> (v: Value) {
        Value::Bool(self)
    }
}

impl UnwrapValue for bool {
    open spec fn holds(v: ValueView) -> bool {
        v is Bool
    }

    open spec fn unwrapped_view(&self) -> ValueView {
        ValueView::Bool(*self)
    }

    fn unwrap(v: &Value) -> (r: Option<&Self>) {
        match v {
            Value::Bool(x) => Some(x),
            _ => None,
        }
    }
}

impl IntoValue for i8 {
    open spec fn value_view(&self) -> ValueView {
        ValueView::I8(*self)
    }

    fn into_value(self) -> (v: Value) {
        Value::I8(self)
    }
}

impl UnwrapValue for i8 {
    open spec fn holds(v: ValueView) -> bool {
        v is I8
    }

    open spec fn unwrapped_view(&self) -> ValueView {
        ValueView::I8(*self)
    }

    fn unwrap(v: &Value) -> (r: Option<&Self>) {
        match v {
            Value::I8(x) => Some(x),
            _ => None,
        }
    }
}

impl IntoValue for i16 {
    open spec fn value_view(&self) -> ValueView {
        ValueView::I16(*self)
    }

    fn into_value(self) -> (v: Value) {
        Value::I16(self)
    }
}

impl UnwrapValue for i16 {
    open spec fn holds(v: ValueView) -> bool {
        v is I16
    }

    open spec fn unwrapped_view(&self) -> ValueView {
        ValueView::I16(*self)
    }

    fn unwrap(v: &Value) -> (r: Option<&Self>) {
        match v {
            Value::I16(x) => Some(x),
            _ => None,
        }
    }
}

impl IntoValue for i32 {
    open spec fn value_view(&self) -> ValueView {
        ValueView::I32(*self)
    }

    fn into_value(self) -> (v: Value) {
        Value::I32(self)
    }
}

impl UnwrapValue for i32 {
    open spec fn holds(v: ValueView) -> bool {
        v is I32
    }

    open spec fn unwrapped_view(&self) -> ValueView {
        ValueView::I32(*self)
    }

    fn unwrap(v: &Value) -> (r: Option<&Self>) {
        match v {
            Value::I32(x) => Some(x),
            _ => None,
        }
    }
}

impl IntoValue for i64 {
    open spec fn value_view(&self) -> ValueView {
        ValueView::I64(*self)
    }

    fn into_value(self) -> (v: Value) {
        Value::I64(self)
    }
}

impl UnwrapValue for i64 {
    open spec fn holds(v: ValueView) -> bool {
        v is I64
    }

    open spec fn unwrapped_view(&self) -> ValueView {
        ValueView::I64(*self)
    }

    fn unwrap(v: &Value) -> (r: Option<&Self>) {
        match v {
            Value::I64(x) => Some(x),
            _ => None,
        }
    }
}

impl IntoValue for u8 {
    open spec fn value_view(&self) -> ValueView {
        ValueView::U8(*self)
    }

    fn into_value(self) -> (v: Value) {
        Value::U8(self)
    }
}

impl UnwrapValue for u8 {
    open spec fn holds(v: ValueView) -> bool {
        v is U8
    }

    open spec fn unwrapped_view(&self) -> ValueView {
        ValueView::U8(*self)
    }

    fn unwrap(v: &Value) -> (r: Option<&Self>) {
        match v {
            Value::U8(x) => Some(x),
            _ => None,
        }
    }
}

impl IntoValue for u16 {
    open spec fn value_view(&self) -> ValueView {
        ValueView::U16(*self)
    }

    fn into_value(self) -> (v: Value) {
        Value::U16(self)
    }
}

impl UnwrapValue for u16 {
    open spec fn holds(v: ValueView) -> bool {
        v is U16
    }

    open spec fn unwrapped_view(&self) -> ValueView {
        ValueView::U16(*self)
    }

    fn unwrap(v: &Value) -> (r: Option<&Self>) {
        match v {
            Value::U16(x) => Some(x),
            _ => None,
        }
    }
}

impl IntoValue for u32 {
    open spec fn value_view(&self) -> ValueView {
        ValueView::U32(*self)
    }

    fn into_value(self) -> (v: Value) {
        Value::U32(self)
    }
}

impl UnwrapValue for u32 {
    open spec fn holds(v: ValueView) -> bool {
        v is U32
    }

    open spec fn unwrapped_view(&self) -> ValueView {
        ValueView::U32(*self)
    }

    fn unwrap(v: &Value) -> (r: Option<&Self>) {
        match v {
            Value::U32(x) => Some(x),
            _ => None,
        }
    }
}

impl IntoValue for u64 {
    open spec fn value_view(&self) -> ValueView {
        ValueView::U64(*self)
    }

    fn into_value(self) -> (v: Value) {
        Value::U64(self)
    }
}

impl UnwrapValue for u64 {
    open spec fn holds(v: ValueView) -> bool {
        v is U64
    }

    open spec fn unwrapped_view(&self) -> ValueView {
        ValueView::U64(*self)
    }

    fn unwrap(v: &Value) -> (r: Option<&Self>) {
        match v {
            Value::U64(x) => Some(x),
            _ => None,
        }
    }
}
/// The parameter names of a list of bindings.
pub open spec fn binding_names(s: Seq<(Seq<char>, ValueView)>) -> Seq<Seq<char>> {
    s.map_values(|p: (Seq<char>, ValueView)| p.0)
}

/// The bindings as a map from parameter name to value; a later binding of a
/// name wins over an earlier one.
pub open spec fn bindings_map(s: Seq<(Seq<char>, ValueView)>) -> Map<Seq<char>, ValueView>
    decreases s.len(),
{
    if s.len() == 0 {
        Map::empty()
    } else {
        bindings_map(s.drop_last()).insert(s.last().0, s.last().1)
    }
}

/// The bindings of a query, in the order their names were first bound.
pub open spec fn bindings_view(v: Seq<(String, Value)>) -> Seq<(Seq<char>, ValueView)> {
    v.map_values(|p: (String, Value)| (p.0@, p.1@))
}

/// A query string with values bound to its named parameters.
#[derive(Debug, PartialEq)]
pub struct Query {
    string: String,
    params: Vec<(String, Value)>,
}

impl Clone for Query {
    fn clone(&self) -> (r: Self)
        ensures
            r.string_view() == self.string_view(),
            r.params_view() == self.params_view(),
    {
        proof { use_type_invariant(self); }
        let mut params: Vec<(String, Value)> = Vec::new();
        let n = self.params.len();
        let mut i: usize = 0;
        while i < n
            invariant
                n == self.params@.len(),
                i <= n,
                bindings_view(params@) == bindings_view(self.params@).take(i as int),
            decreases n - i,
        {
            let entry = &self.params[i];
            let copy = (entry.0.clone(), entry.1.clone());
            let ghost before = params@;
            params.push(copy);
            proof {
                assert(bindings_view(params@) =~= bindings_view(before).push((entry.0@, entry.1@)));
                assert(bindings_view(self.params@).take(i + 1)
                    =~= bindings_view(self.params@).take(i as int).push(bindings_view(self.params@)[i as int]));
            }
            i = i + 1;
        }
        proof {
            assert(bindings_view(self.params@).take(n as int) =~= bindings_view(self.params@));
        }
        Query { string: self.string.clone(), params }
    }
}

impl Query {
    /// The query text.
    pub closed spec fn string_view(&self) -> Seq<char> {
        self.string@
    }

    /// The bound values by parameter name.
    pub closed spec fn params_view(&self) -> Map<Seq<char>, ValueView> {
        bindings_map(bindings_view(self.params@))
    }

    /// No name is bound twice.
    #[verifier::type_invariant]
    closed spec fn names_distinct(self) -> bool {
        binding_names(bindings_view(self.params@)).no_duplicates()
    }

    /// A query with the given text and no bound parameters.
    pub fn new<Q: IntoText>(query_string: Q) -> (r: Self)
        ensures
            r.string_view() == query_string.text_view(),
            r.params_view() == Map::<Seq<char>, ValueView>::empty(),
    {
        let string = query_string.into_text();
        let r = Query { string, params: Vec::new() };
        assert(bindings_view(r.params@) =~= Seq::<(Seq<char>, ValueView)>::empty());
        r
    }

    /// Gives up the query for its text and its bindings, each name once.
    pub fn deconstruct(self) -> (r: (String, Vec<(String, Value)>))
        ensures
            r.0@ == self.string_view(),
            bindings_map(bindings_view(r.1@)) == self.params_view(),
            binding_names(bindings_view(r.1@)).no_duplicates(),
    {
        proof { use_type_invariant(&self); }
        let Query { string, params } = self;
        (string, params)
    }

    /// The query text.
    pub fn str(&self) -> (r: &str)
        ensures
            r@ == self.string_view(),
    {
        self.string.as_str()
    }

    /// Binds `value` to the parameter `name`, replacing an earlier binding
    /// of that name.
    pub fn set_parameter<N: IntoText, T: IntoValue>(&mut self, name: N, value: T)
        ensures
            final(self).string_view() == old(self).string_view(),
            final(self).params_view() == old(self).params_view().insert(name.text_view(), value.value_view()),
    {
        proof { use_type_invariant(&*self); }
        let name = name.into_text();
        let value = value.into_value();
        let mut params: Vec<(String, Value)> = Vec::new();
        std::mem::swap(&mut params, &mut self.params);
        let ghost pre = params@;
        match find_binding(&params, name.as_str()) {
            Some(i) => {
                proof { lemma_bindings_update(bindings_view(pre), i as int, name@, value@); }
                params.set(i, (name, value));
                assert(bindings_view(params@) =~= bindings_view(pre).update(i as int, (name@, value@)));
            },
            None => {
                proof { lemma_names_push(bindings_view(pre), name@, value@); }
                params.push((name, value));
                assert(bindings_view(params@) =~= bindings_view(pre).push((name@, value@)));
            },
        }
        self.params = params;
    }

    /// The value bound to `name`, if it is bound to a value of type `T`.
    pub fn parameter<T: UnwrapValue>(&self, name: &str) -> (r: Option<&T>)
        ensures
            r is Some <==> (self.params_view().contains_key(name@) && T::holds(self.params_view()[name@])),
            r matches Some(x) ==> x.unwrapped_view() == self.params_view()[name@],
    {
        proof { use_type_invariant(self); }
        match self.value(name) {
            Some(v) => T::unwrap(v),
            None => None,
        }
    }

    /// The value bound to `name`, if it is bound.
    pub fn value(&self, name: &str) -> (r: Option<&Value>)
        ensures
            r is Some <==> self.params_view().contains_key(name@),
            r matches Some(v) ==> v@ == self.params_view()[name@],
    {
        proof { use_type_invariant(self); }
        match find_binding(&self.params, name) {
            Some(i) => {
                proof { lemma_bindings_lookup(bindings_view(self.params@), i as int); }
                Some(&self.params[i].1)
            },
            None => {
                proof { lemma_bindings_absent(bindings_view(self.params@), name@); }
                None
            },
        }
    }
}

/// Finds the position at which `name` is bound.
fn find_binding(params: &Vec<(String, Value)>, name: &str) -> (r: Option<usize>)
    ensures
        match r {
            Some(i) => i < params@.len() && params@[i as int].0@ == name@,
            None => !binding_names(bindings_view(params@)).contains(name@),
        },
{
    let n = params.len();
    let mut i: usize = 0;
    while i < n
        invariant
            n == params@.len(),
            i <= n,
            forall|j: int| 0 <= j < i ==> params@[j].0@ != name@,
        decreases n - i,
    {
        if str_eq(params[i].0.as_str(), name) {
            return Some(i);
        }
        i = i + 1;
    }
    proof {
        if binding_names(bindings_view(params@)).contains(name@) {
            let j = choose|j: int| 0 <= j < n && binding_names(bindings_view(params@))[j] == name@;
            assert(params@[j].0@ == name@);
        }
    }
    None
}

proof fn lemma_bindings_absent(s: Seq<(Seq<char>, ValueView)>, name: Seq<char>)
    requires
        !binding_names(s).contains(name),
    ensures
        !bindings_map(s).contains_key(name),
    decreases s.len(),
{
    if s.len() > 0 {
        assert(binding_names(s.drop_last()) =~= binding_names(s).drop_last());
        assert(binding_names(s)[s.len() - 1] == s.last().0);
        if binding_names(s.drop_last()).contains(name) {
            let j = choose|j: int| 0 <= j < s.len() - 1 && binding_names(s.drop_last())[j] == name;
            assert(binding_names(s)[j] == name);
        }
        lemma_bindings_absent(s.drop_last(), name);
    }
}

proof fn lemma_bindings_lookup(s: Seq<(Seq<char>, ValueView)>, i: int)
    requires
        0 <= i < s.len(),
        binding_names(s).no_duplicates(),
    ensures
        bindings_map(s).contains_key(s[i].0),
        bindings_map(s)[s[i].0] == s[i].1,
    decreases s.len(),
{
    let t = s.drop_last();
    assert(binding_names(t) =~= binding_names(s).drop_last());
    if i == s.len() - 1 {
    } else {
        assert(binding_names(s)[i] == s[i].0);
        assert(binding_names(s)[s.len() - 1] == s.last().0);
        assert(s[i].0 != s.last().0);
        assert(t[i] == s[i]);
        lemma_bindings_lookup(t, i);
    }
}

proof fn lemma_names_push(s: Seq<(Seq<char>, ValueView)>, name: Seq<char>, v: ValueView)
    requires
        binding_names(s).no_duplicates(),
        !binding_names(s).contains(name),
    ensures
        binding_names(s.push((name, v))).no_duplicates(),
        bindings_map(s.push((name, v))) == bindings_map(s).insert(name, v),
{
    let t = s.push((name, v));
    assert(t.drop_last() =~= s);
    assert(binding_names(t) =~= binding_names(s).push(name));
    assert forall|a: int, b: int| 0 <= a < b < binding_names(t).len()
        implies binding_names(t)[a] != binding_names(t)[b] by {
        if b == s.len() {
            assert(binding_names(s)[a] == binding_names(t)[a]);
        } else {
            assert(binding_names(s)[a] == binding_names(t)[a]);
            assert(binding_names(s)[b] == binding_names(t)[b]);
        }
    }
}

proof fn lemma_bindings_update(s: Seq<(Seq<char>, ValueView)>, i: int, name: Seq<char>, v: ValueView)
    requires
        0 <= i < s.len(),
        s[i].0 == name,
        binding_names(s).no_duplicates(),
    ensures
        binding_names(s.update(i, (name, v))) == binding_names(s),
        bindings_map(s.update(i, (name, v))) == bindings_map(s).insert(name, v),
    decreases s.len(),
{
    let u = s.update(i, (name, v));
    assert(binding_names(u) =~= binding_names(s));
    let t = s.drop_last();
    assert(binding_names(t) =~= binding_names(s).drop_last());
    if i == s.len() - 1 {
        assert(u.drop_last() =~= t);
        assert(bindings_map(u) =~= bindings_map(t).insert(name, v));
        assert(bindings_map(s) =~= bindings_map(t).insert(name, s[i].1));
        assert(bindings_map(u) =~= bindings_map(s).insert(name, v));
    } else {
        assert(u.drop_last() =~= t.update(i, (name, v)));
        assert(binding_names(s)[i] == s[i].0);
        assert(binding_names(s)[s.len() - 1] == s.last().0);
        assert(s.last().0 != name);
        lemma_bindings_update(t, i, name, v);
        assert(u.last() == s.last());
        assert(bindings_map(u) =~= bindings_map(s).insert(name, v));
    }
}

} // verus!

verus! {

/// The value bound to `name` in a list of bindings: that of its last
/// binding, if it has one.
pub fn lookup_binding<'a>(params: &'a [(String, Value)], name: &str) -> (r: Option<&'a Value>)
    ensures
        r is Some <==> bindings_map(bindings_view(params@)).contains_key(name@),
        r matches Some(v) ==> v@ == bindings_map(bindings_view(params@))[name@],
{
    let ghost s = bindings_view(params@);
    let mut i: usize = params.len();
    while i > 0
        invariant
            i <= params@.len(),
            s == bindings_view(params@),
            forall|j: int| i <= j < params@.len() ==> #[trigger] s[j].0 != name@,
        decreases i,
    {
        i = i - 1;
        if str_eq(params[i].0.as_str(), name) {
            proof { lemma_last_binding(s, i as int, name@); }
            return Some(&params[i].1);
        }
    }
    proof { lemma_no_binding(s, name@); }
    None
}

proof fn lemma_last_binding(s: Seq<(Seq<char>, ValueView)>, i: int, name: Seq<char>)
    requires
        0 <= i < s.len(),
        s[i].0 == name,
        forall|j: int| i < j < s.len() ==> #[trigger] s[j].0 != name,
    ensures
        bindings_map(s).contains_key(name),
        bindings_map(s)[name] == s[i].1,
    decreases s.len(),
{
    if i < s.len() - 1 {
        let t = s.drop_last();
        assert(s.last().0 != name);
        assert forall|j: int| i < j < t.len() implies #[trigger] t[j].0 != name by {
            assert(t[j] == s[j]);
        }
        lemma_last_binding(t, i, name);
    }
}

/// Binding parameters of a fresh query one after another leaves each name
/// bound to the value of its last binding and no other name bound, and keeps
/// the text: what `deconstruct` then hands back. `steps[0]` is the fresh
/// query and `steps[i]` the query after `set_parameter` bound `writes[i - 1]`
/// in `steps[i - 1]`.
pub proof fn lemma_set_parameter_last_wins(steps: Seq<Query>, writes: Seq<(Seq<char>, ValueView)>)
    requires
        steps.len() == writes.len() + 1,
        steps[0].params_view() == Map::<Seq<char>, ValueView>::empty(),
        forall|i: int| 0 < i <= writes.len() ==> (#[trigger] steps[i]).string_view() == steps[i - 1].string_view()
            && steps[i].params_view() == steps[i - 1].params_view().insert(writes[i - 1].0, writes[i - 1].1),
    ensures
        steps.last().string_view() == steps[0].string_view(),
        forall|name: Seq<char>| steps.last().params_view().contains_key(name)
            <==> (exists|j: int| 0 <= j < writes.len() && (#[trigger] writes[j]).0 == name),
        forall|i: int| 0 <= i < writes.len() && (forall|j: int| i < j < writes.len() ==> (#[trigger] writes[j]).0 != writes[i].0)
            ==> steps.last().params_view()[(#[trigger] writes[i]).0] == writes[i].1,
{
    lemma_steps_follow_writes(steps, writes, writes.len() as int);
    assert(writes.take(writes.len() as int) =~= writes);
    assert forall|name: Seq<char>| steps.last().params_view().contains_key(name)
        <==> (exists|j: int| 0 <= j < writes.len() && (#[trigger] writes[j]).0 == name) by {
        lemma_binding_keys(writes, name);
    }
    assert forall|i: int| 0 <= i < writes.len() && (forall|j: int| i < j < writes.len() ==> (#[trigger] writes[j]).0 != writes[i].0)
        implies steps.last().params_view()[(#[trigger] writes[i]).0] == writes[i].1 by {
        lemma_last_binding(writes, i, writes[i].0);
    }
}

proof fn lemma_steps_follow_writes(steps: Seq<Query>, writes: Seq<(Seq<char>, ValueView)>, n: int)
    requires
        steps.len() == writes.len() + 1,
        0 <= n <= writes.len(),
        steps[0].params_view() == Map::<Seq<char>, ValueView>::empty(),
        forall|i: int| 0 < i <= writes.len() ==> (#[trigger] steps[i]).string_view() == steps[i - 1].string_view()
            && steps[i].params_view() == steps[i - 1].params_view().insert(writes[i - 1].0, writes[i - 1].1),
    ensures
        steps[n].string_view() == steps[0].string_view(),
        steps[n].params_view() == bindings_map(writes.take(n)),
    decreases n,
{
    if n == 0 {
        assert(bindings_map(writes.take(0)) == Map::<Seq<char>, ValueView>::empty());
    } else {
        lemma_steps_follow_writes(steps, writes, n - 1);
        assert(writes.take(n).drop_last() =~= writes.take(n - 1));
        assert(steps[n].string_view() == steps[n - 1].string_view());
    }
}

proof fn lemma_binding_keys(s: Seq<(Seq<char>, ValueView)>, name: Seq<char>)
    ensures
        bindings_map(s).contains_key(name) <==> (exists|j: int| 0 <= j < s.len() && (#[trigger] s[j]).0 == name),
    decreases s.len(),
{
    if s.len() > 0 {
        let t = s.drop_last();
        lemma_binding_keys(t, name);
        if exists|j: int| 0 <= j < t.len() && (#[trigger] t[j]).0 == name {
            let j = choose|j: int| 0 <= j < t.len() && (#[trigger] t[j]).0 == name;
            assert(s[j] == t[j]);
        }
        if exists|j: int| 0 <= j < s.len() && (#[trigger] s[j]).0 == name {
            let j = choose|j: int| 0 <= j < s.len() && (#[trigger] s[j]).0 == name;
            if j < s.len() - 1 {
                assert(t[j] == s[j]);
            }
        }
    }
}

proof fn lemma_no_binding(s: Seq<(Seq<char>, ValueView)>, name: Seq<char>)
    requires
        forall|j: int| 0 <= j < s.len() ==> #[trigger] s[j].0 != name,
    ensures
        !bindings_map(s).contains_key(name),
    decreases s.len(),
{
    if s.len() > 0 {
        let t = s.drop_last();
        assert(s.last().0 != name);
        assert forall|j: int| 0 <= j < t.len() implies #[trigger] t[j].0 != name by {
            assert(t[j] == s[j]);
        }
        lemma_no_binding(t, name);
    }
}

} // verus!
