//! The cursor types: a query to be run as a cursor, its options, and the
//! optimizer rules given as text.

use vstd::prelude::*;
use crate::api::arg::IntoOption;
use crate::api::text::str_eq;
use crate::api::query::{Query, Value, ValueView, bindings_map, bindings_view};
pub use crate::aql::types::{IncludedExcluded, OptimizerRule, rule_text, known_rule};

verus! {

/// The text by which a rule is listed as included: `+<name>`.
pub open spec fn included_text(rule: OptimizerRule) -> Seq<char> {
    "+"@ + rule_text(rule)
}

/// The text by which a rule is listed as excluded: `-<name>`.
pub open spec fn excluded_text(rule: OptimizerRule) -> Seq<char> {
    "-"@ + rule_text(rule)
}

/// A text that lists a rule: a `+` or a `-` followed by the rule's name.
pub open spec fn is_rule_entry(s: Seq<char>) -> bool {
    s.len() >= 1 && (s[0] == '+' || s[0] == '-')
}

/// No name is listed in `s` both as included (`+<name>`) and as excluded
/// (`-<name>`).
pub open spec fn no_rule_both_ways(s: Set<Seq<char>>) -> bool {
    forall|t: Seq<char>| #[trigger] s.contains("+"@ + t) ==> !s.contains("-"@ + t)
}

fn included(rule: &OptimizerRule) -> (r: String)
    ensures
        r@ == included_text(*rule),
{
    let mut r = "+".to_owned();
    r.append(rule.as_api_str());
    r
}

fn excluded(rule: &OptimizerRule) -> (r: String)
    ensures
        r@ == excluded_text(*rule),
{
    let mut r = "-".to_owned();
    r.append(rule.as_api_str());
    r
}

/// The optimizer rules of a cursor, each listed as included or excluded.
#[derive(Debug, PartialEq, Eq)]
pub struct OptimizerRuleSetMut {
    rules: Vec<String>,
}

impl View for OptimizerRuleSetMut {
    type V = Set<Seq<char>>;

    closed spec fn view(&self) -> Set<Seq<char>> {
        self.rules@.map_values(|s: String| s@).to_set()
    }
}

impl Clone for OptimizerRuleSetMut {
    fn clone(&self) -> (r: Self)
        ensures
            r@ == self@,
            r.entries() == self.entries(),
    {
        proof { use_type_invariant(self); }
        let rules = self.rules.clone();
        proof {
            assert forall|i: int| 0 <= i < rules@.len() implies rules@[i] == self.rules@[i] by {
                assert(cloned::<String>(self.rules[i], rules[i]));
            }
            assert(rules@ =~= self.rules@);
        }
        OptimizerRuleSetMut { rules }
    }
}

impl OptimizerRuleSetMut {
    /// No text is listed twice, each lists a rule, and no rule is listed both
    /// as included and as excluded.
    #[verifier::type_invariant]
    closed spec fn well_formed(self) -> bool {
        &&& self.rules@.map_values(|s: String| s@).no_duplicates()
        &&& forall|i: int| 0 <= i < self.rules@.len() ==> is_rule_entry(#[trigger] self.rules@[i]@)
        &&& no_rule_both_ways(self@)
    }

    /// The listed texts in the order they were added.
    pub closed spec fn entries(&self) -> Seq<Seq<char>> {
        self.rules@.map_values(|s: String| s@)
    }

    /// An empty list of rules.
    pub fn new() -> (r: Self)
        ensures
            r@ == Set::<Seq<char>>::empty(),
            r.entries() == Seq::<Seq<char>>::empty(),
    {
        let r = OptimizerRuleSetMut { rules: Vec::new() };
        assert(r.entries() =~= Seq::<Seq<char>>::empty());
        assert(r@ =~= Set::<Seq<char>>::empty());
        r
    }

    /// Includes `rule`, replacing an exclusion of it.
    pub fn include_rule(&mut self, rule: OptimizerRule) -> (r: &mut Self)
        ensures
            r@ == old(self)@.remove(excluded_text(rule)).insert(included_text(rule)),
            *final(self) == *final(r),
    {
        proof { use_type_invariant(&*self); }
        let ghost s0 = self@;
        let mut rules: Vec<String> = Vec::new();
        std::mem::swap(&mut rules, &mut self.rules);
        let out = excluded(&rule);
        let inc = included(&rule);
        proof { reveal_strlit("+"); reveal_strlit("-"); }
        remove_text(&mut rules, out.as_str());
        insert_text(&mut rules, inc);
        proof { lemma_setting_keeps_one_way(s0, rule); }
        self.rules = rules;
        self
    }

    /// Excludes `rule`, replacing an inclusion of it.
    pub fn exclude(&mut self, rule: OptimizerRule) -> (r: &mut Self)
        ensures
            r@ == old(self)@.remove(included_text(rule)).insert(excluded_text(rule)),
            *final(self) == *final(r),
    {
        proof { use_type_invariant(&*self); }
        let ghost s0 = self@;
        let mut rules: Vec<String> = Vec::new();
        std::mem::swap(&mut rules, &mut self.rules);
        let inc = included(&rule);
        let out = excluded(&rule);
        proof { reveal_strlit("+"); reveal_strlit("-"); }
        remove_text(&mut rules, inc.as_str());
        insert_text(&mut rules, out);
        proof { lemma_setting_keeps_one_way(s0, rule); }
        self.rules = rules;
        self
    }

    /// Removes `rule`, whether it was included or excluded.
    pub fn remove(&mut self, rule: &OptimizerRule) -> (r: &mut Self)
        ensures
            r@ == old(self)@.remove(included_text(*rule)).remove(excluded_text(*rule)),
            *final(self) == *final(r),
    {
        proof { use_type_invariant(&*self); }
        let ghost s0 = self@;
        let mut rules: Vec<String> = Vec::new();
        std::mem::swap(&mut rules, &mut self.rules);
        let inc = included(rule);
        let out = excluded(rule);
        remove_text(&mut rules, inc.as_str());
        remove_text(&mut rules, out.as_str());
        proof { lemma_setting_keeps_one_way(s0, *rule); }
        self.rules = rules;
        self
    }

    /// Whether `rule` is listed as included.
    pub fn includes(&self, rule: &OptimizerRule) -> (r: bool)
        ensures
            r == self@.contains(included_text(*rule)),
            r ==> !self@.contains(excluded_text(*rule)),
    {
        proof { use_type_invariant(self); }
        let t = included(rule);
        let r = contains_text(&self.rules, t.as_str());
        proof {
            if r {
                assert(self@.contains("+"@ + rule_text(*rule)));
            }
        }
        r
    }

    /// Whether `rule` is listed as excluded.
    pub fn excludes(&self, rule: &OptimizerRule) -> (r: bool)
        ensures
            r == self@.contains(excluded_text(*rule)),
            r ==> !self@.contains(included_text(*rule)),
    {
        proof { use_type_invariant(self); }
        let t = excluded(rule);
        contains_text(&self.rules, t.as_str())
    }

    /// Walks the listed rules: each listed text once.
    pub fn iter(&self) -> (r: OptimizerRuleIntoIter<'_>)
        ensures
            r.remaining() == self.entries(),
            self.entries().no_duplicates(),
            self@ == self.entries().to_set(),
            forall|i: int| 0 <= i < self.entries().len() ==> is_rule_entry(#[trigger] self.entries()[i]),
    {
        proof { use_type_invariant(self); }
        let r = OptimizerRuleIntoIter { rules: self.rules.as_slice(), pos: 0 };
        assert(r.remaining() =~= self.entries());
        r
    }
}

/// Whether `t` is one of the texts of `v`.
fn contains_text(v: &Vec<String>, t: &str) -> (r: bool)
    ensures
        r == v@.map_values(|s: String| s@).contains(t@),
{
    let n = v.len();
    let mut i: usize = 0;
    while i < n
        invariant
            n == v@.len(),
            i <= n,
            forall|j: int| 0 <= j < i ==> v@[j]@ != t@,
        decreases n - i,
    {
        if str_eq(v[i].as_str(), t) {
            assert(v@.map_values(|s: String| s@)[i as int] == t@);
            return true;
        }
        i = i + 1;
    }
    proof {
        let s = v@.map_values(|s: String| s@);
        if s.contains(t@) {
            let j = choose|j: int| 0 <= j < s.len() && s[j] == t@;
            assert(v@[j]@ == t@);
        }
    }
    false
}

/// Removes the text `t` from `v`, where it occurs at most once.
fn remove_text(v: &mut Vec<String>, t: &str)
    requires
        old(v)@.map_values(|s: String| s@).no_duplicates(),
        forall|i: int| 0 <= i < old(v)@.len() ==> is_rule_entry(#[trigger] old(v)@[i]@),
    ensures
        final(v)@.map_values(|s: String| s@).no_duplicates(),
        forall|i: int| 0 <= i < final(v)@.len() ==> is_rule_entry(#[trigger] final(v)@[i]@),
        final(v)@.map_values(|s: String| s@).to_set() == old(v)@.map_values(|s: String| s@).to_set().remove(t@),
{
    let ghost s0 = old(v)@.map_values(|s: String| s@);
    let n = v.len();
    let mut i: usize = 0;
    while i < n
        invariant
            n == v@.len(),
            v@ == old(v)@,
            s0 == old(v)@.map_values(|s: String| s@),
            s0.no_duplicates(),
            forall|j: int| 0 <= j < old(v)@.len() ==> is_rule_entry(#[trigger] old(v)@[j]@),
            i <= n,
            forall|j: int| 0 <= j < i ==> v@[j]@ != t@,
        decreases n - i,
    {
        if str_eq(v[i].as_str(), t) {
            let ghost pre = v@;
            v.remove(i);
            proof {
                let s1 = v@.map_values(|s: String| s@);
                assert(pre == old(v)@);
                assert(v@ =~= pre.remove(i as int));
                assert(s0.len() == n);
                assert(s1.len() == n - 1);
                assert forall|k: int| 0 <= k < s1.len() implies #[trigger] s1[k] == s0[if k < i { k } else { k + 1 }] by {
                    if k < i {
                        assert(v@[k] == pre[k]);
                    } else {
                        assert(v@[k] == pre[k + 1]);
                    }
                }
                assert forall|a: int, b: int| 0 <= a < b < s1.len() implies s1[a] != s1[b] by {
                    let a2 = if a < i { a } else { a + 1 };
                    let b2 = if b < i { b } else { b + 1 };
                    assert(s1[a] == s0[a2]);
                    assert(s1[b] == s0[b2]);
                }
                assert forall|j: int| 0 <= j < v@.len() implies is_rule_entry(#[trigger] v@[j]@) by {
                    let j2 = if j < i { j } else { j + 1 };
                    assert(v@[j] == pre[j2]);
                }
                assert forall|x: Seq<char>| s1.to_set().contains(x) <==> s0.to_set().remove(t@).contains(x) by {
                    if s1.contains(x) {
                        let k = choose|k: int| 0 <= k < s1.len() && s1[k] == x;
                        let k2 = if k < i { k } else { k + 1 };
                        assert(s0[k2] == x);
                        assert(k2 != i);
                        assert(s0[i as int] == t@);
                        assert(x != t@);
                    }
                    if s0.contains(x) && x != t@ {
                        let k = choose|k: int| 0 <= k < s0.len() && s0[k] == x;
                        assert(k != i);
                        let k2 = if k < i { k } else { k - 1 };
                        assert(s1[k2] == x);
                    }
                }
                assert(s1.to_set() =~= s0.to_set().remove(t@));
            }
            return;
        }
        i = i + 1;
    }
    proof {
        assert forall|x: Seq<char>| s0.to_set().contains(x) <==> s0.to_set().remove(t@).contains(x) by {
            if s0.contains(x) {
                let k = choose|k: int| 0 <= k < s0.len() && s0[k] == x;
                assert(v@[k]@ == x);
            }
        }
        assert(s0.to_set() =~= s0.to_set().remove(t@));
    }
}

/// Adds the text `t` to `v` unless it is there already.
fn insert_text(v: &mut Vec<String>, t: String)
    requires
        old(v)@.map_values(|s: String| s@).no_duplicates(),
        forall|i: int| 0 <= i < old(v)@.len() ==> is_rule_entry(#[trigger] old(v)@[i]@),
        is_rule_entry(t@),
    ensures
        final(v)@.map_values(|s: String| s@).no_duplicates(),
        forall|i: int| 0 <= i < final(v)@.len() ==> is_rule_entry(#[trigger] final(v)@[i]@),
        final(v)@.map_values(|s: String| s@).to_set() == old(v)@.map_values(|s: String| s@).to_set().insert(t@),
{
    let ghost s0 = v@.map_values(|s: String| s@);
    if contains_text(v, t.as_str()) {
        assert(s0.to_set().insert(t@) =~= s0.to_set());
    } else {
        let ghost tv = t@;
        v.push(t);
        proof {
            let s1 = v@.map_values(|s: String| s@);
            assert(s1 =~= s0.push(tv));
            assert forall|a: int, b: int| 0 <= a < b < s1.len() implies s1[a] != s1[b] by {
                assert(s1[a] == s0[a] || a == s0.len());
                if b < s0.len() {
                    assert(s1[b] == s0[b]);
                } else {
                    assert(s1[b] == tv);
                    assert(s1[a] == s0[a]);
                }
            }
            assert forall|x: Seq<char>| s1.to_set().contains(x) <==> s0.to_set().insert(tv).contains(x) by {
                if s1.contains(x) {
                    let k = choose|k: int| 0 <= k < s1.len() && s1[k] == x;
                    if k < s0.len() {
                        assert(s0[k] == x);
                    }
                }
                if s0.contains(x) {
                    let k = choose|k: int| 0 <= k < s0.len() && s0[k] == x;
                    assert(s1[k] == x);
                }
                if x == tv {
                    assert(s1[s0.len() as int] == x);
                }
            }
            assert(s1.to_set() =~= s0.to_set().insert(tv));
        }
    }
}

proof fn lemma_entry_texts(a: OptimizerRule, b: OptimizerRule)
    ensures
        included_text(a) != excluded_text(b),
        included_text(a) == included_text(b) ==> rule_text(a) == rule_text(b),
        excluded_text(a) == excluded_text(b) ==> rule_text(a) == rule_text(b),
{
    reveal_strlit("+");
    reveal_strlit("-");
    assert(included_text(a)[0] == '+');
    assert(excluded_text(b)[0] == '-');
    if included_text(a) == included_text(b) {
        assert(rule_text(a) =~= included_text(a).drop_first());
        assert(rule_text(b) =~= included_text(b).drop_first());
    }
    if excluded_text(a) == excluded_text(b) {
        assert(rule_text(a) =~= excluded_text(a).drop_first());
        assert(rule_text(b) =~= excluded_text(b).drop_first());
    }
}

/// A `+` text and a `-` text always differ, and two texts with the same sign
/// are equal only with equal names.
proof fn lemma_sign_prefix(a: Seq<char>, b: Seq<char>)
    ensures
        "+"@ + a != "-"@ + b,
        "+"@ + a == "+"@ + b ==> a == b,
        "-"@ + a == "-"@ + b ==> a == b,
{
    reveal_strlit("+");
    reveal_strlit("-");
    assert(("+"@ + a)[0] == '+');
    assert(("-"@ + b)[0] == '-');
    if "+"@ + a == "+"@ + b {
        assert(a =~= ("+"@ + a).drop_first());
        assert(b =~= ("+"@ + b).drop_first());
    }
    if "-"@ + a == "-"@ + b {
        assert(a =~= ("-"@ + a).drop_first());
        assert(b =~= ("-"@ + b).drop_first());
    }
}

/// Including, excluding or removing a rule lists no name both ways where
/// none was before.
proof fn lemma_setting_keeps_one_way(s: Set<Seq<char>>, rule: OptimizerRule)
    requires
        no_rule_both_ways(s),
    ensures
        no_rule_both_ways(s.remove(excluded_text(rule)).insert(included_text(rule))),
        no_rule_both_ways(s.remove(included_text(rule)).insert(excluded_text(rule))),
        no_rule_both_ways(s.remove(included_text(rule)).remove(excluded_text(rule))),
{
    let name = rule_text(rule);
    let s1 = s.remove(excluded_text(rule)).insert(included_text(rule));
    let s2 = s.remove(included_text(rule)).insert(excluded_text(rule));
    let s3 = s.remove(included_text(rule)).remove(excluded_text(rule));
    assert forall|t: Seq<char>| #[trigger] s1.contains("+"@ + t) implies !s1.contains("-"@ + t) by {
        lemma_sign_prefix(t, name);
        lemma_sign_prefix(name, t);
        if "+"@ + t != included_text(rule) {
            assert(s.contains("+"@ + t));
        }
    }
    assert forall|t: Seq<char>| #[trigger] s2.contains("+"@ + t) implies !s2.contains("-"@ + t) by {
        lemma_sign_prefix(t, name);
        lemma_sign_prefix(name, t);
        assert(s.contains("+"@ + t));
    }
    assert forall|t: Seq<char>| #[trigger] s3.contains("+"@ + t) implies !s3.contains("-"@ + t) by {
        assert(s.contains("+"@ + t));
    }
}

/// Including a rule lists it as included and not as excluded, excluding it
/// lists it as excluded and not as included, and removing it lists it
/// neither way, whatever the rules listed before.
pub proof fn lemma_rule_setting(s: Set<Seq<char>>, rule: OptimizerRule)
    ensures
        s.remove(excluded_text(rule)).insert(included_text(rule)).contains(included_text(rule)),
        !s.remove(excluded_text(rule)).insert(included_text(rule)).contains(excluded_text(rule)),
        s.remove(included_text(rule)).insert(excluded_text(rule)).contains(excluded_text(rule)),
        !s.remove(included_text(rule)).insert(excluded_text(rule)).contains(included_text(rule)),
        !s.remove(included_text(rule)).remove(excluded_text(rule)).contains(included_text(rule)),
        !s.remove(included_text(rule)).remove(excluded_text(rule)).contains(excluded_text(rule)),
{
    lemma_entry_texts(rule, rule);
}

/// Including, excluding or removing a rule leaves the listing of every rule
/// of another name as it was.
pub proof fn lemma_rule_setting_keeps_others(s: Set<Seq<char>>, rule: OptimizerRule, other: OptimizerRule)
    requires
        rule_text(other) != rule_text(rule),
    ensures
        s.remove(excluded_text(rule)).insert(included_text(rule)).contains(included_text(other))
            == s.contains(included_text(other)),
        s.remove(excluded_text(rule)).insert(included_text(rule)).contains(excluded_text(other))
            == s.contains(excluded_text(other)),
        s.remove(included_text(rule)).insert(excluded_text(rule)).contains(included_text(other))
            == s.contains(included_text(other)),
        s.remove(included_text(rule)).insert(excluded_text(rule)).contains(excluded_text(other))
            == s.contains(excluded_text(other)),
        s.remove(included_text(rule)).remove(excluded_text(rule)).contains(included_text(other))
            == s.contains(included_text(other)),
        s.remove(included_text(rule)).remove(excluded_text(rule)).contains(excluded_text(other))
            == s.contains(excluded_text(other)),
{
    lemma_entry_texts(rule, other);
    lemma_entry_texts(other, rule);
}

/// A read-only view of the optimizer rules of a cursor.
#[derive(Debug)]
pub struct OptimizerRuleSet<'a> {
    rules: &'a OptimizerRuleSetMut,
}

impl<'a> View for OptimizerRuleSet<'a> {
    type V = Set<Seq<char>>;

    closed spec fn view(&self) -> Set<Seq<char>> {
        self.rules@
    }
}

impl<'a> OptimizerRuleSet<'a> {
    /// The listed texts in the order they were added.
    pub closed spec fn entries(&self) -> Seq<Seq<char>> {
        self.rules.entries()
    }

    fn new(rules: &'a OptimizerRuleSetMut) -> (r: Self)
        ensures
            r@ == rules@,
            r.entries() == rules.entries(),
    {
        OptimizerRuleSet { rules }
    }

    /// Whether `rule` is listed as included.
    pub fn includes(&self, rule: &OptimizerRule) -> (r: bool)
        ensures
            r == self@.contains(included_text(*rule)),
            r ==> !self@.contains(excluded_text(*rule)),
    {
        self.rules.includes(rule)
    }

    /// Whether `rule` is listed as excluded.
    pub fn excludes(&self, rule: &OptimizerRule) -> (r: bool)
        ensures
            r == self@.contains(excluded_text(*rule)),
            r ==> !self@.contains(included_text(*rule)),
    {
        self.rules.excludes(rule)
    }

    /// Walks the listed rules: each listed text once.
    pub fn into_iter(self) -> (r: OptimizerRuleIntoIter<'a>)
        ensures
            r.remaining() == self.entries(),
            self.entries().no_duplicates(),
            self@ == self.entries().to_set(),
            forall|i: int| 0 <= i < self.entries().len() ==> is_rule_entry(#[trigger] self.entries()[i]),
    {
        self.rules.iter()
    }
}

/// Walks the rules listed for a cursor, reading each text back as a setting
/// and a rule.
#[derive(Debug)]
pub struct OptimizerRuleIntoIter<'a> {
    rules: &'a [String],
    pos: usize,
}

impl<'a> OptimizerRuleIntoIter<'a> {
    /// The texts still to come.
    pub closed spec fn remaining(&self) -> Seq<Seq<char>> {
        if self.pos <= self.rules@.len() {
            self.rules@.skip(self.pos as int).map_values(|s: String| s@)
        } else {
            Seq::empty()
        }
    }

    /// Each text lists a rule.
    #[verifier::type_invariant]
    closed spec fn wf(&self) -> bool {
        forall|i: int| 0 <= i < self.rules@.len() ==> is_rule_entry(#[trigger] self.rules@[i]@)
    }

    /// The next rule with its setting, if any is left: `+<name>` is read as
    /// the rule `<name>` included, `-<name>` as excluded.
    pub fn next(&mut self) -> (r: Option<(IncludedExcluded, OptimizerRule)>)
        ensures
            old(self).remaining().len() == 0 ==> r is None && final(self).remaining() == old(self).remaining(),
            old(self).remaining().len() > 0 ==> (r matches Some((setting, rule))
                && setting == (if old(self).remaining()[0][0] == '+' { IncludedExcluded::Included } else { IncludedExcluded::Excluded })
                && rule_text(rule) == old(self).remaining()[0].skip(1)
                && final(self).remaining() == old(self).remaining().drop_first()),
    {
        proof { use_type_invariant(&*self); }
        if self.pos < self.rules.len() {
            let text = self.rules[self.pos].as_str();
            let n = text.unicode_len();
            assert(is_rule_entry(self.rules@[self.pos as int]@));
            let first = text.get_char(0);
            let name = text.substring_char(1, n);
            let rule = OptimizerRule::from_api_str(name);
            let setting = if first == '+' { IncludedExcluded::Included } else { IncludedExcluded::Excluded };
            self.pos = self.pos + 1;
            assert(self.remaining() =~= old(self).remaining().drop_first());
            Some((setting, rule))
        } else {
            None
        }
    }

    /// The number of texts still to come.
    pub fn len(&self) -> (r: usize)
        ensures
            r == self.remaining().len(),
    {
        if self.pos < self.rules.len() {
            self.rules.len() - self.pos
        } else {
            0
        }
    }
}

/// Further options of a cursor.
#[derive(Clone, Debug, PartialEq, Eq)]
pub struct CursorOptions {
    fail_on_warning: Option<bool>,
    profile: Option<bool>,
    max_warning_count: Option<u32>,
    full_count: Option<bool>,
    max_plans: Option<u32>,
    optimizer_rules: Option<OptimizerRuleSetMut>,
    intermediate_commit_count: Option<u32>,
    intermediate_commit_size: Option<u32>,
    max_transaction_size: Option<u32>,
    satellite_sync_wait: Option<bool>,
}

/// The content of a `CursorOptions`.
pub struct CursorOptionsView {
    pub fail_on_warning: Option<bool>,
    pub profile: Option<bool>,
    pub max_warning_count: Option<u32>,
    pub full_count: Option<bool>,
    pub max_plans: Option<u32>,
    pub optimizer_rules: Option<Set<Seq<char>>>,
    pub intermediate_commit_count: Option<u32>,
    pub intermediate_commit_size: Option<u32>,
    pub max_transaction_size: Option<u32>,
    pub satellite_sync_wait: Option<bool>,
}

impl View for CursorOptions {
    type V = CursorOptionsView;

    closed spec fn view(&self) -> CursorOptionsView {
        CursorOptionsView {
            fail_on_warning: self.fail_on_warning,
            profile: self.profile,
            max_warning_count: self.max_warning_count,
            full_count: self.full_count,
            max_plans: self.max_plans,
            optimizer_rules: match self.optimizer_rules { Some(x) => Some(x@), None => None },
            intermediate_commit_count: self.intermediate_commit_count,
            intermediate_commit_size: self.intermediate_commit_size,
            max_transaction_size: self.max_transaction_size,
            satellite_sync_wait: self.satellite_sync_wait,
        }
    }
}

impl CursorOptions {
    /// Options that leave everything to the server's defaults.
    pub open spec fn default_view() -> CursorOptionsView {
        CursorOptionsView { fail_on_warning: None, profile: None, max_warning_count: None, full_count: None,
            max_plans: None, optimizer_rules: None, intermediate_commit_count: None,
            intermediate_commit_size: None, max_transaction_size: None, satellite_sync_wait: None }
    }

    fn new() -> (r: Self)
        ensures
            r@ == Self::default_view(),
    {
        CursorOptions { fail_on_warning: None, profile: None, max_warning_count: None, full_count: None,
            max_plans: None, optimizer_rules: None, intermediate_commit_count: None,
            intermediate_commit_size: None, max_transaction_size: None, satellite_sync_wait: None }
    }

    pub fn with_fail_on_warning<A: IntoOption<bool>>(&mut self, fail_on_warning: A) -> (r: &mut Self)
        ensures
            r@ == (CursorOptionsView { fail_on_warning: fail_on_warning.option_view(), ..old(self)@ }),
            final(self)@ == final(r)@,
    {
        self.fail_on_warning = fail_on_warning.into_option();
        self
    }

    pub fn is_fail_on_warning(&self) -> (r: Option<bool>)
        ensures
            r == self@.fail_on_warning,
    {
        self.fail_on_warning
    }

    pub fn with_profile<A: IntoOption<bool>>(&mut self, profile: A) -> (r: &mut Self)
        ensures
            r@ == (CursorOptionsView { profile: profile.option_view(), ..old(self)@ }),
            final(self)@ == final(r)@,
    {
        self.profile = profile.into_option();
        self
    }

    pub fn is_profile(&self) -> (r: Option<bool>)
        ensures
            r == self@.profile,
    {
        self.profile
    }

    pub fn with_max_warning_count<A: IntoOption<u32>>(&mut self, max_warning_count: A) -> (r: &mut Self)
        ensures
            r@ == (CursorOptionsView { max_warning_count: max_warning_count.option_view(), ..old(self)@ }),
            final(self)@ == final(r)@,
    {
        self.max_warning_count = max_warning_count.into_option();
        self
    }

    pub fn max_warning_count(&self) -> (r: Option<u32>)
        ensures
            r == self@.max_warning_count,
    {
        self.max_warning_count
    }

    pub fn with_full_count<A: IntoOption<bool>>(&mut self, full_count: A) -> (r: &mut Self)
        ensures
            r@ == (CursorOptionsView { full_count: full_count.option_view(), ..old(self)@ }),
            final(self)@ == final(r)@,
    {
        self.full_count = full_count.into_option();
        self
    }

    pub fn is_full_count(&self) -> (r: Option<bool>)
        ensures
            r == self@.full_count,
    {
        self.full_count
    }

    pub fn with_max_plans<A: IntoOption<u32>>(&mut self, max_plans: A) -> (r: &mut Self)
        ensures
            r@ == (CursorOptionsView { max_plans: max_plans.option_view(), ..old(self)@ }),
            final(self)@ == final(r)@,
    {
        self.max_plans = max_plans.into_option();
        self
    }

    pub fn max_plans(&self) -> (r: Option<u32>)
        ensures
            r == self@.max_plans,
    {
        self.max_plans
    }

    /// The optimizer rules, created empty when there are none yet.
    pub fn optimizer_rules_mut(&mut self) -> (r: &mut OptimizerRuleSetMut)
        ensures
            old(self)@.optimizer_rules is Some ==> Some(r@) == old(self)@.optimizer_rules,
            old(self)@.optimizer_rules is None ==> r@ == Set::<Seq<char>>::empty(),
            final(self)@ == (CursorOptionsView { optimizer_rules: Some(final(r)@), ..old(self)@ }),
    {
        let fresh = OptimizerRuleSetMut::new();
        self.optimizer_rules.get_or_insert(fresh)
    }

    /// Removes the optimizer rules.
    pub fn remove_optimizer_rules(&mut self)
        ensures
            final(self)@ == (CursorOptionsView { optimizer_rules: None, ..old(self)@ }),
    {
        self.optimizer_rules = None;
    }

    /// The optimizer rules, if there are any.
    pub fn optimizer_rules(&self) -> (r: Option<OptimizerRuleSet<'_>>)
        ensures
            match r { Some(s) => self@.optimizer_rules == Some(s@), None => self@.optimizer_rules is None },
    {
        match &self.optimizer_rules {
            Some(rules) => Some(OptimizerRuleSet::new(rules)),
            None => None,
        }
    }

    pub fn with_intermediate_commit_count<A: IntoOption<u32>>(&mut self, intermediate_commit_count: A) -> (r: &mut Self)
        ensures
            r@ == (CursorOptionsView { intermediate_commit_count: intermediate_commit_count.option_view(), ..old(self)@ }),
            final(self)@ == final(r)@,
    {
        self.intermediate_commit_count = intermediate_commit_count.into_option();
        self
    }

    pub fn intermediate_commit_count(&self) -> (r: Option<u32>)
        ensures
            r == self@.intermediate_commit_count,
    {
        self.intermediate_commit_count
    }

    pub fn with_intermediate_commit_size<A: IntoOption<u32>>(&mut self, intermediate_commit_size: A) -> (r: &mut Self)
        ensures
            r@ == (CursorOptionsView { intermediate_commit_size: intermediate_commit_size.option_view(), ..old(self)@ }),
            final(self)@ == final(r)@,
    {
        self.intermediate_commit_size = intermediate_commit_size.into_option();
        self
    }

    pub fn intermediate_commit_size(&self) -> (r: Option<u32>)
        ensures
            r == self@.intermediate_commit_size,
    {
        self.intermediate_commit_size
    }

    pub fn with_max_transaction_size<A: IntoOption<u32>>(&mut self, max_transaction_size: A) -> (r: &mut Self)
        ensures
            r@ == (CursorOptionsView { max_transaction_size: max_transaction_size.option_view(), ..old(self)@ }),
            final(self)@ == final(r)@,
    {
        self.max_transaction_size = max_transaction_size.into_option();
        self
    }

    pub fn max_transaction_size(&self) -> (r: Option<u32>)
        ensures
            r == self@.max_transaction_size,
    {
        self.max_transaction_size
    }

    pub fn with_satellite_sync_wait<A: IntoOption<bool>>(&mut self, satellite_sync_wait: A) -> (r: &mut Self)
        ensures
            r@ == (CursorOptionsView { satellite_sync_wait: satellite_sync_wait.option_view(), ..old(self)@ }),
            final(self)@ == final(r)@,
    {
        self.satellite_sync_wait = satellite_sync_wait.into_option();
        self
    }

    pub fn satellite_sync_wait(&self) -> (r: Option<bool>)
        ensures
            r == self@.satellite_sync_wait,
    {
        self.satellite_sync_wait
    }
}

/// A query to be run as a cursor, with its bound parameters and options.
#[derive(Clone, Debug, PartialEq)]
pub struct NewCursor {
    query: String,
    bind_vars: Vec<(String, Value)>,
    count: Option<bool>,
    batch_size: Option<u32>,
    cache: Option<bool>,
    memory_limit: Option<u64>,
    ttl: Option<u32>,
    options: Option<CursorOptions>,
}

/// The content of a `NewCursor`.
pub struct NewCursorView {
    pub query: Seq<char>,
    pub bind_vars: Map<Seq<char>, ValueView>,
    pub count: Option<bool>,
    pub batch_size: Option<u32>,
    pub cache: Option<bool>,
    pub memory_limit: Option<u64>,
    pub ttl: Option<u32>,
    pub options: Option<CursorOptionsView>,
}

impl View for NewCursor {
    type V = NewCursorView;

    closed spec fn view(&self) -> NewCursorView {
        NewCursorView {
            query: self.query@,
            bind_vars: bindings_map(bindings_view(self.bind_vars@)),
            count: self.count,
            batch_size: self.batch_size,
            cache: self.cache,
            memory_limit: self.memory_limit,
            ttl: self.ttl,
            options: match self.options { Some(o) => Some(o@), None => None },
        }
    }
}

impl NewCursor {
    /// The query to be run, with its bound parameters and no options.
    pub fn new(query: Query) -> (r: Self)
        ensures
            r@ == (NewCursorView { query: query.string_view(), bind_vars: query.params_view(), count: None,
                batch_size: None, cache: None, memory_limit: None, ttl: None, options: None }),
    {
        let (query, bind_vars) = query.deconstruct();
        NewCursor { query, bind_vars, count: None, batch_size: None, cache: None, memory_limit: None,
            ttl: None, options: None }
    }

    pub fn query(&self) -> (r: &str)
        ensures
            r@ == self@.query,
    {
        self.query.as_str()
    }

    /// The bound parameters, each name once.
    pub fn bind_vars(&self) -> (r: &[(String, Value)])
        ensures
            bindings_map(bindings_view(r@)) == self@.bind_vars,
    {
        self.bind_vars.as_slice()
    }

    /// The value bound to the parameter `name`, if it is bound.
    pub fn bind_var(&self, name: &str) -> (r: Option<&Value>)
        ensures
            r is Some <==> self@.bind_vars.contains_key(name@),
            r matches Some(v) ==> v@ == self@.bind_vars[name@],
    {
        crate::api::query::lookup_binding(&self.bind_vars, name)
    }

    pub fn with_count<A: IntoOption<bool>>(&mut self, count: A) -> (r: &mut Self)
        ensures
            r@ == (NewCursorView { count: count.option_view(), ..old(self)@ }),
            final(self)@ == final(r)@,
    {
        self.count = count.into_option();
        self
    }

    pub fn set_count<A: IntoOption<bool>>(&mut self, count: A)
        ensures
            final(self)@ == (NewCursorView { count: count.option_view(), ..old(self)@ }),
    {
        self.count = count.into_option();
    }

    pub fn is_count(&self) -> (r: Option<bool>)
        ensures
            r == self@.count,
    {
        self.count
    }

    pub fn with_batch_size<A: IntoOption<u32>>(&mut self, batch_size: A) -> (r: &mut Self)
        ensures
            r@ == (NewCursorView { batch_size: batch_size.option_view(), ..old(self)@ }),
            final(self)@ == final(r)@,
    {
        self.batch_size = batch_size.into_option();
        self
    }

    pub fn set_batch_size<A: IntoOption<u32>>(&mut self, batch_size: A)
        ensures
            final(self)@ == (NewCursorView { batch_size: batch_size.option_view(), ..old(self)@ }),
    {
        self.batch_size = batch_size.into_option();
    }

    pub fn batch_size(&self) -> (r: Option<u32>)
        ensures
            r == self@.batch_size,
    {
        self.batch_size
    }

    pub fn with_cache<A: IntoOption<bool>>(&mut self, cache: A) -> (r: &mut Self)
        ensures
            r@ == (NewCursorView { cache: cache.option_view(), ..old(self)@ }),
            final(self)@ == final(r)@,
    {
        self.cache = cache.into_option();
        self
    }

    pub fn set_cache<A: IntoOption<bool>>(&mut self, cache: A)
        ensures
            final(self)@ == (NewCursorView { cache: cache.option_view(), ..old(self)@ }),
    {
        self.cache = cache.into_option();
    }

    pub fn is_cache(&self) -> (r: Option<bool>)
        ensures
            r == self@.cache,
    {
        self.cache
    }

    pub fn with_memory_limit<A: IntoOption<u64>>(&mut self, memory_limit: A) -> (r: &mut Self)
        ensures
            r@ == (NewCursorView { memory_limit: memory_limit.option_view(), ..old(self)@ }),
            final(self)@ == final(r)@,
    {
        self.memory_limit = memory_limit.into_option();
        self
    }

    pub fn set_memory_limit<A: IntoOption<u64>>(&mut self, memory_limit: A)
        ensures
            final(self)@ == (NewCursorView { memory_limit: memory_limit.option_view(), ..old(self)@ }),
    {
        self.memory_limit = memory_limit.into_option();
    }

    pub fn memory_limit(&self) -> (r: Option<u64>)
        ensures
            r == self@.memory_limit,
    {
        self.memory_limit
    }

    pub fn with_ttl<A: IntoOption<u32>>(&mut self, ttl: A) -> (r: &mut Self)
        ensures
            r@ == (NewCursorView { ttl: ttl.option_view(), ..old(self)@ }),
            final(self)@ == final(r)@,
    {
        self.ttl = ttl.into_option();
        self
    }

    pub fn set_ttl<A: IntoOption<u32>>(&mut self, ttl: A)
        ensures
            final(self)@ == (NewCursorView { ttl: ttl.option_view(), ..old(self)@ }),
    {
        self.ttl = ttl.into_option();
    }

    pub fn ttl(&self) -> (r: Option<u32>)
        ensures
            r == self@.ttl,
    {
        self.ttl
    }

    /// The options, created with the defaults when there are none yet.
    pub fn options_mut(&mut self) -> (r: &mut CursorOptions)
        ensures
            old(self)@.options is Some ==> Some(r@) == old(self)@.options,
            old(self)@.options is None ==> r@ == CursorOptions::default_view(),
            final(self)@ == (NewCursorView { options: Some(final(r)@), ..old(self)@ }),
    {
        let fresh = CursorOptions::new();
        self.options.get_or_insert(fresh)
    }

    /// Takes the options out, leaving none.
    pub fn remove_options(&mut self) -> (r: Option<CursorOptions>)
        ensures
            match r { Some(o) => old(self)@.options == Some(o@), None => old(self)@.options is None },
            final(self)@ == (NewCursorView { options: None, ..old(self)@ }),
    {
        self.options.take()
    }

    pub fn options(&self) -> (r: Option<&CursorOptions>)
        ensures
            match r { Some(o) => self@.options == Some(o@), None => self@.options is None },
    {
        self.options.as_ref()
    }
}

impl From<Query> for NewCursor {
    fn from(query: Query) -> (r: Self)
        ensures
            r@ == (NewCursorView { query: query.string_view(), bind_vars: query.params_view(), count: None,
                batch_size: None, cache: None, memory_limit: None, ttl: None, options: None }),
    {
        NewCursor::new(query)
    }
}

impl vstd::std_specs::convert::FromSpecImpl<Query> for NewCursor {
    open spec fn obeys_from_spec() -> bool {
        false
    }

    closed spec fn from_spec(v: Query) -> Self {
        arbitrary()
    }
}

} // verus!
