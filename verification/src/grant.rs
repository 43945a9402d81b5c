//! Grant configurations, the fee configuration, and the table in which the
//! treasury keeps one grant configuration per message type URL.

use crate::order::{
    bytes_lt, compare_bytes, lemma_bytes_lt_asymmetric, lemma_bytes_lt_irreflexive,
    lemma_bytes_lt_transitive, Comparison,
};
use crate::proto::{opt_any_view, strings_view, Any, AnyView};
use vstd::prelude::*;
use vstd::utf8::{encode_utf8, encode_utf8_decode_utf8};

verus! {

/// The authz grant that a user must have given for one message type before
/// the treasury pays that user's fees.
#[derive(Debug, Clone, PartialEq)]
pub struct GrantConfig {
    pub description: String,
    pub authorization: Any,
    pub optional: bool,
}

/// Mathematical model of a [`GrantConfig`].
pub struct GrantConfigView {
    pub description: Seq<char>,
    pub authorization: AnyView,
    pub optional: bool,
}

impl View for GrantConfig {
    type V = GrantConfigView;

    open spec fn view(&self) -> GrantConfigView {
        GrantConfigView {
            description: self.description@,
            authorization: self.authorization@,
            optional: self.optional,
        }
    }
}

impl GrantConfig {
    pub fn new(description: String, authorization: Any, optional: bool) -> (r: GrantConfig)
        ensures
            r@ == (GrantConfigView { description: description@, authorization: authorization@, optional }),
    {
        GrantConfig { description, authorization, optional }
    }

    /// A copy of this configuration.
    pub fn duplicate(&self) -> (r: GrantConfig)
        ensures
            r@ == self@,
    {
        GrantConfig {
            description: self.description.clone(),
            authorization: self.authorization.duplicate(),
            optional: self.optional,
        }
    }
}

/// The fee allowance that the treasury grants, and for how many seconds.
#[derive(Debug, Clone, PartialEq)]
pub struct FeeConfig {
    pub description: String,
    pub allowance: Option<Any>,
    pub expiration: Option<u32>,
}

/// Mathematical model of a [`FeeConfig`].
pub struct FeeConfigView {
    pub description: Seq<char>,
    pub allowance: Option<AnyView>,
    pub expiration: Option<u32>,
}

impl View for FeeConfig {
    type V = FeeConfigView;

    open spec fn view(&self) -> FeeConfigView {
        FeeConfigView {
            description: self.description@,
            allowance: opt_any_view(self.allowance),
            expiration: self.expiration,
        }
    }
}

impl FeeConfig {
    pub fn new(description: String, allowance: Option<Any>, expiration: Option<u32>) -> (r: FeeConfig)
        ensures
            r@ == (FeeConfigView { description: description@, allowance: opt_any_view(allowance), expiration }),
    {
        FeeConfig { description, allowance, expiration }
    }

    /// A copy of this configuration.
    pub fn duplicate(&self) -> (r: FeeConfig)
        ensures
            r@ == self@,
    {
        let allowance = match &self.allowance {
            Some(a) => Some(a.duplicate()),
            None => None,
        };
        FeeConfig { description: self.description.clone(), allowance, expiration: self.expiration }
    }
}

/// `a` comes before `b` in the order of the chain's store: by the bytes of
/// their UTF-8 encoding.
pub open spec fn key_lt(a: Seq<char>, b: Seq<char>) -> bool {
    bytes_lt(encode_utf8(a), encode_utf8(b))
}

/// The keys of `s` ascend strictly in store order.
pub open spec fn table_sorted(s: Seq<(Seq<char>, GrantConfigView)>) -> bool {
    forall|i: int, j: int| 0 <= i < j < s.len() ==> key_lt(#[trigger] s[i].0, #[trigger] s[j].0)
}

/// `k` is a key of `s`.
pub open spec fn table_has(s: Seq<(Seq<char>, GrantConfigView)>, k: Seq<char>) -> bool {
    exists|i: int| 0 <= i < s.len() && #[trigger] s[i].0 == k
}

/// The map from type URL to configuration that `s` lists.
pub open spec fn table_map(s: Seq<(Seq<char>, GrantConfigView)>) -> Map<Seq<char>, GrantConfigView> {
    Map::new(
        |k: Seq<char>| table_has(s, k),
        |k: Seq<char>| s[choose|i: int| 0 <= i < s.len() && #[trigger] s[i].0 == k].1,
    )
}

/// The keys of `s`, in order.
pub open spec fn table_keys(s: Seq<(Seq<char>, GrantConfigView)>) -> Seq<Seq<char>> {
    s.map_values(|p: (Seq<char>, GrantConfigView)| p.0)
}

/// The table `s` with `v` stored for `k`: in place of the configuration
/// of `k` where there is one, else at the place that keeps the keys in order.
pub open spec fn table_insert(s: Seq<(Seq<char>, GrantConfigView)>, k: Seq<char>, v: GrantConfigView) -> Seq<(Seq<char>, GrantConfigView)>
    decreases s.len(),
{
    if s.len() == 0 {
        seq![(k, v)]
    } else if s[0].0 == k {
        s.update(0, (k, v))
    } else if key_lt(k, s[0].0) {
        seq![(k, v)] + s
    } else {
        seq![s[0]] + table_insert(s.drop_first(), k, v)
    }
}

/// The table `s` without the configuration of `k`.
pub open spec fn table_remove(s: Seq<(Seq<char>, GrantConfigView)>, k: Seq<char>) -> Seq<(Seq<char>, GrantConfigView)>
    decreases s.len(),
{
    if s.len() == 0 {
        s
    } else if s[0].0 == k {
        s.drop_first()
    } else {
        seq![s[0]] + table_remove(s.drop_first(), k)
    }
}

proof fn lemma_table_insert_at(s: Seq<(Seq<char>, GrantConfigView)>, p: int, k: Seq<char>, v: GrantConfigView, found: bool)
    requires
        table_sorted(s),
        0 <= p <= s.len(),
        forall|j: int| 0 <= j < p ==> key_lt(#[trigger] s[j].0, k),
        found ==> p < s.len() && s[p].0 == k,
        !found ==> forall|j: int| p <= j < s.len() ==> key_lt(k, #[trigger] s[j].0),
    ensures
        found ==> table_insert(s, k, v) == s.update(p, (k, v)),
        !found ==> table_insert(s, k, v) == s.insert(p, (k, v)),
    decreases s.len(),
{
    lemma_key_lt_irreflexive(k);
    if p == 0 {
        if found {
        } else if s.len() == 0 {
            assert(s.insert(0, (k, v)) =~= seq![(k, v)]);
        } else {
            assert(key_lt(k, s[0].0));
            assert(s.insert(0, (k, v)) =~= seq![(k, v)] + s);
        }
    } else {
        let t = s.drop_first();
        assert(key_lt(s[0].0, k));
        lemma_bytes_lt_asymmetric(encode_utf8(s[0].0), encode_utf8(k));
        assert(table_sorted(t)) by {
            assert forall|a: int, b: int| 0 <= a < b < t.len() implies key_lt(#[trigger] t[a].0, #[trigger] t[b].0) by {
                assert(t[a] == s[a + 1] && t[b] == s[b + 1]);
            }
        }
        assert forall|j: int| 0 <= j < p - 1 implies key_lt(#[trigger] t[j].0, k) by {
            assert(t[j] == s[j + 1]);
        }
        if !found {
            assert forall|j: int| p - 1 <= j < t.len() implies key_lt(k, #[trigger] t[j].0) by {
                assert(t[j] == s[j + 1]);
            }
        }
        lemma_table_insert_at(t, p - 1, k, v, found);
        if found {
            assert(s.update(p, (k, v)) =~= seq![s[0]] + t.update(p - 1, (k, v)));
        } else {
            assert(s.insert(p, (k, v)) =~= seq![s[0]] + t.insert(p - 1, (k, v)));
        }
    }
}

proof fn lemma_table_remove_at(s: Seq<(Seq<char>, GrantConfigView)>, k: Seq<char>, p: int, found: bool)
    requires
        table_sorted(s),
        found ==> 0 <= p < s.len() && s[p].0 == k,
        !found ==> !table_has(s, k),
    ensures
        found ==> table_remove(s, k) == s.remove(p),
        !found ==> table_remove(s, k) == s,
    decreases s.len(),
{
    if s.len() > 0 {
        let t = s.drop_first();
        assert(table_sorted(t)) by {
            assert forall|a: int, b: int| 0 <= a < b < t.len() implies key_lt(#[trigger] t[a].0, #[trigger] t[b].0) by {
                assert(t[a] == s[a + 1] && t[b] == s[b + 1]);
            }
        }
        if found {
            lemma_table_at(s, p);
            if p == 0 {
                assert(s.remove(0) =~= t);
            } else {
                assert(s[0].0 != k);
                assert(t[p - 1] == s[p]);
                lemma_table_remove_at(t, k, p - 1, true);
                assert(s.remove(p) =~= seq![s[0]] + t.remove(p - 1));
            }
        } else {
            assert(s[0].0 != k);
            assert(!table_has(t, k)) by {
                if table_has(t, k) {
                    let j = choose|j: int| 0 <= j < t.len() && #[trigger] t[j].0 == k;
                    assert(s[j + 1].0 == k);
                }
            }
            lemma_table_remove_at(t, k, p, false);
            assert(s =~= seq![s[0]] + t);
        }
    }
}

proof fn lemma_key_lt_irreflexive(a: Seq<char>)
    ensures
        !key_lt(a, a),
{
    lemma_bytes_lt_irreflexive(encode_utf8(a));
}

/// In a sorted table each key is listed once, at the place the map gives.
proof fn lemma_table_at(s: Seq<(Seq<char>, GrantConfigView)>, i: int)
    requires
        table_sorted(s),
        0 <= i < s.len(),
    ensures
        table_map(s).contains_key(s[i].0),
        table_map(s)[s[i].0] == s[i].1,
        forall|j: int| 0 <= j < s.len() && #[trigger] s[j].0 == s[i].0 ==> j == i,
{
    assert(s[i].0 == s[i].0);
    assert forall|j: int| 0 <= j < s.len() && #[trigger] s[j].0 == s[i].0 implies j == i by {
        lemma_key_lt_irreflexive(s[i].0);
        if j < i {
            assert(key_lt(s[j].0, s[i].0));
        } else if j > i {
            assert(key_lt(s[i].0, s[j].0));
        }
    }
    let c = choose|j: int| 0 <= j < s.len() && #[trigger] s[j].0 == s[i].0;
    assert(c == i);
}

/// Replacing the configuration at an existing key.
proof fn lemma_table_update(s: Seq<(Seq<char>, GrantConfigView)>, i: int, v: GrantConfigView)
    requires
        table_sorted(s),
        0 <= i < s.len(),
    ensures
        table_sorted(s.update(i, (s[i].0, v))),
        table_map(s.update(i, (s[i].0, v))) =~= table_map(s).insert(s[i].0, v),
{
    let t = s.update(i, (s[i].0, v));
    assert(table_sorted(t)) by {
        assert forall|a: int, b: int| 0 <= a < b < t.len() implies key_lt(#[trigger] t[a].0, #[trigger] t[b].0) by {
            assert(t[a].0 == s[a].0 && t[b].0 == s[b].0);
        }
    }
    assert forall|k: Seq<char>| table_has(t, k) <==> table_has(s, k) || k == s[i].0 by {
        if table_has(s, k) {
            let j = choose|j: int| 0 <= j < s.len() && #[trigger] s[j].0 == k;
            assert(t[j].0 == k);
        }
        if table_has(t, k) {
            let j = choose|j: int| 0 <= j < t.len() && #[trigger] t[j].0 == k;
            assert(s[j].0 == k);
        }
        if k == s[i].0 {
            assert(t[i].0 == k);
        }
    }
    assert forall|k: Seq<char>| #[trigger] table_map(t).contains_key(k) implies table_map(t)[k]
        == table_map(s).insert(s[i].0, v)[k] by {
        let j = choose|j: int| 0 <= j < t.len() && #[trigger] t[j].0 == k;
        lemma_table_at(t, j);
        lemma_table_at(s, j);
    }
}

/// Inserting a new key at the place where it keeps the table sorted.
proof fn lemma_table_insert(s: Seq<(Seq<char>, GrantConfigView)>, p: int, k: Seq<char>, v: GrantConfigView)
    requires
        table_sorted(s),
        0 <= p <= s.len(),
        forall|j: int| 0 <= j < p ==> key_lt(#[trigger] s[j].0, k),
        forall|j: int| p <= j < s.len() ==> key_lt(k, #[trigger] s[j].0),
    ensures
        !table_has(s, k),
        table_sorted(s.insert(p, (k, v))),
        table_map(s.insert(p, (k, v))) =~= table_map(s).insert(k, v),
{
    let t = s.insert(p, (k, v));
    lemma_key_lt_irreflexive(k);
    assert(!table_has(s, k)) by {
        if table_has(s, k) {
            let j = choose|j: int| 0 <= j < s.len() && #[trigger] s[j].0 == k;
            if j < p {
                assert(key_lt(s[j].0, k));
            } else {
                assert(key_lt(k, s[j].0));
            }
        }
    }
    assert(table_sorted(t)) by {
        assert forall|a: int, b: int| 0 <= a < b < t.len() implies key_lt(#[trigger] t[a].0, #[trigger] t[b].0) by {
            if b < p {
                assert(t[a] == s[a] && t[b] == s[b]);
            } else if b == p {
                assert(t[a] == s[a]);
            } else if a < p {
                assert(t[a] == s[a] && t[b] == s[b - 1]);
                lemma_bytes_lt_transitive(encode_utf8(s[a].0), encode_utf8(k), encode_utf8(s[b - 1].0));
            } else if a == p {
                assert(t[b] == s[b - 1]);
            } else {
                assert(t[a] == s[a - 1] && t[b] == s[b - 1]);
            }
        }
    }
    assert forall|x: Seq<char>| table_has(t, x) <==> table_has(s, x) || x == k by {
        if table_has(s, x) {
            let j = choose|j: int| 0 <= j < s.len() && #[trigger] s[j].0 == x;
            if j < p {
                assert(t[j].0 == x);
            } else {
                assert(t[j + 1].0 == x);
            }
        }
        if table_has(t, x) {
            let j = choose|j: int| 0 <= j < t.len() && #[trigger] t[j].0 == x;
            if j < p {
                assert(s[j].0 == x);
            } else if j > p {
                assert(s[j - 1].0 == x);
            }
        }
        if x == k {
            assert(t[p].0 == x);
        }
    }
    assert forall|x: Seq<char>| #[trigger] table_map(t).contains_key(x) implies table_map(t)[x]
        == table_map(s).insert(k, v)[x] by {
        let j = choose|j: int| 0 <= j < t.len() && #[trigger] t[j].0 == x;
        lemma_table_at(t, j);
        if j < p {
            lemma_table_at(s, j);
        } else if j > p {
            lemma_table_at(s, j - 1);
        }
    }
}

/// Removing the entry at an existing key.
proof fn lemma_table_remove(s: Seq<(Seq<char>, GrantConfigView)>, i: int)
    requires
        table_sorted(s),
        0 <= i < s.len(),
    ensures
        table_sorted(s.remove(i)),
        table_map(s.remove(i)) =~= table_map(s).remove(s[i].0),
{
    let t = s.remove(i);
    let k = s[i].0;
    lemma_table_at(s, i);
    assert(table_sorted(t)) by {
        assert forall|a: int, b: int| 0 <= a < b < t.len() implies key_lt(#[trigger] t[a].0, #[trigger] t[b].0) by {
            if b < i {
                assert(t[a] == s[a] && t[b] == s[b]);
            } else if a < i {
                assert(t[a] == s[a] && t[b] == s[b + 1]);
            } else {
                assert(t[a] == s[a + 1] && t[b] == s[b + 1]);
            }
        }
    }
    assert forall|x: Seq<char>| table_has(t, x) <==> table_has(s, x) && x != k by {
        if table_has(s, x) && x != k {
            let j = choose|j: int| 0 <= j < s.len() && #[trigger] s[j].0 == x;
            if j < i {
                assert(t[j].0 == x);
            } else {
                assert(t[j - 1].0 == x);
            }
        }
        if table_has(t, x) {
            let j = choose|j: int| 0 <= j < t.len() && #[trigger] t[j].0 == x;
            if j < i {
                assert(s[j].0 == x);
            } else {
                assert(s[j + 1].0 == x);
            }
        }
    }
    assert forall|x: Seq<char>| #[trigger] table_map(t).contains_key(x) implies table_map(t)[x]
        == table_map(s).remove(k)[x] by {
        let j = choose|j: int| 0 <= j < t.len() && #[trigger] t[j].0 == x;
        lemma_table_at(t, j);
        if j < i {
            lemma_table_at(s, j);
        } else {
            lemma_table_at(s, j + 1);
        }
    }
}

/// One row of the table.
pub(crate) struct GrantEntry {
    pub(crate) type_url: String,
    pub(crate) config: GrantConfig,
}

/// The grant configurations, one per type URL, kept in store order.
pub(crate) struct GrantTable {
    entries: Vec<GrantEntry>,
}

impl View for GrantTable {
    type V = Seq<(Seq<char>, GrantConfigView)>;

    closed spec fn view(&self) -> Seq<(Seq<char>, GrantConfigView)> {
        self.entries@.map_values(|e: GrantEntry| (e.type_url@, e.config@))
    }
}

/// Where a key stands in a sorted table: `found` says whether it is there,
/// `pos` is its place, or the place where it would go.
pub(crate) struct Place {
    pub(crate) found: bool,
    pub(crate) pos: usize,
}

impl GrantTable {
    pub(crate) open spec fn wf(&self) -> bool {
        table_sorted(self@)
    }

    pub(crate) fn new() -> (r: GrantTable)
        ensures
            r@ == Seq::<(Seq<char>, GrantConfigView)>::empty(),
            r.wf(),
    {
        let r = GrantTable { entries: Vec::new() };
        assert(r@ =~= Seq::<(Seq<char>, GrantConfigView)>::empty());
        r
    }

    pub(crate) fn len(&self) -> (r: usize)
        ensures
            r == self@.len(),
    {
        self.entries.len()
    }

    /// The type URL and configuration in row `i`.
    pub(crate) fn row(&self, i: usize) -> (r: (&String, &GrantConfig))
        requires
            i < self@.len(),
        ensures
            r.0@ == self@[i as int].0,
            r.1@ == self@[i as int].1,
    {
        let e = &self.entries[i];
        (&e.type_url, &e.config)
    }

    /// Finds where `key` stands.
    pub(crate) fn locate(&self, key: &String) -> (r: Place)
        requires
            self.wf(),
        ensures
            r.pos <= self@.len(),
            forall|j: int| 0 <= j < r.pos ==> key_lt(#[trigger] self@[j].0, key@),
            r.found ==> r.pos < self@.len() && self@[r.pos as int].0 == key@,
            !r.found ==> forall|j: int| r.pos <= j < self@.len() ==> key_lt(key@, #[trigger] self@[j].0),
            r.found == table_has(self@, key@),
    {
        let kb = key.as_str().as_bytes();
        let mut i: usize = 0;
        while i < self.entries.len()
            invariant
                i <= self@.len(),
                self.entries@.len() == self@.len(),
                kb@ == encode_utf8(key@),
                self.wf(),
                forall|j: int| 0 <= j < i ==> key_lt(#[trigger] self@[j].0, key@),
            decreases self.entries.len() - i,
        {
            let e = &self.entries[i];
            assert(self@[i as int].0 == e.type_url@);
            match compare_bytes(e.type_url.as_str().as_bytes(), kb) {
                Comparison::Less => {},
                Comparison::Equal => {
                    proof {
                        encode_utf8_decode_utf8(e.type_url@);
                        encode_utf8_decode_utf8(key@);
                    }
                    return Place { found: true, pos: i };
                },
                Comparison::Greater => {
                    proof {
                        assert forall|j: int| i <= j < self@.len() implies key_lt(key@, #[trigger] self@[j].0) by {
                            if j > i {
                                assert(key_lt(self@[i as int].0, self@[j].0));
                                lemma_bytes_lt_transitive(encode_utf8(key@), encode_utf8(self@[i as int].0), encode_utf8(self@[j].0));
                            }
                        }
                        self.lemma_absent(key@, i as int);
                    }
                    return Place { found: false, pos: i };
                },
            }
            i = i + 1;
        }
        proof { self.lemma_absent(key@, i as int); }
        Place { found: false, pos: i }
    }

    proof fn lemma_absent(&self, k: Seq<char>, p: int)
        requires
            0 <= p <= self@.len(),
            forall|j: int| 0 <= j < p ==> key_lt(#[trigger] self@[j].0, k),
            forall|j: int| p <= j < self@.len() ==> key_lt(k, #[trigger] self@[j].0),
        ensures
            !table_has(self@, k),
    {
        lemma_key_lt_irreflexive(k);
        if table_has(self@, k) {
            let j = choose|j: int| 0 <= j < self@.len() && #[trigger] self@[j].0 == k;
            if j < p {
                assert(key_lt(self@[j].0, k));
            } else {
                assert(key_lt(k, self@[j].0));
            }
        }
    }

    /// The configuration stored for `key`.
    pub(crate) fn get(&self, key: &String) -> (r: Option<&GrantConfig>)
        requires
            self.wf(),
        ensures
            r is Some <==> table_map(self@).contains_key(key@),
            r matches Some(c) ==> c@ == table_map(self@)[key@],
    {
        let place = self.locate(key);
        if place.found {
            proof { lemma_table_at(self@, place.pos as int); }
            Some(&self.entries[place.pos].config)
        } else {
            None
        }
    }

    /// Stores `config` for `key`; says whether a configuration was replaced.
    pub(crate) fn insert(&mut self, key: String, config: GrantConfig) -> (existed: bool)
        requires
            old(self).wf(),
        ensures
            final(self).wf(),
            existed == table_map(old(self)@).contains_key(key@),
            final(self)@ == table_insert(old(self)@, key@, config@),
            table_map(final(self)@) == table_map(old(self)@).insert(key@, config@),
    {
        let place = self.locate(&key);
        let ghost s = self@;
        if place.found {
            proof {
                lemma_table_update(s, place.pos as int, config@);
                lemma_table_insert_at(s, place.pos as int, key@, config@, true);
            }
            let e = GrantEntry { type_url: key, config };
            self.entries.set(place.pos, e);
            assert(self@ =~= s.update(place.pos as int, (s[place.pos as int].0, config@)));
            true
        } else {
            proof {
                lemma_table_insert(s, place.pos as int, key@, config@);
                lemma_table_insert_at(s, place.pos as int, key@, config@, false);
            }
            let ghost kv = key@;
            let ghost cv = config@;
            let e = GrantEntry { type_url: key, config };
            self.entries.insert(place.pos, e);
            assert(self@ =~= s.insert(place.pos as int, (kv, cv)));
            false
        }
    }

    /// Removes the configuration of `key`; says whether there was one.
    pub(crate) fn remove(&mut self, key: &String) -> (existed: bool)
        requires
            old(self).wf(),
        ensures
            final(self).wf(),
            existed == table_map(old(self)@).contains_key(key@),
            final(self)@ == table_remove(old(self)@, key@),
            table_map(final(self)@) == table_map(old(self)@).remove(key@),
    {
        let place = self.locate(key);
        if place.found {
            let ghost s = self@;
            proof {
                lemma_table_remove(s, place.pos as int);
                lemma_table_remove_at(s, key@, place.pos as int, true);
            }
            self.entries.remove(place.pos);
            assert(self@ =~= s.remove(place.pos as int));
            true
        } else {
            assert(table_map(self@) =~= table_map(self@).remove(key@));
            proof { lemma_table_remove_at(self@, key@, 0, false); }
            false
        }
    }

    /// The type URLs, in store order.
    pub(crate) fn type_urls(&self) -> (r: Vec<String>)
        ensures
            strings_view(r@) == table_keys(self@),
    {
        let mut r: Vec<String> = Vec::new();
        let mut i: usize = 0;
        while i < self.entries.len()
            invariant
                i <= self.entries@.len(),
                self.entries@.len() == self@.len(),
                strings_view(r@) == table_keys(self@).take(i as int),
            decreases self.entries.len() - i,
        {
            let ghost before = r@;
            assert(strings_view(before).len() == i);
            assert(before.len() == i);
            let u = self.entries[i].type_url.clone();
            assert(u@ == self.entries@[i as int].type_url@);
            r.push(u);
            assert(self@[i as int].0 == self.entries@[i as int].type_url@);
            assert forall|j: int| 0 <= j < i + 1 implies #[trigger] strings_view(r@)[j] == table_keys(self@).take(i + 1)[j] by {
                if j < i {
                    assert(r@[j] == before[j]);
                    assert(strings_view(before)[j] == table_keys(self@).take(i as int)[j]);
                }
            }
            assert(strings_view(r@) =~= table_keys(self@).take(i + 1));
            i = i + 1;
        }
        assert(table_keys(self@).take(i as int) =~= table_keys(self@));
        r
    }
}

} // verus!

verus! {

/// Where `k` stands in the sorted table `s`: every key before the place is
/// smaller, and the key at the place is `k` (`found`) or every key from the
/// place on is greater.
proof fn lemma_place(s: Seq<(Seq<char>, GrantConfigView)>, k: Seq<char>) -> (r: (int, bool))
    requires
        table_sorted(s),
    ensures
        0 <= r.0 <= s.len(),
        forall|j: int| 0 <= j < r.0 ==> key_lt(#[trigger] s[j].0, k),
        r.1 ==> r.0 < s.len() && s[r.0].0 == k,
        !r.1 ==> forall|j: int| r.0 <= j < s.len() ==> key_lt(k, #[trigger] s[j].0),
    decreases s.len(),
{
    if s.len() == 0 {
        (0, false)
    } else if s[0].0 == k {
        (0, true)
    } else if key_lt(k, s[0].0) {
        assert forall|j: int| 0 <= j < s.len() implies key_lt(k, #[trigger] s[j].0) by {
            if j > 0 {
                assert(key_lt(s[0].0, s[j].0));
                lemma_bytes_lt_transitive(encode_utf8(k), encode_utf8(s[0].0), encode_utf8(s[j].0));
            }
        }
        (0, false)
    } else {
        encode_utf8_decode_utf8(k);
        encode_utf8_decode_utf8(s[0].0);
        crate::order::lemma_bytes_lt_total(encode_utf8(s[0].0), encode_utf8(k));
        let t = s.drop_first();
        assert(table_sorted(t)) by {
            assert forall|a: int, b: int| 0 <= a < b < t.len() implies key_lt(#[trigger] t[a].0, #[trigger] t[b].0) by {
                assert(t[a] == s[a + 1] && t[b] == s[b + 1]);
            }
        }
        let (p, found) = lemma_place(t, k);
        assert forall|j: int| 0 <= j < p + 1 implies key_lt(#[trigger] s[j].0, k) by {
            if j > 0 {
                assert(s[j] == t[j - 1]);
            }
        }
        if !found {
            assert forall|j: int| p + 1 <= j < s.len() implies key_lt(k, #[trigger] s[j].0) by {
                assert(s[j] == t[j - 1]);
            }
        } else {
            assert(s[p + 1] == t[p]);
        }
        (p + 1, found)
    }
}

/// Storing a configuration keeps a table sorted and stores it in the map.
pub proof fn lemma_table_insert_law(s: Seq<(Seq<char>, GrantConfigView)>, k: Seq<char>, v: GrantConfigView)
    requires
        table_sorted(s),
    ensures
        table_sorted(table_insert(s, k, v)),
        table_map(table_insert(s, k, v)) == table_map(s).insert(k, v),
        table_has(table_insert(s, k, v), k),
{
    let (p, found) = lemma_place(s, k);
    lemma_table_insert_at(s, p, k, v, found);
    if found {
        lemma_table_update(s, p, v);
    } else {
        lemma_table_insert(s, p, k, v);
    }
    assert(table_map(table_insert(s, k, v)).contains_key(k));
}

/// Removing a configuration keeps a table sorted and removes it from the map.
pub proof fn lemma_table_remove_law(s: Seq<(Seq<char>, GrantConfigView)>, k: Seq<char>)
    requires
        table_sorted(s),
    ensures
        table_sorted(table_remove(s, k)),
        table_map(table_remove(s, k)) == table_map(s).remove(k),
        !table_has(table_remove(s, k), k),
{
    let (p, found) = lemma_place(s, k);
    if found {
        lemma_table_remove_at(s, k, p, true);
        lemma_table_remove(s, p);
    } else {
        assert(!table_has(s, k)) by {
            lemma_key_lt_irreflexive(k);
            if table_has(s, k) {
                let j = choose|j: int| 0 <= j < s.len() && #[trigger] s[j].0 == k;
                if j < p {
                    assert(key_lt(s[j].0, k));
                } else {
                    assert(key_lt(k, s[j].0));
                }
            }
        }
        lemma_table_remove_at(s, k, p, false);
        assert(table_map(s) =~= table_map(s).remove(k));
    }
    assert(!table_map(table_remove(s, k)).contains_key(k));
}

} // verus!
