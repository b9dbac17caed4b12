//! A map from text to values that is walked in the ascending order of its keys.
use crate::text::chars_of;
use vstd::prelude::*;

verus! {

/// Whether `a` comes before `b` in the order of their characters: at the first
/// position where they differ, `a` has the smaller character or has ended.
pub open spec fn before(a: Seq<char>, b: Seq<char>) -> bool
    decreases a.len(),
{
    if b.len() == 0 {
        false
    } else if a.len() == 0 {
        true
    } else if a[0] != b[0] {
        a[0] < b[0]
    } else {
        before(a.skip(1), b.skip(1))
    }
}

/// How a text stands to another one in the order of `before`.
pub enum Rank {
    Before,
    Same,
    After,
}

/// No text comes before itself, and no two come before each other.
pub proof fn law_before_is_strict(a: Seq<char>, b: Seq<char>)
    ensures
        !before(a, a),
        before(a, b) ==> !before(b, a),
        before(a, b) ==> a != b,
    decreases a.len(),
{
    if a.len() > 0 && b.len() > 0 {
        law_before_is_strict(a.skip(1), b.skip(1));
    } else if a.len() > 0 {
        law_before_is_strict(a.skip(1), b);
    }
}

/// What comes before a text that comes before a third comes before the third.
pub proof fn law_before_is_transitive(a: Seq<char>, b: Seq<char>, c: Seq<char>)
    requires
        before(a, b),
        before(b, c),
    ensures
        before(a, c),
    decreases a.len(),
{
    if a.len() > 0 && b.len() > 0 && c.len() > 0 && a[0] == b[0] && b[0] == c[0] {
        law_before_is_transitive(a.skip(1), b.skip(1), c.skip(1));
    }
}

/// Of two different texts one comes before the other.
pub proof fn law_before_is_total(a: Seq<char>, b: Seq<char>)
    ensures
        before(a, b) || a == b || before(b, a),
    decreases a.len(),
{
    if a.len() == 0 || b.len() == 0 {
        if a.len() == b.len() {
            assert(a =~= b);
        }
    } else if a[0] == b[0] {
        law_before_is_total(a.skip(1), b.skip(1));
        if a.skip(1) == b.skip(1) {
            assert(a =~= seq![a[0]] + a.skip(1));
            assert(b =~= seq![b[0]] + b.skip(1));
        }
    }
}

/// The first position where two texts differ decides, by the smaller character; a
/// text comes before any that goes on where it ends.
pub proof fn law_first_difference_decides(
    common: Seq<char>,
    x: char,
    y: char,
    a: Seq<char>,
    b: Seq<char>,
)
    ensures
        x != y ==> (before(common.push(x) + a, common.push(y) + b) <==> x < y),
        b.len() > 0 ==> before(common, common + b),
        !before(common + b, common),
    decreases common.len(),
{
    let p = common.push(x) + a;
    let q = common.push(y) + b;
    if common.len() > 0 {
        let rest = common.skip(1);
        law_first_difference_decides(rest, x, y, a, b);
        assert(p.skip(1) =~= rest.push(x) + a);
        assert(q.skip(1) =~= rest.push(y) + b);
        assert((common + b).skip(1) =~= rest + b);
    }
}

/// How `a` stands to `b`.
pub fn rank(a: &str, b: &str) -> (r: Rank)
    ensures
        r is Before <==> before(a@, b@),
        r is Same <==> a@ == b@,
        r is After <==> before(b@, a@),
{
    let x = chars_of(a);
    let y = chars_of(b);
    let n = x.len();
    let m = y.len();
    let mut i: usize = 0;
    proof {
        assert(a@.skip(0) =~= a@);
        assert(b@.skip(0) =~= b@);
        law_before_is_strict(a@, b@);
        law_before_is_strict(b@, a@);
    }
    while i < n && i < m && x[i] == y[i]
        invariant
            x@ == a@,
            y@ == b@,
            n == a@.len(),
            m == b@.len(),
            i <= n,
            i <= m,
            forall|j: int| 0 <= j < i ==> a@[j] == b@[j],
            before(a@.skip(i as int), b@.skip(i as int)) == before(a@, b@),
            before(b@.skip(i as int), a@.skip(i as int)) == before(b@, a@),
        decreases n - i,
    {
        assert(a@.skip(i as int).skip(1) =~= a@.skip(i + 1));
        assert(b@.skip(i as int).skip(1) =~= b@.skip(i + 1));
        i = i + 1;
    }
    if i == m {
        if i == n {
            assert(a@ =~= b@);
            Rank::Same
        } else {
            Rank::After
        }
    } else if i == n {
        Rank::Before
    } else {
        assert(a@.skip(i as int)[0] != b@.skip(i as int)[0]);
        if x[i] < y[i] {
            Rank::Before
        } else {
            Rank::After
        }
    }
}

// ---------------------------------------------------------------------------
// Listings: the entries of a map in the ascending order of their keys

/// Whether each key comes before the next.
pub open spec fn ascending<W>(l: Seq<(Seq<char>, W)>) -> bool {
    forall|i: int, j: int| 0 <= i < j < l.len() ==> before(#[trigger] l[i].0, #[trigger] l[j].0)
}

/// The value that a listing has under `key`.
pub open spec fn lookup<W>(l: Seq<(Seq<char>, W)>, key: Seq<char>) -> Option<W>
    decreases l.len(),
{
    if l.len() == 0 {
        None
    } else if l[0].0 == key {
        Some(l[0].1)
    } else {
        lookup(l.skip(1), key)
    }
}

/// `l` with `value` under `key`: in place of the value that stood there, or as
/// a new entry where its key belongs in the order.
pub open spec fn put<W>(l: Seq<(Seq<char>, W)>, key: Seq<char>, value: W) -> Seq<(Seq<char>, W)>
    decreases l.len(),
{
    if l.len() == 0 || before(key, l[0].0) {
        seq![(key, value)] + l
    } else if l[0].0 == key {
        seq![(key, value)] + l.skip(1)
    } else {
        seq![l[0]] + put(l.skip(1), key, value)
    }
}

/// A key is looked up at the position where it stands.
pub proof fn lemma_lookup_at<W>(l: Seq<(Seq<char>, W)>, i: int)
    requires
        ascending(l),
        0 <= i < l.len(),
    ensures
        lookup(l, l[i].0) == Some(l[i].1),
    decreases l.len(),
{
    if i > 0 {
        law_before_is_strict(l[0].0, l[i].0);
        assert(l.skip(1)[i - 1] == l[i]);
        lemma_lookup_at(l.skip(1), i - 1);
    }
}

/// A key that is found stands at some position.
pub proof fn lemma_lookup_found<W>(l: Seq<(Seq<char>, W)>, key: Seq<char>) -> (i: int)
    requires
        lookup(l, key) is Some,
    ensures
        0 <= i < l.len(),
        l[i].0 == key,
        lookup(l, key) == Some(l[i].1),
    decreases l.len(),
{
    if l[0].0 == key {
        0
    } else {
        lemma_lookup_found(l.skip(1), key) + 1
    }
}

/// A key that stands at no position is not found.
pub proof fn lemma_lookup_absent<W>(l: Seq<(Seq<char>, W)>, key: Seq<char>)
    requires
        forall|i: int| 0 <= i < l.len() ==> (#[trigger] l[i]).0 != key,
    ensures
        lookup(l, key) is None,
    decreases l.len(),
{
    if l.len() > 0 {
        assert forall|i: int| 0 <= i < l.skip(1).len() implies (#[trigger] l.skip(1)[i]).0
            != key by {
            assert(l.skip(1)[i] == l[i + 1]);
        }
        lemma_lookup_absent(l.skip(1), key);
    }
}

/// `put`, by the position `i` of the first key that does not come before `key`.
proof fn lemma_put_at<W>(l: Seq<(Seq<char>, W)>, key: Seq<char>, value: W, i: int)
    requires
        0 <= i <= l.len(),
        forall|j: int| 0 <= j < i ==> before((#[trigger] l[j]).0, key),
        i < l.len() ==> !before(l[i].0, key),
    ensures
        i < l.len() && l[i].0 == key ==> put(l, key, value) == l.update(i, (key, value)),
        !(i < l.len() && l[i].0 == key) ==> put(l, key, value) == l.insert(i, (key, value)),
    decreases l.len(),
{
    if i == 0 {
        if l.len() > 0 {
            law_before_is_strict(key, l[0].0);
            law_before_is_total(key, l[0].0);
            if l[0].0 == key {
                assert(put(l, key, value) =~= l.update(0, (key, value)));
            } else {
                assert(put(l, key, value) =~= l.insert(0, (key, value)));
            }
        } else {
            assert(put(l, key, value) =~= l.insert(0, (key, value)));
        }
    } else {
        law_before_is_strict(l[0].0, key);
        let t = l.skip(1);
        assert forall|j: int| 0 <= j < i - 1 implies before((#[trigger] t[j]).0, key) by {
            assert(t[j] == l[j + 1]);
        }
        assert(i - 1 < t.len() ==> t[i - 1] == l[i]);
        lemma_put_at(t, key, value, i - 1);
        if i < l.len() && l[i].0 == key {
            assert(seq![l[0]] + t.update(i - 1, (key, value)) =~= l.update(i, (key, value)));
        } else {
            assert(seq![l[0]] + t.insert(i - 1, (key, value)) =~= l.insert(i, (key, value)));
        }
    }
}

/// Putting a value under a key keeps the order of the keys.
pub proof fn law_put_keeps_order<W>(l: Seq<(Seq<char>, W)>, key: Seq<char>, value: W)
    requires
        ascending(l),
    ensures
        ascending(put(l, key, value)),
    decreases l.len(),
{
    if l.len() == 0 || before(key, l[0].0) {
        let r = put(l, key, value);
        assert forall|i: int, j: int| 0 <= i < j < r.len() implies before(
            #[trigger] r[i].0,
            #[trigger] r[j].0,
        ) by {
            if i == 0 {
                assert(r[j] == l[j - 1]);
                if j > 1 {
                    law_before_is_transitive(key, l[0].0, l[j - 1].0);
                }
            } else {
                assert(r[i] == l[i - 1] && r[j] == l[j - 1]);
            }
        }
    } else if l[0].0 == key {
        let r = put(l, key, value);
        assert forall|i: int, j: int| 0 <= i < j < r.len() implies before(
            #[trigger] r[i].0,
            #[trigger] r[j].0,
        ) by {
            assert(r[i].0 == l[i].0 && r[j].0 == l[j].0);
        }
    } else {
        let t = l.skip(1);
        law_before_is_total(key, l[0].0);
        law_put_keeps_order(t, key, value);
        let u = put(t, key, value);
        let r = put(l, key, value);
        assert forall|i: int, j: int| 0 <= i < j < r.len() implies before(
            #[trigger] r[i].0,
            #[trigger] r[j].0,
        ) by {
            assert(r[j] == u[j - 1]);
            if i == 0 {
                lemma_put_keys(t, key, value, j - 1);
                if u[j - 1].0 != key {
                    let k = choose|k: int| 0 <= k < t.len() && #[trigger] t[k].0 == u[j - 1].0;
                    assert(t[k] == l[k + 1]);
                }
            } else {
                assert(r[i] == u[i - 1]);
            }
        }
    }
}

/// Each key of a listing after `put` is the new one or was there before.
proof fn lemma_put_keys<W>(l: Seq<(Seq<char>, W)>, key: Seq<char>, value: W, i: int)
    requires
        0 <= i < put(l, key, value).len(),
    ensures
        put(l, key, value)[i].0 == key || exists|k: int|
            0 <= k < l.len() && #[trigger] l[k].0 == put(l, key, value)[i].0,
    decreases l.len(),
{
    let r = put(l, key, value);
    if l.len() == 0 || before(key, l[0].0) {
        if i > 0 {
            assert(l[i - 1].0 == r[i].0);
        }
    } else if l[0].0 == key {
        assert(l[i].0 == r[i].0);
    } else if i == 0 {
        assert(l[0].0 == r[0].0);
    } else {
        lemma_put_keys(l.skip(1), key, value, i - 1);
        if r[i].0 != key {
            let k = choose|k: int| 0 <= k < l.skip(1).len() && #[trigger] l.skip(1)[k].0 == r[i].0;
            assert(l[k + 1].0 == r[i].0);
        }
    }
}

/// A listing holds, under a key, the value that stands with the key at some
/// position, and none exactly where the key stands at no position.
pub proof fn law_lookup_is_by_position<W>(l: Seq<(Seq<char>, W)>, key: Seq<char>)
    requires
        ascending(l),
    ensures
        lookup(l, key) is None <==> forall|i: int| 0 <= i < l.len() ==> (#[trigger] l[i]).0 != key,
        forall|i: int|
            0 <= i < l.len() && (#[trigger] l[i]).0 == key ==> lookup(l, key) == Some(l[i].1),
{
    if forall|i: int| 0 <= i < l.len() ==> (#[trigger] l[i]).0 != key {
        lemma_lookup_absent(l, key);
    }
    assert forall|i: int| 0 <= i < l.len() && (#[trigger] l[i]).0 == key implies lookup(l, key)
        == Some(l[i].1) by {
        lemma_lookup_at(l, i);
    }
}

/// A lookup gives back what was put under the key, and every other key has the
/// value that it had.
pub proof fn law_lookup_after_put<W>(
    l: Seq<(Seq<char>, W)>,
    key: Seq<char>,
    value: W,
    other: Seq<char>,
)
    requires
        ascending(l),
    ensures
        lookup(put(l, key, value), key) == Some(value),
        other != key ==> lookup(put(l, key, value), other) == lookup(l, other),
    decreases l.len(),
{
    let r = put(l, key, value);
    if l.len() == 0 || before(key, l[0].0) {
        assert(r.skip(1) =~= l);
    } else if l[0].0 == key {
        assert(r.skip(1) =~= l.skip(1));
    } else {
        law_lookup_after_put(l.skip(1), key, value, other);
        assert(r.skip(1) =~= put(l.skip(1), key, value));
    }
}

// ---------------------------------------------------------------------------
// The map

/// A map from text to values. Its keys are distinct and are kept, and walked,
/// in ascending order.
#[derive(Debug, PartialEq, Eq)]
pub struct TextMap<V> {
    entries: Vec<(String, V)>,
}

impl<V: DeepView> DeepView for TextMap<V> {
    type V = Seq<(Seq<char>, V::V)>;

    /// The entries in the ascending order of their keys.
    closed spec fn deep_view(&self) -> Seq<(Seq<char>, V::V)> {
        self.entries.deep_view()
    }
}

impl<V> TextMap<V> {
    #[verifier::type_invariant]
    spec fn keys_ascend(self) -> bool {
        forall|i: int, j: int|
            0 <= i < j < self.entries@.len() ==> before(
                #[trigger] self.entries@[i].0@,
                #[trigger] self.entries@[j].0@,
            )
    }

    /// The keys and values as they are held.
    pub closed spec fn held(self) -> Seq<(String, V)> {
        self.entries@
    }
}

impl<V: Clone> Clone for TextMap<V> {
    /// A map with the same keys, each with a clone of its value.
    fn clone(&self) -> (r: Self)
        ensures
            r.held().len() == self.held().len(),
            forall|i: int|
                0 <= i < r.held().len() ==> (#[trigger] r.held()[i]).0@ == self.held()[i].0@
                    && cloned(self.held()[i].1, r.held()[i].1),
    {
        proof {
            use_type_invariant(self);
        }
        let mut entries: Vec<(String, V)> = Vec::new();
        let mut i: usize = 0;
        while i < self.entries.len()
            invariant
                i <= self.entries@.len(),
                entries@.len() == i,
                forall|j: int|
                    0 <= j < i ==> (#[trigger] entries@[j]).0@ == self.entries@[j].0@ && cloned(
                        self.entries@[j].1,
                        entries@[j].1,
                    ),
            decreases self.entries@.len() - i,
        {
            let value = self.entries[i].1.clone();
            entries.push((self.entries[i].0.clone(), value));
            i = i + 1;
        }
        TextMap { entries }
    }
}

impl<V: DeepView> TextMap<V> {
    /// A map with no entries.
    pub fn new() -> (r: Self)
        ensures
            r.deep_view() == Seq::<(Seq<char>, V::V)>::empty(),
    {
        let r = TextMap { entries: Vec::new() };
        assert(r.deep_view() =~= Seq::<(Seq<char>, V::V)>::empty());
        r
    }

    /// The number of entries. The keys of every map ascend.
    pub fn len(&self) -> (n: usize)
        ensures
            n == self.deep_view().len(),
            ascending(self.deep_view()),
    {
        proof {
            use_type_invariant(self);
            self.lemma_ascending();
        }
        self.entries.len()
    }

    /// Whether there are no entries.
    pub fn is_empty(&self) -> (r: bool)
        ensures
            r == (self.deep_view().len() == 0),
    {
        self.entries.len() == 0
    }

    proof fn lemma_ascending(self)
        requires
            self.keys_ascend(),
        ensures
            ascending(self.deep_view()),
    {
        let l = self.deep_view();
        assert forall|i: int, j: int| 0 <= i < j < l.len() implies before(
            #[trigger] l[i].0,
            #[trigger] l[j].0,
        ) by {
            assert(l[i].0 == self.entries@[i].0@ && l[j].0 == self.entries@[j].0@);
        }
    }

    /// The key at position `i` in ascending order.
    pub fn key_at(&self, i: usize) -> (r: &String)
        requires
            i < self.deep_view().len(),
        ensures
            r@ == self.deep_view()[i as int].0,
    {
        &self.entries[i].0
    }

    /// The value at position `i` in the ascending order of the keys.
    pub fn value_at(&self, i: usize) -> (r: &V)
        requires
            i < self.deep_view().len(),
        ensures
            r.deep_view() == self.deep_view()[i as int].1,
    {
        &self.entries[i].1
    }

    /// The position of the first key that does not come before `key`, and
    /// whether it is `key`.
    fn position(&self, key: &str) -> (r: (usize, bool))
        ensures
            r.0 <= self.entries@.len(),
            forall|j: int| 0 <= j < r.0 ==> before((#[trigger] self.entries@[j]).0@, key@),
            r.0 < self.entries@.len() ==> !before(self.entries@[r.0 as int].0@, key@),
            r.1 == (r.0 < self.entries@.len() && self.entries@[r.0 as int].0@ == key@),
    {
        let mut i: usize = 0;
        while i < self.entries.len()
            invariant
                i <= self.entries@.len(),
                forall|j: int| 0 <= j < i ==> before((#[trigger] self.entries@[j]).0@, key@),
            decreases self.entries@.len() - i,
        {
            match rank(self.entries[i].0.as_str(), key) {
                Rank::Before => {},
                Rank::Same => {
                    proof {
                        law_before_is_strict(key@, key@);
                    }
                    return (i, true);
                },
                Rank::After => {
                    proof {
                        law_before_is_strict(key@, self.entries@[i as int].0@);
                    }
                    return (i, false);
                },
            }
            i = i + 1;
        }
        (i, false)
    }

    /// The value under `key`.
    pub fn get(&self, key: &str) -> (r: Option<&V>)
        ensures
            r.deep_view() == lookup(self.deep_view(), key@),
    {
        proof {
            use_type_invariant(self);
            self.lemma_ascending();
        }
        let (i, found) = self.position(key);
        let ghost l = self.deep_view();
        if found {
            proof {
                lemma_lookup_at(l, i as int);
            }
            Some(&self.entries[i].1)
        } else {
            proof {
                assert forall|j: int| 0 <= j < l.len() implies (#[trigger] l[j]).0 != key@ by {
                    assert(l[j].0 == self.entries@[j].0@);
                    if j < i {
                        law_before_is_strict(l[j].0, key@);
                    } else if j > i {
                        assert(l[i as int].0 == self.entries@[i as int].0@);
                        law_before_is_strict(l[i as int].0, l[j].0);
                    }
                }
                lemma_lookup_absent(l, key@);
            }
            None
        }
    }

    /// Whether there is a value under `key`.
    pub fn contains_key(&self, key: &str) -> (r: bool)
        ensures
            r == lookup(self.deep_view(), key@) is Some,
    {
        self.get(key).is_some()
    }

    /// Puts `value` under `key` and hands back the value that it replaces.
    pub fn insert(&mut self, key: String, value: V) -> (r: Option<V>)
        ensures
            final(self).deep_view() == put(old(self).deep_view(), key@, value.deep_view()),
            r.deep_view() == lookup(old(self).deep_view(), key@),
    {
        proof {
            use_type_invariant(&*self);
            self.lemma_ascending();
        }
        let ghost l = self.deep_view();
        let ghost k = key@;
        let ghost v = value.deep_view();
        let (i, found) = self.position(key.as_str());
        proof {
            assert(forall|j: int| 0 <= j < l.len() ==> (#[trigger] l[j]).0 == self.entries@[j].0@);
            lemma_put_at(l, k, v, i as int);
            law_put_keeps_order(l, k, v);
        }
        let mut entries: Vec<(String, V)> = Vec::new();
        std::mem::swap(&mut entries, &mut self.entries);
        if found {
            proof {
                lemma_lookup_at(l, i as int);
            }
            let replaced = entries.remove(i);
            entries.insert(i, (key, value));
            assert(entries.deep_view() =~= l.update(i as int, (k, v)));
            proof {
                lemma_held_order(entries);
            }
            self.entries = entries;
            Some(replaced.1)
        } else {
            proof {
                assert forall|j: int| 0 <= j < l.len() implies (#[trigger] l[j]).0 != k by {
                    if j < i {
                        law_before_is_strict(l[j].0, k);
                    } else if j > i {
                        law_before_is_strict(l[i as int].0, l[j].0);
                    }
                }
                lemma_lookup_absent(l, k);
            }
            entries.insert(i, (key, value));
            assert(entries.deep_view() =~= l.insert(i as int, (k, v)));
            proof {
                lemma_held_order(entries);
            }
            self.entries = entries;
            None
        }
    }
}

/// Keys that ascend in a listing ascend as they are held.
proof fn lemma_held_order<V: DeepView>(entries: Vec<(String, V)>)
    requires
        ascending(entries.deep_view()),
    ensures
        forall|i: int, j: int|
            0 <= i < j < entries@.len() ==> before(
                #[trigger] entries@[i].0@,
                #[trigger] entries@[j].0@,
            ),
{
    let l = entries.deep_view();
    assert forall|i: int, j: int| 0 <= i < j < entries@.len() implies before(
        #[trigger] entries@[i].0@,
        #[trigger] entries@[j].0@,
    ) by {
        assert(l[i].0 == entries@[i].0@ && l[j].0 == entries@[j].0@);
    }
}

} // verus!
