//! Maps kept in the order of their keys.
//!
//! The order of a key is given by its rank, a sequence of integers compared
//! lexicographically. A map holds each rank at most once, and walks its entries from
//! the smallest rank to the largest.
use crate::duplicate::{duplicate_all, Duplicate};
use vstd::prelude::*;

verus! {

/// How two keys stand to each other.
#[derive(Clone, Copy, Debug, PartialEq, Eq, Structural)]
pub enum Order {
    Less,
    Equal,
    Greater,
}

/// Lexicographic order: the first position that differs decides, and a proper prefix
/// comes before what extends it.
pub open spec fn lex_less(a: Seq<int>, b: Seq<int>) -> bool
    decreases a.len(),
{
    if b.len() == 0 {
        false
    } else if a.len() == 0 {
        true
    } else if a[0] != b[0] {
        a[0] < b[0]
    } else {
        lex_less(a.drop_first(), b.drop_first())
    }
}

/// What `Order` says of two ranks.
pub open spec fn order_of(a: Seq<int>, b: Seq<int>) -> Order {
    if a == b {
        Order::Equal
    } else if lex_less(a, b) {
        Order::Less
    } else {
        Order::Greater
    }
}

/// No sequence comes before itself.
pub proof fn lemma_lex_irreflexive(a: Seq<int>)
    ensures
        !lex_less(a, a),
    decreases a.len(),
{
    if a.len() > 0 {
        lemma_lex_irreflexive(a.drop_first());
    }
}

/// The lexicographic order is transitive.
pub proof fn lemma_lex_transitive(a: Seq<int>, b: Seq<int>, c: Seq<int>)
    requires
        lex_less(a, b),
        lex_less(b, c),
    ensures
        lex_less(a, c),
    decreases a.len(),
{
    if a.len() > 0 && b.len() > 0 && c.len() > 0 && a[0] == b[0] && b[0] == c[0] {
        lemma_lex_transitive(a.drop_first(), b.drop_first(), c.drop_first());
    }
}

/// Of two different sequences one comes before the other.
pub proof fn lemma_lex_total(a: Seq<int>, b: Seq<int>)
    requires
        a != b,
    ensures
        lex_less(a, b) || lex_less(b, a),
    decreases a.len(),
{
    if a.len() > 0 && b.len() > 0 && a[0] == b[0] {
        assert(a.drop_first() != b.drop_first()) by {
            if a.drop_first() == b.drop_first() {
                assert(a =~= seq![a[0]] + a.drop_first());
                assert(b =~= seq![b[0]] + b.drop_first());
            }
        }
        lemma_lex_total(a.drop_first(), b.drop_first());
    } else if a.len() == 0 && b.len() == 0 {
        assert(a =~= b);
    }
}

/// Two sequences never come before each other.
pub proof fn lemma_lex_asymmetric(a: Seq<int>, b: Seq<int>)
    requires
        lex_less(a, b),
    ensures
        !lex_less(b, a),
        a != b,
{
    lemma_lex_irreflexive(a);
    if lex_less(b, a) {
        lemma_lex_transitive(a, b, a);
    }
}

/// A key of a `SortedMap`.
pub trait Key: Sized {
    /// What the key is ordered and told apart by.
    spec fn rank(&self) -> Seq<int>;

    /// Compares two keys by their ranks.
    fn compare(&self, other: &Self) -> (order: Order)
        ensures
            order == order_of(self.rank(), other.rank()),
    ;
}

/// Whether `entries` stand in strictly ascending order of their keys.
pub open spec fn ascending<K: Key, V>(entries: Seq<(K, V)>) -> bool {
    forall|i: int, j: int|
        0 <= i < j < entries.len() ==> lex_less(
            (#[trigger] entries[i]).0.rank(),
            (#[trigger] entries[j]).0.rank(),
        )
}

/// How many leading entries come before `rank`.
pub open spec fn slot<K: Key, V>(entries: Seq<(K, V)>, rank: Seq<int>) -> nat
    decreases entries.len(),
{
    if entries.len() > 0 && lex_less(entries[0].0.rank(), rank) {
        1 + slot(entries.drop_first(), rank)
    } else {
        0
    }
}

/// Whether an entry of that rank is among `entries`.
pub open spec fn has<K: Key, V>(entries: Seq<(K, V)>, rank: Seq<int>) -> bool {
    exists|i: int| 0 <= i < entries.len() && (#[trigger] entries[i]).0.rank() == rank
}

/// The value kept under `rank`, if there is one.
pub open spec fn lookup<K: Key, V>(entries: Seq<(K, V)>, rank: Seq<int>) -> Option<V> {
    let at = slot(entries, rank) as int;
    if at < entries.len() && entries[at].0.rank() == rank {
        Some(entries[at].1)
    } else {
        None
    }
}

/// `entries` with `value` under `key`. A key that is there already stays, and only its
/// value is replaced.
pub open spec fn put<K: Key, V>(entries: Seq<(K, V)>, key: K, value: V) -> Seq<(K, V)> {
    let at = slot(entries, key.rank()) as int;
    if at < entries.len() && entries[at].0.rank() == key.rank() {
        entries.update(at, (entries[at].0, value))
    } else {
        entries.insert(at, (key, value))
    }
}

/// `entries` without the entry of that rank.
pub open spec fn drop_key<K: Key, V>(entries: Seq<(K, V)>, rank: Seq<int>) -> Seq<(K, V)> {
    let at = slot(entries, rank) as int;
    if at < entries.len() && entries[at].0.rank() == rank {
        entries.remove(at)
    } else {
        entries
    }
}

/// `entries` after each of `more` was put into them, in order.
pub open spec fn put_all<K: Key, V>(entries: Seq<(K, V)>, more: Seq<(K, V)>) -> Seq<(K, V)>
    decreases more.len(),
{
    if more.len() == 0 {
        entries
    } else {
        put_all(put(entries, more[0].0, more[0].1), more.drop_first())
    }
}

/// The keys of `entries`, in order.
pub open spec fn keys_of<K, V>(entries: Seq<(K, V)>) -> Seq<K> {
    Seq::new(entries.len(), |i: int| entries[i].0)
}

/// The values of `entries`, in the order of their keys.
pub open spec fn values_of<K, V>(entries: Seq<(K, V)>) -> Seq<V> {
    Seq::new(entries.len(), |i: int| entries[i].1)
}

pub proof fn lemma_slot<K: Key, V>(entries: Seq<(K, V)>, rank: Seq<int>)
    requires
        ascending(entries),
    ensures
        slot(entries, rank) <= entries.len(),
        forall|i: int|
            0 <= i < slot(entries, rank) ==> lex_less((#[trigger] entries[i]).0.rank(), rank),
        forall|i: int|
            slot(entries, rank) <= i < entries.len() ==> !lex_less(
                (#[trigger] entries[i]).0.rank(),
                rank,
            ),
    decreases entries.len(),
{
    if entries.len() > 0 && lex_less(entries[0].0.rank(), rank) {
        let rest = entries.drop_first();
        assert(forall|i: int| 0 <= i < rest.len() ==> rest[i] == entries[i + 1]);
        lemma_slot(rest, rank);
        assert forall|i: int| 0 <= i < slot(entries, rank) implies lex_less(
            (#[trigger] entries[i]).0.rank(),
            rank,
        ) by {
            if i > 0 {
                assert(rest[i - 1] == entries[i]);
            }
        }
        assert forall|i: int| slot(entries, rank) <= i < entries.len() implies !lex_less(
            (#[trigger] entries[i]).0.rank(),
            rank,
        ) by {
            assert(rest[i - 1] == entries[i]);
        }
    } else if entries.len() > 0 {
        assert forall|i: int| 0 <= i < entries.len() implies !lex_less(
            (#[trigger] entries[i]).0.rank(),
            rank,
        ) by {
            if i > 0 && lex_less(entries[i].0.rank(), rank) {
                lemma_lex_transitive(entries[0].0.rank(), entries[i].0.rank(), rank);
            }
        }
    }
}

/// A position that splits the entries at `rank` is the slot of `rank`.
pub proof fn lemma_slot_unique<K: Key, V>(entries: Seq<(K, V)>, rank: Seq<int>, at: int)
    requires
        ascending(entries),
        0 <= at <= entries.len(),
        forall|i: int| 0 <= i < at ==> lex_less((#[trigger] entries[i]).0.rank(), rank),
        at < entries.len() ==> !lex_less(entries[at].0.rank(), rank),
    ensures
        slot(entries, rank) == at,
{
    lemma_slot(entries, rank);
    let s = slot(entries, rank) as int;
    if s < at {
        assert(lex_less(entries[s].0.rank(), rank));
    }
    if at < s {
        assert(lex_less(entries[at].0.rank(), rank));
    }
}

/// A rank is looked up with success exactly when an entry has it, and the value found is
/// that entry's.
pub proof fn lemma_lookup<K: Key, V>(entries: Seq<(K, V)>, rank: Seq<int>)
    requires
        ascending(entries),
    ensures
        lookup(entries, rank) is Some <==> has(entries, rank),
        forall|i: int|
            0 <= i < entries.len() && (#[trigger] entries[i]).0.rank() == rank ==> lookup(
                entries,
                rank,
            ) == Some(entries[i].1) && slot(entries, rank) == i,
{
    assert forall|i: int|
        0 <= i < entries.len() && (#[trigger] entries[i]).0.rank() == rank implies lookup(
        entries,
        rank,
    ) == Some(entries[i].1) && slot(entries, rank) == i by {
        lemma_lex_irreflexive(rank);
        lemma_slot_unique(entries, rank, i);
    }
}

/// Putting a value keeps the order, makes the key's rank answer with that value, and
/// leaves every other rank as it was.
pub proof fn lemma_put<K: Key, V>(entries: Seq<(K, V)>, key: K, value: V)
    requires
        ascending(entries),
    ensures
        ascending(put(entries, key, value)),
        lookup(put(entries, key, value), key.rank()) == Some(value),
        forall|rank: Seq<int>|
            rank != key.rank() ==> #[trigger] lookup(put(entries, key, value), rank) == lookup(
                entries,
                rank,
            ),
{
    let r = key.rank();
    let at = slot(entries, r) as int;
    let new = put(entries, key, value);
    lemma_slot(entries, r);
    assert forall|i: int, j: int| 0 <= i < j < new.len() implies lex_less(
        (#[trigger] new[i]).0.rank(),
        (#[trigger] new[j]).0.rank(),
    ) by {
        if at < entries.len() && entries[at].0.rank() == r {
            assert(new[i].0 == entries[i].0 && new[j].0 == entries[j].0);
        } else {
            let a = if i < at {
                entries[i].0.rank()
            } else if i == at {
                r
            } else {
                entries[i - 1].0.rank()
            };
            let b = if j < at {
                entries[j].0.rank()
            } else if j == at {
                r
            } else {
                entries[j - 1].0.rank()
            };
            assert(new[i].0.rank() == a && new[j].0.rank() == b);
            if i == at {
                let e = entries[j - 1].0.rank();
                assert(!lex_less(e, r));
                if j - 1 == at {
                    assert(e != r);
                } else {
                    assert(lex_less(entries[at].0.rank(), e));
                    if e == r {
                        assert(!lex_less(entries[at].0.rank(), r));
                    }
                }
                lemma_lex_total(r, e);
            }
        }
    }
    lemma_lookup(new, r);
    assert(new[at].0.rank() == r && new[at].1 == value);
    assert forall|rank: Seq<int>| rank != r implies #[trigger] lookup(new, rank) == lookup(
        entries,
        rank,
    ) by {
        lemma_lookup(new, rank);
        lemma_lookup(entries, rank);
        if has(entries, rank) {
            let i = choose|i: int|
                0 <= i < entries.len() && (#[trigger] entries[i]).0.rank() == rank;
            let k = if new.len() == entries.len() || i < at {
                i
            } else {
                i + 1
            };
            assert(new[k] == entries[i]);
        }
        if has(new, rank) {
            let k = choose|k: int| 0 <= k < new.len() && (#[trigger] new[k]).0.rank() == rank;
            let i = if new.len() == entries.len() || k < at {
                k
            } else {
                k - 1
            };
            assert(entries[i] == new[k]);
        }
    }
}

/// Dropping a rank keeps the order, makes that rank answer with nothing, and leaves every
/// other rank as it was.
pub proof fn lemma_drop_key<K: Key, V>(entries: Seq<(K, V)>, gone: Seq<int>)
    requires
        ascending(entries),
    ensures
        ascending(drop_key(entries, gone)),
        lookup(drop_key(entries, gone), gone) is None,
        forall|rank: Seq<int>|
            rank != gone ==> #[trigger] lookup(drop_key(entries, gone), rank) == lookup(
                entries,
                rank,
            ),
{
    let at = slot(entries, gone) as int;
    let new = drop_key(entries, gone);
    lemma_slot(entries, gone);
    lemma_lookup(entries, gone);
    if new.len() == entries.len() {
        assert(new == entries);
    } else {
        assert forall|i: int, j: int| 0 <= i < j < new.len() implies lex_less(
            (#[trigger] new[i]).0.rank(),
            (#[trigger] new[j]).0.rank(),
        ) by {
            let a = if i < at {
                i
            } else {
                i + 1
            };
            let b = if j < at {
                j
            } else {
                j + 1
            };
            assert(new[i] == entries[a] && new[j] == entries[b]);
        }
        lemma_lookup(new, gone);
        if has(new, gone) {
            let k = choose|k: int| 0 <= k < new.len() && (#[trigger] new[k]).0.rank() == gone;
            let i = if k < at {
                k
            } else {
                k + 1
            };
            assert(new[k] == entries[i]);
        }
        assert forall|rank: Seq<int>| rank != gone implies #[trigger] lookup(new, rank) == lookup(
            entries,
            rank,
        ) by {
            lemma_lookup(new, rank);
            lemma_lookup(entries, rank);
            if has(entries, rank) {
                let i = choose|i: int|
                    0 <= i < entries.len() && (#[trigger] entries[i]).0.rank() == rank;
                let k = if i < at {
                    i
                } else {
                    i - 1
                };
                assert(new[k] == entries[i]);
            }
            if has(new, rank) {
                let k = choose|k: int| 0 <= k < new.len() && (#[trigger] new[k]).0.rank() == rank;
                let i = if k < at {
                    k
                } else {
                    k + 1
                };
                assert(entries[i] == new[k]);
            }
        }
    }
}

/// A map from keys to values, walked in the order of its keys.
#[derive(Debug, PartialEq, Eq)]
pub struct SortedMap<K: Key, V> {
    entries: Vec<(K, V)>,
}

impl<K: Key, V> View for SortedMap<K, V> {
    type V = Seq<(K, V)>;

    closed spec fn view(&self) -> Seq<(K, V)> {
        self.entries@
    }
}

impl<K: Key, V> SortedMap<K, V> {
    #[verifier::type_invariant]
    spec fn inv(self) -> bool {
        ascending(self.entries@)
    }

    /// An empty map.
    pub fn new() -> (map: Self)
        ensures
            map@ == Seq::<(K, V)>::empty(),
    {
        SortedMap { entries: Vec::new() }
    }

    /// Where an entry of the key's rank is, or where it would have to stand.
    fn find(&self, key: &K) -> (at: usize)
        ensures
            at == slot(self@, key.rank()),
            at <= self@.len(),
            ascending(self@),
    {
        proof {
            use_type_invariant(self);
        }
        let mut at: usize = 0;
        while at < self.entries.len()
            invariant
                at <= self.entries@.len(),
                ascending(self.entries@),
                forall|i: int|
                    0 <= i < at ==> lex_less((#[trigger] self.entries@[i]).0.rank(), key.rank()),
            ensures
                at <= self.entries@.len(),
                forall|i: int|
                    0 <= i < at ==> lex_less((#[trigger] self.entries@[i]).0.rank(), key.rank()),
                at < self.entries@.len() ==> !lex_less(
                    self.entries@[at as int].0.rank(),
                    key.rank(),
                ),
            decreases self.entries.len() - at,
        {
            match self.entries[at].0.compare(key) {
                Order::Less => {
                    at = at + 1;
                },
                _ => {
                    proof {
                        lemma_lex_irreflexive(key.rank());
                    }
                    break ;
                },
            }
        }
        proof {
            lemma_slot_unique(self.entries@, key.rank(), at as int);
        }
        at
    }

    /// Whether the entry at `at` has the key's rank.
    fn holds_at(&self, at: usize, key: &K) -> (held: bool)
        ensures
            held <==> at < self@.len() && self@[at as int].0.rank() == key.rank(),
    {
        if at < self.entries.len() {
            matches!(self.entries[at].0.compare(key), Order::Equal)
        } else {
            false
        }
    }

    /// The value under a key.
    pub fn get(&self, key: &K) -> (value: Option<&V>)
        ensures
            match value {
                Some(v) => lookup(self@, key.rank()) == Some(*v),
                None => lookup(self@, key.rank()) is None,
            },
    {
        let at: usize = self.find(key);
        if self.holds_at(at, key) {
            Some(&self.entries[at].1)
        } else {
            None
        }
    }

    /// Whether there is a value under a key.
    pub fn contains_key(&self, key: &K) -> (found: bool)
        ensures
            found <==> lookup(self@, key.rank()) is Some,
    {
        let at: usize = self.find(key);
        self.holds_at(at, key)
    }

    /// Puts a value under a key. A key of the same rank that is there already stays.
    pub fn insert(&mut self, key: K, value: V)
        ensures
            final(self)@ == put(old(self)@, key, value),
    {
        let at: usize = self.find(&key);
        let held = self.holds_at(at, &key);
        proof {
            lemma_put(self@, key, value);
        }
        let mut entries: Vec<(K, V)> = Vec::new();
        std::mem::swap(&mut entries, &mut self.entries);
        if held {
            let (present, _) = entries.remove(at);
            entries.insert(at, (present, value));
            assert(entries@ =~= put(old(self)@, key, value));
        } else {
            entries.insert(at, (key, value));
        }
        self.entries = entries;
    }

    /// Takes a key and its value out.
    pub fn remove(&mut self, key: &K)
        ensures
            final(self)@ == drop_key(old(self)@, key.rank()),
    {
        let at: usize = self.find(key);
        let held = self.holds_at(at, key);
        proof {
            lemma_drop_key(self@, key.rank());
        }
        if held {
            let mut entries: Vec<(K, V)> = Vec::new();
            std::mem::swap(&mut entries, &mut self.entries);
            entries.remove(at);
            self.entries = entries;
        }
    }

    /// Puts every entry of another map into this one.
    pub fn extend(&mut self, other: SortedMap<K, V>)
        ensures
            final(self)@ == put_all(old(self)@, other@),
    {
        let mut rest: Vec<(K, V)> = other.entries;
        let ghost all = rest@;
        while rest.len() > 0
            invariant
                put_all(old(self)@, all) == put_all(self@, rest@),
            decreases rest@.len(),
        {
            let ghost before = rest@;
            let (key, value) = rest.remove(0);
            assert(rest@ =~= before.drop_first());
            self.insert(key, value);
        }
    }

    /// How many entries there are.
    pub fn len(&self) -> (n: usize)
        ensures
            n == self@.len(),
    {
        self.entries.len()
    }

    /// Whether there is no entry.
    pub fn is_empty(&self) -> (empty: bool)
        ensures
            empty <==> self@.len() == 0,
    {
        self.entries.len() == 0
    }

    /// The entry at a position in the order of the keys.
    pub fn entry(&self, at: usize) -> (entry: &(K, V))
        requires
            at < self@.len(),
        ensures
            *entry == self@[at as int],
    {
        &self.entries[at]
    }
}

impl<K: Key + Duplicate, V> SortedMap<K, V> {
    /// The keys, in order.
    pub fn keys(&self) -> (keys: Vec<K>)
        ensures
            keys@ == keys_of(self@),
    {
        let mut keys: Vec<K> = Vec::new();
        let mut i: usize = 0;
        while i < self.entries.len()
            invariant
                i <= self.entries@.len(),
                keys@ =~= keys_of(self.entries@).take(i as int),
            decreases self.entries@.len() - i,
        {
            keys.push(self.entries[i].0.duplicate());
            i = i + 1;
        }
        keys
    }
}

impl<K: Key + Duplicate, V: Duplicate> SortedMap<K, V> {
    /// A map with equal entries.
    pub fn duplicate(&self) -> (copy: Self)
        ensures
            copy@ == self@,
    {
        proof {
            use_type_invariant(self);
        }
        SortedMap { entries: duplicate_all(&self.entries) }
    }

    /// The values, in the order of their keys.
    pub fn values(&self) -> (values: Vec<V>)
        ensures
            values@ == values_of(self@),
    {
        let mut values: Vec<V> = Vec::new();
        let mut i: usize = 0;
        while i < self.entries.len()
            invariant
                i <= self.entries@.len(),
                values@ =~= values_of(self.entries@).take(i as int),
            decreases self.entries@.len() - i,
        {
            values.push(self.entries[i].1.duplicate());
            i = i + 1;
        }
        values
    }
}

} // verus!
