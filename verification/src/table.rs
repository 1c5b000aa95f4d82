//! Maps from numbers (of objects, of windows, of clients) to what is known of
//! what the number names.

use std::collections::BTreeMap;
use vstd::prelude::*;

verus! {

broadcast use {vstd::std_specs::btree::group_btree_axioms, vstd::laws_cmp::group_laws_cmp};

/// A number that a table can be keyed by.
pub trait Key: Ord + Copy + Sized {
    /// Where the key stands in the order of keys.
    spec fn rank(self) -> int;

    /// The order that the key's type has from `Ord` is that of `rank`.
    proof fn order_is_rank()
        ensures
            vstd::laws_cmp::obeys_cmp::<Self>(),
            forall|a: Self, b: Self| (#[trigger] vstd::std_specs::cmp::OrdSpec::cmp_spec(&a, &b) is Less) == (a.rank() < b.rank()),
            forall|a: Self, b: Self|
                #![trigger a.rank(), b.rank()]
                a.rank() == b.rank() ==> a == b,
    ;
}

impl Key for u32 {
    open spec fn rank(self) -> int {
        self as int
    }

    proof fn order_is_rank() {
    }
}

impl Key for u64 {
    open spec fn rank(self) -> int {
        self as int
    }

    proof fn order_is_rank() {
    }
}

/// Whether each key of the sequence ranks below all that follow it.
pub open spec fn ascending<K: Key>(keys: Seq<K>) -> bool {
    forall|i: int, j: int| 0 <= i < j < keys.len() ==> #[trigger] keys[i].rank()
        < #[trigger] keys[j].rank()
}

/// The members of a finite set of keys, in ascending order.
pub open spec fn in_order<K: Key>(keys: Set<K>) -> Seq<K> {
    choose|order: Seq<K>| #[trigger] ascending(order) && order.to_set() == keys
}

proof fn ascending_tail<K: Key>(order: Seq<K>)
    requires
        ascending(order),
        order.len() > 0,
    ensures
        ascending(order.drop_first()),
        order.drop_first().to_set() == order.to_set().remove(order[0]),
{
    let tail = order.drop_first();
    assert forall|i: int, j: int| 0 <= i < j < tail.len() implies #[trigger] tail[i].rank()
        < #[trigger] tail[j].rank() by {
        assert(tail[i] == order[i + 1]);
        assert(tail[j] == order[j + 1]);
    }
    assert forall|key: K| tail.to_set().contains(key) == order.to_set().remove(
        order[0],
    ).contains(key) by {
        if tail.contains(key) {
            let i = choose|i: int| 0 <= i < tail.len() && tail[i] == key;
            assert(order[i + 1] == key);
            assert(order[0].rank() < order[i + 1].rank());
        }
        if order.contains(key) && key != order[0] {
            let i = choose|i: int| 0 <= i < order.len() && order[i] == key;
            assert(tail[i - 1] == key);
        }
    }
    assert(tail.to_set() =~= order.to_set().remove(order[0]));
}

/// A set of keys has one ascending order only.
pub proof fn ascending_is_unique<K: Key>(a: Seq<K>, b: Seq<K>)
    requires
        ascending(a),
        ascending(b),
        a.to_set() == b.to_set(),
    ensures
        a == b,
    decreases a.len(),
{
    K::order_is_rank();
    if a.len() == 0 {
        if b.len() > 0 {
            assert(b.to_set().contains(b[0]));
            assert(a.contains(b[0]));
        }
        assert(a =~= b);
    } else {
        assert(a.to_set().contains(a[0]));
        assert(b.contains(a[0]));
        assert(b.to_set().contains(b[0]));
        assert(a.contains(b[0]));
        let in_b = choose|i: int| 0 <= i < b.len() && b[i] == a[0];
        let in_a = choose|i: int| 0 <= i < a.len() && a[i] == b[0];
        if in_b > 0 {
            assert(b[0].rank() < b[in_b].rank());
        }
        if in_a > 0 {
            assert(a[0].rank() < a[in_a].rank());
        }
        assert(a[0].rank() == b[0].rank());
        ascending_tail(a);
        ascending_tail(b);
        ascending_is_unique(a.drop_first(), b.drop_first());
        assert(a =~= seq![a[0]] + a.drop_first());
        assert(b =~= seq![b[0]] + b.drop_first());
    }
}

proof fn key_joins_order<K: Key>(order: Seq<K>, key: K) -> (joined: Seq<K>)
    requires
        ascending(order),
        !order.contains(key),
    ensures
        ascending(joined),
        joined.to_set() == order.to_set().insert(key),
    decreases order.len(),
{
    K::order_is_rank();
    if order.len() == 0 || key.rank() < order[0].rank() {
        let joined = seq![key] + order;
        assert forall|i: int, j: int| 0 <= i < j < joined.len() implies #[trigger] joined[i].rank()
            < #[trigger] joined[j].rank() by {
            assert(joined[j] == order[j - 1]);
            assert(order[0].rank() <= order[j - 1].rank());
            if i > 0 {
                assert(joined[i] == order[i - 1]);
            }
        }
        assert forall|other: K|
            joined.to_set().contains(other) == order.to_set().insert(key).contains(other) by {
            if order.contains(other) {
                let i = choose|i: int| 0 <= i < order.len() && order[i] == other;
                assert(joined[i + 1] == other);
            }
            assert(joined[0] == key);
        }
        assert(joined.to_set() =~= order.to_set().insert(key));
        joined
    } else {
        let first = order[0];
        let tail = order.drop_first();
        ascending_tail(order);
        assert(!tail.contains(key)) by {
            if tail.contains(key) {
                let i = choose|i: int| 0 <= i < tail.len() && tail[i] == key;
                assert(order[i + 1] == key);
            }
        }
        assert(order.contains(first));
        assert(first.rank() < key.rank());
        let rest = key_joins_order(tail, key);
        let joined = seq![first] + rest;
        assert forall|i: int| 0 <= i < rest.len() implies first.rank() < (
        #[trigger] rest[i]).rank() by {
            assert(rest.to_set().contains(rest[i]));
            if rest[i] != key {
                assert(tail.to_set().contains(rest[i]));
                let at = choose|at: int| 0 <= at < tail.len() && tail[at] == rest[i];
                assert(order[at + 1] == rest[i]);
                assert(order[0].rank() < order[at + 1].rank());
            }
        }
        assert forall|i: int, j: int| 0 <= i < j < joined.len() implies #[trigger] joined[i].rank()
            < #[trigger] joined[j].rank() by {
            assert(joined[j] == rest[j - 1]);
            if i > 0 {
                assert(joined[i] == rest[i - 1]);
            }
        }
        assert forall|other: K|
            joined.to_set().contains(other) == order.to_set().insert(key).contains(other) by {
            if rest.contains(other) {
                let i = choose|i: int| 0 <= i < rest.len() && rest[i] == other;
                assert(joined[i + 1] == other);
                assert(rest.to_set().contains(other));
            }
            if joined.contains(other) && other != first {
                let i = choose|i: int| 0 <= i < joined.len() && joined[i] == other;
                assert(rest[i - 1] == other);
                assert(rest.to_set().contains(other));
            }
            assert(joined[0] == first);
            assert(rest.to_set().contains(other) == tail.to_set().insert(key).contains(other));
        }
        assert(joined.to_set() =~= order.to_set().insert(key));
        joined
    }
}

proof fn some_order<K: Key>(keys: Set<K>) -> (order: Seq<K>)
    requires
        keys.finite(),
    ensures
        ascending(order),
        order.to_set() == keys,
    decreases keys.len(),
{
    if keys.len() == 0 {
        assert(Seq::<K>::empty().to_set() =~= keys);
        Seq::empty()
    } else {
        let key = keys.choose();
        let rest = some_order(keys.remove(key));
        assert(!rest.contains(key)) by {
            if rest.contains(key) {
                assert(rest.to_set().contains(key));
            }
        }
        let order = key_joins_order(rest, key);
        assert(keys.remove(key).insert(key) =~= keys);
        order
    }
}

/// Any finite set of keys can be put in order.
pub proof fn keys_have_an_order<K: Key>(keys: Set<K>)
    requires
        keys.finite(),
    ensures
        ascending(in_order(keys)),
        in_order(keys).to_set() == keys,
{
    let order = some_order(keys);
    assert(ascending(order) && order.to_set() == keys);
}

/// A map keyed by a number, which hands out its keys in ascending order.
pub struct Table<K, V> {
    entries: BTreeMap<K, V>,
}

impl<K: Key, V: View> View for Table<K, V> {
    type V = Map<K, V::V>;

    closed spec fn view(&self) -> Map<K, V::V> {
        self.entries@.map_values(|value: V| value@)
    }
}

impl<K: Key, V: View> Table<K, V> {
    /// The empty table.
    pub fn new() -> (table: Self)
        ensures
            table@ == Map::<K, V::V>::empty(),
    {
        let table = Table { entries: BTreeMap::new() };
        assert(table@ =~= Map::<K, V::V>::empty());
        table
    }

    /// What stands under `key`.
    pub fn get(&self, key: K) -> (found: Option<&V>)
        ensures
            match found {
                Some(value) => self@.contains_key(key) && value@ == self@[key],
                None => !self@.contains_key(key),
            },
    {
        proof {
            K::order_is_rank();
        }
        self.entries.get(&key)
    }

    /// Whether anything stands under `key`.
    pub fn contains(&self, key: K) -> (found: bool)
        ensures
            found == self@.contains_key(key),
    {
        proof {
            K::order_is_rank();
        }
        self.entries.contains_key(&key)
    }

    /// Puts `value` under `key`, in place of what stood there.
    pub fn insert(&mut self, key: K, value: V)
        ensures
            final(self)@ == old(self)@.insert(key, value@),
    {
        proof {
            K::order_is_rank();
        }
        self.entries.insert(key, value);
        assert(self@ =~= old(self)@.insert(key, value@));
    }

    /// Takes out what stands under `key`.
    pub fn remove(&mut self, key: K) -> (taken: Option<V>)
        ensures
            final(self)@ == old(self)@.remove(key),
            match taken {
                Some(value) => old(self)@.contains_key(key) && value@ == old(self)@[key],
                None => !old(self)@.contains_key(key),
            },
    {
        proof {
            K::order_is_rank();
        }
        let taken = self.entries.remove(&key);
        assert(self@ =~= old(self)@.remove(key));
        taken
    }

    /// How many keys the table has.
    pub fn len(&self) -> (count: usize)
        ensures
            count == self@.dom().len(),
            self@.dom().finite(),
    {
        proof {
            K::order_is_rank();
            assert(self@.dom() =~= self.entries@.dom());
        }
        self.entries.len()
    }

    /// The keys, in ascending order.
    pub fn keys(&self) -> (keys: Vec<K>)
        ensures
            ascending(keys@),
            keys@.to_set() == self@.dom(),
            keys@ == in_order(self@.dom()),
            forall|i: int| 0 <= i < keys@.len() ==> self@.contains_key(#[trigger] keys@[i]),
    {
        proof {
            K::order_is_rank();
        }
        let mut keys: Vec<K> = Vec::new();
        for key in iter: self.entries.keys()
            invariant
                keys@.len() == iter.index(),
                forall|i: int| 0 <= i < keys@.len() ==> keys@[i] == *iter.seq()[i],
        {
            keys.push(*key);
        }
        proof {
            let all = vstd::std_specs::iter::IteratorSpec::remaining(
                &vstd::std_specs::btree::spec_keys_iter(&self.entries),
            );
            assert(keys@ =~= all.unref());
            assert(self@.dom() =~= self.entries@.dom());
            assert(vstd::laws_cmp::obeys_cmp::<&K>());
            assert forall|i: int, j: int| 0 <= i < j < keys@.len() implies #[trigger] keys@[i].rank()
                < #[trigger] keys@[j].rank() by {
                assert(vstd::std_specs::cmp::OrdSpec::cmp_spec(&all[i], &all[j]) is Less);
                assert(vstd::std_specs::cmp::OrdSpec::cmp_spec(&keys@[i], &keys@[j]) is Less);
            }
            assert(ascending(keys@));
            assert(keys@.to_set() =~= self@.dom());
            ascending_is_unique(keys@, in_order(self@.dom()));
            assert forall|i: int| 0 <= i < keys@.len() implies self@.contains_key(
                #[trigger] keys@[i],
            ) by {
                assert(keys@.to_set().contains(keys@[i]));
            }
        }
        keys
    }
}

} // verus!
