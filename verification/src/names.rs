//! Maps keyed by a name, in the order of the names' bytes.

use vstd::prelude::*;
use vstd::utf8::{encode_utf8, encode_utf8_decode_utf8};

verus! {

/// The bytes of a name.
pub open spec fn name_bytes(name: Seq<char>) -> Seq<u8> {
    encode_utf8(name)
}

/// Whether `a` comes before `b`, their first difference being at `k`: there `a` ends, or has the
/// smaller byte.
pub open spec fn precedes_at(a: Seq<u8>, b: Seq<u8>, k: int) -> bool {
    &&& 0 <= k <= a.len()
    &&& k < b.len()
    &&& forall|i: int| 0 <= i < k ==> a[i] == b[i]
    &&& k == a.len() || a[k] < b[k]
}

/// Whether the name `a` comes before the name `b` in byte order.
pub open spec fn precedes(a: Seq<char>, b: Seq<char>) -> bool {
    exists|k: int| precedes_at(name_bytes(a), name_bytes(b), k)
}

/// Byte order is a strict order: no name precedes itself, and of three names in a row the first
/// precedes the last.
pub proof fn byte_order_is_strict(a: Seq<char>, b: Seq<char>, c: Seq<char>)
    ensures
        !precedes(a, a),
        !(precedes(a, b) && precedes(b, a)),
        precedes(a, b) && precedes(b, c) ==> precedes(a, c),
{
    let x: Seq<u8> = name_bytes(a);
    let y: Seq<u8> = name_bytes(b);
    let z: Seq<u8> = name_bytes(c);
    if precedes(a, b) && precedes(b, a) {
        let k = choose|k: int| precedes_at(x, y, k);
        let m = choose|m: int| precedes_at(y, x, m);
        if k < m {
            assert(y[k] == x[k]);
        } else if m < k {
            assert(x[m] == y[m]);
        }
        assert(false);
    }
    if precedes(a, b) && precedes(b, c) {
        let k = choose|k: int| precedes_at(x, y, k);
        let m = choose|m: int| precedes_at(y, z, m);
        let first: int = if k < m { k } else { m };
        assert forall|i: int| 0 <= i < first implies x[i] == z[i] by {
            assert(x[i] == y[i]);
            assert(y[i] == z[i]);
        }
        if k < m {
            assert(y[k] == z[k]);
        } else if m < k {
            assert(x[m] == y[m]);
        }
        assert(precedes_at(x, z, first));
    }
}

/// How two names lie to each other.
#[derive(Clone, Copy, Debug, PartialEq, Eq, Structural)]
pub enum NameOrder {
    Before,
    Same,
    After,
}

/// Tells how `a` lies to `b` in byte order.
pub fn name_order(a: &str, b: &str) -> (r: NameOrder)
    ensures
        r == NameOrder::Before <==> precedes(a@, b@),
        r == NameOrder::Same <==> a@ == b@,
        r == NameOrder::After <==> precedes(b@, a@),
{
    let x: &[u8] = a.as_bytes();
    let y: &[u8] = b.as_bytes();
    proof {
        byte_order_is_strict(a@, b@, a@);
        byte_order_is_strict(b@, a@, b@);
    }
    let mut i: usize = 0;
    while i < x.len() && i < y.len()
        invariant
            x@ == name_bytes(a@),
            y@ == name_bytes(b@),
            i <= x@.len(),
            i <= y@.len(),
            forall|j: int| 0 <= j < i ==> x@[j] == y@[j],
            !precedes(a@, a@),
            !precedes(b@, b@),
            !(precedes(a@, b@) && precedes(b@, a@)),
        decreases x@.len() - i,
    {
        if x[i] < y[i] {
            assert(precedes_at(x@, y@, i as int));
            return NameOrder::Before;
        }
        if y[i] < x[i] {
            assert(precedes_at(y@, x@, i as int));
            return NameOrder::After;
        }
        i = i + 1;
    }
    if x.len() < y.len() {
        assert(precedes_at(x@, y@, i as int));
        NameOrder::Before
    } else if y.len() < x.len() {
        assert(precedes_at(y@, x@, i as int));
        NameOrder::After
    } else {
        assert(x@ =~= y@);
        proof {
            encode_utf8_decode_utf8(a@);
            encode_utf8_decode_utf8(b@);
        }
        NameOrder::Same
    }
}

/// A map from names to values that lists its names in byte order, each once.
#[derive(Debug)]
pub struct NameMap<V> {
    names: Vec<String>,
    values: Vec<V>,
}

impl<V> View for NameMap<V> {
    type V = Map<Seq<char>, V>;

    closed spec fn view(&self) -> Map<Seq<char>, V> {
        Map::new(
            |n: Seq<char>| self.listing().contains(n),
            |n: Seq<char>| self.values@[self.listing().index_of(n)],
        )
    }
}

impl<V> NameMap<V> {
    /// The names in the order in which they are listed.
    pub closed spec fn listing(self) -> Seq<Seq<char>> {
        Seq::new(self.names@.len(), |i: int| self.names@[i]@)
    }

    /// One value for each name, and the names in byte order.
    #[verifier::type_invariant]
    spec fn in_order(self) -> bool {
        &&& self.names@.len() == self.values@.len()
        &&& forall|i: int, j: int|
            #![trigger self.names@[i], self.names@[j]]
            0 <= i < j < self.names@.len() ==> precedes(self.names@[i]@, self.names@[j]@)
    }

    /// What a listing in order says of the map.
    proof fn positions_tell(self)
        requires
            self.in_order(),
        ensures
            forall|i: int|
                0 <= i < self.listing().len() ==> self@.contains_key(#[trigger] self.listing()[i])
                    && self@[self.listing()[i]] == self.values@[i],
            forall|n: Seq<char>| #[trigger] self@.contains_key(n) ==> self.listing().contains(n),
    {
        assert forall|i: int| 0 <= i < self.listing().len() implies self@.contains_key(
            #[trigger] self.listing()[i],
        ) && self@[self.listing()[i]] == self.values@[i] by {
            let n = self.listing()[i];
            assert(self.listing().contains(n));
            let k = self.listing().index_of(n);
            assert(self.listing()[k] == n);
            byte_order_is_strict(n, n, n);
            assert(self.names@[i]@ == self.names@[k]@);
        }
    }

    /// A map without names.
    pub fn new() -> (r: NameMap<V>)
        ensures
            r@ == Map::<Seq<char>, V>::empty(),
            r.listing() == Seq::<Seq<char>>::empty(),
    {
        let r = NameMap { names: Vec::new(), values: Vec::new() };
        assert(r@ =~= Map::<Seq<char>, V>::empty());
        r
    }

    /// How many names there are.
    pub fn len(&self) -> (r: usize)
        ensures
            self@.dom().finite(),
            r == self@.dom().len(),
            r == self.listing().len(),
    {
        proof {
            use_type_invariant(self);
            assert forall|i: int, j: int|
                0 <= i < self.listing().len() && 0 <= j < self.listing().len() && i != j implies
            self.listing()[i] != self.listing()[j] by {
                let n = self.listing()[i];
                byte_order_is_strict(n, n, n);
                assert(self.names@[i]@ == n && self.names@[j]@ == self.listing()[j]);
            }
            self.listing().unique_seq_to_set();
            assert(self@.dom() =~= self.listing().to_set());
        }
        self.names.len()
    }

    /// The place of a name in the listing, or the place where it belongs.
    fn locate(&self, name: &str) -> (r: (bool, usize))
        ensures
            self.in_order(),
            r.1 <= self.names@.len(),
            forall|i: int| 0 <= i < r.1 ==> precedes(#[trigger] self.names@[i]@, name@),
            r.0 ==> r.1 < self.names@.len() && self.names@[r.1 as int]@ == name@,
            !r.0 ==> forall|i: int|
                r.1 <= i < self.names@.len() ==> precedes(name@, #[trigger] self.names@[i]@),
            r.0 == self@.contains_key(name@),
            r.0 ==> self@[name@] == self.values@[r.1 as int],
    {
        proof {
            use_type_invariant(self);
            self.positions_tell();
        }
        let mut i: usize = 0;
        while i < self.names.len()
            invariant
                self.in_order(),
                i <= self.names@.len(),
                forall|j: int| 0 <= j < i ==> precedes(#[trigger] self.names@[j]@, name@),
                forall|j: int|
                    0 <= j < self.listing().len() ==> self@.contains_key(
                        #[trigger] self.listing()[j],
                    ) && self@[self.listing()[j]] == self.values@[j],
                forall|n: Seq<char>| #[trigger]
                    self@.contains_key(n) ==> self.listing().contains(n),
            decreases self.names@.len() - i,
        {
            match name_order(self.names[i].as_str(), name) {
                NameOrder::Before => {
                    i = i + 1;
                },
                NameOrder::Same => {
                    assert(self.listing()[i as int] == name@);
                    return (true, i);
                },
                NameOrder::After => {
                    assert forall|j: int| i <= j < self.names@.len() implies precedes(
                        name@,
                        #[trigger] self.names@[j]@,
                    ) by {
                        byte_order_is_strict(name@, self.names@[i as int]@, self.names@[j]@);
                    }
                    proof {
                        self.apart_from_all(name@, i as int);
                    }
                    return (false, i);
                },
            }
        }
        proof {
            self.apart_from_all(name@, i as int);
        }
        (false, i)
    }

    /// A name between two neighbours is not in the map.
    proof fn apart_from_all(self, name: Seq<char>, place: int)
        requires
            self.in_order(),
            0 <= place <= self.names@.len(),
            forall|i: int| 0 <= i < place ==> precedes(#[trigger] self.names@[i]@, name),
            forall|i: int|
                place <= i < self.names@.len() ==> precedes(name, #[trigger] self.names@[i]@),
        ensures
            !self@.contains_key(name),
    {
        if self.listing().contains(name) {
            let k = self.listing().index_of(name);
            assert(self.listing()[k] == name);
            assert(self.names@[k]@ == name);
            byte_order_is_strict(name, name, name);
        }
    }

    /// Whether a name is in the map.
    pub fn contains_key(&self, name: &str) -> (r: bool)
        ensures
            r == self@.contains_key(name@),
    {
        self.locate(name).0
    }

    /// The value of a name.
    pub fn get(&self, name: &str) -> (r: Option<&V>)
        ensures
            r == (if self@.contains_key(name@) {
                Some(&self@[name@])
            } else {
                None
            }),
    {
        let place: (bool, usize) = self.locate(name);
        if place.0 {
            Some(&self.values[place.1])
        } else {
            None
        }
    }

    /// The name at a place of the listing.
    pub fn name_at(&self, i: usize) -> (r: &String)
        requires
            i < self.listing().len(),
        ensures
            r@ == self.listing()[i as int],
            self@.contains_key(r@),
    {
        proof {
            use_type_invariant(self);
            self.positions_tell();
            assert(self@.contains_key(self.listing()[i as int]));
        }
        &self.names[i]
    }

    /// The value at a place of the listing.
    pub fn value_at(&self, i: usize) -> (r: &V)
        requires
            i < self.listing().len(),
        ensures
            self@.contains_key(self.listing()[i as int]),
            *r == self@[self.listing()[i as int]],
    {
        proof {
            use_type_invariant(self);
            self.positions_tell();
            assert(self@.contains_key(self.listing()[i as int]));
        }
        &self.values[i]
    }

    /// The names, in byte order and each once.
    pub fn names(&self) -> (r: Vec<String>)
        ensures
            r@.len() == self.listing().len(),
            forall|i: int| 0 <= i < r@.len() ==> #[trigger] r@[i]@ == self.listing()[i],
            forall|i: int, j: int|
                #![trigger r@[i], r@[j]]
                0 <= i < j < r@.len() ==> precedes(r@[i]@, r@[j]@),
            forall|n: Seq<char>| #[trigger]
                self@.contains_key(n) <==> exists|i: int| 0 <= i < r@.len() && #[trigger] r@[i]@ == n,
    {
        proof {
            use_type_invariant(self);
            self.positions_tell();
        }
        let mut r: Vec<String> = Vec::new();
        let mut i: usize = 0;
        while i < self.names.len()
            invariant
                i <= self.names@.len(),
                r@.len() == i,
                forall|j: int| 0 <= j < i ==> r@[j]@ == #[trigger] self.names@[j]@,
            decreases self.names@.len() - i,
        {
            r.push(self.names[i].clone());
            i = i + 1;
        }
        proof {
            assert forall|j: int| 0 <= j < r@.len() implies #[trigger] r@[j]@ == self.listing()[j] by {
                assert(r@[j]@ == self.names@[j]@);
            }
            assert forall|a: int, b: int|
                #![trigger r@[a], r@[b]]
                0 <= a < b < r@.len() implies precedes(r@[a]@, r@[b]@) by {
                assert(precedes(self.names@[a]@, self.names@[b]@));
            }
            assert forall|n: Seq<char>| #[trigger] self@.contains_key(n) implies exists|i: int|
                0 <= i < r@.len() && #[trigger] r@[i]@ == n by {
                let k = self.listing().index_of(n);
                assert(self.listing()[k] == n);
                assert(r@[k]@ == n);
            }
            assert forall|n: Seq<char>|
                (exists|i: int| 0 <= i < r@.len() && #[trigger] r@[i]@ == n) implies #[trigger]
            self@.contains_key(n) by {
                let k = choose|i: int| 0 <= i < r@.len() && #[trigger] r@[i]@ == n;
                assert(self.listing()[k] == n);
            }
        }
        r
    }

    /// Gives a name a value and returns the value that it had.
    pub fn insert(&mut self, name: String, value: V) -> (r: Option<V>)
        ensures
            final(self)@ == old(self)@.insert(name@, value),
            r == (if old(self)@.contains_key(name@) {
                Some(old(self)@[name@])
            } else {
                None
            }),
    {
        let place: (bool, usize) = self.locate(name.as_str());
        let ghost before: NameMap<V> = *self;
        proof {
            before.positions_tell();
        }
        let ghost key: Seq<char> = name@;
        let mut held: NameMap<V> = NameMap::new();
        std::mem::swap(&mut held, self);
        let NameMap { mut names, mut values } = held;
        let at: usize = place.1;
        if place.0 {
            let was: V = values.remove(at);
            values.insert(at, value);
            *self = NameMap { names, values };
            proof {
                self.positions_tell();
                assert(self.listing() =~= before.listing());
                assert(self.listing()[at as int] == key);
                assert(self.values@ =~= before.values@.update(at as int, value));
                Self::same_but_one(before, *self, key, value, at as int);
            }
            Some(was)
        } else {
            names.insert(at, name);
            values.insert(at, value);
            proof {
                assert forall|i: int, j: int|
                    #![trigger names@[i], names@[j]]
                    0 <= i < j < names@.len() implies precedes(names@[i]@, names@[j]@) by {
                    let p: int = at as int;
                    if i < p && j > p {
                        assert(precedes(before.names@[i]@, before.names@[j - 1]@));
                    } else if i > p {
                        assert(precedes(before.names@[i - 1]@, before.names@[j - 1]@));
                    } else if i == p {
                        assert(precedes(key, before.names@[j - 1]@));
                    } else if j == p {
                        assert(precedes(before.names@[i]@, key));
                    } else {
                        assert(precedes(before.names@[i]@, before.names@[j]@));
                    }
                }
            }
            *self = NameMap { names, values };
            proof {
                self.positions_tell();
                assert(self.listing()[at as int] == key);
                assert(self@ =~= before@.insert(key, value)) by {
                    assert forall|n: Seq<char>| self@.contains_key(n) <==> before@.insert(
                        key,
                        value,
                    ).contains_key(n) by {
                        if self@.contains_key(n) && n != key {
                            let k = self.listing().index_of(n);
                            assert(self.listing()[k] == n);
                            let m: int = if k < at { k } else { k - 1 };
                            assert(before.listing()[m] == n);
                        }
                        if before@.contains_key(n) {
                            let k = before.listing().index_of(n);
                            assert(before.listing()[k] == n);
                            let m: int = if k < at { k } else { k + 1 };
                            assert(self.listing()[m] == n);
                        }
                    }
                    assert forall|n: Seq<char>| self@.contains_key(n) implies self@[n]
                        == before@.insert(key, value)[n] by {
                        if n != key {
                            let k = before.listing().index_of(n);
                            assert(before@.contains_key(n));
                            assert(before.listing()[k] == n);
                            let m: int = if k < at { k } else { k + 1 };
                            assert(self.listing()[m] == n);
                        }
                    }
                }
            }
            None
        }
    }

    /// Two maps with one listing that differ at one place.
    proof fn same_but_one(before: Self, after: Self, key: Seq<char>, value: V, place: int)
        requires
            before.in_order(),
            after.in_order(),
            after.listing() == before.listing(),
            0 <= place < before.listing().len(),
            before.listing()[place] == key,
            after.values@ == before.values@.update(place, value),
        ensures
            after@ == before@.insert(key, value),
    {
        before.positions_tell();
        after.positions_tell();
        assert(after@ =~= before@.insert(key, value)) by {
            assert forall|n: Seq<char>| after@.contains_key(n) implies after@[n] == before@.insert(
                key,
                value,
            )[n] by {
                let k = before.listing().index_of(n);
                assert(before.listing()[k] == n);
                assert(after.listing()[k] == n);
            }
            assert forall|n: Seq<char>| after@.contains_key(n) <==> before@.insert(
                key,
                value,
            ).contains_key(n) by {
                assert(after.listing()[place] == key);
            }
        }
    }

    /// Takes a name away and returns the value that it had.
    pub fn remove(&mut self, name: &str) -> (r: Option<V>)
        ensures
            final(self)@ == old(self)@.remove(name@),
            r == (if old(self)@.contains_key(name@) {
                Some(old(self)@[name@])
            } else {
                None
            }),
    {
        let place: (bool, usize) = self.locate(name);
        if !place.0 {
            assert(self@.remove(name@) =~= self@);
            return None;
        }
        let ghost before: NameMap<V> = *self;
        proof {
            before.positions_tell();
        }
        let mut held: NameMap<V> = NameMap::new();
        std::mem::swap(&mut held, self);
        let NameMap { mut names, mut values } = held;
        let at: usize = place.1;
        let _name: String = names.remove(at);
        let was: V = values.remove(at);
        proof {
            assert forall|i: int, j: int|
                #![trigger names@[i], names@[j]]
                0 <= i < j < names@.len() implies precedes(names@[i]@, names@[j]@) by {
                let p: int = if i < at { i } else { i + 1 };
                let q: int = if j < at { j } else { j + 1 };
                assert(precedes(before.names@[p]@, before.names@[q]@));
            }
        }
        *self = NameMap { names, values };
        proof {
            self.positions_tell();
            assert(before.listing()[at as int] == name@);
            assert(self@ =~= before@.remove(name@)) by {
                assert forall|n: Seq<char>| self@.contains_key(n) <==> before@.remove(
                    name@,
                ).contains_key(n) by {
                    if self@.contains_key(n) {
                        let k = self.listing().index_of(n);
                        assert(self.listing()[k] == n);
                        let m: int = if k < at { k } else { k + 1 };
                        assert(before.listing()[m] == n);
                        byte_order_is_strict(n, n, n);
                        assert(before.names@[m]@ == n);
                        assert(before.names@[at as int]@ == name@);
                    }
                    if before@.contains_key(n) && n != name@ {
                        let k = before.listing().index_of(n);
                        assert(before.listing()[k] == n);
                        let m: int = if k < at { k } else { k - 1 };
                        assert(self.listing()[m] == n);
                    }
                }
                assert forall|n: Seq<char>| self@.contains_key(n) implies self@[n] == before@.remove(
                    name@,
                )[n] by {
                    let k = self.listing().index_of(n);
                    assert(self.listing()[k] == n);
                    let m: int = if k < at { k } else { k + 1 };
                    assert(before.listing()[m] == n);
                }
            }
        }
        Some(was)
    }
}

impl<V> Default for NameMap<V> {
    fn default() -> (r: NameMap<V>)
        ensures
            r@ == Map::<Seq<char>, V>::empty(),
    {
        NameMap::new()
    }
}

/// A name comes before every longer one that starts with it, and of two names the one with the
/// smaller byte where they first differ comes first.
pub proof fn smaller_bytes_come_first(
    a: Seq<char>,
    b: Seq<char>,
    shared: Seq<u8>,
    x: u8,
    y: u8,
    rest_a: Seq<u8>,
    rest_b: Seq<u8>,
)
    ensures
        rest_b.len() > 0 && name_bytes(b) == name_bytes(a) + rest_b ==> precedes(a, b),
        x < y && name_bytes(a) == shared + seq![x] + rest_a && name_bytes(b) == shared + seq![y]
            + rest_b ==> precedes(a, b) && !precedes(b, a),
{
    let (p, q) = (name_bytes(a), name_bytes(b));
    byte_order_is_strict(a, b, a);
    if rest_b.len() > 0 && q == p + rest_b {
        assert(precedes_at(p, q, p.len() as int));
    }
    if x < y && p == shared + seq![x] + rest_a && q == shared + seq![y] + rest_b {
        assert(p[shared.len() as int] == x && q[shared.len() as int] == y);
        assert(precedes_at(p, q, shared.len() as int));
    }
}

} // verus!
