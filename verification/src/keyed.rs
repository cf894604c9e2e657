//! Combinable set and key-value map types with integer keys.
//!
//! Both types are modelled by the mathematical `Set` and `Map`: combining two
//! sets takes their union, and combining two maps takes their union with the
//! right-hand operand winning on key collisions.

use vstd::prelude::*;
use crate::monoid::Monoid;

verus! {

/// An unordered set of `u64` keys, stored without duplicates.
///
/// Its model is the mathematical set of its elements; `combine` is set union.
#[derive(Debug, PartialEq, Eq, Clone)]
pub struct IntSet {
    /// The elements of the set.
    pub elems: Vec<u64>,
}

impl IntSet {
    /// Whether this element is in the set.
    pub fn contains(&self, x: u64) -> (r: bool)
        ensures
            r == self.model().contains(x),
    {
        let mut j: usize = 0;
        while j < self.elems.len()
            invariant
                j <= self.elems@.len(),
                forall|k: int| 0 <= k < j ==> self.elems@[k] != x,
            decreases self.elems@.len() - j,
        {
            if self.elems[j] == x {
                assert(self.elems@.contains(x));
                return true;
            }
            j = j + 1;
        }
        assert(!self.elems@.contains(x));
        false
    }

    /// Add one element to the set.
    pub fn insert(&mut self, x: u64)
        ensures
            final(self).model() == old(self).model().insert(x),
    {
        let present = self.contains(x);
        if !present {
            self.elems.push(x);
            proof {
                assert(self.elems@ == old(self).elems@.push(x));
                assert(self.elems@.to_set() =~= old(self).elems@.to_set().insert(x)) by {
                    broadcast use vstd::seq_lib::group_seq_properties;

                };
            }
        } else {
            proof {
                assert(self.model() =~= old(self).model().insert(x));
            }
        }
    }
}

/// Combine `IntSet`s by taking the union of the two sets.
impl Monoid for IntSet {
    type Model = Set<u64>;

    open spec fn model(&self) -> Set<u64> {
        self.elems@.to_set()
    }

    open spec fn unit_model() -> Set<u64> {
        Set::empty()
    }

    open spec fn combine_model(a: Set<u64>, b: Set<u64>) -> Set<u64> {
        a.union(b)
    }

    proof fn lemma_unit_left(a: Set<u64>) {
        assert(Set::<u64>::empty().union(a) =~= a);
    }

    proof fn lemma_unit_right(a: Set<u64>) {
        assert(a.union(Set::<u64>::empty()) =~= a);
    }

    proof fn lemma_combine_assoc(a: Set<u64>, b: Set<u64>, c: Set<u64>) {
        assert(a.union(b.union(c)) =~= (a.union(b)).union(c));
    }

    fn unit() -> (r: Self) {
        let s = IntSet { elems: Vec::new() };
        proof {
            assert(s.model() =~= Set::<u64>::empty());
        }
        s
    }

    fn combine(self, other: Self) -> (r: Self) {
        let mut s = self;
        let ghost a: Set<u64> = s.model();
        let ghost b: Seq<u64> = other.elems@;
        let mut j: usize = 0;
        proof {
            assert(a.union(b.subrange(0, 0).to_set()) =~= a) by {
                assert(b.subrange(0, 0).to_set() =~= Set::<u64>::empty());
            };
        }
        while j < other.elems.len()
            invariant
                j <= b.len(),
                other.elems@ == b,
                s.model() == a.union(b.subrange(0, j as int).to_set()),
            decreases b.len() - j,
        {
            let x = other.elems[j];
            s.insert(x);
            proof {
                assert(b.subrange(0, j + 1).drop_last() =~= b.subrange(0, j as int));
                assert(b.subrange(0, j + 1).to_set() =~= b.subrange(0, j as int).to_set().insert(
                    x,
                )) by {
                    broadcast use vstd::seq_lib::group_seq_properties;

                };
                assert(s.model() =~= a.union(b.subrange(0, j + 1).to_set()));
            }
            j = j + 1;
        }
        proof {
            assert(b.subrange(0, b.len() as int) =~= b);
        }
        s
    }
}

/// The map described by a sequence of key-value bindings, where a later
/// binding for a key shadows an earlier one.
pub open spec fn map_of<V>(s: Seq<(u64, V)>) -> Map<u64, V>
    decreases s.len(),
{
    if s.len() == 0 {
        Map::empty()
    } else {
        map_of(s.drop_last()).insert(s.last().0, s.last().1)
    }
}

/// A key-value map with `u64` keys, stored as a sequence of bindings in which
/// the latest binding for a key wins.
///
/// Its model is the mathematical map of its bindings; `combine` is map union
/// with the right-hand operand's value winning on key collisions.
#[derive(Debug, PartialEq, Eq, Clone)]
pub struct IntMap<V> {
    /// The bindings, oldest first.
    pub entries: Vec<(u64, V)>,
}

impl<V> IntMap<V> {
    /// Add one binding, shadowing any earlier binding for the same key.
    pub fn insert(&mut self, k: u64, v: V)
        ensures
            final(self).model() == old(self).model().insert(k, v),
    {
        self.entries.push((k, v));
        proof {
            assert(self.entries@.drop_last() =~= old(self).entries@);
        }
    }

    /// Look up the value bound to a key, if any.
    pub fn get(&self, k: u64) -> (r: Option<&V>)
        ensures
            match r {
                Option::Some(v) => self.model().contains_key(k) && *v == self.model()[k],
                Option::None => !self.model().contains_key(k),
            },
    {
        let n = self.entries.len();
        let mut j: usize = n;
        proof {
            assert(self.entries@.subrange(0, n as int) =~= self.entries@);
        }
        while j > 0
            invariant
                j <= self.entries@.len(),
                self.model().contains_key(k) == map_of(
                    self.entries@.subrange(0, j as int),
                ).contains_key(k),
                self.model().contains_key(k) ==> self.model()[k] == map_of(
                    self.entries@.subrange(0, j as int),
                )[k],
            decreases j,
        {
            j = j - 1;
            let ghost pre = self.entries@.subrange(0, j + 1);
            proof {
                assert(pre.drop_last() =~= self.entries@.subrange(0, j as int));
                assert(pre.last() == self.entries@[j as int]);
            }
            if self.entries[j].0 == k {
                return Option::Some(&self.entries[j].1);
            }
        }
        proof {
            assert(self.entries@.subrange(0, 0) =~= Seq::<(u64, V)>::empty());
        }
        Option::None
    }
}

/// The map of two concatenated binding sequences is the union of their maps,
/// with the right-hand bindings winning.
proof fn lemma_map_of_concat<V>(a: Seq<(u64, V)>, b: Seq<(u64, V)>)
    ensures
        map_of(a + b) == map_of(a).union_prefer_right(map_of(b)),
    decreases b.len(),
{
    if b.len() == 0 {
        assert(a + b =~= a);
        assert(map_of(b) == Map::<u64, V>::empty());
        assert(map_of(a).union_prefer_right(Map::<u64, V>::empty()) =~= map_of(a));
    } else {
        lemma_map_of_concat(a, b.drop_last());
        assert((a + b).drop_last() =~= a + b.drop_last());
        assert((a + b).last() == b.last());
        assert(map_of(a).union_prefer_right(
            map_of(b.drop_last()).insert(b.last().0, b.last().1),
        ) =~= map_of(a).union_prefer_right(map_of(b.drop_last())).insert(b.last().0, b.last().1));
    }
}

/// Combine `IntMap`s by taking the union of the two maps; on a key collision
/// the right-hand operand's value wins.
impl<V> Monoid for IntMap<V> {
    type Model = Map<u64, V>;

    open spec fn model(&self) -> Map<u64, V> {
        map_of(self.entries@)
    }

    open spec fn unit_model() -> Map<u64, V> {
        Map::empty()
    }

    open spec fn combine_model(a: Map<u64, V>, b: Map<u64, V>) -> Map<u64, V> {
        a.union_prefer_right(b)
    }

    proof fn lemma_unit_left(a: Map<u64, V>) {
        assert(Map::<u64, V>::empty().union_prefer_right(a) =~= a);
    }

    proof fn lemma_unit_right(a: Map<u64, V>) {
        assert(a.union_prefer_right(Map::<u64, V>::empty()) =~= a);
    }

    proof fn lemma_combine_assoc(a: Map<u64, V>, b: Map<u64, V>, c: Map<u64, V>) {
        assert(a.union_prefer_right(b.union_prefer_right(c)) =~= (a.union_prefer_right(
            b,
        )).union_prefer_right(c));
    }

    fn unit() -> (r: Self) {
        IntMap { entries: Vec::new() }
    }

    fn combine(self, other: Self) -> (r: Self) {
        let mut s = self;
        let mut o = other;
        proof {
            lemma_map_of_concat(s.entries@, o.entries@);
        }
        s.entries.append(&mut o.entries);
        IntMap { entries: s.entries }
    }
}

} // verus!
