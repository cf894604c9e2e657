//! The combinable-value contract: an identity element and an associative
//! binary operation, together with instances for common value types.

use std::collections::VecDeque;
use vstd::prelude::*;

verus! {

/// A `Monoid` is a type with an associative binary operator, `combine`, and an
/// identity element, `unit`.
///
/// Each instance chooses a mathematical `Model` for its values and describes
/// both operations over that model. The laws — left identity, right identity
/// and associativity — are proof obligations: every implementation must
/// discharge `lemma_unit_left`, `lemma_unit_right` and `lemma_combine_assoc`,
/// so no instance can be declared without its laws being machine-checked.
pub trait Monoid: Sized {
    /// The mathematical model of a value of this type.
    type Model;

    /// The model of this value.
    spec fn model(&self) -> Self::Model;

    /// The model of the identity element.
    spec fn unit_model() -> Self::Model;

    /// What `combine` does, stated over models.
    spec fn combine_model(a: Self::Model, b: Self::Model) -> Self::Model;

    /// Law: the identity element is a left identity for `combine`.
    proof fn lemma_unit_left(a: Self::Model)
        ensures
            Self::combine_model(Self::unit_model(), a) == a,
    ;

    /// Law: the identity element is a right identity for `combine`.
    proof fn lemma_unit_right(a: Self::Model)
        ensures
            Self::combine_model(a, Self::unit_model()) == a,
    ;

    /// Law: `combine` is associative.
    proof fn lemma_combine_assoc(a: Self::Model, b: Self::Model, c: Self::Model)
        ensures
            Self::combine_model(a, Self::combine_model(b, c)) == Self::combine_model(
                Self::combine_model(a, b),
                c,
            ),
    ;

    /// The identity element.
    fn unit() -> (r: Self)
        ensures
            r.model() == Self::unit_model(),
    ;

    /// The associative binary operator.
    fn combine(self, other: Self) -> (r: Self)
        ensures
            r.model() == Self::combine_model(self.model(), other.model()),
    ;

}

/// Combine all the elements of a sequence by repeated application of
/// `combine`, left to right, starting from `unit`: the fold of the empty
/// sequence is `unit`, and the fold of a one-element sequence is that element.
pub fn concat<T: Monoid>(items: Vec<T>) -> (r: T)
    ensures
        r.model() == concat_models::<T>(seq_models(items@)),
{
    let ghost orig: Seq<T> = items@;
    let mut items = items;
    let n: usize = items.len();
    let mut r = T::unit();
    let mut i: usize = 0;
    proof {
        assert(orig.len() == n);
        assert(seq_models::<T>(orig.subrange(0, 0)) =~= Seq::<T::Model>::empty());
    }
    while items.len() > 0
        invariant
            orig.len() <= usize::MAX,
            i + items.len() == orig.len(),
            items@ == orig.subrange(i as int, orig.len() as int),
            r.model() == concat_models::<T>(seq_models(orig.subrange(0, i as int))),
        decreases items.len(),
    {
        let x = items.remove(0);
        proof {
            assert(x == orig[i as int]);
            assert(items@ =~= orig.subrange(i + 1, orig.len() as int));
            let pre = orig.subrange(0, i as int);
            let post = orig.subrange(0, i + 1);
            assert(post.drop_last() =~= pre);
            assert(seq_models::<T>(post).drop_last() =~= seq_models::<T>(pre));
        }
        r = r.combine(x);
        i = i + 1;
    }
    proof {
        assert(orig.subrange(0, orig.len() as int) =~= orig);
    }
    r
}

/// The models of a sequence of combinable values, element by element.
pub open spec fn seq_models<T: Monoid>(s: Seq<T>) -> Seq<T::Model> {
    s.map_values(|x: T| x.model())
}

/// The fold of a sequence of models, left to right, starting from the
/// identity element: `concat_models([m1, m2, ..., mn])` is
/// `(...((unit . m1) . m2)...) . mn`.
pub open spec fn concat_models<T: Monoid>(s: Seq<T::Model>) -> T::Model
    decreases s.len(),
{
    if s.len() == 0 {
        T::unit_model()
    } else {
        T::combine_model(concat_models::<T>(s.drop_last()), s.last())
    }
}

/// The fold of the empty sequence is the identity element.
pub proof fn lemma_concat_empty<T: Monoid>()
    ensures
        concat_models::<T>(Seq::empty()) == T::unit_model(),
{
}

/// The fold of a one-element sequence is that element.
pub proof fn lemma_concat_singleton<T: Monoid>(a: T::Model)
    ensures
        concat_models::<T>(seq![a]) == a,
{
    assert(seq![a].drop_last() =~= Seq::<T::Model>::empty());
    assert(concat_models::<T>(Seq::empty()) == T::unit_model());
    assert(concat_models::<T>(seq![a]) == T::combine_model(T::unit_model(), a));
    T::lemma_unit_left(a);
}

/// The fold of a three-element sequence combines the elements left to right.
pub proof fn lemma_concat_three<T: Monoid>(a: T::Model, b: T::Model, c: T::Model)
    ensures
        concat_models::<T>(seq![a, b, c]) == T::combine_model(T::combine_model(a, b), c),
{
    assert(seq![a, b, c].drop_last() =~= seq![a, b]);
    assert(seq![a, b].drop_last() =~= seq![a]);
    lemma_concat_singleton::<T>(a);
    assert(concat_models::<T>(seq![a, b]) == T::combine_model(concat_models::<T>(seq![a]), b));
    assert(concat_models::<T>(seq![a, b, c]) == T::combine_model(
        concat_models::<T>(seq![a, b]),
        c,
    ));
}

/// Combine `String`s by appending their contents.
impl Monoid for String {
    type Model = Seq<char>;

    open spec fn model(&self) -> Seq<char> {
        self@
    }

    open spec fn unit_model() -> Seq<char> {
        Seq::empty()
    }

    open spec fn combine_model(a: Seq<char>, b: Seq<char>) -> Seq<char> {
        a + b
    }

    proof fn lemma_unit_left(a: Seq<char>) {
        assert(Seq::<char>::empty() + a =~= a);
    }

    proof fn lemma_unit_right(a: Seq<char>) {
        assert(a + Seq::<char>::empty() =~= a);
    }

    proof fn lemma_combine_assoc(a: Seq<char>, b: Seq<char>, c: Seq<char>) {
        assert(a + (b + c) =~= (a + b) + c);
    }

    fn unit() -> (r: Self) {
        String::new()
    }

    fn combine(self, other: Self) -> (r: Self) {
        let mut s = self;
        s.append(other.as_str());
        s
    }
}

/// Combine monoids wrapped in `Option` by treating each `Option` as a
/// container of zero or one elements: `None` is the identity, and two present
/// values are combined with the inner operation.
impl<T: Monoid> Monoid for Option<T> {
    type Model = Option<T::Model>;

    open spec fn model(&self) -> Option<T::Model> {
        match self {
            Option::None => Option::None,
            Option::Some(x) => Option::Some(x.model()),
        }
    }

    open spec fn unit_model() -> Option<T::Model> {
        Option::None
    }

    open spec fn combine_model(a: Option<T::Model>, b: Option<T::Model>) -> Option<T::Model> {
        match (a, b) {
            (Option::None, Option::None) => Option::None,
            (Option::None, Option::Some(y)) => Option::Some(y),
            (Option::Some(x), Option::None) => Option::Some(x),
            (Option::Some(x), Option::Some(y)) => Option::Some(T::combine_model(x, y)),
        }
    }

    proof fn lemma_unit_left(a: Option<T::Model>) {
    }

    proof fn lemma_unit_right(a: Option<T::Model>) {
    }

    proof fn lemma_combine_assoc(
        a: Option<T::Model>,
        b: Option<T::Model>,
        c: Option<T::Model>,
    ) {
        if let (Option::Some(x), Option::Some(y), Option::Some(z)) = (a, b, c) {
            T::lemma_combine_assoc(x, y, z);
        }
    }

    fn unit() -> (r: Self) {
        Option::None
    }

    fn combine(self, other: Self) -> (r: Self) {
        match (self, other) {
            (Option::None, Option::None) => Option::None,
            (Option::None, Option::Some(y)) => Option::Some(y),
            (Option::Some(x), Option::None) => Option::Some(x),
            (Option::Some(x), Option::Some(y)) => Option::Some(x.combine(y)),
        }
    }
}

/// The models of two concatenated sequences are the concatenated models.
proof fn lemma_seq_models_concat<T: Monoid>(a: Seq<T>, b: Seq<T>)
    ensures
        seq_models(a + b) == seq_models(a) + seq_models(b),
{
    assert(seq_models(a + b) =~= seq_models(a) + seq_models(b));
}

/// Combine `Vec`s of monoids by appending their contents.
impl<T: Monoid> Monoid for Vec<T> {
    type Model = Seq<T::Model>;

    open spec fn model(&self) -> Seq<T::Model> {
        seq_models(self@)
    }

    open spec fn unit_model() -> Seq<T::Model> {
        Seq::empty()
    }

    open spec fn combine_model(a: Seq<T::Model>, b: Seq<T::Model>) -> Seq<T::Model> {
        a + b
    }

    proof fn lemma_unit_left(a: Seq<T::Model>) {
        assert(Seq::<T::Model>::empty() + a =~= a);
    }

    proof fn lemma_unit_right(a: Seq<T::Model>) {
        assert(a + Seq::<T::Model>::empty() =~= a);
    }

    proof fn lemma_combine_assoc(a: Seq<T::Model>, b: Seq<T::Model>, c: Seq<T::Model>) {
        assert(a + (b + c) =~= (a + b) + c);
    }

    fn unit() -> (r: Self) {
        let v: Vec<T> = Vec::new();
        proof {
            assert(seq_models::<T>(v@) =~= Seq::<T::Model>::empty());
        }
        v
    }

    fn combine(self, other: Self) -> (r: Self) {
        let mut s = self;
        let mut o = other;
        proof {
            lemma_seq_models_concat(s@, o@);
        }
        s.append(&mut o);
        s
    }
}

/// Combine `VecDeque`s of monoids by appending their contents.
impl<T: Monoid> Monoid for VecDeque<T> {
    type Model = Seq<T::Model>;

    open spec fn model(&self) -> Seq<T::Model> {
        seq_models(self@)
    }

    open spec fn unit_model() -> Seq<T::Model> {
        Seq::empty()
    }

    open spec fn combine_model(a: Seq<T::Model>, b: Seq<T::Model>) -> Seq<T::Model> {
        a + b
    }

    proof fn lemma_unit_left(a: Seq<T::Model>) {
        assert(Seq::<T::Model>::empty() + a =~= a);
    }

    proof fn lemma_unit_right(a: Seq<T::Model>) {
        assert(a + Seq::<T::Model>::empty() =~= a);
    }

    proof fn lemma_combine_assoc(a: Seq<T::Model>, b: Seq<T::Model>, c: Seq<T::Model>) {
        assert(a + (b + c) =~= (a + b) + c);
    }

    fn unit() -> (r: Self) {
        let v: VecDeque<T> = VecDeque::new();
        proof {
            assert(seq_models::<T>(v@) =~= Seq::<T::Model>::empty());
        }
        v
    }

    fn combine(self, other: Self) -> (r: Self) {
        let mut s = self;
        let mut o = other;
        proof {
            lemma_seq_models_concat(s@, o@);
        }
        s.append(&mut o);
        s
    }
}

} // verus!
