//! Sampled checks of the combinable-value instances: the identity and
//! associativity laws, the fold, and the container instances' semantics.

use monoidal::keyed::{IntMap, IntSet};
use monoidal::monoid::Monoid;

fn s(t: &str) -> String {
    t.to_string()
}

#[test]
fn string_identity_laws() {
    let x = s("abc");
    assert_eq!(<String as Monoid>::unit().combine(x.clone()), x);
    assert_eq!(x.clone().combine(<String as Monoid>::unit()), x);
    assert_eq!(<String as Monoid>::unit(), s(""));
}

#[test]
fn string_associativity() {
    let (x, y, z) = (s("ab"), s("c"), s("def"));
    assert_eq!(
        x.clone().combine(y.clone().combine(z.clone())),
        x.combine(y).combine(z)
    );
}

#[test]
fn string_combine_appends() {
    assert_eq!(s("foo").combine(s("bar")), s("foobar"));
}

#[test]
fn option_identity_laws() {
    let x: Option<String> = Some(s("a"));
    assert_eq!(<Option<String> as Monoid>::unit().combine(x.clone()), x);
    assert_eq!(x.clone().combine(<Option<String> as Monoid>::unit()), x);
    assert_eq!(<Option<String> as Monoid>::unit(), None);
}

#[test]
fn option_associativity() {
    let x: Option<String> = Some(s("a"));
    let y: Option<String> = None;
    let z: Option<String> = Some(s("b"));
    assert_eq!(
        x.clone().combine(y.clone().combine(z.clone())),
        x.combine(y).combine(z)
    );
}

#[test]
fn option_container_semantics() {
    let empty: Option<String> = None;
    assert_eq!(empty.clone().combine(Some(s("a"))), Some(s("a")));
    assert_eq!(Some(s("a")).combine(empty), Some(s("a")));
    assert_eq!(Some(s("a")).combine(Some(s("b"))), Some(s("ab")));
    let both_empty: Option<String> = None;
    assert_eq!(both_empty.combine(None), None);
}

#[test]
fn vec_identity_laws() {
    let x = vec![s("a"), s("b")];
    assert_eq!(<Vec<String> as Monoid>::unit().combine(x.clone()), x);
    assert_eq!(x.clone().combine(<Vec<String> as Monoid>::unit()), x);
}

#[test]
fn vec_associativity() {
    let x = vec![s("a")];
    let y = vec![s("b"), s("c")];
    let z = vec![s("d")];
    assert_eq!(
        x.clone().combine(y.clone().combine(z.clone())),
        x.combine(y).combine(z)
    );
}

#[test]
fn vec_combine_appends() {
    assert_eq!(
        vec![s("a")].combine(vec![s("b"), s("c")]),
        vec![s("a"), s("b"), s("c")]
    );
}

fn dq(elems: &[&str]) -> std::collections::VecDeque<String> {
    elems.iter().map(|e| e.to_string()).collect()
}

#[test]
fn deque_identity_laws() {
    let x = dq(&["a", "b"]);
    let unit = <std::collections::VecDeque<String> as Monoid>::unit();
    assert_eq!(unit.clone().combine(x.clone()), x);
    assert_eq!(x.clone().combine(unit), x);
}

#[test]
fn deque_associativity() {
    let (x, y, z) = (dq(&["a"]), dq(&["b", "c"]), dq(&["d"]));
    assert_eq!(
        x.clone().combine(y.clone().combine(z.clone())),
        x.combine(y).combine(z)
    );
}

#[test]
fn deque_combine_appends() {
    assert_eq!(dq(&["a"]).combine(dq(&["b", "c"])), dq(&["a", "b", "c"]));
}

fn set_of(elems: &[u64]) -> IntSet {
    let mut r = <IntSet as Monoid>::unit();
    for &e in elems {
        r.insert(e);
    }
    r
}

#[test]
fn set_identity_laws() {
    let x = set_of(&[1, 2, 3]);
    assert_eq!(<IntSet as Monoid>::unit().combine(x.clone()), x);
    assert_eq!(x.clone().combine(<IntSet as Monoid>::unit()), x);
}

#[test]
fn set_associativity() {
    let (x, y, z) = (set_of(&[1, 2]), set_of(&[2, 3]), set_of(&[3, 4]));
    assert_eq!(
        x.clone().combine(y.clone().combine(z.clone())),
        x.combine(y).combine(z)
    );
}

#[test]
fn set_combine_is_union() {
    let u = set_of(&[1, 2]).combine(set_of(&[2, 3]));
    assert!(u.contains(1));
    assert!(u.contains(2));
    assert!(u.contains(3));
    assert!(!u.contains(4));
    assert_eq!(u.elems.len(), 3);
}

fn map_of(entries: &[(u64, u64)]) -> IntMap<u64> {
    let mut r = <IntMap<u64> as Monoid>::unit();
    for &(k, v) in entries {
        r.insert(k, v);
    }
    r
}

#[test]
fn map_identity_laws() {
    let x = map_of(&[(1, 10), (2, 20)]);
    assert_eq!(<IntMap<u64> as Monoid>::unit().combine(x.clone()), x);
    assert_eq!(x.clone().combine(<IntMap<u64> as Monoid>::unit()), x);
}

#[test]
fn map_associativity() {
    let x = map_of(&[(1, 10)]);
    let y = map_of(&[(1, 11), (2, 20)]);
    let z = map_of(&[(2, 21)]);
    assert_eq!(
        x.clone().combine(y.clone().combine(z.clone())),
        x.combine(y).combine(z)
    );
}

#[test]
fn map_right_bias() {
    let left = map_of(&[(1, 1)]);
    let right = map_of(&[(1, 2)]);
    let u = left.combine(right);
    assert_eq!(u.get(1), Some(&2));
}

#[test]
fn map_union_keeps_both_sides() {
    let u = map_of(&[(1, 10), (2, 20)]).combine(map_of(&[(2, 21), (3, 30)]));
    assert_eq!(u.get(1), Some(&10));
    assert_eq!(u.get(2), Some(&21));
    assert_eq!(u.get(3), Some(&30));
    assert_eq!(u.get(4), None);
}

#[test]
fn concat_empty_is_unit() {
    let r: String = monoidal::monoid::concat(vec![]);
    assert_eq!(r, s(""));
}

#[test]
fn concat_singleton_is_the_element() {
    let r: String = monoidal::monoid::concat(vec![s("a")]);
    assert_eq!(r, s("a"));
}

#[test]
fn concat_folds_left_to_right() {
    let (a, b, c) = (s("a"), s("b"), s("c"));
    let folded = monoidal::monoid::concat(vec![a.clone(), b.clone(), c.clone()]);
    assert_eq!(folded, a.combine(b).combine(c));
    assert_eq!(folded, s("abc"));
}

#[test]
fn concat_of_vectors() {
    let r: Vec<String> = monoidal::monoid::concat(vec![vec![s("a")], vec![s("b"), s("c")]]);
    assert_eq!(r, vec![s("a"), s("b"), s("c")]);
}
