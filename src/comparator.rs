//! Comparators decide the order of the keys that the storage engine keeps.
//!
//! A database written under one comparator cannot be reopened under a comparator of
//! another name, so a comparator binds a name and an order together.
use crate::key::Key;
use std::cmp::Ordering;
use std::marker::PhantomData;
use vstd::laws_cmp::obeys_cmp;
use vstd::prelude::*;
use vstd::std_specs::cmp::{OrdSpec, PartialEqSpec, PartialOrdSpec};

verus! {

/// A key order together with the name that identifies it to the storage engine.
pub trait Comparator: Sized {
    /// The type of the keys that are compared.
    type K: Key;

    /// The name that identifies the order.
    open spec fn identity(&self) -> Seq<char> {
        arbitrary()
    }

    /// The order that the comparator puts keys in.
    open spec fn order(&self, a: Self::K, b: Self::K) -> Ordering {
        arbitrary()
    }

    /// Whether `compare` computes `order` for this type; unless a type says otherwise,
    /// it does not.
    open spec fn computes_order() -> bool {
        false
    }

    /// Returns the name of the comparator.
    fn name(&self) -> (r: &str)
        ensures
            r@ == self.identity(),
    ;

    /// Compares two keys.
    fn compare(&self, a: &Self::K, b: &Self::K) -> (r: Ordering)
        requires
            Self::computes_order(),
        ensures
            r == self.order(*a, *b),
    ;

    /// Whether the comparator only stands for "no comparator set"; unless a type says
    /// otherwise, it does not.
    open spec fn is_null_sentinel() -> bool {
        false
    }

    /// Whether this comparator only stands for "no comparator set".
    fn null() -> (r: bool)
        ensures
            r == Self::is_null_sentinel(),
    ;
}

/// The sign that the storage engine expects for an ordering.
pub open spec fn sign_of(o: Ordering) -> int {
    match o {
        Ordering::Less => -1,
        Ordering::Equal => 0,
        Ordering::Greater => 1,
    }
}

/// The ordering with its two sides swapped.
pub open spec fn reversed(o: Ordering) -> Ordering {
    match o {
        Ordering::Less => Ordering::Greater,
        Ordering::Equal => Ordering::Equal,
        Ordering::Greater => Ordering::Less,
    }
}

/// A comparator that orders keys by the key type's own `Ord`.
pub struct OrdComparator<K> {
    name: String,
    marker: PhantomData<K>,
}

impl<K> OrdComparator<K> {
    /// The name that the comparator was created under.
    pub closed spec fn spec_name(&self) -> Seq<char> {
        self.name@
    }

    /// Creates a comparator under the given name.
    pub fn new(name: &str) -> (r: OrdComparator<K>)
        ensures
            r.spec_name() == name@,
    {
        OrdComparator { marker: PhantomData, name: name.to_string() }
    }
}

impl<K: Key + Ord> Comparator for OrdComparator<K> {
    type K = K;

    open spec fn identity(&self) -> Seq<char> {
        self.spec_name()
    }

    open spec fn order(&self, a: K, b: K) -> Ordering {
        a.cmp_spec(&b)
    }

    open spec fn computes_order() -> bool {
        K::obeys_cmp_spec()
    }

    fn name(&self) -> (r: &str) {
        self.name.as_str()
    }

    fn compare(&self, a: &K, b: &K) -> (r: Ordering) {
        a.cmp(b)
    }

    fn null() -> (r: bool) {
        false
    }
}

/// The stand-in for "no comparator set": every two keys compare equal.
#[derive(Copy, Clone)]
pub struct DefaultComparator;

impl Comparator for DefaultComparator {
    type K = i32;

    open spec fn identity(&self) -> Seq<char> {
        "default_comparator"@
    }

    open spec fn order(&self, a: i32, b: i32) -> Ordering {
        Ordering::Equal
    }

    open spec fn computes_order() -> bool {
        true
    }

    open spec fn is_null_sentinel() -> bool {
        true
    }

    fn name(&self) -> (r: &str) {
        "default_comparator"
    }

    fn compare(&self, a: &i32, b: &i32) -> (r: Ordering) {
        Ordering::Equal
    }

    fn null() -> (r: bool) {
        true
    }
}

/// The name that the storage engine is given for the comparator it holds.
pub fn name<T: Comparator>(state: &T) -> (r: &str)
    ensures
        r@ == state.identity(),
{
    state.name()
}

/// Compares two keys given as raw bytes, as the storage engine asks: negative when `a`
/// comes first, zero when they are equal, positive when `b` comes first.
pub fn compare<T: Comparator>(state: &T, a: &[u8], b: &[u8]) -> (r: i32)
    requires
        T::computes_order(),
        <T::K as Key>::decodable(a@),
        <T::K as Key>::decodable(b@),
    ensures
        r == sign_of(state.order(<T::K as Key>::decode(a@), <T::K as Key>::decode(b@))),
{
    let a_key = <T::K as Key>::from_u8(a);
    let b_key = <T::K as Key>::from_u8(b);
    match state.compare(&a_key, &b_key) {
        Ordering::Less => -1,
        Ordering::Equal => 0,
        Ordering::Greater => 1,
    }
}

/// Hands a comparator's storage back: the comparator and what it holds are released
/// here, once, when the storage engine lets go of it.
pub fn destructor<T>(state: Box<T>) {
}

/// Swapping the keys of the ordered comparator swaps the outcome (less and greater trade
/// places, equal stays), and the outcome is the key type's own comparison.
pub proof fn lemma_ord_order_antisymmetric<K: Key + Ord>(c: OrdComparator<K>, a: K, b: K)
    requires
        obeys_cmp::<K>(),
    ensures
        c.order(a, b) == a.cmp_spec(&b),
        c.order(b, a) == reversed(c.order(a, b)),
{
    reveal(vstd::laws_cmp::obeys_partial_cmp_spec_properties);
    reveal(vstd::laws_cmp::obeys_cmp_ord);
    reveal(vstd::laws_eq::obeys_eq_spec_properties);
    assert(a.partial_cmp_spec(&b) == Some(a.cmp_spec(&b)));
    assert(b.partial_cmp_spec(&a) == Some(b.cmp_spec(&a)));
    assert(a.eq_spec(&b) <==> b.eq_spec(&a));
}

/// The ordered comparator finds every key equal to itself.
pub proof fn lemma_ord_order_reflexive<K: Key + Ord>(c: OrdComparator<K>, a: K)
    requires
        obeys_cmp::<K>(),
    ensures
        c.order(a, a) == Ordering::Equal,
{
    lemma_ord_order_antisymmetric(c, a, a);
}

/// The ordered comparator is transitive: `a` before `b` and `b` before `c` put `a` before
/// `c`.
pub proof fn lemma_ord_order_transitive<K: Key + Ord>(
    cmp: OrdComparator<K>,
    a: K,
    b: K,
    c: K,
)
    requires
        obeys_cmp::<K>(),
        cmp.order(a, b) == Ordering::Less,
        cmp.order(b, c) == Ordering::Less,
    ensures
        cmp.order(a, c) == Ordering::Less,
{
    reveal(vstd::laws_cmp::obeys_partial_cmp_spec_properties);
    reveal(vstd::laws_cmp::obeys_cmp_ord);
    assert(a.partial_cmp_spec(&b) == Some(a.cmp_spec(&b)));
    assert(b.partial_cmp_spec(&c) == Some(b.cmp_spec(&c)));
    assert(a.partial_cmp_spec(&c) == Some(a.cmp_spec(&c)));
}

/// The ordered comparator over integer keys orders them as integers.
pub proof fn lemma_ord_order_integers(c: OrdComparator<i32>, a: i32, b: i32)
    ensures
        OrdComparator::<i32>::computes_order(),
        c.order(a, b) == Ordering::Less <==> a < b,
        c.order(a, b) == Ordering::Equal <==> a == b,
        c.order(a, b) == Ordering::Greater <==> a > b,
{
}

/// The stand-in comparator finds every two keys equal, so the raw comparison of any two
/// encoded keys is zero.
pub proof fn lemma_default_order_equal(c: DefaultComparator, a: i32, b: i32)
    ensures
        c.order(a, b) == Ordering::Equal,
        sign_of(c.order(a, b)) == 0,
{
}

} // verus!
