//! The mathematical model of the protocol's data.
//!
//! Every value that a widget tree carries (kinds, styles, animations, ...) has
//! a [`DeepValue`]: a tree of plain integers, bit patterns, character
//! sequences and tags that records the value exactly. Two values with the same
//! `DeepValue` are indistinguishable. [`deep_eq`] is the equality that the
//! protocol's `==` computes on them: structural, with IEEE equality on floats.

use vstd::prelude::*;
use crate::float::{F32, F64};

verus! {

/// The exact content of a protocol value.
pub enum DeepValue {
    /// A single-precision float, by its bits.
    Float(u32),
    /// A double-precision float, by its bits.
    Double(u64),
    /// An integer or a boolean (`0` / `1`).
    Int(int),
    /// A string, by its characters.
    Text(Seq<char>),
    /// A variant or an empty record.
    Tag(nat),
    /// Two parts of a record, or a variant's tag and its fields.
    Pair(Box<DeepValue>, Box<DeepValue>),
    /// The items of a list.
    List(Seq<DeepValue>),
    /// A finite map from strings to strings.
    Dict(Map<Seq<char>, Seq<char>>),
}

/// Structural equality of two deep values, IEEE equality on floats.
pub open spec fn deep_eq(x: DeepValue, y: DeepValue) -> bool
    decreases x,
{
    match x {
        DeepValue::Float(a) => y matches DeepValue::Float(b) && crate::float::f32_ieee_eq(a, b),
        DeepValue::Double(a) => y matches DeepValue::Double(b) && crate::float::f64_ieee_eq(a, b),
        DeepValue::Int(a) => y matches DeepValue::Int(b) && a == b,
        DeepValue::Text(a) => y matches DeepValue::Text(b) && a == b,
        DeepValue::Tag(a) => y matches DeepValue::Tag(b) && a == b,
        DeepValue::Pair(a, b) => y matches DeepValue::Pair(c, d) && deep_eq(*a, *c) && deep_eq(*b, *d),
        DeepValue::List(s) => y matches DeepValue::List(t) && s.len() == t.len() && deep_list_eq(s, t, s.len() as int),
        DeepValue::Dict(m) => y matches DeepValue::Dict(n) && m == n,
    }
}

/// The first `n` items of two lists are pairwise `deep_eq`.
pub open spec fn deep_list_eq(s: Seq<DeepValue>, t: Seq<DeepValue>, n: int) -> bool
    decreases s, n,
{
    if n <= 0 || n > s.len() {
        n == 0
    } else {
        deep_list_eq(s, t, n - 1) && deep_eq(s[n - 1], t[n - 1])
    }
}

/// A pair of deep values.
pub open spec fn dpair(a: DeepValue, b: DeepValue) -> DeepValue {
    DeepValue::Pair(Box::new(a), Box::new(b))
}

/// The deep value of a variant with fields.
pub open spec fn dvariant(tag: nat, fields: DeepValue) -> DeepValue {
    dpair(DeepValue::Tag(tag), fields)
}

/// Once a prefix of two lists differs, every longer prefix differs too.
pub proof fn lemma_list_prefix_differs(s: Seq<DeepValue>, t: Seq<DeepValue>, k: int, n: int)
    requires
        0 <= k <= n <= s.len(),
        !deep_list_eq(s, t, k),
    ensures
        !deep_list_eq(s, t, n),
    decreases n - k,
{
    if k < n {
        lemma_list_prefix_differs(s, t, k + 1, n);
    }
}

/// A protocol value: it has a deep value, an equality, and a copy.
pub trait Facet: Sized {
    /// The exact content of the value.
    spec fn deep(&self) -> DeepValue;

    /// The protocol's `==`.
    fn equals(&self, other: &Self) -> (r: bool)
        ensures
            r == deep_eq(self.deep(), other.deep()),
    ;

    /// An exact copy.
    fn duplicate(&self) -> (r: Self)
        ensures
            r.deep() == self.deep(),
    ;
}

impl Facet for String {
    open spec fn deep(&self) -> DeepValue {
        DeepValue::Text(self@)
    }

    fn equals(&self, other: &Self) -> (r: bool) {
        *self == *other
    }

    fn duplicate(&self) -> (r: Self) {
        self.clone()
    }
}

impl Facet for bool {
    open spec fn deep(&self) -> DeepValue {
        DeepValue::Int(if *self { 1 } else { 0 })
    }

    fn equals(&self, other: &Self) -> (r: bool) {
        *self == *other
    }

    fn duplicate(&self) -> (r: Self) {
        *self
    }
}

impl Facet for u32 {
    open spec fn deep(&self) -> DeepValue {
        DeepValue::Int(*self as int)
    }

    fn equals(&self, other: &Self) -> (r: bool) {
        *self == *other
    }

    fn duplicate(&self) -> (r: Self) {
        *self
    }
}

impl Facet for i32 {
    open spec fn deep(&self) -> DeepValue {
        DeepValue::Int(*self as int)
    }

    fn equals(&self, other: &Self) -> (r: bool) {
        *self == *other
    }

    fn duplicate(&self) -> (r: Self) {
        *self
    }
}

impl Facet for u64 {
    open spec fn deep(&self) -> DeepValue {
        DeepValue::Int(*self as int)
    }

    fn equals(&self, other: &Self) -> (r: bool) {
        *self == *other
    }

    fn duplicate(&self) -> (r: Self) {
        *self
    }
}

impl Facet for i64 {
    open spec fn deep(&self) -> DeepValue {
        DeepValue::Int(*self as int)
    }

    fn equals(&self, other: &Self) -> (r: bool) {
        *self == *other
    }

    fn duplicate(&self) -> (r: Self) {
        *self
    }
}

impl Facet for F32 {
    open spec fn deep(&self) -> DeepValue {
        DeepValue::Float(self.bits)
    }

    fn equals(&self, other: &Self) -> (r: bool) {
        self.ieee_eq(other)
    }

    fn duplicate(&self) -> (r: Self) {
        *self
    }
}

impl Facet for F64 {
    open spec fn deep(&self) -> DeepValue {
        DeepValue::Double(self.bits)
    }

    fn equals(&self, other: &Self) -> (r: bool) {
        self.ieee_eq(other)
    }

    fn duplicate(&self) -> (r: Self) {
        *self
    }
}

impl<T: Facet> Facet for Option<T> {
    open spec fn deep(&self) -> DeepValue {
        match self {
            None => DeepValue::Tag(0),
            Some(x) => dvariant(1, x.deep()),
        }
    }

    fn equals(&self, other: &Self) -> (r: bool) {
        match (self, other) {
            (None, None) => true,
            (Some(a), Some(b)) => {
                assert(deep_eq(DeepValue::Tag(1), DeepValue::Tag(1)));
                a.equals(b)
            },
            _ => false,
        }
    }

    fn duplicate(&self) -> (r: Self) {
        match self {
            None => None,
            Some(x) => Some(x.duplicate()),
        }
    }
}

impl<T: Facet> Facet for Vec<T> {
    open spec fn deep(&self) -> DeepValue {
        DeepValue::List(self@.map_values(|x: T| x.deep()))
    }

    fn equals(&self, other: &Self) -> (r: bool) {
        let ghost s = self@.map_values(|x: T| x.deep());
        let ghost t = other@.map_values(|x: T| x.deep());
        if self.len() != other.len() {
            return false;
        }
        let mut i: usize = 0;
        while i < self.len()
            invariant
                i <= self@.len(),
                self@.len() == other@.len(),
                s == self@.map_values(|x: T| x.deep()),
                t == other@.map_values(|x: T| x.deep()),
                deep_list_eq(s, t, i as int),
            decreases self@.len() - i,
        {
            let e = self[i].equals(&other[i]);
            assert(deep_list_eq(s, t, i + 1) == (deep_list_eq(s, t, i as int) && deep_eq(s[i as int], t[i as int])));
            if !e {
                proof {
                    lemma_list_prefix_differs(s, t, i + 1, s.len() as int);
                }
                return false;
            }
            i += 1;
        }
        true
    }

    fn duplicate(&self) -> (r: Self) {
        let mut out: Vec<T> = Vec::new();
        let mut i: usize = 0;
        while i < self.len()
            invariant
                i <= self@.len(),
                out@.len() == i,
                forall|j: int| 0 <= j < i ==> #[trigger] out@[j].deep() == self@[j].deep(),
            decreases self@.len() - i,
        {
            out.push(self[i].duplicate());
            i += 1;
        }
        assert(out@.map_values(|x: T| x.deep()) =~= self@.map_values(|x: T| x.deep()));
        out
    }
}

impl Facet for [F32; 2] {
    open spec fn deep(&self) -> DeepValue {
        dpair(self@[0].deep(), self@[1].deep())
    }

    fn equals(&self, other: &Self) -> (r: bool) {
        let a = self[0].equals(&other[0]);
        let b = self[1].equals(&other[1]);
        a && b
    }

    fn duplicate(&self) -> (r: Self) {
        *self
    }
}

impl Facet for [F32; 3] {
    open spec fn deep(&self) -> DeepValue {
        dpair(self@[0].deep(), dpair(self@[1].deep(), self@[2].deep()))
    }

    fn equals(&self, other: &Self) -> (r: bool) {
        let a = self[0].equals(&other[0]);
        let b = self[1].equals(&other[1]);
        let c = self[2].equals(&other[2]);
        assert(deep_eq(dpair(self@[1].deep(), self@[2].deep()), dpair(other@[1].deep(), other@[2].deep())) == (b && c));
        a && b && c
    }

    fn duplicate(&self) -> (r: Self) {
        *self
    }
}

impl Facet for [F32; 4] {
    open spec fn deep(&self) -> DeepValue {
        dpair(self@[0].deep(), dpair(self@[1].deep(), dpair(self@[2].deep(), self@[3].deep())))
    }

    fn equals(&self, other: &Self) -> (r: bool) {
        let a = self[0].equals(&other[0]);
        let b = self[1].equals(&other[1]);
        let c = self[2].equals(&other[2]);
        let d = self[3].equals(&other[3]);
        assert(deep_eq(dpair(self@[2].deep(), self@[3].deep()), dpair(other@[2].deep(), other@[3].deep())) == (c && d));
        assert(deep_eq(dpair(self@[1].deep(), dpair(self@[2].deep(), self@[3].deep())),
            dpair(other@[1].deep(), dpair(other@[2].deep(), other@[3].deep()))) == (b && c && d));
        a && b && c && d
    }

    fn duplicate(&self) -> (r: Self) {
        *self
    }
}

} // verus!
