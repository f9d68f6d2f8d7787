//! JSON values as the protocol carries them (component props, host-call
//! arguments and replies). Objects keep their entries in key order, as the
//! JSON library's default map does.

use vstd::prelude::*;
use crate::facet::{DeepValue, Facet};
use crate::float::F64;

verus! {

/// A JSON number: a non-negative integer, a negative integer, or a float.
#[derive(Debug, Clone, Copy, PartialEq)]
pub enum JsonNumber {
    PosInt(u64),
    NegInt(i64),
    Float(F64),
}

impl JsonNumber {
    /// The position of the variant in the declaration.
    pub open spec fn variant(&self) -> nat {
        match self {
            JsonNumber::PosInt(..) => 0,
            JsonNumber::NegInt(..) => 1,
            JsonNumber::Float(..) => 2,
        }
    }
}

impl Facet for JsonNumber {
    open spec fn deep(&self) -> DeepValue {
        match self {
            JsonNumber::PosInt(n) => crate::facet::dvariant(0, n.deep()),
            JsonNumber::NegInt(n) => crate::facet::dvariant(1, n.deep()),
            JsonNumber::Float(x) => crate::facet::dvariant(2, x.deep()),
        }
    }

    fn equals(&self, other: &Self) -> (r: bool) {
        match (self, other) {
            (JsonNumber::PosInt(a), JsonNumber::PosInt(b)) => {
                assert(crate::facet::deep_eq(DeepValue::Tag(0), DeepValue::Tag(0)));
                a.equals(b)
            },
            (JsonNumber::NegInt(a), JsonNumber::NegInt(b)) => {
                assert(crate::facet::deep_eq(DeepValue::Tag(1), DeepValue::Tag(1)));
                a.equals(b)
            },
            (JsonNumber::Float(a), JsonNumber::Float(b)) => {
                assert(crate::facet::deep_eq(DeepValue::Tag(2), DeepValue::Tag(2)));
                a.equals(b)
            },
            _ => {
                assert(self.variant() != other.variant());
                assert(!crate::facet::deep_eq(DeepValue::Tag(self.variant()), DeepValue::Tag(other.variant())));
                false
            },
        }
    }

    fn duplicate(&self) -> (r: Self) {
        *self
    }
}

/// A JSON value.
#[derive(Debug, PartialEq)]
pub enum Json {
    Null,
    Bool(bool),
    Number(JsonNumber),
    Text(String),
    Array(Vec<Json>),
    Object(Vec<(String, Json)>),
}

impl Json {
    /// The position of the variant in the declaration.
    pub open spec fn variant(&self) -> nat {
        match self {
            Json::Null => 0,
            Json::Bool(..) => 1,
            Json::Number(..) => 2,
            Json::Text(..) => 3,
            Json::Array(..) => 4,
            Json::Object(..) => 5,
        }
    }

    /// The deep value of a JSON value.
    pub open spec fn deep_of(v: Json) -> DeepValue
        decreases v,
    {
        match v {
            Json::Null => DeepValue::Tag(0),
            Json::Bool(b) => crate::facet::dvariant(1, b.deep()),
            Json::Number(n) => crate::facet::dvariant(2, n.deep()),
            Json::Text(s) => crate::facet::dvariant(3, DeepValue::Text(s@)),
            Json::Array(items) => crate::facet::dvariant(4, DeepValue::List(Seq::new(items@.len(), |i: int|
                if 0 <= i < items@.len() { Json::deep_of(items@[i]) } else { DeepValue::Tag(0) }))),
            Json::Object(entries) => crate::facet::dvariant(5, DeepValue::List(Seq::new(entries@.len(), |i: int|
                if 0 <= i < entries@.len() {
                    crate::facet::dpair(DeepValue::Text(entries@[i].0@), Json::deep_of(entries@[i].1))
                } else {
                    DeepValue::Tag(0)
                }))),
        }
    }

    /// The deep values of a list of JSON values.
    pub open spec fn items_deep(s: Seq<Json>) -> Seq<DeepValue> {
        Seq::new(s.len(), |i: int| Json::deep_of(s[i]))
    }

    /// The deep values of the entries of a JSON object.
    pub open spec fn entries_deep(s: Seq<(String, Json)>) -> Seq<DeepValue> {
        Seq::new(s.len(), |i: int| crate::facet::dpair(DeepValue::Text(s[i].0@), Json::deep_of(s[i].1)))
    }

    /// The deep value of an array is the list of its items' deep values.
    pub proof fn lemma_deep_array(a: Vec<Json>)
        ensures
            Json::deep_of(Json::Array(a)) == crate::facet::dvariant(4, DeepValue::List(Json::items_deep(a@))),
    {
        let d = Json::deep_of(Json::Array(a));
        assert(d matches DeepValue::Pair(x, y) && *x == DeepValue::Tag(4)
            && (*y matches DeepValue::List(l) && l =~= Json::items_deep(a@)));
    }

    /// The deep value of an object is the list of its entries' deep values.
    pub proof fn lemma_deep_object(a: Vec<(String, Json)>)
        ensures
            Json::deep_of(Json::Object(a)) == crate::facet::dvariant(5, DeepValue::List(Json::entries_deep(a@))),
    {
        let d = Json::deep_of(Json::Object(a));
        assert(d matches DeepValue::Pair(x, y) && *x == DeepValue::Tag(5)
            && (*y matches DeepValue::List(l) && l =~= Json::entries_deep(a@)));
    }

    fn eq_items(a: &Vec<Json>, b: &Vec<Json>) -> (r: bool)
        ensures
            r == crate::facet::deep_eq(Json::deep_of(Json::Array(*a)), Json::deep_of(Json::Array(*b))),
        decreases a, 0nat,
    {
        let ghost s = Json::items_deep(a@);
        let ghost t = Json::items_deep(b@);
        assert(crate::facet::deep_eq(DeepValue::Tag(4), DeepValue::Tag(4)));
        proof {
            Json::lemma_deep_array(*a);
            Json::lemma_deep_array(*b);
            assert(crate::facet::deep_eq(DeepValue::List(s), DeepValue::List(t))
                == (s.len() == t.len() && crate::facet::deep_list_eq(s, t, s.len() as int)));
        }
        if a.len() != b.len() {
            return false;
        }
        let mut i: usize = 0;
        while i < a.len()
            invariant
                i <= a@.len(),
                a@.len() == b@.len(),
                s == Json::items_deep(a@),
                t == Json::items_deep(b@),
                crate::facet::deep_list_eq(s, t, i as int),
                crate::facet::deep_eq(Json::deep_of(Json::Array(*a)), Json::deep_of(Json::Array(*b)))
                    == crate::facet::deep_list_eq(s, t, s.len() as int),
            decreases a@.len() - i,
        {
            proof {
                assert(decreases_to!(*a => a@[i as int]));
            }
            let e = Json::eq_value(&a[i], &b[i]);
            assert(crate::facet::deep_list_eq(s, t, i + 1) == (crate::facet::deep_list_eq(s, t, i as int)
                && crate::facet::deep_eq(s[i as int], t[i as int])));
            if !e {
                proof {
                    crate::facet::lemma_list_prefix_differs(s, t, i + 1, s.len() as int);
                }
                return false;
            }
            i += 1;
        }
        true
    }

    fn eq_entries(a: &Vec<(String, Json)>, b: &Vec<(String, Json)>) -> (r: bool)
        ensures
            r == crate::facet::deep_eq(Json::deep_of(Json::Object(*a)), Json::deep_of(Json::Object(*b))),
        decreases a, 0nat,
    {
        let ghost s = Json::entries_deep(a@);
        let ghost t = Json::entries_deep(b@);
        assert(crate::facet::deep_eq(DeepValue::Tag(5), DeepValue::Tag(5)));
        proof {
            Json::lemma_deep_object(*a);
            Json::lemma_deep_object(*b);
            assert(crate::facet::deep_eq(DeepValue::List(s), DeepValue::List(t))
                == (s.len() == t.len() && crate::facet::deep_list_eq(s, t, s.len() as int)));
        }
        if a.len() != b.len() {
            return false;
        }
        let mut i: usize = 0;
        while i < a.len()
            invariant
                i <= a@.len(),
                a@.len() == b@.len(),
                s == Json::entries_deep(a@),
                t == Json::entries_deep(b@),
                crate::facet::deep_list_eq(s, t, i as int),
                crate::facet::deep_eq(Json::deep_of(Json::Object(*a)), Json::deep_of(Json::Object(*b)))
                    == crate::facet::deep_list_eq(s, t, s.len() as int),
            decreases a@.len() - i,
        {
            proof {
                assert(decreases_to!(*a => a@[i as int].1));
            }
            let k = a[i].0 == b[i].0;
            let e = Json::eq_value(&a[i].1, &b[i].1);
            assert(crate::facet::deep_eq(DeepValue::Text(a@[i as int].0@), DeepValue::Text(b@[i as int].0@)) == k);
            assert(crate::facet::deep_eq(s[i as int], t[i as int]) == (k && e));
            assert(crate::facet::deep_list_eq(s, t, i + 1) == (crate::facet::deep_list_eq(s, t, i as int)
                && crate::facet::deep_eq(s[i as int], t[i as int])));
            if !(k && e) {
                proof {
                    crate::facet::lemma_list_prefix_differs(s, t, i + 1, s.len() as int);
                }
                return false;
            }
            i += 1;
        }
        true
    }

    /// The protocol's `==` on JSON values.
    pub fn eq_value(a: &Json, b: &Json) -> (r: bool)
        ensures
            r == crate::facet::deep_eq(Json::deep_of(*a), Json::deep_of(*b)),
        decreases a, 1nat,
    {
        match (a, b) {
            (Json::Null, Json::Null) => true,
            (Json::Bool(x), Json::Bool(y)) => {
                assert(crate::facet::deep_eq(DeepValue::Tag(1), DeepValue::Tag(1)));
                x.equals(y)
            },
            (Json::Number(x), Json::Number(y)) => {
                assert(crate::facet::deep_eq(DeepValue::Tag(2), DeepValue::Tag(2)));
                x.equals(y)
            },
            (Json::Text(x), Json::Text(y)) => {
                assert(crate::facet::deep_eq(DeepValue::Tag(3), DeepValue::Tag(3)));
                assert(crate::facet::deep_eq(DeepValue::Text(x@), DeepValue::Text(y@)) == (x@ == y@));
                *x == *y
            },
            (Json::Array(x), Json::Array(y)) => Json::eq_items(x, y),
            (Json::Object(x), Json::Object(y)) => Json::eq_entries(x, y),
            _ => {
                assert(a.variant() != b.variant());
                assert(!crate::facet::deep_eq(DeepValue::Tag(a.variant()), DeepValue::Tag(b.variant())));
                false
            },
        }
    }

    fn copy_items(items: &Vec<Json>) -> (r: Vec<Json>)
        ensures
            Json::deep_of(Json::Array(r)) == Json::deep_of(Json::Array(*items)),
        decreases items, 0nat,
    {
        let mut out: Vec<Json> = Vec::new();
        let mut i: usize = 0;
        while i < items.len()
            invariant
                i <= items@.len(),
                out@.len() == i,
                forall|j: int| 0 <= j < i ==> Json::deep_of(#[trigger] out@[j]) == Json::deep_of(items@[j]),
            decreases items@.len() - i,
        {
            proof {
                assert(decreases_to!(*items => items@[i as int]));
            }
            out.push(Json::copy_value(&items[i]));
            i += 1;
        }
        proof {
            Json::lemma_deep_array(out);
            Json::lemma_deep_array(*items);
            assert(Json::items_deep(out@) =~= Json::items_deep(items@));
        }
        out
    }

    fn copy_entries(entries: &Vec<(String, Json)>) -> (r: Vec<(String, Json)>)
        ensures
            Json::deep_of(Json::Object(r)) == Json::deep_of(Json::Object(*entries)),
        decreases entries, 0nat,
    {
        let mut out: Vec<(String, Json)> = Vec::new();
        let mut i: usize = 0;
        while i < entries.len()
            invariant
                i <= entries@.len(),
                out@.len() == i,
                forall|j: int| 0 <= j < i ==> (#[trigger] out@[j]).0@ == entries@[j].0@
                    && Json::deep_of(out@[j].1) == Json::deep_of(entries@[j].1),
            decreases entries@.len() - i,
        {
            proof {
                assert(decreases_to!(*entries => entries@[i as int].1));
            }
            out.push((entries[i].0.clone(), Json::copy_value(&entries[i].1)));
            i += 1;
        }
        proof {
            Json::lemma_deep_object(out);
            Json::lemma_deep_object(*entries);
            assert(Json::entries_deep(out@) =~= Json::entries_deep(entries@));
        }
        out
    }

    /// An exact copy of a JSON value.
    pub fn copy_value(v: &Json) -> (r: Json)
        ensures
            Json::deep_of(r) == Json::deep_of(*v),
        decreases v, 1nat,
    {
        match v {
            Json::Null => Json::Null,
            Json::Bool(b) => Json::Bool(*b),
            Json::Number(n) => Json::Number(*n),
            Json::Text(s) => Json::Text(s.clone()),
            Json::Array(items) => Json::Array(Json::copy_items(items)),
            Json::Object(entries) => Json::Object(Json::copy_entries(entries)),
        }
    }
}

impl Clone for Json {
    fn clone(&self) -> (r: Self)
        ensures
            Json::deep_of(r) == Json::deep_of(*self),
    {
        Json::copy_value(self)
    }
}

impl Facet for Json {
    open spec fn deep(&self) -> DeepValue {
        Json::deep_of(*self)
    }

    fn equals(&self, other: &Self) -> (r: bool) {
        Json::eq_value(self, other)
    }

    fn duplicate(&self) -> (r: Self) {
        Json::copy_value(self)
    }
}

} // verus!
