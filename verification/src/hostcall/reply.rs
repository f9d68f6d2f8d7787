//! The reply the embedder resumes the guest with: the value the guest's
//! `askHost` call returns.

use vstd::prelude::*;
use crate::facet::DeepValue;
use crate::json::Json;

verus! {

/// The `null` reply, as the guest receives it.
pub fn null() -> (r: String)
    ensures
        r@ == "null"@,
{
    String::from_str("null")
}

/// A JSON object entry.
pub fn entry(key: &str, value: Json) -> (r: (String, Json))
    ensures
        r.0@ == key@,
        Json::deep_of(r.1) == Json::deep_of(value),
{
    (String::from_str(key), value)
}

/// The acknowledgement `{"ok": true}`.
pub open spec fn ok_value() -> DeepValue {
    crate::bridge::jobject(seq![("ok"@, crate::bridge::jbool(true))])
}

/// The error reply `{"error": msg, "ok": false}`.
pub open spec fn err_value(msg: Seq<char>) -> DeepValue {
    crate::bridge::jobject(seq![("error"@, crate::bridge::jtext(msg)), ("ok"@, crate::bridge::jbool(false))])
}

/// The reply `{"data": data, "ok": true}`.
pub open spec fn data_value(data: DeepValue) -> DeepValue {
    crate::bridge::jobject(seq![("data"@, data), ("ok"@, crate::bridge::jbool(true))])
}

/// A JSON object from its entries.
pub fn object(entries: Vec<(String, Json)>) -> (r: Json)
    ensures
        Json::deep_of(r) == crate::facet::dvariant(5, DeepValue::List(Json::entries_deep(entries@))),
{
    proof {
        Json::lemma_deep_object(entries);
    }
    Json::Object(entries)
}

/// The acknowledgement `{"ok": true}`.
pub fn ok() -> (r: Json)
    ensures
        Json::deep_of(r) == ok_value(),
{
    let mut v: Vec<(String, Json)> = Vec::new();
    v.push(entry("ok", Json::Bool(true)));
    let r = object(v);
    proof {
        assert(Json::entries_deep(v@) =~= Seq::new(1, |i: int|
            crate::facet::dpair(DeepValue::Text(seq![("ok"@, crate::bridge::jbool(true))][i].0), seq![("ok"@, crate::bridge::jbool(true))][i].1)));
    }
    r
}

/// The error reply `{"error": msg, "ok": false}`.
pub fn err(msg: String) -> (r: Json)
    ensures
        Json::deep_of(r) == err_value(msg@),
{
    let mut v: Vec<(String, Json)> = Vec::new();
    let ghost m = msg@;
    v.push(entry("error", Json::Text(msg)));
    v.push(entry("ok", Json::Bool(false)));
    let r = object(v);
    proof {
        let es = seq![("error"@, crate::bridge::jtext(m)), ("ok"@, crate::bridge::jbool(false))];
        assert(Json::entries_deep(v@) =~= Seq::new(2, |i: int|
            crate::facet::dpair(DeepValue::Text(es[i].0), es[i].1)));
    }
    r
}

/// The reply `{"data": data, "ok": true}`.
pub fn data(payload: Json) -> (r: Json)
    ensures
        Json::deep_of(r) == data_value(Json::deep_of(payload)),
{
    let ghost d = Json::deep_of(payload);
    let mut v: Vec<(String, Json)> = Vec::new();
    v.push(entry("data", payload));
    v.push(entry("ok", Json::Bool(true)));
    let r = object(v);
    proof {
        let es = seq![("data"@, d), ("ok"@, crate::bridge::jbool(true))];
        assert(Json::entries_deep(v@) =~= Seq::new(2, |i: int|
            crate::facet::dpair(DeepValue::Text(es[i].0), es[i].1)));
    }
    r
}

} // verus!
