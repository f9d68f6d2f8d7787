//! The host-call envelope and reply helpers shared with the guest VM.
//!
//! When guest JS calls `askHost(apiName, ...args)` the VM pauses and hands
//! the embedder a JSON envelope `{"machineId","apiName","payload"}`, where
//! `payload` is the JSON array of the call arguments (inline, or as the text
//! of that array in a string). The embedder services the call and resumes
//! the VM with a plain-JSON reply value.

use vstd::prelude::*;
use crate::facet::DeepValue;
use crate::json::Json;
use crate::json_text::{json_text_model, parse_json_text};

pub mod reply;

verus! {

/// A parsed `askHost` envelope.
#[derive(Debug, Clone, Default)]
pub struct HostCall {
    pub machine_id: String,
    pub api_name: String,
    /// JSON text of the argument array; parse per `api_name`.
    pub payload: String,
}

/// The position of the first entry with the key, from position `i` on.
pub open spec fn entry_find(es: Seq<(String, Json)>, k: Seq<char>, i: int) -> Option<int>
    decreases es.len() - i,
{
    if i < 0 || i >= es.len() {
        None
    } else if es[i].0@ == k {
        Some(i)
    } else {
        entry_find(es, k, i + 1)
    }
}

/// The string a JSON value holds, or the empty string.
pub open spec fn string_of(v: Json) -> Seq<char> {
    match v {
        Json::Text(s) => s@,
        _ => Seq::empty(),
    }
}

/// The value under `key` in a JSON object (its first entry with the key),
/// if any.
pub open spec fn entry_value(v: Json, key: Seq<char>) -> Option<Json> {
    match v {
        Json::Object(es) => match entry_find(es@, key, 0) {
            Some(i) => Some(es@[i].1),
            None => None,
        },
        _ => None,
    }
}

/// The position of the first entry with the key.
fn find_entry(es: &Vec<(String, Json)>, key: &str) -> (r: Option<usize>)
    ensures
        match r {
            Some(i) => entry_find(es@, key@, 0) == Some(i as int) && i < es@.len(),
            None => entry_find(es@, key@, 0) is None,
        },
{
    let mut i: usize = 0;
    while i < es.len()
        invariant
            i <= es@.len(),
            entry_find(es@, key@, 0) == entry_find(es@, key@, i as int),
        decreases es@.len() - i,
    {
        if crate::bridge::str_eq(es[i].0.as_str(), key) {
            return Some(i);
        }
        i += 1;
    }
    None
}

/// Take the value under `key` out of a JSON object, leaving `null` in its
/// place.
fn take_value(v: &mut Json, key: &str) -> (r: Option<Json>)
    ensures
        r == entry_value(*old(v), key@),
        match *old(v) {
            Json::Object(es) => match entry_find(es@, key@, 0) {
                Some(i) => *final(v) matches Json::Object(es2) && es2@ == es@.update(i, (es@[i].0, Json::Null)),
                None => *final(v) == *old(v),
            },
            _ => *final(v) == *old(v),
        },
{
    match v {
        Json::Object(es) => match find_entry(es, key) {
            Some(i) => {
                let mut slot = Json::Null;
                let mut e = es.remove(i);
                std::mem::swap(&mut slot, &mut e.1);
                es.insert(i, e);
                Some(slot)
            },
            None => None,
        },
        _ => None,
    }
}

/// Take the string under `key` out of a JSON object, leaving `null` in its
/// place: the string, or the empty string where the entry is missing or
/// holds no string.
pub fn take_string(v: &mut Json, key: &str) -> (r: String)
    ensures
        r@ == match entry_value(*old(v), key@) {
            Some(x) => string_of(x),
            None => Seq::empty(),
        },
        match *old(v) {
            Json::Object(es) => match entry_find(es@, key@, 0) {
                Some(i) => *final(v) matches Json::Object(es2) && es2@ == es@.update(i, (es@[i].0, Json::Null)),
                None => *final(v) == *old(v),
            },
            _ => *final(v) == *old(v),
        },
{
    match take_value(v, key) {
        Some(Json::Text(s)) => s,
        _ => String::new(),
    }
}

/// Taking the value under one key leaves the value under another key as
/// it was.
proof fn lemma_take_keeps(before: Json, after: Json, taken: Seq<char>, other: Seq<char>)
    requires
        taken != other,
        match before {
            Json::Object(es) => match entry_find(es@, taken, 0) {
                Some(i) => after matches Json::Object(es2) && es2@ == es@.update(i, (es@[i].0, Json::Null)),
                None => after == before,
            },
            _ => after == before,
        },
    ensures
        entry_value(after, other) == entry_value(before, other),
{
    match before {
        Json::Object(es) => match entry_find(es@, taken, 0) {
            Some(i) => {
                lemma_entry_find_at(es@, taken, 0);
                if let Json::Object(es2) = after {
                    lemma_find_same_keys(es@, es2@, other, 0, i);
                }
            },
            None => {},
        },
        _ => {},
    }
}

/// What `entry_find` finds carries the key.
proof fn lemma_entry_find_at(es: Seq<(String, Json)>, k: Seq<char>, i: int)
    requires
        0 <= i,
    ensures
        entry_find(es, k, i) matches Some(j) ==> i <= j < es.len() && es[j].0@ == k,
    decreases es.len() - i,
{
    if i < es.len() && es[i].0@ != k {
        lemma_entry_find_at(es, k, i + 1);
    }
}

/// Two entry lists with the same keys, equal but at `m` whose key is not
/// `k`, give the same first entry and value for `k`.
proof fn lemma_find_same_keys(es: Seq<(String, Json)>, es2: Seq<(String, Json)>, k: Seq<char>, i: int, m: int)
    requires
        0 <= i,
        0 <= m < es.len(),
        es2 == es.update(m, (es[m].0, Json::Null)),
        es[m].0@ != k,
    ensures
        entry_find(es2, k, i) == entry_find(es, k, i),
        entry_find(es, k, i) matches Some(j) ==> es2[j].1 == es[j].1,
    decreases es.len() - i,
{
    lemma_entry_find_at(es, k, i);
    if i < es.len() {
        assert(es2[i].0 == es[i].0);
        lemma_find_same_keys(es, es2, k, i + 1, m);
    }
}

/// The text of one diagnostics argument: a string's own text, or what
/// `write` gives for a value with the deep value of another argument.
pub open spec fn log_part<F: Fn(Json) -> String>(a: Json, p: String, write: F) -> bool {
    match a {
        Json::Text(s) => p@ == s@,
        _ => exists|j: Json| Json::deep_of(j) == Json::deep_of(a) && call_ensures(write, (j,), p),
    }
}

/// Texts joined by single spaces.
pub open spec fn join_spaces(ps: Seq<String>) -> Seq<char>
    decreases ps.len(),
{
    if ps.len() == 0 {
        Seq::empty()
    } else if ps.len() == 1 {
        ps[0]@
    } else {
        join_spaces(ps.drop_last()) + seq![' '] + ps.last()@
    }
}

/// A diagnostics line: the arguments separated by single spaces, a string
/// as its own text and another value as `write` writes it.
pub fn log_line<F: Fn(Json) -> String>(args: &[Json], write: &F) -> (r: String)
    requires
        forall|j: Json| call_requires(*write, (j,)),
    ensures
        exists|parts: Seq<String>| {
            &&& parts.len() == args@.len()
            &&& forall|i: int| 0 <= i < parts.len() ==> log_part(args@[i], #[trigger] parts[i], *write)
            &&& r@ == join_spaces(parts)
        },
{
    let mut out = String::new();
    let ghost mut parts: Seq<String> = Seq::empty();
    let mut i: usize = 0;
    while i < args.len()
        invariant
            i <= args@.len(),
            parts.len() == i,
            forall|j: Json| call_requires(*write, (j,)),
            forall|k: int| 0 <= k < parts.len() ==> log_part(args@[k], #[trigger] parts[k], *write),
            out@ == join_spaces(parts),
        decreases args@.len() - i,
    {
        let part = match &args[i] {
            Json::Text(s) => s.clone(),
            other => {
                let c = Json::copy_value(other);
                let w = write(c);
                proof {
                    assert(Json::deep_of(c) == Json::deep_of(args@[i as int]));
                }
                w
            },
        };
        if i > 0 {
            proof {
                reveal_strlit(" ");
            }
            out.append(" ");
        }
        out.append(part.as_str());
        proof {
            let p2 = parts.push(part);
            assert(p2.drop_last() =~= parts);
            assert forall|k: int| 0 <= k < p2.len() implies log_part(args@[k], #[trigger] p2[k], *write) by {
                if k < parts.len() {
                    assert(p2[k] == parts[k]);
                }
            }
            if i == 0 {
                assert(out@ =~= join_spaces(p2));
            } else {
                assert(out@ =~= join_spaces(p2));
            }
            parts = p2;
        }
        i += 1;
    }
    out
}

/// The payload of an envelope: the text of a string payload, another JSON
/// value to be written out as text, or nothing.
#[derive(Debug)]
pub enum Payload {
    Text(String),
    Value(Json),
    Missing,
}

/// Take the payload out of an envelope.
pub fn take_payload(v: &mut Json) -> (r: Payload)
    ensures
        match entry_value(*old(v), "payload"@) {
            Some(Json::Text(s)) => r == Payload::Text(s),
            Some(x) => r == Payload::Value(x),
            None => r == Payload::Missing,
        },
{
    match take_value(v, "payload") {
        Some(Json::Text(s)) => Payload::Text(s),
        Some(x) => Payload::Value(x),
        None => Payload::Missing,
    }
}

/// The call arguments from the parsed payload: the items of an array, a
/// single other value, or none where the payload did not parse.
pub open spec fn args_of(parsed: Option<Json>) -> Seq<Json> {
    match parsed {
        Some(Json::Array(a)) => a@,
        Some(x) => seq![x],
        None => Seq::empty(),
    }
}

/// The value under `key` in the deep value of a JSON object (its first
/// entry with the key), if any.
pub open spec fn deep_entry(d: DeepValue, key: Seq<char>) -> Option<DeepValue> {
    match d {
        DeepValue::Pair(t, l) => if *t == DeepValue::Tag(5) {
            match *l {
                DeepValue::List(es) => deep_find(es, key, 0),
                _ => None,
            }
        } else {
            None
        },
        _ => None,
    }
}

/// The value of the first entry with the key, from position `i` on, in the
/// deep entries of a JSON object.
pub open spec fn deep_find(es: Seq<DeepValue>, key: Seq<char>, i: int) -> Option<DeepValue>
    decreases es.len() - i,
{
    if i < 0 || i >= es.len() {
        None
    } else {
        match es[i] {
            DeepValue::Pair(k, v) => if *k == DeepValue::Text(key) { Some(*v) } else { deep_find(es, key, i + 1) },
            _ => deep_find(es, key, i + 1),
        }
    }
}

/// The deep value is that of a JSON string.
pub open spec fn deep_is_text(x: DeepValue) -> bool {
    x matches DeepValue::Pair(t, y) && *t == DeepValue::Tag(3) && *y is Text
}

/// The string under `key` of a deep JSON object, or the empty string where
/// the entry is missing or holds no string.
pub open spec fn field_text(d: DeepValue, key: Seq<char>) -> Seq<char> {
    match deep_entry(d, key) {
        Some(x) => crate::bridge::text_of(x),
        None => Seq::empty(),
    }
}

/// The call arguments of a parsed payload, by deep value: the items of an
/// array, or the single other value.
pub open spec fn deep_args(d: DeepValue) -> Seq<DeepValue> {
    match d {
        DeepValue::Pair(t, l) => if *t == DeepValue::Tag(4) {
            match *l {
                DeepValue::List(items) => items,
                _ => seq![d],
            }
        } else {
            seq![d]
        },
        _ => seq![d],
    }
}

/// `entry_find` and `deep_find` find the same entry.
proof fn lemma_find_deep(es: Seq<(String, Json)>, key: Seq<char>, i: int)
    requires
        0 <= i,
    ensures
        match entry_find(es, key, i) {
            Some(k) => deep_find(Json::entries_deep(es), key, i) == Some(Json::deep_of(es[k].1)),
            None => deep_find(Json::entries_deep(es), key, i) is None,
        },
    decreases es.len() - i,
{
    if i < es.len() {
        let d = Json::entries_deep(es);
        assert(d[i] == crate::facet::dpair(DeepValue::Text(es[i].0@), Json::deep_of(es[i].1)));
        lemma_find_deep(es, key, i + 1);
    }
}

/// The value under a key, by deep value.
pub proof fn lemma_entry_deep(j: Json, key: Seq<char>)
    ensures
        match entry_value(j, key) {
            Some(x) => deep_entry(Json::deep_of(j), key) == Some(Json::deep_of(x)),
            None => deep_entry(Json::deep_of(j), key) is None,
        },
{
    match j {
        Json::Object(es) => {
            Json::lemma_deep_object(es);
            lemma_find_deep(es@, key, 0);
        },
        _ => {},
    }
}

/// The string a JSON value holds, by deep value.
pub proof fn lemma_string_deep(x: Json)
    ensures
        string_of(x) == crate::bridge::text_of(Json::deep_of(x)),
        (x is Text) == deep_is_text(Json::deep_of(x)),
{
}

/// The arguments of a parsed payload, by deep value.
pub proof fn lemma_args_deep(j: Json)
    ensures
        Json::items_deep(args_of(Some(j))) == deep_args(Json::deep_of(j)),
{
    match j {
        Json::Array(a) => {
            Json::lemma_deep_array(a);
        },
        _ => {
            assert(Json::items_deep(seq![j]) =~= seq![Json::deep_of(j)]);
        },
    }
}

/// A stored JSON text read back: the value it denotes, or, where it is no
/// JSON, the text itself as a string.
pub fn parse_or_string(s: &str) -> (r: Json)
    ensures
        match json_text_model(s@) {
            Some(d) => Json::deep_of(r) == d,
            None => (r matches Json::Text(t) && t@ == s@),
        },
{
    match parse_json_text(s) {
        Some(j) => j,
        None => Json::Text(String::from_str(s)),
    }
}

impl HostCall {
    /// An envelope from its fields.
    pub fn new(machine_id: String, api_name: String, payload: String) -> (h: HostCall)
        ensures
            h.machine_id == machine_id,
            h.api_name == api_name,
            h.payload == payload,
    {
        HostCall { machine_id, api_name, payload }
    }

    /// Parse the envelope JSON the VM hands back: `machineId`, `apiName`,
    /// and the payload. A string payload is taken as the text of the
    /// argument array; another payload value is written out as text by
    /// `write`. `None` where the JSON library rejects the text.
    pub fn parse<F: Fn(Json) -> String>(json: &str, write: &F) -> (r: Option<HostCall>)
        requires
            forall|j: Json| call_requires(*write, (j,)),
        ensures
            json_text_model(json@) is None ==> r is None,
            json_text_model(json@) matches Some(d) ==> r matches Some(h) && {
                &&& h.machine_id@ == field_text(d, "machineId"@)
                &&& h.api_name@ == field_text(d, "apiName"@)
                &&& match deep_entry(d, "payload"@) {
                    Some(x) => if deep_is_text(x) {
                        h.payload@ == crate::bridge::text_of(x)
                    } else {
                        exists|j: Json| Json::deep_of(j) == x && call_ensures(*write, (j,), h.payload)
                    },
                    None => h.payload@ == Seq::<char>::empty(),
                }
            },
    {
        let parsed = parse_json_text(json);
        let mut v = match parsed {
            Some(v) => v,
            None => {
                return None;
            },
        };
        let ghost v0 = v;
        proof {
            reveal_strlit("machineId");
            reveal_strlit("apiName");
            reveal_strlit("payload");
            assert("machineId"@[0] != "apiName"@[0]);
            assert("machineId"@[0] != "payload"@[0]);
            assert("apiName"@[0] != "payload"@[0]);
            lemma_entry_deep(v0, "machineId"@);
            lemma_entry_deep(v0, "apiName"@);
            lemma_entry_deep(v0, "payload"@);
        }
        let machine_id = take_string(&mut v, "machineId");
        let ghost v1 = v;
        proof {
            lemma_take_keeps(v0, v1, "machineId"@, "apiName"@);
            lemma_take_keeps(v0, v1, "machineId"@, "payload"@);
        }
        let api_name = take_string(&mut v, "apiName");
        proof {
            lemma_take_keeps(v1, v, "apiName"@, "payload"@);
        }
        let payload = match take_payload(&mut v) {
            Payload::Text(s) => s,
            Payload::Value(x) => {
                proof {
                    lemma_string_deep(x);
                }
                write(x)
            },
            Payload::Missing => String::new(),
        };
        proof {
            match entry_value(v0, "machineId"@) {
                Some(x) => lemma_string_deep(x),
                None => {},
            }
            match entry_value(v0, "apiName"@) {
                Some(x) => lemma_string_deep(x),
                None => {},
            }
            match entry_value(v0, "payload"@) {
                Some(x) => lemma_string_deep(x),
                None => {},
            }
        }
        Some(HostCall { machine_id, api_name, payload })
    }

    /// The argument array: the payload parsed by the JSON library, as
    /// `args_from` reads it.
    pub fn args(&self) -> (r: Vec<Json>)
        ensures
            match json_text_model(self.payload@) {
                Some(d) => Json::items_deep(r@) == deep_args(d),
                None => r@.len() == 0,
            },
    {
        let parsed = parse_json_text(&self.payload);
        proof {
            if parsed is Some {
                lemma_args_deep(parsed.unwrap());
            }
        }
        HostCall::args_from(parsed)
    }

    /// The `n`th call argument, if present.
    pub fn arg(&self, n: usize) -> (r: Option<Json>)
        ensures
            match json_text_model(self.payload@) {
                Some(d) => match r {
                    Some(j) => n < deep_args(d).len() && Json::deep_of(j) == deep_args(d)[n as int],
                    None => n >= deep_args(d).len(),
                },
                None => r is None,
            },
    {
        let a = self.args();
        HostCall::arg_from(a, n)
    }

    /// The argument array, from the payload as the JSON parser read it
    /// (`None` where it did not parse).
    pub fn args_from(parsed: Option<Json>) -> (r: Vec<Json>)
        ensures
            r@ == args_of(parsed),
    {
        match parsed {
            Some(Json::Array(a)) => a,
            Some(x) => {
                let mut v: Vec<Json> = Vec::new();
                v.push(x);
                v
            },
            None => Vec::new(),
        }
    }

    /// The `n`th argument, if present.
    pub fn arg_from(args: Vec<Json>, n: usize) -> (r: Option<Json>)
        ensures
            r == (if n < args@.len() { Some(args@[n as int]) } else { None::<Json> }),
    {
        let mut args = args;
        if n < args.len() {
            Some(args.swap_remove(n))
        } else {
            None
        }
    }
}

} // verus!
