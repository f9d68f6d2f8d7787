//! The host-API bridge: services every `askHost(api, [..args])` the guest
//! emits.
//!
//! [`Services::dispatch`] turns each call into a change of the bridge's state
//! (the retained widget tree, storage, theme, router history, outbox, random
//! generator, frame count), a list of [`Effect`]s for the UI backend, and the
//! [`Reply`] the guest is resumed with. The embedder performs the effects in
//! order and sends the reply.

use vstd::prelude::*;
use crate::facet::{DeepValue, Facet};
use crate::json::{Json, JsonNumber};
use crate::node::{Node, SNode};
use crate::diff::{Patch, SPatch};
use crate::backend::SurfaceInfo;

verus! {

// ---------------------------------------------------------------------------
// Text.
// ---------------------------------------------------------------------------

/// Whether two strings are equal.
pub fn str_eq(a: &str, b: &str) -> (r: bool)
    ensures
        r == (a@ == b@),
{
    let n = a.unicode_len();
    if n != b.unicode_len() {
        return false;
    }
    let mut i: usize = 0;
    while i < n
        invariant
            n == a@.len(),
            n == b@.len(),
            i <= n,
            forall|j: int| 0 <= j < i ==> a@[j] == b@[j],
        decreases n - i,
    {
        if a.get_char(i) != b.get_char(i) {
            return false;
        }
        i += 1;
    }
    assert(a@ =~= b@);
    true
}

/// `s` begins with `p`.
pub open spec fn has_prefix(s: Seq<char>, p: Seq<char>) -> bool {
    p.len() <= s.len() && s.subrange(0, p.len() as int) == p
}

/// Whether `s` begins with `p`.
pub fn starts_with(s: &str, p: &str) -> (r: bool)
    ensures
        r == has_prefix(s@, p@),
{
    let n = p.unicode_len();
    if n > s.unicode_len() {
        return false;
    }
    let mut i: usize = 0;
    while i < n
        invariant
            n == p@.len(),
            n <= s@.len(),
            i <= n,
            forall|j: int| 0 <= j < i ==> s@[j] == p@[j],
        decreases n - i,
    {
        if s.get_char(i) != p.get_char(i) {
            assert(s@.subrange(0, n as int)[i as int] != p@[i as int]);
            return false;
        }
        i += 1;
    }
    assert(s@.subrange(0, n as int) =~= p@);
    true
}

/// An api name of an imperative family that the backend services:
/// animation control, canvas and scene commands, media, focus, clipboard
/// and window.
pub open spec fn backend_channel(api: Seq<char>) -> bool {
    ||| has_prefix(api, "anim."@)
    ||| has_prefix(api, "canvas."@)
    ||| has_prefix(api, "scene3d."@)
    ||| has_prefix(api, "media."@)
    ||| has_prefix(api, "focus."@)
    ||| has_prefix(api, "clipboard."@)
    ||| has_prefix(api, "window."@)
}

/// Whether an api name belongs to an imperative family the backend services.
pub fn is_backend_channel(api: &str) -> (r: bool)
    ensures
        r == backend_channel(api@),
{
    starts_with(api, "anim.") || starts_with(api, "canvas.") || starts_with(api, "scene3d.")
        || starts_with(api, "media.") || starts_with(api, "focus.") || starts_with(api, "clipboard.")
        || starts_with(api, "window.")
}

// ---------------------------------------------------------------------------
// JSON values, by their deep values.
// ---------------------------------------------------------------------------

/// JSON `null`.
pub open spec fn jnull() -> DeepValue {
    DeepValue::Tag(0)
}

/// A JSON boolean.
pub open spec fn jbool(b: bool) -> DeepValue {
    crate::facet::dvariant(1, DeepValue::Int(if b { 1 } else { 0 }))
}

/// A JSON non-negative integer.
pub open spec fn juint(n: u64) -> DeepValue {
    crate::facet::dvariant(2, crate::facet::dvariant(0, DeepValue::Int(n as int)))
}

/// A JSON float, by its bits.
pub open spec fn jfloat(bits: u64) -> DeepValue {
    crate::facet::dvariant(2, crate::facet::dvariant(2, DeepValue::Double(bits)))
}

/// A JSON string.
pub open spec fn jtext(s: Seq<char>) -> DeepValue {
    crate::facet::dvariant(3, DeepValue::Text(s))
}

/// A JSON array.
pub open spec fn jarray(items: Seq<DeepValue>) -> DeepValue {
    crate::facet::dvariant(4, DeepValue::List(items))
}

/// A JSON object with the given entries, in order.
pub open spec fn jobject(entries: Seq<(Seq<char>, DeepValue)>) -> DeepValue {
    crate::facet::dvariant(5, DeepValue::List(Seq::new(entries.len(), |i: int|
        crate::facet::dpair(DeepValue::Text(entries[i].0), entries[i].1))))
}

/// The string a JSON value holds, or the empty string.
pub open spec fn text_of(v: DeepValue) -> Seq<char> {
    match v {
        DeepValue::Pair(t, x) => if *t == DeepValue::Tag(3) {
            match *x {
                DeepValue::Text(s) => s,
                _ => Seq::empty(),
            }
        } else {
            Seq::empty()
        },
        _ => Seq::empty(),
    }
}

/// The non-negative integer a JSON value holds.
pub open spec fn uint_of(v: DeepValue) -> Option<u64> {
    match v {
        DeepValue::Pair(t, x) => if *t == DeepValue::Tag(2) {
            match *x {
                DeepValue::Pair(t2, y) => if *t2 == DeepValue::Tag(0) {
                    match *y {
                        DeepValue::Int(n) => if 0 <= n <= u64::MAX { Some(n as u64) } else { None },
                        _ => None,
                    }
                } else {
                    None
                },
                _ => None,
            }
        } else {
            None
        },
        _ => None,
    }
}

/// The string a JSON value holds, or the empty string.
pub fn json_text(v: &Json) -> (r: String)
    ensures
        r@ == text_of(Json::deep_of(*v)),
{
    match v {
        Json::Text(s) => s.clone(),
        _ => String::new(),
    }
}

/// The non-negative integer a JSON value holds.
pub fn json_uint(v: &Json) -> (r: Option<u64>)
    ensures
        r == uint_of(Json::deep_of(*v)),
{
    match v {
        Json::Number(JsonNumber::PosInt(n)) => Some(*n),
        _ => None,
    }
}

/// `s` followed by the text of `t`.
fn concat(s: &str, t: &String) -> (r: String)
    ensures
        r@ == s@ + t@,
{
    let mut r = String::from_str(s);
    r.append(t.as_str());
    r
}

// ---------------------------------------------------------------------------
// The random number generator (xorshift64*).
// ---------------------------------------------------------------------------

/// The generator's next state.
pub open spec fn xorshift(x: u64) -> u64 {
    let a = x ^ (x >> 12u64);
    let b = a ^ (a << 25u64);
    b ^ (b >> 27u64)
}

/// The number the generator yields from a state.
pub open spec fn scramble(x: u64) -> u64 {
    x.wrapping_mul(0x2545F4914F6CDD1Du64)
}

/// The state after `k` steps.
pub open spec fn rng_state(s: u64, k: nat) -> u64
    decreases k,
{
    if k == 0 { s } else { xorshift(rng_state(s, (k - 1) as nat)) }
}

/// The number yielded by step `k + 1`.
pub open spec fn rng_output(s: u64, k: nat) -> u64 {
    scramble(rng_state(s, k + 1))
}

/// Byte `k` (least significant first) of a number.
pub open spec fn le_byte(x: u64, k: int) -> u8 {
    ((x >> ((8 * k) as u64)) & 0xffu64) as u8
}

/// The bytes the generator yields from state `s`: those of successive
/// outputs, least significant first, `n` in all.
pub open spec fn rng_bytes(s: u64, n: nat) -> Seq<u8> {
    Seq::new(n, |i: int| le_byte(rng_output(s, (i / 8) as nat), i % 8))
}

/// The binary64 encoding of `m / 2^53` for `m < 2^53`: the quotient is
/// exact, since `m` fits the 53-bit significand; zero for `m == 0`.
pub open spec fn unit_fraction_bits(m: u64) -> u64 {
    if m == 0 {
        0
    } else {
        let lz = vstd::std_specs::bits::u64_leading_zeros(m);
        (((1033 - lz) as u64) << 52u64) | ((m << ((lz - 11) as u64)) & 0xf_ffff_ffff_ffffu64)
    }
}

/// The binary64 encoding of `m / 2^53`.
fn unit_fraction(m: u64) -> (r: u64)
    requires
        m < 0x20_0000_0000_0000u64,
    ensures
        r == unit_fraction_bits(m),
{
    if m == 0 {
        return 0;
    }
    let lz = m.leading_zeros();
    proof {
        vstd::std_specs::bits::axiom_u64_leading_zeros(m);
        let l = vstd::std_specs::bits::u64_leading_zeros(m);
        if l < 11 {
            let s = (63 - l) as u64;
            assert((m >> s) & 1u64 == 0u64) by (bit_vector)
                requires
                    m < 0x20_0000_0000_0000u64,
                    53 <= s < 64,
            ;
            assert(false);
        }
    }
    let e: u64 = (1033 - lz) as u64;
    (e << 52u64) | ((m << ((lz - 11) as u64)) & 0xf_ffff_ffff_ffffu64)
}

// ---------------------------------------------------------------------------
// Sandboxed key/value storage.
// ---------------------------------------------------------------------------

/// No key occurs twice among the entries.
pub open spec fn store_keys_unique(m: Seq<(Seq<char>, DeepValue)>) -> bool {
    forall|i: int, j: int| 0 <= i < j < m.len() ==> m[i].0 != m[j].0
}

/// The position of the entry with key `k`, from position `i` on.
pub open spec fn store_find(m: Seq<(Seq<char>, DeepValue)>, k: Seq<char>, i: int) -> Option<int>
    decreases m.len() - i,
{
    if i < 0 || i >= m.len() {
        None
    } else if m[i].0 == k {
        Some(i)
    } else {
        store_find(m, k, i + 1)
    }
}

/// The store with `k` set to `v`: in place where `k` is present, appended
/// otherwise.
pub open spec fn store_set(m: Seq<(Seq<char>, DeepValue)>, k: Seq<char>, v: DeepValue) -> Seq<(Seq<char>, DeepValue)> {
    match store_find(m, k, 0) {
        Some(i) => m.update(i, (k, v)),
        None => m.push((k, v)),
    }
}

/// The store without the entry for `k`.
pub open spec fn store_remove(m: Seq<(Seq<char>, DeepValue)>, k: Seq<char>) -> Seq<(Seq<char>, DeepValue)> {
    match store_find(m, k, 0) {
        Some(i) => m.remove(i),
        None => m,
    }
}

/// What `store_find` finds.
pub proof fn lemma_store_find(m: Seq<(Seq<char>, DeepValue)>, k: Seq<char>, i: int)
    requires
        0 <= i,
    ensures
        match store_find(m, k, i) {
            Some(j) => i <= j < m.len() && m[j].0 == k && forall|a: int| i <= a < j ==> m[a].0 != k,
            None => forall|a: int| i <= a < m.len() ==> m[a].0 != k,
        },
    decreases m.len() - i,
{
    if i < m.len() && m[i].0 != k {
        lemma_store_find(m, k, i + 1);
    }
}

/// Setting and removing keep the keys unique.
pub proof fn lemma_store_unique(m: Seq<(Seq<char>, DeepValue)>, k: Seq<char>, v: DeepValue)
    requires
        store_keys_unique(m),
    ensures
        store_keys_unique(store_set(m, k, v)),
        store_keys_unique(store_remove(m, k)),
{
    lemma_store_find(m, k, 0);
    let s = store_set(m, k, v);
    assert forall|i: int, j: int| 0 <= i < j < s.len() implies s[i].0 != s[j].0 by {
        match store_find(m, k, 0) {
            Some(p) => {
                if i != p && j != p {
                    assert(s[i] == m[i] && s[j] == m[j]);
                } else if i == p {
                    assert(s[j] == m[j]);
                } else {
                    assert(s[i] == m[i]);
                }
            },
            None => {
                if j < m.len() {
                    assert(s[i] == m[i] && s[j] == m[j]);
                } else {
                    assert(s[i] == m[i]);
                }
            },
        }
    }
    let r = store_remove(m, k);
    assert forall|i: int, j: int| 0 <= i < j < r.len() implies r[i].0 != r[j].0 by {
        match store_find(m, k, 0) {
            Some(p) => {
                let i2 = if i < p { i } else { i + 1 };
                let j2 = if j < p { j } else { j + 1 };
                assert(r[i] == m[i2] && r[j] == m[j2]);
            },
            None => {},
        }
    }
}

/// The sandboxed key/value store of an instance: each key once, with the
/// JSON value the guest stored under it.
pub struct Storage {
    entries: Vec<(String, Json)>,
}

impl Storage {
    /// Keys are unique.
    #[verifier::type_invariant]
    closed spec fn wf(&self) -> bool {
        store_keys_unique(Storage::model_of(self.entries@))
    }

    /// The model of a list of entries.
    pub open spec fn model_of(s: Seq<(String, Json)>) -> Seq<(Seq<char>, DeepValue)> {
        Seq::new(s.len(), |i: int| (s[i].0@, Json::deep_of(s[i].1)))
    }

    /// The entries, in order, by their models.
    pub closed spec fn model(&self) -> Seq<(Seq<char>, DeepValue)> {
        Storage::model_of(self.entries@)
    }

    /// An empty store.
    pub fn new() -> (s: Storage)
        ensures
            s.model() == Seq::<(Seq<char>, DeepValue)>::empty(),
    {
        let s = Storage { entries: Vec::new() };
        assert(s.model() =~= Seq::<(Seq<char>, DeepValue)>::empty());
        s
    }

    /// The position of the entry with the key.
    fn position(&self, key: &str) -> (r: Option<usize>)
        ensures
            match r {
                Some(i) => store_find(self.model(), key@, 0) == Some(i as int) && i < self.entries@.len(),
                None => store_find(self.model(), key@, 0) is None,
            },
    {
        let ghost m = self.model();
        proof {
            lemma_store_find(m, key@, 0);
        }
        let mut i: usize = 0;
        while i < self.entries.len()
            invariant
                i <= self.entries@.len(),
                m == self.model(),
                m.len() == self.entries@.len(),
                store_find(m, key@, 0) == store_find(m, key@, i as int),
            decreases self.entries@.len() - i,
        {
            let same = str_eq(self.entries[i].0.as_str(), key);
            assert(m[i as int].0 == self.entries@[i as int].0@);
            if same {
                return Some(i);
            }
            i += 1;
        }
        None
    }

    /// The value stored under the key.
    pub fn get(&self, key: &str) -> (r: Option<&Json>)
        ensures
            match store_find(self.model(), key@, 0) {
                Some(i) => r matches Some(v) && Json::deep_of(*v) == self.model()[i].1,
                None => r is None,
            },
    {
        match self.position(key) {
            Some(i) => Some(&self.entries[i].1),
            None => None,
        }
    }

    /// Store `value` under `key`.
    pub fn set(&mut self, key: String, value: Json)
        ensures
            final(self).model() == store_set(old(self).model(), key@, Json::deep_of(value)),
    {
        proof {
            use_type_invariant(&*self);
            lemma_store_unique(self.model(), key@, Json::deep_of(value));
        }
        let ghost m = self.model();
        let ghost k = key@;
        let ghost dv = Json::deep_of(value);
        let pos = self.position(key.as_str());
        let mut entries: Vec<(String, Json)> = Vec::new();
        std::mem::swap(&mut entries, &mut self.entries);
        match pos {
            Some(i) => {
                entries.set(i, (key, value));
                assert(Storage::model_of(entries@) =~= m.update(i as int, (k, dv)));
            },
            None => {
                entries.push((key, value));
                assert(Storage::model_of(entries@) =~= m.push((k, dv)));
            },
        }
        self.entries = entries;
    }

    /// Remove the entry for the key, if any.
    pub fn remove(&mut self, key: &str)
        ensures
            final(self).model() == store_remove(old(self).model(), key@),
    {
        proof {
            use_type_invariant(&*self);
            lemma_store_unique(self.model(), key@, DeepValue::Tag(0));
        }
        let ghost m = self.model();
        match self.position(key) {
            Some(i) => {
                let mut entries: Vec<(String, Json)> = Vec::new();
                std::mem::swap(&mut entries, &mut self.entries);
                entries.remove(i);
                assert(Storage::model_of(entries@) =~= m.remove(i as int));
                self.entries = entries;
            },
            None => {},
        }
    }

    /// Remove every entry.
    pub fn clear(&mut self)
        ensures
            final(self).model() == Seq::<(Seq<char>, DeepValue)>::empty(),
    {
        self.entries = Vec::new();
        assert(self.model() =~= Seq::<(Seq<char>, DeepValue)>::empty());
    }

    /// The keys, in the order of the entries.
    pub fn keys(&self) -> (r: Vec<String>)
        ensures
            r@.len() == self.model().len(),
            forall|i: int| 0 <= i < r@.len() ==> #[trigger] r@[i]@ == self.model()[i].0,
    {
        let mut out: Vec<String> = Vec::new();
        let mut i: usize = 0;
        while i < self.entries.len()
            invariant
                i <= self.entries@.len(),
                out@.len() == i,
                forall|j: int| 0 <= j < i ==> #[trigger] out@[j]@ == self.entries@[j].0@,
            decreases self.entries@.len() - i,
        {
            out.push(self.entries[i].0.clone());
            i += 1;
        }
        out
    }
}

// ---------------------------------------------------------------------------
// The clock.
// ---------------------------------------------------------------------------

#[verifier::external_type_specification]
#[verifier::external_body]
pub struct ExSystemTime(web_time::SystemTime);

/// `web_time::SystemTime::now`: the current reading of the system clock.
/// Nothing is stated of it: it depends on the time.
#[verifier::external_body]
fn clock_now() -> (r: web_time::SystemTime) {
    web_time::SystemTime::now()
}

/// `SystemTime::duration_since(UNIX_EPOCH)`, in whole milliseconds
/// (`Duration::as_millis`), or `None` where `t` lies before the epoch.
/// Nothing is stated of the number: it depends on the clock reading.
#[verifier::external_body]
fn epoch_millis(t: &web_time::SystemTime) -> (r: Option<u128>) {
    match t.duration_since(web_time::UNIX_EPOCH) {
        Ok(d) => Some(d.as_millis()),
        Err(_) => None,
    }
}

/// `SystemTime::duration_since(UNIX_EPOCH)`, in whole nanoseconds
/// (`Duration::as_nanos`), or `None` where `t` lies before the epoch.
/// Nothing is stated of the number: it depends on the clock reading.
#[verifier::external_body]
fn epoch_nanos(t: &web_time::SystemTime) -> (r: Option<u128>) {
    match t.duration_since(web_time::UNIX_EPOCH) {
        Ok(d) => Some(d.as_nanos()),
        Err(_) => None,
    }
}

/// `SystemTime::elapsed`, in whole milliseconds (`Duration::as_millis`), or
/// `None` where the clock now reads earlier than `t`. Nothing is stated of
/// the number: it depends on the time.
#[verifier::external_body]
fn elapsed_millis(t: &web_time::SystemTime) -> (r: Option<u128>) {
    match t.elapsed() {
        Ok(d) => Some(d.as_millis()),
        Err(_) => None,
    }
}

/// A clock reading in milliseconds as the guest gets it: truncated to 64
/// bits, zero where the clock could not be read.
pub open spec fn millis_of(c: Option<u128>) -> u64 {
    match c {
        Some(x) => x as u64,
        None => 0,
    }
}

/// The generator seed from a clock reading in nanoseconds: its low 64 bits,
/// or a fixed constant where the clock could not be read, made odd.
pub open spec fn seed_of(c: Option<u128>) -> u64 {
    (match c {
        Some(x) => x as u64,
        None => 0x9E3779B97F4A7C15u64,
    }) | 1u64
}

// ---------------------------------------------------------------------------
// The bridge's state, effects and replies.
// ---------------------------------------------------------------------------

/// A message the guest pushed out to the embedder via `host.send`.
#[derive(Debug)]
pub struct OutboundMessage {
    pub channel: String,
    pub message: Json,
}

/// What the UI backend is asked to do, in order.
#[derive(Debug)]
pub enum Effect {
    /// Print a diagnostics line made of the arguments.
    Log(Vec<Json>),
    /// Install the first widget tree.
    Mount(Node),
    /// Apply an update: the new full tree and the patch script that turns
    /// the previous tree into it.
    Patch(Node, Vec<Patch>),
    /// Apply a theme blob.
    SetTheme(Json),
    /// An imperative command on a channel, with its arguments.
    Command(String, Vec<Json>),
}

/// The reply the guest is resumed with.
#[derive(Debug)]
pub enum Reply {
    /// This JSON value.
    Value(Json),
    /// A stored value, as it reads back from its JSON text.
    Stored(Json),
    /// The value that the step's command returned.
    CommandResult,
    /// The surface information: the given one, else the backend's.
    Surface(Option<SurfaceInfo>),
}

/// The result of servicing one host call.
#[derive(Debug)]
pub struct Step {
    pub effects: Vec<Effect>,
    pub reply: Reply,
}

/// How the embedder must decode a call's first argument before dispatch.
#[derive(Debug, Clone, Copy, PartialEq, Eq, Structural)]
pub enum Decoding {
    /// Not at all.
    Plain,
    /// As a widget tree (`ui.render`).
    Tree,
    /// As a patch script (`ui.patch`).
    Patches,
}

/// The first argument of a call, decoded as the call needs it; a decoding
/// failure carries the decoder's message.
#[derive(Debug)]
pub enum Decoded {
    Plain,
    Tree(Result<Node, String>),
    Patches(Result<Vec<Patch>, String>),
}

/// The model of an effect.
pub enum SEffect {
    Log(Seq<DeepValue>),
    Mount(SNode),
    Patch(SNode, Seq<SPatch>),
    SetTheme(DeepValue),
    Command(Seq<char>, Seq<DeepValue>),
}

/// The model of a reply.
pub enum SReply {
    Value(DeepValue),
    Stored(DeepValue),
    CommandResult,
    Surface(Option<SurfaceInfo>),
}

/// The model of a decoded argument.
pub enum SDecoded {
    Plain,
    Tree(Result<SNode, Seq<char>>),
    Patches(Result<Seq<SPatch>, Seq<char>>),
}

/// The model of the bridge's state.
pub struct SServices {
    pub retained: Option<SNode>,
    pub storage: Seq<(Seq<char>, DeepValue)>,
    pub theme: Option<DeepValue>,
    pub router: Seq<DeepValue>,
    pub outbox: Seq<(Seq<char>, DeepValue)>,
    pub surface_override: Option<SurfaceInfo>,
    pub rng: u64,
    pub frames: int,
}

impl Effect {
    /// The model of an effect.
    pub open spec fn model(e: Effect) -> SEffect {
        match e {
            Effect::Log(a) => SEffect::Log(Json::items_deep(a@)),
            Effect::Mount(t) => SEffect::Mount(t@),
            Effect::Patch(t, ps) => SEffect::Patch(t@, Patch::models(ps@)),
            Effect::SetTheme(j) => SEffect::SetTheme(Json::deep_of(j)),
            Effect::Command(c, a) => SEffect::Command(c@, Json::items_deep(a@)),
        }
    }

    /// The models of a list of effects.
    pub open spec fn models(s: Seq<Effect>) -> Seq<SEffect> {
        Seq::new(s.len(), |i: int| Effect::model(s[i]))
    }
}

impl Reply {
    /// The model of a reply.
    pub open spec fn model(r: Reply) -> SReply {
        match r {
            Reply::Value(j) => SReply::Value(Json::deep_of(j)),
            Reply::Stored(j) => SReply::Stored(Json::deep_of(j)),
            Reply::CommandResult => SReply::CommandResult,
            Reply::Surface(s) => SReply::Surface(s),
        }
    }
}

impl Decoded {
    /// The model of a decoded argument.
    pub open spec fn model(d: Decoded) -> SDecoded {
        match d {
            Decoded::Plain => SDecoded::Plain,
            Decoded::Tree(Ok(t)) => SDecoded::Tree(Ok(t@)),
            Decoded::Tree(Err(e)) => SDecoded::Tree(Err(e@)),
            Decoded::Patches(Ok(ps)) => SDecoded::Patches(Ok(Patch::models(ps@))),
            Decoded::Patches(Err(e)) => SDecoded::Patches(Err(e@)),
        }
    }
}

// ---------------------------------------------------------------------------
// What a host call does, as a specification.
// ---------------------------------------------------------------------------

/// The decoding an api's first argument needs.
pub open spec fn decoding_of(api: Seq<char>) -> Decoding {
    if api == "ui.render"@ {
        Decoding::Tree
    } else if api == "ui.patch"@ {
        Decoding::Patches
    } else {
        Decoding::Plain
    }
}

/// The call's decoded argument has the form its api needs, and for a
/// render the frame count can grow.
pub open spec fn dispatch_ready(s: SServices, api: Seq<char>, d: SDecoded) -> bool {
    &&& (decoding_of(api) == Decoding::Tree) == (d is Tree)
    &&& (decoding_of(api) == Decoding::Patches) == (d is Patches)
    &&& (d matches SDecoded::Tree(Ok(t)) ==> s.frames < u64::MAX)
}

/// The render path: a tree that did not decode is answered with an error;
/// otherwise the frame count grows, the backend mounts the first tree or
/// gets the patch script for a later one (nothing where the script is
/// empty), and the new tree is retained.
pub open spec fn render_model(s: SServices, t: Result<SNode, Seq<char>>) -> (SServices, Seq<SEffect>, SReply) {
    match t {
        Err(e) => (s, seq![], SReply::Value(crate::hostcall::reply::err_value("invalid ui tree: "@ + e))),
        Ok(tree) => {
            let s2 = SServices { retained: Some(tree), frames: s.frames + 1, ..s };
            match s.retained {
                None => (s2, seq![SEffect::Mount(tree)], SReply::Value(crate::hostcall::reply::ok_value())),
                Some(old) => {
                    let ps = crate::diff::diff_model(seq![], old, tree).unwrap();
                    (s2, if ps.len() == 0 { seq![] } else { seq![SEffect::Patch(tree, ps)] }, SReply::Value(crate::hostcall::reply::ok_value()))
                },
            }
        },
    }
}

/// A guest-authored patch script: applied to the retained tree in place;
/// the backend gets the result and the script where every patch applied.
pub open spec fn patch_model(s: SServices, p: Result<Seq<SPatch>, Seq<char>>) -> (SServices, Seq<SEffect>, SReply) {
    match p {
        Err(e) => (s, seq![], SReply::Value(crate::hostcall::reply::err_value("invalid patches: "@ + e))),
        Ok(ps) => match s.retained {
            None => (s, seq![], SReply::Value(crate::hostcall::reply::err_value("no tree mounted yet"@))),
            Some(t) => {
                let a = crate::diff::apply_model(t, ps);
                let s2 = SServices { retained: Some(a.0), ..s };
                match a.1 {
                    Some(e) => (s2, seq![], SReply::Value(crate::hostcall::reply::err_value("patch failed: "@ + crate::diff::error_text(e)))),
                    None => (s2, seq![SEffect::Patch(a.0, ps)], SReply::Value(crate::hostcall::reply::ok_value())),
                }
            },
        },
    }
}

/// The last route, or `null`.
pub open spec fn current_route(r: Seq<DeepValue>) -> DeepValue {
    if r.len() > 0 { r.last() } else { jnull() }
}

/// The router history calls.
pub open spec fn router_model(s: SServices, api: Seq<char>, args: Seq<DeepValue>) -> (SServices, Seq<SEffect>, SReply) {
    let arg0 = if args.len() > 0 { args[0] } else { jnull() };
    if api == "router.push"@ {
        let r = s.router.push(arg0);
        (SServices { router: r, ..s }, seq![SEffect::Command(api, args)], SReply::Value(current_route(r)))
    } else if api == "router.replace"@ {
        let r = if s.router.len() > 0 { s.router.update(s.router.len() - 1, arg0) } else { s.router.push(arg0) };
        (SServices { router: r, ..s }, seq![SEffect::Command(api, args)], SReply::Value(current_route(r)))
    } else if api == "router.pop"@ {
        if s.router.len() > 0 {
            (SServices { router: s.router.drop_last(), ..s }, seq![SEffect::Command(api, args)], SReply::Value(s.router.last()))
        } else {
            (s, seq![SEffect::Command(api, args)], SReply::Value(jnull()))
        }
    } else {
        (s, seq![], SReply::Value(current_route(s.router)))
    }
}

/// The storage calls.
pub open spec fn storage_model(s: SServices, api: Seq<char>, args: Seq<DeepValue>) -> (SServices, Seq<SEffect>, SReply) {
    let key = text_of(if args.len() > 0 { args[0] } else { jnull() });
    if api == "storage.get"@ {
        match store_find(s.storage, key, 0) {
            Some(i) => (s, seq![], SReply::Stored(s.storage[i].1)),
            None => (s, seq![], SReply::Value(jnull())),
        }
    } else if api == "storage.set"@ {
        let val = if args.len() > 1 { args[1] } else { jnull() };
        (SServices { storage: store_set(s.storage, key, val), ..s }, seq![], SReply::Value(crate::hostcall::reply::ok_value()))
    } else if api == "storage.remove"@ {
        (SServices { storage: store_remove(s.storage, key), ..s }, seq![], SReply::Value(crate::hostcall::reply::ok_value()))
    } else if api == "storage.keys"@ {
        (s, seq![], SReply::Value(jarray(Seq::new(s.storage.len(), |i: int| jtext(s.storage[i].0)))))
    } else {
        (SServices { storage: Seq::empty(), ..s }, seq![], SReply::Value(crate::hostcall::reply::ok_value()))
    }
}

/// The number of generator steps `random.bytes` takes for `n` bytes.
pub open spec fn byte_steps(n: nat) -> nat {
    (n + 7) / 8
}

/// The randomness calls.
pub open spec fn random_model(s: SServices, api: Seq<char>, args: Seq<DeepValue>) -> (SServices, Seq<SEffect>, SReply) {
    if api == "random.next"@ {
        let st = xorshift(s.rng);
        (SServices { rng: st, ..s }, seq![], SReply::Value(jfloat(unit_fraction_bits(scramble(st) >> 11u64))))
    } else {
        let asked = match uint_of(if args.len() > 0 { args[0] } else { jnull() }) {
            Some(n) => n,
            None => 16,
        };
        let n: nat = if asked < 4096 { asked as nat } else { 4096 };
        let bytes = rng_bytes(s.rng, n);
        (SServices { rng: rng_state(s.rng, byte_steps(n)), ..s }, seq![],
            SReply::Value(jarray(Seq::new(n, |i: int| juint(bytes[i] as u64)))))
    }
}

/// What one host call does: the next state, the effects for the backend and
/// the reply. `clock` is the clock reading the time calls take (milliseconds
/// since the epoch for `time.now`, since the bridge started for
/// `time.monotonic`); the other calls do not read it.
pub open spec fn dispatch_model(s: SServices, api: Seq<char>, args: Seq<DeepValue>, d: SDecoded, clock: Option<u128>)
    -> (SServices, Seq<SEffect>, SReply)
{
    let arg0 = if args.len() > 0 { args[0] } else { jnull() };
    let arg1 = if args.len() > 1 { args[1] } else { jnull() };
    if api == "log"@ {
        (s, seq![SEffect::Log(args)], SReply::Value(jnull()))
    } else if api == "ui.render"@ {
        match d {
            SDecoded::Tree(t) => render_model(s, t),
            _ => (s, seq![], SReply::Value(jnull())),
        }
    } else if api == "ui.patch"@ {
        match d {
            SDecoded::Patches(p) => patch_model(s, p),
            _ => (s, seq![], SReply::Value(jnull())),
        }
    } else if api == "ui.surfaceInfo"@ {
        (s, seq![], SReply::Surface(s.surface_override))
    } else if api == "theme.set"@ {
        (SServices { theme: Some(arg0), ..s }, seq![SEffect::SetTheme(arg0)], SReply::Value(crate::hostcall::reply::ok_value()))
    } else if api == "theme.get"@ {
        (s, seq![], SReply::Value(match s.theme { Some(t) => t, None => jnull() }))
    } else if api == "router.push"@ || api == "router.replace"@ || api == "router.pop"@ || api == "router.current"@ {
        router_model(s, api, args)
    } else if api == "storage.get"@ || api == "storage.set"@ || api == "storage.remove"@ || api == "storage.keys"@
        || api == "storage.clear"@ {
        storage_model(s, api, args)
    } else if api == "time.now"@ || api == "time.monotonic"@ {
        (s, seq![], SReply::Value(jobject(seq![("ms"@, juint(millis_of(clock)))])))
    } else if api == "random.next"@ || api == "random.bytes"@ {
        random_model(s, api, args)
    } else if api == "host.send"@ {
        (SServices { outbox: s.outbox.push((text_of(arg0), arg1)), ..s }, seq![], SReply::Value(crate::hostcall::reply::ok_value()))
    } else if api == "host.request"@ {
        (s, seq![SEffect::Command(text_of(arg0), if args.len() > 1 { args.skip(1) } else { Seq::empty() })], SReply::CommandResult)
    } else if backend_channel(api) {
        (s, seq![SEffect::Command(api, args)], SReply::CommandResult)
    } else {
        (s, seq![], SReply::Value(jnull()))
    }
}

// ---------------------------------------------------------------------------
// The bridge.
// ---------------------------------------------------------------------------

/// The serviceable state behind the bridge: everything `dispatch` may touch.
pub struct Services {
    /// The retained widget tree (the last tree the guest rendered).
    pub retained: Option<Node>,
    /// Sandboxed key/value store (per instance, in memory).
    pub storage: Storage,
    /// Current theme blob.
    pub theme: Option<Json>,
    /// Router history stack (each entry an arbitrary route value).
    pub router: Vec<Json>,
    /// Messages the guest pushed out via `host.send`, for the embedder to read.
    pub outbox: Vec<OutboundMessage>,
    /// Optional surface override (else taken from the backend).
    pub surface_override: Option<SurfaceInfo>,
    /// Monotonic clock origin.
    start: web_time::SystemTime,
    /// Generator state.
    rng: u64,
    /// Total frames rendered.
    pub frames: u64,
}

/// The decoding a call's first argument needs before dispatch.
pub fn decoding(api: &str) -> (r: Decoding)
    ensures
        r == decoding_of(api@),
{
    if str_eq(api, "ui.render") {
        Decoding::Tree
    } else if str_eq(api, "ui.patch") {
        Decoding::Patches
    } else {
        Decoding::Plain
    }
}

/// Copies of a list of JSON values.
fn copy_jsons(a: &[Json]) -> (r: Vec<Json>)
    ensures
        Json::items_deep(r@) == Json::items_deep(a@),
{
    let mut out: Vec<Json> = Vec::new();
    let mut i: usize = 0;
    while i < a.len()
        invariant
            i <= a@.len(),
            out@.len() == i,
            forall|j: int| 0 <= j < i ==> Json::deep_of(#[trigger] out@[j]) == Json::deep_of(a@[j]),
        decreases a@.len() - i,
    {
        out.push(Json::copy_value(&a[i]));
        i += 1;
    }
    assert(Json::items_deep(out@) =~= Json::items_deep(a@));
    out
}

/// A list of one effect.
fn one_effect(e: Effect) -> (r: Vec<Effect>)
    ensures
        Effect::models(r@) == seq![Effect::model(e)],
{
    let mut v: Vec<Effect> = Vec::new();
    v.push(e);
    assert(Effect::models(v@) =~= seq![Effect::model(e)]);
    v
}

/// No effects.
fn no_effects() -> (r: Vec<Effect>)
    ensures
        Effect::models(r@) == Seq::<SEffect>::empty(),
{
    let v: Vec<Effect> = Vec::new();
    assert(Effect::models(v@) =~= Seq::<SEffect>::empty());
    v
}

/// The first argument, or `null`.
fn first_arg(args: &[Json]) -> (r: Json)
    ensures
        Json::deep_of(r) == (if args@.len() > 0 { Json::deep_of(args@[0]) } else { jnull() }),
{
    if args.len() > 0 {
        Json::copy_value(&args[0])
    } else {
        Json::Null
    }
}

/// The second argument, or `null`.
fn second_arg(args: &[Json]) -> (r: Json)
    ensures
        Json::deep_of(r) == (if args@.len() > 1 { Json::deep_of(args@[1]) } else { jnull() }),
{
    if args.len() > 1 {
        Json::copy_value(&args[1])
    } else {
        Json::Null
    }
}

/// Copies of the arguments after the first.
fn rest_args(args: &[Json]) -> (r: Vec<Json>)
    ensures
        Json::items_deep(r@) == (if args@.len() > 1 { Json::items_deep(args@).skip(1) } else { Seq::empty() }),
{
    let mut out: Vec<Json> = Vec::new();
    if args.len() <= 1 {
        assert(Json::items_deep(out@) =~= Seq::<DeepValue>::empty());
        return out;
    }
    let mut i: usize = 1;
    while i < args.len()
        invariant
            1 <= i <= args@.len(),
            out@.len() == i - 1,
            forall|j: int| 0 <= j < i - 1 ==> Json::deep_of(#[trigger] out@[j]) == Json::deep_of(args@[j + 1]),
        decreases args@.len() - i,
    {
        out.push(Json::copy_value(&args[i]));
        i += 1;
    }
    assert(Json::items_deep(out@) =~= Json::items_deep(args@).skip(1));
    out
}

impl Services {
    /// The model of the state.
    pub closed spec fn model(&self) -> SServices {
        SServices {
            retained: match self.retained {
                Some(t) => Some(t@),
                None => None,
            },
            storage: self.storage.model(),
            theme: match self.theme {
                Some(t) => Some(Json::deep_of(t)),
                None => None,
            },
            router: Json::items_deep(self.router@),
            outbox: Seq::new(self.outbox@.len(), |i: int| (self.outbox@[i].channel@, Json::deep_of(self.outbox@[i].message))),
            surface_override: self.surface_override,
            rng: self.rng,
            frames: self.frames as int,
        }
    }

    /// A fresh bridge: nothing retained or stored, no theme, empty router
    /// history and outbox, no surface override, no frames; the generator is
    /// seeded from the clock.
    pub fn new() -> (s: Services)
        ensures
            s.model().retained is None,
            s.model().storage.len() == 0,
            s.model().theme is None,
            s.model().router.len() == 0,
            s.model().outbox.len() == 0,
            s.model().surface_override is None,
            s.model().frames == 0,
            exists|c: Option<u128>| s.model().rng == seed_of(c),
    {
        let now = clock_now();
        let nanos = epoch_nanos(&now);
        let seed: u64 = (match nanos {
            Some(x) => x as u64,
            None => 0x9E3779B97F4A7C15u64,
        }) | 1u64;
        assert(seed == seed_of(nanos));
        let s = Services {
            retained: None,
            storage: Storage::new(),
            theme: None,
            router: Vec::new(),
            outbox: Vec::new(),
            surface_override: None,
            start: clock_now(),
            rng: seed,
            frames: 0,
        };
        assert(s.model().router =~= Seq::<DeepValue>::empty());
        assert(s.model().outbox =~= Seq::<(Seq<char>, DeepValue)>::empty());
        s
    }

    /// Advance the generator and return its next number (xorshift64*).
    fn next_rng(&mut self) -> (r: u64)
        ensures
            final(self).rng == xorshift(old(self).rng),
            r == scramble(final(self).rng),
            final(self).retained == old(self).retained,
            final(self).storage == old(self).storage,
            final(self).theme == old(self).theme,
            final(self).router == old(self).router,
            final(self).outbox == old(self).outbox,
            final(self).surface_override == old(self).surface_override,
            final(self).frames == old(self).frames,
    {
        let mut x = self.rng;
        x = x ^ (x >> 12u64);
        x = x ^ (x << 25u64);
        x = x ^ (x >> 27u64);
        self.rng = x;
        x.wrapping_mul(0x2545F4914F6CDD1Du64)
    }

    /// `n` bytes from the generator: the bytes of successive numbers, least
    /// significant first.
    fn random_bytes(&mut self, n: u64) -> (r: Vec<u8>)
        requires
            n <= 4096,
        ensures
            r@ == rng_bytes(old(self).rng, n as nat),
            final(self).rng == rng_state(old(self).rng, byte_steps(n as nat)),
            final(self).retained == old(self).retained,
            final(self).storage == old(self).storage,
            final(self).theme == old(self).theme,
            final(self).router == old(self).router,
            final(self).outbox == old(self).outbox,
            final(self).surface_override == old(self).surface_override,
            final(self).frames == old(self).frames,
    {
        let ghost s0 = self.rng;
        let mut out: Vec<u8> = Vec::new();
        let mut k: u64 = 0;
        while (out.len() as u64) < n
            invariant
                n <= 4096,
                out@.len() == 8 * k,
                8 * k < n + 8,
                self.rng == rng_state(s0, k as nat),
                out@ == rng_bytes(s0, (8 * k) as nat),
                self.retained == old(self).retained,
                self.storage == old(self).storage,
                self.theme == old(self).theme,
                self.router == old(self).router,
                self.outbox == old(self).outbox,
                self.surface_override == old(self).surface_override,
                self.frames == old(self).frames,
                s0 == old(self).rng,
            decreases n + 8 - 8 * k,
        {
            let x = self.next_rng();
            let ghost before = out@;
            let mut b: u64 = 0;
            while b < 8
                invariant
                    b <= 8,
                    out@.len() == before.len() + b,
                    forall|j: int| 0 <= j < before.len() ==> out@[j] == before[j],
                    forall|j: int| 0 <= j < b ==> #[trigger] out@[before.len() + j] == le_byte(x, j),
                decreases 8 - b,
            {
                out.push(((x >> (8 * b)) & 0xffu64) as u8);
                b += 1;
            }
            proof {
                assert(rng_output(s0, k as nat) == x);
                assert forall|i: int| 0 <= i < 8 * (k + 1) implies #[trigger] out@[i] == rng_bytes(s0, (8 * (k + 1)) as nat)[i] by {
                    if i < 8 * k {
                        assert(out@[i] == before[i]);
                    } else {
                        let j = i - 8 * k;
                        vstd::arithmetic::div_mod::lemma_fundamental_div_mod_converse(i, 8, k as int, j);
                        assert(out@[before.len() + j] == le_byte(x, j));
                    }
                }
                assert(out@ =~= rng_bytes(s0, (8 * (k + 1)) as nat));
            }
            k += 1;
        }
        proof {
            vstd::arithmetic::div_mod::lemma_fundamental_div_mod_converse(n + 7, 8, k as int, n + 7 - 8 * k);
        }
        out.truncate(n as usize);
        assert(out@ =~= rng_bytes(s0, n as nat));
        out
    }

    /// The full render path: diff the new tree against the retained one and
    /// hand the backend either a mount (first frame) or the patch script.
    fn render(&mut self, tree: Result<Node, String>) -> (r: Step)
        requires
            tree matches Ok(t) ==> old(self).frames < u64::MAX,
        ensures
            (final(self).model(), Effect::models(r.effects@), Reply::model(r.reply)) == render_model(old(self).model(),
                match tree { Ok(t) => Ok(t@), Err(e) => Err(e@) }),
    {
        match tree {
            Err(e) => {
                let msg = concat("invalid ui tree: ", &e);
                Step { effects: no_effects(), reply: Reply::Value(crate::hostcall::reply::err(msg)) }
            },
            Ok(new_tree) => {
                self.frames = self.frames + 1;
                match self.retained.take() {
                    None => {
                        let copy = Node::copy_node(&new_tree);
                        self.retained = Some(new_tree);
                        Step { effects: one_effect(Effect::Mount(copy)), reply: Reply::Value(crate::hostcall::reply::ok()) }
                    },
                    Some(old) => {
                        let patches = crate::diff::diff(&old, &new_tree);
                        let effects = if patches.len() == 0 {
                            no_effects()
                        } else {
                            one_effect(Effect::Patch(Node::copy_node(&new_tree), patches))
                        };
                        self.retained = Some(new_tree);
                        Step { effects, reply: Reply::Value(crate::hostcall::reply::ok()) }
                    },
                }
            },
        }
    }

    /// The last route, or `null`.
    fn last_route(&self) -> (r: Json)
        ensures
            Json::deep_of(r) == current_route(self.model().router),
    {
        let n = self.router.len();
        if n > 0 {
            Json::copy_value(&self.router[n - 1])
        } else {
            Json::Null
        }
    }

    /// The router history calls.
    fn router_call(&mut self, api: &str, args: &[Json]) -> (r: Step)
        requires
            api@ == "router.push"@ || api@ == "router.replace"@ || api@ == "router.pop"@ || api@ == "router.current"@,
        ensures
            (final(self).model(), Effect::models(r.effects@), Reply::model(r.reply))
                == router_model(old(self).model(), api@, Json::items_deep(args@)),
    {
        let ghost m0 = self.model();
        let ghost a = Json::items_deep(args@);
        let arg0 = first_arg(args);
        if str_eq(api, "router.push") {
            let ghost r0 = self.router@;
            self.router.push(arg0);
            assert(Json::items_deep(self.router@) =~= Json::items_deep(r0).push(Json::deep_of(arg0)));
            let effects = one_effect(Effect::Command(String::from_str(api), copy_jsons(args)));
            Step { effects, reply: Reply::Value(self.last_route()) }
        } else if str_eq(api, "router.replace") {
            let ghost r0 = self.router@;
            let n = self.router.len();
            if n > 0 {
                self.router.set(n - 1, arg0);
                assert(Json::items_deep(self.router@) =~= Json::items_deep(r0).update(n - 1, Json::deep_of(arg0)));
            } else {
                self.router.push(arg0);
                assert(Json::items_deep(self.router@) =~= Json::items_deep(r0).push(Json::deep_of(arg0)));
            }
            let effects = one_effect(Effect::Command(String::from_str(api), copy_jsons(args)));
            Step { effects, reply: Reply::Value(self.last_route()) }
        } else if str_eq(api, "router.pop") {
            let ghost r0 = self.router@;
            let popped = self.router.pop();
            let effects = one_effect(Effect::Command(String::from_str(api), copy_jsons(args)));
            let reply = match popped {
                Some(v) => {
                    assert(Json::items_deep(self.router@) =~= Json::items_deep(r0).drop_last());
                    v
                },
                None => Json::Null,
            };
            Step { effects, reply: Reply::Value(reply) }
        } else {
            Step { effects: no_effects(), reply: Reply::Value(self.last_route()) }
        }
    }

    /// The storage calls.
    fn storage_call(&mut self, api: &str, args: &[Json]) -> (r: Step)
        requires
            api@ == "storage.get"@ || api@ == "storage.set"@ || api@ == "storage.remove"@
                || api@ == "storage.keys"@ || api@ == "storage.clear"@,
        ensures
            (final(self).model(), Effect::models(r.effects@), Reply::model(r.reply))
                == storage_model(old(self).model(), api@, Json::items_deep(args@)),
    {
        let arg0 = first_arg(args);
        let key = json_text(&arg0);
        if str_eq(api, "storage.get") {
            match self.storage.get(key.as_str()) {
                Some(v) => Step { effects: no_effects(), reply: Reply::Stored(Json::copy_value(v)) },
                None => Step { effects: no_effects(), reply: Reply::Value(Json::Null) },
            }
        } else if str_eq(api, "storage.set") {
            let val = second_arg(args);
            self.storage.set(key, val);
            Step { effects: no_effects(), reply: Reply::Value(crate::hostcall::reply::ok()) }
        } else if str_eq(api, "storage.remove") {
            self.storage.remove(key.as_str());
            Step { effects: no_effects(), reply: Reply::Value(crate::hostcall::reply::ok()) }
        } else if str_eq(api, "storage.keys") {
            let ks = self.storage.keys();
            let ghost m = self.storage.model();
            let mut items: Vec<Json> = Vec::new();
            let mut i: usize = 0;
            while i < ks.len()
                invariant
                    i <= ks@.len(),
                    ks@.len() == m.len(),
                    forall|j: int| 0 <= j < ks@.len() ==> #[trigger] ks@[j]@ == m[j].0,
                    items@.len() == i,
                    forall|j: int| 0 <= j < i ==> Json::deep_of(#[trigger] items@[j]) == jtext(m[j].0),
                decreases ks@.len() - i,
            {
                items.push(Json::Text(ks[i].clone()));
                i += 1;
            }
            proof {
                Json::lemma_deep_array(items);
                assert(Json::items_deep(items@) =~= Seq::new(m.len(), |j: int| jtext(m[j].0)));
            }
            Step { effects: no_effects(), reply: Reply::Value(Json::Array(items)) }
        } else {
            self.storage.clear();
            Step { effects: no_effects(), reply: Reply::Value(crate::hostcall::reply::ok()) }
        }
    }

    /// The randomness calls.
    fn random_call(&mut self, api: &str, args: &[Json]) -> (r: Step)
        requires
            api@ == "random.next"@ || api@ == "random.bytes"@,
        ensures
            (final(self).model(), Effect::models(r.effects@), Reply::model(r.reply))
                == random_model(old(self).model(), api@, Json::items_deep(args@)),
    {
        if str_eq(api, "random.next") {
            let x = self.next_rng();
            let m = x >> 11u64;
            assert(m < 0x20_0000_0000_0000u64) by (bit_vector)
                requires
                    m == x >> 11u64,
            ;
            let bits = unit_fraction(m);
            Step { effects: no_effects(), reply: Reply::Value(Json::Number(JsonNumber::Float(crate::float::F64::from_bits(bits)))) }
        } else {
            let arg0 = first_arg(args);
            let asked = match json_uint(&arg0) {
                Some(n) => n,
                None => 16,
            };
            let n: u64 = if asked < 4096 { asked } else { 4096 };
            let bytes = self.random_bytes(n);
            let mut items: Vec<Json> = Vec::new();
            let mut i: usize = 0;
            while i < bytes.len()
                invariant
                    i <= bytes@.len(),
                    items@.len() == i,
                    forall|j: int| 0 <= j < i ==> Json::deep_of(#[trigger] items@[j]) == juint(bytes@[j] as u64),
                decreases bytes@.len() - i,
            {
                items.push(Json::Number(JsonNumber::PosInt(bytes[i] as u64)));
                i += 1;
            }
            proof {
                Json::lemma_deep_array(items);
                assert(Json::items_deep(items@) =~= Seq::new(n as nat, |j: int| juint(bytes@[j] as u64)));
            }
            Step { effects: no_effects(), reply: Reply::Value(Json::Array(items)) }
        }
    }

    /// The clock calls.
    fn time_call(&self, api: &str) -> (r: Step)
        ensures
            Effect::models(r.effects@) == Seq::<SEffect>::empty(),
            exists|c: Option<u128>| #[trigger] millis_of(c) == millis_of(c)
                && Reply::model(r.reply) == SReply::Value(jobject(seq![("ms"@, juint(millis_of(c)))])),
    {
        let c = if str_eq(api, "time.now") {
            let now = clock_now();
            epoch_millis(&now)
        } else {
            elapsed_millis(&self.start)
        };
        let ms: u64 = match c {
            Some(x) => x as u64,
            None => 0,
        };
        assert(ms == millis_of(c));
        let mut v: Vec<(String, Json)> = Vec::new();
        v.push(crate::hostcall::reply::entry("ms", Json::Number(JsonNumber::PosInt(ms))));
        let r = crate::hostcall::reply::object(v);
        proof {
            let es = seq![("ms"@, juint(ms))];
            assert(Json::entries_deep(v@) =~= Seq::new(1, |i: int|
                crate::facet::dpair(DeepValue::Text(es[i].0), es[i].1)));
            assert(millis_of(c) == millis_of(c));
        }
        Step { effects: no_effects(), reply: Reply::Value(r) }
    }

    /// Whether a render can be serviced: the frame count can grow.
    pub fn can_render(&self) -> (b: bool)
        ensures
            b == (self.model().frames < u64::MAX),
    {
        self.frames < u64::MAX
    }

    /// Service one host call: `api` is the `askHost` name, `args` the
    /// argument array, `decoded` the first argument decoded as
    /// [`decoding`] asks. The embedder performs the effects in order and
    /// resumes the guest with the reply.
    pub fn dispatch(&mut self, api: &str, args: &[Json], decoded: Decoded) -> (r: Step)
        requires
            dispatch_ready(old(self).model(), api@, Decoded::model(decoded)),
        ensures
            exists|c: Option<u128>| #[trigger] dispatch_model(old(self).model(), api@, Json::items_deep(args@),
                Decoded::model(decoded), c) == (final(self).model(), Effect::models(r.effects@), Reply::model(r.reply)),
    {
        let ghost m0 = self.model();
        let ghost a = Json::items_deep(args@);
        let ghost dm = Decoded::model(decoded);
        let r = if str_eq(api, "log") {
            Step { effects: one_effect(Effect::Log(copy_jsons(args))), reply: Reply::Value(Json::Null) }
        } else if str_eq(api, "ui.render") {
            match decoded {
                Decoded::Tree(t) => self.render(t),
                _ => Step { effects: no_effects(), reply: Reply::Value(Json::Null) },
            }
        } else if str_eq(api, "ui.patch") {
            match decoded {
                Decoded::Patches(p) => self.apply_guest_patches(p),
                _ => Step { effects: no_effects(), reply: Reply::Value(Json::Null) },
            }
        } else if str_eq(api, "ui.surfaceInfo") {
            Step { effects: no_effects(), reply: Reply::Surface(self.surface_override) }
        } else if str_eq(api, "theme.set") {
            let arg0 = first_arg(args);
            let copy = Json::copy_value(&arg0);
            self.theme = Some(arg0);
            Step { effects: one_effect(Effect::SetTheme(copy)), reply: Reply::Value(crate::hostcall::reply::ok()) }
        } else if str_eq(api, "theme.get") {
            let v = match &self.theme {
                Some(t) => Json::copy_value(t),
                None => Json::Null,
            };
            Step { effects: no_effects(), reply: Reply::Value(v) }
        } else if str_eq(api, "router.push") || str_eq(api, "router.replace") || str_eq(api, "router.pop")
            || str_eq(api, "router.current") {
            self.router_call(api, args)
        } else if str_eq(api, "storage.get") || str_eq(api, "storage.set") || str_eq(api, "storage.remove")
            || str_eq(api, "storage.keys") || str_eq(api, "storage.clear") {
            self.storage_call(api, args)
        } else if str_eq(api, "time.now") || str_eq(api, "time.monotonic") {
            let step = self.time_call(api);
            proof {
                let c = choose|c: Option<u128>| #[trigger] millis_of(c) == millis_of(c)
                    && Reply::model(step.reply) == SReply::Value(jobject(seq![("ms"@, juint(millis_of(c)))]));
                assert(dispatch_model(m0, api@, a, dm, c) == (self.model(), Effect::models(step.effects@), Reply::model(step.reply)));
            }
            return step;
        } else if str_eq(api, "random.next") || str_eq(api, "random.bytes") {
            self.random_call(api, args)
        } else if str_eq(api, "host.send") {
            let channel = json_text(&first_arg(args));
            let message = second_arg(args);
            let ghost o0 = self.outbox@;
            self.outbox.push(OutboundMessage { channel, message });
            assert(self.model().outbox =~= m0.outbox.push((text_of(if a.len() > 0 { a[0] } else { jnull() }),
                if a.len() > 1 { a[1] } else { jnull() })));
            Step { effects: no_effects(), reply: Reply::Value(crate::hostcall::reply::ok()) }
        } else if str_eq(api, "host.request") {
            let channel = json_text(&first_arg(args));
            Step { effects: one_effect(Effect::Command(channel, rest_args(args))), reply: Reply::CommandResult }
        } else if is_backend_channel(api) {
            Step { effects: one_effect(Effect::Command(String::from_str(api), copy_jsons(args))), reply: Reply::CommandResult }
        } else {
            Step { effects: no_effects(), reply: Reply::Value(Json::Null) }
        };
        assert(dispatch_model(m0, api@, a, dm, None) == (self.model(), Effect::models(r.effects@), Reply::model(r.reply)));
        r
    }

    /// Apply a guest-authored patch script to the retained tree.
    fn apply_guest_patches(&mut self, patches: Result<Vec<Patch>, String>) -> (r: Step)
        ensures
            (final(self).model(), Effect::models(r.effects@), Reply::model(r.reply)) == patch_model(old(self).model(),
                match patches { Ok(p) => Ok(Patch::models(p@)), Err(e) => Err(e@) }),
    {
        match patches {
            Err(e) => {
                let msg = concat("invalid patches: ", &e);
                Step { effects: no_effects(), reply: Reply::Value(crate::hostcall::reply::err(msg)) }
            },
            Ok(ps) => match self.retained.take() {
                None => {
                    Step { effects: no_effects(), reply: Reply::Value(crate::hostcall::reply::err(String::from_str("no tree mounted yet"))) }
                },
                Some(tree) => {
                    let mut tree = tree;
                    let res = crate::diff::apply(&mut tree, ps.as_slice());
                    match res {
                        Err(e) => {
                            self.retained = Some(tree);
                            let msg = concat("patch failed: ", &e);
                            Step { effects: no_effects(), reply: Reply::Value(crate::hostcall::reply::err(msg)) }
                        },
                        Ok(()) => {
                            let snapshot = Node::copy_node(&tree);
                            self.retained = Some(tree);
                            Step { effects: one_effect(Effect::Patch(snapshot, ps)), reply: Reply::Value(crate::hostcall::reply::ok()) }
                        },
                    }
                },
            },
        }
    }
}

// ---------------------------------------------------------------------------
// The laws of the bridge.
// ---------------------------------------------------------------------------

/// The characters of the api names.
pub proof fn lemma_api_names()
    ensures
        "log"@ == seq!['l', 'o', 'g'],
        "ui.render"@ == seq!['u', 'i', '.', 'r', 'e', 'n', 'd', 'e', 'r'],
        "ui.patch"@ == seq!['u', 'i', '.', 'p', 'a', 't', 'c', 'h'],
        "ui.surfaceInfo"@ == seq!['u', 'i', '.', 's', 'u', 'r', 'f', 'a', 'c', 'e', 'I', 'n', 'f', 'o'],
        "theme.set"@ == seq!['t', 'h', 'e', 'm', 'e', '.', 's', 'e', 't'],
        "theme.get"@ == seq!['t', 'h', 'e', 'm', 'e', '.', 'g', 'e', 't'],
        "router.push"@ == seq!['r', 'o', 'u', 't', 'e', 'r', '.', 'p', 'u', 's', 'h'],
        "router.replace"@ == seq!['r', 'o', 'u', 't', 'e', 'r', '.', 'r', 'e', 'p', 'l', 'a', 'c', 'e'],
        "router.pop"@ == seq!['r', 'o', 'u', 't', 'e', 'r', '.', 'p', 'o', 'p'],
        "router.current"@ == seq!['r', 'o', 'u', 't', 'e', 'r', '.', 'c', 'u', 'r', 'r', 'e', 'n', 't'],
        "storage.get"@ == seq!['s', 't', 'o', 'r', 'a', 'g', 'e', '.', 'g', 'e', 't'],
        "storage.set"@ == seq!['s', 't', 'o', 'r', 'a', 'g', 'e', '.', 's', 'e', 't'],
        "storage.remove"@ == seq!['s', 't', 'o', 'r', 'a', 'g', 'e', '.', 'r', 'e', 'm', 'o', 'v', 'e'],
        "storage.keys"@ == seq!['s', 't', 'o', 'r', 'a', 'g', 'e', '.', 'k', 'e', 'y', 's'],
        "storage.clear"@ == seq!['s', 't', 'o', 'r', 'a', 'g', 'e', '.', 'c', 'l', 'e', 'a', 'r'],
        "time.now"@ == seq!['t', 'i', 'm', 'e', '.', 'n', 'o', 'w'],
        "time.monotonic"@ == seq!['t', 'i', 'm', 'e', '.', 'm', 'o', 'n', 'o', 't', 'o', 'n', 'i', 'c'],
        "random.next"@ == seq!['r', 'a', 'n', 'd', 'o', 'm', '.', 'n', 'e', 'x', 't'],
        "random.bytes"@ == seq!['r', 'a', 'n', 'd', 'o', 'm', '.', 'b', 'y', 't', 'e', 's'],
        "host.send"@ == seq!['h', 'o', 's', 't', '.', 's', 'e', 'n', 'd'],
        "host.request"@ == seq!['h', 'o', 's', 't', '.', 'r', 'e', 'q', 'u', 'e', 's', 't'],
{
    reveal_strlit("log");
    reveal_strlit("ui.render");
    reveal_strlit("ui.patch");
    reveal_strlit("ui.surfaceInfo");
    reveal_strlit("theme.set");
    reveal_strlit("theme.get");
    reveal_strlit("router.push");
    reveal_strlit("router.replace");
    reveal_strlit("router.pop");
    reveal_strlit("router.current");
    reveal_strlit("storage.get");
    reveal_strlit("storage.set");
    reveal_strlit("storage.remove");
    reveal_strlit("storage.keys");
    reveal_strlit("storage.clear");
    reveal_strlit("time.now");
    reveal_strlit("time.monotonic");
    reveal_strlit("random.next");
    reveal_strlit("random.bytes");
    reveal_strlit("host.send");
    reveal_strlit("host.request");
}

/// Reading a key back after storing a value under it gives the value, and
/// changes nothing.
pub proof fn lemma_storage_read_after_write(s: SServices, k: Seq<char>, v: DeepValue, c1: Option<u128>, c2: Option<u128>)
    ensures
        ({
            let w = dispatch_model(s, "storage.set"@, seq![jtext(k), v], SDecoded::Plain, c1);
            let r = dispatch_model(w.0, "storage.get"@, seq![jtext(k)], SDecoded::Plain, c2);
            &&& w.2 == SReply::Value(crate::hostcall::reply::ok_value())
            &&& r.0 == w.0
            &&& r.1.len() == 0
            &&& r.2 == SReply::Stored(v)
        }),
{
    lemma_api_names();
    lemma_store_find(s.storage, k, 0);
    let m = store_set(s.storage, k, v);
    lemma_store_find(m, k, 0);
    match store_find(s.storage, k, 0) {
        Some(i) => {
            assert(m[i].0 == k);
        },
        None => {
            assert(m[s.storage.len() as int].0 == k);
        },
    }
}

/// After a key is removed, reading it gives `null`.
pub proof fn lemma_storage_read_after_remove(s: SServices, k: Seq<char>, c1: Option<u128>, c2: Option<u128>)
    requires
        store_keys_unique(s.storage),
    ensures
        ({
            let w = dispatch_model(s, "storage.remove"@, seq![jtext(k)], SDecoded::Plain, c1);
            let r = dispatch_model(w.0, "storage.get"@, seq![jtext(k)], SDecoded::Plain, c2);
            r.2 == SReply::Value(jnull())
        }),
{
    lemma_api_names();
    lemma_store_find(s.storage, k, 0);
    let m = store_remove(s.storage, k);
    lemma_store_find(m, k, 0);
    match store_find(s.storage, k, 0) {
        Some(i) => {
            if let Some(j) = store_find(m, k, 0) {
                let j2 = if j < i { j } else { j + 1 };
                assert(m[j] == s.storage[j2]);
            }
        },
        None => {},
    }
}

/// Pushing a route makes it the current one; popping it gives it back and
/// restores the history.
pub proof fn lemma_router_push_pop(s: SServices, route: DeepValue, c1: Option<u128>, c2: Option<u128>, c3: Option<u128>)
    ensures
        ({
            let p = dispatch_model(s, "router.push"@, seq![route], SDecoded::Plain, c1);
            let q = dispatch_model(p.0, "router.current"@, seq![], SDecoded::Plain, c2);
            let o = dispatch_model(p.0, "router.pop"@, seq![], SDecoded::Plain, c3);
            &&& p.2 == SReply::Value(route)
            &&& q.2 == SReply::Value(route)
            &&& o.2 == SReply::Value(route)
            &&& o.0 == s
        }),
{
    lemma_api_names();
    let p = dispatch_model(s, "router.push"@, seq![route], SDecoded::Plain, c1);
    assert(p.0.router.drop_last() =~= s.router);
}

/// A message sent with `host.send` is appended to the outbox, and nothing
/// else changes.
pub proof fn lemma_host_send(s: SServices, channel: Seq<char>, message: DeepValue, c: Option<u128>)
    ensures
        dispatch_model(s, "host.send"@, seq![jtext(channel), message], SDecoded::Plain, c)
            == (SServices { outbox: s.outbox.push((channel, message)), ..s }, Seq::<SEffect>::empty(), SReply::Value(crate::hostcall::reply::ok_value())),
{
    lemma_api_names();
}

/// The patch script a render hands the backend turns the previously
/// rendered tree into the new one (up to facets `==` to the new ones), and
/// the new tree is retained; where no script is handed over, the previous
/// tree already is the new one in that sense. This holds whenever both
/// trees have no two siblings that share a key.
pub proof fn lemma_render_patches(s: SServices, old: SNode, new: SNode, c: Option<u128>)
    requires
        s.retained == Some(old),
        crate::roundtrip::tree_ok(old),
        crate::roundtrip::tree_ok(new),
    ensures
        ({
            let r = dispatch_model(s, "ui.render"@, seq![], SDecoded::Tree(Ok(new)), c);
            &&& r.0.retained == Some(new)
            &&& r.0.frames == s.frames + 1
            &&& r.2 == SReply::Value(crate::hostcall::reply::ok_value())
            &&& (r.1.len() == 0 ==> crate::roundtrip::matches(old, new))
            &&& (r.1.len() > 0 ==> r.1 == seq![SEffect::Patch(new, crate::diff::diff_model(seq![], old, new).unwrap())]
                && crate::diff::apply_model(old, crate::diff::diff_model(seq![], old, new).unwrap()).1 is None
                && crate::roundtrip::matches(crate::diff::apply_model(old, crate::diff::diff_model(seq![], old, new).unwrap()).0, new))
        }),
{
    lemma_api_names();
    crate::roundtrip::lemma_diff_apply_roundtrip(old, new);
    let ps = crate::diff::diff_model(seq![], old, new).unwrap();
    if ps.len() == 0 {
        assert(crate::diff::apply_model(old, ps) == (old, None::<crate::diff::ApplyError>));
    }
}

/// A call of an api that the bridge does not know is answered with `null`
/// and changes nothing.
pub proof fn lemma_unknown_api(s: SServices, api: Seq<char>, args: Seq<DeepValue>, c: Option<u128>)
    requires
        api != "log"@, api != "ui.render"@, api != "ui.patch"@, api != "ui.surfaceInfo"@,
        api != "theme.set"@, api != "theme.get"@,
        api != "router.push"@, api != "router.replace"@, api != "router.pop"@, api != "router.current"@,
        api != "storage.get"@, api != "storage.set"@, api != "storage.remove"@, api != "storage.keys"@,
        api != "storage.clear"@, api != "time.now"@, api != "time.monotonic"@,
        api != "random.next"@, api != "random.bytes"@, api != "host.send"@, api != "host.request"@,
        !backend_channel(api),
    ensures
        dispatch_model(s, api, args, SDecoded::Plain, c) == (s, Seq::<SEffect>::empty(), SReply::Value(jnull())),
{
}


// ---------------------------------------------------------------------------
// More laws of the bridge: storage, router and the backend families.
// ---------------------------------------------------------------------------

/// After `storage.clear` the store is empty, whatever it held, and nothing
/// else changes: a following `storage.get` of any key replies `null` and
/// `storage.keys` replies the empty list.
pub proof fn lemma_storage_clear(s: SServices, args: Seq<DeepValue>, k: Seq<char>, c1: Option<u128>,
    c2: Option<u128>, c3: Option<u128>)
    ensures
        ({
            let w = dispatch_model(s, "storage.clear"@, args, SDecoded::Plain, c1);
            &&& w.0 == SServices { storage: Seq::empty(), ..s }
            &&& w.1.len() == 0
            &&& w.2 == SReply::Value(crate::hostcall::reply::ok_value())
            &&& dispatch_model(w.0, "storage.get"@, seq![jtext(k)], SDecoded::Plain, c2).2 == SReply::Value(jnull())
            &&& dispatch_model(w.0, "storage.keys"@, Seq::empty(), SDecoded::Plain, c3).2
                == SReply::Value(jarray(Seq::empty()))
        }),
{
    lemma_api_names();
    let w = dispatch_model(s, "storage.clear"@, args, SDecoded::Plain, c1);
    lemma_store_find(w.0.storage, k, 0);
    assert(Seq::new(0, |i: int| jtext(w.0.storage[i].0)) =~= Seq::<DeepValue>::empty());
}

/// `storage.keys` lists exactly the keys that `storage.get` finds, and
/// neither call changes anything.
pub proof fn lemma_storage_keys_get(s: SServices, k: Seq<char>, c1: Option<u128>, c2: Option<u128>)
    ensures
        ({
            let kr = dispatch_model(s, "storage.keys"@, Seq::empty(), SDecoded::Plain, c1);
            let g = dispatch_model(s, "storage.get"@, seq![jtext(k)], SDecoded::Plain, c2);
            &&& kr.0 == s
            &&& g.0 == s
            &&& exists|l: Seq<DeepValue>| kr.2 == SReply::Value(jarray(l)) && l.len() == s.storage.len()
                && (l.contains(jtext(k)) == (g.2 is Stored))
        }),
{
    lemma_api_names();
    lemma_store_find(s.storage, k, 0);
    let l = Seq::new(s.storage.len(), |i: int| jtext(s.storage[i].0));
    if l.contains(jtext(k)) {
        let i = choose|i: int| 0 <= i < l.len() && l[i] == jtext(k);
        assert(l[i] == jtext(s.storage[i].0));
        assert(s.storage[i].0 == k);
    }
    if let Some(i) = store_find(s.storage, k, 0) {
        assert(l[i] == jtext(k));
    }
}

/// Setting or removing one key leaves what `storage.get` gives for every
/// other key unchanged.
pub proof fn lemma_storage_other_keys(s: SServices, k: Seq<char>, v: DeepValue, other: Seq<char>,
    c1: Option<u128>, c2: Option<u128>, c3: Option<u128>)
    requires
        k != other,
    ensures
        ({
            let before = dispatch_model(s, "storage.get"@, seq![jtext(other)], SDecoded::Plain, c3).2;
            let st = dispatch_model(s, "storage.set"@, seq![jtext(k), v], SDecoded::Plain, c1).0;
            let rm = dispatch_model(s, "storage.remove"@, seq![jtext(k)], SDecoded::Plain, c1).0;
            &&& dispatch_model(st, "storage.get"@, seq![jtext(other)], SDecoded::Plain, c2).2 == before
            &&& dispatch_model(rm, "storage.get"@, seq![jtext(other)], SDecoded::Plain, c2).2 == before
        }),
{
    lemma_api_names();
    let m = s.storage;
    lemma_store_find(m, k, 0);
    lemma_store_find(m, other, 0);
    let ms = store_set(m, k, v);
    let mr = store_remove(m, k);
    lemma_store_find(ms, other, 0);
    lemma_store_find(mr, other, 0);
    match store_find(m, k, 0) {
        Some(i) => {
            assert(ms.len() == m.len());
            assert forall|a: int| 0 <= a < m.len() && a != i implies ms[a] == m[a] by {}
            assert(ms[i].0 == k);
            match store_find(m, other, 0) {
                Some(j) => {
                    assert(store_find(ms, other, 0) == Some(j)) by {
                        if let Some(j2) = store_find(ms, other, 0) {
                            assert(j2 != i);
                            assert(ms[j2] == m[j2]);
                        }
                        assert(ms[j] == m[j]);
                    }
                    assert(store_find(mr, other, 0) == Some(if j < i { j } else { j - 1 })) by {
                        let jj = if j < i { j } else { j - 1 };
                        assert(mr[jj] == m[j]);
                        if let Some(j2) = store_find(mr, other, 0) {
                            let src = if j2 < i { j2 } else { j2 + 1 };
                            assert(mr[j2] == m[src]);
                        }
                    }
                },
                None => {
                    if let Some(j2) = store_find(ms, other, 0) {
                        assert(j2 != i);
                        assert(ms[j2] == m[j2]);
                    }
                    if let Some(j2) = store_find(mr, other, 0) {
                        let src = if j2 < i { j2 } else { j2 + 1 };
                        assert(mr[j2] == m[src]);
                    }
                },
            }
        },
        None => {
            assert(ms == m.push((k, v)));
            assert(mr == m);
            match store_find(m, other, 0) {
                Some(j) => {
                    assert(ms[j] == m[j]);
                },
                None => {
                    if let Some(j2) = store_find(ms, other, 0) {
                        if j2 < m.len() {
                            assert(ms[j2] == m[j2]);
                        }
                    }
                },
            }
        },
    }
}

/// `router.replace` swaps the current route for the new one: on a
/// non-empty history the length stays, the entries below the top stay, and
/// the top becomes the new route; on an empty history the new route is the
/// only one. Either way it is then the current route, and popping it gives
/// it back and leaves the history one entry shorter than before the
/// replace (or empty).
pub proof fn lemma_router_replace(s: SServices, r: DeepValue, c1: Option<u128>, c2: Option<u128>, c3: Option<u128>)
    ensures
        ({
            let w = dispatch_model(s, "router.replace"@, seq![r], SDecoded::Plain, c1);
            let q = dispatch_model(w.0, "router.current"@, Seq::empty(), SDecoded::Plain, c2);
            let o = dispatch_model(w.0, "router.pop"@, Seq::empty(), SDecoded::Plain, c3);
            &&& w.0 == SServices { router: w.0.router, ..s }
            &&& (s.router.len() > 0 ==> {
                &&& w.0.router.len() == s.router.len()
                &&& w.0.router[s.router.len() - 1] == r
                &&& forall|i: int| 0 <= i < s.router.len() - 1 ==> w.0.router[i] == s.router[i]
                &&& o.0.router == s.router.drop_last()
            })
            &&& (s.router.len() == 0 ==> w.0.router == seq![r] && o.0.router.len() == 0)
            &&& w.2 == SReply::Value(r)
            &&& q.2 == SReply::Value(r)
            &&& o.2 == SReply::Value(r)
        }),
{
    lemma_api_names();
    let w = dispatch_model(s, "router.replace"@, seq![r], SDecoded::Plain, c1);
    if s.router.len() > 0 {
        assert(w.0.router.drop_last() =~= s.router.drop_last());
    } else {
        assert(w.0.router =~= seq![r]);
        assert(w.0.router.drop_last() =~= Seq::<DeepValue>::empty());
    }
}

/// `router.current` gives the top of the history, or `null` on an empty
/// one, and changes nothing; `router.pop` on an empty history gives `null`
/// and changes nothing.
pub proof fn lemma_router_current_and_empty_pop(s: SServices, c1: Option<u128>, c2: Option<u128>)
    ensures
        ({
            let q = dispatch_model(s, "router.current"@, Seq::empty(), SDecoded::Plain, c1);
            let o = dispatch_model(s, "router.pop"@, Seq::empty(), SDecoded::Plain, c2);
            &&& q.0 == s
            &&& q.2 == SReply::Value(if s.router.len() > 0 { s.router[s.router.len() - 1] } else { jnull() })
            &&& (s.router.len() == 0 ==> o.0 == s && o.2 == SReply::Value(jnull()))
        }),
{
    lemma_api_names();
}

/// No api name the bridge services itself starts with these two
/// characters.
proof fn lemma_not_named(api: Seq<char>)
    requires
        api.len() >= 2,
        api[0] != 'l' && api[0] != 'u' && api[0] != 't' && api[0] != 'r' && api[0] != 'h',
        !(api[0] == 's' && api[1] == 't'),
    ensures
        api != "log"@, api != "ui.render"@, api != "ui.patch"@, api != "ui.surfaceInfo"@,
        api != "theme.set"@, api != "theme.get"@,
        api != "router.push"@, api != "router.replace"@, api != "router.pop"@, api != "router.current"@,
        api != "storage.get"@, api != "storage.set"@, api != "storage.remove"@, api != "storage.keys"@,
        api != "storage.clear"@, api != "time.now"@, api != "time.monotonic"@,
        api != "random.next"@, api != "random.bytes"@, api != "host.send"@, api != "host.request"@,
{
    lemma_api_names();
}

/// A call of an api in one of the imperative families (`anim.`, `canvas.`,
/// `scene3d.`, `media.`, `focus.`, `clipboard.`, `window.`) goes to the
/// backend as a command with the call's name and arguments, is answered
/// with the command's result, and changes nothing in the bridge.
pub proof fn lemma_backend_families(s: SServices, x: Seq<char>, args: Seq<DeepValue>, c: Option<u128>)
    ensures
        forall|p: Seq<char>| #![auto] (p == "anim."@ || p == "canvas."@ || p == "scene3d."@ || p == "media."@
            || p == "focus."@ || p == "clipboard."@ || p == "window."@)
            ==> dispatch_model(s, p + x, args, SDecoded::Plain, c)
                == (s, seq![SEffect::Command(p + x, args)], SReply::CommandResult),
{
    reveal_strlit("anim.");
    reveal_strlit("canvas.");
    reveal_strlit("scene3d.");
    reveal_strlit("media.");
    reveal_strlit("focus.");
    reveal_strlit("clipboard.");
    reveal_strlit("window.");
    assert forall|p: Seq<char>| #![auto] (p == "anim."@ || p == "canvas."@ || p == "scene3d."@ || p == "media."@
        || p == "focus."@ || p == "clipboard."@ || p == "window."@)
        implies dispatch_model(s, p + x, args, SDecoded::Plain, c)
            == (s, seq![SEffect::Command(p + x, args)], SReply::CommandResult) by {
        let api = p + x;
        assert(api[0] == p[0]);
        assert(api[1] == p[1]);
        lemma_not_named(api);
        assert(api.subrange(0, p.len() as int) =~= p);
        assert(has_prefix(api, p));
    }
}


/// A call of an api the bridge does not service, outside the imperative
/// families, is answered with `null` and changes nothing.
pub proof fn lemma_unknown_api_outside_families(s: SServices, api: Seq<char>, args: Seq<DeepValue>, c: Option<u128>)
    requires
        api != "log"@, api != "ui.render"@, api != "ui.patch"@, api != "ui.surfaceInfo"@,
        api != "theme.set"@, api != "theme.get"@,
        api != "router.push"@, api != "router.replace"@, api != "router.pop"@, api != "router.current"@,
        api != "storage.get"@, api != "storage.set"@, api != "storage.remove"@, api != "storage.keys"@,
        api != "storage.clear"@, api != "time.now"@, api != "time.monotonic"@,
        api != "random.next"@, api != "random.bytes"@, api != "host.send"@, api != "host.request"@,
        !has_prefix(api, "anim."@), !has_prefix(api, "canvas."@), !has_prefix(api, "scene3d."@),
        !has_prefix(api, "media."@), !has_prefix(api, "focus."@), !has_prefix(api, "clipboard."@),
        !has_prefix(api, "window."@),
    ensures
        dispatch_model(s, api, args, SDecoded::Plain, c) == (s, Seq::<SEffect>::empty(), SReply::Value(jnull())),
{
}

} // verus!
