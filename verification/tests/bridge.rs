use elpis::backend::{HeadlessBackend, SurfaceInfo};
use elpis::bridge::{decoding, is_backend_channel, str_eq, Decoded, Decoding, Effect, Reply, Services};
use elpis::diff::Patch;
use elpis::event::UiEvent;
use elpis::float::F32;
use elpis::hostcall::reply;
use elpis::json::{Json, JsonNumber};
use elpis::node::{Node, NodeKind};
use elpis::sandbox::{Capability, SandboxConfig};

fn text(s: &str) -> Json {
    Json::Text(s.to_string())
}

fn call(s: &mut Services, api: &str, args: Vec<Json>) -> (Vec<Effect>, Reply) {
    let step = s.dispatch(api, &args, Decoded::Plain);
    (step.effects, step.reply)
}

fn ok_json() -> Json {
    Json::Object(vec![("ok".to_string(), Json::Bool(true))])
}

fn err_json(msg: &str) -> Json {
    Json::Object(vec![("error".to_string(), text(msg)), ("ok".to_string(), Json::Bool(false))])
}

#[test]
fn storage_set_then_get_gives_the_value() {
    let mut s = Services::new();
    let (_, r) = call(&mut s, "storage.set", vec![text("greeting"), text("hello")]);
    assert!(matches!(r, Reply::Value(v) if v == ok_json()));
    let (e, r) = call(&mut s, "storage.get", vec![text("greeting")]);
    assert!(e.is_empty());
    assert!(matches!(r, Reply::Stored(v) if v == text("hello")));
    let (_, r) = call(&mut s, "storage.get", vec![text("other")]);
    assert!(matches!(r, Reply::Value(Json::Null)));
}

#[test]
fn storage_overwrite_remove_keys_and_clear() {
    let mut s = Services::new();
    call(&mut s, "storage.set", vec![text("a"), Json::Number(JsonNumber::PosInt(1))]);
    call(&mut s, "storage.set", vec![text("b"), Json::Bool(true)]);
    call(&mut s, "storage.set", vec![text("a"), Json::Number(JsonNumber::PosInt(2))]);
    let (_, r) = call(&mut s, "storage.keys", vec![]);
    assert!(matches!(r, Reply::Value(v) if v == Json::Array(vec![text("a"), text("b")])));
    let (_, r) = call(&mut s, "storage.get", vec![text("a")]);
    assert!(matches!(r, Reply::Stored(v) if v == Json::Number(JsonNumber::PosInt(2))));
    call(&mut s, "storage.remove", vec![text("a")]);
    let (_, r) = call(&mut s, "storage.get", vec![text("a")]);
    assert!(matches!(r, Reply::Value(Json::Null)));
    call(&mut s, "storage.clear", vec![]);
    let (_, r) = call(&mut s, "storage.keys", vec![]);
    assert!(matches!(r, Reply::Value(v) if v == Json::Array(vec![])));
    // A missing value is stored as null.
    call(&mut s, "storage.set", vec![text("n")]);
    let (_, r) = call(&mut s, "storage.get", vec![text("n")]);
    assert!(matches!(r, Reply::Stored(Json::Null)));
}

#[test]
fn router_push_replace_pop_current() {
    let mut s = Services::new();
    let (e, r) = call(&mut s, "router.push", vec![text("home")]);
    assert!(matches!(&e[..], [Effect::Command(c, a)] if c == "router.push" && a == &vec![text("home")]));
    assert!(matches!(r, Reply::Value(v) if v == text("home")));
    call(&mut s, "router.push", vec![text("detail")]);
    let (_, r) = call(&mut s, "router.replace", vec![text("settings")]);
    assert!(matches!(r, Reply::Value(v) if v == text("settings")));
    let (_, r) = call(&mut s, "router.pop", vec![]);
    assert!(matches!(r, Reply::Value(v) if v == text("settings")));
    let (_, r) = call(&mut s, "router.current", vec![]);
    assert!(matches!(r, Reply::Value(v) if v == text("home")));
    call(&mut s, "router.pop", vec![]);
    let (_, r) = call(&mut s, "router.pop", vec![]);
    assert!(matches!(r, Reply::Value(Json::Null)));
    let (_, r) = call(&mut s, "router.replace", vec![text("x")]);
    assert!(matches!(r, Reply::Value(v) if v == text("x")));
    assert_eq!(s.router, vec![text("x")]);
}

#[test]
fn host_send_reaches_the_outbox() {
    let mut s = Services::new();
    let (_, r) = call(&mut s, "host.send", vec![text("nav"), Json::Object(vec![("route".to_string(), text("home"))])]);
    assert!(matches!(r, Reply::Value(v) if v == ok_json()));
    assert_eq!(s.outbox.len(), 1);
    assert_eq!(s.outbox[0].channel, "nav");
}

#[test]
fn host_request_and_backend_channels_reply_with_the_command_result() {
    let mut s = Services::new();
    let (e, r) = call(&mut s, "host.request", vec![text("pay"), Json::Bool(true), Json::Null]);
    assert!(matches!(r, Reply::CommandResult));
    assert!(matches!(&e[..], [Effect::Command(c, a)] if c == "pay" && a == &vec![Json::Bool(true), Json::Null]));
    let (e, r) = call(&mut s, "anim.start", vec![text("x")]);
    assert!(matches!(r, Reply::CommandResult));
    assert!(matches!(&e[..], [Effect::Command(c, _)] if c == "anim.start"));
    let (e, r) = call(&mut s, "nothing.here", vec![text("x")]);
    assert!(e.is_empty());
    assert!(matches!(r, Reply::Value(Json::Null)));
}

#[test]
fn theme_set_and_get() {
    let mut s = Services::new();
    let (_, r) = call(&mut s, "theme.get", vec![]);
    assert!(matches!(r, Reply::Value(Json::Null)));
    let (e, _) = call(&mut s, "theme.set", vec![text("dark")]);
    assert!(matches!(&e[..], [Effect::SetTheme(t)] if *t == text("dark")));
    let (_, r) = call(&mut s, "theme.get", vec![]);
    assert!(matches!(r, Reply::Value(v) if v == text("dark")));
}

#[test]
fn render_mounts_then_patches() {
    let mut s = Services::new();
    let first = Node::new(NodeKind::Column);
    let step = s.dispatch("ui.render", &[], Decoded::Tree(Ok(first)));
    assert!(matches!(&step.effects[..], [Effect::Mount(_)]));
    assert!(matches!(step.reply, Reply::Value(v) if v == ok_json()));
    assert_eq!(s.frames, 1);
    // The same tree again: no patches, no effect.
    let step = s.dispatch("ui.render", &[], Decoded::Tree(Ok(Node::new(NodeKind::Column))));
    assert!(step.effects.is_empty());
    assert_eq!(s.frames, 2);
    // A changed tree: one patch batch.
    let second = Node::new(NodeKind::Column).with_children(vec![Node::new(NodeKind::Div)]);
    assert!(s.can_render());
    let step = s.dispatch("ui.render", &[], Decoded::Tree(Ok(second)));
    assert!(matches!(&step.effects[..], [Effect::Patch(_, ps)] if ps.len() == 1));
    assert_eq!(s.frames, 3);
    assert_eq!(s.retained.as_ref().unwrap().children.len(), 1);
    // A tree that did not decode.
    let step = s.dispatch("ui.render", &[], Decoded::Tree(Err("bad".to_string())));
    assert!(matches!(step.reply, Reply::Value(v) if v == err_json("invalid ui tree: bad")));
    assert_eq!(s.frames, 3);
}

#[test]
fn guest_patches_apply_to_the_retained_tree() {
    let mut s = Services::new();
    let step = s.dispatch("ui.patch", &[], Decoded::Patches(Ok(vec![])));
    assert!(matches!(step.reply, Reply::Value(v) if v == err_json("no tree mounted yet")));
    s.dispatch("ui.render", &[], Decoded::Tree(Ok(Node::new(NodeKind::Row))));
    let patches = vec![Patch::Insert { path: vec![], index: 0, node: Box::new(Node::new(NodeKind::Div)) }];
    let step = s.dispatch("ui.patch", &[], Decoded::Patches(Ok(patches)));
    assert!(matches!(step.reply, Reply::Value(v) if v == ok_json()));
    assert!(matches!(&step.effects[..], [Effect::Patch(t, _)] if t.children.len() == 1));
    let bad = vec![Patch::Remove { path: vec![], index: 4 }];
    let step = s.dispatch("ui.patch", &[], Decoded::Patches(Ok(bad)));
    assert!(matches!(step.reply, Reply::Value(v) if v == err_json("patch failed: remove index out of bounds")));
    let step = s.dispatch("ui.patch", &[], Decoded::Patches(Err("oops".to_string())));
    assert!(matches!(step.reply, Reply::Value(v) if v == err_json("invalid patches: oops")));
}

#[test]
fn random_numbers_are_unit_fractions_and_bytes_are_capped() {
    let mut s = Services::new();
    for _ in 0..100 {
        let (_, r) = call(&mut s, "random.next", vec![]);
        match r {
            Reply::Value(Json::Number(JsonNumber::Float(x))) => {
                let v = f64::from_bits(x.bits);
                assert!((0.0..1.0).contains(&v), "{v}");
                // The value is a multiple of 2^-53.
                assert_eq!((v * 9007199254740992.0).fract(), 0.0);
            }
            other => panic!("unexpected {other:?}"),
        }
    }
    let (_, r) = call(&mut s, "random.bytes", vec![Json::Number(JsonNumber::PosInt(5))]);
    assert!(matches!(r, Reply::Value(Json::Array(a)) if a.len() == 5));
    let (_, r) = call(&mut s, "random.bytes", vec![]);
    assert!(matches!(r, Reply::Value(Json::Array(a)) if a.len() == 16));
    let (_, r) = call(&mut s, "random.bytes", vec![Json::Number(JsonNumber::PosInt(100000))]);
    match r {
        Reply::Value(Json::Array(a)) => {
            assert_eq!(a.len(), 4096);
            assert!(a.iter().all(|b| matches!(b, Json::Number(JsonNumber::PosInt(n)) if *n < 256)));
        }
        other => panic!("unexpected {other:?}"),
    }
}

#[test]
fn clock_replies_carry_milliseconds() {
    let mut s = Services::new();
    let (_, r) = call(&mut s, "time.now", vec![]);
    match r {
        Reply::Value(Json::Object(es)) => {
            assert_eq!(es.len(), 1);
            assert_eq!(es[0].0, "ms");
            assert!(matches!(es[0].1, Json::Number(JsonNumber::PosInt(ms)) if ms > 1_600_000_000_000));
        }
        other => panic!("unexpected {other:?}"),
    }
    let (_, r) = call(&mut s, "time.monotonic", vec![]);
    assert!(matches!(r, Reply::Value(Json::Object(es)) if es[0].0 == "ms"));
}

#[test]
fn log_and_surface() {
    let mut s = Services::new();
    let (e, r) = call(&mut s, "log", vec![text("hi"), Json::Bool(true)]);
    assert!(matches!(&e[..], [Effect::Log(a)] if a.len() == 2));
    assert!(matches!(r, Reply::Value(Json::Null)));
    let (_, r) = call(&mut s, "ui.surfaceInfo", vec![]);
    assert!(matches!(r, Reply::Surface(None)));
    s.surface_override = Some(SurfaceInfo::default());
    let (_, r) = call(&mut s, "ui.surfaceInfo", vec![]);
    assert!(matches!(r, Reply::Surface(Some(si)) if si.width.bits == 800.0f32.to_bits()));
}

#[test]
fn decodings_and_channels() {
    assert_eq!(decoding("ui.render"), Decoding::Tree);
    assert_eq!(decoding("ui.patch"), Decoding::Patches);
    assert_eq!(decoding("ui.renderer"), Decoding::Plain);
    assert!(is_backend_channel("canvas.draw"));
    assert!(is_backend_channel("window."));
    assert!(!is_backend_channel("window"));
    assert!(!is_backend_channel("storage.get"));
    assert!(str_eq("héllo", "héllo"));
    assert!(!str_eq("héllo", "hello"));
}

#[test]
fn headless_backend_records_activity() {
    let mut b = HeadlessBackend::new();
    assert_eq!(f32::from_bits(b.surface_info().height.bits), 600.0);
    b.mount(&Node::new(NodeKind::Div));
    b.patch(&Node::new(NodeKind::Row), &[Patch::Remove { path: vec![], index: 0 }]);
    assert_eq!(b.mounts, 1);
    assert_eq!(b.patch_batches, 1);
    assert_eq!(b.total_patches, 1);
    b.push_event(UiEvent::click("inc".to_string()));
    let evs = b.drain_events();
    assert_eq!(evs.len(), 1);
    assert_eq!(evs[0].kind, "click");
    assert!(b.drain_events().is_empty());
    let r = b.command("media.play", &[text("a")]);
    assert_eq!(r, ok_json());
    assert_eq!(b.commands.len(), 1);
    let s = SurfaceInfo { width: F32::from_bits(1024.0f32.to_bits()), height: F32::from_bits(768.0f32.to_bits()), scale_factor: F32::from_bits(2.0f32.to_bits()) };
    assert_eq!(HeadlessBackend::with_surface(s).surface_info().width.bits, 1024.0f32.to_bits());
}

#[test]
fn replies_and_config() {
    assert_eq!(reply::null(), "null");
    assert_eq!(reply::ok(), ok_json());
    assert_eq!(reply::err("x".to_string()), err_json("x"));
    assert_eq!(
        reply::data(Json::Bool(false)),
        Json::Object(vec![("data".to_string(), Json::Bool(false)), ("ok".to_string(), Json::Bool(true))])
    );
    let c = SandboxConfig::default();
    assert_eq!(c.id, "elpis-instance");
    assert_eq!(c.max_settle_iterations, 64);
    assert_eq!(c.capabilities(), vec![Capability::Logging, Capability::Clock, Capability::Randomness, Capability::Other]);
    let mut d = SandboxConfig::new("x".to_string());
    d.allow_network = true;
    d.allow_module_import = true;
    assert_eq!(
        d.capabilities(),
        vec![Capability::Logging, Capability::Clock, Capability::Randomness, Capability::Other, Capability::Network, Capability::ModuleImport]
    );
}
