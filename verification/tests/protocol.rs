use elpis::diff::{apply, diff, Patch};
use elpis::float::F32;
use elpis::hostcall::{log_line, parse_or_string, take_payload, take_string, HostCall, Payload};
use elpis::json::{Json, JsonNumber};
use elpis::node::{FontWeight, ImageSpec, Node, NodeKind, TextAlign, TextSpec};
use elpis::style::{Brush, Color, GlassMaterial, ImageFit};

fn f(x: f32) -> F32 {
    F32::from_bits(x.to_bits())
}

fn text(key: &str, s: &str) -> Node {
    let mut n = Node::new(NodeKind::Text(TextSpec {
        text: s.to_string(),
        size: f(14.0),
        weight: FontWeight::Normal,
        font: None,
        italic: false,
        align: TextAlign::Start,
        underline: false,
        strikethrough: false,
        line_height: None,
        letter_spacing: None,
        max_lines: 0,
        selectable: false,
    }));
    n.key = Some(key.to_string());
    n
}

fn container(children: Vec<Node>) -> Node {
    Node::new(NodeKind::Div).with_children(children)
}

/// Applying the diff of two trees turns one into the other exactly.
fn assert_roundtrip(old: &Node, new: &Node) {
    let patches = diff(old, new);
    let mut work = old.clone();
    apply(&mut work, &patches).expect("apply must succeed");
    assert_eq!(&work, new, "patches:\n{patches:#?}");
}

fn json_to(v: &Json) -> serde_json::Value {
    match v {
        Json::Null => serde_json::Value::Null,
        Json::Bool(b) => serde_json::Value::Bool(*b),
        Json::Number(JsonNumber::PosInt(u)) => serde_json::Value::from(*u),
        Json::Number(JsonNumber::NegInt(i)) => serde_json::Value::from(*i),
        Json::Number(JsonNumber::Float(x)) => serde_json::Value::from(f64::from_bits(x.bits)),
        Json::Text(s) => serde_json::Value::String(s.clone()),
        Json::Array(a) => serde_json::Value::Array(a.iter().map(json_to).collect()),
        Json::Object(es) => serde_json::Value::Object(es.iter().map(|(k, x)| (k.clone(), json_to(x))).collect()),
    }
}

fn write_json(j: Json) -> String {
    json_to(&j).to_string()
}

fn json_from(v: &serde_json::Value) -> Json {
    match v {
        serde_json::Value::Null => Json::Null,
        serde_json::Value::Bool(b) => Json::Bool(*b),
        serde_json::Value::Number(n) => {
            if let Some(u) = n.as_u64() {
                Json::Number(JsonNumber::PosInt(u))
            } else if let Some(i) = n.as_i64() {
                Json::Number(JsonNumber::NegInt(i))
            } else {
                Json::Number(JsonNumber::Float(elpis::float::F64::from_bits(n.as_f64().unwrap().to_bits())))
            }
        }
        serde_json::Value::String(s) => Json::Text(s.clone()),
        serde_json::Value::Array(a) => Json::Array(a.iter().map(json_from).collect()),
        serde_json::Value::Object(m) => Json::Object(m.iter().map(|(k, v)| (k.clone(), json_from(v))).collect()),
    }
}

#[test]
fn identical_trees_produce_no_patches() {
    let a = container(vec![text("a", "hello")]);
    assert!(diff(&a, &a).is_empty());
}

#[test]
fn text_change_is_a_props_patch() {
    let a = container(vec![text("a", "hello")]);
    let b = container(vec![text("a", "world")]);
    let patches = diff(&a, &b);
    assert_eq!(patches.len(), 1);
    assert!(matches!(patches[0], Patch::Props { .. }));
    assert_roundtrip(&a, &b);
}

#[test]
fn style_change_is_a_style_patch() {
    let a = container(vec![text("a", "x")]);
    let mut b = a.clone();
    b.style.background = Some(Brush::solid(Color::white()));
    let patches = diff(&a, &b);
    assert_eq!(patches.len(), 1);
    assert!(matches!(patches[0], Patch::Style { .. }));
    assert_roundtrip(&a, &b);
}

#[test]
fn appending_a_child_is_an_insert() {
    let a = container(vec![text("a", "1")]);
    let b = container(vec![text("a", "1"), text("b", "2")]);
    let patches = diff(&a, &b);
    assert!(patches.iter().any(|p| matches!(p, Patch::Insert { .. })));
    assert_roundtrip(&a, &b);
}

#[test]
fn removing_a_child_is_a_remove() {
    let a = container(vec![text("a", "1"), text("b", "2")]);
    let b = container(vec![text("a", "1")]);
    assert_roundtrip(&a, &b);
}

#[test]
fn reordering_keyed_children_uses_moves() {
    let a = container(vec![text("a", "1"), text("b", "2"), text("c", "3")]);
    let b = container(vec![text("c", "3"), text("a", "1"), text("b", "2")]);
    let patches = diff(&a, &b);
    assert!(patches.iter().any(|p| matches!(p, Patch::Move { .. })));
    assert_roundtrip(&a, &b);
}

#[test]
fn keyed_insert_remove_and_update_together() {
    let a = container(vec![text("a", "1"), text("b", "2"), text("c", "3")]);
    // Remove b, update a, insert d at front, reorder.
    let b = container(vec![text("d", "4"), text("c", "3"), text("a", "9")]);
    assert_roundtrip(&a, &b);
}

#[test]
fn kind_change_forces_replace() {
    let a = container(vec![text("a", "1")]);
    let mut img = Node::new(NodeKind::Image(ImageSpec {
        src: "logo.png".into(),
        fit: ImageFit::Contain,
        alt: None,
        placeholder: None,
    }));
    img.key = Some("a".into());
    let b = container(vec![img]);
    let patches = diff(&a, &b);
    assert!(matches!(patches[0], Patch::Replace { .. }));
    assert_roundtrip(&a, &b);
}

#[test]
fn glass_material_roundtrips_and_diffs() {
    // A change to a glass material is a single style patch.
    let mut a = container(vec![text("a", "x")]);
    a.style.glass_material = Some(GlassMaterial::default());
    let mut b = a.clone();
    b.style.glass_material = Some(GlassMaterial { blur: f(40.0), ..GlassMaterial::default() });
    let patches = diff(&a, &b);
    assert_eq!(patches.len(), 1);
    assert!(matches!(patches[0], Patch::Style { .. }));
    assert_roundtrip(&a, &b);
}

#[test]
fn hostcall_parses_args() {
    let raw = r#"{"machineId":"m1","apiName":"ui.render","payload":[{"type":"div"}]}"#;
    let hc = HostCall::parse(raw, &write_json).unwrap();
    assert_eq!(hc.api_name, "ui.render");
    assert_eq!(hc.args().len(), 1);
}

// ---- Further cases ---------------------------------------------------------

#[test]
fn diff_of_unkeyed_lists_is_positional() {
    let a = container(vec![Node::new(NodeKind::Div), Node::new(NodeKind::Row), Node::new(NodeKind::Column)]);
    let b = container(vec![Node::new(NodeKind::Div), Node::new(NodeKind::Spacer)]);
    let patches = diff(&a, &b);
    assert_eq!(patches.len(), 2);
    assert!(matches!(&patches[0], Patch::Replace { path, .. } if path == &vec![1]));
    assert!(matches!(&patches[1], Patch::Remove { path, index: 2 } if path.is_empty()));
    assert_roundtrip(&a, &b);
}

#[test]
fn nested_change_has_the_child_path() {
    let a = container(vec![container(vec![text("x", "a")])]);
    let b = container(vec![container(vec![text("x", "b")])]);
    let patches = diff(&a, &b);
    assert_eq!(patches.len(), 1);
    assert!(matches!(&patches[0], Patch::Props { path, .. } if path == &vec![0, 0]));
    assert_roundtrip(&a, &b);
}

#[test]
fn duplicate_new_keys_still_have_a_script() {
    let a = container(vec![text("a", "1"), text("b", "2")]);
    let b = container(vec![text("b", "2"), text("a", "1"), text("a", "1")]);
    assert_roundtrip(&a, &b);
}

#[test]
fn keyed_child_keeps_its_identity_beside_an_unkeyed_sibling() {
    let sp = Node::new(NodeKind::Spacer);
    let a = container(vec![text("a", "1"), sp.clone()]);
    let b = container(vec![sp.clone(), text("a", "1")]);
    let patches = diff(&a, &b);
    assert!(!patches.iter().any(|p| matches!(p, Patch::Replace { .. } | Patch::Insert { .. })));
    assert_eq!(patches.len(), 1);
    assert!(matches!(&patches[0], Patch::Move { path, from: 0, index: 1 } if path.is_empty()));
    assert_roundtrip(&a, &b);
}

#[test]
fn keyed_child_is_found_among_unkeyed_ones() {
    let a = container(vec![Node::new(NodeKind::Spacer), text("a", "1"), Node::new(NodeKind::Div)]);
    let b = container(vec![text("a", "2"), Node::new(NodeKind::Spacer), Node::new(NodeKind::Div), Node::new(NodeKind::Row)]);
    let patches = diff(&a, &b);
    assert!(!patches.iter().any(|p| matches!(p, Patch::Replace { .. })));
    assert!(patches.iter().any(|p| matches!(p, Patch::Props { path, .. } if path == &vec![0])));
    assert_roundtrip(&a, &b);
}

#[test]
fn rotation_is_a_single_move() {
    let a = container(vec![text("a", "1"), text("b", "2"), text("c", "3")]);
    let b = container(vec![text("b", "2"), text("c", "3"), text("a", "1")]);
    let patches = diff(&a, &b);
    assert_eq!(patches.len(), 1);
    assert!(matches!(&patches[0], Patch::Move { path, from: 0, index: 2 } if path.is_empty()));
    assert_roundtrip(&a, &b);
}

#[test]
fn bringing_the_last_child_first_is_a_single_move() {
    let a = container(vec![text("a", "1"), text("b", "2"), text("c", "3")]);
    let b = container(vec![text("c", "3"), text("a", "1"), text("b", "2")]);
    let patches = diff(&a, &b);
    assert_eq!(patches.len(), 1);
    assert!(matches!(&patches[0], Patch::Move { path, from: 2, index: 0 } if path.is_empty()));
    assert_roundtrip(&a, &b);
}

#[test]
fn hex_color_takes_hex_digits_only() {
    assert_eq!(Color::hex_channels("#+ff"), None);
    assert_eq!(Color::hex_channels("+fff"), None);
    assert_eq!(Color::hex_channels("#336699cc"), Some((0x33, 0x66, 0x99, 0xcc)));
    assert_eq!(Color::hex_channels("#12345"), None);
    assert_eq!(Color::hex_channels("#ggg"), None);
    assert_eq!(Color::hex_channels("#fff"), Some((255, 255, 255, 255)));
}

#[test]
fn apply_reports_a_bad_path() {
    let mut t = container(vec![text("a", "1")]);
    let patches = vec![Patch::Remove { path: vec![0], index: 0 }];
    let r = apply(&mut t, &patches);
    assert_eq!(r, Err("remove index out of bounds".to_string()));
    let patches = vec![Patch::Remove { path: vec![0, 3], index: 0 }];
    assert_eq!(apply(&mut t, &patches), Err("path index 3 out of bounds".to_string()));
    let patches = vec![Patch::Remove { path: vec![12], index: 0 }];
    assert_eq!(apply(&mut t, &patches), Err("path index 12 out of bounds".to_string()));
}

#[test]
fn apply_keeps_the_patches_before_an_error() {
    let mut t = container(vec![text("a", "1"), text("b", "2")]);
    let patches = vec![
        Patch::Remove { path: vec![], index: 0 },
        Patch::Insert { path: vec![], index: 5, node: Box::new(text("c", "3")) },
    ];
    assert_eq!(apply(&mut t, &patches), Err("insert index out of bounds".to_string()));
    assert_eq!(t.children.len(), 1);
    assert_eq!(t.children[0].key.as_deref(), Some("b"));
}

#[test]
fn move_clamps_its_destination() {
    let mut t = container(vec![text("a", "1"), text("b", "2"), text("c", "3")]);
    let patches = vec![Patch::Move { path: vec![], from: 0, index: 9 }];
    assert_eq!(apply(&mut t, &patches), Ok(()));
    let keys: Vec<_> = t.children.iter().map(|c| c.key.clone().unwrap()).collect();
    assert_eq!(keys, vec!["b", "c", "a"]);
    let patches = vec![Patch::Move { path: vec![], from: 3, index: 0 }];
    assert_eq!(apply(&mut t, &patches), Err("move source out of bounds".to_string()));
}

#[test]
fn take_string_leaves_null_and_ignores_non_strings() {
    let parsed: serde_json::Value = serde_json::from_str(r#"{"a":"x","b":3}"#).unwrap();
    let mut v = json_from(&parsed);
    assert_eq!(take_string(&mut v, "a"), "x");
    assert_eq!(take_string(&mut v, "a"), "");
    assert_eq!(take_string(&mut v, "b"), "");
    assert_eq!(take_string(&mut v, "missing"), "");
    match v {
        Json::Object(es) => {
            assert_eq!(es.len(), 2);
            assert!(es.iter().all(|(_, x)| *x == Json::Null));
        }
        _ => panic!("still an object"),
    }
}

#[test]
fn args_of_a_single_value_and_of_nothing() {
    assert_eq!(HostCall::args_from(Some(Json::Bool(true))), vec![Json::Bool(true)]);
    assert!(HostCall::args_from(None).is_empty());
    let args = vec![Json::Null, Json::Bool(false)];
    assert_eq!(HostCall::arg_from(args, 1), Some(Json::Bool(false)));
    assert_eq!(HostCall::arg_from(vec![], 0), None);
}

#[test]
fn hostcall_takes_a_string_payload_and_reports_bad_json() {
    let raw = r#"{"apiName":"log","payload":"[1, \"x\"]","machineId":"m2"}"#;
    let hc = HostCall::parse(raw, &write_json).unwrap();
    assert_eq!(hc.machine_id, "m2");
    assert_eq!(hc.payload, "[1, \"x\"]");
    let args = hc.args();
    assert_eq!(args.len(), 2);
    assert!(matches!(&args[1], Json::Text(t) if t == "x"));
    assert!(matches!(hc.arg(0), Some(Json::Number(JsonNumber::PosInt(1)))));
    assert!(hc.arg(2).is_none());
    assert!(HostCall::parse("{not json", &write_json).is_none());
    let bare = HostCall::parse(r#"{"apiName":7}"#, &write_json).unwrap();
    assert_eq!(bare.api_name, "");
    assert_eq!(bare.payload, "");
    assert!(bare.args().is_empty());
}

#[test]
fn a_single_payload_value_is_one_argument() {
    let hc = HostCall::new(String::new(), String::new(), "{\"a\":true}".to_string());
    let args = hc.args();
    assert_eq!(args.len(), 1);
    assert!(matches!(&args[0], Json::Object(es) if es.len() == 1));
}

#[test]
fn stored_text_is_read_back_as_json_or_as_a_string() {
    assert!(matches!(parse_or_string("[1,2]"), Json::Array(a) if a.len() == 2));
    assert!(matches!(parse_or_string("plain words"), Json::Text(t) if t == "plain words"));
}

#[test]
fn mixed_list_with_a_repeated_key_is_diffed_by_position() {
    let u = Node::new(NodeKind::Spacer);
    let a = container(vec![text("k", "1"), u.clone(), text("k", "1")]);
    let b = container(vec![u.clone(), text("k", "1")]);
    assert_roundtrip(&a, &b);
    let c = container(vec![u.clone(), text("k", "1"), text("k", "1")]);
    let patches = diff(&c, &b);
    assert_eq!(patches.len(), 1);
    assert!(matches!(&patches[0], Patch::Remove { path, index: 2 } if path.is_empty()));
    assert_roundtrip(&c, &b);
}

#[test]
fn log_line_joins_strings_raw_and_other_values_as_json() {
    let args = vec![Json::Text("hello".to_string()), Json::Number(JsonNumber::PosInt(3)), Json::Text("a b".to_string()), Json::Null];
    assert_eq!(log_line(&args, &write_json), "hello 3 a b null");
    assert_eq!(log_line(&[], &write_json), "");
}
