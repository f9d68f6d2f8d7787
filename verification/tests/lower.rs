use elpis::canvas::CanvasSpec;
use elpis::float::F32;
use elpis::json::Json;
use elpis::lower::{dropdown_label, input_text, lower, BlincContent, BlincDom};
use elpis::node::{
    ButtonSpec, CarouselSpec, ComponentSpec, DropdownSpec, FontWeight, IconSpec, ImageSpec, InputSpec,
    MarkdownSpec, MediaSpec, Node, NodeKind, OptionItem, OverlaySpec, ProgressSpec, RadioSpec, RichTextSpec, ScrollSpec,
    SliderSpec, SpinnerSpec, SvgSpec, TabsSpec, TextAlign, TextSpec, ToggleSpec,
};
use elpis::scene3d::Scene3DSpec;
use elpis::style::{Brush, Color, CornerRadius, Display, FlexDirection, GlassMaterial, ImageFit, Overflow, Position};

fn f(x: f32) -> F32 {
    F32::from_bits(x.to_bits())
}

fn lift(e: F32) -> F32 {
    f(f32::from_bits(e.bits) * 0.4)
}

fn lower_tree(n: &Node) -> BlincDom {
    lower(n, &lift)
}

fn lower_kind_of(kind: NodeKind) -> BlincDom {
    lower_tree(&Node::new(kind))
}

#[test]
fn row_forces_row_direction() {
    let dom = lower_kind_of(NodeKind::Row);
    assert_eq!(dom.style.direction, FlexDirection::Row);
    assert!(matches!(dom.content, BlincContent::Container));
}

#[test]
fn column_forces_column_direction() {
    let dom = lower_kind_of(NodeKind::Column);
    assert_eq!(dom.style.direction, FlexDirection::Column);
}

#[test]
fn stack_forces_stack_display() {
    let dom = lower_kind_of(NodeKind::Stack);
    assert_eq!(dom.style.display, Display::Stack);
}

#[test]
fn scroll_sets_overflow() {
    let dom = lower_tree(&Node::new(NodeKind::Scroll(ScrollSpec {
        axis: "vertical".into(),
        snap: false,
        scroll_to: None,
    })));
    assert_eq!(dom.style.overflow_y, Some(Overflow::Scroll));
}

#[test]
fn style_maps_background_and_radius() {
    let mut n = Node::new(NodeKind::Div);
    n.style.background = Some(Brush::solid(Color::white()));
    n.style.radius = Some(CornerRadius::all(f(8.0)));
    n.style.border_width = Some(f(2.0));
    n.style.border_color = Some(Color::black());
    let dom = lower_tree(&n);
    assert!(dom.style.background.is_some());
    assert_eq!(dom.style.radius, Some(CornerRadius::all(f(8.0))));
    assert_eq!(dom.style.border, Some((f(2.0), Color::black())));
}

#[test]
fn overlay_is_fixed_positioned() {
    let dom = lower_tree(&Node::new(NodeKind::Overlay(OverlaySpec {
        layer: Some("modal".into()),
        backdrop: true,
        dismissible: true,
    })));
    assert_eq!(dom.style.position, Some(Position::Fixed));
}

#[test]
fn glass_material_expands_to_concrete_paint() {
    let mut n = Node::new(NodeKind::Div);
    n.style.glass_material = Some(GlassMaterial { elevation: f(24.0), ..GlassMaterial::default() });
    let dom = lower_tree(&n);
    assert!(dom.style.glass, "glass flag set");
    let fl = dom.style.filter.expect("filter synthesized");
    assert!(f32::from_bits(fl.backdrop_blur.bits) > 0.0, "backdrop blur applied");
    assert!(fl.saturate.is_some(), "saturation applied");
    assert!(dom.style.background.is_some(), "tint background applied");
    assert!(dom.style.border.is_some(), "specular rim applied");
    assert!(dom.style.radius.is_some(), "radius applied");
    assert_eq!(dom.style.shadows.len(), 1, "elevation shadow applied");
}

#[test]
fn glass_material_does_not_clobber_explicit_fields() {
    let mut n = Node::new(NodeKind::Div);
    n.style.glass_material = Some(GlassMaterial::default());
    n.style.background = Some(Brush::solid(Color::black()));
    let dom = lower_tree(&n);
    // The explicit background wins; glass only fills the gaps.
    assert_eq!(dom.style.background, Some(Brush::solid(Color::black())));
    assert!(dom.style.glass);
}

/// Every kind lowers without panicking and to the expected content.
#[test]
fn all_kinds_lower() {
    let kinds = vec![
        NodeKind::Div,
        NodeKind::Row,
        NodeKind::Column,
        NodeKind::Stack,
        NodeKind::Grid,
        NodeKind::Spacer,
        NodeKind::Scroll(ScrollSpec { axis: "both".into(), snap: true, scroll_to: None }),
        NodeKind::Overlay(OverlaySpec { layer: None, backdrop: false, dismissible: true }),
        NodeKind::Text(TextSpec {
            text: "x".into(),
            size: f(12.0),
            weight: FontWeight::Bold,
            font: None,
            italic: false,
            align: TextAlign::Center,
            underline: false,
            strikethrough: false,
            line_height: None,
            letter_spacing: None,
            max_lines: 0,
            selectable: false,
        }),
        NodeKind::RichText(RichTextSpec { runs: vec![], align: TextAlign::Start, line_height: None }),
        NodeKind::Markdown(MarkdownSpec { source: "# hi".into(), gfm: true }),
        NodeKind::Image(ImageSpec { src: "a.png".into(), fit: ImageFit::Cover, alt: None, placeholder: None }),
        NodeKind::Svg(SvgSpec { source: Some("<svg/>".into()), src: None, color: None }),
        NodeKind::Icon(IconSpec { name: "star".into(), size: f(24.0), color: None, set: None }),
        NodeKind::Button(ButtonSpec { label: "ok".into(), variant: None, disabled: false, icon: None, loading: false }),
        NodeKind::TextInput(InputSpec {
            value: "".into(),
            placeholder: None,
            input_type: None,
            disabled: false,
            readonly: false,
            max_length: None,
            autofocus: false,
        }),
        NodeKind::Checkbox(ToggleSpec { checked: true, label: None, disabled: false }),
        NodeKind::Switch(ToggleSpec { checked: false, label: None, disabled: false }),
        NodeKind::Radio(RadioSpec { options: vec![], selected: None, disabled: false }),
        NodeKind::Slider(SliderSpec { value: f(0.5), min: f(0.0), max: f(1.0), step: None, disabled: false, value_end: None }),
        NodeKind::Dropdown(DropdownSpec { options: vec![], selected: None, placeholder: None, disabled: false, multi: false }),
        NodeKind::Tabs(TabsSpec { tabs: vec![], selected: 0 }),
        NodeKind::Carousel(CarouselSpec { index: 0, indicators: true, autoplay: false, interval: f(0.0) }),
        NodeKind::ProgressBar(ProgressSpec { value: Some(f(0.3)), shape: None }),
        NodeKind::Spinner(SpinnerSpec { size: f(24.0), color: None }),
        NodeKind::Canvas(CanvasSpec::default()),
        NodeKind::Scene3D(Scene3DSpec::default()),
        NodeKind::Video(MediaSpec {
            src: "v.mp4".into(),
            autoplay: false,
            loop_: false,
            muted: false,
            controls: true,
            fit: ImageFit::Contain,
            seek: None,
        }),
        NodeKind::Audio(MediaSpec {
            src: "a.mp3".into(),
            autoplay: false,
            loop_: false,
            muted: false,
            controls: true,
            fit: ImageFit::Contain,
            seek: None,
        }),
        NodeKind::Component(ComponentSpec { name: "Card".into(), props: Json::Null }),
    ];
    // The full surface: 30 widget families.
    assert_eq!(kinds.len(), 30);
    for k in kinds {
        let dom = lower_tree(&Node::new(k));
        assert!(!dom.tag.is_empty());
    }
}

// ---- Further cases ---------------------------------------------------------

#[test]
fn elevation_shadow_is_lifted_and_tinted() {
    let mut n = Node::new(NodeKind::Div);
    n.style.glass_material = Some(GlassMaterial { elevation: f(10.0), ..GlassMaterial::default() });
    let dom = lower_tree(&n);
    let sh = dom.style.shadows[0];
    assert_eq!(f32::from_bits(sh.offset[1].bits), 10.0f32 * 0.4);
    assert_eq!(sh.offset[0].bits, 0);
    assert_eq!(f32::from_bits(sh.blur.bits), 10.0);
    assert_eq!(f32::from_bits(sh.color.a.bits), 0.28);
    // The default material has no elevation, so no shadow.
    let mut m = Node::new(NodeKind::Div);
    m.style.glass_material = Some(GlassMaterial::default());
    assert!(lower_tree(&m).style.shadows.is_empty());
}

#[test]
fn neutral_glass_brightness_is_not_applied() {
    let mut n = Node::new(NodeKind::Div);
    n.style.glass_material = Some(GlassMaterial::default());
    let fl = lower_tree(&n).style.filter.unwrap();
    assert!(fl.brightness.is_none());
    let mut m = Node::new(NodeKind::Div);
    m.style.glass_material = Some(GlassMaterial { brightness: f(1.2), ..GlassMaterial::default() });
    let fl = lower_tree(&m).style.filter.unwrap();
    assert_eq!(fl.brightness, Some(f(1.2)));
}

#[test]
fn scroll_axes() {
    let h = lower_kind_of(NodeKind::Scroll(ScrollSpec { axis: "horizontal".into(), snap: false, scroll_to: None }));
    assert_eq!(h.style.overflow_x, Some(Overflow::Scroll));
    assert_eq!(h.style.overflow_y, None);
    let b = lower_kind_of(NodeKind::Scroll(ScrollSpec { axis: "both".into(), snap: false, scroll_to: None }));
    assert_eq!(b.style.overflow_x, Some(Overflow::Scroll));
    assert_eq!(b.style.overflow_y, Some(Overflow::Scroll));
}

#[test]
fn toggles_and_media_are_told_apart() {
    let c = lower_kind_of(NodeKind::Checkbox(ToggleSpec { checked: true, label: None, disabled: false }));
    assert!(matches!(c.content, BlincContent::Toggle { toggle_kind: "checkbox", .. }));
    let a = lower_kind_of(NodeKind::Audio(MediaSpec {
        src: "a.mp3".into(),
        autoplay: false,
        loop_: false,
        muted: false,
        controls: true,
        fit: ImageFit::Contain,
        seek: None,
    }));
    assert!(matches!(a.content, BlincContent::Media { media_kind: "audio", .. }));
    assert_eq!(a.tag, "audio");
}

#[test]
fn children_are_lowered_in_order() {
    let n = Node::new(NodeKind::Column).with_children(vec![Node::new(NodeKind::Row), Node::new(NodeKind::Stack)]);
    let dom = lower_tree(&n);
    assert_eq!(dom.children.len(), 2);
    assert_eq!(dom.children[0].tag, "row");
    assert_eq!(dom.children[1].style.display, Display::Stack);
}

#[test]
fn border_without_color_is_black() {
    let mut n = Node::new(NodeKind::Div);
    n.style.border_width = Some(f(3.0));
    assert_eq!(lower_tree(&n).style.border, Some((f(3.0), Color::black())));
}

#[test]
fn input_shows_value_or_placeholder() {
    let mut i = InputSpec {
        value: "".into(),
        placeholder: Some("name".into()),
        input_type: None,
        disabled: false,
        readonly: false,
        max_length: None,
        autofocus: false,
    };
    assert_eq!(input_text(&i), "name");
    i.value = "ada".into();
    assert_eq!(input_text(&i), "ada");
    i.value = "".into();
    i.placeholder = None;
    assert_eq!(input_text(&i), "");
}

#[test]
fn dropdown_shows_the_selected_label() {
    let opt = |v: &str, l: &str| OptionItem { value: v.into(), label: l.into(), disabled: false };
    let mut d = DropdownSpec {
        options: vec![opt("a", "Apple"), opt("b", "Banana"), opt("b", "Blueberry")],
        selected: Some("b".into()),
        placeholder: Some("Pick".into()),
        disabled: false,
        multi: false,
    };
    assert_eq!(dropdown_label(&d), "Banana");
    d.selected = Some("z".into());
    assert_eq!(dropdown_label(&d), "Pick");
    d.placeholder = None;
    assert_eq!(dropdown_label(&d), "Select…");
}
