//! Lowering: map a [`Node`] tree onto a [`BlincDom`], a normalized,
//! blinc-flavored description of the builder calls the Blinc backend makes.
//!
//! Every node kind has an arm; every style attribute is carried over with
//! the layout defaults its kind implies; a liquid-glass material is expanded
//! into concrete paint wherever the guest did not set that paint itself.
//!
//! The one floating-point product of the mapping, the vertical offset of the
//! shadow a glass elevation casts, is computed by the caller's `lift`.

use vstd::prelude::*;
use crate::facet::Facet;
use crate::float::F32;
use crate::animation::Animation;
use crate::canvas::CanvasSpec;
use crate::scene3d::Scene3DSpec;
use crate::node::{
    ButtonSpec, CarouselSpec, ComponentSpec, DropdownSpec, EventMap, IconSpec, ImageSpec, InputSpec,
    MarkdownSpec, MediaSpec, Node, NodeKind, OptionItem, OverlaySpec, ProgressSpec, RadioSpec, RichTextSpec,
    ScrollSpec, SliderSpec, SpinnerSpec, SvgSpec, TabsSpec, TextSpec, ToggleSpec,
};
use crate::style::{
    Align, Brush, Color, CornerRadius, Display, Edges, Filter, FlexDirection, GlassMaterial, Justify,
    Length, Overflow, Position, Shadow, Style, Transform,
};

verus! {

/// A resolved, blinc-flavored style: display and direction always resolved
/// (a `Row` node forces a row direction, a `Stack` node stack display, ...).
#[derive(Debug)]
pub struct BlincStyle {
    pub display: Display,
    pub direction: FlexDirection,
    pub align_items: Option<Align>,
    pub align_self: Option<Align>,
    pub justify: Option<Justify>,
    pub gap: Option<F32>,
    pub row_gap: Option<F32>,
    pub column_gap: Option<F32>,
    pub padding: Option<Edges>,
    pub margin: Option<Edges>,
    pub width: Option<Length>,
    pub height: Option<Length>,
    pub min_width: Option<Length>,
    pub min_height: Option<Length>,
    pub max_width: Option<Length>,
    pub max_height: Option<Length>,
    pub flex_grow: Option<F32>,
    pub flex_shrink: Option<F32>,
    pub flex_basis: Option<Length>,
    pub wrap: bool,
    pub grid_template_columns: Option<String>,
    pub grid_template_rows: Option<String>,
    pub grid_column: Option<String>,
    pub grid_row: Option<String>,
    pub position: Option<Position>,
    pub inset: Option<Edges>,
    pub z_index: Option<i32>,
    pub overflow_x: Option<Overflow>,
    pub overflow_y: Option<Overflow>,
    pub background: Option<Brush>,
    pub foreground: Option<Color>,
    pub border: Option<(F32, Color)>,
    pub radius: Option<CornerRadius>,
    pub shadows: Vec<Shadow>,
    pub opacity: Option<F32>,
    pub transform: Option<Transform>,
    pub filter: Option<Filter>,
    pub glass: bool,
    pub cursor: Option<String>,
    pub classes: Vec<String>,
    pub css: Option<String>,
}

impl Default for BlincStyle {
    /// A flex row with nothing else set.
    fn default() -> (b: BlincStyle)
        ensures
            b.display == Display::Flex,
            b.direction == FlexDirection::Row,
            b.align_items is None && b.align_self is None && b.justify is None,
            b.gap is None && b.row_gap is None && b.column_gap is None,
            b.padding is None && b.margin is None,
            b.width is None && b.height is None,
            b.min_width is None && b.min_height is None && b.max_width is None && b.max_height is None,
            b.flex_grow is None && b.flex_shrink is None && b.flex_basis is None,
            !b.wrap,
            b.grid_template_columns is None && b.grid_template_rows is None,
            b.grid_column is None && b.grid_row is None,
            b.position is None && b.inset is None && b.z_index is None,
            b.overflow_x is None && b.overflow_y is None,
            b.background is None && b.foreground is None && b.border is None && b.radius is None,
            b.shadows@.len() == 0,
            b.opacity is None && b.transform is None && b.filter is None,
            !b.glass,
            b.cursor is None,
            b.classes@.len() == 0,
            b.css is None,
    {
        BlincStyle {
            display: Display::Flex,
            direction: FlexDirection::Row,
            align_items: None,
            align_self: None,
            justify: None,
            gap: None,
            row_gap: None,
            column_gap: None,
            padding: None,
            margin: None,
            width: None,
            height: None,
            min_width: None,
            min_height: None,
            max_width: None,
            max_height: None,
            flex_grow: None,
            flex_shrink: None,
            flex_basis: None,
            wrap: false,
            grid_template_columns: None,
            grid_template_rows: None,
            grid_column: None,
            grid_row: None,
            position: None,
            inset: None,
            z_index: None,
            overflow_x: None,
            overflow_y: None,
            background: None,
            foreground: None,
            border: None,
            radius: None,
            shadows: Vec::new(),
            opacity: None,
            transform: None,
            filter: None,
            glass: false,
            cursor: None,
            classes: Vec::new(),
            css: None,
        }
    }
}

/// The per-kind content of a lowered node (everything that is not layout
/// or paint).
#[derive(Debug)]
pub enum BlincContent {
    /// A pure container (`div`, `row`, `column`, `stack`, `grid`, `spacer`).
    Container,
    Scroll(ScrollSpec),
    Overlay(OverlaySpec),
    Text(TextSpec),
    RichText(RichTextSpec),
    Markdown(MarkdownSpec),
    Image(ImageSpec),
    Svg(SvgSpec),
    Icon(IconSpec),
    Button(ButtonSpec),
    Input(InputSpec),
    /// Checkbox or switch (told apart by `toggle_kind`).
    Toggle { spec: ToggleSpec, toggle_kind: &'static str },
    Radio(RadioSpec),
    Slider(SliderSpec),
    Dropdown(DropdownSpec),
    Tabs(TabsSpec),
    Carousel(CarouselSpec),
    Progress(ProgressSpec),
    Spinner(SpinnerSpec),
    Canvas(CanvasSpec),
    Scene3D(Scene3DSpec),
    /// Video or audio (told apart by `media_kind`).
    Media { spec: MediaSpec, media_kind: &'static str },
    Component(ComponentSpec),
}

/// A lowered node: a blinc-flavored element ready for the builder
/// interpreter.
#[derive(Debug)]
pub struct BlincDom {
    pub tag: &'static str,
    pub style: BlincStyle,
    pub content: BlincContent,
    pub events: EventMap,
    pub animations: Vec<Animation>,
    pub children: Vec<BlincDom>,
}

// ---------------------------------------------------------------------------
// The mapping, as a specification.
// ---------------------------------------------------------------------------

/// A float that is greater than zero: positive, finite or infinite, not NaN.
pub open spec fn f32_positive(bits: u32) -> bool {
    0 < bits && bits <= 0x7f80_0000u32
}

/// A float `x` for which `|x - 1.0| > f32::EPSILON`: every value but NaN and
/// the four nearest `1.0` (from `1 - 2^-23` to `1 + 2^-23`); near `1.0` the
/// subtraction is exact.
pub open spec fn differs_from_one(bits: u32) -> bool {
    &&& !crate::float::f32_is_nan(bits)
    &&& bits != 0x3f7f_fffeu32
    &&& bits != 0x3f7f_ffffu32
    &&& bits != 0x3f80_0000u32
    &&& bits != 0x3f80_0001u32
}

/// Opaque black.
pub open spec fn black() -> Color {
    Color { r: F32 { bits: 0 }, g: F32 { bits: 0 }, b: F32 { bits: 0 }, a: F32 { bits: 0x3f80_0000u32 } }
}

/// The shadow color of a glass elevation: black at 0.28 alpha.
pub open spec fn elevation_color() -> Color {
    Color { r: F32 { bits: 0 }, g: F32 { bits: 0 }, b: F32 { bits: 0 }, a: F32 { bits: 0x3e8f_5c29u32 } }
}

/// A filter with nothing set.
pub open spec fn no_filter() -> Filter {
    Filter {
        blur: F32 { bits: 0 },
        backdrop_blur: F32 { bits: 0 },
        brightness: None,
        contrast: None,
        saturate: None,
        grayscale: None,
        hue_rotate: None,
    }
}

/// The display a kind implies where the style sets none.
pub open spec fn kind_display(k: NodeKind, d: Option<Display>) -> Display {
    match d {
        Some(x) => x,
        None => match k {
            NodeKind::Stack => Display::Stack,
            NodeKind::Grid => Display::Grid,
            _ => Display::Flex,
        },
    }
}

/// The direction a kind implies where the style sets none.
pub open spec fn kind_direction(k: NodeKind, d: Option<FlexDirection>) -> FlexDirection {
    match d {
        Some(x) => x,
        None => match k {
            NodeKind::Column => FlexDirection::Column,
            _ => FlexDirection::Row,
        },
    }
}

/// The border a style asks for: its width with its color, or black.
pub open spec fn style_border(s: Style) -> Option<(F32, Color)> {
    match (s.border_width, s.border_color) {
        (Some(w), Some(c)) => Some((w, c)),
        (Some(w), None) => Some((w, black())),
        _ => None,
    }
}

/// A filter with a glass material's gaps filled: the backdrop blur where
/// it is zero, the saturation where unset, and the brightness where unset
/// and the material's differs from neutral.
pub open spec fn glass_filter(f: Option<Filter>, g: GlassMaterial) -> Filter {
    let f0 = match f {
        Some(x) => x,
        None => no_filter(),
    };
    Filter {
        backdrop_blur: if crate::float::f32_is_zero(f0.backdrop_blur.bits) { g.blur } else { f0.backdrop_blur },
        saturate: if f0.saturate is None { Some(g.saturate) } else { f0.saturate },
        brightness: if f0.brightness is None && differs_from_one(g.brightness.bits) { Some(g.brightness) } else { f0.brightness },
        ..f0
    }
}

/// The shadow a glass elevation `e` casts: straight down by `lift(e)`,
/// blurred by `e`.
pub open spec fn elevation_shadow<F: Fn(F32) -> F32>(sh: Shadow, e: F32, lift: F) -> bool {
    &&& sh.offset@[0].bits == 0
    &&& call_ensures(lift, (e,), sh.offset@[1])
    &&& sh.blur == e
    &&& sh.spread.bits == 0
    &&& sh.color == elevation_color()
    &&& !sh.inset
}

/// `b` is the style `s` resolved for kind `k`, with the given position and
/// overflows.
pub open spec fn style_as<F: Fn(F32) -> F32>(s: Style, k: NodeKind, b: BlincStyle, lift: F,
    position: Option<Position>, overflow_x: Option<Overflow>, overflow_y: Option<Overflow>) -> bool
{
    &&& b.display == kind_display(k, s.display)
    &&& b.direction == kind_direction(k, s.direction)
    &&& b.align_items == s.align_items
    &&& b.align_self == s.align_self
    &&& b.justify == s.justify_content
    &&& b.gap == s.gap
    &&& b.row_gap == s.row_gap
    &&& b.column_gap == s.column_gap
    &&& b.padding == s.padding
    &&& b.margin == s.margin
    &&& b.width == s.width
    &&& b.height == s.height
    &&& b.min_width == s.min_width
    &&& b.min_height == s.min_height
    &&& b.max_width == s.max_width
    &&& b.max_height == s.max_height
    &&& b.flex_grow == s.flex_grow
    &&& b.flex_shrink == s.flex_shrink
    &&& b.flex_basis == s.flex_basis
    &&& b.wrap == (s.wrap == Some(true))
    &&& b.grid_template_columns == s.grid_template_columns
    &&& b.grid_template_rows == s.grid_template_rows
    &&& b.grid_column == s.grid_column
    &&& b.grid_row == s.grid_row
    &&& b.position == position
    &&& b.inset == s.inset
    &&& b.z_index == s.z_index
    &&& b.overflow_x == overflow_x
    &&& b.overflow_y == overflow_y
    &&& b.foreground == s.foreground
    &&& b.opacity == s.opacity
    &&& b.transform == s.transform
    &&& b.cursor == s.cursor
    &&& b.classes@ == s.classes@
    &&& b.css == s.css
    &&& match s.glass_material {
        None => {
            &&& b.glass == (s.glass == Some(true))
            &&& b.filter == s.filter
            &&& b.background.deep() == s.background.deep()
            &&& b.border == style_border(s)
            &&& b.radius == s.radius
            &&& b.shadows@ == s.shadows@
        },
        Some(g) => {
            &&& b.glass
            &&& b.filter == Some(glass_filter(s.filter, g))
            &&& b.background.deep() == (if s.background is None { Some(Brush::Solid { color: g.tint }) } else { s.background }).deep()
            &&& b.border == (if style_border(s) is None && f32_positive(g.rim_width.bits) { Some((g.rim_width, g.rim)) } else { style_border(s) })
            &&& b.radius == (if s.radius is None && f32_positive(g.radius.bits) {
                Some(CornerRadius { tl: g.radius, tr: g.radius, br: g.radius, bl: g.radius }) } else { s.radius })
            &&& if f32_positive(g.elevation.bits) && s.shadows@.len() == 0 {
                b.shadows@.len() == 1 && elevation_shadow(b.shadows@[0], g.elevation, lift)
            } else {
                b.shadows@ == s.shadows@
            }
        },
    }
}

/// `b` is the style `s` resolved for kind `k`.
pub open spec fn style_resolved<F: Fn(F32) -> F32>(s: Style, k: NodeKind, b: BlincStyle, lift: F) -> bool {
    style_as(s, k, b, lift, s.position, s.overflow_x, s.overflow_y)
}

/// The position a kind forces: an overlay is fixed.
pub open spec fn kind_position(k: NodeKind, p: Option<Position>) -> Option<Position> {
    match k {
        NodeKind::Overlay(_) => Some(Position::Fixed),
        _ => p,
    }
}

/// The horizontal overflow a kind forces: a horizontal or two-way scroll
/// viewport scrolls.
pub open spec fn kind_overflow_x(k: NodeKind, o: Option<Overflow>) -> Option<Overflow> {
    match k {
        NodeKind::Scroll(sp) => if sp.axis@ == "horizontal"@ || sp.axis@ == "both"@ { Some(Overflow::Scroll) } else { o },
        _ => o,
    }
}

/// The vertical overflow a kind forces: a scroll viewport on any axis but
/// the horizontal one scrolls.
pub open spec fn kind_overflow_y(k: NodeKind, o: Option<Overflow>) -> Option<Overflow> {
    match k {
        NodeKind::Scroll(sp) => if sp.axis@ == "horizontal"@ { o } else { Some(Overflow::Scroll) },
        _ => o,
    }
}

/// The lowered content of a kind: its spec under the matching content,
/// containers for the pure layout kinds.
pub open spec fn content_of(k: NodeKind, c: BlincContent) -> bool {
    match k {
        NodeKind::Div => c is Container,
        NodeKind::Row => c is Container,
        NodeKind::Column => c is Container,
        NodeKind::Stack => c is Container,
        NodeKind::Grid => c is Container,
        NodeKind::Spacer => c is Container,
        NodeKind::Scroll(s) => c matches BlincContent::Scroll(x) && x.deep() == s.deep(),
        NodeKind::Overlay(s) => c matches BlincContent::Overlay(x) && x.deep() == s.deep(),
        NodeKind::Text(s) => c matches BlincContent::Text(x) && x.deep() == s.deep(),
        NodeKind::RichText(s) => c matches BlincContent::RichText(x) && x.deep() == s.deep(),
        NodeKind::Markdown(s) => c matches BlincContent::Markdown(x) && x.deep() == s.deep(),
        NodeKind::Image(s) => c matches BlincContent::Image(x) && x.deep() == s.deep(),
        NodeKind::Svg(s) => c matches BlincContent::Svg(x) && x.deep() == s.deep(),
        NodeKind::Icon(s) => c matches BlincContent::Icon(x) && x.deep() == s.deep(),
        NodeKind::Button(s) => c matches BlincContent::Button(x) && x.deep() == s.deep(),
        NodeKind::TextInput(s) => c matches BlincContent::Input(x) && x.deep() == s.deep(),
        NodeKind::Checkbox(s) => c matches BlincContent::Toggle { spec, toggle_kind } && spec.deep() == s.deep()
            && toggle_kind@ == "checkbox"@,
        NodeKind::Switch(s) => c matches BlincContent::Toggle { spec, toggle_kind } && spec.deep() == s.deep()
            && toggle_kind@ == "switch"@,
        NodeKind::Radio(s) => c matches BlincContent::Radio(x) && x.deep() == s.deep(),
        NodeKind::Slider(s) => c matches BlincContent::Slider(x) && x.deep() == s.deep(),
        NodeKind::Dropdown(s) => c matches BlincContent::Dropdown(x) && x.deep() == s.deep(),
        NodeKind::Tabs(s) => c matches BlincContent::Tabs(x) && x.deep() == s.deep(),
        NodeKind::Carousel(s) => c matches BlincContent::Carousel(x) && x.deep() == s.deep(),
        NodeKind::ProgressBar(s) => c matches BlincContent::Progress(x) && x.deep() == s.deep(),
        NodeKind::Spinner(s) => c matches BlincContent::Spinner(x) && x.deep() == s.deep(),
        NodeKind::Canvas(s) => c matches BlincContent::Canvas(x) && x.deep() == s.deep(),
        NodeKind::Scene3D(s) => c matches BlincContent::Scene3D(x) && x.deep() == s.deep(),
        NodeKind::Video(s) => c matches BlincContent::Media { spec, media_kind } && spec.deep() == s.deep()
            && media_kind@ == "video"@,
        NodeKind::Audio(s) => c matches BlincContent::Media { spec, media_kind } && spec.deep() == s.deep()
            && media_kind@ == "audio"@,
        NodeKind::Component(s) => c matches BlincContent::Component(x) && x.deep() == s.deep(),
    }
}

/// `d` is the lowering of `n`: its tag, its kind's content, its style
/// resolved for its kind with the kind's position and overflows, its event
/// bindings and animations, and its children lowered in order.
pub open spec fn lowered<F: Fn(F32) -> F32>(n: Node, d: BlincDom, lift: F) -> bool
    decreases n, 0nat,
{
    &&& d.tag@ == crate::node::kind_tag_text(n.kind.variant())
    &&& content_of(n.kind, d.content)
    &&& style_as(n.style, n.kind, d.style, lift, kind_position(n.kind, n.style.position),
        kind_overflow_x(n.kind, n.style.overflow_x), kind_overflow_y(n.kind, n.style.overflow_y))
    &&& d.events.view_map() == n.events.view_map()
    &&& d.animations.deep() == n.animations.deep()
    &&& d.children@.len() == n.children@.len()
    &&& all_lowered(n.children@, d.children@, n.children@.len() as int, lift)
}

/// The first `k` trees are lowered to the first `k` elements.
pub open spec fn all_lowered<F: Fn(F32) -> F32>(ns: Seq<Node>, ds: Seq<BlincDom>, k: int, lift: F) -> bool
    decreases ns, (if k < 0 { 0 } else { k }) as nat,
{
    if k <= 0 || k > ns.len() || k > ds.len() {
        k == 0
    } else {
        all_lowered(ns, ds, k - 1, lift) && lowered(ns[k - 1], ds[k - 1], lift)
    }
}

/// The prefix form of `all_lowered`.
pub proof fn lemma_all_lowered<F: Fn(F32) -> F32>(ns: Seq<Node>, ds: Seq<BlincDom>, k: int, lift: F)
    requires
        0 <= k <= ns.len(),
        ns.len() == ds.len(),
    ensures
        all_lowered(ns, ds, k, lift) == forall|i: int| 0 <= i < k ==> lowered(#[trigger] ns[i], ds[i], lift),
    decreases k,
{
    if k > 0 {
        lemma_all_lowered(ns, ds, k - 1, lift);
    }
}

// ---------------------------------------------------------------------------
// The mapping.
// ---------------------------------------------------------------------------

/// Whether a float is greater than zero.
fn positive(x: F32) -> (r: bool)
    ensures
        r == f32_positive(x.bits),
{
    x.bits > 0 && x.bits <= 0x7f80_0000u32
}

/// Whether a float differs from `1.0` by more than `f32::EPSILON`.
fn far_from_one(x: F32) -> (r: bool)
    ensures
        r == differs_from_one(x.bits),
{
    let nan = (x.bits & 0x7f80_0000u32) == 0x7f80_0000u32 && (x.bits & 0x007f_ffffu32) != 0u32;
    !nan && x.bits != 0x3f7f_fffeu32 && x.bits != 0x3f7f_ffffu32 && x.bits != 0x3f80_0000u32
        && x.bits != 0x3f80_0001u32
}

/// A copy of an optional string.
fn copy_opt_string(o: &Option<String>) -> (r: Option<String>)
    ensures
        r == *o,
{
    match o {
        Some(s) => Some(s.clone()),
        None => None,
    }
}

/// A copy of a list of strings.
fn copy_strings(v: &Vec<String>) -> (r: Vec<String>)
    ensures
        r@ == v@,
{
    let mut out: Vec<String> = Vec::new();
    let mut i: usize = 0;
    while i < v.len()
        invariant
            i <= v@.len(),
            out@ == v@.subrange(0, i as int),
        decreases v@.len() - i,
    {
        out.push(v[i].clone());
        i += 1;
        assert(out@ =~= v@.subrange(0, i as int));
    }
    assert(v@.subrange(0, v@.len() as int) =~= v@);
    out
}

/// A copy of a list of shadows.
fn copy_shadows(v: &Vec<Shadow>) -> (r: Vec<Shadow>)
    ensures
        r@ == v@,
{
    let mut out: Vec<Shadow> = Vec::new();
    let mut i: usize = 0;
    while i < v.len()
        invariant
            i <= v@.len(),
            out@ == v@.subrange(0, i as int),
        decreases v@.len() - i,
    {
        out.push(v[i]);
        i += 1;
        assert(out@ =~= v@.subrange(0, i as int));
    }
    assert(v@.subrange(0, v@.len() as int) =~= v@);
    out
}

/// Map the wire style onto a resolved style, applying the layout defaults
/// implied by the node kind and expanding a glass material.
pub fn resolve_style<F: Fn(F32) -> F32>(s: &Style, kind: &NodeKind, lift: &F) -> (b: BlincStyle)
    requires
        forall|x: F32| call_requires(*lift, (x,)),
    ensures
        style_resolved(*s, *kind, b, *lift),
{
    let mut b = BlincStyle::default();
    match kind {
        NodeKind::Row => b.direction = FlexDirection::Row,
        NodeKind::Column => b.direction = FlexDirection::Column,
        NodeKind::Stack => b.display = Display::Stack,
        NodeKind::Grid => b.display = Display::Grid,
        _ => {},
    }
    if let Some(d) = s.display {
        b.display = d;
    }
    if let Some(d) = s.direction {
        b.direction = d;
    }
    b.align_items = s.align_items;
    b.align_self = s.align_self;
    b.justify = s.justify_content;
    b.gap = s.gap;
    b.row_gap = s.row_gap;
    b.column_gap = s.column_gap;
    b.padding = s.padding;
    b.margin = s.margin;
    b.width = s.width;
    b.height = s.height;
    b.min_width = s.min_width;
    b.min_height = s.min_height;
    b.max_width = s.max_width;
    b.max_height = s.max_height;
    b.flex_grow = s.flex_grow;
    b.flex_shrink = s.flex_shrink;
    b.flex_basis = s.flex_basis;
    b.wrap = match s.wrap {
        Some(w) => w,
        None => false,
    };
    b.grid_template_columns = copy_opt_string(&s.grid_template_columns);
    b.grid_template_rows = copy_opt_string(&s.grid_template_rows);
    b.grid_column = copy_opt_string(&s.grid_column);
    b.grid_row = copy_opt_string(&s.grid_row);
    b.position = s.position;
    b.inset = s.inset;
    b.z_index = s.z_index;
    b.overflow_x = s.overflow_x;
    b.overflow_y = s.overflow_y;
    b.background = s.background.duplicate();
    b.foreground = s.foreground;
    b.border = match (s.border_width, s.border_color) {
        (Some(w), Some(c)) => Some((w, c)),
        (Some(w), None) => Some((w, Color::black())),
        _ => None,
    };
    b.radius = s.radius;
    b.shadows = copy_shadows(&s.shadows);
    b.opacity = s.opacity;
    b.transform = s.transform;
    b.filter = s.filter;
    b.glass = match s.glass {
        Some(g) => g,
        None => false,
    };
    b.cursor = copy_opt_string(&s.cursor);
    b.classes = copy_strings(&s.classes);
    b.css = copy_opt_string(&s.css);

    // Expand a liquid-glass material into concrete paint. Each piece is
    // only filled where the guest did not set the corresponding field, so a
    // Miniapp can override one aspect while keeping the rest of the look.
    if let Some(g) = s.glass_material {
        b.glass = true;
        let mut f = match b.filter {
            Some(f) => f,
            None => Filter {
                blur: F32::from_bits(0),
                backdrop_blur: F32::from_bits(0),
                brightness: None,
                contrast: None,
                saturate: None,
                grayscale: None,
                hue_rotate: None,
            },
        };
        if f.backdrop_blur.is_zero() {
            f.backdrop_blur = g.blur;
        }
        if f.saturate.is_none() {
            f.saturate = Some(g.saturate);
        }
        if f.brightness.is_none() && far_from_one(g.brightness) {
            f.brightness = Some(g.brightness);
        }
        b.filter = Some(f);
        if b.background.is_none() {
            b.background = Some(Brush::solid(g.tint));
        }
        if b.border.is_none() && positive(g.rim_width) {
            b.border = Some((g.rim_width, g.rim));
        }
        if b.radius.is_none() && positive(g.radius) {
            b.radius = Some(CornerRadius::all(g.radius));
        }
        if positive(g.elevation) && b.shadows.len() == 0 {
            let dy = lift(g.elevation);
            b.shadows.push(Shadow {
                offset: [F32::from_bits(0), dy],
                blur: g.elevation,
                spread: F32::from_bits(0),
                color: Color::rgba(F32::from_bits(0), F32::from_bits(0), F32::from_bits(0), F32::from_bits(0x3e8f_5c29u32)),
                inset: false,
            });
        }
    }
    b
}

/// Map a node kind to its lowered content. A scroll viewport sets the
/// overflow of its axis and an overlay is fixed-positioned, so `style` is
/// `&mut`.
pub fn lower_kind(kind: &NodeKind, style: &mut BlincStyle) -> (c: BlincContent)
    ensures
        content_of(*kind, c),
        *final(style) == (BlincStyle {
            position: kind_position(*kind, old(style).position),
            overflow_x: kind_overflow_x(*kind, old(style).overflow_x),
            overflow_y: kind_overflow_y(*kind, old(style).overflow_y),
            ..*old(style)
        }),
{
    match kind {
        NodeKind::Div | NodeKind::Row | NodeKind::Column | NodeKind::Stack | NodeKind::Grid
        | NodeKind::Spacer => BlincContent::Container,
        NodeKind::Scroll(spec) => {
            if crate::bridge::str_eq(spec.axis.as_str(), "horizontal") {
                style.overflow_x = Some(Overflow::Scroll);
            } else if crate::bridge::str_eq(spec.axis.as_str(), "both") {
                style.overflow_x = Some(Overflow::Scroll);
                style.overflow_y = Some(Overflow::Scroll);
            } else {
                style.overflow_y = Some(Overflow::Scroll);
            }
            BlincContent::Scroll(spec.duplicate())
        },
        NodeKind::Overlay(spec) => {
            style.position = Some(Position::Fixed);
            BlincContent::Overlay(spec.duplicate())
        },
        NodeKind::Text(s) => BlincContent::Text(s.duplicate()),
        NodeKind::RichText(s) => BlincContent::RichText(s.duplicate()),
        NodeKind::Markdown(s) => BlincContent::Markdown(s.duplicate()),
        NodeKind::Image(s) => BlincContent::Image(s.duplicate()),
        NodeKind::Svg(s) => BlincContent::Svg(s.duplicate()),
        NodeKind::Icon(s) => BlincContent::Icon(s.duplicate()),
        NodeKind::Button(s) => BlincContent::Button(s.duplicate()),
        NodeKind::TextInput(s) => BlincContent::Input(s.duplicate()),
        NodeKind::Checkbox(s) => {
            proof {
                reveal_strlit("checkbox");
            }
            BlincContent::Toggle { spec: s.duplicate(), toggle_kind: "checkbox" }
        },
        NodeKind::Switch(s) => {
            proof {
                reveal_strlit("switch");
            }
            BlincContent::Toggle { spec: s.duplicate(), toggle_kind: "switch" }
        },
        NodeKind::Radio(s) => BlincContent::Radio(s.duplicate()),
        NodeKind::Slider(s) => BlincContent::Slider(s.duplicate()),
        NodeKind::Dropdown(s) => BlincContent::Dropdown(s.duplicate()),
        NodeKind::Tabs(s) => BlincContent::Tabs(s.duplicate()),
        NodeKind::Carousel(s) => BlincContent::Carousel(s.duplicate()),
        NodeKind::ProgressBar(s) => BlincContent::Progress(s.duplicate()),
        NodeKind::Spinner(s) => BlincContent::Spinner(s.duplicate()),
        NodeKind::Canvas(s) => BlincContent::Canvas(s.duplicate()),
        NodeKind::Scene3D(s) => BlincContent::Scene3D(s.duplicate()),
        NodeKind::Video(s) => {
            proof {
                reveal_strlit("video");
            }
            BlincContent::Media { spec: s.duplicate(), media_kind: "video" }
        },
        NodeKind::Audio(s) => {
            proof {
                reveal_strlit("audio");
            }
            BlincContent::Media { spec: s.duplicate(), media_kind: "audio" }
        },
        NodeKind::Component(s) => BlincContent::Component(s.duplicate()),
    }
}

/// Lower a list of trees.
fn lower_children<F: Fn(F32) -> F32>(ns: &Vec<Node>, lift: &F) -> (r: Vec<BlincDom>)
    requires
        forall|x: F32| call_requires(*lift, (x,)),
    ensures
        r@.len() == ns@.len(),
        forall|i: int| 0 <= i < ns@.len() ==> lowered(#[trigger] ns@[i], r@[i], *lift),
    decreases ns, 0nat,
{
    let mut out: Vec<BlincDom> = Vec::new();
    let mut i: usize = 0;
    while i < ns.len()
        invariant
            i <= ns@.len(),
            out@.len() == i,
            forall|x: F32| call_requires(*lift, (x,)),
            forall|j: int| 0 <= j < i ==> lowered(#[trigger] ns@[j], out@[j], *lift),
        decreases ns@.len() - i,
    {
        proof {
            assert(decreases_to!(*ns => ns@[i as int]));
        }
        out.push(lower(&ns[i], lift));
        i += 1;
    }
    out
}

/// Lower a whole tree.
pub fn lower<F: Fn(F32) -> F32>(node: &Node, lift: &F) -> (d: BlincDom)
    requires
        forall|x: F32| call_requires(*lift, (x,)),
    ensures
        lowered(*node, d, *lift),
    decreases node, 1nat,
{
    let tag = node.type_tag();
    let mut style = resolve_style(&node.style, &node.kind, lift);
    let content = lower_kind(&node.kind, &mut style);
    let children = lower_children(&node.children, lift);
    let d = BlincDom {
        tag,
        style,
        content,
        events: node.events.duplicate(),
        animations: node.animations.duplicate(),
        children,
    };
    proof {
        lemma_all_lowered(node.children@, d.children@, node.children@.len() as int, *lift);
    }
    d
}

// ---------------------------------------------------------------------------
// The text the widget interpreter shows.
// ---------------------------------------------------------------------------

/// The text an input field shows: its value, or its placeholder (or
/// nothing) while the value is empty.
pub open spec fn input_text_of(i: InputSpec) -> Seq<char> {
    if i.value@.len() == 0 {
        match i.placeholder {
            Some(p) => p@,
            None => Seq::empty(),
        }
    } else {
        i.value@
    }
}

/// The text an input field shows.
pub fn input_text(i: &InputSpec) -> (r: String)
    ensures
        r@ == input_text_of(*i),
{
    if i.value.unicode_len() == 0 {
        match &i.placeholder {
            Some(p) => p.clone(),
            None => String::new(),
        }
    } else {
        i.value.clone()
    }
}

/// The position of the first option with the value, from position `i` on.
pub open spec fn option_find(os: Seq<OptionItem>, v: Seq<char>, i: int) -> Option<int>
    decreases os.len() - i,
{
    if i < 0 || i >= os.len() {
        None
    } else if os[i].value@ == v {
        Some(i)
    } else {
        option_find(os, v, i + 1)
    }
}

/// The label a dropdown shows: that of the first option whose value is the
/// selected one, else the placeholder, else `Select…`.
pub open spec fn dropdown_label_of(d: DropdownSpec) -> Seq<char> {
    let chosen = match d.selected {
        Some(sel) => option_find(d.options@, sel@, 0),
        None => None,
    };
    match chosen {
        Some(i) => d.options@[i].label@,
        None => match d.placeholder {
            Some(p) => p@,
            None => "Select…"@,
        },
    }
}

/// The label a dropdown shows.
pub fn dropdown_label(d: &DropdownSpec) -> (r: String)
    ensures
        r@ == dropdown_label_of(*d),
{
    if let Some(sel) = &d.selected {
        let mut i: usize = 0;
        while i < d.options.len()
            invariant
                i <= d.options@.len(),
                d.selected == Some(*sel),
                option_find(d.options@, sel@, 0) == option_find(d.options@, sel@, i as int),
            decreases d.options@.len() - i,
        {
            if d.options[i].value == *sel {
                return d.options[i].label.clone();
            }
            i += 1;
        }
    }
    match &d.placeholder {
        Some(p) => p.clone(),
        None => String::from_str("Select…"),
    }
}


// ---------------------------------------------------------------------------
// The laws of the lowering's layout.
// ---------------------------------------------------------------------------

/// The layout a resolved style gets from the node's kind: the style's own
/// display and direction win; where it sets none, a grid is laid out as a
/// grid, a stack as a stack and everything else as flex, and a column runs
/// in a column and everything else in a row. Position and overflow are the
/// style's own.
pub proof fn lemma_resolved_layout<F: Fn(F32) -> F32>(s: Style, k: NodeKind, b: BlincStyle, lift: F)
    requires
        style_resolved(s, k, b, lift),
    ensures
        s.display matches Some(x) ==> b.display == x,
        s.display is None ==> b.display == (if k is Grid { Display::Grid } else if k is Stack { Display::Stack }
            else { Display::Flex }),
        s.direction matches Some(x) ==> b.direction == x,
        s.direction is None ==> b.direction == (if k is Column { FlexDirection::Column } else { FlexDirection::Row }),
        b.position == s.position,
        b.overflow_x == s.overflow_x,
        b.overflow_y == s.overflow_y,
{
}

/// The layout of a lowered node: display and direction as for its resolved
/// style; an overlay is fixed-positioned; a scroll viewport scrolls along
/// its axis (`"horizontal"`: across, `"both"`: both ways, any other: down);
/// every other node keeps its style's position and overflow.
pub proof fn lemma_lowered_layout<F: Fn(F32) -> F32>(n: Node, d: BlincDom, lift: F)
    requires
        lowered(n, d, lift),
    ensures
        n.style.display matches Some(x) ==> d.style.display == x,
        n.style.display is None ==> d.style.display == (if n.kind is Grid { Display::Grid }
            else if n.kind is Stack { Display::Stack } else { Display::Flex }),
        n.style.direction matches Some(x) ==> d.style.direction == x,
        n.style.direction is None ==> d.style.direction == (if n.kind is Column { FlexDirection::Column }
            else { FlexDirection::Row }),
        d.style.position == (if n.kind is Overlay { Some(Position::Fixed) } else { n.style.position }),
        n.kind matches NodeKind::Scroll(sp) ==> {
            &&& d.style.overflow_x == (if sp.axis@ == "horizontal"@ || sp.axis@ == "both"@ { Some(Overflow::Scroll) }
                else { n.style.overflow_x })
            &&& d.style.overflow_y == (if sp.axis@ == "horizontal"@ { n.style.overflow_y } else { Some(Overflow::Scroll) })
        },
        !(n.kind is Scroll) ==> d.style.overflow_x == n.style.overflow_x && d.style.overflow_y == n.style.overflow_y,
{
}

} // verus!
