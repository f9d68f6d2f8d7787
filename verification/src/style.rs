//! Visual and layout styling of a node: colors, brushes, lengths, edges,
//! radii, shadows, transforms, filters, the glass material, and the flat,
//! fully optional [`Style`] block.

use vstd::prelude::*;
use crate::facet::{DeepValue, Facet};
use crate::float::F32;
use vstd::string::StringSliceAdditionalSpecFns;

verus! {

#[derive(Debug, Clone, Copy, PartialEq)]
pub struct Color {
    pub r: F32,
    pub g: F32,
    pub b: F32,
    pub a: F32,
}

impl Facet for Color {
    open spec fn deep(&self) -> DeepValue {
        crate::facet::dpair(self.r.deep(), crate::facet::dpair(self.g.deep(), crate::facet::dpair(self.b.deep(), self.a.deep())))
    }

    fn equals(&self, other: &Self) -> (r: bool) {
        let e0 = self.r.equals(&other.r);
        let e1 = self.g.equals(&other.g);
        let e2 = self.b.equals(&other.b);
        let e3 = self.a.equals(&other.a);
        proof {
            assert(crate::facet::deep_eq(crate::facet::dpair(self.b.deep(), self.a.deep()), crate::facet::dpair(other.b.deep(), other.a.deep())) == (e2 && e3));
            assert(crate::facet::deep_eq(crate::facet::dpair(self.g.deep(), crate::facet::dpair(self.b.deep(), self.a.deep())), crate::facet::dpair(other.g.deep(), crate::facet::dpair(other.b.deep(), other.a.deep()))) == (e1 && e2 && e3));
            assert(crate::facet::deep_eq(crate::facet::dpair(self.r.deep(), crate::facet::dpair(self.g.deep(), crate::facet::dpair(self.b.deep(), self.a.deep()))), crate::facet::dpair(other.r.deep(), crate::facet::dpair(other.g.deep(), crate::facet::dpair(other.b.deep(), other.a.deep())))) == (e0 && e1 && e2 && e3));
        }
        e0 && e1 && e2 && e3
    }

    fn duplicate(&self) -> (r: Self) {
        Color { r: self.r.duplicate(), g: self.g.duplicate(), b: self.b.duplicate(), a: self.a.duplicate() }
    }
}

#[derive(Debug, Clone, Copy, PartialEq)]
pub struct GradientStop {
    pub offset: F32,
    pub color: Color,
}

impl Facet for GradientStop {
    open spec fn deep(&self) -> DeepValue {
        crate::facet::dpair(self.offset.deep(), self.color.deep())
    }

    fn equals(&self, other: &Self) -> (r: bool) {
        let e0 = self.offset.equals(&other.offset);
        let e1 = self.color.equals(&other.color);
        proof {
            assert(crate::facet::deep_eq(crate::facet::dpair(self.offset.deep(), self.color.deep()), crate::facet::dpair(other.offset.deep(), other.color.deep())) == (e0 && e1));
        }
        e0 && e1
    }

    fn duplicate(&self) -> (r: Self) {
        GradientStop { offset: self.offset.duplicate(), color: self.color.duplicate() }
    }
}

#[derive(Debug, Clone, PartialEq)]
pub enum Brush {
    Solid { color: Color },
    LinearGradient { angle: F32, stops: Vec<GradientStop> },
    RadialGradient { center: [F32; 2], radius: F32, stops: Vec<GradientStop> },
    ConicGradient { center: [F32; 2], start_angle: F32, stops: Vec<GradientStop> },
    Image { src: String, fit: ImageFit },
}

impl Brush {
    /// The position of the variant in the declaration.
    pub open spec fn variant(&self) -> nat {
        match self {
            Brush::Solid { .. } => 0,
            Brush::LinearGradient { .. } => 1,
            Brush::RadialGradient { .. } => 2,
            Brush::ConicGradient { .. } => 3,
            Brush::Image { .. } => 4,
        }
    }
}

impl Facet for Brush {
    open spec fn deep(&self) -> DeepValue {
        match self {
            Brush::Solid { color: color } => crate::facet::dvariant(0, color.deep()),
            Brush::LinearGradient { angle: angle, stops: stops } => crate::facet::dvariant(1, crate::facet::dpair(angle.deep(), stops.deep())),
            Brush::RadialGradient { center: center, radius: radius, stops: stops } => crate::facet::dvariant(2, crate::facet::dpair(center.deep(), crate::facet::dpair(radius.deep(), stops.deep()))),
            Brush::ConicGradient { center: center, start_angle: start_angle, stops: stops } => crate::facet::dvariant(3, crate::facet::dpair(center.deep(), crate::facet::dpair(start_angle.deep(), stops.deep()))),
            Brush::Image { src: src, fit: fit } => crate::facet::dvariant(4, crate::facet::dpair(src.deep(), fit.deep())),
        }
    }

    fn equals(&self, other: &Self) -> (r: bool) {
        match (self, other) {
            (Brush::Solid { color: a_color }, Brush::Solid { color: b_color }) => {
                let e0 = a_color.equals(b_color);
                proof {
                    assert(crate::facet::deep_eq(DeepValue::Tag(0), DeepValue::Tag(0)));
                }
                e0
            },
            (Brush::LinearGradient { angle: a_angle, stops: a_stops }, Brush::LinearGradient { angle: b_angle, stops: b_stops }) => {
                let e0 = a_angle.equals(b_angle);
                let e1 = a_stops.equals(b_stops);
                proof {
                    assert(crate::facet::deep_eq(crate::facet::dpair(a_angle.deep(), a_stops.deep()), crate::facet::dpair(b_angle.deep(), b_stops.deep())) == (e0 && e1));
                    assert(crate::facet::deep_eq(DeepValue::Tag(1), DeepValue::Tag(1)));
                }
                e0 && e1
            },
            (Brush::RadialGradient { center: a_center, radius: a_radius, stops: a_stops }, Brush::RadialGradient { center: b_center, radius: b_radius, stops: b_stops }) => {
                let e0 = a_center.equals(b_center);
                let e1 = a_radius.equals(b_radius);
                let e2 = a_stops.equals(b_stops);
                proof {
                    assert(crate::facet::deep_eq(crate::facet::dpair(a_radius.deep(), a_stops.deep()), crate::facet::dpair(b_radius.deep(), b_stops.deep())) == (e1 && e2));
                    assert(crate::facet::deep_eq(crate::facet::dpair(a_center.deep(), crate::facet::dpair(a_radius.deep(), a_stops.deep())), crate::facet::dpair(b_center.deep(), crate::facet::dpair(b_radius.deep(), b_stops.deep()))) == (e0 && e1 && e2));
                    assert(crate::facet::deep_eq(DeepValue::Tag(2), DeepValue::Tag(2)));
                }
                e0 && e1 && e2
            },
            (Brush::ConicGradient { center: a_center, start_angle: a_start_angle, stops: a_stops }, Brush::ConicGradient { center: b_center, start_angle: b_start_angle, stops: b_stops }) => {
                let e0 = a_center.equals(b_center);
                let e1 = a_start_angle.equals(b_start_angle);
                let e2 = a_stops.equals(b_stops);
                proof {
                    assert(crate::facet::deep_eq(crate::facet::dpair(a_start_angle.deep(), a_stops.deep()), crate::facet::dpair(b_start_angle.deep(), b_stops.deep())) == (e1 && e2));
                    assert(crate::facet::deep_eq(crate::facet::dpair(a_center.deep(), crate::facet::dpair(a_start_angle.deep(), a_stops.deep())), crate::facet::dpair(b_center.deep(), crate::facet::dpair(b_start_angle.deep(), b_stops.deep()))) == (e0 && e1 && e2));
                    assert(crate::facet::deep_eq(DeepValue::Tag(3), DeepValue::Tag(3)));
                }
                e0 && e1 && e2
            },
            (Brush::Image { src: a_src, fit: a_fit }, Brush::Image { src: b_src, fit: b_fit }) => {
                let e0 = a_src.equals(b_src);
                let e1 = a_fit.equals(b_fit);
                proof {
                    assert(crate::facet::deep_eq(crate::facet::dpair(a_src.deep(), a_fit.deep()), crate::facet::dpair(b_src.deep(), b_fit.deep())) == (e0 && e1));
                    assert(crate::facet::deep_eq(DeepValue::Tag(4), DeepValue::Tag(4)));
                }
                e0 && e1
            },
            _ => {
                proof {
                    assert(self.variant() != other.variant());
                    assert(!crate::facet::deep_eq(DeepValue::Tag(self.variant()), DeepValue::Tag(other.variant())));
                }
                false
            },
        }
    }

    fn duplicate(&self) -> (r: Self) {
        match self {
            Brush::Solid { color: x_color } => Brush::Solid { color: x_color.duplicate() },
            Brush::LinearGradient { angle: x_angle, stops: x_stops } => Brush::LinearGradient { angle: x_angle.duplicate(), stops: x_stops.duplicate() },
            Brush::RadialGradient { center: x_center, radius: x_radius, stops: x_stops } => Brush::RadialGradient { center: x_center.duplicate(), radius: x_radius.duplicate(), stops: x_stops.duplicate() },
            Brush::ConicGradient { center: x_center, start_angle: x_start_angle, stops: x_stops } => Brush::ConicGradient { center: x_center.duplicate(), start_angle: x_start_angle.duplicate(), stops: x_stops.duplicate() },
            Brush::Image { src: x_src, fit: x_fit } => Brush::Image { src: x_src.duplicate(), fit: x_fit.duplicate() },
        }
    }
}

#[derive(Debug, Clone, Copy, PartialEq, Eq, Structural, Default)]
pub enum ImageFit {
    #[default]
    Contain,
    Cover,
    Fill,
    FitNone,
    ScaleDown,
}

impl ImageFit {
    /// The position of the variant in the declaration.
    pub open spec fn variant(&self) -> nat {
        match self {
            ImageFit::Contain => 0,
            ImageFit::Cover => 1,
            ImageFit::Fill => 2,
            ImageFit::FitNone => 3,
            ImageFit::ScaleDown => 4,
        }
    }
}

impl Facet for ImageFit {
    open spec fn deep(&self) -> DeepValue {
        match self {
            ImageFit::Contain => DeepValue::Tag(0),
            ImageFit::Cover => DeepValue::Tag(1),
            ImageFit::Fill => DeepValue::Tag(2),
            ImageFit::FitNone => DeepValue::Tag(3),
            ImageFit::ScaleDown => DeepValue::Tag(4),
        }
    }

    fn equals(&self, other: &Self) -> (r: bool) {
        *self == *other
    }

    fn duplicate(&self) -> (r: Self) {
        *self
    }
}

#[derive(Debug, Clone, Copy, PartialEq)]
pub enum Length {
    Px(F32),
    Percent(F32),
    Fr(F32),
    Vw(F32),
    Vh(F32),
    Em(F32),
    Rem(F32),
    Auto,
    Fit,
    Full,
}

impl Length {
    /// The position of the variant in the declaration.
    pub open spec fn variant(&self) -> nat {
        match self {
            Length::Px(..) => 0,
            Length::Percent(..) => 1,
            Length::Fr(..) => 2,
            Length::Vw(..) => 3,
            Length::Vh(..) => 4,
            Length::Em(..) => 5,
            Length::Rem(..) => 6,
            Length::Auto => 7,
            Length::Fit => 8,
            Length::Full => 9,
        }
    }
}

impl Facet for Length {
    open spec fn deep(&self) -> DeepValue {
        match self {
            Length::Px(f0) => crate::facet::dvariant(0, f0.deep()),
            Length::Percent(f0) => crate::facet::dvariant(1, f0.deep()),
            Length::Fr(f0) => crate::facet::dvariant(2, f0.deep()),
            Length::Vw(f0) => crate::facet::dvariant(3, f0.deep()),
            Length::Vh(f0) => crate::facet::dvariant(4, f0.deep()),
            Length::Em(f0) => crate::facet::dvariant(5, f0.deep()),
            Length::Rem(f0) => crate::facet::dvariant(6, f0.deep()),
            Length::Auto => DeepValue::Tag(7),
            Length::Fit => DeepValue::Tag(8),
            Length::Full => DeepValue::Tag(9),
        }
    }

    fn equals(&self, other: &Self) -> (r: bool) {
        match (self, other) {
            (Length::Px(a_f0), Length::Px(b_f0)) => {
                let e0 = a_f0.equals(b_f0);
                proof {
                    assert(crate::facet::deep_eq(DeepValue::Tag(0), DeepValue::Tag(0)));
                }
                e0
            },
            (Length::Percent(a_f0), Length::Percent(b_f0)) => {
                let e0 = a_f0.equals(b_f0);
                proof {
                    assert(crate::facet::deep_eq(DeepValue::Tag(1), DeepValue::Tag(1)));
                }
                e0
            },
            (Length::Fr(a_f0), Length::Fr(b_f0)) => {
                let e0 = a_f0.equals(b_f0);
                proof {
                    assert(crate::facet::deep_eq(DeepValue::Tag(2), DeepValue::Tag(2)));
                }
                e0
            },
            (Length::Vw(a_f0), Length::Vw(b_f0)) => {
                let e0 = a_f0.equals(b_f0);
                proof {
                    assert(crate::facet::deep_eq(DeepValue::Tag(3), DeepValue::Tag(3)));
                }
                e0
            },
            (Length::Vh(a_f0), Length::Vh(b_f0)) => {
                let e0 = a_f0.equals(b_f0);
                proof {
                    assert(crate::facet::deep_eq(DeepValue::Tag(4), DeepValue::Tag(4)));
                }
                e0
            },
            (Length::Em(a_f0), Length::Em(b_f0)) => {
                let e0 = a_f0.equals(b_f0);
                proof {
                    assert(crate::facet::deep_eq(DeepValue::Tag(5), DeepValue::Tag(5)));
                }
                e0
            },
            (Length::Rem(a_f0), Length::Rem(b_f0)) => {
                let e0 = a_f0.equals(b_f0);
                proof {
                    assert(crate::facet::deep_eq(DeepValue::Tag(6), DeepValue::Tag(6)));
                }
                e0
            },
            (Length::Auto, Length::Auto) => true,
            (Length::Fit, Length::Fit) => true,
            (Length::Full, Length::Full) => true,
            _ => {
                proof {
                    assert(self.variant() != other.variant());
                    assert(!crate::facet::deep_eq(DeepValue::Tag(self.variant()), DeepValue::Tag(other.variant())));
                }
                false
            },
        }
    }

    fn duplicate(&self) -> (r: Self) {
        match self {
            Length::Px(x_f0) => Length::Px(x_f0.duplicate()),
            Length::Percent(x_f0) => Length::Percent(x_f0.duplicate()),
            Length::Fr(x_f0) => Length::Fr(x_f0.duplicate()),
            Length::Vw(x_f0) => Length::Vw(x_f0.duplicate()),
            Length::Vh(x_f0) => Length::Vh(x_f0.duplicate()),
            Length::Em(x_f0) => Length::Em(x_f0.duplicate()),
            Length::Rem(x_f0) => Length::Rem(x_f0.duplicate()),
            Length::Auto => Length::Auto,
            Length::Fit => Length::Fit,
            Length::Full => Length::Full,
        }
    }
}

#[derive(Debug, Clone, Copy, PartialEq, Default)]
pub struct Edges {
    pub top: F32,
    pub right: F32,
    pub bottom: F32,
    pub left: F32,
}

impl Facet for Edges {
    open spec fn deep(&self) -> DeepValue {
        crate::facet::dpair(self.top.deep(), crate::facet::dpair(self.right.deep(), crate::facet::dpair(self.bottom.deep(), self.left.deep())))
    }

    fn equals(&self, other: &Self) -> (r: bool) {
        let e0 = self.top.equals(&other.top);
        let e1 = self.right.equals(&other.right);
        let e2 = self.bottom.equals(&other.bottom);
        let e3 = self.left.equals(&other.left);
        proof {
            assert(crate::facet::deep_eq(crate::facet::dpair(self.bottom.deep(), self.left.deep()), crate::facet::dpair(other.bottom.deep(), other.left.deep())) == (e2 && e3));
            assert(crate::facet::deep_eq(crate::facet::dpair(self.right.deep(), crate::facet::dpair(self.bottom.deep(), self.left.deep())), crate::facet::dpair(other.right.deep(), crate::facet::dpair(other.bottom.deep(), other.left.deep()))) == (e1 && e2 && e3));
            assert(crate::facet::deep_eq(crate::facet::dpair(self.top.deep(), crate::facet::dpair(self.right.deep(), crate::facet::dpair(self.bottom.deep(), self.left.deep()))), crate::facet::dpair(other.top.deep(), crate::facet::dpair(other.right.deep(), crate::facet::dpair(other.bottom.deep(), other.left.deep())))) == (e0 && e1 && e2 && e3));
        }
        e0 && e1 && e2 && e3
    }

    fn duplicate(&self) -> (r: Self) {
        Edges { top: self.top.duplicate(), right: self.right.duplicate(), bottom: self.bottom.duplicate(), left: self.left.duplicate() }
    }
}

#[derive(Debug, Clone, Copy, PartialEq, Default)]
pub struct CornerRadius {
    pub tl: F32,
    pub tr: F32,
    pub br: F32,
    pub bl: F32,
}

impl Facet for CornerRadius {
    open spec fn deep(&self) -> DeepValue {
        crate::facet::dpair(self.tl.deep(), crate::facet::dpair(self.tr.deep(), crate::facet::dpair(self.br.deep(), self.bl.deep())))
    }

    fn equals(&self, other: &Self) -> (r: bool) {
        let e0 = self.tl.equals(&other.tl);
        let e1 = self.tr.equals(&other.tr);
        let e2 = self.br.equals(&other.br);
        let e3 = self.bl.equals(&other.bl);
        proof {
            assert(crate::facet::deep_eq(crate::facet::dpair(self.br.deep(), self.bl.deep()), crate::facet::dpair(other.br.deep(), other.bl.deep())) == (e2 && e3));
            assert(crate::facet::deep_eq(crate::facet::dpair(self.tr.deep(), crate::facet::dpair(self.br.deep(), self.bl.deep())), crate::facet::dpair(other.tr.deep(), crate::facet::dpair(other.br.deep(), other.bl.deep()))) == (e1 && e2 && e3));
            assert(crate::facet::deep_eq(crate::facet::dpair(self.tl.deep(), crate::facet::dpair(self.tr.deep(), crate::facet::dpair(self.br.deep(), self.bl.deep()))), crate::facet::dpair(other.tl.deep(), crate::facet::dpair(other.tr.deep(), crate::facet::dpair(other.br.deep(), other.bl.deep())))) == (e0 && e1 && e2 && e3));
        }
        e0 && e1 && e2 && e3
    }

    fn duplicate(&self) -> (r: Self) {
        CornerRadius { tl: self.tl.duplicate(), tr: self.tr.duplicate(), br: self.br.duplicate(), bl: self.bl.duplicate() }
    }
}

#[derive(Debug, Clone, Copy, PartialEq)]
pub struct Shadow {
    pub offset: [F32; 2],
    pub blur: F32,
    pub spread: F32,
    pub color: Color,
    pub inset: bool,
}

impl Facet for Shadow {
    open spec fn deep(&self) -> DeepValue {
        crate::facet::dpair(self.offset.deep(), crate::facet::dpair(self.blur.deep(), crate::facet::dpair(self.spread.deep(), crate::facet::dpair(self.color.deep(), self.inset.deep()))))
    }

    fn equals(&self, other: &Self) -> (r: bool) {
        let e0 = self.offset.equals(&other.offset);
        let e1 = self.blur.equals(&other.blur);
        let e2 = self.spread.equals(&other.spread);
        let e3 = self.color.equals(&other.color);
        let e4 = self.inset.equals(&other.inset);
        proof {
            assert(crate::facet::deep_eq(crate::facet::dpair(self.color.deep(), self.inset.deep()), crate::facet::dpair(other.color.deep(), other.inset.deep())) == (e3 && e4));
            assert(crate::facet::deep_eq(crate::facet::dpair(self.spread.deep(), crate::facet::dpair(self.color.deep(), self.inset.deep())), crate::facet::dpair(other.spread.deep(), crate::facet::dpair(other.color.deep(), other.inset.deep()))) == (e2 && e3 && e4));
            assert(crate::facet::deep_eq(crate::facet::dpair(self.blur.deep(), crate::facet::dpair(self.spread.deep(), crate::facet::dpair(self.color.deep(), self.inset.deep()))), crate::facet::dpair(other.blur.deep(), crate::facet::dpair(other.spread.deep(), crate::facet::dpair(other.color.deep(), other.inset.deep())))) == (e1 && e2 && e3 && e4));
            assert(crate::facet::deep_eq(crate::facet::dpair(self.offset.deep(), crate::facet::dpair(self.blur.deep(), crate::facet::dpair(self.spread.deep(), crate::facet::dpair(self.color.deep(), self.inset.deep())))), crate::facet::dpair(other.offset.deep(), crate::facet::dpair(other.blur.deep(), crate::facet::dpair(other.spread.deep(), crate::facet::dpair(other.color.deep(), other.inset.deep()))))) == (e0 && e1 && e2 && e3 && e4));
        }
        e0 && e1 && e2 && e3 && e4
    }

    fn duplicate(&self) -> (r: Self) {
        Shadow { offset: self.offset.duplicate(), blur: self.blur.duplicate(), spread: self.spread.duplicate(), color: self.color.duplicate(), inset: self.inset.duplicate() }
    }
}

#[derive(Debug, Clone, Copy, PartialEq)]
pub struct Transform {
    pub translate: [F32; 2],
    pub scale: [F32; 2],
    pub rotate: F32,
    pub rotate_x: F32,
    pub rotate_y: F32,
    pub skew: [F32; 2],
    pub origin: [F32; 2],
    pub perspective: F32,
}

impl Facet for Transform {
    open spec fn deep(&self) -> DeepValue {
        crate::facet::dpair(self.translate.deep(), crate::facet::dpair(self.scale.deep(), crate::facet::dpair(self.rotate.deep(), crate::facet::dpair(self.rotate_x.deep(), crate::facet::dpair(self.rotate_y.deep(), crate::facet::dpair(self.skew.deep(), crate::facet::dpair(self.origin.deep(), self.perspective.deep())))))))
    }

    fn equals(&self, other: &Self) -> (r: bool) {
        let e0 = self.translate.equals(&other.translate);
        let e1 = self.scale.equals(&other.scale);
        let e2 = self.rotate.equals(&other.rotate);
        let e3 = self.rotate_x.equals(&other.rotate_x);
        let e4 = self.rotate_y.equals(&other.rotate_y);
        let e5 = self.skew.equals(&other.skew);
        let e6 = self.origin.equals(&other.origin);
        let e7 = self.perspective.equals(&other.perspective);
        proof {
            assert(crate::facet::deep_eq(crate::facet::dpair(self.origin.deep(), self.perspective.deep()), crate::facet::dpair(other.origin.deep(), other.perspective.deep())) == (e6 && e7));
            assert(crate::facet::deep_eq(crate::facet::dpair(self.skew.deep(), crate::facet::dpair(self.origin.deep(), self.perspective.deep())), crate::facet::dpair(other.skew.deep(), crate::facet::dpair(other.origin.deep(), other.perspective.deep()))) == (e5 && e6 && e7));
            assert(crate::facet::deep_eq(crate::facet::dpair(self.rotate_y.deep(), crate::facet::dpair(self.skew.deep(), crate::facet::dpair(self.origin.deep(), self.perspective.deep()))), crate::facet::dpair(other.rotate_y.deep(), crate::facet::dpair(other.skew.deep(), crate::facet::dpair(other.origin.deep(), other.perspective.deep())))) == (e4 && e5 && e6 && e7));
            assert(crate::facet::deep_eq(crate::facet::dpair(self.rotate_x.deep(), crate::facet::dpair(self.rotate_y.deep(), crate::facet::dpair(self.skew.deep(), crate::facet::dpair(self.origin.deep(), self.perspective.deep())))), crate::facet::dpair(other.rotate_x.deep(), crate::facet::dpair(other.rotate_y.deep(), crate::facet::dpair(other.skew.deep(), crate::facet::dpair(other.origin.deep(), other.perspective.deep()))))) == (e3 && e4 && e5 && e6 && e7));
            assert(crate::facet::deep_eq(crate::facet::dpair(self.rotate.deep(), crate::facet::dpair(self.rotate_x.deep(), crate::facet::dpair(self.rotate_y.deep(), crate::facet::dpair(self.skew.deep(), crate::facet::dpair(self.origin.deep(), self.perspective.deep()))))), crate::facet::dpair(other.rotate.deep(), crate::facet::dpair(other.rotate_x.deep(), crate::facet::dpair(other.rotate_y.deep(), crate::facet::dpair(other.skew.deep(), crate::facet::dpair(other.origin.deep(), other.perspective.deep())))))) == (e2 && e3 && e4 && e5 && e6 && e7));
            assert(crate::facet::deep_eq(crate::facet::dpair(self.scale.deep(), crate::facet::dpair(self.rotate.deep(), crate::facet::dpair(self.rotate_x.deep(), crate::facet::dpair(self.rotate_y.deep(), crate::facet::dpair(self.skew.deep(), crate::facet::dpair(self.origin.deep(), self.perspective.deep())))))), crate::facet::dpair(other.scale.deep(), crate::facet::dpair(other.rotate.deep(), crate::facet::dpair(other.rotate_x.deep(), crate::facet::dpair(other.rotate_y.deep(), crate::facet::dpair(other.skew.deep(), crate::facet::dpair(other.origin.deep(), other.perspective.deep()))))))) == (e1 && e2 && e3 && e4 && e5 && e6 && e7));
            assert(crate::facet::deep_eq(crate::facet::dpair(self.translate.deep(), crate::facet::dpair(self.scale.deep(), crate::facet::dpair(self.rotate.deep(), crate::facet::dpair(self.rotate_x.deep(), crate::facet::dpair(self.rotate_y.deep(), crate::facet::dpair(self.skew.deep(), crate::facet::dpair(self.origin.deep(), self.perspective.deep()))))))), crate::facet::dpair(other.translate.deep(), crate::facet::dpair(other.scale.deep(), crate::facet::dpair(other.rotate.deep(), crate::facet::dpair(other.rotate_x.deep(), crate::facet::dpair(other.rotate_y.deep(), crate::facet::dpair(other.skew.deep(), crate::facet::dpair(other.origin.deep(), other.perspective.deep())))))))) == (e0 && e1 && e2 && e3 && e4 && e5 && e6 && e7));
        }
        e0 && e1 && e2 && e3 && e4 && e5 && e6 && e7
    }

    fn duplicate(&self) -> (r: Self) {
        Transform { translate: self.translate.duplicate(), scale: self.scale.duplicate(), rotate: self.rotate.duplicate(), rotate_x: self.rotate_x.duplicate(), rotate_y: self.rotate_y.duplicate(), skew: self.skew.duplicate(), origin: self.origin.duplicate(), perspective: self.perspective.duplicate() }
    }
}

#[derive(Debug, Clone, Copy, PartialEq, Default)]
pub struct Filter {
    pub blur: F32,
    pub backdrop_blur: F32,
    pub brightness: Option<F32>,
    pub contrast: Option<F32>,
    pub saturate: Option<F32>,
    pub grayscale: Option<F32>,
    pub hue_rotate: Option<F32>,
}

impl Facet for Filter {
    open spec fn deep(&self) -> DeepValue {
        crate::facet::dpair(self.blur.deep(), crate::facet::dpair(self.backdrop_blur.deep(), crate::facet::dpair(self.brightness.deep(), crate::facet::dpair(self.contrast.deep(), crate::facet::dpair(self.saturate.deep(), crate::facet::dpair(self.grayscale.deep(), self.hue_rotate.deep()))))))
    }

    fn equals(&self, other: &Self) -> (r: bool) {
        let e0 = self.blur.equals(&other.blur);
        let e1 = self.backdrop_blur.equals(&other.backdrop_blur);
        let e2 = self.brightness.equals(&other.brightness);
        let e3 = self.contrast.equals(&other.contrast);
        let e4 = self.saturate.equals(&other.saturate);
        let e5 = self.grayscale.equals(&other.grayscale);
        let e6 = self.hue_rotate.equals(&other.hue_rotate);
        proof {
            assert(crate::facet::deep_eq(crate::facet::dpair(self.grayscale.deep(), self.hue_rotate.deep()), crate::facet::dpair(other.grayscale.deep(), other.hue_rotate.deep())) == (e5 && e6));
            assert(crate::facet::deep_eq(crate::facet::dpair(self.saturate.deep(), crate::facet::dpair(self.grayscale.deep(), self.hue_rotate.deep())), crate::facet::dpair(other.saturate.deep(), crate::facet::dpair(other.grayscale.deep(), other.hue_rotate.deep()))) == (e4 && e5 && e6));
            assert(crate::facet::deep_eq(crate::facet::dpair(self.contrast.deep(), crate::facet::dpair(self.saturate.deep(), crate::facet::dpair(self.grayscale.deep(), self.hue_rotate.deep()))), crate::facet::dpair(other.contrast.deep(), crate::facet::dpair(other.saturate.deep(), crate::facet::dpair(other.grayscale.deep(), other.hue_rotate.deep())))) == (e3 && e4 && e5 && e6));
            assert(crate::facet::deep_eq(crate::facet::dpair(self.brightness.deep(), crate::facet::dpair(self.contrast.deep(), crate::facet::dpair(self.saturate.deep(), crate::facet::dpair(self.grayscale.deep(), self.hue_rotate.deep())))), crate::facet::dpair(other.brightness.deep(), crate::facet::dpair(other.contrast.deep(), crate::facet::dpair(other.saturate.deep(), crate::facet::dpair(other.grayscale.deep(), other.hue_rotate.deep()))))) == (e2 && e3 && e4 && e5 && e6));
            assert(crate::facet::deep_eq(crate::facet::dpair(self.backdrop_blur.deep(), crate::facet::dpair(self.brightness.deep(), crate::facet::dpair(self.contrast.deep(), crate::facet::dpair(self.saturate.deep(), crate::facet::dpair(self.grayscale.deep(), self.hue_rotate.deep()))))), crate::facet::dpair(other.backdrop_blur.deep(), crate::facet::dpair(other.brightness.deep(), crate::facet::dpair(other.contrast.deep(), crate::facet::dpair(other.saturate.deep(), crate::facet::dpair(other.grayscale.deep(), other.hue_rotate.deep())))))) == (e1 && e2 && e3 && e4 && e5 && e6));
            assert(crate::facet::deep_eq(crate::facet::dpair(self.blur.deep(), crate::facet::dpair(self.backdrop_blur.deep(), crate::facet::dpair(self.brightness.deep(), crate::facet::dpair(self.contrast.deep(), crate::facet::dpair(self.saturate.deep(), crate::facet::dpair(self.grayscale.deep(), self.hue_rotate.deep())))))), crate::facet::dpair(other.blur.deep(), crate::facet::dpair(other.backdrop_blur.deep(), crate::facet::dpair(other.brightness.deep(), crate::facet::dpair(other.contrast.deep(), crate::facet::dpair(other.saturate.deep(), crate::facet::dpair(other.grayscale.deep(), other.hue_rotate.deep()))))))) == (e0 && e1 && e2 && e3 && e4 && e5 && e6));
        }
        e0 && e1 && e2 && e3 && e4 && e5 && e6
    }

    fn duplicate(&self) -> (r: Self) {
        Filter { blur: self.blur.duplicate(), backdrop_blur: self.backdrop_blur.duplicate(), brightness: self.brightness.duplicate(), contrast: self.contrast.duplicate(), saturate: self.saturate.duplicate(), grayscale: self.grayscale.duplicate(), hue_rotate: self.hue_rotate.duplicate() }
    }
}

#[derive(Debug, Clone, Copy, PartialEq)]
pub struct GlassMaterial {
    pub tint: Color,
    pub blur: F32,
    pub saturate: F32,
    pub brightness: F32,
    pub rim: Color,
    pub rim_width: F32,
    pub radius: F32,
    pub elevation: F32,
}

impl Facet for GlassMaterial {
    open spec fn deep(&self) -> DeepValue {
        crate::facet::dpair(self.tint.deep(), crate::facet::dpair(self.blur.deep(), crate::facet::dpair(self.saturate.deep(), crate::facet::dpair(self.brightness.deep(), crate::facet::dpair(self.rim.deep(), crate::facet::dpair(self.rim_width.deep(), crate::facet::dpair(self.radius.deep(), self.elevation.deep())))))))
    }

    fn equals(&self, other: &Self) -> (r: bool) {
        let e0 = self.tint.equals(&other.tint);
        let e1 = self.blur.equals(&other.blur);
        let e2 = self.saturate.equals(&other.saturate);
        let e3 = self.brightness.equals(&other.brightness);
        let e4 = self.rim.equals(&other.rim);
        let e5 = self.rim_width.equals(&other.rim_width);
        let e6 = self.radius.equals(&other.radius);
        let e7 = self.elevation.equals(&other.elevation);
        proof {
            assert(crate::facet::deep_eq(crate::facet::dpair(self.radius.deep(), self.elevation.deep()), crate::facet::dpair(other.radius.deep(), other.elevation.deep())) == (e6 && e7));
            assert(crate::facet::deep_eq(crate::facet::dpair(self.rim_width.deep(), crate::facet::dpair(self.radius.deep(), self.elevation.deep())), crate::facet::dpair(other.rim_width.deep(), crate::facet::dpair(other.radius.deep(), other.elevation.deep()))) == (e5 && e6 && e7));
            assert(crate::facet::deep_eq(crate::facet::dpair(self.rim.deep(), crate::facet::dpair(self.rim_width.deep(), crate::facet::dpair(self.radius.deep(), self.elevation.deep()))), crate::facet::dpair(other.rim.deep(), crate::facet::dpair(other.rim_width.deep(), crate::facet::dpair(other.radius.deep(), other.elevation.deep())))) == (e4 && e5 && e6 && e7));
            assert(crate::facet::deep_eq(crate::facet::dpair(self.brightness.deep(), crate::facet::dpair(self.rim.deep(), crate::facet::dpair(self.rim_width.deep(), crate::facet::dpair(self.radius.deep(), self.elevation.deep())))), crate::facet::dpair(other.brightness.deep(), crate::facet::dpair(other.rim.deep(), crate::facet::dpair(other.rim_width.deep(), crate::facet::dpair(other.radius.deep(), other.elevation.deep()))))) == (e3 && e4 && e5 && e6 && e7));
            assert(crate::facet::deep_eq(crate::facet::dpair(self.saturate.deep(), crate::facet::dpair(self.brightness.deep(), crate::facet::dpair(self.rim.deep(), crate::facet::dpair(self.rim_width.deep(), crate::facet::dpair(self.radius.deep(), self.elevation.deep()))))), crate::facet::dpair(other.saturate.deep(), crate::facet::dpair(other.brightness.deep(), crate::facet::dpair(other.rim.deep(), crate::facet::dpair(other.rim_width.deep(), crate::facet::dpair(other.radius.deep(), other.elevation.deep())))))) == (e2 && e3 && e4 && e5 && e6 && e7));
            assert(crate::facet::deep_eq(crate::facet::dpair(self.blur.deep(), crate::facet::dpair(self.saturate.deep(), crate::facet::dpair(self.brightness.deep(), crate::facet::dpair(self.rim.deep(), crate::facet::dpair(self.rim_width.deep(), crate::facet::dpair(self.radius.deep(), self.elevation.deep())))))), crate::facet::dpair(other.blur.deep(), crate::facet::dpair(other.saturate.deep(), crate::facet::dpair(other.brightness.deep(), crate::facet::dpair(other.rim.deep(), crate::facet::dpair(other.rim_width.deep(), crate::facet::dpair(other.radius.deep(), other.elevation.deep()))))))) == (e1 && e2 && e3 && e4 && e5 && e6 && e7));
            assert(crate::facet::deep_eq(crate::facet::dpair(self.tint.deep(), crate::facet::dpair(self.blur.deep(), crate::facet::dpair(self.saturate.deep(), crate::facet::dpair(self.brightness.deep(), crate::facet::dpair(self.rim.deep(), crate::facet::dpair(self.rim_width.deep(), crate::facet::dpair(self.radius.deep(), self.elevation.deep()))))))), crate::facet::dpair(other.tint.deep(), crate::facet::dpair(other.blur.deep(), crate::facet::dpair(other.saturate.deep(), crate::facet::dpair(other.brightness.deep(), crate::facet::dpair(other.rim.deep(), crate::facet::dpair(other.rim_width.deep(), crate::facet::dpair(other.radius.deep(), other.elevation.deep())))))))) == (e0 && e1 && e2 && e3 && e4 && e5 && e6 && e7));
        }
        e0 && e1 && e2 && e3 && e4 && e5 && e6 && e7
    }

    fn duplicate(&self) -> (r: Self) {
        GlassMaterial { tint: self.tint.duplicate(), blur: self.blur.duplicate(), saturate: self.saturate.duplicate(), brightness: self.brightness.duplicate(), rim: self.rim.duplicate(), rim_width: self.rim_width.duplicate(), radius: self.radius.duplicate(), elevation: self.elevation.duplicate() }
    }
}

#[derive(Debug, Clone, Copy, PartialEq, Eq, Structural, Default)]
pub enum FlexDirection {
    #[default]
    Row,
    Column,
    RowReverse,
    ColumnReverse,
}

impl FlexDirection {
    /// The position of the variant in the declaration.
    pub open spec fn variant(&self) -> nat {
        match self {
            FlexDirection::Row => 0,
            FlexDirection::Column => 1,
            FlexDirection::RowReverse => 2,
            FlexDirection::ColumnReverse => 3,
        }
    }
}

impl Facet for FlexDirection {
    open spec fn deep(&self) -> DeepValue {
        match self {
            FlexDirection::Row => DeepValue::Tag(0),
            FlexDirection::Column => DeepValue::Tag(1),
            FlexDirection::RowReverse => DeepValue::Tag(2),
            FlexDirection::ColumnReverse => DeepValue::Tag(3),
        }
    }

    fn equals(&self, other: &Self) -> (r: bool) {
        *self == *other
    }

    fn duplicate(&self) -> (r: Self) {
        *self
    }
}

#[derive(Debug, Clone, Copy, PartialEq, Eq, Structural, Default)]
pub enum Display {
    #[default]
    Flex,
    Block,
    Grid,
    Stack,
    Hidden,
}

impl Display {
    /// The position of the variant in the declaration.
    pub open spec fn variant(&self) -> nat {
        match self {
            Display::Flex => 0,
            Display::Block => 1,
            Display::Grid => 2,
            Display::Stack => 3,
            Display::Hidden => 4,
        }
    }
}

impl Facet for Display {
    open spec fn deep(&self) -> DeepValue {
        match self {
            Display::Flex => DeepValue::Tag(0),
            Display::Block => DeepValue::Tag(1),
            Display::Grid => DeepValue::Tag(2),
            Display::Stack => DeepValue::Tag(3),
            Display::Hidden => DeepValue::Tag(4),
        }
    }

    fn equals(&self, other: &Self) -> (r: bool) {
        *self == *other
    }

    fn duplicate(&self) -> (r: Self) {
        *self
    }
}

#[derive(Debug, Clone, Copy, PartialEq, Eq, Structural, Default)]
pub enum Align {
    #[default]
    Stretch,
    Start,
    Center,
    End,
    Baseline,
}

impl Align {
    /// The position of the variant in the declaration.
    pub open spec fn variant(&self) -> nat {
        match self {
            Align::Stretch => 0,
            Align::Start => 1,
            Align::Center => 2,
            Align::End => 3,
            Align::Baseline => 4,
        }
    }
}

impl Facet for Align {
    open spec fn deep(&self) -> DeepValue {
        match self {
            Align::Stretch => DeepValue::Tag(0),
            Align::Start => DeepValue::Tag(1),
            Align::Center => DeepValue::Tag(2),
            Align::End => DeepValue::Tag(3),
            Align::Baseline => DeepValue::Tag(4),
        }
    }

    fn equals(&self, other: &Self) -> (r: bool) {
        *self == *other
    }

    fn duplicate(&self) -> (r: Self) {
        *self
    }
}

#[derive(Debug, Clone, Copy, PartialEq, Eq, Structural, Default)]
pub enum Justify {
    #[default]
    Start,
    Center,
    End,
    Between,
    Around,
    Evenly,
}

impl Justify {
    /// The position of the variant in the declaration.
    pub open spec fn variant(&self) -> nat {
        match self {
            Justify::Start => 0,
            Justify::Center => 1,
            Justify::End => 2,
            Justify::Between => 3,
            Justify::Around => 4,
            Justify::Evenly => 5,
        }
    }
}

impl Facet for Justify {
    open spec fn deep(&self) -> DeepValue {
        match self {
            Justify::Start => DeepValue::Tag(0),
            Justify::Center => DeepValue::Tag(1),
            Justify::End => DeepValue::Tag(2),
            Justify::Between => DeepValue::Tag(3),
            Justify::Around => DeepValue::Tag(4),
            Justify::Evenly => DeepValue::Tag(5),
        }
    }

    fn equals(&self, other: &Self) -> (r: bool) {
        *self == *other
    }

    fn duplicate(&self) -> (r: Self) {
        *self
    }
}

#[derive(Debug, Clone, Copy, PartialEq, Eq, Structural, Default)]
pub enum Overflow {
    #[default]
    Visible,
    Hidden,
    Scroll,
    Auto,
    Clip,
}

impl Overflow {
    /// The position of the variant in the declaration.
    pub open spec fn variant(&self) -> nat {
        match self {
            Overflow::Visible => 0,
            Overflow::Hidden => 1,
            Overflow::Scroll => 2,
            Overflow::Auto => 3,
            Overflow::Clip => 4,
        }
    }
}

impl Facet for Overflow {
    open spec fn deep(&self) -> DeepValue {
        match self {
            Overflow::Visible => DeepValue::Tag(0),
            Overflow::Hidden => DeepValue::Tag(1),
            Overflow::Scroll => DeepValue::Tag(2),
            Overflow::Auto => DeepValue::Tag(3),
            Overflow::Clip => DeepValue::Tag(4),
        }
    }

    fn equals(&self, other: &Self) -> (r: bool) {
        *self == *other
    }

    fn duplicate(&self) -> (r: Self) {
        *self
    }
}

#[derive(Debug, Clone, Copy, PartialEq, Eq, Structural, Default)]
pub enum Position {
    #[default]
    Relative,
    Absolute,
    Fixed,
    Sticky,
}

impl Position {
    /// The position of the variant in the declaration.
    pub open spec fn variant(&self) -> nat {
        match self {
            Position::Relative => 0,
            Position::Absolute => 1,
            Position::Fixed => 2,
            Position::Sticky => 3,
        }
    }
}

impl Facet for Position {
    open spec fn deep(&self) -> DeepValue {
        match self {
            Position::Relative => DeepValue::Tag(0),
            Position::Absolute => DeepValue::Tag(1),
            Position::Fixed => DeepValue::Tag(2),
            Position::Sticky => DeepValue::Tag(3),
        }
    }

    fn equals(&self, other: &Self) -> (r: bool) {
        *self == *other
    }

    fn duplicate(&self) -> (r: Self) {
        *self
    }
}

#[derive(Debug, Clone, PartialEq)]
pub struct Style {
    pub width: Option<Length>,
    pub height: Option<Length>,
    pub min_width: Option<Length>,
    pub min_height: Option<Length>,
    pub max_width: Option<Length>,
    pub max_height: Option<Length>,
    pub padding: Option<Edges>,
    pub margin: Option<Edges>,
    pub display: Option<Display>,
    pub direction: Option<FlexDirection>,
    pub align_items: Option<Align>,
    pub align_self: Option<Align>,
    pub justify_content: Option<Justify>,
    pub gap: Option<F32>,
    pub row_gap: Option<F32>,
    pub column_gap: Option<F32>,
    pub flex_grow: Option<F32>,
    pub flex_shrink: Option<F32>,
    pub flex_basis: Option<Length>,
    pub wrap: Option<bool>,
    pub grid_template_columns: Option<String>,
    pub grid_template_rows: Option<String>,
    pub grid_column: Option<String>,
    pub grid_row: Option<String>,
    pub position: Option<Position>,
    pub inset: Option<Edges>,
    pub z_index: Option<i32>,
    pub overflow_x: Option<Overflow>,
    pub overflow_y: Option<Overflow>,
    pub background: Option<Brush>,
    pub foreground: Option<Color>,
    pub border_width: Option<F32>,
    pub border_color: Option<Color>,
    pub radius: Option<CornerRadius>,
    pub shadows: Vec<Shadow>,
    pub opacity: Option<F32>,
    pub transform: Option<Transform>,
    pub filter: Option<Filter>,
    pub glass: Option<bool>,
    pub glass_material: Option<GlassMaterial>,
    pub cursor: Option<String>,
    pub classes: Vec<String>,
    pub css: Option<String>,
}

impl Facet for Style {
    open spec fn deep(&self) -> DeepValue {
        crate::facet::dpair(self.width.deep(), crate::facet::dpair(self.height.deep(), crate::facet::dpair(self.min_width.deep(), crate::facet::dpair(self.min_height.deep(), crate::facet::dpair(self.max_width.deep(), crate::facet::dpair(self.max_height.deep(), crate::facet::dpair(self.padding.deep(), crate::facet::dpair(self.margin.deep(), crate::facet::dpair(self.display.deep(), crate::facet::dpair(self.direction.deep(), crate::facet::dpair(self.align_items.deep(), crate::facet::dpair(self.align_self.deep(), crate::facet::dpair(self.justify_content.deep(), crate::facet::dpair(self.gap.deep(), crate::facet::dpair(self.row_gap.deep(), crate::facet::dpair(self.column_gap.deep(), crate::facet::dpair(self.flex_grow.deep(), crate::facet::dpair(self.flex_shrink.deep(), crate::facet::dpair(self.flex_basis.deep(), crate::facet::dpair(self.wrap.deep(), crate::facet::dpair(self.grid_template_columns.deep(), crate::facet::dpair(self.grid_template_rows.deep(), crate::facet::dpair(self.grid_column.deep(), crate::facet::dpair(self.grid_row.deep(), crate::facet::dpair(self.position.deep(), crate::facet::dpair(self.inset.deep(), crate::facet::dpair(self.z_index.deep(), crate::facet::dpair(self.overflow_x.deep(), crate::facet::dpair(self.overflow_y.deep(), crate::facet::dpair(self.background.deep(), crate::facet::dpair(self.foreground.deep(), crate::facet::dpair(self.border_width.deep(), crate::facet::dpair(self.border_color.deep(), crate::facet::dpair(self.radius.deep(), crate::facet::dpair(self.shadows.deep(), crate::facet::dpair(self.opacity.deep(), crate::facet::dpair(self.transform.deep(), crate::facet::dpair(self.filter.deep(), crate::facet::dpair(self.glass.deep(), crate::facet::dpair(self.glass_material.deep(), crate::facet::dpair(self.cursor.deep(), crate::facet::dpair(self.classes.deep(), self.css.deep()))))))))))))))))))))))))))))))))))))))))))
    }

    fn equals(&self, other: &Self) -> (r: bool) {
        let e0 = self.width.equals(&other.width);
        let e1 = self.height.equals(&other.height);
        let e2 = self.min_width.equals(&other.min_width);
        let e3 = self.min_height.equals(&other.min_height);
        let e4 = self.max_width.equals(&other.max_width);
        let e5 = self.max_height.equals(&other.max_height);
        let e6 = self.padding.equals(&other.padding);
        let e7 = self.margin.equals(&other.margin);
        let e8 = self.display.equals(&other.display);
        let e9 = self.direction.equals(&other.direction);
        let e10 = self.align_items.equals(&other.align_items);
        let e11 = self.align_self.equals(&other.align_self);
        let e12 = self.justify_content.equals(&other.justify_content);
        let e13 = self.gap.equals(&other.gap);
        let e14 = self.row_gap.equals(&other.row_gap);
        let e15 = self.column_gap.equals(&other.column_gap);
        let e16 = self.flex_grow.equals(&other.flex_grow);
        let e17 = self.flex_shrink.equals(&other.flex_shrink);
        let e18 = self.flex_basis.equals(&other.flex_basis);
        let e19 = self.wrap.equals(&other.wrap);
        let e20 = self.grid_template_columns.equals(&other.grid_template_columns);
        let e21 = self.grid_template_rows.equals(&other.grid_template_rows);
        let e22 = self.grid_column.equals(&other.grid_column);
        let e23 = self.grid_row.equals(&other.grid_row);
        let e24 = self.position.equals(&other.position);
        let e25 = self.inset.equals(&other.inset);
        let e26 = self.z_index.equals(&other.z_index);
        let e27 = self.overflow_x.equals(&other.overflow_x);
        let e28 = self.overflow_y.equals(&other.overflow_y);
        let e29 = self.background.equals(&other.background);
        let e30 = self.foreground.equals(&other.foreground);
        let e31 = self.border_width.equals(&other.border_width);
        let e32 = self.border_color.equals(&other.border_color);
        let e33 = self.radius.equals(&other.radius);
        let e34 = self.shadows.equals(&other.shadows);
        let e35 = self.opacity.equals(&other.opacity);
        let e36 = self.transform.equals(&other.transform);
        let e37 = self.filter.equals(&other.filter);
        let e38 = self.glass.equals(&other.glass);
        let e39 = self.glass_material.equals(&other.glass_material);
        let e40 = self.cursor.equals(&other.cursor);
        let e41 = self.classes.equals(&other.classes);
        let e42 = self.css.equals(&other.css);
        proof {
            assert(crate::facet::deep_eq(crate::facet::dpair(self.classes.deep(), self.css.deep()), crate::facet::dpair(other.classes.deep(), other.css.deep())) == (e41 && e42));
            assert(crate::facet::deep_eq(crate::facet::dpair(self.cursor.deep(), crate::facet::dpair(self.classes.deep(), self.css.deep())), crate::facet::dpair(other.cursor.deep(), crate::facet::dpair(other.classes.deep(), other.css.deep()))) == (e40 && e41 && e42));
            assert(crate::facet::deep_eq(crate::facet::dpair(self.glass_material.deep(), crate::facet::dpair(self.cursor.deep(), crate::facet::dpair(self.classes.deep(), self.css.deep()))), crate::facet::dpair(other.glass_material.deep(), crate::facet::dpair(other.cursor.deep(), crate::facet::dpair(other.classes.deep(), other.css.deep())))) == (e39 && e40 && e41 && e42));
            assert(crate::facet::deep_eq(crate::facet::dpair(self.glass.deep(), crate::facet::dpair(self.glass_material.deep(), crate::facet::dpair(self.cursor.deep(), crate::facet::dpair(self.classes.deep(), self.css.deep())))), crate::facet::dpair(other.glass.deep(), crate::facet::dpair(other.glass_material.deep(), crate::facet::dpair(other.cursor.deep(), crate::facet::dpair(other.classes.deep(), other.css.deep()))))) == (e38 && e39 && e40 && e41 && e42));
            assert(crate::facet::deep_eq(crate::facet::dpair(self.filter.deep(), crate::facet::dpair(self.glass.deep(), crate::facet::dpair(self.glass_material.deep(), crate::facet::dpair(self.cursor.deep(), crate::facet::dpair(self.classes.deep(), self.css.deep()))))), crate::facet::dpair(other.filter.deep(), crate::facet::dpair(other.glass.deep(), crate::facet::dpair(other.glass_material.deep(), crate::facet::dpair(other.cursor.deep(), crate::facet::dpair(other.classes.deep(), other.css.deep())))))) == (e37 && e38 && e39 && e40 && e41 && e42));
            assert(crate::facet::deep_eq(crate::facet::dpair(self.transform.deep(), crate::facet::dpair(self.filter.deep(), crate::facet::dpair(self.glass.deep(), crate::facet::dpair(self.glass_material.deep(), crate::facet::dpair(self.cursor.deep(), crate::facet::dpair(self.classes.deep(), self.css.deep())))))), crate::facet::dpair(other.transform.deep(), crate::facet::dpair(other.filter.deep(), crate::facet::dpair(other.glass.deep(), crate::facet::dpair(other.glass_material.deep(), crate::facet::dpair(other.cursor.deep(), crate::facet::dpair(other.classes.deep(), other.css.deep()))))))) == (e36 && e37 && e38 && e39 && e40 && e41 && e42));
            assert(crate::facet::deep_eq(crate::facet::dpair(self.opacity.deep(), crate::facet::dpair(self.transform.deep(), crate::facet::dpair(self.filter.deep(), crate::facet::dpair(self.glass.deep(), crate::facet::dpair(self.glass_material.deep(), crate::facet::dpair(self.cursor.deep(), crate::facet::dpair(self.classes.deep(), self.css.deep()))))))), crate::facet::dpair(other.opacity.deep(), crate::facet::dpair(other.transform.deep(), crate::facet::dpair(other.filter.deep(), crate::facet::dpair(other.glass.deep(), crate::facet::dpair(other.glass_material.deep(), crate::facet::dpair(other.cursor.deep(), crate::facet::dpair(other.classes.deep(), other.css.deep())))))))) == (e35 && e36 && e37 && e38 && e39 && e40 && e41 && e42));
            assert(crate::facet::deep_eq(crate::facet::dpair(self.shadows.deep(), crate::facet::dpair(self.opacity.deep(), crate::facet::dpair(self.transform.deep(), crate::facet::dpair(self.filter.deep(), crate::facet::dpair(self.glass.deep(), crate::facet::dpair(self.glass_material.deep(), crate::facet::dpair(self.cursor.deep(), crate::facet::dpair(self.classes.deep(), self.css.deep())))))))), crate::facet::dpair(other.shadows.deep(), crate::facet::dpair(other.opacity.deep(), crate::facet::dpair(other.transform.deep(), crate::facet::dpair(other.filter.deep(), crate::facet::dpair(other.glass.deep(), crate::facet::dpair(other.glass_material.deep(), crate::facet::dpair(other.cursor.deep(), crate::facet::dpair(other.classes.deep(), other.css.deep()))))))))) == (e34 && e35 && e36 && e37 && e38 && e39 && e40 && e41 && e42));
            assert(crate::facet::deep_eq(crate::facet::dpair(self.radius.deep(), crate::facet::dpair(self.shadows.deep(), crate::facet::dpair(self.opacity.deep(), crate::facet::dpair(self.transform.deep(), crate::facet::dpair(self.filter.deep(), crate::facet::dpair(self.glass.deep(), crate::facet::dpair(self.glass_material.deep(), crate::facet::dpair(self.cursor.deep(), crate::facet::dpair(self.classes.deep(), self.css.deep()))))))))), crate::facet::dpair(other.radius.deep(), crate::facet::dpair(other.shadows.deep(), crate::facet::dpair(other.opacity.deep(), crate::facet::dpair(other.transform.deep(), crate::facet::dpair(other.filter.deep(), crate::facet::dpair(other.glass.deep(), crate::facet::dpair(other.glass_material.deep(), crate::facet::dpair(other.cursor.deep(), crate::facet::dpair(other.classes.deep(), other.css.deep())))))))))) == (e33 && e34 && e35 && e36 && e37 && e38 && e39 && e40 && e41 && e42));
            assert(crate::facet::deep_eq(crate::facet::dpair(self.border_color.deep(), crate::facet::dpair(self.radius.deep(), crate::facet::dpair(self.shadows.deep(), crate::facet::dpair(self.opacity.deep(), crate::facet::dpair(self.transform.deep(), crate::facet::dpair(self.filter.deep(), crate::facet::dpair(self.glass.deep(), crate::facet::dpair(self.glass_material.deep(), crate::facet::dpair(self.cursor.deep(), crate::facet::dpair(self.classes.deep(), self.css.deep())))))))))), crate::facet::dpair(other.border_color.deep(), crate::facet::dpair(other.radius.deep(), crate::facet::dpair(other.shadows.deep(), crate::facet::dpair(other.opacity.deep(), crate::facet::dpair(other.transform.deep(), crate::facet::dpair(other.filter.deep(), crate::facet::dpair(other.glass.deep(), crate::facet::dpair(other.glass_material.deep(), crate::facet::dpair(other.cursor.deep(), crate::facet::dpair(other.classes.deep(), other.css.deep()))))))))))) == (e32 && e33 && e34 && e35 && e36 && e37 && e38 && e39 && e40 && e41 && e42));
            assert(crate::facet::deep_eq(crate::facet::dpair(self.border_width.deep(), crate::facet::dpair(self.border_color.deep(), crate::facet::dpair(self.radius.deep(), crate::facet::dpair(self.shadows.deep(), crate::facet::dpair(self.opacity.deep(), crate::facet::dpair(self.transform.deep(), crate::facet::dpair(self.filter.deep(), crate::facet::dpair(self.glass.deep(), crate::facet::dpair(self.glass_material.deep(), crate::facet::dpair(self.cursor.deep(), crate::facet::dpair(self.classes.deep(), self.css.deep()))))))))))), crate::facet::dpair(other.border_width.deep(), crate::facet::dpair(other.border_color.deep(), crate::facet::dpair(other.radius.deep(), crate::facet::dpair(other.shadows.deep(), crate::facet::dpair(other.opacity.deep(), crate::facet::dpair(other.transform.deep(), crate::facet::dpair(other.filter.deep(), crate::facet::dpair(other.glass.deep(), crate::facet::dpair(other.glass_material.deep(), crate::facet::dpair(other.cursor.deep(), crate::facet::dpair(other.classes.deep(), other.css.deep())))))))))))) == (e31 && e32 && e33 && e34 && e35 && e36 && e37 && e38 && e39 && e40 && e41 && e42));
            assert(crate::facet::deep_eq(crate::facet::dpair(self.foreground.deep(), crate::facet::dpair(self.border_width.deep(), crate::facet::dpair(self.border_color.deep(), crate::facet::dpair(self.radius.deep(), crate::facet::dpair(self.shadows.deep(), crate::facet::dpair(self.opacity.deep(), crate::facet::dpair(self.transform.deep(), crate::facet::dpair(self.filter.deep(), crate::facet::dpair(self.glass.deep(), crate::facet::dpair(self.glass_material.deep(), crate::facet::dpair(self.cursor.deep(), crate::facet::dpair(self.classes.deep(), self.css.deep())))))))))))), crate::facet::dpair(other.foreground.deep(), crate::facet::dpair(other.border_width.deep(), crate::facet::dpair(other.border_color.deep(), crate::facet::dpair(other.radius.deep(), crate::facet::dpair(other.shadows.deep(), crate::facet::dpair(other.opacity.deep(), crate::facet::dpair(other.transform.deep(), crate::facet::dpair(other.filter.deep(), crate::facet::dpair(other.glass.deep(), crate::facet::dpair(other.glass_material.deep(), crate::facet::dpair(other.cursor.deep(), crate::facet::dpair(other.classes.deep(), other.css.deep()))))))))))))) == (e30 && e31 && e32 && e33 && e34 && e35 && e36 && e37 && e38 && e39 && e40 && e41 && e42));
            assert(crate::facet::deep_eq(crate::facet::dpair(self.background.deep(), crate::facet::dpair(self.foreground.deep(), crate::facet::dpair(self.border_width.deep(), crate::facet::dpair(self.border_color.deep(), crate::facet::dpair(self.radius.deep(), crate::facet::dpair(self.shadows.deep(), crate::facet::dpair(self.opacity.deep(), crate::facet::dpair(self.transform.deep(), crate::facet::dpair(self.filter.deep(), crate::facet::dpair(self.glass.deep(), crate::facet::dpair(self.glass_material.deep(), crate::facet::dpair(self.cursor.deep(), crate::facet::dpair(self.classes.deep(), self.css.deep()))))))))))))), crate::facet::dpair(other.background.deep(), crate::facet::dpair(other.foreground.deep(), crate::facet::dpair(other.border_width.deep(), crate::facet::dpair(other.border_color.deep(), crate::facet::dpair(other.radius.deep(), crate::facet::dpair(other.shadows.deep(), crate::facet::dpair(other.opacity.deep(), crate::facet::dpair(other.transform.deep(), crate::facet::dpair(other.filter.deep(), crate::facet::dpair(other.glass.deep(), crate::facet::dpair(other.glass_material.deep(), crate::facet::dpair(other.cursor.deep(), crate::facet::dpair(other.classes.deep(), other.css.deep())))))))))))))) == (e29 && e30 && e31 && e32 && e33 && e34 && e35 && e36 && e37 && e38 && e39 && e40 && e41 && e42));
            assert(crate::facet::deep_eq(crate::facet::dpair(self.overflow_y.deep(), crate::facet::dpair(self.background.deep(), crate::facet::dpair(self.foreground.deep(), crate::facet::dpair(self.border_width.deep(), crate::facet::dpair(self.border_color.deep(), crate::facet::dpair(self.radius.deep(), crate::facet::dpair(self.shadows.deep(), crate::facet::dpair(self.opacity.deep(), crate::facet::dpair(self.transform.deep(), crate::facet::dpair(self.filter.deep(), crate::facet::dpair(self.glass.deep(), crate::facet::dpair(self.glass_material.deep(), crate::facet::dpair(self.cursor.deep(), crate::facet::dpair(self.classes.deep(), self.css.deep())))))))))))))), crate::facet::dpair(other.overflow_y.deep(), crate::facet::dpair(other.background.deep(), crate::facet::dpair(other.foreground.deep(), crate::facet::dpair(other.border_width.deep(), crate::facet::dpair(other.border_color.deep(), crate::facet::dpair(other.radius.deep(), crate::facet::dpair(other.shadows.deep(), crate::facet::dpair(other.opacity.deep(), crate::facet::dpair(other.transform.deep(), crate::facet::dpair(other.filter.deep(), crate::facet::dpair(other.glass.deep(), crate::facet::dpair(other.glass_material.deep(), crate::facet::dpair(other.cursor.deep(), crate::facet::dpair(other.classes.deep(), other.css.deep()))))))))))))))) == (e28 && e29 && e30 && e31 && e32 && e33 && e34 && e35 && e36 && e37 && e38 && e39 && e40 && e41 && e42));
            assert(crate::facet::deep_eq(crate::facet::dpair(self.overflow_x.deep(), crate::facet::dpair(self.overflow_y.deep(), crate::facet::dpair(self.background.deep(), crate::facet::dpair(self.foreground.deep(), crate::facet::dpair(self.border_width.deep(), crate::facet::dpair(self.border_color.deep(), crate::facet::dpair(self.radius.deep(), crate::facet::dpair(self.shadows.deep(), crate::facet::dpair(self.opacity.deep(), crate::facet::dpair(self.transform.deep(), crate::facet::dpair(self.filter.deep(), crate::facet::dpair(self.glass.deep(), crate::facet::dpair(self.glass_material.deep(), crate::facet::dpair(self.cursor.deep(), crate::facet::dpair(self.classes.deep(), self.css.deep()))))))))))))))), crate::facet::dpair(other.overflow_x.deep(), crate::facet::dpair(other.overflow_y.deep(), crate::facet::dpair(other.background.deep(), crate::facet::dpair(other.foreground.deep(), crate::facet::dpair(other.border_width.deep(), crate::facet::dpair(other.border_color.deep(), crate::facet::dpair(other.radius.deep(), crate::facet::dpair(other.shadows.deep(), crate::facet::dpair(other.opacity.deep(), crate::facet::dpair(other.transform.deep(), crate::facet::dpair(other.filter.deep(), crate::facet::dpair(other.glass.deep(), crate::facet::dpair(other.glass_material.deep(), crate::facet::dpair(other.cursor.deep(), crate::facet::dpair(other.classes.deep(), other.css.deep())))))))))))))))) == (e27 && e28 && e29 && e30 && e31 && e32 && e33 && e34 && e35 && e36 && e37 && e38 && e39 && e40 && e41 && e42));
            assert(crate::facet::deep_eq(crate::facet::dpair(self.z_index.deep(), crate::facet::dpair(self.overflow_x.deep(), crate::facet::dpair(self.overflow_y.deep(), crate::facet::dpair(self.background.deep(), crate::facet::dpair(self.foreground.deep(), crate::facet::dpair(self.border_width.deep(), crate::facet::dpair(self.border_color.deep(), crate::facet::dpair(self.radius.deep(), crate::facet::dpair(self.shadows.deep(), crate::facet::dpair(self.opacity.deep(), crate::facet::dpair(self.transform.deep(), crate::facet::dpair(self.filter.deep(), crate::facet::dpair(self.glass.deep(), crate::facet::dpair(self.glass_material.deep(), crate::facet::dpair(self.cursor.deep(), crate::facet::dpair(self.classes.deep(), self.css.deep())))))))))))))))), crate::facet::dpair(other.z_index.deep(), crate::facet::dpair(other.overflow_x.deep(), crate::facet::dpair(other.overflow_y.deep(), crate::facet::dpair(other.background.deep(), crate::facet::dpair(other.foreground.deep(), crate::facet::dpair(other.border_width.deep(), crate::facet::dpair(other.border_color.deep(), crate::facet::dpair(other.radius.deep(), crate::facet::dpair(other.shadows.deep(), crate::facet::dpair(other.opacity.deep(), crate::facet::dpair(other.transform.deep(), crate::facet::dpair(other.filter.deep(), crate::facet::dpair(other.glass.deep(), crate::facet::dpair(other.glass_material.deep(), crate::facet::dpair(other.cursor.deep(), crate::facet::dpair(other.classes.deep(), other.css.deep()))))))))))))))))) == (e26 && e27 && e28 && e29 && e30 && e31 && e32 && e33 && e34 && e35 && e36 && e37 && e38 && e39 && e40 && e41 && e42));
            assert(crate::facet::deep_eq(crate::facet::dpair(self.inset.deep(), crate::facet::dpair(self.z_index.deep(), crate::facet::dpair(self.overflow_x.deep(), crate::facet::dpair(self.overflow_y.deep(), crate::facet::dpair(self.background.deep(), crate::facet::dpair(self.foreground.deep(), crate::facet::dpair(self.border_width.deep(), crate::facet::dpair(self.border_color.deep(), crate::facet::dpair(self.radius.deep(), crate::facet::dpair(self.shadows.deep(), crate::facet::dpair(self.opacity.deep(), crate::facet::dpair(self.transform.deep(), crate::facet::dpair(self.filter.deep(), crate::facet::dpair(self.glass.deep(), crate::facet::dpair(self.glass_material.deep(), crate::facet::dpair(self.cursor.deep(), crate::facet::dpair(self.classes.deep(), self.css.deep()))))))))))))))))), crate::facet::dpair(other.inset.deep(), crate::facet::dpair(other.z_index.deep(), crate::facet::dpair(other.overflow_x.deep(), crate::facet::dpair(other.overflow_y.deep(), crate::facet::dpair(other.background.deep(), crate::facet::dpair(other.foreground.deep(), crate::facet::dpair(other.border_width.deep(), crate::facet::dpair(other.border_color.deep(), crate::facet::dpair(other.radius.deep(), crate::facet::dpair(other.shadows.deep(), crate::facet::dpair(other.opacity.deep(), crate::facet::dpair(other.transform.deep(), crate::facet::dpair(other.filter.deep(), crate::facet::dpair(other.glass.deep(), crate::facet::dpair(other.glass_material.deep(), crate::facet::dpair(other.cursor.deep(), crate::facet::dpair(other.classes.deep(), other.css.deep())))))))))))))))))) == (e25 && e26 && e27 && e28 && e29 && e30 && e31 && e32 && e33 && e34 && e35 && e36 && e37 && e38 && e39 && e40 && e41 && e42));
            assert(crate::facet::deep_eq(crate::facet::dpair(self.position.deep(), crate::facet::dpair(self.inset.deep(), crate::facet::dpair(self.z_index.deep(), crate::facet::dpair(self.overflow_x.deep(), crate::facet::dpair(self.overflow_y.deep(), crate::facet::dpair(self.background.deep(), crate::facet::dpair(self.foreground.deep(), crate::facet::dpair(self.border_width.deep(), crate::facet::dpair(self.border_color.deep(), crate::facet::dpair(self.radius.deep(), crate::facet::dpair(self.shadows.deep(), crate::facet::dpair(self.opacity.deep(), crate::facet::dpair(self.transform.deep(), crate::facet::dpair(self.filter.deep(), crate::facet::dpair(self.glass.deep(), crate::facet::dpair(self.glass_material.deep(), crate::facet::dpair(self.cursor.deep(), crate::facet::dpair(self.classes.deep(), self.css.deep())))))))))))))))))), crate::facet::dpair(other.position.deep(), crate::facet::dpair(other.inset.deep(), crate::facet::dpair(other.z_index.deep(), crate::facet::dpair(other.overflow_x.deep(), crate::facet::dpair(other.overflow_y.deep(), crate::facet::dpair(other.background.deep(), crate::facet::dpair(other.foreground.deep(), crate::facet::dpair(other.border_width.deep(), crate::facet::dpair(other.border_color.deep(), crate::facet::dpair(other.radius.deep(), crate::facet::dpair(other.shadows.deep(), crate::facet::dpair(other.opacity.deep(), crate::facet::dpair(other.transform.deep(), crate::facet::dpair(other.filter.deep(), crate::facet::dpair(other.glass.deep(), crate::facet::dpair(other.glass_material.deep(), crate::facet::dpair(other.cursor.deep(), crate::facet::dpair(other.classes.deep(), other.css.deep()))))))))))))))))))) == (e24 && e25 && e26 && e27 && e28 && e29 && e30 && e31 && e32 && e33 && e34 && e35 && e36 && e37 && e38 && e39 && e40 && e41 && e42));
            assert(crate::facet::deep_eq(crate::facet::dpair(self.grid_row.deep(), crate::facet::dpair(self.position.deep(), crate::facet::dpair(self.inset.deep(), crate::facet::dpair(self.z_index.deep(), crate::facet::dpair(self.overflow_x.deep(), crate::facet::dpair(self.overflow_y.deep(), crate::facet::dpair(self.background.deep(), crate::facet::dpair(self.foreground.deep(), crate::facet::dpair(self.border_width.deep(), crate::facet::dpair(self.border_color.deep(), crate::facet::dpair(self.radius.deep(), crate::facet::dpair(self.shadows.deep(), crate::facet::dpair(self.opacity.deep(), crate::facet::dpair(self.transform.deep(), crate::facet::dpair(self.filter.deep(), crate::facet::dpair(self.glass.deep(), crate::facet::dpair(self.glass_material.deep(), crate::facet::dpair(self.cursor.deep(), crate::facet::dpair(self.classes.deep(), self.css.deep()))))))))))))))))))), crate::facet::dpair(other.grid_row.deep(), crate::facet::dpair(other.position.deep(), crate::facet::dpair(other.inset.deep(), crate::facet::dpair(other.z_index.deep(), crate::facet::dpair(other.overflow_x.deep(), crate::facet::dpair(other.overflow_y.deep(), crate::facet::dpair(other.background.deep(), crate::facet::dpair(other.foreground.deep(), crate::facet::dpair(other.border_width.deep(), crate::facet::dpair(other.border_color.deep(), crate::facet::dpair(other.radius.deep(), crate::facet::dpair(other.shadows.deep(), crate::facet::dpair(other.opacity.deep(), crate::facet::dpair(other.transform.deep(), crate::facet::dpair(other.filter.deep(), crate::facet::dpair(other.glass.deep(), crate::facet::dpair(other.glass_material.deep(), crate::facet::dpair(other.cursor.deep(), crate::facet::dpair(other.classes.deep(), other.css.deep())))))))))))))))))))) == (e23 && e24 && e25 && e26 && e27 && e28 && e29 && e30 && e31 && e32 && e33 && e34 && e35 && e36 && e37 && e38 && e39 && e40 && e41 && e42));
            assert(crate::facet::deep_eq(crate::facet::dpair(self.grid_column.deep(), crate::facet::dpair(self.grid_row.deep(), crate::facet::dpair(self.position.deep(), crate::facet::dpair(self.inset.deep(), crate::facet::dpair(self.z_index.deep(), crate::facet::dpair(self.overflow_x.deep(), crate::facet::dpair(self.overflow_y.deep(), crate::facet::dpair(self.background.deep(), crate::facet::dpair(self.foreground.deep(), crate::facet::dpair(self.border_width.deep(), crate::facet::dpair(self.border_color.deep(), crate::facet::dpair(self.radius.deep(), crate::facet::dpair(self.shadows.deep(), crate::facet::dpair(self.opacity.deep(), crate::facet::dpair(self.transform.deep(), crate::facet::dpair(self.filter.deep(), crate::facet::dpair(self.glass.deep(), crate::facet::dpair(self.glass_material.deep(), crate::facet::dpair(self.cursor.deep(), crate::facet::dpair(self.classes.deep(), self.css.deep())))))))))))))))))))), crate::facet::dpair(other.grid_column.deep(), crate::facet::dpair(other.grid_row.deep(), crate::facet::dpair(other.position.deep(), crate::facet::dpair(other.inset.deep(), crate::facet::dpair(other.z_index.deep(), crate::facet::dpair(other.overflow_x.deep(), crate::facet::dpair(other.overflow_y.deep(), crate::facet::dpair(other.background.deep(), crate::facet::dpair(other.foreground.deep(), crate::facet::dpair(other.border_width.deep(), crate::facet::dpair(other.border_color.deep(), crate::facet::dpair(other.radius.deep(), crate::facet::dpair(other.shadows.deep(), crate::facet::dpair(other.opacity.deep(), crate::facet::dpair(other.transform.deep(), crate::facet::dpair(other.filter.deep(), crate::facet::dpair(other.glass.deep(), crate::facet::dpair(other.glass_material.deep(), crate::facet::dpair(other.cursor.deep(), crate::facet::dpair(other.classes.deep(), other.css.deep()))))))))))))))))))))) == (e22 && e23 && e24 && e25 && e26 && e27 && e28 && e29 && e30 && e31 && e32 && e33 && e34 && e35 && e36 && e37 && e38 && e39 && e40 && e41 && e42));
            assert(crate::facet::deep_eq(crate::facet::dpair(self.grid_template_rows.deep(), crate::facet::dpair(self.grid_column.deep(), crate::facet::dpair(self.grid_row.deep(), crate::facet::dpair(self.position.deep(), crate::facet::dpair(self.inset.deep(), crate::facet::dpair(self.z_index.deep(), crate::facet::dpair(self.overflow_x.deep(), crate::facet::dpair(self.overflow_y.deep(), crate::facet::dpair(self.background.deep(), crate::facet::dpair(self.foreground.deep(), crate::facet::dpair(self.border_width.deep(), crate::facet::dpair(self.border_color.deep(), crate::facet::dpair(self.radius.deep(), crate::facet::dpair(self.shadows.deep(), crate::facet::dpair(self.opacity.deep(), crate::facet::dpair(self.transform.deep(), crate::facet::dpair(self.filter.deep(), crate::facet::dpair(self.glass.deep(), crate::facet::dpair(self.glass_material.deep(), crate::facet::dpair(self.cursor.deep(), crate::facet::dpair(self.classes.deep(), self.css.deep()))))))))))))))))))))), crate::facet::dpair(other.grid_template_rows.deep(), crate::facet::dpair(other.grid_column.deep(), crate::facet::dpair(other.grid_row.deep(), crate::facet::dpair(other.position.deep(), crate::facet::dpair(other.inset.deep(), crate::facet::dpair(other.z_index.deep(), crate::facet::dpair(other.overflow_x.deep(), crate::facet::dpair(other.overflow_y.deep(), crate::facet::dpair(other.background.deep(), crate::facet::dpair(other.foreground.deep(), crate::facet::dpair(other.border_width.deep(), crate::facet::dpair(other.border_color.deep(), crate::facet::dpair(other.radius.deep(), crate::facet::dpair(other.shadows.deep(), crate::facet::dpair(other.opacity.deep(), crate::facet::dpair(other.transform.deep(), crate::facet::dpair(other.filter.deep(), crate::facet::dpair(other.glass.deep(), crate::facet::dpair(other.glass_material.deep(), crate::facet::dpair(other.cursor.deep(), crate::facet::dpair(other.classes.deep(), other.css.deep())))))))))))))))))))))) == (e21 && e22 && e23 && e24 && e25 && e26 && e27 && e28 && e29 && e30 && e31 && e32 && e33 && e34 && e35 && e36 && e37 && e38 && e39 && e40 && e41 && e42));
            assert(crate::facet::deep_eq(crate::facet::dpair(self.grid_template_columns.deep(), crate::facet::dpair(self.grid_template_rows.deep(), crate::facet::dpair(self.grid_column.deep(), crate::facet::dpair(self.grid_row.deep(), crate::facet::dpair(self.position.deep(), crate::facet::dpair(self.inset.deep(), crate::facet::dpair(self.z_index.deep(), crate::facet::dpair(self.overflow_x.deep(), crate::facet::dpair(self.overflow_y.deep(), crate::facet::dpair(self.background.deep(), crate::facet::dpair(self.foreground.deep(), crate::facet::dpair(self.border_width.deep(), crate::facet::dpair(self.border_color.deep(), crate::facet::dpair(self.radius.deep(), crate::facet::dpair(self.shadows.deep(), crate::facet::dpair(self.opacity.deep(), crate::facet::dpair(self.transform.deep(), crate::facet::dpair(self.filter.deep(), crate::facet::dpair(self.glass.deep(), crate::facet::dpair(self.glass_material.deep(), crate::facet::dpair(self.cursor.deep(), crate::facet::dpair(self.classes.deep(), self.css.deep())))))))))))))))))))))), crate::facet::dpair(other.grid_template_columns.deep(), crate::facet::dpair(other.grid_template_rows.deep(), crate::facet::dpair(other.grid_column.deep(), crate::facet::dpair(other.grid_row.deep(), crate::facet::dpair(other.position.deep(), crate::facet::dpair(other.inset.deep(), crate::facet::dpair(other.z_index.deep(), crate::facet::dpair(other.overflow_x.deep(), crate::facet::dpair(other.overflow_y.deep(), crate::facet::dpair(other.background.deep(), crate::facet::dpair(other.foreground.deep(), crate::facet::dpair(other.border_width.deep(), crate::facet::dpair(other.border_color.deep(), crate::facet::dpair(other.radius.deep(), crate::facet::dpair(other.shadows.deep(), crate::facet::dpair(other.opacity.deep(), crate::facet::dpair(other.transform.deep(), crate::facet::dpair(other.filter.deep(), crate::facet::dpair(other.glass.deep(), crate::facet::dpair(other.glass_material.deep(), crate::facet::dpair(other.cursor.deep(), crate::facet::dpair(other.classes.deep(), other.css.deep()))))))))))))))))))))))) == (e20 && e21 && e22 && e23 && e24 && e25 && e26 && e27 && e28 && e29 && e30 && e31 && e32 && e33 && e34 && e35 && e36 && e37 && e38 && e39 && e40 && e41 && e42));
            assert(crate::facet::deep_eq(crate::facet::dpair(self.wrap.deep(), crate::facet::dpair(self.grid_template_columns.deep(), crate::facet::dpair(self.grid_template_rows.deep(), crate::facet::dpair(self.grid_column.deep(), crate::facet::dpair(self.grid_row.deep(), crate::facet::dpair(self.position.deep(), crate::facet::dpair(self.inset.deep(), crate::facet::dpair(self.z_index.deep(), crate::facet::dpair(self.overflow_x.deep(), crate::facet::dpair(self.overflow_y.deep(), crate::facet::dpair(self.background.deep(), crate::facet::dpair(self.foreground.deep(), crate::facet::dpair(self.border_width.deep(), crate::facet::dpair(self.border_color.deep(), crate::facet::dpair(self.radius.deep(), crate::facet::dpair(self.shadows.deep(), crate::facet::dpair(self.opacity.deep(), crate::facet::dpair(self.transform.deep(), crate::facet::dpair(self.filter.deep(), crate::facet::dpair(self.glass.deep(), crate::facet::dpair(self.glass_material.deep(), crate::facet::dpair(self.cursor.deep(), crate::facet::dpair(self.classes.deep(), self.css.deep()))))))))))))))))))))))), crate::facet::dpair(other.wrap.deep(), crate::facet::dpair(other.grid_template_columns.deep(), crate::facet::dpair(other.grid_template_rows.deep(), crate::facet::dpair(other.grid_column.deep(), crate::facet::dpair(other.grid_row.deep(), crate::facet::dpair(other.position.deep(), crate::facet::dpair(other.inset.deep(), crate::facet::dpair(other.z_index.deep(), crate::facet::dpair(other.overflow_x.deep(), crate::facet::dpair(other.overflow_y.deep(), crate::facet::dpair(other.background.deep(), crate::facet::dpair(other.foreground.deep(), crate::facet::dpair(other.border_width.deep(), crate::facet::dpair(other.border_color.deep(), crate::facet::dpair(other.radius.deep(), crate::facet::dpair(other.shadows.deep(), crate::facet::dpair(other.opacity.deep(), crate::facet::dpair(other.transform.deep(), crate::facet::dpair(other.filter.deep(), crate::facet::dpair(other.glass.deep(), crate::facet::dpair(other.glass_material.deep(), crate::facet::dpair(other.cursor.deep(), crate::facet::dpair(other.classes.deep(), other.css.deep())))))))))))))))))))))))) == (e19 && e20 && e21 && e22 && e23 && e24 && e25 && e26 && e27 && e28 && e29 && e30 && e31 && e32 && e33 && e34 && e35 && e36 && e37 && e38 && e39 && e40 && e41 && e42));
            assert(crate::facet::deep_eq(crate::facet::dpair(self.flex_basis.deep(), crate::facet::dpair(self.wrap.deep(), crate::facet::dpair(self.grid_template_columns.deep(), crate::facet::dpair(self.grid_template_rows.deep(), crate::facet::dpair(self.grid_column.deep(), crate::facet::dpair(self.grid_row.deep(), crate::facet::dpair(self.position.deep(), crate::facet::dpair(self.inset.deep(), crate::facet::dpair(self.z_index.deep(), crate::facet::dpair(self.overflow_x.deep(), crate::facet::dpair(self.overflow_y.deep(), crate::facet::dpair(self.background.deep(), crate::facet::dpair(self.foreground.deep(), crate::facet::dpair(self.border_width.deep(), crate::facet::dpair(self.border_color.deep(), crate::facet::dpair(self.radius.deep(), crate::facet::dpair(self.shadows.deep(), crate::facet::dpair(self.opacity.deep(), crate::facet::dpair(self.transform.deep(), crate::facet::dpair(self.filter.deep(), crate::facet::dpair(self.glass.deep(), crate::facet::dpair(self.glass_material.deep(), crate::facet::dpair(self.cursor.deep(), crate::facet::dpair(self.classes.deep(), self.css.deep())))))))))))))))))))))))), crate::facet::dpair(other.flex_basis.deep(), crate::facet::dpair(other.wrap.deep(), crate::facet::dpair(other.grid_template_columns.deep(), crate::facet::dpair(other.grid_template_rows.deep(), crate::facet::dpair(other.grid_column.deep(), crate::facet::dpair(other.grid_row.deep(), crate::facet::dpair(other.position.deep(), crate::facet::dpair(other.inset.deep(), crate::facet::dpair(other.z_index.deep(), crate::facet::dpair(other.overflow_x.deep(), crate::facet::dpair(other.overflow_y.deep(), crate::facet::dpair(other.background.deep(), crate::facet::dpair(other.foreground.deep(), crate::facet::dpair(other.border_width.deep(), crate::facet::dpair(other.border_color.deep(), crate::facet::dpair(other.radius.deep(), crate::facet::dpair(other.shadows.deep(), crate::facet::dpair(other.opacity.deep(), crate::facet::dpair(other.transform.deep(), crate::facet::dpair(other.filter.deep(), crate::facet::dpair(other.glass.deep(), crate::facet::dpair(other.glass_material.deep(), crate::facet::dpair(other.cursor.deep(), crate::facet::dpair(other.classes.deep(), other.css.deep()))))))))))))))))))))))))) == (e18 && e19 && e20 && e21 && e22 && e23 && e24 && e25 && e26 && e27 && e28 && e29 && e30 && e31 && e32 && e33 && e34 && e35 && e36 && e37 && e38 && e39 && e40 && e41 && e42));
            assert(crate::facet::deep_eq(crate::facet::dpair(self.flex_shrink.deep(), crate::facet::dpair(self.flex_basis.deep(), crate::facet::dpair(self.wrap.deep(), crate::facet::dpair(self.grid_template_columns.deep(), crate::facet::dpair(self.grid_template_rows.deep(), crate::facet::dpair(self.grid_column.deep(), crate::facet::dpair(self.grid_row.deep(), crate::facet::dpair(self.position.deep(), crate::facet::dpair(self.inset.deep(), crate::facet::dpair(self.z_index.deep(), crate::facet::dpair(self.overflow_x.deep(), crate::facet::dpair(self.overflow_y.deep(), crate::facet::dpair(self.background.deep(), crate::facet::dpair(self.foreground.deep(), crate::facet::dpair(self.border_width.deep(), crate::facet::dpair(self.border_color.deep(), crate::facet::dpair(self.radius.deep(), crate::facet::dpair(self.shadows.deep(), crate::facet::dpair(self.opacity.deep(), crate::facet::dpair(self.transform.deep(), crate::facet::dpair(self.filter.deep(), crate::facet::dpair(self.glass.deep(), crate::facet::dpair(self.glass_material.deep(), crate::facet::dpair(self.cursor.deep(), crate::facet::dpair(self.classes.deep(), self.css.deep()))))))))))))))))))))))))), crate::facet::dpair(other.flex_shrink.deep(), crate::facet::dpair(other.flex_basis.deep(), crate::facet::dpair(other.wrap.deep(), crate::facet::dpair(other.grid_template_columns.deep(), crate::facet::dpair(other.grid_template_rows.deep(), crate::facet::dpair(other.grid_column.deep(), crate::facet::dpair(other.grid_row.deep(), crate::facet::dpair(other.position.deep(), crate::facet::dpair(other.inset.deep(), crate::facet::dpair(other.z_index.deep(), crate::facet::dpair(other.overflow_x.deep(), crate::facet::dpair(other.overflow_y.deep(), crate::facet::dpair(other.background.deep(), crate::facet::dpair(other.foreground.deep(), crate::facet::dpair(other.border_width.deep(), crate::facet::dpair(other.border_color.deep(), crate::facet::dpair(other.radius.deep(), crate::facet::dpair(other.shadows.deep(), crate::facet::dpair(other.opacity.deep(), crate::facet::dpair(other.transform.deep(), crate::facet::dpair(other.filter.deep(), crate::facet::dpair(other.glass.deep(), crate::facet::dpair(other.glass_material.deep(), crate::facet::dpair(other.cursor.deep(), crate::facet::dpair(other.classes.deep(), other.css.deep())))))))))))))))))))))))))) == (e17 && e18 && e19 && e20 && e21 && e22 && e23 && e24 && e25 && e26 && e27 && e28 && e29 && e30 && e31 && e32 && e33 && e34 && e35 && e36 && e37 && e38 && e39 && e40 && e41 && e42));
            assert(crate::facet::deep_eq(crate::facet::dpair(self.flex_grow.deep(), crate::facet::dpair(self.flex_shrink.deep(), crate::facet::dpair(self.flex_basis.deep(), crate::facet::dpair(self.wrap.deep(), crate::facet::dpair(self.grid_template_columns.deep(), crate::facet::dpair(self.grid_template_rows.deep(), crate::facet::dpair(self.grid_column.deep(), crate::facet::dpair(self.grid_row.deep(), crate::facet::dpair(self.position.deep(), crate::facet::dpair(self.inset.deep(), crate::facet::dpair(self.z_index.deep(), crate::facet::dpair(self.overflow_x.deep(), crate::facet::dpair(self.overflow_y.deep(), crate::facet::dpair(self.background.deep(), crate::facet::dpair(self.foreground.deep(), crate::facet::dpair(self.border_width.deep(), crate::facet::dpair(self.border_color.deep(), crate::facet::dpair(self.radius.deep(), crate::facet::dpair(self.shadows.deep(), crate::facet::dpair(self.opacity.deep(), crate::facet::dpair(self.transform.deep(), crate::facet::dpair(self.filter.deep(), crate::facet::dpair(self.glass.deep(), crate::facet::dpair(self.glass_material.deep(), crate::facet::dpair(self.cursor.deep(), crate::facet::dpair(self.classes.deep(), self.css.deep())))))))))))))))))))))))))), crate::facet::dpair(other.flex_grow.deep(), crate::facet::dpair(other.flex_shrink.deep(), crate::facet::dpair(other.flex_basis.deep(), crate::facet::dpair(other.wrap.deep(), crate::facet::dpair(other.grid_template_columns.deep(), crate::facet::dpair(other.grid_template_rows.deep(), crate::facet::dpair(other.grid_column.deep(), crate::facet::dpair(other.grid_row.deep(), crate::facet::dpair(other.position.deep(), crate::facet::dpair(other.inset.deep(), crate::facet::dpair(other.z_index.deep(), crate::facet::dpair(other.overflow_x.deep(), crate::facet::dpair(other.overflow_y.deep(), crate::facet::dpair(other.background.deep(), crate::facet::dpair(other.foreground.deep(), crate::facet::dpair(other.border_width.deep(), crate::facet::dpair(other.border_color.deep(), crate::facet::dpair(other.radius.deep(), crate::facet::dpair(other.shadows.deep(), crate::facet::dpair(other.opacity.deep(), crate::facet::dpair(other.transform.deep(), crate::facet::dpair(other.filter.deep(), crate::facet::dpair(other.glass.deep(), crate::facet::dpair(other.glass_material.deep(), crate::facet::dpair(other.cursor.deep(), crate::facet::dpair(other.classes.deep(), other.css.deep()))))))))))))))))))))))))))) == (e16 && e17 && e18 && e19 && e20 && e21 && e22 && e23 && e24 && e25 && e26 && e27 && e28 && e29 && e30 && e31 && e32 && e33 && e34 && e35 && e36 && e37 && e38 && e39 && e40 && e41 && e42));
            assert(crate::facet::deep_eq(crate::facet::dpair(self.column_gap.deep(), crate::facet::dpair(self.flex_grow.deep(), crate::facet::dpair(self.flex_shrink.deep(), crate::facet::dpair(self.flex_basis.deep(), crate::facet::dpair(self.wrap.deep(), crate::facet::dpair(self.grid_template_columns.deep(), crate::facet::dpair(self.grid_template_rows.deep(), crate::facet::dpair(self.grid_column.deep(), crate::facet::dpair(self.grid_row.deep(), crate::facet::dpair(self.position.deep(), crate::facet::dpair(self.inset.deep(), crate::facet::dpair(self.z_index.deep(), crate::facet::dpair(self.overflow_x.deep(), crate::facet::dpair(self.overflow_y.deep(), crate::facet::dpair(self.background.deep(), crate::facet::dpair(self.foreground.deep(), crate::facet::dpair(self.border_width.deep(), crate::facet::dpair(self.border_color.deep(), crate::facet::dpair(self.radius.deep(), crate::facet::dpair(self.shadows.deep(), crate::facet::dpair(self.opacity.deep(), crate::facet::dpair(self.transform.deep(), crate::facet::dpair(self.filter.deep(), crate::facet::dpair(self.glass.deep(), crate::facet::dpair(self.glass_material.deep(), crate::facet::dpair(self.cursor.deep(), crate::facet::dpair(self.classes.deep(), self.css.deep()))))))))))))))))))))))))))), crate::facet::dpair(other.column_gap.deep(), crate::facet::dpair(other.flex_grow.deep(), crate::facet::dpair(other.flex_shrink.deep(), crate::facet::dpair(other.flex_basis.deep(), crate::facet::dpair(other.wrap.deep(), crate::facet::dpair(other.grid_template_columns.deep(), crate::facet::dpair(other.grid_template_rows.deep(), crate::facet::dpair(other.grid_column.deep(), crate::facet::dpair(other.grid_row.deep(), crate::facet::dpair(other.position.deep(), crate::facet::dpair(other.inset.deep(), crate::facet::dpair(other.z_index.deep(), crate::facet::dpair(other.overflow_x.deep(), crate::facet::dpair(other.overflow_y.deep(), crate::facet::dpair(other.background.deep(), crate::facet::dpair(other.foreground.deep(), crate::facet::dpair(other.border_width.deep(), crate::facet::dpair(other.border_color.deep(), crate::facet::dpair(other.radius.deep(), crate::facet::dpair(other.shadows.deep(), crate::facet::dpair(other.opacity.deep(), crate::facet::dpair(other.transform.deep(), crate::facet::dpair(other.filter.deep(), crate::facet::dpair(other.glass.deep(), crate::facet::dpair(other.glass_material.deep(), crate::facet::dpair(other.cursor.deep(), crate::facet::dpair(other.classes.deep(), other.css.deep())))))))))))))))))))))))))))) == (e15 && e16 && e17 && e18 && e19 && e20 && e21 && e22 && e23 && e24 && e25 && e26 && e27 && e28 && e29 && e30 && e31 && e32 && e33 && e34 && e35 && e36 && e37 && e38 && e39 && e40 && e41 && e42));
            assert(crate::facet::deep_eq(crate::facet::dpair(self.row_gap.deep(), crate::facet::dpair(self.column_gap.deep(), crate::facet::dpair(self.flex_grow.deep(), crate::facet::dpair(self.flex_shrink.deep(), crate::facet::dpair(self.flex_basis.deep(), crate::facet::dpair(self.wrap.deep(), crate::facet::dpair(self.grid_template_columns.deep(), crate::facet::dpair(self.grid_template_rows.deep(), crate::facet::dpair(self.grid_column.deep(), crate::facet::dpair(self.grid_row.deep(), crate::facet::dpair(self.position.deep(), crate::facet::dpair(self.inset.deep(), crate::facet::dpair(self.z_index.deep(), crate::facet::dpair(self.overflow_x.deep(), crate::facet::dpair(self.overflow_y.deep(), crate::facet::dpair(self.background.deep(), crate::facet::dpair(self.foreground.deep(), crate::facet::dpair(self.border_width.deep(), crate::facet::dpair(self.border_color.deep(), crate::facet::dpair(self.radius.deep(), crate::facet::dpair(self.shadows.deep(), crate::facet::dpair(self.opacity.deep(), crate::facet::dpair(self.transform.deep(), crate::facet::dpair(self.filter.deep(), crate::facet::dpair(self.glass.deep(), crate::facet::dpair(self.glass_material.deep(), crate::facet::dpair(self.cursor.deep(), crate::facet::dpair(self.classes.deep(), self.css.deep())))))))))))))))))))))))))))), crate::facet::dpair(other.row_gap.deep(), crate::facet::dpair(other.column_gap.deep(), crate::facet::dpair(other.flex_grow.deep(), crate::facet::dpair(other.flex_shrink.deep(), crate::facet::dpair(other.flex_basis.deep(), crate::facet::dpair(other.wrap.deep(), crate::facet::dpair(other.grid_template_columns.deep(), crate::facet::dpair(other.grid_template_rows.deep(), crate::facet::dpair(other.grid_column.deep(), crate::facet::dpair(other.grid_row.deep(), crate::facet::dpair(other.position.deep(), crate::facet::dpair(other.inset.deep(), crate::facet::dpair(other.z_index.deep(), crate::facet::dpair(other.overflow_x.deep(), crate::facet::dpair(other.overflow_y.deep(), crate::facet::dpair(other.background.deep(), crate::facet::dpair(other.foreground.deep(), crate::facet::dpair(other.border_width.deep(), crate::facet::dpair(other.border_color.deep(), crate::facet::dpair(other.radius.deep(), crate::facet::dpair(other.shadows.deep(), crate::facet::dpair(other.opacity.deep(), crate::facet::dpair(other.transform.deep(), crate::facet::dpair(other.filter.deep(), crate::facet::dpair(other.glass.deep(), crate::facet::dpair(other.glass_material.deep(), crate::facet::dpair(other.cursor.deep(), crate::facet::dpair(other.classes.deep(), other.css.deep()))))))))))))))))))))))))))))) == (e14 && e15 && e16 && e17 && e18 && e19 && e20 && e21 && e22 && e23 && e24 && e25 && e26 && e27 && e28 && e29 && e30 && e31 && e32 && e33 && e34 && e35 && e36 && e37 && e38 && e39 && e40 && e41 && e42));
            assert(crate::facet::deep_eq(crate::facet::dpair(self.gap.deep(), crate::facet::dpair(self.row_gap.deep(), crate::facet::dpair(self.column_gap.deep(), crate::facet::dpair(self.flex_grow.deep(), crate::facet::dpair(self.flex_shrink.deep(), crate::facet::dpair(self.flex_basis.deep(), crate::facet::dpair(self.wrap.deep(), crate::facet::dpair(self.grid_template_columns.deep(), crate::facet::dpair(self.grid_template_rows.deep(), crate::facet::dpair(self.grid_column.deep(), crate::facet::dpair(self.grid_row.deep(), crate::facet::dpair(self.position.deep(), crate::facet::dpair(self.inset.deep(), crate::facet::dpair(self.z_index.deep(), crate::facet::dpair(self.overflow_x.deep(), crate::facet::dpair(self.overflow_y.deep(), crate::facet::dpair(self.background.deep(), crate::facet::dpair(self.foreground.deep(), crate::facet::dpair(self.border_width.deep(), crate::facet::dpair(self.border_color.deep(), crate::facet::dpair(self.radius.deep(), crate::facet::dpair(self.shadows.deep(), crate::facet::dpair(self.opacity.deep(), crate::facet::dpair(self.transform.deep(), crate::facet::dpair(self.filter.deep(), crate::facet::dpair(self.glass.deep(), crate::facet::dpair(self.glass_material.deep(), crate::facet::dpair(self.cursor.deep(), crate::facet::dpair(self.classes.deep(), self.css.deep()))))))))))))))))))))))))))))), crate::facet::dpair(other.gap.deep(), crate::facet::dpair(other.row_gap.deep(), crate::facet::dpair(other.column_gap.deep(), crate::facet::dpair(other.flex_grow.deep(), crate::facet::dpair(other.flex_shrink.deep(), crate::facet::dpair(other.flex_basis.deep(), crate::facet::dpair(other.wrap.deep(), crate::facet::dpair(other.grid_template_columns.deep(), crate::facet::dpair(other.grid_template_rows.deep(), crate::facet::dpair(other.grid_column.deep(), crate::facet::dpair(other.grid_row.deep(), crate::facet::dpair(other.position.deep(), crate::facet::dpair(other.inset.deep(), crate::facet::dpair(other.z_index.deep(), crate::facet::dpair(other.overflow_x.deep(), crate::facet::dpair(other.overflow_y.deep(), crate::facet::dpair(other.background.deep(), crate::facet::dpair(other.foreground.deep(), crate::facet::dpair(other.border_width.deep(), crate::facet::dpair(other.border_color.deep(), crate::facet::dpair(other.radius.deep(), crate::facet::dpair(other.shadows.deep(), crate::facet::dpair(other.opacity.deep(), crate::facet::dpair(other.transform.deep(), crate::facet::dpair(other.filter.deep(), crate::facet::dpair(other.glass.deep(), crate::facet::dpair(other.glass_material.deep(), crate::facet::dpair(other.cursor.deep(), crate::facet::dpair(other.classes.deep(), other.css.deep())))))))))))))))))))))))))))))) == (e13 && e14 && e15 && e16 && e17 && e18 && e19 && e20 && e21 && e22 && e23 && e24 && e25 && e26 && e27 && e28 && e29 && e30 && e31 && e32 && e33 && e34 && e35 && e36 && e37 && e38 && e39 && e40 && e41 && e42));
            assert(crate::facet::deep_eq(crate::facet::dpair(self.justify_content.deep(), crate::facet::dpair(self.gap.deep(), crate::facet::dpair(self.row_gap.deep(), crate::facet::dpair(self.column_gap.deep(), crate::facet::dpair(self.flex_grow.deep(), crate::facet::dpair(self.flex_shrink.deep(), crate::facet::dpair(self.flex_basis.deep(), crate::facet::dpair(self.wrap.deep(), crate::facet::dpair(self.grid_template_columns.deep(), crate::facet::dpair(self.grid_template_rows.deep(), crate::facet::dpair(self.grid_column.deep(), crate::facet::dpair(self.grid_row.deep(), crate::facet::dpair(self.position.deep(), crate::facet::dpair(self.inset.deep(), crate::facet::dpair(self.z_index.deep(), crate::facet::dpair(self.overflow_x.deep(), crate::facet::dpair(self.overflow_y.deep(), crate::facet::dpair(self.background.deep(), crate::facet::dpair(self.foreground.deep(), crate::facet::dpair(self.border_width.deep(), crate::facet::dpair(self.border_color.deep(), crate::facet::dpair(self.radius.deep(), crate::facet::dpair(self.shadows.deep(), crate::facet::dpair(self.opacity.deep(), crate::facet::dpair(self.transform.deep(), crate::facet::dpair(self.filter.deep(), crate::facet::dpair(self.glass.deep(), crate::facet::dpair(self.glass_material.deep(), crate::facet::dpair(self.cursor.deep(), crate::facet::dpair(self.classes.deep(), self.css.deep())))))))))))))))))))))))))))))), crate::facet::dpair(other.justify_content.deep(), crate::facet::dpair(other.gap.deep(), crate::facet::dpair(other.row_gap.deep(), crate::facet::dpair(other.column_gap.deep(), crate::facet::dpair(other.flex_grow.deep(), crate::facet::dpair(other.flex_shrink.deep(), crate::facet::dpair(other.flex_basis.deep(), crate::facet::dpair(other.wrap.deep(), crate::facet::dpair(other.grid_template_columns.deep(), crate::facet::dpair(other.grid_template_rows.deep(), crate::facet::dpair(other.grid_column.deep(), crate::facet::dpair(other.grid_row.deep(), crate::facet::dpair(other.position.deep(), crate::facet::dpair(other.inset.deep(), crate::facet::dpair(other.z_index.deep(), crate::facet::dpair(other.overflow_x.deep(), crate::facet::dpair(other.overflow_y.deep(), crate::facet::dpair(other.background.deep(), crate::facet::dpair(other.foreground.deep(), crate::facet::dpair(other.border_width.deep(), crate::facet::dpair(other.border_color.deep(), crate::facet::dpair(other.radius.deep(), crate::facet::dpair(other.shadows.deep(), crate::facet::dpair(other.opacity.deep(), crate::facet::dpair(other.transform.deep(), crate::facet::dpair(other.filter.deep(), crate::facet::dpair(other.glass.deep(), crate::facet::dpair(other.glass_material.deep(), crate::facet::dpair(other.cursor.deep(), crate::facet::dpair(other.classes.deep(), other.css.deep()))))))))))))))))))))))))))))))) == (e12 && e13 && e14 && e15 && e16 && e17 && e18 && e19 && e20 && e21 && e22 && e23 && e24 && e25 && e26 && e27 && e28 && e29 && e30 && e31 && e32 && e33 && e34 && e35 && e36 && e37 && e38 && e39 && e40 && e41 && e42));
            assert(crate::facet::deep_eq(crate::facet::dpair(self.align_self.deep(), crate::facet::dpair(self.justify_content.deep(), crate::facet::dpair(self.gap.deep(), crate::facet::dpair(self.row_gap.deep(), crate::facet::dpair(self.column_gap.deep(), crate::facet::dpair(self.flex_grow.deep(), crate::facet::dpair(self.flex_shrink.deep(), crate::facet::dpair(self.flex_basis.deep(), crate::facet::dpair(self.wrap.deep(), crate::facet::dpair(self.grid_template_columns.deep(), crate::facet::dpair(self.grid_template_rows.deep(), crate::facet::dpair(self.grid_column.deep(), crate::facet::dpair(self.grid_row.deep(), crate::facet::dpair(self.position.deep(), crate::facet::dpair(self.inset.deep(), crate::facet::dpair(self.z_index.deep(), crate::facet::dpair(self.overflow_x.deep(), crate::facet::dpair(self.overflow_y.deep(), crate::facet::dpair(self.background.deep(), crate::facet::dpair(self.foreground.deep(), crate::facet::dpair(self.border_width.deep(), crate::facet::dpair(self.border_color.deep(), crate::facet::dpair(self.radius.deep(), crate::facet::dpair(self.shadows.deep(), crate::facet::dpair(self.opacity.deep(), crate::facet::dpair(self.transform.deep(), crate::facet::dpair(self.filter.deep(), crate::facet::dpair(self.glass.deep(), crate::facet::dpair(self.glass_material.deep(), crate::facet::dpair(self.cursor.deep(), crate::facet::dpair(self.classes.deep(), self.css.deep()))))))))))))))))))))))))))))))), crate::facet::dpair(other.align_self.deep(), crate::facet::dpair(other.justify_content.deep(), crate::facet::dpair(other.gap.deep(), crate::facet::dpair(other.row_gap.deep(), crate::facet::dpair(other.column_gap.deep(), crate::facet::dpair(other.flex_grow.deep(), crate::facet::dpair(other.flex_shrink.deep(), crate::facet::dpair(other.flex_basis.deep(), crate::facet::dpair(other.wrap.deep(), crate::facet::dpair(other.grid_template_columns.deep(), crate::facet::dpair(other.grid_template_rows.deep(), crate::facet::dpair(other.grid_column.deep(), crate::facet::dpair(other.grid_row.deep(), crate::facet::dpair(other.position.deep(), crate::facet::dpair(other.inset.deep(), crate::facet::dpair(other.z_index.deep(), crate::facet::dpair(other.overflow_x.deep(), crate::facet::dpair(other.overflow_y.deep(), crate::facet::dpair(other.background.deep(), crate::facet::dpair(other.foreground.deep(), crate::facet::dpair(other.border_width.deep(), crate::facet::dpair(other.border_color.deep(), crate::facet::dpair(other.radius.deep(), crate::facet::dpair(other.shadows.deep(), crate::facet::dpair(other.opacity.deep(), crate::facet::dpair(other.transform.deep(), crate::facet::dpair(other.filter.deep(), crate::facet::dpair(other.glass.deep(), crate::facet::dpair(other.glass_material.deep(), crate::facet::dpair(other.cursor.deep(), crate::facet::dpair(other.classes.deep(), other.css.deep())))))))))))))))))))))))))))))))) == (e11 && e12 && e13 && e14 && e15 && e16 && e17 && e18 && e19 && e20 && e21 && e22 && e23 && e24 && e25 && e26 && e27 && e28 && e29 && e30 && e31 && e32 && e33 && e34 && e35 && e36 && e37 && e38 && e39 && e40 && e41 && e42));
            assert(crate::facet::deep_eq(crate::facet::dpair(self.align_items.deep(), crate::facet::dpair(self.align_self.deep(), crate::facet::dpair(self.justify_content.deep(), crate::facet::dpair(self.gap.deep(), crate::facet::dpair(self.row_gap.deep(), crate::facet::dpair(self.column_gap.deep(), crate::facet::dpair(self.flex_grow.deep(), crate::facet::dpair(self.flex_shrink.deep(), crate::facet::dpair(self.flex_basis.deep(), crate::facet::dpair(self.wrap.deep(), crate::facet::dpair(self.grid_template_columns.deep(), crate::facet::dpair(self.grid_template_rows.deep(), crate::facet::dpair(self.grid_column.deep(), crate::facet::dpair(self.grid_row.deep(), crate::facet::dpair(self.position.deep(), crate::facet::dpair(self.inset.deep(), crate::facet::dpair(self.z_index.deep(), crate::facet::dpair(self.overflow_x.deep(), crate::facet::dpair(self.overflow_y.deep(), crate::facet::dpair(self.background.deep(), crate::facet::dpair(self.foreground.deep(), crate::facet::dpair(self.border_width.deep(), crate::facet::dpair(self.border_color.deep(), crate::facet::dpair(self.radius.deep(), crate::facet::dpair(self.shadows.deep(), crate::facet::dpair(self.opacity.deep(), crate::facet::dpair(self.transform.deep(), crate::facet::dpair(self.filter.deep(), crate::facet::dpair(self.glass.deep(), crate::facet::dpair(self.glass_material.deep(), crate::facet::dpair(self.cursor.deep(), crate::facet::dpair(self.classes.deep(), self.css.deep())))))))))))))))))))))))))))))))), crate::facet::dpair(other.align_items.deep(), crate::facet::dpair(other.align_self.deep(), crate::facet::dpair(other.justify_content.deep(), crate::facet::dpair(other.gap.deep(), crate::facet::dpair(other.row_gap.deep(), crate::facet::dpair(other.column_gap.deep(), crate::facet::dpair(other.flex_grow.deep(), crate::facet::dpair(other.flex_shrink.deep(), crate::facet::dpair(other.flex_basis.deep(), crate::facet::dpair(other.wrap.deep(), crate::facet::dpair(other.grid_template_columns.deep(), crate::facet::dpair(other.grid_template_rows.deep(), crate::facet::dpair(other.grid_column.deep(), crate::facet::dpair(other.grid_row.deep(), crate::facet::dpair(other.position.deep(), crate::facet::dpair(other.inset.deep(), crate::facet::dpair(other.z_index.deep(), crate::facet::dpair(other.overflow_x.deep(), crate::facet::dpair(other.overflow_y.deep(), crate::facet::dpair(other.background.deep(), crate::facet::dpair(other.foreground.deep(), crate::facet::dpair(other.border_width.deep(), crate::facet::dpair(other.border_color.deep(), crate::facet::dpair(other.radius.deep(), crate::facet::dpair(other.shadows.deep(), crate::facet::dpair(other.opacity.deep(), crate::facet::dpair(other.transform.deep(), crate::facet::dpair(other.filter.deep(), crate::facet::dpair(other.glass.deep(), crate::facet::dpair(other.glass_material.deep(), crate::facet::dpair(other.cursor.deep(), crate::facet::dpair(other.classes.deep(), other.css.deep()))))))))))))))))))))))))))))))))) == (e10 && e11 && e12 && e13 && e14 && e15 && e16 && e17 && e18 && e19 && e20 && e21 && e22 && e23 && e24 && e25 && e26 && e27 && e28 && e29 && e30 && e31 && e32 && e33 && e34 && e35 && e36 && e37 && e38 && e39 && e40 && e41 && e42));
            assert(crate::facet::deep_eq(crate::facet::dpair(self.direction.deep(), crate::facet::dpair(self.align_items.deep(), crate::facet::dpair(self.align_self.deep(), crate::facet::dpair(self.justify_content.deep(), crate::facet::dpair(self.gap.deep(), crate::facet::dpair(self.row_gap.deep(), crate::facet::dpair(self.column_gap.deep(), crate::facet::dpair(self.flex_grow.deep(), crate::facet::dpair(self.flex_shrink.deep(), crate::facet::dpair(self.flex_basis.deep(), crate::facet::dpair(self.wrap.deep(), crate::facet::dpair(self.grid_template_columns.deep(), crate::facet::dpair(self.grid_template_rows.deep(), crate::facet::dpair(self.grid_column.deep(), crate::facet::dpair(self.grid_row.deep(), crate::facet::dpair(self.position.deep(), crate::facet::dpair(self.inset.deep(), crate::facet::dpair(self.z_index.deep(), crate::facet::dpair(self.overflow_x.deep(), crate::facet::dpair(self.overflow_y.deep(), crate::facet::dpair(self.background.deep(), crate::facet::dpair(self.foreground.deep(), crate::facet::dpair(self.border_width.deep(), crate::facet::dpair(self.border_color.deep(), crate::facet::dpair(self.radius.deep(), crate::facet::dpair(self.shadows.deep(), crate::facet::dpair(self.opacity.deep(), crate::facet::dpair(self.transform.deep(), crate::facet::dpair(self.filter.deep(), crate::facet::dpair(self.glass.deep(), crate::facet::dpair(self.glass_material.deep(), crate::facet::dpair(self.cursor.deep(), crate::facet::dpair(self.classes.deep(), self.css.deep()))))))))))))))))))))))))))))))))), crate::facet::dpair(other.direction.deep(), crate::facet::dpair(other.align_items.deep(), crate::facet::dpair(other.align_self.deep(), crate::facet::dpair(other.justify_content.deep(), crate::facet::dpair(other.gap.deep(), crate::facet::dpair(other.row_gap.deep(), crate::facet::dpair(other.column_gap.deep(), crate::facet::dpair(other.flex_grow.deep(), crate::facet::dpair(other.flex_shrink.deep(), crate::facet::dpair(other.flex_basis.deep(), crate::facet::dpair(other.wrap.deep(), crate::facet::dpair(other.grid_template_columns.deep(), crate::facet::dpair(other.grid_template_rows.deep(), crate::facet::dpair(other.grid_column.deep(), crate::facet::dpair(other.grid_row.deep(), crate::facet::dpair(other.position.deep(), crate::facet::dpair(other.inset.deep(), crate::facet::dpair(other.z_index.deep(), crate::facet::dpair(other.overflow_x.deep(), crate::facet::dpair(other.overflow_y.deep(), crate::facet::dpair(other.background.deep(), crate::facet::dpair(other.foreground.deep(), crate::facet::dpair(other.border_width.deep(), crate::facet::dpair(other.border_color.deep(), crate::facet::dpair(other.radius.deep(), crate::facet::dpair(other.shadows.deep(), crate::facet::dpair(other.opacity.deep(), crate::facet::dpair(other.transform.deep(), crate::facet::dpair(other.filter.deep(), crate::facet::dpair(other.glass.deep(), crate::facet::dpair(other.glass_material.deep(), crate::facet::dpair(other.cursor.deep(), crate::facet::dpair(other.classes.deep(), other.css.deep())))))))))))))))))))))))))))))))))) == (e9 && e10 && e11 && e12 && e13 && e14 && e15 && e16 && e17 && e18 && e19 && e20 && e21 && e22 && e23 && e24 && e25 && e26 && e27 && e28 && e29 && e30 && e31 && e32 && e33 && e34 && e35 && e36 && e37 && e38 && e39 && e40 && e41 && e42));
            assert(crate::facet::deep_eq(crate::facet::dpair(self.display.deep(), crate::facet::dpair(self.direction.deep(), crate::facet::dpair(self.align_items.deep(), crate::facet::dpair(self.align_self.deep(), crate::facet::dpair(self.justify_content.deep(), crate::facet::dpair(self.gap.deep(), crate::facet::dpair(self.row_gap.deep(), crate::facet::dpair(self.column_gap.deep(), crate::facet::dpair(self.flex_grow.deep(), crate::facet::dpair(self.flex_shrink.deep(), crate::facet::dpair(self.flex_basis.deep(), crate::facet::dpair(self.wrap.deep(), crate::facet::dpair(self.grid_template_columns.deep(), crate::facet::dpair(self.grid_template_rows.deep(), crate::facet::dpair(self.grid_column.deep(), crate::facet::dpair(self.grid_row.deep(), crate::facet::dpair(self.position.deep(), crate::facet::dpair(self.inset.deep(), crate::facet::dpair(self.z_index.deep(), crate::facet::dpair(self.overflow_x.deep(), crate::facet::dpair(self.overflow_y.deep(), crate::facet::dpair(self.background.deep(), crate::facet::dpair(self.foreground.deep(), crate::facet::dpair(self.border_width.deep(), crate::facet::dpair(self.border_color.deep(), crate::facet::dpair(self.radius.deep(), crate::facet::dpair(self.shadows.deep(), crate::facet::dpair(self.opacity.deep(), crate::facet::dpair(self.transform.deep(), crate::facet::dpair(self.filter.deep(), crate::facet::dpair(self.glass.deep(), crate::facet::dpair(self.glass_material.deep(), crate::facet::dpair(self.cursor.deep(), crate::facet::dpair(self.classes.deep(), self.css.deep())))))))))))))))))))))))))))))))))), crate::facet::dpair(other.display.deep(), crate::facet::dpair(other.direction.deep(), crate::facet::dpair(other.align_items.deep(), crate::facet::dpair(other.align_self.deep(), crate::facet::dpair(other.justify_content.deep(), crate::facet::dpair(other.gap.deep(), crate::facet::dpair(other.row_gap.deep(), crate::facet::dpair(other.column_gap.deep(), crate::facet::dpair(other.flex_grow.deep(), crate::facet::dpair(other.flex_shrink.deep(), crate::facet::dpair(other.flex_basis.deep(), crate::facet::dpair(other.wrap.deep(), crate::facet::dpair(other.grid_template_columns.deep(), crate::facet::dpair(other.grid_template_rows.deep(), crate::facet::dpair(other.grid_column.deep(), crate::facet::dpair(other.grid_row.deep(), crate::facet::dpair(other.position.deep(), crate::facet::dpair(other.inset.deep(), crate::facet::dpair(other.z_index.deep(), crate::facet::dpair(other.overflow_x.deep(), crate::facet::dpair(other.overflow_y.deep(), crate::facet::dpair(other.background.deep(), crate::facet::dpair(other.foreground.deep(), crate::facet::dpair(other.border_width.deep(), crate::facet::dpair(other.border_color.deep(), crate::facet::dpair(other.radius.deep(), crate::facet::dpair(other.shadows.deep(), crate::facet::dpair(other.opacity.deep(), crate::facet::dpair(other.transform.deep(), crate::facet::dpair(other.filter.deep(), crate::facet::dpair(other.glass.deep(), crate::facet::dpair(other.glass_material.deep(), crate::facet::dpair(other.cursor.deep(), crate::facet::dpair(other.classes.deep(), other.css.deep()))))))))))))))))))))))))))))))))))) == (e8 && e9 && e10 && e11 && e12 && e13 && e14 && e15 && e16 && e17 && e18 && e19 && e20 && e21 && e22 && e23 && e24 && e25 && e26 && e27 && e28 && e29 && e30 && e31 && e32 && e33 && e34 && e35 && e36 && e37 && e38 && e39 && e40 && e41 && e42));
            assert(crate::facet::deep_eq(crate::facet::dpair(self.margin.deep(), crate::facet::dpair(self.display.deep(), crate::facet::dpair(self.direction.deep(), crate::facet::dpair(self.align_items.deep(), crate::facet::dpair(self.align_self.deep(), crate::facet::dpair(self.justify_content.deep(), crate::facet::dpair(self.gap.deep(), crate::facet::dpair(self.row_gap.deep(), crate::facet::dpair(self.column_gap.deep(), crate::facet::dpair(self.flex_grow.deep(), crate::facet::dpair(self.flex_shrink.deep(), crate::facet::dpair(self.flex_basis.deep(), crate::facet::dpair(self.wrap.deep(), crate::facet::dpair(self.grid_template_columns.deep(), crate::facet::dpair(self.grid_template_rows.deep(), crate::facet::dpair(self.grid_column.deep(), crate::facet::dpair(self.grid_row.deep(), crate::facet::dpair(self.position.deep(), crate::facet::dpair(self.inset.deep(), crate::facet::dpair(self.z_index.deep(), crate::facet::dpair(self.overflow_x.deep(), crate::facet::dpair(self.overflow_y.deep(), crate::facet::dpair(self.background.deep(), crate::facet::dpair(self.foreground.deep(), crate::facet::dpair(self.border_width.deep(), crate::facet::dpair(self.border_color.deep(), crate::facet::dpair(self.radius.deep(), crate::facet::dpair(self.shadows.deep(), crate::facet::dpair(self.opacity.deep(), crate::facet::dpair(self.transform.deep(), crate::facet::dpair(self.filter.deep(), crate::facet::dpair(self.glass.deep(), crate::facet::dpair(self.glass_material.deep(), crate::facet::dpair(self.cursor.deep(), crate::facet::dpair(self.classes.deep(), self.css.deep()))))))))))))))))))))))))))))))))))), crate::facet::dpair(other.margin.deep(), crate::facet::dpair(other.display.deep(), crate::facet::dpair(other.direction.deep(), crate::facet::dpair(other.align_items.deep(), crate::facet::dpair(other.align_self.deep(), crate::facet::dpair(other.justify_content.deep(), crate::facet::dpair(other.gap.deep(), crate::facet::dpair(other.row_gap.deep(), crate::facet::dpair(other.column_gap.deep(), crate::facet::dpair(other.flex_grow.deep(), crate::facet::dpair(other.flex_shrink.deep(), crate::facet::dpair(other.flex_basis.deep(), crate::facet::dpair(other.wrap.deep(), crate::facet::dpair(other.grid_template_columns.deep(), crate::facet::dpair(other.grid_template_rows.deep(), crate::facet::dpair(other.grid_column.deep(), crate::facet::dpair(other.grid_row.deep(), crate::facet::dpair(other.position.deep(), crate::facet::dpair(other.inset.deep(), crate::facet::dpair(other.z_index.deep(), crate::facet::dpair(other.overflow_x.deep(), crate::facet::dpair(other.overflow_y.deep(), crate::facet::dpair(other.background.deep(), crate::facet::dpair(other.foreground.deep(), crate::facet::dpair(other.border_width.deep(), crate::facet::dpair(other.border_color.deep(), crate::facet::dpair(other.radius.deep(), crate::facet::dpair(other.shadows.deep(), crate::facet::dpair(other.opacity.deep(), crate::facet::dpair(other.transform.deep(), crate::facet::dpair(other.filter.deep(), crate::facet::dpair(other.glass.deep(), crate::facet::dpair(other.glass_material.deep(), crate::facet::dpair(other.cursor.deep(), crate::facet::dpair(other.classes.deep(), other.css.deep())))))))))))))))))))))))))))))))))))) == (e7 && e8 && e9 && e10 && e11 && e12 && e13 && e14 && e15 && e16 && e17 && e18 && e19 && e20 && e21 && e22 && e23 && e24 && e25 && e26 && e27 && e28 && e29 && e30 && e31 && e32 && e33 && e34 && e35 && e36 && e37 && e38 && e39 && e40 && e41 && e42));
            assert(crate::facet::deep_eq(crate::facet::dpair(self.padding.deep(), crate::facet::dpair(self.margin.deep(), crate::facet::dpair(self.display.deep(), crate::facet::dpair(self.direction.deep(), crate::facet::dpair(self.align_items.deep(), crate::facet::dpair(self.align_self.deep(), crate::facet::dpair(self.justify_content.deep(), crate::facet::dpair(self.gap.deep(), crate::facet::dpair(self.row_gap.deep(), crate::facet::dpair(self.column_gap.deep(), crate::facet::dpair(self.flex_grow.deep(), crate::facet::dpair(self.flex_shrink.deep(), crate::facet::dpair(self.flex_basis.deep(), crate::facet::dpair(self.wrap.deep(), crate::facet::dpair(self.grid_template_columns.deep(), crate::facet::dpair(self.grid_template_rows.deep(), crate::facet::dpair(self.grid_column.deep(), crate::facet::dpair(self.grid_row.deep(), crate::facet::dpair(self.position.deep(), crate::facet::dpair(self.inset.deep(), crate::facet::dpair(self.z_index.deep(), crate::facet::dpair(self.overflow_x.deep(), crate::facet::dpair(self.overflow_y.deep(), crate::facet::dpair(self.background.deep(), crate::facet::dpair(self.foreground.deep(), crate::facet::dpair(self.border_width.deep(), crate::facet::dpair(self.border_color.deep(), crate::facet::dpair(self.radius.deep(), crate::facet::dpair(self.shadows.deep(), crate::facet::dpair(self.opacity.deep(), crate::facet::dpair(self.transform.deep(), crate::facet::dpair(self.filter.deep(), crate::facet::dpair(self.glass.deep(), crate::facet::dpair(self.glass_material.deep(), crate::facet::dpair(self.cursor.deep(), crate::facet::dpair(self.classes.deep(), self.css.deep())))))))))))))))))))))))))))))))))))), crate::facet::dpair(other.padding.deep(), crate::facet::dpair(other.margin.deep(), crate::facet::dpair(other.display.deep(), crate::facet::dpair(other.direction.deep(), crate::facet::dpair(other.align_items.deep(), crate::facet::dpair(other.align_self.deep(), crate::facet::dpair(other.justify_content.deep(), crate::facet::dpair(other.gap.deep(), crate::facet::dpair(other.row_gap.deep(), crate::facet::dpair(other.column_gap.deep(), crate::facet::dpair(other.flex_grow.deep(), crate::facet::dpair(other.flex_shrink.deep(), crate::facet::dpair(other.flex_basis.deep(), crate::facet::dpair(other.wrap.deep(), crate::facet::dpair(other.grid_template_columns.deep(), crate::facet::dpair(other.grid_template_rows.deep(), crate::facet::dpair(other.grid_column.deep(), crate::facet::dpair(other.grid_row.deep(), crate::facet::dpair(other.position.deep(), crate::facet::dpair(other.inset.deep(), crate::facet::dpair(other.z_index.deep(), crate::facet::dpair(other.overflow_x.deep(), crate::facet::dpair(other.overflow_y.deep(), crate::facet::dpair(other.background.deep(), crate::facet::dpair(other.foreground.deep(), crate::facet::dpair(other.border_width.deep(), crate::facet::dpair(other.border_color.deep(), crate::facet::dpair(other.radius.deep(), crate::facet::dpair(other.shadows.deep(), crate::facet::dpair(other.opacity.deep(), crate::facet::dpair(other.transform.deep(), crate::facet::dpair(other.filter.deep(), crate::facet::dpair(other.glass.deep(), crate::facet::dpair(other.glass_material.deep(), crate::facet::dpair(other.cursor.deep(), crate::facet::dpair(other.classes.deep(), other.css.deep()))))))))))))))))))))))))))))))))))))) == (e6 && e7 && e8 && e9 && e10 && e11 && e12 && e13 && e14 && e15 && e16 && e17 && e18 && e19 && e20 && e21 && e22 && e23 && e24 && e25 && e26 && e27 && e28 && e29 && e30 && e31 && e32 && e33 && e34 && e35 && e36 && e37 && e38 && e39 && e40 && e41 && e42));
            assert(crate::facet::deep_eq(crate::facet::dpair(self.max_height.deep(), crate::facet::dpair(self.padding.deep(), crate::facet::dpair(self.margin.deep(), crate::facet::dpair(self.display.deep(), crate::facet::dpair(self.direction.deep(), crate::facet::dpair(self.align_items.deep(), crate::facet::dpair(self.align_self.deep(), crate::facet::dpair(self.justify_content.deep(), crate::facet::dpair(self.gap.deep(), crate::facet::dpair(self.row_gap.deep(), crate::facet::dpair(self.column_gap.deep(), crate::facet::dpair(self.flex_grow.deep(), crate::facet::dpair(self.flex_shrink.deep(), crate::facet::dpair(self.flex_basis.deep(), crate::facet::dpair(self.wrap.deep(), crate::facet::dpair(self.grid_template_columns.deep(), crate::facet::dpair(self.grid_template_rows.deep(), crate::facet::dpair(self.grid_column.deep(), crate::facet::dpair(self.grid_row.deep(), crate::facet::dpair(self.position.deep(), crate::facet::dpair(self.inset.deep(), crate::facet::dpair(self.z_index.deep(), crate::facet::dpair(self.overflow_x.deep(), crate::facet::dpair(self.overflow_y.deep(), crate::facet::dpair(self.background.deep(), crate::facet::dpair(self.foreground.deep(), crate::facet::dpair(self.border_width.deep(), crate::facet::dpair(self.border_color.deep(), crate::facet::dpair(self.radius.deep(), crate::facet::dpair(self.shadows.deep(), crate::facet::dpair(self.opacity.deep(), crate::facet::dpair(self.transform.deep(), crate::facet::dpair(self.filter.deep(), crate::facet::dpair(self.glass.deep(), crate::facet::dpair(self.glass_material.deep(), crate::facet::dpair(self.cursor.deep(), crate::facet::dpair(self.classes.deep(), self.css.deep()))))))))))))))))))))))))))))))))))))), crate::facet::dpair(other.max_height.deep(), crate::facet::dpair(other.padding.deep(), crate::facet::dpair(other.margin.deep(), crate::facet::dpair(other.display.deep(), crate::facet::dpair(other.direction.deep(), crate::facet::dpair(other.align_items.deep(), crate::facet::dpair(other.align_self.deep(), crate::facet::dpair(other.justify_content.deep(), crate::facet::dpair(other.gap.deep(), crate::facet::dpair(other.row_gap.deep(), crate::facet::dpair(other.column_gap.deep(), crate::facet::dpair(other.flex_grow.deep(), crate::facet::dpair(other.flex_shrink.deep(), crate::facet::dpair(other.flex_basis.deep(), crate::facet::dpair(other.wrap.deep(), crate::facet::dpair(other.grid_template_columns.deep(), crate::facet::dpair(other.grid_template_rows.deep(), crate::facet::dpair(other.grid_column.deep(), crate::facet::dpair(other.grid_row.deep(), crate::facet::dpair(other.position.deep(), crate::facet::dpair(other.inset.deep(), crate::facet::dpair(other.z_index.deep(), crate::facet::dpair(other.overflow_x.deep(), crate::facet::dpair(other.overflow_y.deep(), crate::facet::dpair(other.background.deep(), crate::facet::dpair(other.foreground.deep(), crate::facet::dpair(other.border_width.deep(), crate::facet::dpair(other.border_color.deep(), crate::facet::dpair(other.radius.deep(), crate::facet::dpair(other.shadows.deep(), crate::facet::dpair(other.opacity.deep(), crate::facet::dpair(other.transform.deep(), crate::facet::dpair(other.filter.deep(), crate::facet::dpair(other.glass.deep(), crate::facet::dpair(other.glass_material.deep(), crate::facet::dpair(other.cursor.deep(), crate::facet::dpair(other.classes.deep(), other.css.deep())))))))))))))))))))))))))))))))))))))) == (e5 && e6 && e7 && e8 && e9 && e10 && e11 && e12 && e13 && e14 && e15 && e16 && e17 && e18 && e19 && e20 && e21 && e22 && e23 && e24 && e25 && e26 && e27 && e28 && e29 && e30 && e31 && e32 && e33 && e34 && e35 && e36 && e37 && e38 && e39 && e40 && e41 && e42));
            assert(crate::facet::deep_eq(crate::facet::dpair(self.max_width.deep(), crate::facet::dpair(self.max_height.deep(), crate::facet::dpair(self.padding.deep(), crate::facet::dpair(self.margin.deep(), crate::facet::dpair(self.display.deep(), crate::facet::dpair(self.direction.deep(), crate::facet::dpair(self.align_items.deep(), crate::facet::dpair(self.align_self.deep(), crate::facet::dpair(self.justify_content.deep(), crate::facet::dpair(self.gap.deep(), crate::facet::dpair(self.row_gap.deep(), crate::facet::dpair(self.column_gap.deep(), crate::facet::dpair(self.flex_grow.deep(), crate::facet::dpair(self.flex_shrink.deep(), crate::facet::dpair(self.flex_basis.deep(), crate::facet::dpair(self.wrap.deep(), crate::facet::dpair(self.grid_template_columns.deep(), crate::facet::dpair(self.grid_template_rows.deep(), crate::facet::dpair(self.grid_column.deep(), crate::facet::dpair(self.grid_row.deep(), crate::facet::dpair(self.position.deep(), crate::facet::dpair(self.inset.deep(), crate::facet::dpair(self.z_index.deep(), crate::facet::dpair(self.overflow_x.deep(), crate::facet::dpair(self.overflow_y.deep(), crate::facet::dpair(self.background.deep(), crate::facet::dpair(self.foreground.deep(), crate::facet::dpair(self.border_width.deep(), crate::facet::dpair(self.border_color.deep(), crate::facet::dpair(self.radius.deep(), crate::facet::dpair(self.shadows.deep(), crate::facet::dpair(self.opacity.deep(), crate::facet::dpair(self.transform.deep(), crate::facet::dpair(self.filter.deep(), crate::facet::dpair(self.glass.deep(), crate::facet::dpair(self.glass_material.deep(), crate::facet::dpair(self.cursor.deep(), crate::facet::dpair(self.classes.deep(), self.css.deep())))))))))))))))))))))))))))))))))))))), crate::facet::dpair(other.max_width.deep(), crate::facet::dpair(other.max_height.deep(), crate::facet::dpair(other.padding.deep(), crate::facet::dpair(other.margin.deep(), crate::facet::dpair(other.display.deep(), crate::facet::dpair(other.direction.deep(), crate::facet::dpair(other.align_items.deep(), crate::facet::dpair(other.align_self.deep(), crate::facet::dpair(other.justify_content.deep(), crate::facet::dpair(other.gap.deep(), crate::facet::dpair(other.row_gap.deep(), crate::facet::dpair(other.column_gap.deep(), crate::facet::dpair(other.flex_grow.deep(), crate::facet::dpair(other.flex_shrink.deep(), crate::facet::dpair(other.flex_basis.deep(), crate::facet::dpair(other.wrap.deep(), crate::facet::dpair(other.grid_template_columns.deep(), crate::facet::dpair(other.grid_template_rows.deep(), crate::facet::dpair(other.grid_column.deep(), crate::facet::dpair(other.grid_row.deep(), crate::facet::dpair(other.position.deep(), crate::facet::dpair(other.inset.deep(), crate::facet::dpair(other.z_index.deep(), crate::facet::dpair(other.overflow_x.deep(), crate::facet::dpair(other.overflow_y.deep(), crate::facet::dpair(other.background.deep(), crate::facet::dpair(other.foreground.deep(), crate::facet::dpair(other.border_width.deep(), crate::facet::dpair(other.border_color.deep(), crate::facet::dpair(other.radius.deep(), crate::facet::dpair(other.shadows.deep(), crate::facet::dpair(other.opacity.deep(), crate::facet::dpair(other.transform.deep(), crate::facet::dpair(other.filter.deep(), crate::facet::dpair(other.glass.deep(), crate::facet::dpair(other.glass_material.deep(), crate::facet::dpair(other.cursor.deep(), crate::facet::dpair(other.classes.deep(), other.css.deep()))))))))))))))))))))))))))))))))))))))) == (e4 && e5 && e6 && e7 && e8 && e9 && e10 && e11 && e12 && e13 && e14 && e15 && e16 && e17 && e18 && e19 && e20 && e21 && e22 && e23 && e24 && e25 && e26 && e27 && e28 && e29 && e30 && e31 && e32 && e33 && e34 && e35 && e36 && e37 && e38 && e39 && e40 && e41 && e42));
            assert(crate::facet::deep_eq(crate::facet::dpair(self.min_height.deep(), crate::facet::dpair(self.max_width.deep(), crate::facet::dpair(self.max_height.deep(), crate::facet::dpair(self.padding.deep(), crate::facet::dpair(self.margin.deep(), crate::facet::dpair(self.display.deep(), crate::facet::dpair(self.direction.deep(), crate::facet::dpair(self.align_items.deep(), crate::facet::dpair(self.align_self.deep(), crate::facet::dpair(self.justify_content.deep(), crate::facet::dpair(self.gap.deep(), crate::facet::dpair(self.row_gap.deep(), crate::facet::dpair(self.column_gap.deep(), crate::facet::dpair(self.flex_grow.deep(), crate::facet::dpair(self.flex_shrink.deep(), crate::facet::dpair(self.flex_basis.deep(), crate::facet::dpair(self.wrap.deep(), crate::facet::dpair(self.grid_template_columns.deep(), crate::facet::dpair(self.grid_template_rows.deep(), crate::facet::dpair(self.grid_column.deep(), crate::facet::dpair(self.grid_row.deep(), crate::facet::dpair(self.position.deep(), crate::facet::dpair(self.inset.deep(), crate::facet::dpair(self.z_index.deep(), crate::facet::dpair(self.overflow_x.deep(), crate::facet::dpair(self.overflow_y.deep(), crate::facet::dpair(self.background.deep(), crate::facet::dpair(self.foreground.deep(), crate::facet::dpair(self.border_width.deep(), crate::facet::dpair(self.border_color.deep(), crate::facet::dpair(self.radius.deep(), crate::facet::dpair(self.shadows.deep(), crate::facet::dpair(self.opacity.deep(), crate::facet::dpair(self.transform.deep(), crate::facet::dpair(self.filter.deep(), crate::facet::dpair(self.glass.deep(), crate::facet::dpair(self.glass_material.deep(), crate::facet::dpair(self.cursor.deep(), crate::facet::dpair(self.classes.deep(), self.css.deep()))))))))))))))))))))))))))))))))))))))), crate::facet::dpair(other.min_height.deep(), crate::facet::dpair(other.max_width.deep(), crate::facet::dpair(other.max_height.deep(), crate::facet::dpair(other.padding.deep(), crate::facet::dpair(other.margin.deep(), crate::facet::dpair(other.display.deep(), crate::facet::dpair(other.direction.deep(), crate::facet::dpair(other.align_items.deep(), crate::facet::dpair(other.align_self.deep(), crate::facet::dpair(other.justify_content.deep(), crate::facet::dpair(other.gap.deep(), crate::facet::dpair(other.row_gap.deep(), crate::facet::dpair(other.column_gap.deep(), crate::facet::dpair(other.flex_grow.deep(), crate::facet::dpair(other.flex_shrink.deep(), crate::facet::dpair(other.flex_basis.deep(), crate::facet::dpair(other.wrap.deep(), crate::facet::dpair(other.grid_template_columns.deep(), crate::facet::dpair(other.grid_template_rows.deep(), crate::facet::dpair(other.grid_column.deep(), crate::facet::dpair(other.grid_row.deep(), crate::facet::dpair(other.position.deep(), crate::facet::dpair(other.inset.deep(), crate::facet::dpair(other.z_index.deep(), crate::facet::dpair(other.overflow_x.deep(), crate::facet::dpair(other.overflow_y.deep(), crate::facet::dpair(other.background.deep(), crate::facet::dpair(other.foreground.deep(), crate::facet::dpair(other.border_width.deep(), crate::facet::dpair(other.border_color.deep(), crate::facet::dpair(other.radius.deep(), crate::facet::dpair(other.shadows.deep(), crate::facet::dpair(other.opacity.deep(), crate::facet::dpair(other.transform.deep(), crate::facet::dpair(other.filter.deep(), crate::facet::dpair(other.glass.deep(), crate::facet::dpair(other.glass_material.deep(), crate::facet::dpair(other.cursor.deep(), crate::facet::dpair(other.classes.deep(), other.css.deep())))))))))))))))))))))))))))))))))))))))) == (e3 && e4 && e5 && e6 && e7 && e8 && e9 && e10 && e11 && e12 && e13 && e14 && e15 && e16 && e17 && e18 && e19 && e20 && e21 && e22 && e23 && e24 && e25 && e26 && e27 && e28 && e29 && e30 && e31 && e32 && e33 && e34 && e35 && e36 && e37 && e38 && e39 && e40 && e41 && e42));
            assert(crate::facet::deep_eq(crate::facet::dpair(self.min_width.deep(), crate::facet::dpair(self.min_height.deep(), crate::facet::dpair(self.max_width.deep(), crate::facet::dpair(self.max_height.deep(), crate::facet::dpair(self.padding.deep(), crate::facet::dpair(self.margin.deep(), crate::facet::dpair(self.display.deep(), crate::facet::dpair(self.direction.deep(), crate::facet::dpair(self.align_items.deep(), crate::facet::dpair(self.align_self.deep(), crate::facet::dpair(self.justify_content.deep(), crate::facet::dpair(self.gap.deep(), crate::facet::dpair(self.row_gap.deep(), crate::facet::dpair(self.column_gap.deep(), crate::facet::dpair(self.flex_grow.deep(), crate::facet::dpair(self.flex_shrink.deep(), crate::facet::dpair(self.flex_basis.deep(), crate::facet::dpair(self.wrap.deep(), crate::facet::dpair(self.grid_template_columns.deep(), crate::facet::dpair(self.grid_template_rows.deep(), crate::facet::dpair(self.grid_column.deep(), crate::facet::dpair(self.grid_row.deep(), crate::facet::dpair(self.position.deep(), crate::facet::dpair(self.inset.deep(), crate::facet::dpair(self.z_index.deep(), crate::facet::dpair(self.overflow_x.deep(), crate::facet::dpair(self.overflow_y.deep(), crate::facet::dpair(self.background.deep(), crate::facet::dpair(self.foreground.deep(), crate::facet::dpair(self.border_width.deep(), crate::facet::dpair(self.border_color.deep(), crate::facet::dpair(self.radius.deep(), crate::facet::dpair(self.shadows.deep(), crate::facet::dpair(self.opacity.deep(), crate::facet::dpair(self.transform.deep(), crate::facet::dpair(self.filter.deep(), crate::facet::dpair(self.glass.deep(), crate::facet::dpair(self.glass_material.deep(), crate::facet::dpair(self.cursor.deep(), crate::facet::dpair(self.classes.deep(), self.css.deep())))))))))))))))))))))))))))))))))))))))), crate::facet::dpair(other.min_width.deep(), crate::facet::dpair(other.min_height.deep(), crate::facet::dpair(other.max_width.deep(), crate::facet::dpair(other.max_height.deep(), crate::facet::dpair(other.padding.deep(), crate::facet::dpair(other.margin.deep(), crate::facet::dpair(other.display.deep(), crate::facet::dpair(other.direction.deep(), crate::facet::dpair(other.align_items.deep(), crate::facet::dpair(other.align_self.deep(), crate::facet::dpair(other.justify_content.deep(), crate::facet::dpair(other.gap.deep(), crate::facet::dpair(other.row_gap.deep(), crate::facet::dpair(other.column_gap.deep(), crate::facet::dpair(other.flex_grow.deep(), crate::facet::dpair(other.flex_shrink.deep(), crate::facet::dpair(other.flex_basis.deep(), crate::facet::dpair(other.wrap.deep(), crate::facet::dpair(other.grid_template_columns.deep(), crate::facet::dpair(other.grid_template_rows.deep(), crate::facet::dpair(other.grid_column.deep(), crate::facet::dpair(other.grid_row.deep(), crate::facet::dpair(other.position.deep(), crate::facet::dpair(other.inset.deep(), crate::facet::dpair(other.z_index.deep(), crate::facet::dpair(other.overflow_x.deep(), crate::facet::dpair(other.overflow_y.deep(), crate::facet::dpair(other.background.deep(), crate::facet::dpair(other.foreground.deep(), crate::facet::dpair(other.border_width.deep(), crate::facet::dpair(other.border_color.deep(), crate::facet::dpair(other.radius.deep(), crate::facet::dpair(other.shadows.deep(), crate::facet::dpair(other.opacity.deep(), crate::facet::dpair(other.transform.deep(), crate::facet::dpair(other.filter.deep(), crate::facet::dpair(other.glass.deep(), crate::facet::dpair(other.glass_material.deep(), crate::facet::dpair(other.cursor.deep(), crate::facet::dpair(other.classes.deep(), other.css.deep()))))))))))))))))))))))))))))))))))))))))) == (e2 && e3 && e4 && e5 && e6 && e7 && e8 && e9 && e10 && e11 && e12 && e13 && e14 && e15 && e16 && e17 && e18 && e19 && e20 && e21 && e22 && e23 && e24 && e25 && e26 && e27 && e28 && e29 && e30 && e31 && e32 && e33 && e34 && e35 && e36 && e37 && e38 && e39 && e40 && e41 && e42));
            assert(crate::facet::deep_eq(crate::facet::dpair(self.height.deep(), crate::facet::dpair(self.min_width.deep(), crate::facet::dpair(self.min_height.deep(), crate::facet::dpair(self.max_width.deep(), crate::facet::dpair(self.max_height.deep(), crate::facet::dpair(self.padding.deep(), crate::facet::dpair(self.margin.deep(), crate::facet::dpair(self.display.deep(), crate::facet::dpair(self.direction.deep(), crate::facet::dpair(self.align_items.deep(), crate::facet::dpair(self.align_self.deep(), crate::facet::dpair(self.justify_content.deep(), crate::facet::dpair(self.gap.deep(), crate::facet::dpair(self.row_gap.deep(), crate::facet::dpair(self.column_gap.deep(), crate::facet::dpair(self.flex_grow.deep(), crate::facet::dpair(self.flex_shrink.deep(), crate::facet::dpair(self.flex_basis.deep(), crate::facet::dpair(self.wrap.deep(), crate::facet::dpair(self.grid_template_columns.deep(), crate::facet::dpair(self.grid_template_rows.deep(), crate::facet::dpair(self.grid_column.deep(), crate::facet::dpair(self.grid_row.deep(), crate::facet::dpair(self.position.deep(), crate::facet::dpair(self.inset.deep(), crate::facet::dpair(self.z_index.deep(), crate::facet::dpair(self.overflow_x.deep(), crate::facet::dpair(self.overflow_y.deep(), crate::facet::dpair(self.background.deep(), crate::facet::dpair(self.foreground.deep(), crate::facet::dpair(self.border_width.deep(), crate::facet::dpair(self.border_color.deep(), crate::facet::dpair(self.radius.deep(), crate::facet::dpair(self.shadows.deep(), crate::facet::dpair(self.opacity.deep(), crate::facet::dpair(self.transform.deep(), crate::facet::dpair(self.filter.deep(), crate::facet::dpair(self.glass.deep(), crate::facet::dpair(self.glass_material.deep(), crate::facet::dpair(self.cursor.deep(), crate::facet::dpair(self.classes.deep(), self.css.deep()))))))))))))))))))))))))))))))))))))))))), crate::facet::dpair(other.height.deep(), crate::facet::dpair(other.min_width.deep(), crate::facet::dpair(other.min_height.deep(), crate::facet::dpair(other.max_width.deep(), crate::facet::dpair(other.max_height.deep(), crate::facet::dpair(other.padding.deep(), crate::facet::dpair(other.margin.deep(), crate::facet::dpair(other.display.deep(), crate::facet::dpair(other.direction.deep(), crate::facet::dpair(other.align_items.deep(), crate::facet::dpair(other.align_self.deep(), crate::facet::dpair(other.justify_content.deep(), crate::facet::dpair(other.gap.deep(), crate::facet::dpair(other.row_gap.deep(), crate::facet::dpair(other.column_gap.deep(), crate::facet::dpair(other.flex_grow.deep(), crate::facet::dpair(other.flex_shrink.deep(), crate::facet::dpair(other.flex_basis.deep(), crate::facet::dpair(other.wrap.deep(), crate::facet::dpair(other.grid_template_columns.deep(), crate::facet::dpair(other.grid_template_rows.deep(), crate::facet::dpair(other.grid_column.deep(), crate::facet::dpair(other.grid_row.deep(), crate::facet::dpair(other.position.deep(), crate::facet::dpair(other.inset.deep(), crate::facet::dpair(other.z_index.deep(), crate::facet::dpair(other.overflow_x.deep(), crate::facet::dpair(other.overflow_y.deep(), crate::facet::dpair(other.background.deep(), crate::facet::dpair(other.foreground.deep(), crate::facet::dpair(other.border_width.deep(), crate::facet::dpair(other.border_color.deep(), crate::facet::dpair(other.radius.deep(), crate::facet::dpair(other.shadows.deep(), crate::facet::dpair(other.opacity.deep(), crate::facet::dpair(other.transform.deep(), crate::facet::dpair(other.filter.deep(), crate::facet::dpair(other.glass.deep(), crate::facet::dpair(other.glass_material.deep(), crate::facet::dpair(other.cursor.deep(), crate::facet::dpair(other.classes.deep(), other.css.deep())))))))))))))))))))))))))))))))))))))))))) == (e1 && e2 && e3 && e4 && e5 && e6 && e7 && e8 && e9 && e10 && e11 && e12 && e13 && e14 && e15 && e16 && e17 && e18 && e19 && e20 && e21 && e22 && e23 && e24 && e25 && e26 && e27 && e28 && e29 && e30 && e31 && e32 && e33 && e34 && e35 && e36 && e37 && e38 && e39 && e40 && e41 && e42));
            assert(crate::facet::deep_eq(crate::facet::dpair(self.width.deep(), crate::facet::dpair(self.height.deep(), crate::facet::dpair(self.min_width.deep(), crate::facet::dpair(self.min_height.deep(), crate::facet::dpair(self.max_width.deep(), crate::facet::dpair(self.max_height.deep(), crate::facet::dpair(self.padding.deep(), crate::facet::dpair(self.margin.deep(), crate::facet::dpair(self.display.deep(), crate::facet::dpair(self.direction.deep(), crate::facet::dpair(self.align_items.deep(), crate::facet::dpair(self.align_self.deep(), crate::facet::dpair(self.justify_content.deep(), crate::facet::dpair(self.gap.deep(), crate::facet::dpair(self.row_gap.deep(), crate::facet::dpair(self.column_gap.deep(), crate::facet::dpair(self.flex_grow.deep(), crate::facet::dpair(self.flex_shrink.deep(), crate::facet::dpair(self.flex_basis.deep(), crate::facet::dpair(self.wrap.deep(), crate::facet::dpair(self.grid_template_columns.deep(), crate::facet::dpair(self.grid_template_rows.deep(), crate::facet::dpair(self.grid_column.deep(), crate::facet::dpair(self.grid_row.deep(), crate::facet::dpair(self.position.deep(), crate::facet::dpair(self.inset.deep(), crate::facet::dpair(self.z_index.deep(), crate::facet::dpair(self.overflow_x.deep(), crate::facet::dpair(self.overflow_y.deep(), crate::facet::dpair(self.background.deep(), crate::facet::dpair(self.foreground.deep(), crate::facet::dpair(self.border_width.deep(), crate::facet::dpair(self.border_color.deep(), crate::facet::dpair(self.radius.deep(), crate::facet::dpair(self.shadows.deep(), crate::facet::dpair(self.opacity.deep(), crate::facet::dpair(self.transform.deep(), crate::facet::dpair(self.filter.deep(), crate::facet::dpair(self.glass.deep(), crate::facet::dpair(self.glass_material.deep(), crate::facet::dpair(self.cursor.deep(), crate::facet::dpair(self.classes.deep(), self.css.deep())))))))))))))))))))))))))))))))))))))))))), crate::facet::dpair(other.width.deep(), crate::facet::dpair(other.height.deep(), crate::facet::dpair(other.min_width.deep(), crate::facet::dpair(other.min_height.deep(), crate::facet::dpair(other.max_width.deep(), crate::facet::dpair(other.max_height.deep(), crate::facet::dpair(other.padding.deep(), crate::facet::dpair(other.margin.deep(), crate::facet::dpair(other.display.deep(), crate::facet::dpair(other.direction.deep(), crate::facet::dpair(other.align_items.deep(), crate::facet::dpair(other.align_self.deep(), crate::facet::dpair(other.justify_content.deep(), crate::facet::dpair(other.gap.deep(), crate::facet::dpair(other.row_gap.deep(), crate::facet::dpair(other.column_gap.deep(), crate::facet::dpair(other.flex_grow.deep(), crate::facet::dpair(other.flex_shrink.deep(), crate::facet::dpair(other.flex_basis.deep(), crate::facet::dpair(other.wrap.deep(), crate::facet::dpair(other.grid_template_columns.deep(), crate::facet::dpair(other.grid_template_rows.deep(), crate::facet::dpair(other.grid_column.deep(), crate::facet::dpair(other.grid_row.deep(), crate::facet::dpair(other.position.deep(), crate::facet::dpair(other.inset.deep(), crate::facet::dpair(other.z_index.deep(), crate::facet::dpair(other.overflow_x.deep(), crate::facet::dpair(other.overflow_y.deep(), crate::facet::dpair(other.background.deep(), crate::facet::dpair(other.foreground.deep(), crate::facet::dpair(other.border_width.deep(), crate::facet::dpair(other.border_color.deep(), crate::facet::dpair(other.radius.deep(), crate::facet::dpair(other.shadows.deep(), crate::facet::dpair(other.opacity.deep(), crate::facet::dpair(other.transform.deep(), crate::facet::dpair(other.filter.deep(), crate::facet::dpair(other.glass.deep(), crate::facet::dpair(other.glass_material.deep(), crate::facet::dpair(other.cursor.deep(), crate::facet::dpair(other.classes.deep(), other.css.deep()))))))))))))))))))))))))))))))))))))))))))) == (e0 && e1 && e2 && e3 && e4 && e5 && e6 && e7 && e8 && e9 && e10 && e11 && e12 && e13 && e14 && e15 && e16 && e17 && e18 && e19 && e20 && e21 && e22 && e23 && e24 && e25 && e26 && e27 && e28 && e29 && e30 && e31 && e32 && e33 && e34 && e35 && e36 && e37 && e38 && e39 && e40 && e41 && e42));
        }
        e0 && e1 && e2 && e3 && e4 && e5 && e6 && e7 && e8 && e9 && e10 && e11 && e12 && e13 && e14 && e15 && e16 && e17 && e18 && e19 && e20 && e21 && e22 && e23 && e24 && e25 && e26 && e27 && e28 && e29 && e30 && e31 && e32 && e33 && e34 && e35 && e36 && e37 && e38 && e39 && e40 && e41 && e42
    }

    fn duplicate(&self) -> (r: Self) {
        Style { width: self.width.duplicate(), height: self.height.duplicate(), min_width: self.min_width.duplicate(), min_height: self.min_height.duplicate(), max_width: self.max_width.duplicate(), max_height: self.max_height.duplicate(), padding: self.padding.duplicate(), margin: self.margin.duplicate(), display: self.display.duplicate(), direction: self.direction.duplicate(), align_items: self.align_items.duplicate(), align_self: self.align_self.duplicate(), justify_content: self.justify_content.duplicate(), gap: self.gap.duplicate(), row_gap: self.row_gap.duplicate(), column_gap: self.column_gap.duplicate(), flex_grow: self.flex_grow.duplicate(), flex_shrink: self.flex_shrink.duplicate(), flex_basis: self.flex_basis.duplicate(), wrap: self.wrap.duplicate(), grid_template_columns: self.grid_template_columns.duplicate(), grid_template_rows: self.grid_template_rows.duplicate(), grid_column: self.grid_column.duplicate(), grid_row: self.grid_row.duplicate(), position: self.position.duplicate(), inset: self.inset.duplicate(), z_index: self.z_index.duplicate(), overflow_x: self.overflow_x.duplicate(), overflow_y: self.overflow_y.duplicate(), background: self.background.duplicate(), foreground: self.foreground.duplicate(), border_width: self.border_width.duplicate(), border_color: self.border_color.duplicate(), radius: self.radius.duplicate(), shadows: self.shadows.duplicate(), opacity: self.opacity.duplicate(), transform: self.transform.duplicate(), filter: self.filter.duplicate(), glass: self.glass.duplicate(), glass_material: self.glass_material.duplicate(), cursor: self.cursor.duplicate(), classes: self.classes.duplicate(), css: self.css.duplicate() }
    }
}

/// The value of an ASCII hexadecimal digit, or `-1` for any other byte.
pub open spec fn hex_digit_value(c: u8) -> int {
    if 48 <= c <= 57 {
        c - 48
    } else if 97 <= c <= 102 {
        c - 87
    } else if 65 <= c <= 70 {
        c - 55
    } else {
        -1
    }
}

/// The number that a string of hexadecimal digits spells.
pub open spec fn hex_value(s: Seq<u8>) -> int
    decreases s.len(),
{
    if s.len() == 0 {
        0
    } else {
        hex_value(s.drop_last()) * 16 + hex_digit_value(s.last())
    }
}

/// Every byte is a hexadecimal digit.
pub open spec fn all_hex_digits(s: Seq<u8>) -> bool {
    forall|i: int| 0 <= i < s.len() ==> hex_digit_value(#[trigger] s[i]) >= 0
}

/// The bytes after every leading `#`.
pub open spec fn trim_hashes(s: Seq<u8>) -> Seq<u8>
    decreases s.len(),
{
    if s.len() > 0 && s[0] == 35 {
        trim_hashes(s.drop_first())
    } else {
        s
    }
}

/// Whether a trimmed color string is a non-empty run of hex digits.
pub open spec fn hex_parses(t: Seq<u8>) -> bool {
    t.len() > 0 && all_hex_digits(t)
}

/// The byte of `v` that starts at bit `shift`.
pub open spec fn byte_at(v: int, shift: int) -> u8 {
    ((v / crate::style::pow2(shift)) % 256) as u8
}

/// `2^n` for the shifts used by color parsing.
pub open spec fn pow2(n: int) -> int {
    if n == 0 {
        1
    } else if n == 4 {
        16
    } else if n == 8 {
        256
    } else if n == 16 {
        65536
    } else {
        16777216
    }
}

/// The channel bytes `[r, g, b, a]` that a CSS hex color names:
/// `#rrggbb`, `#rrggbbaa` or `#rgb`, where each `#rgb` nibble `n` becomes `n * 17`.
/// The string's length is counted after the leading `#`s, and every byte
/// after them must be a hex digit.
pub open spec fn spec_hex_channels(s: Seq<u8>) -> Option<(u8, u8, u8, u8)> {
    let t = trim_hashes(s);
    let v = hex_value(t);
    if !hex_parses(t) {
        None
    } else if t.len() == 6 {
        Some((byte_at(v, 16), byte_at(v, 8), byte_at(v, 0), 255u8))
    } else if t.len() == 8 {
        Some((byte_at(v, 24), byte_at(v, 16), byte_at(v, 8), byte_at(v, 0)))
    } else if t.len() == 3 {
        Some((((v / 256) % 16 * 17) as u8, ((v / 16) % 16 * 17) as u8, (v % 16 * 17) as u8, 255u8))
    } else {
        None
    }
}

proof fn lemma_hex_value_bound(s: Seq<u8>)
    requires
        all_hex_digits(s),
    ensures
        0 <= hex_value(s),
        s.len() <= 8 ==> hex_value(s) < crate::style::pow16(s.len()),
    decreases s.len(),
{
    if s.len() > 0 {
        let p = s.drop_last();
        assert forall|i: int| 0 <= i < p.len() implies hex_digit_value(#[trigger] p[i]) >= 0 by {
            assert(p[i] == s[i]);
        }
        assert(hex_digit_value(s[s.len() - 1]) >= 0);
        lemma_hex_value_bound(p);
        assert(hex_digit_value(s.last()) < 16);
    }
}

/// `16^n`.
pub open spec fn pow16(n: nat) -> int
    decreases n,
{
    if n == 0 {
        1
    } else {
        16 * pow16((n - 1) as nat)
    }
}

impl Color {
    /// A color from its four channels.
    pub fn rgba(r: F32, g: F32, b: F32, a: F32) -> (c: Color)
        ensures
            c.r == r,
            c.g == g,
            c.b == b,
            c.a == a,
    {
        Color { r, g, b, a }
    }

    /// An opaque color (alpha `1.0`).
    pub fn rgb(r: F32, g: F32, b: F32) -> (c: Color)
        ensures
            c.r == r,
            c.g == g,
            c.b == b,
            c.a.bits == 0x3f80_0000u32,
    {
        Color { r, g, b, a: F32 { bits: 0x3f80_0000u32 } }
    }

    /// Opaque white.
    pub fn white() -> (c: Color)
        ensures
            c.r.bits == 0x3f80_0000u32,
            c.g.bits == 0x3f80_0000u32,
            c.b.bits == 0x3f80_0000u32,
            c.a.bits == 0x3f80_0000u32,
    {
        Color::rgb(F32 { bits: 0x3f80_0000u32 }, F32 { bits: 0x3f80_0000u32 }, F32 { bits: 0x3f80_0000u32 })
    }

    /// Opaque black.
    pub fn black() -> (c: Color)
        ensures
            c.r.bits == 0u32,
            c.g.bits == 0u32,
            c.b.bits == 0u32,
            c.a.bits == 0x3f80_0000u32,
    {
        Color::rgb(F32 { bits: 0 }, F32 { bits: 0 }, F32 { bits: 0 })
    }

    /// Fully transparent black.
    pub fn transparent() -> (c: Color)
        ensures
            c.r.bits == 0u32,
            c.g.bits == 0u32,
            c.b.bits == 0u32,
            c.a.bits == 0u32,
    {
        Color::rgba(F32 { bits: 0 }, F32 { bits: 0 }, F32 { bits: 0 }, F32 { bits: 0 })
    }

    /// The channel bytes of a CSS-style `#rgb` / `#rrggbb` / `#rrggbbaa` hex
    /// string; each channel of the color is its byte divided by 255.
    pub fn hex_channels(s: &str) -> (r: Option<(u8, u8, u8, u8)>)
        ensures
            r == spec_hex_channels(s.spec_bytes()),
    {
        let bytes = s.as_bytes();
        let n = bytes.len();
        let start = skip_hashes(bytes);
        let ghost t = bytes@.subrange(start as int, n as int);
        let len = n - start;
        let body = start;
        if body >= n || !all_hex_from(bytes, body) {
            return None;
        }
        if len != 6 && len != 8 && len != 3 {
            return None;
        }
        let v = hex_number_from(bytes, body);
        let b24 = (v >> 24u32) & 0xffu32;
        let b16 = (v >> 16u32) & 0xffu32;
        let b8 = (v >> 8u32) & 0xffu32;
        let b0 = v & 0xffu32;
        assert(b24 == (v / 16777216) % 256 && b16 == (v / 65536) % 256 && b8 == (v / 256) % 256 && b0 == v % 256)
            by (bit_vector)
            requires
                b24 == (v >> 24u32) & 0xffu32,
                b16 == (v >> 16u32) & 0xffu32,
                b8 == (v >> 8u32) & 0xffu32,
                b0 == v & 0xffu32,
        ;
        if len == 6 {
            Some((b16 as u8, b8 as u8, b0 as u8, 255u8))
        } else if len == 8 {
            Some((b24 as u8, b16 as u8, b8 as u8, b0 as u8))
        } else {
            let n2 = (v >> 8u32) & 0xfu32;
            let n1 = (v >> 4u32) & 0xfu32;
            let n0 = v & 0xfu32;
            assert(n2 == (v / 256) % 16 && n1 == (v / 16) % 16 && n0 == v % 16) by (bit_vector)
                requires
                    n2 == (v >> 8u32) & 0xfu32,
                    n1 == (v >> 4u32) & 0xfu32,
                    n0 == v & 0xfu32,
            ;
            Some(((n2 * 17u32) as u8, (n1 * 17u32) as u8, (n0 * 17u32) as u8, 255u8))
        }
    }
}

fn skip_hashes(bytes: &[u8]) -> (start: usize)
    ensures
        start <= bytes@.len(),
        trim_hashes(bytes@) == bytes@.subrange(start as int, bytes@.len() as int),
{
    let n = bytes.len();
    let mut start: usize = 0;
    assert(bytes@.subrange(0, n as int) =~= bytes@);
    while start < n && bytes[start] == 35u8
        invariant
            start <= n,
            n == bytes@.len(),
            trim_hashes(bytes@) == trim_hashes(bytes@.subrange(start as int, n as int)),
        decreases n - start,
    {
        assert(bytes@.subrange(start as int, n as int).drop_first() =~= bytes@.subrange(start + 1, n as int));
        start += 1;
    }
    start
}

fn is_hex_digit(c: u8) -> (r: bool)
    ensures
        r == (hex_digit_value(c) >= 0),
{
    (48u8 <= c && c <= 57u8) || (97u8 <= c && c <= 102u8) || (65u8 <= c && c <= 70u8)
}

fn all_hex_from(bytes: &[u8], from: usize) -> (r: bool)
    requires
        from <= bytes@.len(),
    ensures
        r == all_hex_digits(bytes@.subrange(from as int, bytes@.len() as int)),
{
    let n = bytes.len();
    let ghost b = bytes@.subrange(from as int, n as int);
    let mut i = from;
    while i < n
        invariant
            from <= i <= n,
            n == bytes@.len(),
            b == bytes@.subrange(from as int, n as int),
            forall|j: int| from <= j < i ==> hex_digit_value(#[trigger] bytes@[j]) >= 0,
        decreases n - i,
    {
        if !is_hex_digit(bytes[i]) {
            assert(b[i - from] == bytes@[i as int]);
            return false;
        }
        i += 1;
    }
    assert forall|j: int| 0 <= j < b.len() implies hex_digit_value(#[trigger] b[j]) >= 0 by {
        assert(b[j] == bytes@[from + j]);
    }
    true
}

fn hex_number_from(bytes: &[u8], from: usize) -> (v: u32)
    requires
        from <= bytes@.len(),
        bytes@.len() - from <= 8,
        all_hex_digits(bytes@.subrange(from as int, bytes@.len() as int)),
    ensures
        v as int == hex_value(bytes@.subrange(from as int, bytes@.len() as int)),
{
    let n = bytes.len();
    let mut v: u32 = 0;
    let mut i = from;
    assert(pow16(7) == 268435456) by {
        reveal_with_fuel(pow16, 8);
    }
    assert(bytes@.subrange(from as int, from as int) =~= Seq::<u8>::empty());
    while i < n
        invariant
            from <= i <= n,
            n == bytes@.len(),
            n - from <= 8,
            pow16(7) == 268435456,
            all_hex_digits(bytes@.subrange(from as int, n as int)),
            v as int == hex_value(bytes@.subrange(from as int, i as int)),
            0 <= hex_value(bytes@.subrange(from as int, i as int)) < pow16((i - from) as nat),
        decreases n - i,
    {
        let c = bytes[i];
        assert(bytes@.subrange(from as int, n as int)[i - from] == c);
        let d: u32 = if 48u8 <= c && c <= 57u8 {
            (c - 48u8) as u32
        } else if 97u8 <= c && c <= 102u8 {
            (c - 87u8) as u32
        } else {
            (c - 55u8) as u32
        };
        let ghost prefix = bytes@.subrange(from as int, i + 1);
        assert(prefix.drop_last() =~= bytes@.subrange(from as int, i as int));
        assert(prefix.last() == c);
        assert(pow16((i + 1 - from) as nat) == 16 * pow16((i - from) as nat));
        assert(pow16((i - from) as nat) <= pow16(7)) by {
            lemma_pow16_mono((i - from) as nat, 7);
        }
        v = v * 16 + d;
        i += 1;
    }
    v
}

proof fn lemma_pow16_mono(a: nat, b: nat)
    requires
        a <= b,
    ensures
        pow16(a) <= pow16(b),
    decreases b,
{
    if a < b {
        lemma_pow16_mono(a, (b - 1) as nat);
        lemma_pow16_pos((b - 1) as nat);
    }
}

proof fn lemma_pow16_pos(a: nat)
    ensures
        pow16(a) >= 1,
    decreases a,
{
    if a > 0 {
        lemma_pow16_pos((a - 1) as nat);
    }
}

impl Brush {
    /// A flat color fill.
    pub fn solid(color: Color) -> (b: Brush)
        ensures
            b == (Brush::Solid { color }),
    {
        Brush::Solid { color }
    }
}

impl Length {
    /// A length in device-independent pixels.
    pub fn px(v: F32) -> (l: Length)
        ensures
            l == Length::Px(v),
    {
        Length::Px(v)
    }
}

impl Edges {
    /// The same inset on every side.
    pub fn all(v: F32) -> (e: Edges)
        ensures
            e.top == v && e.right == v && e.bottom == v && e.left == v,
    {
        Edges { top: v, right: v, bottom: v, left: v }
    }

    /// `x` on the left and right, `y` on the top and bottom.
    pub fn symmetric(x: F32, y: F32) -> (e: Edges)
        ensures
            e.top == y && e.right == x && e.bottom == y && e.left == x,
    {
        Edges { top: y, right: x, bottom: y, left: x }
    }
}

impl CornerRadius {
    /// The same radius on every corner.
    pub fn all(v: F32) -> (c: CornerRadius)
        ensures
            c.tl == v && c.tr == v && c.br == v && c.bl == v,
    {
        CornerRadius { tl: v, tr: v, br: v, bl: v }
    }
}

impl Default for Transform {
    /// The identity transform: no translation, rotation, skew or
    /// perspective, unit scale, origin at the center of the box.
    fn default() -> (t: Transform)
        ensures
            t.translate@[0].bits == 0 && t.translate@[1].bits == 0,
            t.scale@[0].bits == 0x3f80_0000u32 && t.scale@[1].bits == 0x3f80_0000u32,
            t.rotate.bits == 0 && t.rotate_x.bits == 0 && t.rotate_y.bits == 0,
            t.skew@[0].bits == 0 && t.skew@[1].bits == 0,
            t.origin@[0].bits == 0x3f00_0000u32 && t.origin@[1].bits == 0x3f00_0000u32,
            t.perspective.bits == 0,
    {
        let z = F32 { bits: 0 };
        let one = F32 { bits: 0x3f80_0000u32 };
        let half = F32 { bits: 0x3f00_0000u32 };
        Transform {
            translate: [z, z],
            scale: [one, one],
            rotate: z,
            rotate_x: z,
            rotate_y: z,
            skew: [z, z],
            origin: [half, half],
            perspective: z,
        }
    }
}

impl Default for GlassMaterial {
    /// A light frosted glass: a faint white tint, a 24px backdrop blur,
    /// 1.8 saturation, neutral brightness, a 1px translucent white rim,
    /// a 20px radius and no elevation.
    fn default() -> (g: GlassMaterial)
        ensures
            g.tint.r.bits == 0x3f80_0000u32 && g.tint.g.bits == 0x3f80_0000u32 && g.tint.b.bits == 0x3f80_0000u32,
            g.tint.a.bits == 0x3df5_c28fu32,
            g.blur.bits == 0x41c0_0000u32,
            g.saturate.bits == 0x3fe6_6666u32,
            g.brightness.bits == 0x3f80_0000u32,
            g.rim.r.bits == 0x3f80_0000u32 && g.rim.g.bits == 0x3f80_0000u32 && g.rim.b.bits == 0x3f80_0000u32,
            g.rim.a.bits == 0x3eb3_3333u32,
            g.rim_width.bits == 0x3f80_0000u32,
            g.radius.bits == 0x41a0_0000u32,
            g.elevation.bits == 0,
    {
        let one = F32 { bits: 0x3f80_0000u32 };
        GlassMaterial {
            tint: Color { r: one, g: one, b: one, a: F32 { bits: 0x3df5_c28fu32 } },
            blur: F32 { bits: 0x41c0_0000u32 },
            saturate: F32 { bits: 0x3fe6_6666u32 },
            brightness: one,
            rim: Color { r: one, g: one, b: one, a: F32 { bits: 0x3eb3_3333u32 } },
            rim_width: one,
            radius: F32 { bits: 0x41a0_0000u32 },
            elevation: F32 { bits: 0 },
        }
    }
}
impl Style {
    /// The deep value of a style with every attribute unset.
    pub open spec fn new_model() -> DeepValue {
        crate::facet::dpair(DeepValue::Tag(0), crate::facet::dpair(DeepValue::Tag(0), crate::facet::dpair(DeepValue::Tag(0), crate::facet::dpair(DeepValue::Tag(0), crate::facet::dpair(DeepValue::Tag(0), crate::facet::dpair(DeepValue::Tag(0), crate::facet::dpair(DeepValue::Tag(0), crate::facet::dpair(DeepValue::Tag(0), crate::facet::dpair(DeepValue::Tag(0), crate::facet::dpair(DeepValue::Tag(0), crate::facet::dpair(DeepValue::Tag(0), crate::facet::dpair(DeepValue::Tag(0), crate::facet::dpair(DeepValue::Tag(0), crate::facet::dpair(DeepValue::Tag(0), crate::facet::dpair(DeepValue::Tag(0), crate::facet::dpair(DeepValue::Tag(0), crate::facet::dpair(DeepValue::Tag(0), crate::facet::dpair(DeepValue::Tag(0), crate::facet::dpair(DeepValue::Tag(0), crate::facet::dpair(DeepValue::Tag(0), crate::facet::dpair(DeepValue::Tag(0), crate::facet::dpair(DeepValue::Tag(0), crate::facet::dpair(DeepValue::Tag(0), crate::facet::dpair(DeepValue::Tag(0), crate::facet::dpair(DeepValue::Tag(0), crate::facet::dpair(DeepValue::Tag(0), crate::facet::dpair(DeepValue::Tag(0), crate::facet::dpair(DeepValue::Tag(0), crate::facet::dpair(DeepValue::Tag(0), crate::facet::dpair(DeepValue::Tag(0), crate::facet::dpair(DeepValue::Tag(0), crate::facet::dpair(DeepValue::Tag(0), crate::facet::dpair(DeepValue::Tag(0), crate::facet::dpair(DeepValue::Tag(0), crate::facet::dpair(DeepValue::List(Seq::empty()), crate::facet::dpair(DeepValue::Tag(0), crate::facet::dpair(DeepValue::Tag(0), crate::facet::dpair(DeepValue::Tag(0), crate::facet::dpair(DeepValue::Tag(0), crate::facet::dpair(DeepValue::Tag(0), crate::facet::dpair(DeepValue::Tag(0), crate::facet::dpair(DeepValue::List(Seq::empty()), DeepValue::Tag(0)))))))))))))))))))))))))))))))))))))))))))
    }

    /// A style with every attribute unset.
    pub fn new() -> (r: Style)
        ensures
            r.width is None,
            r.height is None,
            r.min_width is None,
            r.min_height is None,
            r.max_width is None,
            r.max_height is None,
            r.padding is None,
            r.margin is None,
            r.display is None,
            r.direction is None,
            r.align_items is None,
            r.align_self is None,
            r.justify_content is None,
            r.gap is None,
            r.row_gap is None,
            r.column_gap is None,
            r.flex_grow is None,
            r.flex_shrink is None,
            r.flex_basis is None,
            r.wrap is None,
            r.grid_template_columns is None,
            r.grid_template_rows is None,
            r.grid_column is None,
            r.grid_row is None,
            r.position is None,
            r.inset is None,
            r.z_index is None,
            r.overflow_x is None,
            r.overflow_y is None,
            r.background is None,
            r.foreground is None,
            r.border_width is None,
            r.border_color is None,
            r.radius is None,
            r.shadows@.len() == 0,
            r.opacity is None,
            r.transform is None,
            r.filter is None,
            r.glass is None,
            r.glass_material is None,
            r.cursor is None,
            r.classes@.len() == 0,
            r.css is None,
            r.deep() == Style::new_model(),
    {
        let r = Style {
            width: None,
            height: None,
            min_width: None,
            min_height: None,
            max_width: None,
            max_height: None,
            padding: None,
            margin: None,
            display: None,
            direction: None,
            align_items: None,
            align_self: None,
            justify_content: None,
            gap: None,
            row_gap: None,
            column_gap: None,
            flex_grow: None,
            flex_shrink: None,
            flex_basis: None,
            wrap: None,
            grid_template_columns: None,
            grid_template_rows: None,
            grid_column: None,
            grid_row: None,
            position: None,
            inset: None,
            z_index: None,
            overflow_x: None,
            overflow_y: None,
            background: None,
            foreground: None,
            border_width: None,
            border_color: None,
            radius: None,
            shadows: Vec::new(),
            opacity: None,
            transform: None,
            filter: None,
            glass: None,
            glass_material: None,
            cursor: None,
            classes: Vec::new(),
            css: None,
        };
        assert(r.shadows@.map_values(|x: Shadow| x.deep()) =~= Seq::empty());
        assert(r.classes@.map_values(|x: String| x.deep()) =~= Seq::empty());
        r
    }
}

impl Default for Style {
    fn default() -> (r: Style)
        ensures
            r.width is None,
            r.height is None,
            r.min_width is None,
            r.min_height is None,
            r.max_width is None,
            r.max_height is None,
            r.padding is None,
            r.margin is None,
            r.display is None,
            r.direction is None,
            r.align_items is None,
            r.align_self is None,
            r.justify_content is None,
            r.gap is None,
            r.row_gap is None,
            r.column_gap is None,
            r.flex_grow is None,
            r.flex_shrink is None,
            r.flex_basis is None,
            r.wrap is None,
            r.grid_template_columns is None,
            r.grid_template_rows is None,
            r.grid_column is None,
            r.grid_row is None,
            r.position is None,
            r.inset is None,
            r.z_index is None,
            r.overflow_x is None,
            r.overflow_y is None,
            r.background is None,
            r.foreground is None,
            r.border_width is None,
            r.border_color is None,
            r.radius is None,
            r.shadows@.len() == 0,
            r.opacity is None,
            r.transform is None,
            r.filter is None,
            r.glass is None,
            r.glass_material is None,
            r.cursor is None,
            r.classes@.len() == 0,
            r.css is None,
            r.deep() == Style::new_model(),
    {
        Style::new()
    }
}


// ---------------------------------------------------------------------------
// The laws of hex colors.
// ---------------------------------------------------------------------------

/// The byte that two hex digits spell, the first the high nibble.
pub open spec fn digit_pair(hi: u8, lo: u8) -> int {
    16 * hex_digit_value(hi) + hex_digit_value(lo)
}

/// One more digit after a run of digits.
proof fn lemma_hex_value_step(t: Seq<u8>, k: int)
    requires
        0 <= k < t.len(),
    ensures
        hex_value(t.subrange(0, k + 1)) == hex_value(t.subrange(0, k)) * 16 + hex_digit_value(t[k]),
{
    assert(t.subrange(0, k + 1).drop_last() =~= t.subrange(0, k));
}

/// The number a run of digits spells, digit by digit.
proof fn lemma_hex_value_digits(t: Seq<u8>)
    requires
        1 <= t.len() <= 8,
    ensures
        t.len() >= 3 ==> hex_value(t.subrange(0, 3)) == (hex_digit_value(t[0]) * 16 + hex_digit_value(t[1])) * 16
            + hex_digit_value(t[2]),
        t.len() >= 6 ==> hex_value(t.subrange(0, 6)) == ((hex_value(t.subrange(0, 3)) * 16 + hex_digit_value(t[3])) * 16
            + hex_digit_value(t[4])) * 16 + hex_digit_value(t[5]),
        t.len() >= 8 ==> hex_value(t.subrange(0, 8)) == (hex_value(t.subrange(0, 6)) * 16 + hex_digit_value(t[6])) * 16
            + hex_digit_value(t[7]),
{
    assert(t.subrange(0, 0) =~= Seq::<u8>::empty());
    lemma_hex_value_step(t, 0);
    if t.len() >= 3 {
        lemma_hex_value_step(t, 1);
        lemma_hex_value_step(t, 2);
    }
    if t.len() >= 6 {
        lemma_hex_value_step(t, 3);
        lemma_hex_value_step(t, 4);
        lemma_hex_value_step(t, 5);
    }
    if t.len() >= 8 {
        lemma_hex_value_step(t, 6);
        lemma_hex_value_step(t, 7);
    }
    assert(hex_value(t.subrange(0, 1)) == hex_value(t.subrange(0, 0)) * 16 + hex_digit_value(t[0]));
    if t.len() >= 3 {
        assert(hex_value(t.subrange(0, 2)) == hex_value(t.subrange(0, 1)) * 16 + hex_digit_value(t[1]));
        assert(hex_value(t.subrange(0, 3)) == hex_value(t.subrange(0, 2)) * 16 + hex_digit_value(t[2]));
    }
    if t.len() >= 6 {
        assert(hex_value(t.subrange(0, 4)) == hex_value(t.subrange(0, 3)) * 16 + hex_digit_value(t[3]));
        assert(hex_value(t.subrange(0, 5)) == hex_value(t.subrange(0, 4)) * 16 + hex_digit_value(t[4]));
        assert(hex_value(t.subrange(0, 6)) == hex_value(t.subrange(0, 5)) * 16 + hex_digit_value(t[5]));
    }
    if t.len() >= 8 {
        assert(hex_value(t.subrange(0, 7)) == hex_value(t.subrange(0, 6)) * 16 + hex_digit_value(t[6]));
        assert(hex_value(t.subrange(0, 8)) == hex_value(t.subrange(0, 7)) * 16 + hex_digit_value(t[7]));
    }
}

/// A string of one `#` and hex digits is trimmed to its digits.
proof fn lemma_trim_one_hash(s: Seq<u8>)
    requires
        s.len() >= 2,
        s[0] == 35u8,
        hex_digit_value(s[1]) >= 0,
    ensures
        trim_hashes(s) == s.drop_first(),
{
    assert(s.drop_first()[0] == s[1]);
    assert(trim_hashes(s) == trim_hashes(s.drop_first()));
    assert(trim_hashes(s.drop_first()) == s.drop_first());
}

/// The bytes of a three-byte number.
proof fn lemma_bytes3(v: int, hi: int, mid: int, lo: int)
    requires
        0 <= hi < 256,
        0 <= mid < 256,
        0 <= lo < 256,
        v == hi * 65536 + mid * 256 + lo,
    ensures
        byte_at(v, 16) == hi,
        byte_at(v, 8) == mid,
        byte_at(v, 0) == lo,
{
    vstd::arithmetic::div_mod::lemma_fundamental_div_mod_converse(v, 65536, hi, mid * 256 + lo);
    vstd::arithmetic::div_mod::lemma_fundamental_div_mod_converse(hi, 256, 0, hi);
    vstd::arithmetic::div_mod::lemma_fundamental_div_mod_converse(v, 256, hi * 256 + mid, lo);
    vstd::arithmetic::div_mod::lemma_fundamental_div_mod_converse(hi * 256 + mid, 256, hi, mid);
    vstd::arithmetic::div_mod::lemma_fundamental_div_mod_converse(v, 1, v, 0);
}

/// A six-digit color `#rrggbb`: red from the first two digits, green from
/// the next two, blue from the last two, and fully opaque.
pub proof fn lemma_hex_six(s: Seq<u8>)
    requires
        s.len() == 7,
        s[0] == 35u8,
        forall|i: int| 1 <= i < 7 ==> hex_digit_value(#[trigger] s[i]) >= 0,
    ensures
        spec_hex_channels(s) == Some((digit_pair(s[1], s[2]) as u8, digit_pair(s[3], s[4]) as u8,
            digit_pair(s[5], s[6]) as u8, 255u8)),
{
    let t = s.drop_first();
    assert(hex_digit_value(s[1]) >= 0);
    lemma_trim_one_hash(s);
    assert forall|i: int| 0 <= i < t.len() implies hex_digit_value(#[trigger] t[i]) >= 0 by {
        assert(t[i] == s[i + 1]);
    }
    lemma_hex_value_digits(t);
    assert(t.subrange(0, 6) =~= t);
    let d = |i: int| hex_digit_value(t[i]);
    assert(0 <= d(0) < 16 && 0 <= d(1) < 16 && 0 <= d(2) < 16 && 0 <= d(3) < 16 && 0 <= d(4) < 16 && 0 <= d(5) < 16);
    let v = hex_value(t);
    let hi = 16 * d(0) + d(1);
    let mid = 16 * d(2) + d(3);
    let lo = 16 * d(4) + d(5);
    assert(v == hi * 65536 + mid * 256 + lo) by (nonlinear_arith)
        requires
            v == ((((d(0) * 16 + d(1)) * 16 + d(2)) * 16 + d(3)) * 16 + d(4)) * 16 + d(5),
            hi == 16 * d(0) + d(1),
            mid == 16 * d(2) + d(3),
            lo == 16 * d(4) + d(5),
    ;
    lemma_bytes3(v, hi, mid, lo);
    assert(t[0] == s[1] && t[1] == s[2] && t[2] == s[3] && t[3] == s[4] && t[4] == s[5] && t[5] == s[6]);
}

/// An eight-digit color `#rrggbbaa`: red, green, blue and alpha from the
/// digit pairs in order.
pub proof fn lemma_hex_eight(s: Seq<u8>)
    requires
        s.len() == 9,
        s[0] == 35u8,
        forall|i: int| 1 <= i < 9 ==> hex_digit_value(#[trigger] s[i]) >= 0,
    ensures
        spec_hex_channels(s) == Some((digit_pair(s[1], s[2]) as u8, digit_pair(s[3], s[4]) as u8,
            digit_pair(s[5], s[6]) as u8, digit_pair(s[7], s[8]) as u8)),
{
    let t = s.drop_first();
    assert(hex_digit_value(s[1]) >= 0);
    lemma_trim_one_hash(s);
    assert forall|i: int| 0 <= i < t.len() implies hex_digit_value(#[trigger] t[i]) >= 0 by {
        assert(t[i] == s[i + 1]);
    }
    lemma_hex_value_digits(t);
    assert(t.subrange(0, 8) =~= t);
    let d = |i: int| hex_digit_value(t[i]);
    assert(0 <= d(0) < 16 && 0 <= d(1) < 16 && 0 <= d(2) < 16 && 0 <= d(3) < 16 && 0 <= d(4) < 16 && 0 <= d(5) < 16
        && 0 <= d(6) < 16 && 0 <= d(7) < 16);
    let v = hex_value(t);
    let b3 = 16 * d(0) + d(1);
    let b2 = 16 * d(2) + d(3);
    let b1 = 16 * d(4) + d(5);
    let b0 = 16 * d(6) + d(7);
    let top = b3 * 65536 + b2 * 256 + b1;
    assert(v == top * 256 + b0) by (nonlinear_arith)
        requires
            v == ((((((d(0) * 16 + d(1)) * 16 + d(2)) * 16 + d(3)) * 16 + d(4)) * 16 + d(5)) * 16 + d(6)) * 16 + d(7),
            top == b3 * 65536 + b2 * 256 + b1,
            b3 == 16 * d(0) + d(1),
            b2 == 16 * d(2) + d(3),
            b1 == 16 * d(4) + d(5),
            b0 == 16 * d(6) + d(7),
    ;
    assert(0 <= b1 < 256 && 0 <= b0 < 256 && 0 <= b2 < 256 && 0 <= b3 < 256);
    lemma_bytes3(top, b3, b2, b1);
    let m2 = b2 * 256 + b1;
    vstd::arithmetic::div_mod::lemma_fundamental_div_mod_converse(v, 16777216, b3, m2 * 256 + b0);
    vstd::arithmetic::div_mod::lemma_fundamental_div_mod_converse(b3, 256, 0, b3);
    vstd::arithmetic::div_mod::lemma_fundamental_div_mod_converse(v, 65536, b3 * 256 + b2, b1 * 256 + b0);
    vstd::arithmetic::div_mod::lemma_fundamental_div_mod_converse(b3 * 256 + b2, 256, b3, b2);
    vstd::arithmetic::div_mod::lemma_fundamental_div_mod_converse(v, 256, top, b0);
    vstd::arithmetic::div_mod::lemma_fundamental_div_mod_converse(top, 256, b3 * 256 + b2, b1);
    vstd::arithmetic::div_mod::lemma_fundamental_div_mod_converse(v, 1, v, 0);
    vstd::arithmetic::div_mod::lemma_fundamental_div_mod_converse(v, 256, top, b0);
    assert(t[0] == s[1] && t[1] == s[2] && t[2] == s[3] && t[3] == s[4] && t[4] == s[5] && t[5] == s[6]
        && t[6] == s[7] && t[7] == s[8]);
}

/// A three-digit color `#rgb`: each digit is a channel's nibble, doubled
/// (`n` becomes `n * 17`), and fully opaque.
pub proof fn lemma_hex_three(s: Seq<u8>)
    requires
        s.len() == 4,
        s[0] == 35u8,
        forall|i: int| 1 <= i < 4 ==> hex_digit_value(#[trigger] s[i]) >= 0,
    ensures
        spec_hex_channels(s) == Some((digit_pair(s[1], s[1]) as u8, digit_pair(s[2], s[2]) as u8,
            digit_pair(s[3], s[3]) as u8, 255u8)),
{
    let t = s.drop_first();
    assert(hex_digit_value(s[1]) >= 0);
    lemma_trim_one_hash(s);
    assert forall|i: int| 0 <= i < t.len() implies hex_digit_value(#[trigger] t[i]) >= 0 by {
        assert(t[i] == s[i + 1]);
    }
    lemma_hex_value_digits(t);
    assert(t.subrange(0, 3) =~= t);
    let a = hex_digit_value(t[0]);
    let b = hex_digit_value(t[1]);
    let c = hex_digit_value(t[2]);
    assert(0 <= a < 16 && 0 <= b < 16 && 0 <= c < 16);
    let v = hex_value(t);
    assert(v == a * 256 + b * 16 + c);
    vstd::arithmetic::div_mod::lemma_fundamental_div_mod_converse(v, 256, a, b * 16 + c);
    vstd::arithmetic::div_mod::lemma_fundamental_div_mod_converse(a, 16, 0, a);
    vstd::arithmetic::div_mod::lemma_fundamental_div_mod_converse(v, 16, a * 16 + b, c);
    vstd::arithmetic::div_mod::lemma_fundamental_div_mod_converse(a * 16 + b, 16, a, b);
    assert(t[0] == s[1] && t[1] == s[2] && t[2] == s[3]);
}

/// A string whose part after the leading `#`s is not three, six or eight
/// hex digits names no color.
pub proof fn lemma_hex_rejects(s: Seq<u8>)
    requires
        !(trim_hashes(s).len() == 3 || trim_hashes(s).len() == 6 || trim_hashes(s).len() == 8)
            || exists|i: int| 0 <= i < trim_hashes(s).len() && hex_digit_value(#[trigger] trim_hashes(s)[i]) < 0,
    ensures
        spec_hex_channels(s) is None,
{
}

} // verus!
