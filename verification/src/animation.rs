//! Animations attached to a node: the animatable properties, spring and tween
//! curves, keyframes, repeat modes, and layout transitions.

use vstd::prelude::*;
use crate::facet::{DeepValue, Facet};
use crate::float::F32;

verus! {

#[derive(Debug, Clone, Copy, PartialEq, Eq, Structural)]
pub enum AnimProp {
    Opacity,
    TranslateX,
    TranslateY,
    Scale,
    ScaleX,
    ScaleY,
    Rotate,
    RotateX,
    RotateY,
    Width,
    Height,
    BackgroundColor,
    ForegroundColor,
    BorderRadius,
    Blur,
    Layout,
}

impl AnimProp {
    /// The position of the variant in the declaration.
    pub open spec fn variant(&self) -> nat {
        match self {
            AnimProp::Opacity => 0,
            AnimProp::TranslateX => 1,
            AnimProp::TranslateY => 2,
            AnimProp::Scale => 3,
            AnimProp::ScaleX => 4,
            AnimProp::ScaleY => 5,
            AnimProp::Rotate => 6,
            AnimProp::RotateX => 7,
            AnimProp::RotateY => 8,
            AnimProp::Width => 9,
            AnimProp::Height => 10,
            AnimProp::BackgroundColor => 11,
            AnimProp::ForegroundColor => 12,
            AnimProp::BorderRadius => 13,
            AnimProp::Blur => 14,
            AnimProp::Layout => 15,
        }
    }
}

impl Facet for AnimProp {
    open spec fn deep(&self) -> DeepValue {
        match self {
            AnimProp::Opacity => DeepValue::Tag(0),
            AnimProp::TranslateX => DeepValue::Tag(1),
            AnimProp::TranslateY => DeepValue::Tag(2),
            AnimProp::Scale => DeepValue::Tag(3),
            AnimProp::ScaleX => DeepValue::Tag(4),
            AnimProp::ScaleY => DeepValue::Tag(5),
            AnimProp::Rotate => DeepValue::Tag(6),
            AnimProp::RotateX => DeepValue::Tag(7),
            AnimProp::RotateY => DeepValue::Tag(8),
            AnimProp::Width => DeepValue::Tag(9),
            AnimProp::Height => DeepValue::Tag(10),
            AnimProp::BackgroundColor => DeepValue::Tag(11),
            AnimProp::ForegroundColor => DeepValue::Tag(12),
            AnimProp::BorderRadius => DeepValue::Tag(13),
            AnimProp::Blur => DeepValue::Tag(14),
            AnimProp::Layout => DeepValue::Tag(15),
        }
    }

    fn equals(&self, other: &Self) -> (r: bool) {
        *self == *other
    }

    fn duplicate(&self) -> (r: Self) {
        *self
    }
}

#[derive(Debug, Clone, Copy, PartialEq)]
pub struct Spring {
    pub stiffness: F32,
    pub damping: F32,
    pub mass: F32,
    pub initial_velocity: F32,
}

impl Facet for Spring {
    open spec fn deep(&self) -> DeepValue {
        crate::facet::dpair(self.stiffness.deep(), crate::facet::dpair(self.damping.deep(), crate::facet::dpair(self.mass.deep(), self.initial_velocity.deep())))
    }

    fn equals(&self, other: &Self) -> (r: bool) {
        let e0 = self.stiffness.equals(&other.stiffness);
        let e1 = self.damping.equals(&other.damping);
        let e2 = self.mass.equals(&other.mass);
        let e3 = self.initial_velocity.equals(&other.initial_velocity);
        proof {
            assert(crate::facet::deep_eq(crate::facet::dpair(self.mass.deep(), self.initial_velocity.deep()), crate::facet::dpair(other.mass.deep(), other.initial_velocity.deep())) == (e2 && e3));
            assert(crate::facet::deep_eq(crate::facet::dpair(self.damping.deep(), crate::facet::dpair(self.mass.deep(), self.initial_velocity.deep())), crate::facet::dpair(other.damping.deep(), crate::facet::dpair(other.mass.deep(), other.initial_velocity.deep()))) == (e1 && e2 && e3));
            assert(crate::facet::deep_eq(crate::facet::dpair(self.stiffness.deep(), crate::facet::dpair(self.damping.deep(), crate::facet::dpair(self.mass.deep(), self.initial_velocity.deep()))), crate::facet::dpair(other.stiffness.deep(), crate::facet::dpair(other.damping.deep(), crate::facet::dpair(other.mass.deep(), other.initial_velocity.deep())))) == (e0 && e1 && e2 && e3));
        }
        e0 && e1 && e2 && e3
    }

    fn duplicate(&self) -> (r: Self) {
        Spring { stiffness: self.stiffness.duplicate(), damping: self.damping.duplicate(), mass: self.mass.duplicate(), initial_velocity: self.initial_velocity.duplicate() }
    }
}

#[derive(Debug, Clone, Copy, PartialEq, Eq, Structural, Default)]
pub enum Easing {
    Linear,
    EaseIn,
    EaseOut,
    #[default]
    EaseInOut,
    CubicBezier,
}

impl Easing {
    /// The position of the variant in the declaration.
    pub open spec fn variant(&self) -> nat {
        match self {
            Easing::Linear => 0,
            Easing::EaseIn => 1,
            Easing::EaseOut => 2,
            Easing::EaseInOut => 3,
            Easing::CubicBezier => 4,
        }
    }
}

impl Facet for Easing {
    open spec fn deep(&self) -> DeepValue {
        match self {
            Easing::Linear => DeepValue::Tag(0),
            Easing::EaseIn => DeepValue::Tag(1),
            Easing::EaseOut => DeepValue::Tag(2),
            Easing::EaseInOut => DeepValue::Tag(3),
            Easing::CubicBezier => DeepValue::Tag(4),
        }
    }

    fn equals(&self, other: &Self) -> (r: bool) {
        *self == *other
    }

    fn duplicate(&self) -> (r: Self) {
        *self
    }
}

#[derive(Debug, Clone, Copy, PartialEq)]
pub enum Curve {
    Spring(Spring),
    Tween { duration: F32, easing: Easing, bezier: Option<[F32; 4]> },
}

impl Curve {
    /// The position of the variant in the declaration.
    pub open spec fn variant(&self) -> nat {
        match self {
            Curve::Spring(..) => 0,
            Curve::Tween { .. } => 1,
        }
    }
}

impl Facet for Curve {
    open spec fn deep(&self) -> DeepValue {
        match self {
            Curve::Spring(f0) => crate::facet::dvariant(0, f0.deep()),
            Curve::Tween { duration: duration, easing: easing, bezier: bezier } => crate::facet::dvariant(1, crate::facet::dpair(duration.deep(), crate::facet::dpair(easing.deep(), bezier.deep()))),
        }
    }

    fn equals(&self, other: &Self) -> (r: bool) {
        match (self, other) {
            (Curve::Spring(a_f0), Curve::Spring(b_f0)) => {
                let e0 = a_f0.equals(b_f0);
                proof {
                    assert(crate::facet::deep_eq(DeepValue::Tag(0), DeepValue::Tag(0)));
                }
                e0
            },
            (Curve::Tween { duration: a_duration, easing: a_easing, bezier: a_bezier }, Curve::Tween { duration: b_duration, easing: b_easing, bezier: b_bezier }) => {
                let e0 = a_duration.equals(b_duration);
                let e1 = a_easing.equals(b_easing);
                let e2 = a_bezier.equals(b_bezier);
                proof {
                    assert(crate::facet::deep_eq(crate::facet::dpair(a_easing.deep(), a_bezier.deep()), crate::facet::dpair(b_easing.deep(), b_bezier.deep())) == (e1 && e2));
                    assert(crate::facet::deep_eq(crate::facet::dpair(a_duration.deep(), crate::facet::dpair(a_easing.deep(), a_bezier.deep())), crate::facet::dpair(b_duration.deep(), crate::facet::dpair(b_easing.deep(), b_bezier.deep()))) == (e0 && e1 && e2));
                    assert(crate::facet::deep_eq(DeepValue::Tag(1), DeepValue::Tag(1)));
                }
                e0 && e1 && e2
            },
            _ => {
                proof {
                    assert(self.variant() != other.variant());
                    assert(!crate::facet::deep_eq(DeepValue::Tag(self.variant()), DeepValue::Tag(other.variant())));
                }
                false
            },
        }
    }

    fn duplicate(&self) -> (r: Self) {
        match self {
            Curve::Spring(x_f0) => Curve::Spring(x_f0.duplicate()),
            Curve::Tween { duration: x_duration, easing: x_easing, bezier: x_bezier } => Curve::Tween { duration: x_duration.duplicate(), easing: x_easing.duplicate(), bezier: x_bezier.duplicate() },
        }
    }
}

#[derive(Debug, Clone, Copy, PartialEq)]
pub struct Keyframe {
    pub at: F32,
    pub value: F32,
}

impl Facet for Keyframe {
    open spec fn deep(&self) -> DeepValue {
        crate::facet::dpair(self.at.deep(), self.value.deep())
    }

    fn equals(&self, other: &Self) -> (r: bool) {
        let e0 = self.at.equals(&other.at);
        let e1 = self.value.equals(&other.value);
        proof {
            assert(crate::facet::deep_eq(crate::facet::dpair(self.at.deep(), self.value.deep()), crate::facet::dpair(other.at.deep(), other.value.deep())) == (e0 && e1));
        }
        e0 && e1
    }

    fn duplicate(&self) -> (r: Self) {
        Keyframe { at: self.at.duplicate(), value: self.value.duplicate() }
    }
}

#[derive(Debug, Clone, Copy, PartialEq, Eq, Structural, Default)]
pub enum Repeat {
    #[default]
    Once,
    Loop,
    PingPong,
}

impl Repeat {
    /// The position of the variant in the declaration.
    pub open spec fn variant(&self) -> nat {
        match self {
            Repeat::Once => 0,
            Repeat::Loop => 1,
            Repeat::PingPong => 2,
        }
    }
}

impl Facet for Repeat {
    open spec fn deep(&self) -> DeepValue {
        match self {
            Repeat::Once => DeepValue::Tag(0),
            Repeat::Loop => DeepValue::Tag(1),
            Repeat::PingPong => DeepValue::Tag(2),
        }
    }

    fn equals(&self, other: &Self) -> (r: bool) {
        *self == *other
    }

    fn duplicate(&self) -> (r: Self) {
        *self
    }
}

#[derive(Debug, Clone, PartialEq)]
pub struct Animation {
    pub prop: AnimProp,
    pub to: Option<F32>,
    pub from: Option<F32>,
    pub keyframes: Vec<Keyframe>,
    pub curve: Curve,
    pub repeat: Repeat,
    pub delay: F32,
    pub on_complete: Option<String>,
}

impl Facet for Animation {
    open spec fn deep(&self) -> DeepValue {
        crate::facet::dpair(self.prop.deep(), crate::facet::dpair(self.to.deep(), crate::facet::dpair(self.from.deep(), crate::facet::dpair(self.keyframes.deep(), crate::facet::dpair(self.curve.deep(), crate::facet::dpair(self.repeat.deep(), crate::facet::dpair(self.delay.deep(), self.on_complete.deep())))))))
    }

    fn equals(&self, other: &Self) -> (r: bool) {
        let e0 = self.prop.equals(&other.prop);
        let e1 = self.to.equals(&other.to);
        let e2 = self.from.equals(&other.from);
        let e3 = self.keyframes.equals(&other.keyframes);
        let e4 = self.curve.equals(&other.curve);
        let e5 = self.repeat.equals(&other.repeat);
        let e6 = self.delay.equals(&other.delay);
        let e7 = self.on_complete.equals(&other.on_complete);
        proof {
            assert(crate::facet::deep_eq(crate::facet::dpair(self.delay.deep(), self.on_complete.deep()), crate::facet::dpair(other.delay.deep(), other.on_complete.deep())) == (e6 && e7));
            assert(crate::facet::deep_eq(crate::facet::dpair(self.repeat.deep(), crate::facet::dpair(self.delay.deep(), self.on_complete.deep())), crate::facet::dpair(other.repeat.deep(), crate::facet::dpair(other.delay.deep(), other.on_complete.deep()))) == (e5 && e6 && e7));
            assert(crate::facet::deep_eq(crate::facet::dpair(self.curve.deep(), crate::facet::dpair(self.repeat.deep(), crate::facet::dpair(self.delay.deep(), self.on_complete.deep()))), crate::facet::dpair(other.curve.deep(), crate::facet::dpair(other.repeat.deep(), crate::facet::dpair(other.delay.deep(), other.on_complete.deep())))) == (e4 && e5 && e6 && e7));
            assert(crate::facet::deep_eq(crate::facet::dpair(self.keyframes.deep(), crate::facet::dpair(self.curve.deep(), crate::facet::dpair(self.repeat.deep(), crate::facet::dpair(self.delay.deep(), self.on_complete.deep())))), crate::facet::dpair(other.keyframes.deep(), crate::facet::dpair(other.curve.deep(), crate::facet::dpair(other.repeat.deep(), crate::facet::dpair(other.delay.deep(), other.on_complete.deep()))))) == (e3 && e4 && e5 && e6 && e7));
            assert(crate::facet::deep_eq(crate::facet::dpair(self.from.deep(), crate::facet::dpair(self.keyframes.deep(), crate::facet::dpair(self.curve.deep(), crate::facet::dpair(self.repeat.deep(), crate::facet::dpair(self.delay.deep(), self.on_complete.deep()))))), crate::facet::dpair(other.from.deep(), crate::facet::dpair(other.keyframes.deep(), crate::facet::dpair(other.curve.deep(), crate::facet::dpair(other.repeat.deep(), crate::facet::dpair(other.delay.deep(), other.on_complete.deep())))))) == (e2 && e3 && e4 && e5 && e6 && e7));
            assert(crate::facet::deep_eq(crate::facet::dpair(self.to.deep(), crate::facet::dpair(self.from.deep(), crate::facet::dpair(self.keyframes.deep(), crate::facet::dpair(self.curve.deep(), crate::facet::dpair(self.repeat.deep(), crate::facet::dpair(self.delay.deep(), self.on_complete.deep())))))), crate::facet::dpair(other.to.deep(), crate::facet::dpair(other.from.deep(), crate::facet::dpair(other.keyframes.deep(), crate::facet::dpair(other.curve.deep(), crate::facet::dpair(other.repeat.deep(), crate::facet::dpair(other.delay.deep(), other.on_complete.deep()))))))) == (e1 && e2 && e3 && e4 && e5 && e6 && e7));
            assert(crate::facet::deep_eq(crate::facet::dpair(self.prop.deep(), crate::facet::dpair(self.to.deep(), crate::facet::dpair(self.from.deep(), crate::facet::dpair(self.keyframes.deep(), crate::facet::dpair(self.curve.deep(), crate::facet::dpair(self.repeat.deep(), crate::facet::dpair(self.delay.deep(), self.on_complete.deep()))))))), crate::facet::dpair(other.prop.deep(), crate::facet::dpair(other.to.deep(), crate::facet::dpair(other.from.deep(), crate::facet::dpair(other.keyframes.deep(), crate::facet::dpair(other.curve.deep(), crate::facet::dpair(other.repeat.deep(), crate::facet::dpair(other.delay.deep(), other.on_complete.deep())))))))) == (e0 && e1 && e2 && e3 && e4 && e5 && e6 && e7));
        }
        e0 && e1 && e2 && e3 && e4 && e5 && e6 && e7
    }

    fn duplicate(&self) -> (r: Self) {
        Animation { prop: self.prop.duplicate(), to: self.to.duplicate(), from: self.from.duplicate(), keyframes: self.keyframes.duplicate(), curve: self.curve.duplicate(), repeat: self.repeat.duplicate(), delay: self.delay.duplicate(), on_complete: self.on_complete.duplicate() }
    }
}

#[derive(Debug, Clone, Copy, PartialEq, Default)]
pub struct Transition {
    pub curve: Curve,
    pub enabled: bool,
}

impl Facet for Transition {
    open spec fn deep(&self) -> DeepValue {
        crate::facet::dpair(self.curve.deep(), self.enabled.deep())
    }

    fn equals(&self, other: &Self) -> (r: bool) {
        let e0 = self.curve.equals(&other.curve);
        let e1 = self.enabled.equals(&other.enabled);
        proof {
            assert(crate::facet::deep_eq(crate::facet::dpair(self.curve.deep(), self.enabled.deep()), crate::facet::dpair(other.curve.deep(), other.enabled.deep())) == (e0 && e1));
        }
        e0 && e1
    }

    fn duplicate(&self) -> (r: Self) {
        Transition { curve: self.curve.duplicate(), enabled: self.enabled.duplicate() }
    }
}

impl Default for Spring {
    /// Stiffness 170, damping 26, unit mass, at rest.
    fn default() -> (s: Spring)
        ensures
            s.stiffness.bits == 0x432a_0000u32,
            s.damping.bits == 0x41d0_0000u32,
            s.mass.bits == 0x3f80_0000u32,
            s.initial_velocity.bits == 0,
    {
        Spring {
            stiffness: F32 { bits: 0x432a_0000u32 },
            damping: F32 { bits: 0x41d0_0000u32 },
            mass: F32 { bits: 0x3f80_0000u32 },
            initial_velocity: F32 { bits: 0 },
        }
    }
}

impl Default for Curve {
    /// The default spring.
    fn default() -> (c: Curve)
        ensures
            c matches Curve::Spring(s) && s.stiffness.bits == 0x432a_0000u32 && s.damping.bits == 0x41d0_0000u32
                && s.mass.bits == 0x3f80_0000u32 && s.initial_velocity.bits == 0,
    {
        Curve::Spring(Spring::default())
    }
}

} // verus!
