//! Immediate-mode 2D drawing operations of a `Canvas` node.

use vstd::prelude::*;
use crate::facet::{DeepValue, Facet};
use crate::float::F32;
use crate::style::{Brush, Color};

verus! {

#[derive(Debug, Clone, Copy, PartialEq)]
pub struct Point {
    pub x: F32,
    pub y: F32,
}

impl Facet for Point {
    open spec fn deep(&self) -> DeepValue {
        crate::facet::dpair(self.x.deep(), self.y.deep())
    }

    fn equals(&self, other: &Self) -> (r: bool) {
        let e0 = self.x.equals(&other.x);
        let e1 = self.y.equals(&other.y);
        proof {
            assert(crate::facet::deep_eq(crate::facet::dpair(self.x.deep(), self.y.deep()), crate::facet::dpair(other.x.deep(), other.y.deep())) == (e0 && e1));
        }
        e0 && e1
    }

    fn duplicate(&self) -> (r: Self) {
        Point { x: self.x.duplicate(), y: self.y.duplicate() }
    }
}

#[derive(Debug, Clone, Copy, PartialEq)]
pub struct Rect {
    pub x: F32,
    pub y: F32,
    pub w: F32,
    pub h: F32,
}

impl Facet for Rect {
    open spec fn deep(&self) -> DeepValue {
        crate::facet::dpair(self.x.deep(), crate::facet::dpair(self.y.deep(), crate::facet::dpair(self.w.deep(), self.h.deep())))
    }

    fn equals(&self, other: &Self) -> (r: bool) {
        let e0 = self.x.equals(&other.x);
        let e1 = self.y.equals(&other.y);
        let e2 = self.w.equals(&other.w);
        let e3 = self.h.equals(&other.h);
        proof {
            assert(crate::facet::deep_eq(crate::facet::dpair(self.w.deep(), self.h.deep()), crate::facet::dpair(other.w.deep(), other.h.deep())) == (e2 && e3));
            assert(crate::facet::deep_eq(crate::facet::dpair(self.y.deep(), crate::facet::dpair(self.w.deep(), self.h.deep())), crate::facet::dpair(other.y.deep(), crate::facet::dpair(other.w.deep(), other.h.deep()))) == (e1 && e2 && e3));
            assert(crate::facet::deep_eq(crate::facet::dpair(self.x.deep(), crate::facet::dpair(self.y.deep(), crate::facet::dpair(self.w.deep(), self.h.deep()))), crate::facet::dpair(other.x.deep(), crate::facet::dpair(other.y.deep(), crate::facet::dpair(other.w.deep(), other.h.deep())))) == (e0 && e1 && e2 && e3));
        }
        e0 && e1 && e2 && e3
    }

    fn duplicate(&self) -> (r: Self) {
        Rect { x: self.x.duplicate(), y: self.y.duplicate(), w: self.w.duplicate(), h: self.h.duplicate() }
    }
}

#[derive(Debug, Clone, Copy, PartialEq, Eq, Structural, Default)]
pub enum LineCap {
    #[default]
    Butt,
    Round,
    Square,
}

impl LineCap {
    /// The position of the variant in the declaration.
    pub open spec fn variant(&self) -> nat {
        match self {
            LineCap::Butt => 0,
            LineCap::Round => 1,
            LineCap::Square => 2,
        }
    }
}

impl Facet for LineCap {
    open spec fn deep(&self) -> DeepValue {
        match self {
            LineCap::Butt => DeepValue::Tag(0),
            LineCap::Round => DeepValue::Tag(1),
            LineCap::Square => DeepValue::Tag(2),
        }
    }

    fn equals(&self, other: &Self) -> (r: bool) {
        *self == *other
    }

    fn duplicate(&self) -> (r: Self) {
        *self
    }
}

#[derive(Debug, Clone, Copy, PartialEq, Eq, Structural, Default)]
pub enum LineJoin {
    #[default]
    Miter,
    Round,
    Bevel,
}

impl LineJoin {
    /// The position of the variant in the declaration.
    pub open spec fn variant(&self) -> nat {
        match self {
            LineJoin::Miter => 0,
            LineJoin::Round => 1,
            LineJoin::Bevel => 2,
        }
    }
}

impl Facet for LineJoin {
    open spec fn deep(&self) -> DeepValue {
        match self {
            LineJoin::Miter => DeepValue::Tag(0),
            LineJoin::Round => DeepValue::Tag(1),
            LineJoin::Bevel => DeepValue::Tag(2),
        }
    }

    fn equals(&self, other: &Self) -> (r: bool) {
        *self == *other
    }

    fn duplicate(&self) -> (r: Self) {
        *self
    }
}

#[derive(Debug, Clone, Copy, PartialEq)]
pub enum PathSeg {
    MoveTo { x: F32, y: F32 },
    LineTo { x: F32, y: F32 },
    QuadTo { cx: F32, cy: F32, x: F32, y: F32 },
    CubicTo { c1x: F32, c1y: F32, c2x: F32, c2y: F32, x: F32, y: F32 },
    ArcTo { rx: F32, ry: F32, rotation: F32, large: bool, sweep: bool, x: F32, y: F32 },
    Close,
}

impl PathSeg {
    /// The position of the variant in the declaration.
    pub open spec fn variant(&self) -> nat {
        match self {
            PathSeg::MoveTo { .. } => 0,
            PathSeg::LineTo { .. } => 1,
            PathSeg::QuadTo { .. } => 2,
            PathSeg::CubicTo { .. } => 3,
            PathSeg::ArcTo { .. } => 4,
            PathSeg::Close => 5,
        }
    }
}

impl Facet for PathSeg {
    open spec fn deep(&self) -> DeepValue {
        match self {
            PathSeg::MoveTo { x: x, y: y } => crate::facet::dvariant(0, crate::facet::dpair(x.deep(), y.deep())),
            PathSeg::LineTo { x: x, y: y } => crate::facet::dvariant(1, crate::facet::dpair(x.deep(), y.deep())),
            PathSeg::QuadTo { cx: cx, cy: cy, x: x, y: y } => crate::facet::dvariant(2, crate::facet::dpair(cx.deep(), crate::facet::dpair(cy.deep(), crate::facet::dpair(x.deep(), y.deep())))),
            PathSeg::CubicTo { c1x: c1x, c1y: c1y, c2x: c2x, c2y: c2y, x: x, y: y } => crate::facet::dvariant(3, crate::facet::dpair(c1x.deep(), crate::facet::dpair(c1y.deep(), crate::facet::dpair(c2x.deep(), crate::facet::dpair(c2y.deep(), crate::facet::dpair(x.deep(), y.deep())))))),
            PathSeg::ArcTo { rx: rx, ry: ry, rotation: rotation, large: large, sweep: sweep, x: x, y: y } => crate::facet::dvariant(4, crate::facet::dpair(rx.deep(), crate::facet::dpair(ry.deep(), crate::facet::dpair(rotation.deep(), crate::facet::dpair(large.deep(), crate::facet::dpair(sweep.deep(), crate::facet::dpair(x.deep(), y.deep()))))))),
            PathSeg::Close => DeepValue::Tag(5),
        }
    }

    fn equals(&self, other: &Self) -> (r: bool) {
        match (self, other) {
            (PathSeg::MoveTo { x: a_x, y: a_y }, PathSeg::MoveTo { x: b_x, y: b_y }) => {
                let e0 = a_x.equals(b_x);
                let e1 = a_y.equals(b_y);
                proof {
                    assert(crate::facet::deep_eq(crate::facet::dpair(a_x.deep(), a_y.deep()), crate::facet::dpair(b_x.deep(), b_y.deep())) == (e0 && e1));
                    assert(crate::facet::deep_eq(DeepValue::Tag(0), DeepValue::Tag(0)));
                }
                e0 && e1
            },
            (PathSeg::LineTo { x: a_x, y: a_y }, PathSeg::LineTo { x: b_x, y: b_y }) => {
                let e0 = a_x.equals(b_x);
                let e1 = a_y.equals(b_y);
                proof {
                    assert(crate::facet::deep_eq(crate::facet::dpair(a_x.deep(), a_y.deep()), crate::facet::dpair(b_x.deep(), b_y.deep())) == (e0 && e1));
                    assert(crate::facet::deep_eq(DeepValue::Tag(1), DeepValue::Tag(1)));
                }
                e0 && e1
            },
            (PathSeg::QuadTo { cx: a_cx, cy: a_cy, x: a_x, y: a_y }, PathSeg::QuadTo { cx: b_cx, cy: b_cy, x: b_x, y: b_y }) => {
                let e0 = a_cx.equals(b_cx);
                let e1 = a_cy.equals(b_cy);
                let e2 = a_x.equals(b_x);
                let e3 = a_y.equals(b_y);
                proof {
                    assert(crate::facet::deep_eq(crate::facet::dpair(a_x.deep(), a_y.deep()), crate::facet::dpair(b_x.deep(), b_y.deep())) == (e2 && e3));
                    assert(crate::facet::deep_eq(crate::facet::dpair(a_cy.deep(), crate::facet::dpair(a_x.deep(), a_y.deep())), crate::facet::dpair(b_cy.deep(), crate::facet::dpair(b_x.deep(), b_y.deep()))) == (e1 && e2 && e3));
                    assert(crate::facet::deep_eq(crate::facet::dpair(a_cx.deep(), crate::facet::dpair(a_cy.deep(), crate::facet::dpair(a_x.deep(), a_y.deep()))), crate::facet::dpair(b_cx.deep(), crate::facet::dpair(b_cy.deep(), crate::facet::dpair(b_x.deep(), b_y.deep())))) == (e0 && e1 && e2 && e3));
                    assert(crate::facet::deep_eq(DeepValue::Tag(2), DeepValue::Tag(2)));
                }
                e0 && e1 && e2 && e3
            },
            (PathSeg::CubicTo { c1x: a_c1x, c1y: a_c1y, c2x: a_c2x, c2y: a_c2y, x: a_x, y: a_y }, PathSeg::CubicTo { c1x: b_c1x, c1y: b_c1y, c2x: b_c2x, c2y: b_c2y, x: b_x, y: b_y }) => {
                let e0 = a_c1x.equals(b_c1x);
                let e1 = a_c1y.equals(b_c1y);
                let e2 = a_c2x.equals(b_c2x);
                let e3 = a_c2y.equals(b_c2y);
                let e4 = a_x.equals(b_x);
                let e5 = a_y.equals(b_y);
                proof {
                    assert(crate::facet::deep_eq(crate::facet::dpair(a_x.deep(), a_y.deep()), crate::facet::dpair(b_x.deep(), b_y.deep())) == (e4 && e5));
                    assert(crate::facet::deep_eq(crate::facet::dpair(a_c2y.deep(), crate::facet::dpair(a_x.deep(), a_y.deep())), crate::facet::dpair(b_c2y.deep(), crate::facet::dpair(b_x.deep(), b_y.deep()))) == (e3 && e4 && e5));
                    assert(crate::facet::deep_eq(crate::facet::dpair(a_c2x.deep(), crate::facet::dpair(a_c2y.deep(), crate::facet::dpair(a_x.deep(), a_y.deep()))), crate::facet::dpair(b_c2x.deep(), crate::facet::dpair(b_c2y.deep(), crate::facet::dpair(b_x.deep(), b_y.deep())))) == (e2 && e3 && e4 && e5));
                    assert(crate::facet::deep_eq(crate::facet::dpair(a_c1y.deep(), crate::facet::dpair(a_c2x.deep(), crate::facet::dpair(a_c2y.deep(), crate::facet::dpair(a_x.deep(), a_y.deep())))), crate::facet::dpair(b_c1y.deep(), crate::facet::dpair(b_c2x.deep(), crate::facet::dpair(b_c2y.deep(), crate::facet::dpair(b_x.deep(), b_y.deep()))))) == (e1 && e2 && e3 && e4 && e5));
                    assert(crate::facet::deep_eq(crate::facet::dpair(a_c1x.deep(), crate::facet::dpair(a_c1y.deep(), crate::facet::dpair(a_c2x.deep(), crate::facet::dpair(a_c2y.deep(), crate::facet::dpair(a_x.deep(), a_y.deep()))))), crate::facet::dpair(b_c1x.deep(), crate::facet::dpair(b_c1y.deep(), crate::facet::dpair(b_c2x.deep(), crate::facet::dpair(b_c2y.deep(), crate::facet::dpair(b_x.deep(), b_y.deep())))))) == (e0 && e1 && e2 && e3 && e4 && e5));
                    assert(crate::facet::deep_eq(DeepValue::Tag(3), DeepValue::Tag(3)));
                }
                e0 && e1 && e2 && e3 && e4 && e5
            },
            (PathSeg::ArcTo { rx: a_rx, ry: a_ry, rotation: a_rotation, large: a_large, sweep: a_sweep, x: a_x, y: a_y }, PathSeg::ArcTo { rx: b_rx, ry: b_ry, rotation: b_rotation, large: b_large, sweep: b_sweep, x: b_x, y: b_y }) => {
                let e0 = a_rx.equals(b_rx);
                let e1 = a_ry.equals(b_ry);
                let e2 = a_rotation.equals(b_rotation);
                let e3 = a_large.equals(b_large);
                let e4 = a_sweep.equals(b_sweep);
                let e5 = a_x.equals(b_x);
                let e6 = a_y.equals(b_y);
                proof {
                    assert(crate::facet::deep_eq(crate::facet::dpair(a_x.deep(), a_y.deep()), crate::facet::dpair(b_x.deep(), b_y.deep())) == (e5 && e6));
                    assert(crate::facet::deep_eq(crate::facet::dpair(a_sweep.deep(), crate::facet::dpair(a_x.deep(), a_y.deep())), crate::facet::dpair(b_sweep.deep(), crate::facet::dpair(b_x.deep(), b_y.deep()))) == (e4 && e5 && e6));
                    assert(crate::facet::deep_eq(crate::facet::dpair(a_large.deep(), crate::facet::dpair(a_sweep.deep(), crate::facet::dpair(a_x.deep(), a_y.deep()))), crate::facet::dpair(b_large.deep(), crate::facet::dpair(b_sweep.deep(), crate::facet::dpair(b_x.deep(), b_y.deep())))) == (e3 && e4 && e5 && e6));
                    assert(crate::facet::deep_eq(crate::facet::dpair(a_rotation.deep(), crate::facet::dpair(a_large.deep(), crate::facet::dpair(a_sweep.deep(), crate::facet::dpair(a_x.deep(), a_y.deep())))), crate::facet::dpair(b_rotation.deep(), crate::facet::dpair(b_large.deep(), crate::facet::dpair(b_sweep.deep(), crate::facet::dpair(b_x.deep(), b_y.deep()))))) == (e2 && e3 && e4 && e5 && e6));
                    assert(crate::facet::deep_eq(crate::facet::dpair(a_ry.deep(), crate::facet::dpair(a_rotation.deep(), crate::facet::dpair(a_large.deep(), crate::facet::dpair(a_sweep.deep(), crate::facet::dpair(a_x.deep(), a_y.deep()))))), crate::facet::dpair(b_ry.deep(), crate::facet::dpair(b_rotation.deep(), crate::facet::dpair(b_large.deep(), crate::facet::dpair(b_sweep.deep(), crate::facet::dpair(b_x.deep(), b_y.deep())))))) == (e1 && e2 && e3 && e4 && e5 && e6));
                    assert(crate::facet::deep_eq(crate::facet::dpair(a_rx.deep(), crate::facet::dpair(a_ry.deep(), crate::facet::dpair(a_rotation.deep(), crate::facet::dpair(a_large.deep(), crate::facet::dpair(a_sweep.deep(), crate::facet::dpair(a_x.deep(), a_y.deep())))))), crate::facet::dpair(b_rx.deep(), crate::facet::dpair(b_ry.deep(), crate::facet::dpair(b_rotation.deep(), crate::facet::dpair(b_large.deep(), crate::facet::dpair(b_sweep.deep(), crate::facet::dpair(b_x.deep(), b_y.deep()))))))) == (e0 && e1 && e2 && e3 && e4 && e5 && e6));
                    assert(crate::facet::deep_eq(DeepValue::Tag(4), DeepValue::Tag(4)));
                }
                e0 && e1 && e2 && e3 && e4 && e5 && e6
            },
            (PathSeg::Close, PathSeg::Close) => true,
            _ => {
                proof {
                    assert(self.variant() != other.variant());
                    assert(!crate::facet::deep_eq(DeepValue::Tag(self.variant()), DeepValue::Tag(other.variant())));
                }
                false
            },
        }
    }

    fn duplicate(&self) -> (r: Self) {
        match self {
            PathSeg::MoveTo { x: x_x, y: x_y } => PathSeg::MoveTo { x: x_x.duplicate(), y: x_y.duplicate() },
            PathSeg::LineTo { x: x_x, y: x_y } => PathSeg::LineTo { x: x_x.duplicate(), y: x_y.duplicate() },
            PathSeg::QuadTo { cx: x_cx, cy: x_cy, x: x_x, y: x_y } => PathSeg::QuadTo { cx: x_cx.duplicate(), cy: x_cy.duplicate(), x: x_x.duplicate(), y: x_y.duplicate() },
            PathSeg::CubicTo { c1x: x_c1x, c1y: x_c1y, c2x: x_c2x, c2y: x_c2y, x: x_x, y: x_y } => PathSeg::CubicTo { c1x: x_c1x.duplicate(), c1y: x_c1y.duplicate(), c2x: x_c2x.duplicate(), c2y: x_c2y.duplicate(), x: x_x.duplicate(), y: x_y.duplicate() },
            PathSeg::ArcTo { rx: x_rx, ry: x_ry, rotation: x_rotation, large: x_large, sweep: x_sweep, x: x_x, y: x_y } => PathSeg::ArcTo { rx: x_rx.duplicate(), ry: x_ry.duplicate(), rotation: x_rotation.duplicate(), large: x_large.duplicate(), sweep: x_sweep.duplicate(), x: x_x.duplicate(), y: x_y.duplicate() },
            PathSeg::Close => PathSeg::Close,
        }
    }
}

#[derive(Debug, Clone, PartialEq)]
pub struct Stroke {
    pub brush: Brush,
    pub width: F32,
    pub cap: LineCap,
    pub join: LineJoin,
    pub dash: Vec<F32>,
}

impl Facet for Stroke {
    open spec fn deep(&self) -> DeepValue {
        crate::facet::dpair(self.brush.deep(), crate::facet::dpair(self.width.deep(), crate::facet::dpair(self.cap.deep(), crate::facet::dpair(self.join.deep(), self.dash.deep()))))
    }

    fn equals(&self, other: &Self) -> (r: bool) {
        let e0 = self.brush.equals(&other.brush);
        let e1 = self.width.equals(&other.width);
        let e2 = self.cap.equals(&other.cap);
        let e3 = self.join.equals(&other.join);
        let e4 = self.dash.equals(&other.dash);
        proof {
            assert(crate::facet::deep_eq(crate::facet::dpair(self.join.deep(), self.dash.deep()), crate::facet::dpair(other.join.deep(), other.dash.deep())) == (e3 && e4));
            assert(crate::facet::deep_eq(crate::facet::dpair(self.cap.deep(), crate::facet::dpair(self.join.deep(), self.dash.deep())), crate::facet::dpair(other.cap.deep(), crate::facet::dpair(other.join.deep(), other.dash.deep()))) == (e2 && e3 && e4));
            assert(crate::facet::deep_eq(crate::facet::dpair(self.width.deep(), crate::facet::dpair(self.cap.deep(), crate::facet::dpair(self.join.deep(), self.dash.deep()))), crate::facet::dpair(other.width.deep(), crate::facet::dpair(other.cap.deep(), crate::facet::dpair(other.join.deep(), other.dash.deep())))) == (e1 && e2 && e3 && e4));
            assert(crate::facet::deep_eq(crate::facet::dpair(self.brush.deep(), crate::facet::dpair(self.width.deep(), crate::facet::dpair(self.cap.deep(), crate::facet::dpair(self.join.deep(), self.dash.deep())))), crate::facet::dpair(other.brush.deep(), crate::facet::dpair(other.width.deep(), crate::facet::dpair(other.cap.deep(), crate::facet::dpair(other.join.deep(), other.dash.deep()))))) == (e0 && e1 && e2 && e3 && e4));
        }
        e0 && e1 && e2 && e3 && e4
    }

    fn duplicate(&self) -> (r: Self) {
        Stroke { brush: self.brush.duplicate(), width: self.width.duplicate(), cap: self.cap.duplicate(), join: self.join.duplicate(), dash: self.dash.duplicate() }
    }
}

#[derive(Debug, Clone, PartialEq)]
pub enum DrawOp {
    Clear { color: Color },
    FillRect { rect: Rect, brush: Brush },
    StrokeRect { rect: Rect, stroke: Stroke },
    FillRoundRect { rect: Rect, radius: F32, brush: Brush },
    StrokeRoundRect { rect: Rect, radius: F32, stroke: Stroke },
    FillCircle { center: Point, radius: F32, brush: Brush },
    StrokeCircle { center: Point, radius: F32, stroke: Stroke },
    FillEllipse { center: Point, rx: F32, ry: F32, brush: Brush },
    Line { from: Point, to: Point, stroke: Stroke },
    Polyline { points: Vec<Point>, stroke: Stroke },
    Polygon { points: Vec<Point>, brush: Brush },
    Arc { center: Point, radius: F32, start_angle: F32, end_angle: F32, brush: Option<Brush>, stroke: Option<Stroke> },
    FillPath { segments: Vec<PathSeg>, brush: Brush },
    StrokePath { segments: Vec<PathSeg>, stroke: Stroke },
    Text { text: String, at: Point, size: F32, color: Color, font: Option<String>, align: Option<String> },
    Image { src: String, dest: Rect },
    Save,
    Restore,
    Translate { x: F32, y: F32 },
    Scale { x: F32, y: F32 },
    Rotate { degrees: F32 },
    ClipRect { rect: Rect },
    ClipPath { segments: Vec<PathSeg> },
    GlobalAlpha { alpha: F32 },
}

impl DrawOp {
    /// The position of the variant in the declaration.
    pub open spec fn variant(&self) -> nat {
        match self {
            DrawOp::Clear { .. } => 0,
            DrawOp::FillRect { .. } => 1,
            DrawOp::StrokeRect { .. } => 2,
            DrawOp::FillRoundRect { .. } => 3,
            DrawOp::StrokeRoundRect { .. } => 4,
            DrawOp::FillCircle { .. } => 5,
            DrawOp::StrokeCircle { .. } => 6,
            DrawOp::FillEllipse { .. } => 7,
            DrawOp::Line { .. } => 8,
            DrawOp::Polyline { .. } => 9,
            DrawOp::Polygon { .. } => 10,
            DrawOp::Arc { .. } => 11,
            DrawOp::FillPath { .. } => 12,
            DrawOp::StrokePath { .. } => 13,
            DrawOp::Text { .. } => 14,
            DrawOp::Image { .. } => 15,
            DrawOp::Save => 16,
            DrawOp::Restore => 17,
            DrawOp::Translate { .. } => 18,
            DrawOp::Scale { .. } => 19,
            DrawOp::Rotate { .. } => 20,
            DrawOp::ClipRect { .. } => 21,
            DrawOp::ClipPath { .. } => 22,
            DrawOp::GlobalAlpha { .. } => 23,
        }
    }
}

impl Facet for DrawOp {
    open spec fn deep(&self) -> DeepValue {
        match self {
            DrawOp::Clear { color: color } => crate::facet::dvariant(0, color.deep()),
            DrawOp::FillRect { rect: rect, brush: brush } => crate::facet::dvariant(1, crate::facet::dpair(rect.deep(), brush.deep())),
            DrawOp::StrokeRect { rect: rect, stroke: stroke } => crate::facet::dvariant(2, crate::facet::dpair(rect.deep(), stroke.deep())),
            DrawOp::FillRoundRect { rect: rect, radius: radius, brush: brush } => crate::facet::dvariant(3, crate::facet::dpair(rect.deep(), crate::facet::dpair(radius.deep(), brush.deep()))),
            DrawOp::StrokeRoundRect { rect: rect, radius: radius, stroke: stroke } => crate::facet::dvariant(4, crate::facet::dpair(rect.deep(), crate::facet::dpair(radius.deep(), stroke.deep()))),
            DrawOp::FillCircle { center: center, radius: radius, brush: brush } => crate::facet::dvariant(5, crate::facet::dpair(center.deep(), crate::facet::dpair(radius.deep(), brush.deep()))),
            DrawOp::StrokeCircle { center: center, radius: radius, stroke: stroke } => crate::facet::dvariant(6, crate::facet::dpair(center.deep(), crate::facet::dpair(radius.deep(), stroke.deep()))),
            DrawOp::FillEllipse { center: center, rx: rx, ry: ry, brush: brush } => crate::facet::dvariant(7, crate::facet::dpair(center.deep(), crate::facet::dpair(rx.deep(), crate::facet::dpair(ry.deep(), brush.deep())))),
            DrawOp::Line { from: from, to: to, stroke: stroke } => crate::facet::dvariant(8, crate::facet::dpair(from.deep(), crate::facet::dpair(to.deep(), stroke.deep()))),
            DrawOp::Polyline { points: points, stroke: stroke } => crate::facet::dvariant(9, crate::facet::dpair(points.deep(), stroke.deep())),
            DrawOp::Polygon { points: points, brush: brush } => crate::facet::dvariant(10, crate::facet::dpair(points.deep(), brush.deep())),
            DrawOp::Arc { center: center, radius: radius, start_angle: start_angle, end_angle: end_angle, brush: brush, stroke: stroke } => crate::facet::dvariant(11, crate::facet::dpair(center.deep(), crate::facet::dpair(radius.deep(), crate::facet::dpair(start_angle.deep(), crate::facet::dpair(end_angle.deep(), crate::facet::dpair(brush.deep(), stroke.deep())))))),
            DrawOp::FillPath { segments: segments, brush: brush } => crate::facet::dvariant(12, crate::facet::dpair(segments.deep(), brush.deep())),
            DrawOp::StrokePath { segments: segments, stroke: stroke } => crate::facet::dvariant(13, crate::facet::dpair(segments.deep(), stroke.deep())),
            DrawOp::Text { text: text, at: at, size: size, color: color, font: font, align: align } => crate::facet::dvariant(14, crate::facet::dpair(text.deep(), crate::facet::dpair(at.deep(), crate::facet::dpair(size.deep(), crate::facet::dpair(color.deep(), crate::facet::dpair(font.deep(), align.deep())))))),
            DrawOp::Image { src: src, dest: dest } => crate::facet::dvariant(15, crate::facet::dpair(src.deep(), dest.deep())),
            DrawOp::Save => DeepValue::Tag(16),
            DrawOp::Restore => DeepValue::Tag(17),
            DrawOp::Translate { x: x, y: y } => crate::facet::dvariant(18, crate::facet::dpair(x.deep(), y.deep())),
            DrawOp::Scale { x: x, y: y } => crate::facet::dvariant(19, crate::facet::dpair(x.deep(), y.deep())),
            DrawOp::Rotate { degrees: degrees } => crate::facet::dvariant(20, degrees.deep()),
            DrawOp::ClipRect { rect: rect } => crate::facet::dvariant(21, rect.deep()),
            DrawOp::ClipPath { segments: segments } => crate::facet::dvariant(22, segments.deep()),
            DrawOp::GlobalAlpha { alpha: alpha } => crate::facet::dvariant(23, alpha.deep()),
        }
    }

    fn equals(&self, other: &Self) -> (r: bool) {
        match (self, other) {
            (DrawOp::Clear { color: a_color }, DrawOp::Clear { color: b_color }) => {
                let e0 = a_color.equals(b_color);
                proof {
                    assert(crate::facet::deep_eq(DeepValue::Tag(0), DeepValue::Tag(0)));
                }
                e0
            },
            (DrawOp::FillRect { rect: a_rect, brush: a_brush }, DrawOp::FillRect { rect: b_rect, brush: b_brush }) => {
                let e0 = a_rect.equals(b_rect);
                let e1 = a_brush.equals(b_brush);
                proof {
                    assert(crate::facet::deep_eq(crate::facet::dpair(a_rect.deep(), a_brush.deep()), crate::facet::dpair(b_rect.deep(), b_brush.deep())) == (e0 && e1));
                    assert(crate::facet::deep_eq(DeepValue::Tag(1), DeepValue::Tag(1)));
                }
                e0 && e1
            },
            (DrawOp::StrokeRect { rect: a_rect, stroke: a_stroke }, DrawOp::StrokeRect { rect: b_rect, stroke: b_stroke }) => {
                let e0 = a_rect.equals(b_rect);
                let e1 = a_stroke.equals(b_stroke);
                proof {
                    assert(crate::facet::deep_eq(crate::facet::dpair(a_rect.deep(), a_stroke.deep()), crate::facet::dpair(b_rect.deep(), b_stroke.deep())) == (e0 && e1));
                    assert(crate::facet::deep_eq(DeepValue::Tag(2), DeepValue::Tag(2)));
                }
                e0 && e1
            },
            (DrawOp::FillRoundRect { rect: a_rect, radius: a_radius, brush: a_brush }, DrawOp::FillRoundRect { rect: b_rect, radius: b_radius, brush: b_brush }) => {
                let e0 = a_rect.equals(b_rect);
                let e1 = a_radius.equals(b_radius);
                let e2 = a_brush.equals(b_brush);
                proof {
                    assert(crate::facet::deep_eq(crate::facet::dpair(a_radius.deep(), a_brush.deep()), crate::facet::dpair(b_radius.deep(), b_brush.deep())) == (e1 && e2));
                    assert(crate::facet::deep_eq(crate::facet::dpair(a_rect.deep(), crate::facet::dpair(a_radius.deep(), a_brush.deep())), crate::facet::dpair(b_rect.deep(), crate::facet::dpair(b_radius.deep(), b_brush.deep()))) == (e0 && e1 && e2));
                    assert(crate::facet::deep_eq(DeepValue::Tag(3), DeepValue::Tag(3)));
                }
                e0 && e1 && e2
            },
            (DrawOp::StrokeRoundRect { rect: a_rect, radius: a_radius, stroke: a_stroke }, DrawOp::StrokeRoundRect { rect: b_rect, radius: b_radius, stroke: b_stroke }) => {
                let e0 = a_rect.equals(b_rect);
                let e1 = a_radius.equals(b_radius);
                let e2 = a_stroke.equals(b_stroke);
                proof {
                    assert(crate::facet::deep_eq(crate::facet::dpair(a_radius.deep(), a_stroke.deep()), crate::facet::dpair(b_radius.deep(), b_stroke.deep())) == (e1 && e2));
                    assert(crate::facet::deep_eq(crate::facet::dpair(a_rect.deep(), crate::facet::dpair(a_radius.deep(), a_stroke.deep())), crate::facet::dpair(b_rect.deep(), crate::facet::dpair(b_radius.deep(), b_stroke.deep()))) == (e0 && e1 && e2));
                    assert(crate::facet::deep_eq(DeepValue::Tag(4), DeepValue::Tag(4)));
                }
                e0 && e1 && e2
            },
            (DrawOp::FillCircle { center: a_center, radius: a_radius, brush: a_brush }, DrawOp::FillCircle { center: b_center, radius: b_radius, brush: b_brush }) => {
                let e0 = a_center.equals(b_center);
                let e1 = a_radius.equals(b_radius);
                let e2 = a_brush.equals(b_brush);
                proof {
                    assert(crate::facet::deep_eq(crate::facet::dpair(a_radius.deep(), a_brush.deep()), crate::facet::dpair(b_radius.deep(), b_brush.deep())) == (e1 && e2));
                    assert(crate::facet::deep_eq(crate::facet::dpair(a_center.deep(), crate::facet::dpair(a_radius.deep(), a_brush.deep())), crate::facet::dpair(b_center.deep(), crate::facet::dpair(b_radius.deep(), b_brush.deep()))) == (e0 && e1 && e2));
                    assert(crate::facet::deep_eq(DeepValue::Tag(5), DeepValue::Tag(5)));
                }
                e0 && e1 && e2
            },
            (DrawOp::StrokeCircle { center: a_center, radius: a_radius, stroke: a_stroke }, DrawOp::StrokeCircle { center: b_center, radius: b_radius, stroke: b_stroke }) => {
                let e0 = a_center.equals(b_center);
                let e1 = a_radius.equals(b_radius);
                let e2 = a_stroke.equals(b_stroke);
                proof {
                    assert(crate::facet::deep_eq(crate::facet::dpair(a_radius.deep(), a_stroke.deep()), crate::facet::dpair(b_radius.deep(), b_stroke.deep())) == (e1 && e2));
                    assert(crate::facet::deep_eq(crate::facet::dpair(a_center.deep(), crate::facet::dpair(a_radius.deep(), a_stroke.deep())), crate::facet::dpair(b_center.deep(), crate::facet::dpair(b_radius.deep(), b_stroke.deep()))) == (e0 && e1 && e2));
                    assert(crate::facet::deep_eq(DeepValue::Tag(6), DeepValue::Tag(6)));
                }
                e0 && e1 && e2
            },
            (DrawOp::FillEllipse { center: a_center, rx: a_rx, ry: a_ry, brush: a_brush }, DrawOp::FillEllipse { center: b_center, rx: b_rx, ry: b_ry, brush: b_brush }) => {
                let e0 = a_center.equals(b_center);
                let e1 = a_rx.equals(b_rx);
                let e2 = a_ry.equals(b_ry);
                let e3 = a_brush.equals(b_brush);
                proof {
                    assert(crate::facet::deep_eq(crate::facet::dpair(a_ry.deep(), a_brush.deep()), crate::facet::dpair(b_ry.deep(), b_brush.deep())) == (e2 && e3));
                    assert(crate::facet::deep_eq(crate::facet::dpair(a_rx.deep(), crate::facet::dpair(a_ry.deep(), a_brush.deep())), crate::facet::dpair(b_rx.deep(), crate::facet::dpair(b_ry.deep(), b_brush.deep()))) == (e1 && e2 && e3));
                    assert(crate::facet::deep_eq(crate::facet::dpair(a_center.deep(), crate::facet::dpair(a_rx.deep(), crate::facet::dpair(a_ry.deep(), a_brush.deep()))), crate::facet::dpair(b_center.deep(), crate::facet::dpair(b_rx.deep(), crate::facet::dpair(b_ry.deep(), b_brush.deep())))) == (e0 && e1 && e2 && e3));
                    assert(crate::facet::deep_eq(DeepValue::Tag(7), DeepValue::Tag(7)));
                }
                e0 && e1 && e2 && e3
            },
            (DrawOp::Line { from: a_from, to: a_to, stroke: a_stroke }, DrawOp::Line { from: b_from, to: b_to, stroke: b_stroke }) => {
                let e0 = a_from.equals(b_from);
                let e1 = a_to.equals(b_to);
                let e2 = a_stroke.equals(b_stroke);
                proof {
                    assert(crate::facet::deep_eq(crate::facet::dpair(a_to.deep(), a_stroke.deep()), crate::facet::dpair(b_to.deep(), b_stroke.deep())) == (e1 && e2));
                    assert(crate::facet::deep_eq(crate::facet::dpair(a_from.deep(), crate::facet::dpair(a_to.deep(), a_stroke.deep())), crate::facet::dpair(b_from.deep(), crate::facet::dpair(b_to.deep(), b_stroke.deep()))) == (e0 && e1 && e2));
                    assert(crate::facet::deep_eq(DeepValue::Tag(8), DeepValue::Tag(8)));
                }
                e0 && e1 && e2
            },
            (DrawOp::Polyline { points: a_points, stroke: a_stroke }, DrawOp::Polyline { points: b_points, stroke: b_stroke }) => {
                let e0 = a_points.equals(b_points);
                let e1 = a_stroke.equals(b_stroke);
                proof {
                    assert(crate::facet::deep_eq(crate::facet::dpair(a_points.deep(), a_stroke.deep()), crate::facet::dpair(b_points.deep(), b_stroke.deep())) == (e0 && e1));
                    assert(crate::facet::deep_eq(DeepValue::Tag(9), DeepValue::Tag(9)));
                }
                e0 && e1
            },
            (DrawOp::Polygon { points: a_points, brush: a_brush }, DrawOp::Polygon { points: b_points, brush: b_brush }) => {
                let e0 = a_points.equals(b_points);
                let e1 = a_brush.equals(b_brush);
                proof {
                    assert(crate::facet::deep_eq(crate::facet::dpair(a_points.deep(), a_brush.deep()), crate::facet::dpair(b_points.deep(), b_brush.deep())) == (e0 && e1));
                    assert(crate::facet::deep_eq(DeepValue::Tag(10), DeepValue::Tag(10)));
                }
                e0 && e1
            },
            (DrawOp::Arc { center: a_center, radius: a_radius, start_angle: a_start_angle, end_angle: a_end_angle, brush: a_brush, stroke: a_stroke }, DrawOp::Arc { center: b_center, radius: b_radius, start_angle: b_start_angle, end_angle: b_end_angle, brush: b_brush, stroke: b_stroke }) => {
                let e0 = a_center.equals(b_center);
                let e1 = a_radius.equals(b_radius);
                let e2 = a_start_angle.equals(b_start_angle);
                let e3 = a_end_angle.equals(b_end_angle);
                let e4 = a_brush.equals(b_brush);
                let e5 = a_stroke.equals(b_stroke);
                proof {
                    assert(crate::facet::deep_eq(crate::facet::dpair(a_brush.deep(), a_stroke.deep()), crate::facet::dpair(b_brush.deep(), b_stroke.deep())) == (e4 && e5));
                    assert(crate::facet::deep_eq(crate::facet::dpair(a_end_angle.deep(), crate::facet::dpair(a_brush.deep(), a_stroke.deep())), crate::facet::dpair(b_end_angle.deep(), crate::facet::dpair(b_brush.deep(), b_stroke.deep()))) == (e3 && e4 && e5));
                    assert(crate::facet::deep_eq(crate::facet::dpair(a_start_angle.deep(), crate::facet::dpair(a_end_angle.deep(), crate::facet::dpair(a_brush.deep(), a_stroke.deep()))), crate::facet::dpair(b_start_angle.deep(), crate::facet::dpair(b_end_angle.deep(), crate::facet::dpair(b_brush.deep(), b_stroke.deep())))) == (e2 && e3 && e4 && e5));
                    assert(crate::facet::deep_eq(crate::facet::dpair(a_radius.deep(), crate::facet::dpair(a_start_angle.deep(), crate::facet::dpair(a_end_angle.deep(), crate::facet::dpair(a_brush.deep(), a_stroke.deep())))), crate::facet::dpair(b_radius.deep(), crate::facet::dpair(b_start_angle.deep(), crate::facet::dpair(b_end_angle.deep(), crate::facet::dpair(b_brush.deep(), b_stroke.deep()))))) == (e1 && e2 && e3 && e4 && e5));
                    assert(crate::facet::deep_eq(crate::facet::dpair(a_center.deep(), crate::facet::dpair(a_radius.deep(), crate::facet::dpair(a_start_angle.deep(), crate::facet::dpair(a_end_angle.deep(), crate::facet::dpair(a_brush.deep(), a_stroke.deep()))))), crate::facet::dpair(b_center.deep(), crate::facet::dpair(b_radius.deep(), crate::facet::dpair(b_start_angle.deep(), crate::facet::dpair(b_end_angle.deep(), crate::facet::dpair(b_brush.deep(), b_stroke.deep())))))) == (e0 && e1 && e2 && e3 && e4 && e5));
                    assert(crate::facet::deep_eq(DeepValue::Tag(11), DeepValue::Tag(11)));
                }
                e0 && e1 && e2 && e3 && e4 && e5
            },
            (DrawOp::FillPath { segments: a_segments, brush: a_brush }, DrawOp::FillPath { segments: b_segments, brush: b_brush }) => {
                let e0 = a_segments.equals(b_segments);
                let e1 = a_brush.equals(b_brush);
                proof {
                    assert(crate::facet::deep_eq(crate::facet::dpair(a_segments.deep(), a_brush.deep()), crate::facet::dpair(b_segments.deep(), b_brush.deep())) == (e0 && e1));
                    assert(crate::facet::deep_eq(DeepValue::Tag(12), DeepValue::Tag(12)));
                }
                e0 && e1
            },
            (DrawOp::StrokePath { segments: a_segments, stroke: a_stroke }, DrawOp::StrokePath { segments: b_segments, stroke: b_stroke }) => {
                let e0 = a_segments.equals(b_segments);
                let e1 = a_stroke.equals(b_stroke);
                proof {
                    assert(crate::facet::deep_eq(crate::facet::dpair(a_segments.deep(), a_stroke.deep()), crate::facet::dpair(b_segments.deep(), b_stroke.deep())) == (e0 && e1));
                    assert(crate::facet::deep_eq(DeepValue::Tag(13), DeepValue::Tag(13)));
                }
                e0 && e1
            },
            (DrawOp::Text { text: a_text, at: a_at, size: a_size, color: a_color, font: a_font, align: a_align }, DrawOp::Text { text: b_text, at: b_at, size: b_size, color: b_color, font: b_font, align: b_align }) => {
                let e0 = a_text.equals(b_text);
                let e1 = a_at.equals(b_at);
                let e2 = a_size.equals(b_size);
                let e3 = a_color.equals(b_color);
                let e4 = a_font.equals(b_font);
                let e5 = a_align.equals(b_align);
                proof {
                    assert(crate::facet::deep_eq(crate::facet::dpair(a_font.deep(), a_align.deep()), crate::facet::dpair(b_font.deep(), b_align.deep())) == (e4 && e5));
                    assert(crate::facet::deep_eq(crate::facet::dpair(a_color.deep(), crate::facet::dpair(a_font.deep(), a_align.deep())), crate::facet::dpair(b_color.deep(), crate::facet::dpair(b_font.deep(), b_align.deep()))) == (e3 && e4 && e5));
                    assert(crate::facet::deep_eq(crate::facet::dpair(a_size.deep(), crate::facet::dpair(a_color.deep(), crate::facet::dpair(a_font.deep(), a_align.deep()))), crate::facet::dpair(b_size.deep(), crate::facet::dpair(b_color.deep(), crate::facet::dpair(b_font.deep(), b_align.deep())))) == (e2 && e3 && e4 && e5));
                    assert(crate::facet::deep_eq(crate::facet::dpair(a_at.deep(), crate::facet::dpair(a_size.deep(), crate::facet::dpair(a_color.deep(), crate::facet::dpair(a_font.deep(), a_align.deep())))), crate::facet::dpair(b_at.deep(), crate::facet::dpair(b_size.deep(), crate::facet::dpair(b_color.deep(), crate::facet::dpair(b_font.deep(), b_align.deep()))))) == (e1 && e2 && e3 && e4 && e5));
                    assert(crate::facet::deep_eq(crate::facet::dpair(a_text.deep(), crate::facet::dpair(a_at.deep(), crate::facet::dpair(a_size.deep(), crate::facet::dpair(a_color.deep(), crate::facet::dpair(a_font.deep(), a_align.deep()))))), crate::facet::dpair(b_text.deep(), crate::facet::dpair(b_at.deep(), crate::facet::dpair(b_size.deep(), crate::facet::dpair(b_color.deep(), crate::facet::dpair(b_font.deep(), b_align.deep())))))) == (e0 && e1 && e2 && e3 && e4 && e5));
                    assert(crate::facet::deep_eq(DeepValue::Tag(14), DeepValue::Tag(14)));
                }
                e0 && e1 && e2 && e3 && e4 && e5
            },
            (DrawOp::Image { src: a_src, dest: a_dest }, DrawOp::Image { src: b_src, dest: b_dest }) => {
                let e0 = a_src.equals(b_src);
                let e1 = a_dest.equals(b_dest);
                proof {
                    assert(crate::facet::deep_eq(crate::facet::dpair(a_src.deep(), a_dest.deep()), crate::facet::dpair(b_src.deep(), b_dest.deep())) == (e0 && e1));
                    assert(crate::facet::deep_eq(DeepValue::Tag(15), DeepValue::Tag(15)));
                }
                e0 && e1
            },
            (DrawOp::Save, DrawOp::Save) => true,
            (DrawOp::Restore, DrawOp::Restore) => true,
            (DrawOp::Translate { x: a_x, y: a_y }, DrawOp::Translate { x: b_x, y: b_y }) => {
                let e0 = a_x.equals(b_x);
                let e1 = a_y.equals(b_y);
                proof {
                    assert(crate::facet::deep_eq(crate::facet::dpair(a_x.deep(), a_y.deep()), crate::facet::dpair(b_x.deep(), b_y.deep())) == (e0 && e1));
                    assert(crate::facet::deep_eq(DeepValue::Tag(18), DeepValue::Tag(18)));
                }
                e0 && e1
            },
            (DrawOp::Scale { x: a_x, y: a_y }, DrawOp::Scale { x: b_x, y: b_y }) => {
                let e0 = a_x.equals(b_x);
                let e1 = a_y.equals(b_y);
                proof {
                    assert(crate::facet::deep_eq(crate::facet::dpair(a_x.deep(), a_y.deep()), crate::facet::dpair(b_x.deep(), b_y.deep())) == (e0 && e1));
                    assert(crate::facet::deep_eq(DeepValue::Tag(19), DeepValue::Tag(19)));
                }
                e0 && e1
            },
            (DrawOp::Rotate { degrees: a_degrees }, DrawOp::Rotate { degrees: b_degrees }) => {
                let e0 = a_degrees.equals(b_degrees);
                proof {
                    assert(crate::facet::deep_eq(DeepValue::Tag(20), DeepValue::Tag(20)));
                }
                e0
            },
            (DrawOp::ClipRect { rect: a_rect }, DrawOp::ClipRect { rect: b_rect }) => {
                let e0 = a_rect.equals(b_rect);
                proof {
                    assert(crate::facet::deep_eq(DeepValue::Tag(21), DeepValue::Tag(21)));
                }
                e0
            },
            (DrawOp::ClipPath { segments: a_segments }, DrawOp::ClipPath { segments: b_segments }) => {
                let e0 = a_segments.equals(b_segments);
                proof {
                    assert(crate::facet::deep_eq(DeepValue::Tag(22), DeepValue::Tag(22)));
                }
                e0
            },
            (DrawOp::GlobalAlpha { alpha: a_alpha }, DrawOp::GlobalAlpha { alpha: b_alpha }) => {
                let e0 = a_alpha.equals(b_alpha);
                proof {
                    assert(crate::facet::deep_eq(DeepValue::Tag(23), DeepValue::Tag(23)));
                }
                e0
            },
            _ => {
                proof {
                    assert(self.variant() != other.variant());
                    assert(!crate::facet::deep_eq(DeepValue::Tag(self.variant()), DeepValue::Tag(other.variant())));
                }
                false
            },
        }
    }

    fn duplicate(&self) -> (r: Self) {
        match self {
            DrawOp::Clear { color: x_color } => DrawOp::Clear { color: x_color.duplicate() },
            DrawOp::FillRect { rect: x_rect, brush: x_brush } => DrawOp::FillRect { rect: x_rect.duplicate(), brush: x_brush.duplicate() },
            DrawOp::StrokeRect { rect: x_rect, stroke: x_stroke } => DrawOp::StrokeRect { rect: x_rect.duplicate(), stroke: x_stroke.duplicate() },
            DrawOp::FillRoundRect { rect: x_rect, radius: x_radius, brush: x_brush } => DrawOp::FillRoundRect { rect: x_rect.duplicate(), radius: x_radius.duplicate(), brush: x_brush.duplicate() },
            DrawOp::StrokeRoundRect { rect: x_rect, radius: x_radius, stroke: x_stroke } => DrawOp::StrokeRoundRect { rect: x_rect.duplicate(), radius: x_radius.duplicate(), stroke: x_stroke.duplicate() },
            DrawOp::FillCircle { center: x_center, radius: x_radius, brush: x_brush } => DrawOp::FillCircle { center: x_center.duplicate(), radius: x_radius.duplicate(), brush: x_brush.duplicate() },
            DrawOp::StrokeCircle { center: x_center, radius: x_radius, stroke: x_stroke } => DrawOp::StrokeCircle { center: x_center.duplicate(), radius: x_radius.duplicate(), stroke: x_stroke.duplicate() },
            DrawOp::FillEllipse { center: x_center, rx: x_rx, ry: x_ry, brush: x_brush } => DrawOp::FillEllipse { center: x_center.duplicate(), rx: x_rx.duplicate(), ry: x_ry.duplicate(), brush: x_brush.duplicate() },
            DrawOp::Line { from: x_from, to: x_to, stroke: x_stroke } => DrawOp::Line { from: x_from.duplicate(), to: x_to.duplicate(), stroke: x_stroke.duplicate() },
            DrawOp::Polyline { points: x_points, stroke: x_stroke } => DrawOp::Polyline { points: x_points.duplicate(), stroke: x_stroke.duplicate() },
            DrawOp::Polygon { points: x_points, brush: x_brush } => DrawOp::Polygon { points: x_points.duplicate(), brush: x_brush.duplicate() },
            DrawOp::Arc { center: x_center, radius: x_radius, start_angle: x_start_angle, end_angle: x_end_angle, brush: x_brush, stroke: x_stroke } => DrawOp::Arc { center: x_center.duplicate(), radius: x_radius.duplicate(), start_angle: x_start_angle.duplicate(), end_angle: x_end_angle.duplicate(), brush: x_brush.duplicate(), stroke: x_stroke.duplicate() },
            DrawOp::FillPath { segments: x_segments, brush: x_brush } => DrawOp::FillPath { segments: x_segments.duplicate(), brush: x_brush.duplicate() },
            DrawOp::StrokePath { segments: x_segments, stroke: x_stroke } => DrawOp::StrokePath { segments: x_segments.duplicate(), stroke: x_stroke.duplicate() },
            DrawOp::Text { text: x_text, at: x_at, size: x_size, color: x_color, font: x_font, align: x_align } => DrawOp::Text { text: x_text.duplicate(), at: x_at.duplicate(), size: x_size.duplicate(), color: x_color.duplicate(), font: x_font.duplicate(), align: x_align.duplicate() },
            DrawOp::Image { src: x_src, dest: x_dest } => DrawOp::Image { src: x_src.duplicate(), dest: x_dest.duplicate() },
            DrawOp::Save => DrawOp::Save,
            DrawOp::Restore => DrawOp::Restore,
            DrawOp::Translate { x: x_x, y: x_y } => DrawOp::Translate { x: x_x.duplicate(), y: x_y.duplicate() },
            DrawOp::Scale { x: x_x, y: x_y } => DrawOp::Scale { x: x_x.duplicate(), y: x_y.duplicate() },
            DrawOp::Rotate { degrees: x_degrees } => DrawOp::Rotate { degrees: x_degrees.duplicate() },
            DrawOp::ClipRect { rect: x_rect } => DrawOp::ClipRect { rect: x_rect.duplicate() },
            DrawOp::ClipPath { segments: x_segments } => DrawOp::ClipPath { segments: x_segments.duplicate() },
            DrawOp::GlobalAlpha { alpha: x_alpha } => DrawOp::GlobalAlpha { alpha: x_alpha.duplicate() },
        }
    }
}

#[derive(Debug, Clone, PartialEq, Default)]
pub struct CanvasSpec {
    pub ops: Vec<DrawOp>,
    pub animated: bool,
}

impl Facet for CanvasSpec {
    open spec fn deep(&self) -> DeepValue {
        crate::facet::dpair(self.ops.deep(), self.animated.deep())
    }

    fn equals(&self, other: &Self) -> (r: bool) {
        let e0 = self.ops.equals(&other.ops);
        let e1 = self.animated.equals(&other.animated);
        proof {
            assert(crate::facet::deep_eq(crate::facet::dpair(self.ops.deep(), self.animated.deep()), crate::facet::dpair(other.ops.deep(), other.animated.deep())) == (e0 && e1));
        }
        e0 && e1
    }

    fn duplicate(&self) -> (r: Self) {
        CanvasSpec { ops: self.ops.duplicate(), animated: self.animated.duplicate() }
    }
}

impl Point {
    /// The point `(x, y)`.
    pub fn new(x: F32, y: F32) -> (p: Point)
        ensures
            p.x == x,
            p.y == y,
    {
        Point { x, y }
    }
}

} // verus!
