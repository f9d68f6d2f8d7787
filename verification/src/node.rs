//! The widget tree: [`Node`], its [`NodeKind`] and the per-kind specs.

use vstd::prelude::*;
use crate::facet::{DeepValue, Facet};
use crate::float::F32;
use crate::json::Json;
use vstd::std_specs::cmp::PartialEqSpecImpl;
use crate::animation::{Animation, Transition};
use crate::canvas::{CanvasSpec};
use crate::scene3d::{Scene3DSpec};
use crate::style::{Color, ImageFit, Style};

verus! {

#[derive(Debug, Clone, Copy, PartialEq, Eq, Structural, Default)]
pub enum TextAlign {
    #[default]
    Start,
    Center,
    End,
    Justify,
}

impl TextAlign {
    /// The position of the variant in the declaration.
    pub open spec fn variant(&self) -> nat {
        match self {
            TextAlign::Start => 0,
            TextAlign::Center => 1,
            TextAlign::End => 2,
            TextAlign::Justify => 3,
        }
    }
}

impl Facet for TextAlign {
    open spec fn deep(&self) -> DeepValue {
        match self {
            TextAlign::Start => DeepValue::Tag(0),
            TextAlign::Center => DeepValue::Tag(1),
            TextAlign::End => DeepValue::Tag(2),
            TextAlign::Justify => DeepValue::Tag(3),
        }
    }

    fn equals(&self, other: &Self) -> (r: bool) {
        *self == *other
    }

    fn duplicate(&self) -> (r: Self) {
        *self
    }
}

#[derive(Debug, Clone, Copy, PartialEq, Eq, Structural, Default)]
pub enum FontWeight {
    Thin,
    Light,
    #[default]
    Normal,
    Medium,
    Semibold,
    Bold,
    Black,
}

impl FontWeight {
    /// The position of the variant in the declaration.
    pub open spec fn variant(&self) -> nat {
        match self {
            FontWeight::Thin => 0,
            FontWeight::Light => 1,
            FontWeight::Normal => 2,
            FontWeight::Medium => 3,
            FontWeight::Semibold => 4,
            FontWeight::Bold => 5,
            FontWeight::Black => 6,
        }
    }
}

impl Facet for FontWeight {
    open spec fn deep(&self) -> DeepValue {
        match self {
            FontWeight::Thin => DeepValue::Tag(0),
            FontWeight::Light => DeepValue::Tag(1),
            FontWeight::Normal => DeepValue::Tag(2),
            FontWeight::Medium => DeepValue::Tag(3),
            FontWeight::Semibold => DeepValue::Tag(4),
            FontWeight::Bold => DeepValue::Tag(5),
            FontWeight::Black => DeepValue::Tag(6),
        }
    }

    fn equals(&self, other: &Self) -> (r: bool) {
        *self == *other
    }

    fn duplicate(&self) -> (r: Self) {
        *self
    }
}

#[derive(Debug, Clone, PartialEq)]
pub struct TextSpec {
    pub text: String,
    pub size: F32,
    pub weight: FontWeight,
    pub font: Option<String>,
    pub italic: bool,
    pub align: TextAlign,
    pub underline: bool,
    pub strikethrough: bool,
    pub line_height: Option<F32>,
    pub letter_spacing: Option<F32>,
    pub max_lines: u32,
    pub selectable: bool,
}

impl Facet for TextSpec {
    open spec fn deep(&self) -> DeepValue {
        crate::facet::dpair(self.text.deep(), crate::facet::dpair(self.size.deep(), crate::facet::dpair(self.weight.deep(), crate::facet::dpair(self.font.deep(), crate::facet::dpair(self.italic.deep(), crate::facet::dpair(self.align.deep(), crate::facet::dpair(self.underline.deep(), crate::facet::dpair(self.strikethrough.deep(), crate::facet::dpair(self.line_height.deep(), crate::facet::dpair(self.letter_spacing.deep(), crate::facet::dpair(self.max_lines.deep(), self.selectable.deep())))))))))))
    }

    fn equals(&self, other: &Self) -> (r: bool) {
        let e0 = self.text.equals(&other.text);
        let e1 = self.size.equals(&other.size);
        let e2 = self.weight.equals(&other.weight);
        let e3 = self.font.equals(&other.font);
        let e4 = self.italic.equals(&other.italic);
        let e5 = self.align.equals(&other.align);
        let e6 = self.underline.equals(&other.underline);
        let e7 = self.strikethrough.equals(&other.strikethrough);
        let e8 = self.line_height.equals(&other.line_height);
        let e9 = self.letter_spacing.equals(&other.letter_spacing);
        let e10 = self.max_lines.equals(&other.max_lines);
        let e11 = self.selectable.equals(&other.selectable);
        proof {
            assert(crate::facet::deep_eq(crate::facet::dpair(self.max_lines.deep(), self.selectable.deep()), crate::facet::dpair(other.max_lines.deep(), other.selectable.deep())) == (e10 && e11));
            assert(crate::facet::deep_eq(crate::facet::dpair(self.letter_spacing.deep(), crate::facet::dpair(self.max_lines.deep(), self.selectable.deep())), crate::facet::dpair(other.letter_spacing.deep(), crate::facet::dpair(other.max_lines.deep(), other.selectable.deep()))) == (e9 && e10 && e11));
            assert(crate::facet::deep_eq(crate::facet::dpair(self.line_height.deep(), crate::facet::dpair(self.letter_spacing.deep(), crate::facet::dpair(self.max_lines.deep(), self.selectable.deep()))), crate::facet::dpair(other.line_height.deep(), crate::facet::dpair(other.letter_spacing.deep(), crate::facet::dpair(other.max_lines.deep(), other.selectable.deep())))) == (e8 && e9 && e10 && e11));
            assert(crate::facet::deep_eq(crate::facet::dpair(self.strikethrough.deep(), crate::facet::dpair(self.line_height.deep(), crate::facet::dpair(self.letter_spacing.deep(), crate::facet::dpair(self.max_lines.deep(), self.selectable.deep())))), crate::facet::dpair(other.strikethrough.deep(), crate::facet::dpair(other.line_height.deep(), crate::facet::dpair(other.letter_spacing.deep(), crate::facet::dpair(other.max_lines.deep(), other.selectable.deep()))))) == (e7 && e8 && e9 && e10 && e11));
            assert(crate::facet::deep_eq(crate::facet::dpair(self.underline.deep(), crate::facet::dpair(self.strikethrough.deep(), crate::facet::dpair(self.line_height.deep(), crate::facet::dpair(self.letter_spacing.deep(), crate::facet::dpair(self.max_lines.deep(), self.selectable.deep()))))), crate::facet::dpair(other.underline.deep(), crate::facet::dpair(other.strikethrough.deep(), crate::facet::dpair(other.line_height.deep(), crate::facet::dpair(other.letter_spacing.deep(), crate::facet::dpair(other.max_lines.deep(), other.selectable.deep())))))) == (e6 && e7 && e8 && e9 && e10 && e11));
            assert(crate::facet::deep_eq(crate::facet::dpair(self.align.deep(), crate::facet::dpair(self.underline.deep(), crate::facet::dpair(self.strikethrough.deep(), crate::facet::dpair(self.line_height.deep(), crate::facet::dpair(self.letter_spacing.deep(), crate::facet::dpair(self.max_lines.deep(), self.selectable.deep())))))), crate::facet::dpair(other.align.deep(), crate::facet::dpair(other.underline.deep(), crate::facet::dpair(other.strikethrough.deep(), crate::facet::dpair(other.line_height.deep(), crate::facet::dpair(other.letter_spacing.deep(), crate::facet::dpair(other.max_lines.deep(), other.selectable.deep()))))))) == (e5 && e6 && e7 && e8 && e9 && e10 && e11));
            assert(crate::facet::deep_eq(crate::facet::dpair(self.italic.deep(), crate::facet::dpair(self.align.deep(), crate::facet::dpair(self.underline.deep(), crate::facet::dpair(self.strikethrough.deep(), crate::facet::dpair(self.line_height.deep(), crate::facet::dpair(self.letter_spacing.deep(), crate::facet::dpair(self.max_lines.deep(), self.selectable.deep()))))))), crate::facet::dpair(other.italic.deep(), crate::facet::dpair(other.align.deep(), crate::facet::dpair(other.underline.deep(), crate::facet::dpair(other.strikethrough.deep(), crate::facet::dpair(other.line_height.deep(), crate::facet::dpair(other.letter_spacing.deep(), crate::facet::dpair(other.max_lines.deep(), other.selectable.deep())))))))) == (e4 && e5 && e6 && e7 && e8 && e9 && e10 && e11));
            assert(crate::facet::deep_eq(crate::facet::dpair(self.font.deep(), crate::facet::dpair(self.italic.deep(), crate::facet::dpair(self.align.deep(), crate::facet::dpair(self.underline.deep(), crate::facet::dpair(self.strikethrough.deep(), crate::facet::dpair(self.line_height.deep(), crate::facet::dpair(self.letter_spacing.deep(), crate::facet::dpair(self.max_lines.deep(), self.selectable.deep())))))))), crate::facet::dpair(other.font.deep(), crate::facet::dpair(other.italic.deep(), crate::facet::dpair(other.align.deep(), crate::facet::dpair(other.underline.deep(), crate::facet::dpair(other.strikethrough.deep(), crate::facet::dpair(other.line_height.deep(), crate::facet::dpair(other.letter_spacing.deep(), crate::facet::dpair(other.max_lines.deep(), other.selectable.deep()))))))))) == (e3 && e4 && e5 && e6 && e7 && e8 && e9 && e10 && e11));
            assert(crate::facet::deep_eq(crate::facet::dpair(self.weight.deep(), crate::facet::dpair(self.font.deep(), crate::facet::dpair(self.italic.deep(), crate::facet::dpair(self.align.deep(), crate::facet::dpair(self.underline.deep(), crate::facet::dpair(self.strikethrough.deep(), crate::facet::dpair(self.line_height.deep(), crate::facet::dpair(self.letter_spacing.deep(), crate::facet::dpair(self.max_lines.deep(), self.selectable.deep()))))))))), crate::facet::dpair(other.weight.deep(), crate::facet::dpair(other.font.deep(), crate::facet::dpair(other.italic.deep(), crate::facet::dpair(other.align.deep(), crate::facet::dpair(other.underline.deep(), crate::facet::dpair(other.strikethrough.deep(), crate::facet::dpair(other.line_height.deep(), crate::facet::dpair(other.letter_spacing.deep(), crate::facet::dpair(other.max_lines.deep(), other.selectable.deep())))))))))) == (e2 && e3 && e4 && e5 && e6 && e7 && e8 && e9 && e10 && e11));
            assert(crate::facet::deep_eq(crate::facet::dpair(self.size.deep(), crate::facet::dpair(self.weight.deep(), crate::facet::dpair(self.font.deep(), crate::facet::dpair(self.italic.deep(), crate::facet::dpair(self.align.deep(), crate::facet::dpair(self.underline.deep(), crate::facet::dpair(self.strikethrough.deep(), crate::facet::dpair(self.line_height.deep(), crate::facet::dpair(self.letter_spacing.deep(), crate::facet::dpair(self.max_lines.deep(), self.selectable.deep())))))))))), crate::facet::dpair(other.size.deep(), crate::facet::dpair(other.weight.deep(), crate::facet::dpair(other.font.deep(), crate::facet::dpair(other.italic.deep(), crate::facet::dpair(other.align.deep(), crate::facet::dpair(other.underline.deep(), crate::facet::dpair(other.strikethrough.deep(), crate::facet::dpair(other.line_height.deep(), crate::facet::dpair(other.letter_spacing.deep(), crate::facet::dpair(other.max_lines.deep(), other.selectable.deep()))))))))))) == (e1 && e2 && e3 && e4 && e5 && e6 && e7 && e8 && e9 && e10 && e11));
            assert(crate::facet::deep_eq(crate::facet::dpair(self.text.deep(), crate::facet::dpair(self.size.deep(), crate::facet::dpair(self.weight.deep(), crate::facet::dpair(self.font.deep(), crate::facet::dpair(self.italic.deep(), crate::facet::dpair(self.align.deep(), crate::facet::dpair(self.underline.deep(), crate::facet::dpair(self.strikethrough.deep(), crate::facet::dpair(self.line_height.deep(), crate::facet::dpair(self.letter_spacing.deep(), crate::facet::dpair(self.max_lines.deep(), self.selectable.deep()))))))))))), crate::facet::dpair(other.text.deep(), crate::facet::dpair(other.size.deep(), crate::facet::dpair(other.weight.deep(), crate::facet::dpair(other.font.deep(), crate::facet::dpair(other.italic.deep(), crate::facet::dpair(other.align.deep(), crate::facet::dpair(other.underline.deep(), crate::facet::dpair(other.strikethrough.deep(), crate::facet::dpair(other.line_height.deep(), crate::facet::dpair(other.letter_spacing.deep(), crate::facet::dpair(other.max_lines.deep(), other.selectable.deep())))))))))))) == (e0 && e1 && e2 && e3 && e4 && e5 && e6 && e7 && e8 && e9 && e10 && e11));
        }
        e0 && e1 && e2 && e3 && e4 && e5 && e6 && e7 && e8 && e9 && e10 && e11
    }

    fn duplicate(&self) -> (r: Self) {
        TextSpec { text: self.text.duplicate(), size: self.size.duplicate(), weight: self.weight.duplicate(), font: self.font.duplicate(), italic: self.italic.duplicate(), align: self.align.duplicate(), underline: self.underline.duplicate(), strikethrough: self.strikethrough.duplicate(), line_height: self.line_height.duplicate(), letter_spacing: self.letter_spacing.duplicate(), max_lines: self.max_lines.duplicate(), selectable: self.selectable.duplicate() }
    }
}

#[derive(Debug, Clone, PartialEq)]
pub struct TextRun {
    pub text: String,
    pub size: Option<F32>,
    pub weight: FontWeight,
    pub italic: bool,
    pub underline: bool,
    pub color: Option<Color>,
    pub link: Option<String>,
}

impl Facet for TextRun {
    open spec fn deep(&self) -> DeepValue {
        crate::facet::dpair(self.text.deep(), crate::facet::dpair(self.size.deep(), crate::facet::dpair(self.weight.deep(), crate::facet::dpair(self.italic.deep(), crate::facet::dpair(self.underline.deep(), crate::facet::dpair(self.color.deep(), self.link.deep()))))))
    }

    fn equals(&self, other: &Self) -> (r: bool) {
        let e0 = self.text.equals(&other.text);
        let e1 = self.size.equals(&other.size);
        let e2 = self.weight.equals(&other.weight);
        let e3 = self.italic.equals(&other.italic);
        let e4 = self.underline.equals(&other.underline);
        let e5 = self.color.equals(&other.color);
        let e6 = self.link.equals(&other.link);
        proof {
            assert(crate::facet::deep_eq(crate::facet::dpair(self.color.deep(), self.link.deep()), crate::facet::dpair(other.color.deep(), other.link.deep())) == (e5 && e6));
            assert(crate::facet::deep_eq(crate::facet::dpair(self.underline.deep(), crate::facet::dpair(self.color.deep(), self.link.deep())), crate::facet::dpair(other.underline.deep(), crate::facet::dpair(other.color.deep(), other.link.deep()))) == (e4 && e5 && e6));
            assert(crate::facet::deep_eq(crate::facet::dpair(self.italic.deep(), crate::facet::dpair(self.underline.deep(), crate::facet::dpair(self.color.deep(), self.link.deep()))), crate::facet::dpair(other.italic.deep(), crate::facet::dpair(other.underline.deep(), crate::facet::dpair(other.color.deep(), other.link.deep())))) == (e3 && e4 && e5 && e6));
            assert(crate::facet::deep_eq(crate::facet::dpair(self.weight.deep(), crate::facet::dpair(self.italic.deep(), crate::facet::dpair(self.underline.deep(), crate::facet::dpair(self.color.deep(), self.link.deep())))), crate::facet::dpair(other.weight.deep(), crate::facet::dpair(other.italic.deep(), crate::facet::dpair(other.underline.deep(), crate::facet::dpair(other.color.deep(), other.link.deep()))))) == (e2 && e3 && e4 && e5 && e6));
            assert(crate::facet::deep_eq(crate::facet::dpair(self.size.deep(), crate::facet::dpair(self.weight.deep(), crate::facet::dpair(self.italic.deep(), crate::facet::dpair(self.underline.deep(), crate::facet::dpair(self.color.deep(), self.link.deep()))))), crate::facet::dpair(other.size.deep(), crate::facet::dpair(other.weight.deep(), crate::facet::dpair(other.italic.deep(), crate::facet::dpair(other.underline.deep(), crate::facet::dpair(other.color.deep(), other.link.deep())))))) == (e1 && e2 && e3 && e4 && e5 && e6));
            assert(crate::facet::deep_eq(crate::facet::dpair(self.text.deep(), crate::facet::dpair(self.size.deep(), crate::facet::dpair(self.weight.deep(), crate::facet::dpair(self.italic.deep(), crate::facet::dpair(self.underline.deep(), crate::facet::dpair(self.color.deep(), self.link.deep())))))), crate::facet::dpair(other.text.deep(), crate::facet::dpair(other.size.deep(), crate::facet::dpair(other.weight.deep(), crate::facet::dpair(other.italic.deep(), crate::facet::dpair(other.underline.deep(), crate::facet::dpair(other.color.deep(), other.link.deep()))))))) == (e0 && e1 && e2 && e3 && e4 && e5 && e6));
        }
        e0 && e1 && e2 && e3 && e4 && e5 && e6
    }

    fn duplicate(&self) -> (r: Self) {
        TextRun { text: self.text.duplicate(), size: self.size.duplicate(), weight: self.weight.duplicate(), italic: self.italic.duplicate(), underline: self.underline.duplicate(), color: self.color.duplicate(), link: self.link.duplicate() }
    }
}

#[derive(Debug, Clone, PartialEq)]
pub struct RichTextSpec {
    pub runs: Vec<TextRun>,
    pub align: TextAlign,
    pub line_height: Option<F32>,
}

impl Facet for RichTextSpec {
    open spec fn deep(&self) -> DeepValue {
        crate::facet::dpair(self.runs.deep(), crate::facet::dpair(self.align.deep(), self.line_height.deep()))
    }

    fn equals(&self, other: &Self) -> (r: bool) {
        let e0 = self.runs.equals(&other.runs);
        let e1 = self.align.equals(&other.align);
        let e2 = self.line_height.equals(&other.line_height);
        proof {
            assert(crate::facet::deep_eq(crate::facet::dpair(self.align.deep(), self.line_height.deep()), crate::facet::dpair(other.align.deep(), other.line_height.deep())) == (e1 && e2));
            assert(crate::facet::deep_eq(crate::facet::dpair(self.runs.deep(), crate::facet::dpair(self.align.deep(), self.line_height.deep())), crate::facet::dpair(other.runs.deep(), crate::facet::dpair(other.align.deep(), other.line_height.deep()))) == (e0 && e1 && e2));
        }
        e0 && e1 && e2
    }

    fn duplicate(&self) -> (r: Self) {
        RichTextSpec { runs: self.runs.duplicate(), align: self.align.duplicate(), line_height: self.line_height.duplicate() }
    }
}

#[derive(Debug, Clone, PartialEq)]
pub struct MarkdownSpec {
    pub source: String,
    pub gfm: bool,
}

impl Facet for MarkdownSpec {
    open spec fn deep(&self) -> DeepValue {
        crate::facet::dpair(self.source.deep(), self.gfm.deep())
    }

    fn equals(&self, other: &Self) -> (r: bool) {
        let e0 = self.source.equals(&other.source);
        let e1 = self.gfm.equals(&other.gfm);
        proof {
            assert(crate::facet::deep_eq(crate::facet::dpair(self.source.deep(), self.gfm.deep()), crate::facet::dpair(other.source.deep(), other.gfm.deep())) == (e0 && e1));
        }
        e0 && e1
    }

    fn duplicate(&self) -> (r: Self) {
        MarkdownSpec { source: self.source.duplicate(), gfm: self.gfm.duplicate() }
    }
}

#[derive(Debug, Clone, PartialEq)]
pub struct ImageSpec {
    pub src: String,
    pub fit: ImageFit,
    pub alt: Option<String>,
    pub placeholder: Option<String>,
}

impl Facet for ImageSpec {
    open spec fn deep(&self) -> DeepValue {
        crate::facet::dpair(self.src.deep(), crate::facet::dpair(self.fit.deep(), crate::facet::dpair(self.alt.deep(), self.placeholder.deep())))
    }

    fn equals(&self, other: &Self) -> (r: bool) {
        let e0 = self.src.equals(&other.src);
        let e1 = self.fit.equals(&other.fit);
        let e2 = self.alt.equals(&other.alt);
        let e3 = self.placeholder.equals(&other.placeholder);
        proof {
            assert(crate::facet::deep_eq(crate::facet::dpair(self.alt.deep(), self.placeholder.deep()), crate::facet::dpair(other.alt.deep(), other.placeholder.deep())) == (e2 && e3));
            assert(crate::facet::deep_eq(crate::facet::dpair(self.fit.deep(), crate::facet::dpair(self.alt.deep(), self.placeholder.deep())), crate::facet::dpair(other.fit.deep(), crate::facet::dpair(other.alt.deep(), other.placeholder.deep()))) == (e1 && e2 && e3));
            assert(crate::facet::deep_eq(crate::facet::dpair(self.src.deep(), crate::facet::dpair(self.fit.deep(), crate::facet::dpair(self.alt.deep(), self.placeholder.deep()))), crate::facet::dpair(other.src.deep(), crate::facet::dpair(other.fit.deep(), crate::facet::dpair(other.alt.deep(), other.placeholder.deep())))) == (e0 && e1 && e2 && e3));
        }
        e0 && e1 && e2 && e3
    }

    fn duplicate(&self) -> (r: Self) {
        ImageSpec { src: self.src.duplicate(), fit: self.fit.duplicate(), alt: self.alt.duplicate(), placeholder: self.placeholder.duplicate() }
    }
}

#[derive(Debug, Clone, PartialEq)]
pub struct SvgSpec {
    pub source: Option<String>,
    pub src: Option<String>,
    pub color: Option<Color>,
}

impl Facet for SvgSpec {
    open spec fn deep(&self) -> DeepValue {
        crate::facet::dpair(self.source.deep(), crate::facet::dpair(self.src.deep(), self.color.deep()))
    }

    fn equals(&self, other: &Self) -> (r: bool) {
        let e0 = self.source.equals(&other.source);
        let e1 = self.src.equals(&other.src);
        let e2 = self.color.equals(&other.color);
        proof {
            assert(crate::facet::deep_eq(crate::facet::dpair(self.src.deep(), self.color.deep()), crate::facet::dpair(other.src.deep(), other.color.deep())) == (e1 && e2));
            assert(crate::facet::deep_eq(crate::facet::dpair(self.source.deep(), crate::facet::dpair(self.src.deep(), self.color.deep())), crate::facet::dpair(other.source.deep(), crate::facet::dpair(other.src.deep(), other.color.deep()))) == (e0 && e1 && e2));
        }
        e0 && e1 && e2
    }

    fn duplicate(&self) -> (r: Self) {
        SvgSpec { source: self.source.duplicate(), src: self.src.duplicate(), color: self.color.duplicate() }
    }
}

#[derive(Debug, Clone, PartialEq)]
pub struct IconSpec {
    pub name: String,
    pub size: F32,
    pub color: Option<Color>,
    pub set: Option<String>,
}

impl Facet for IconSpec {
    open spec fn deep(&self) -> DeepValue {
        crate::facet::dpair(self.name.deep(), crate::facet::dpair(self.size.deep(), crate::facet::dpair(self.color.deep(), self.set.deep())))
    }

    fn equals(&self, other: &Self) -> (r: bool) {
        let e0 = self.name.equals(&other.name);
        let e1 = self.size.equals(&other.size);
        let e2 = self.color.equals(&other.color);
        let e3 = self.set.equals(&other.set);
        proof {
            assert(crate::facet::deep_eq(crate::facet::dpair(self.color.deep(), self.set.deep()), crate::facet::dpair(other.color.deep(), other.set.deep())) == (e2 && e3));
            assert(crate::facet::deep_eq(crate::facet::dpair(self.size.deep(), crate::facet::dpair(self.color.deep(), self.set.deep())), crate::facet::dpair(other.size.deep(), crate::facet::dpair(other.color.deep(), other.set.deep()))) == (e1 && e2 && e3));
            assert(crate::facet::deep_eq(crate::facet::dpair(self.name.deep(), crate::facet::dpair(self.size.deep(), crate::facet::dpair(self.color.deep(), self.set.deep()))), crate::facet::dpair(other.name.deep(), crate::facet::dpair(other.size.deep(), crate::facet::dpair(other.color.deep(), other.set.deep())))) == (e0 && e1 && e2 && e3));
        }
        e0 && e1 && e2 && e3
    }

    fn duplicate(&self) -> (r: Self) {
        IconSpec { name: self.name.duplicate(), size: self.size.duplicate(), color: self.color.duplicate(), set: self.set.duplicate() }
    }
}

#[derive(Debug, Clone, PartialEq)]
pub struct ButtonSpec {
    pub label: String,
    pub variant: Option<String>,
    pub disabled: bool,
    pub icon: Option<String>,
    pub loading: bool,
}

impl Facet for ButtonSpec {
    open spec fn deep(&self) -> DeepValue {
        crate::facet::dpair(self.label.deep(), crate::facet::dpair(self.variant.deep(), crate::facet::dpair(self.disabled.deep(), crate::facet::dpair(self.icon.deep(), self.loading.deep()))))
    }

    fn equals(&self, other: &Self) -> (r: bool) {
        let e0 = self.label.equals(&other.label);
        let e1 = self.variant.equals(&other.variant);
        let e2 = self.disabled.equals(&other.disabled);
        let e3 = self.icon.equals(&other.icon);
        let e4 = self.loading.equals(&other.loading);
        proof {
            assert(crate::facet::deep_eq(crate::facet::dpair(self.icon.deep(), self.loading.deep()), crate::facet::dpair(other.icon.deep(), other.loading.deep())) == (e3 && e4));
            assert(crate::facet::deep_eq(crate::facet::dpair(self.disabled.deep(), crate::facet::dpair(self.icon.deep(), self.loading.deep())), crate::facet::dpair(other.disabled.deep(), crate::facet::dpair(other.icon.deep(), other.loading.deep()))) == (e2 && e3 && e4));
            assert(crate::facet::deep_eq(crate::facet::dpair(self.variant.deep(), crate::facet::dpair(self.disabled.deep(), crate::facet::dpair(self.icon.deep(), self.loading.deep()))), crate::facet::dpair(other.variant.deep(), crate::facet::dpair(other.disabled.deep(), crate::facet::dpair(other.icon.deep(), other.loading.deep())))) == (e1 && e2 && e3 && e4));
            assert(crate::facet::deep_eq(crate::facet::dpair(self.label.deep(), crate::facet::dpair(self.variant.deep(), crate::facet::dpair(self.disabled.deep(), crate::facet::dpair(self.icon.deep(), self.loading.deep())))), crate::facet::dpair(other.label.deep(), crate::facet::dpair(other.variant.deep(), crate::facet::dpair(other.disabled.deep(), crate::facet::dpair(other.icon.deep(), other.loading.deep()))))) == (e0 && e1 && e2 && e3 && e4));
        }
        e0 && e1 && e2 && e3 && e4
    }

    fn duplicate(&self) -> (r: Self) {
        ButtonSpec { label: self.label.duplicate(), variant: self.variant.duplicate(), disabled: self.disabled.duplicate(), icon: self.icon.duplicate(), loading: self.loading.duplicate() }
    }
}

#[derive(Debug, Clone, PartialEq)]
pub struct InputSpec {
    pub value: String,
    pub placeholder: Option<String>,
    pub input_type: Option<String>,
    pub disabled: bool,
    pub readonly: bool,
    pub max_length: Option<u32>,
    pub autofocus: bool,
}

impl Facet for InputSpec {
    open spec fn deep(&self) -> DeepValue {
        crate::facet::dpair(self.value.deep(), crate::facet::dpair(self.placeholder.deep(), crate::facet::dpair(self.input_type.deep(), crate::facet::dpair(self.disabled.deep(), crate::facet::dpair(self.readonly.deep(), crate::facet::dpair(self.max_length.deep(), self.autofocus.deep()))))))
    }

    fn equals(&self, other: &Self) -> (r: bool) {
        let e0 = self.value.equals(&other.value);
        let e1 = self.placeholder.equals(&other.placeholder);
        let e2 = self.input_type.equals(&other.input_type);
        let e3 = self.disabled.equals(&other.disabled);
        let e4 = self.readonly.equals(&other.readonly);
        let e5 = self.max_length.equals(&other.max_length);
        let e6 = self.autofocus.equals(&other.autofocus);
        proof {
            assert(crate::facet::deep_eq(crate::facet::dpair(self.max_length.deep(), self.autofocus.deep()), crate::facet::dpair(other.max_length.deep(), other.autofocus.deep())) == (e5 && e6));
            assert(crate::facet::deep_eq(crate::facet::dpair(self.readonly.deep(), crate::facet::dpair(self.max_length.deep(), self.autofocus.deep())), crate::facet::dpair(other.readonly.deep(), crate::facet::dpair(other.max_length.deep(), other.autofocus.deep()))) == (e4 && e5 && e6));
            assert(crate::facet::deep_eq(crate::facet::dpair(self.disabled.deep(), crate::facet::dpair(self.readonly.deep(), crate::facet::dpair(self.max_length.deep(), self.autofocus.deep()))), crate::facet::dpair(other.disabled.deep(), crate::facet::dpair(other.readonly.deep(), crate::facet::dpair(other.max_length.deep(), other.autofocus.deep())))) == (e3 && e4 && e5 && e6));
            assert(crate::facet::deep_eq(crate::facet::dpair(self.input_type.deep(), crate::facet::dpair(self.disabled.deep(), crate::facet::dpair(self.readonly.deep(), crate::facet::dpair(self.max_length.deep(), self.autofocus.deep())))), crate::facet::dpair(other.input_type.deep(), crate::facet::dpair(other.disabled.deep(), crate::facet::dpair(other.readonly.deep(), crate::facet::dpair(other.max_length.deep(), other.autofocus.deep()))))) == (e2 && e3 && e4 && e5 && e6));
            assert(crate::facet::deep_eq(crate::facet::dpair(self.placeholder.deep(), crate::facet::dpair(self.input_type.deep(), crate::facet::dpair(self.disabled.deep(), crate::facet::dpair(self.readonly.deep(), crate::facet::dpair(self.max_length.deep(), self.autofocus.deep()))))), crate::facet::dpair(other.placeholder.deep(), crate::facet::dpair(other.input_type.deep(), crate::facet::dpair(other.disabled.deep(), crate::facet::dpair(other.readonly.deep(), crate::facet::dpair(other.max_length.deep(), other.autofocus.deep())))))) == (e1 && e2 && e3 && e4 && e5 && e6));
            assert(crate::facet::deep_eq(crate::facet::dpair(self.value.deep(), crate::facet::dpair(self.placeholder.deep(), crate::facet::dpair(self.input_type.deep(), crate::facet::dpair(self.disabled.deep(), crate::facet::dpair(self.readonly.deep(), crate::facet::dpair(self.max_length.deep(), self.autofocus.deep())))))), crate::facet::dpair(other.value.deep(), crate::facet::dpair(other.placeholder.deep(), crate::facet::dpair(other.input_type.deep(), crate::facet::dpair(other.disabled.deep(), crate::facet::dpair(other.readonly.deep(), crate::facet::dpair(other.max_length.deep(), other.autofocus.deep()))))))) == (e0 && e1 && e2 && e3 && e4 && e5 && e6));
        }
        e0 && e1 && e2 && e3 && e4 && e5 && e6
    }

    fn duplicate(&self) -> (r: Self) {
        InputSpec { value: self.value.duplicate(), placeholder: self.placeholder.duplicate(), input_type: self.input_type.duplicate(), disabled: self.disabled.duplicate(), readonly: self.readonly.duplicate(), max_length: self.max_length.duplicate(), autofocus: self.autofocus.duplicate() }
    }
}

#[derive(Debug, Clone, PartialEq)]
pub struct ToggleSpec {
    pub checked: bool,
    pub label: Option<String>,
    pub disabled: bool,
}

impl Facet for ToggleSpec {
    open spec fn deep(&self) -> DeepValue {
        crate::facet::dpair(self.checked.deep(), crate::facet::dpair(self.label.deep(), self.disabled.deep()))
    }

    fn equals(&self, other: &Self) -> (r: bool) {
        let e0 = self.checked.equals(&other.checked);
        let e1 = self.label.equals(&other.label);
        let e2 = self.disabled.equals(&other.disabled);
        proof {
            assert(crate::facet::deep_eq(crate::facet::dpair(self.label.deep(), self.disabled.deep()), crate::facet::dpair(other.label.deep(), other.disabled.deep())) == (e1 && e2));
            assert(crate::facet::deep_eq(crate::facet::dpair(self.checked.deep(), crate::facet::dpair(self.label.deep(), self.disabled.deep())), crate::facet::dpair(other.checked.deep(), crate::facet::dpair(other.label.deep(), other.disabled.deep()))) == (e0 && e1 && e2));
        }
        e0 && e1 && e2
    }

    fn duplicate(&self) -> (r: Self) {
        ToggleSpec { checked: self.checked.duplicate(), label: self.label.duplicate(), disabled: self.disabled.duplicate() }
    }
}

#[derive(Debug, Clone, PartialEq)]
pub struct RadioSpec {
    pub options: Vec<OptionItem>,
    pub selected: Option<String>,
    pub disabled: bool,
}

impl Facet for RadioSpec {
    open spec fn deep(&self) -> DeepValue {
        crate::facet::dpair(self.options.deep(), crate::facet::dpair(self.selected.deep(), self.disabled.deep()))
    }

    fn equals(&self, other: &Self) -> (r: bool) {
        let e0 = self.options.equals(&other.options);
        let e1 = self.selected.equals(&other.selected);
        let e2 = self.disabled.equals(&other.disabled);
        proof {
            assert(crate::facet::deep_eq(crate::facet::dpair(self.selected.deep(), self.disabled.deep()), crate::facet::dpair(other.selected.deep(), other.disabled.deep())) == (e1 && e2));
            assert(crate::facet::deep_eq(crate::facet::dpair(self.options.deep(), crate::facet::dpair(self.selected.deep(), self.disabled.deep())), crate::facet::dpair(other.options.deep(), crate::facet::dpair(other.selected.deep(), other.disabled.deep()))) == (e0 && e1 && e2));
        }
        e0 && e1 && e2
    }

    fn duplicate(&self) -> (r: Self) {
        RadioSpec { options: self.options.duplicate(), selected: self.selected.duplicate(), disabled: self.disabled.duplicate() }
    }
}

#[derive(Debug, Clone, PartialEq)]
pub struct OptionItem {
    pub value: String,
    pub label: String,
    pub disabled: bool,
}

impl Facet for OptionItem {
    open spec fn deep(&self) -> DeepValue {
        crate::facet::dpair(self.value.deep(), crate::facet::dpair(self.label.deep(), self.disabled.deep()))
    }

    fn equals(&self, other: &Self) -> (r: bool) {
        let e0 = self.value.equals(&other.value);
        let e1 = self.label.equals(&other.label);
        let e2 = self.disabled.equals(&other.disabled);
        proof {
            assert(crate::facet::deep_eq(crate::facet::dpair(self.label.deep(), self.disabled.deep()), crate::facet::dpair(other.label.deep(), other.disabled.deep())) == (e1 && e2));
            assert(crate::facet::deep_eq(crate::facet::dpair(self.value.deep(), crate::facet::dpair(self.label.deep(), self.disabled.deep())), crate::facet::dpair(other.value.deep(), crate::facet::dpair(other.label.deep(), other.disabled.deep()))) == (e0 && e1 && e2));
        }
        e0 && e1 && e2
    }

    fn duplicate(&self) -> (r: Self) {
        OptionItem { value: self.value.duplicate(), label: self.label.duplicate(), disabled: self.disabled.duplicate() }
    }
}

#[derive(Debug, Clone, PartialEq)]
pub struct SliderSpec {
    pub value: F32,
    pub min: F32,
    pub max: F32,
    pub step: Option<F32>,
    pub disabled: bool,
    pub value_end: Option<F32>,
}

impl Facet for SliderSpec {
    open spec fn deep(&self) -> DeepValue {
        crate::facet::dpair(self.value.deep(), crate::facet::dpair(self.min.deep(), crate::facet::dpair(self.max.deep(), crate::facet::dpair(self.step.deep(), crate::facet::dpair(self.disabled.deep(), self.value_end.deep())))))
    }

    fn equals(&self, other: &Self) -> (r: bool) {
        let e0 = self.value.equals(&other.value);
        let e1 = self.min.equals(&other.min);
        let e2 = self.max.equals(&other.max);
        let e3 = self.step.equals(&other.step);
        let e4 = self.disabled.equals(&other.disabled);
        let e5 = self.value_end.equals(&other.value_end);
        proof {
            assert(crate::facet::deep_eq(crate::facet::dpair(self.disabled.deep(), self.value_end.deep()), crate::facet::dpair(other.disabled.deep(), other.value_end.deep())) == (e4 && e5));
            assert(crate::facet::deep_eq(crate::facet::dpair(self.step.deep(), crate::facet::dpair(self.disabled.deep(), self.value_end.deep())), crate::facet::dpair(other.step.deep(), crate::facet::dpair(other.disabled.deep(), other.value_end.deep()))) == (e3 && e4 && e5));
            assert(crate::facet::deep_eq(crate::facet::dpair(self.max.deep(), crate::facet::dpair(self.step.deep(), crate::facet::dpair(self.disabled.deep(), self.value_end.deep()))), crate::facet::dpair(other.max.deep(), crate::facet::dpair(other.step.deep(), crate::facet::dpair(other.disabled.deep(), other.value_end.deep())))) == (e2 && e3 && e4 && e5));
            assert(crate::facet::deep_eq(crate::facet::dpair(self.min.deep(), crate::facet::dpair(self.max.deep(), crate::facet::dpair(self.step.deep(), crate::facet::dpair(self.disabled.deep(), self.value_end.deep())))), crate::facet::dpair(other.min.deep(), crate::facet::dpair(other.max.deep(), crate::facet::dpair(other.step.deep(), crate::facet::dpair(other.disabled.deep(), other.value_end.deep()))))) == (e1 && e2 && e3 && e4 && e5));
            assert(crate::facet::deep_eq(crate::facet::dpair(self.value.deep(), crate::facet::dpair(self.min.deep(), crate::facet::dpair(self.max.deep(), crate::facet::dpair(self.step.deep(), crate::facet::dpair(self.disabled.deep(), self.value_end.deep()))))), crate::facet::dpair(other.value.deep(), crate::facet::dpair(other.min.deep(), crate::facet::dpair(other.max.deep(), crate::facet::dpair(other.step.deep(), crate::facet::dpair(other.disabled.deep(), other.value_end.deep())))))) == (e0 && e1 && e2 && e3 && e4 && e5));
        }
        e0 && e1 && e2 && e3 && e4 && e5
    }

    fn duplicate(&self) -> (r: Self) {
        SliderSpec { value: self.value.duplicate(), min: self.min.duplicate(), max: self.max.duplicate(), step: self.step.duplicate(), disabled: self.disabled.duplicate(), value_end: self.value_end.duplicate() }
    }
}

#[derive(Debug, Clone, PartialEq)]
pub struct DropdownSpec {
    pub options: Vec<OptionItem>,
    pub selected: Option<String>,
    pub placeholder: Option<String>,
    pub disabled: bool,
    pub multi: bool,
}

impl Facet for DropdownSpec {
    open spec fn deep(&self) -> DeepValue {
        crate::facet::dpair(self.options.deep(), crate::facet::dpair(self.selected.deep(), crate::facet::dpair(self.placeholder.deep(), crate::facet::dpair(self.disabled.deep(), self.multi.deep()))))
    }

    fn equals(&self, other: &Self) -> (r: bool) {
        let e0 = self.options.equals(&other.options);
        let e1 = self.selected.equals(&other.selected);
        let e2 = self.placeholder.equals(&other.placeholder);
        let e3 = self.disabled.equals(&other.disabled);
        let e4 = self.multi.equals(&other.multi);
        proof {
            assert(crate::facet::deep_eq(crate::facet::dpair(self.disabled.deep(), self.multi.deep()), crate::facet::dpair(other.disabled.deep(), other.multi.deep())) == (e3 && e4));
            assert(crate::facet::deep_eq(crate::facet::dpair(self.placeholder.deep(), crate::facet::dpair(self.disabled.deep(), self.multi.deep())), crate::facet::dpair(other.placeholder.deep(), crate::facet::dpair(other.disabled.deep(), other.multi.deep()))) == (e2 && e3 && e4));
            assert(crate::facet::deep_eq(crate::facet::dpair(self.selected.deep(), crate::facet::dpair(self.placeholder.deep(), crate::facet::dpair(self.disabled.deep(), self.multi.deep()))), crate::facet::dpair(other.selected.deep(), crate::facet::dpair(other.placeholder.deep(), crate::facet::dpair(other.disabled.deep(), other.multi.deep())))) == (e1 && e2 && e3 && e4));
            assert(crate::facet::deep_eq(crate::facet::dpair(self.options.deep(), crate::facet::dpair(self.selected.deep(), crate::facet::dpair(self.placeholder.deep(), crate::facet::dpair(self.disabled.deep(), self.multi.deep())))), crate::facet::dpair(other.options.deep(), crate::facet::dpair(other.selected.deep(), crate::facet::dpair(other.placeholder.deep(), crate::facet::dpair(other.disabled.deep(), other.multi.deep()))))) == (e0 && e1 && e2 && e3 && e4));
        }
        e0 && e1 && e2 && e3 && e4
    }

    fn duplicate(&self) -> (r: Self) {
        DropdownSpec { options: self.options.duplicate(), selected: self.selected.duplicate(), placeholder: self.placeholder.duplicate(), disabled: self.disabled.duplicate(), multi: self.multi.duplicate() }
    }
}

#[derive(Debug, Clone, PartialEq)]
pub struct TabsSpec {
    pub tabs: Vec<TabItem>,
    pub selected: u32,
}

impl Facet for TabsSpec {
    open spec fn deep(&self) -> DeepValue {
        crate::facet::dpair(self.tabs.deep(), self.selected.deep())
    }

    fn equals(&self, other: &Self) -> (r: bool) {
        let e0 = self.tabs.equals(&other.tabs);
        let e1 = self.selected.equals(&other.selected);
        proof {
            assert(crate::facet::deep_eq(crate::facet::dpair(self.tabs.deep(), self.selected.deep()), crate::facet::dpair(other.tabs.deep(), other.selected.deep())) == (e0 && e1));
        }
        e0 && e1
    }

    fn duplicate(&self) -> (r: Self) {
        TabsSpec { tabs: self.tabs.duplicate(), selected: self.selected.duplicate() }
    }
}

#[derive(Debug, Clone, PartialEq)]
pub struct TabItem {
    pub label: String,
    pub icon: Option<String>,
}

impl Facet for TabItem {
    open spec fn deep(&self) -> DeepValue {
        crate::facet::dpair(self.label.deep(), self.icon.deep())
    }

    fn equals(&self, other: &Self) -> (r: bool) {
        let e0 = self.label.equals(&other.label);
        let e1 = self.icon.equals(&other.icon);
        proof {
            assert(crate::facet::deep_eq(crate::facet::dpair(self.label.deep(), self.icon.deep()), crate::facet::dpair(other.label.deep(), other.icon.deep())) == (e0 && e1));
        }
        e0 && e1
    }

    fn duplicate(&self) -> (r: Self) {
        TabItem { label: self.label.duplicate(), icon: self.icon.duplicate() }
    }
}

#[derive(Debug, Clone, PartialEq)]
pub struct CarouselSpec {
    pub index: u32,
    pub indicators: bool,
    pub autoplay: bool,
    pub interval: F32,
}

impl Facet for CarouselSpec {
    open spec fn deep(&self) -> DeepValue {
        crate::facet::dpair(self.index.deep(), crate::facet::dpair(self.indicators.deep(), crate::facet::dpair(self.autoplay.deep(), self.interval.deep())))
    }

    fn equals(&self, other: &Self) -> (r: bool) {
        let e0 = self.index.equals(&other.index);
        let e1 = self.indicators.equals(&other.indicators);
        let e2 = self.autoplay.equals(&other.autoplay);
        let e3 = self.interval.equals(&other.interval);
        proof {
            assert(crate::facet::deep_eq(crate::facet::dpair(self.autoplay.deep(), self.interval.deep()), crate::facet::dpair(other.autoplay.deep(), other.interval.deep())) == (e2 && e3));
            assert(crate::facet::deep_eq(crate::facet::dpair(self.indicators.deep(), crate::facet::dpair(self.autoplay.deep(), self.interval.deep())), crate::facet::dpair(other.indicators.deep(), crate::facet::dpair(other.autoplay.deep(), other.interval.deep()))) == (e1 && e2 && e3));
            assert(crate::facet::deep_eq(crate::facet::dpair(self.index.deep(), crate::facet::dpair(self.indicators.deep(), crate::facet::dpair(self.autoplay.deep(), self.interval.deep()))), crate::facet::dpair(other.index.deep(), crate::facet::dpair(other.indicators.deep(), crate::facet::dpair(other.autoplay.deep(), other.interval.deep())))) == (e0 && e1 && e2 && e3));
        }
        e0 && e1 && e2 && e3
    }

    fn duplicate(&self) -> (r: Self) {
        CarouselSpec { index: self.index.duplicate(), indicators: self.indicators.duplicate(), autoplay: self.autoplay.duplicate(), interval: self.interval.duplicate() }
    }
}

#[derive(Debug, Clone, PartialEq)]
pub struct ProgressSpec {
    pub value: Option<F32>,
    pub shape: Option<String>,
}

impl Facet for ProgressSpec {
    open spec fn deep(&self) -> DeepValue {
        crate::facet::dpair(self.value.deep(), self.shape.deep())
    }

    fn equals(&self, other: &Self) -> (r: bool) {
        let e0 = self.value.equals(&other.value);
        let e1 = self.shape.equals(&other.shape);
        proof {
            assert(crate::facet::deep_eq(crate::facet::dpair(self.value.deep(), self.shape.deep()), crate::facet::dpair(other.value.deep(), other.shape.deep())) == (e0 && e1));
        }
        e0 && e1
    }

    fn duplicate(&self) -> (r: Self) {
        ProgressSpec { value: self.value.duplicate(), shape: self.shape.duplicate() }
    }
}

#[derive(Debug, Clone, PartialEq)]
pub struct SpinnerSpec {
    pub size: F32,
    pub color: Option<Color>,
}

impl Facet for SpinnerSpec {
    open spec fn deep(&self) -> DeepValue {
        crate::facet::dpair(self.size.deep(), self.color.deep())
    }

    fn equals(&self, other: &Self) -> (r: bool) {
        let e0 = self.size.equals(&other.size);
        let e1 = self.color.equals(&other.color);
        proof {
            assert(crate::facet::deep_eq(crate::facet::dpair(self.size.deep(), self.color.deep()), crate::facet::dpair(other.size.deep(), other.color.deep())) == (e0 && e1));
        }
        e0 && e1
    }

    fn duplicate(&self) -> (r: Self) {
        SpinnerSpec { size: self.size.duplicate(), color: self.color.duplicate() }
    }
}

#[derive(Debug, Clone, PartialEq)]
pub struct ScrollSpec {
    pub axis: String,
    pub snap: bool,
    pub scroll_to: Option<[F32; 2]>,
}

impl Facet for ScrollSpec {
    open spec fn deep(&self) -> DeepValue {
        crate::facet::dpair(self.axis.deep(), crate::facet::dpair(self.snap.deep(), self.scroll_to.deep()))
    }

    fn equals(&self, other: &Self) -> (r: bool) {
        let e0 = self.axis.equals(&other.axis);
        let e1 = self.snap.equals(&other.snap);
        let e2 = self.scroll_to.equals(&other.scroll_to);
        proof {
            assert(crate::facet::deep_eq(crate::facet::dpair(self.snap.deep(), self.scroll_to.deep()), crate::facet::dpair(other.snap.deep(), other.scroll_to.deep())) == (e1 && e2));
            assert(crate::facet::deep_eq(crate::facet::dpair(self.axis.deep(), crate::facet::dpair(self.snap.deep(), self.scroll_to.deep())), crate::facet::dpair(other.axis.deep(), crate::facet::dpair(other.snap.deep(), other.scroll_to.deep()))) == (e0 && e1 && e2));
        }
        e0 && e1 && e2
    }

    fn duplicate(&self) -> (r: Self) {
        ScrollSpec { axis: self.axis.duplicate(), snap: self.snap.duplicate(), scroll_to: self.scroll_to.duplicate() }
    }
}

#[derive(Debug, Clone, PartialEq)]
pub struct OverlaySpec {
    pub layer: Option<String>,
    pub backdrop: bool,
    pub dismissible: bool,
}

impl Facet for OverlaySpec {
    open spec fn deep(&self) -> DeepValue {
        crate::facet::dpair(self.layer.deep(), crate::facet::dpair(self.backdrop.deep(), self.dismissible.deep()))
    }

    fn equals(&self, other: &Self) -> (r: bool) {
        let e0 = self.layer.equals(&other.layer);
        let e1 = self.backdrop.equals(&other.backdrop);
        let e2 = self.dismissible.equals(&other.dismissible);
        proof {
            assert(crate::facet::deep_eq(crate::facet::dpair(self.backdrop.deep(), self.dismissible.deep()), crate::facet::dpair(other.backdrop.deep(), other.dismissible.deep())) == (e1 && e2));
            assert(crate::facet::deep_eq(crate::facet::dpair(self.layer.deep(), crate::facet::dpair(self.backdrop.deep(), self.dismissible.deep())), crate::facet::dpair(other.layer.deep(), crate::facet::dpair(other.backdrop.deep(), other.dismissible.deep()))) == (e0 && e1 && e2));
        }
        e0 && e1 && e2
    }

    fn duplicate(&self) -> (r: Self) {
        OverlaySpec { layer: self.layer.duplicate(), backdrop: self.backdrop.duplicate(), dismissible: self.dismissible.duplicate() }
    }
}

#[derive(Debug, Clone, PartialEq)]
pub struct MediaSpec {
    pub src: String,
    pub autoplay: bool,
    pub loop_: bool,
    pub muted: bool,
    pub controls: bool,
    pub fit: ImageFit,
    pub seek: Option<F32>,
}

impl Facet for MediaSpec {
    open spec fn deep(&self) -> DeepValue {
        crate::facet::dpair(self.src.deep(), crate::facet::dpair(self.autoplay.deep(), crate::facet::dpair(self.loop_.deep(), crate::facet::dpair(self.muted.deep(), crate::facet::dpair(self.controls.deep(), crate::facet::dpair(self.fit.deep(), self.seek.deep()))))))
    }

    fn equals(&self, other: &Self) -> (r: bool) {
        let e0 = self.src.equals(&other.src);
        let e1 = self.autoplay.equals(&other.autoplay);
        let e2 = self.loop_.equals(&other.loop_);
        let e3 = self.muted.equals(&other.muted);
        let e4 = self.controls.equals(&other.controls);
        let e5 = self.fit.equals(&other.fit);
        let e6 = self.seek.equals(&other.seek);
        proof {
            assert(crate::facet::deep_eq(crate::facet::dpair(self.fit.deep(), self.seek.deep()), crate::facet::dpair(other.fit.deep(), other.seek.deep())) == (e5 && e6));
            assert(crate::facet::deep_eq(crate::facet::dpair(self.controls.deep(), crate::facet::dpair(self.fit.deep(), self.seek.deep())), crate::facet::dpair(other.controls.deep(), crate::facet::dpair(other.fit.deep(), other.seek.deep()))) == (e4 && e5 && e6));
            assert(crate::facet::deep_eq(crate::facet::dpair(self.muted.deep(), crate::facet::dpair(self.controls.deep(), crate::facet::dpair(self.fit.deep(), self.seek.deep()))), crate::facet::dpair(other.muted.deep(), crate::facet::dpair(other.controls.deep(), crate::facet::dpair(other.fit.deep(), other.seek.deep())))) == (e3 && e4 && e5 && e6));
            assert(crate::facet::deep_eq(crate::facet::dpair(self.loop_.deep(), crate::facet::dpair(self.muted.deep(), crate::facet::dpair(self.controls.deep(), crate::facet::dpair(self.fit.deep(), self.seek.deep())))), crate::facet::dpair(other.loop_.deep(), crate::facet::dpair(other.muted.deep(), crate::facet::dpair(other.controls.deep(), crate::facet::dpair(other.fit.deep(), other.seek.deep()))))) == (e2 && e3 && e4 && e5 && e6));
            assert(crate::facet::deep_eq(crate::facet::dpair(self.autoplay.deep(), crate::facet::dpair(self.loop_.deep(), crate::facet::dpair(self.muted.deep(), crate::facet::dpair(self.controls.deep(), crate::facet::dpair(self.fit.deep(), self.seek.deep()))))), crate::facet::dpair(other.autoplay.deep(), crate::facet::dpair(other.loop_.deep(), crate::facet::dpair(other.muted.deep(), crate::facet::dpair(other.controls.deep(), crate::facet::dpair(other.fit.deep(), other.seek.deep())))))) == (e1 && e2 && e3 && e4 && e5 && e6));
            assert(crate::facet::deep_eq(crate::facet::dpair(self.src.deep(), crate::facet::dpair(self.autoplay.deep(), crate::facet::dpair(self.loop_.deep(), crate::facet::dpair(self.muted.deep(), crate::facet::dpair(self.controls.deep(), crate::facet::dpair(self.fit.deep(), self.seek.deep())))))), crate::facet::dpair(other.src.deep(), crate::facet::dpair(other.autoplay.deep(), crate::facet::dpair(other.loop_.deep(), crate::facet::dpair(other.muted.deep(), crate::facet::dpair(other.controls.deep(), crate::facet::dpair(other.fit.deep(), other.seek.deep()))))))) == (e0 && e1 && e2 && e3 && e4 && e5 && e6));
        }
        e0 && e1 && e2 && e3 && e4 && e5 && e6
    }

    fn duplicate(&self) -> (r: Self) {
        MediaSpec { src: self.src.duplicate(), autoplay: self.autoplay.duplicate(), loop_: self.loop_.duplicate(), muted: self.muted.duplicate(), controls: self.controls.duplicate(), fit: self.fit.duplicate(), seek: self.seek.duplicate() }
    }
}

#[derive(Debug, Clone, PartialEq)]
pub struct ComponentSpec {
    pub name: String,
    pub props: Json,
}

impl Facet for ComponentSpec {
    open spec fn deep(&self) -> DeepValue {
        crate::facet::dpair(self.name.deep(), self.props.deep())
    }

    fn equals(&self, other: &Self) -> (r: bool) {
        let e0 = self.name.equals(&other.name);
        let e1 = self.props.equals(&other.props);
        proof {
            assert(crate::facet::deep_eq(crate::facet::dpair(self.name.deep(), self.props.deep()), crate::facet::dpair(other.name.deep(), other.props.deep())) == (e0 && e1));
        }
        e0 && e1
    }

    fn duplicate(&self) -> (r: Self) {
        ComponentSpec { name: self.name.duplicate(), props: self.props.duplicate() }
    }
}

#[derive(Debug, Clone, PartialEq)]
pub enum NodeKind {
    Div,
    Row,
    Column,
    Stack,
    Grid,
    Scroll(ScrollSpec),
    Spacer,
    Overlay(OverlaySpec),
    Text(TextSpec),
    RichText(RichTextSpec),
    Markdown(MarkdownSpec),
    Image(ImageSpec),
    Svg(SvgSpec),
    Icon(IconSpec),
    Button(ButtonSpec),
    TextInput(InputSpec),
    Checkbox(ToggleSpec),
    Switch(ToggleSpec),
    Radio(RadioSpec),
    Slider(SliderSpec),
    Dropdown(DropdownSpec),
    Tabs(TabsSpec),
    Carousel(CarouselSpec),
    ProgressBar(ProgressSpec),
    Spinner(SpinnerSpec),
    Canvas(CanvasSpec),
    Scene3D(Scene3DSpec),
    Video(MediaSpec),
    Audio(MediaSpec),
    Component(ComponentSpec),
}

impl NodeKind {
    /// The position of the variant in the declaration.
    pub open spec fn variant(&self) -> nat {
        match self {
            NodeKind::Div => 0,
            NodeKind::Row => 1,
            NodeKind::Column => 2,
            NodeKind::Stack => 3,
            NodeKind::Grid => 4,
            NodeKind::Scroll(..) => 5,
            NodeKind::Spacer => 6,
            NodeKind::Overlay(..) => 7,
            NodeKind::Text(..) => 8,
            NodeKind::RichText(..) => 9,
            NodeKind::Markdown(..) => 10,
            NodeKind::Image(..) => 11,
            NodeKind::Svg(..) => 12,
            NodeKind::Icon(..) => 13,
            NodeKind::Button(..) => 14,
            NodeKind::TextInput(..) => 15,
            NodeKind::Checkbox(..) => 16,
            NodeKind::Switch(..) => 17,
            NodeKind::Radio(..) => 18,
            NodeKind::Slider(..) => 19,
            NodeKind::Dropdown(..) => 20,
            NodeKind::Tabs(..) => 21,
            NodeKind::Carousel(..) => 22,
            NodeKind::ProgressBar(..) => 23,
            NodeKind::Spinner(..) => 24,
            NodeKind::Canvas(..) => 25,
            NodeKind::Scene3D(..) => 26,
            NodeKind::Video(..) => 27,
            NodeKind::Audio(..) => 28,
            NodeKind::Component(..) => 29,
        }
    }
}

impl Facet for NodeKind {
    open spec fn deep(&self) -> DeepValue {
        match self {
            NodeKind::Div => DeepValue::Tag(0),
            NodeKind::Row => DeepValue::Tag(1),
            NodeKind::Column => DeepValue::Tag(2),
            NodeKind::Stack => DeepValue::Tag(3),
            NodeKind::Grid => DeepValue::Tag(4),
            NodeKind::Scroll(f0) => crate::facet::dvariant(5, f0.deep()),
            NodeKind::Spacer => DeepValue::Tag(6),
            NodeKind::Overlay(f0) => crate::facet::dvariant(7, f0.deep()),
            NodeKind::Text(f0) => crate::facet::dvariant(8, f0.deep()),
            NodeKind::RichText(f0) => crate::facet::dvariant(9, f0.deep()),
            NodeKind::Markdown(f0) => crate::facet::dvariant(10, f0.deep()),
            NodeKind::Image(f0) => crate::facet::dvariant(11, f0.deep()),
            NodeKind::Svg(f0) => crate::facet::dvariant(12, f0.deep()),
            NodeKind::Icon(f0) => crate::facet::dvariant(13, f0.deep()),
            NodeKind::Button(f0) => crate::facet::dvariant(14, f0.deep()),
            NodeKind::TextInput(f0) => crate::facet::dvariant(15, f0.deep()),
            NodeKind::Checkbox(f0) => crate::facet::dvariant(16, f0.deep()),
            NodeKind::Switch(f0) => crate::facet::dvariant(17, f0.deep()),
            NodeKind::Radio(f0) => crate::facet::dvariant(18, f0.deep()),
            NodeKind::Slider(f0) => crate::facet::dvariant(19, f0.deep()),
            NodeKind::Dropdown(f0) => crate::facet::dvariant(20, f0.deep()),
            NodeKind::Tabs(f0) => crate::facet::dvariant(21, f0.deep()),
            NodeKind::Carousel(f0) => crate::facet::dvariant(22, f0.deep()),
            NodeKind::ProgressBar(f0) => crate::facet::dvariant(23, f0.deep()),
            NodeKind::Spinner(f0) => crate::facet::dvariant(24, f0.deep()),
            NodeKind::Canvas(f0) => crate::facet::dvariant(25, f0.deep()),
            NodeKind::Scene3D(f0) => crate::facet::dvariant(26, f0.deep()),
            NodeKind::Video(f0) => crate::facet::dvariant(27, f0.deep()),
            NodeKind::Audio(f0) => crate::facet::dvariant(28, f0.deep()),
            NodeKind::Component(f0) => crate::facet::dvariant(29, f0.deep()),
        }
    }

    fn equals(&self, other: &Self) -> (r: bool) {
        match (self, other) {
            (NodeKind::Div, NodeKind::Div) => true,
            (NodeKind::Row, NodeKind::Row) => true,
            (NodeKind::Column, NodeKind::Column) => true,
            (NodeKind::Stack, NodeKind::Stack) => true,
            (NodeKind::Grid, NodeKind::Grid) => true,
            (NodeKind::Scroll(a_f0), NodeKind::Scroll(b_f0)) => {
                let e0 = a_f0.equals(b_f0);
                proof {
                    assert(crate::facet::deep_eq(DeepValue::Tag(5), DeepValue::Tag(5)));
                }
                e0
            },
            (NodeKind::Spacer, NodeKind::Spacer) => true,
            (NodeKind::Overlay(a_f0), NodeKind::Overlay(b_f0)) => {
                let e0 = a_f0.equals(b_f0);
                proof {
                    assert(crate::facet::deep_eq(DeepValue::Tag(7), DeepValue::Tag(7)));
                }
                e0
            },
            (NodeKind::Text(a_f0), NodeKind::Text(b_f0)) => {
                let e0 = a_f0.equals(b_f0);
                proof {
                    assert(crate::facet::deep_eq(DeepValue::Tag(8), DeepValue::Tag(8)));
                }
                e0
            },
            (NodeKind::RichText(a_f0), NodeKind::RichText(b_f0)) => {
                let e0 = a_f0.equals(b_f0);
                proof {
                    assert(crate::facet::deep_eq(DeepValue::Tag(9), DeepValue::Tag(9)));
                }
                e0
            },
            (NodeKind::Markdown(a_f0), NodeKind::Markdown(b_f0)) => {
                let e0 = a_f0.equals(b_f0);
                proof {
                    assert(crate::facet::deep_eq(DeepValue::Tag(10), DeepValue::Tag(10)));
                }
                e0
            },
            (NodeKind::Image(a_f0), NodeKind::Image(b_f0)) => {
                let e0 = a_f0.equals(b_f0);
                proof {
                    assert(crate::facet::deep_eq(DeepValue::Tag(11), DeepValue::Tag(11)));
                }
                e0
            },
            (NodeKind::Svg(a_f0), NodeKind::Svg(b_f0)) => {
                let e0 = a_f0.equals(b_f0);
                proof {
                    assert(crate::facet::deep_eq(DeepValue::Tag(12), DeepValue::Tag(12)));
                }
                e0
            },
            (NodeKind::Icon(a_f0), NodeKind::Icon(b_f0)) => {
                let e0 = a_f0.equals(b_f0);
                proof {
                    assert(crate::facet::deep_eq(DeepValue::Tag(13), DeepValue::Tag(13)));
                }
                e0
            },
            (NodeKind::Button(a_f0), NodeKind::Button(b_f0)) => {
                let e0 = a_f0.equals(b_f0);
                proof {
                    assert(crate::facet::deep_eq(DeepValue::Tag(14), DeepValue::Tag(14)));
                }
                e0
            },
            (NodeKind::TextInput(a_f0), NodeKind::TextInput(b_f0)) => {
                let e0 = a_f0.equals(b_f0);
                proof {
                    assert(crate::facet::deep_eq(DeepValue::Tag(15), DeepValue::Tag(15)));
                }
                e0
            },
            (NodeKind::Checkbox(a_f0), NodeKind::Checkbox(b_f0)) => {
                let e0 = a_f0.equals(b_f0);
                proof {
                    assert(crate::facet::deep_eq(DeepValue::Tag(16), DeepValue::Tag(16)));
                }
                e0
            },
            (NodeKind::Switch(a_f0), NodeKind::Switch(b_f0)) => {
                let e0 = a_f0.equals(b_f0);
                proof {
                    assert(crate::facet::deep_eq(DeepValue::Tag(17), DeepValue::Tag(17)));
                }
                e0
            },
            (NodeKind::Radio(a_f0), NodeKind::Radio(b_f0)) => {
                let e0 = a_f0.equals(b_f0);
                proof {
                    assert(crate::facet::deep_eq(DeepValue::Tag(18), DeepValue::Tag(18)));
                }
                e0
            },
            (NodeKind::Slider(a_f0), NodeKind::Slider(b_f0)) => {
                let e0 = a_f0.equals(b_f0);
                proof {
                    assert(crate::facet::deep_eq(DeepValue::Tag(19), DeepValue::Tag(19)));
                }
                e0
            },
            (NodeKind::Dropdown(a_f0), NodeKind::Dropdown(b_f0)) => {
                let e0 = a_f0.equals(b_f0);
                proof {
                    assert(crate::facet::deep_eq(DeepValue::Tag(20), DeepValue::Tag(20)));
                }
                e0
            },
            (NodeKind::Tabs(a_f0), NodeKind::Tabs(b_f0)) => {
                let e0 = a_f0.equals(b_f0);
                proof {
                    assert(crate::facet::deep_eq(DeepValue::Tag(21), DeepValue::Tag(21)));
                }
                e0
            },
            (NodeKind::Carousel(a_f0), NodeKind::Carousel(b_f0)) => {
                let e0 = a_f0.equals(b_f0);
                proof {
                    assert(crate::facet::deep_eq(DeepValue::Tag(22), DeepValue::Tag(22)));
                }
                e0
            },
            (NodeKind::ProgressBar(a_f0), NodeKind::ProgressBar(b_f0)) => {
                let e0 = a_f0.equals(b_f0);
                proof {
                    assert(crate::facet::deep_eq(DeepValue::Tag(23), DeepValue::Tag(23)));
                }
                e0
            },
            (NodeKind::Spinner(a_f0), NodeKind::Spinner(b_f0)) => {
                let e0 = a_f0.equals(b_f0);
                proof {
                    assert(crate::facet::deep_eq(DeepValue::Tag(24), DeepValue::Tag(24)));
                }
                e0
            },
            (NodeKind::Canvas(a_f0), NodeKind::Canvas(b_f0)) => {
                let e0 = a_f0.equals(b_f0);
                proof {
                    assert(crate::facet::deep_eq(DeepValue::Tag(25), DeepValue::Tag(25)));
                }
                e0
            },
            (NodeKind::Scene3D(a_f0), NodeKind::Scene3D(b_f0)) => {
                let e0 = a_f0.equals(b_f0);
                proof {
                    assert(crate::facet::deep_eq(DeepValue::Tag(26), DeepValue::Tag(26)));
                }
                e0
            },
            (NodeKind::Video(a_f0), NodeKind::Video(b_f0)) => {
                let e0 = a_f0.equals(b_f0);
                proof {
                    assert(crate::facet::deep_eq(DeepValue::Tag(27), DeepValue::Tag(27)));
                }
                e0
            },
            (NodeKind::Audio(a_f0), NodeKind::Audio(b_f0)) => {
                let e0 = a_f0.equals(b_f0);
                proof {
                    assert(crate::facet::deep_eq(DeepValue::Tag(28), DeepValue::Tag(28)));
                }
                e0
            },
            (NodeKind::Component(a_f0), NodeKind::Component(b_f0)) => {
                let e0 = a_f0.equals(b_f0);
                proof {
                    assert(crate::facet::deep_eq(DeepValue::Tag(29), DeepValue::Tag(29)));
                }
                e0
            },
            _ => {
                proof {
                    assert(self.variant() != other.variant());
                    assert(!crate::facet::deep_eq(DeepValue::Tag(self.variant()), DeepValue::Tag(other.variant())));
                }
                false
            },
        }
    }

    fn duplicate(&self) -> (r: Self) {
        match self {
            NodeKind::Div => NodeKind::Div,
            NodeKind::Row => NodeKind::Row,
            NodeKind::Column => NodeKind::Column,
            NodeKind::Stack => NodeKind::Stack,
            NodeKind::Grid => NodeKind::Grid,
            NodeKind::Scroll(x_f0) => NodeKind::Scroll(x_f0.duplicate()),
            NodeKind::Spacer => NodeKind::Spacer,
            NodeKind::Overlay(x_f0) => NodeKind::Overlay(x_f0.duplicate()),
            NodeKind::Text(x_f0) => NodeKind::Text(x_f0.duplicate()),
            NodeKind::RichText(x_f0) => NodeKind::RichText(x_f0.duplicate()),
            NodeKind::Markdown(x_f0) => NodeKind::Markdown(x_f0.duplicate()),
            NodeKind::Image(x_f0) => NodeKind::Image(x_f0.duplicate()),
            NodeKind::Svg(x_f0) => NodeKind::Svg(x_f0.duplicate()),
            NodeKind::Icon(x_f0) => NodeKind::Icon(x_f0.duplicate()),
            NodeKind::Button(x_f0) => NodeKind::Button(x_f0.duplicate()),
            NodeKind::TextInput(x_f0) => NodeKind::TextInput(x_f0.duplicate()),
            NodeKind::Checkbox(x_f0) => NodeKind::Checkbox(x_f0.duplicate()),
            NodeKind::Switch(x_f0) => NodeKind::Switch(x_f0.duplicate()),
            NodeKind::Radio(x_f0) => NodeKind::Radio(x_f0.duplicate()),
            NodeKind::Slider(x_f0) => NodeKind::Slider(x_f0.duplicate()),
            NodeKind::Dropdown(x_f0) => NodeKind::Dropdown(x_f0.duplicate()),
            NodeKind::Tabs(x_f0) => NodeKind::Tabs(x_f0.duplicate()),
            NodeKind::Carousel(x_f0) => NodeKind::Carousel(x_f0.duplicate()),
            NodeKind::ProgressBar(x_f0) => NodeKind::ProgressBar(x_f0.duplicate()),
            NodeKind::Spinner(x_f0) => NodeKind::Spinner(x_f0.duplicate()),
            NodeKind::Canvas(x_f0) => NodeKind::Canvas(x_f0.duplicate()),
            NodeKind::Scene3D(x_f0) => NodeKind::Scene3D(x_f0.duplicate()),
            NodeKind::Video(x_f0) => NodeKind::Video(x_f0.duplicate()),
            NodeKind::Audio(x_f0) => NodeKind::Audio(x_f0.duplicate()),
            NodeKind::Component(x_f0) => NodeKind::Component(x_f0.duplicate()),
        }
    }
}

impl NodeKind {
    /// The tag of the kind in the wire format (`"div"`, `"text"`, ...).
    pub fn tag(&self) -> (r: &'static str)
        ensures
            r@ == kind_tag_text(self.variant()),
    {
        match self {
            NodeKind::Div => "div",
            NodeKind::Row => "row",
            NodeKind::Column => "column",
            NodeKind::Stack => "stack",
            NodeKind::Grid => "grid",
            NodeKind::Scroll(_) => "scroll",
            NodeKind::Spacer => "spacer",
            NodeKind::Overlay(_) => "overlay",
            NodeKind::Text(_) => "text",
            NodeKind::RichText(_) => "rich_text",
            NodeKind::Markdown(_) => "markdown",
            NodeKind::Image(_) => "image",
            NodeKind::Svg(_) => "svg",
            NodeKind::Icon(_) => "icon",
            NodeKind::Button(_) => "button",
            NodeKind::TextInput(_) => "text_input",
            NodeKind::Checkbox(_) => "checkbox",
            NodeKind::Switch(_) => "switch",
            NodeKind::Radio(_) => "radio",
            NodeKind::Slider(_) => "slider",
            NodeKind::Dropdown(_) => "dropdown",
            NodeKind::Tabs(_) => "tabs",
            NodeKind::Carousel(_) => "carousel",
            NodeKind::ProgressBar(_) => "progress_bar",
            NodeKind::Spinner(_) => "spinner",
            NodeKind::Canvas(_) => "canvas",
            NodeKind::Scene3D(_) => "scene3d",
            NodeKind::Video(_) => "video",
            NodeKind::Audio(_) => "audio",
            NodeKind::Component(_) => "component",
        }
    }

    /// The position of the kind in the declaration; two kinds have the
    /// same tag exactly when they have the same position.
    pub fn kind_index(&self) -> (r: u32)
        ensures
            r as nat == self.variant(),
    {
        match self {
            NodeKind::Div => 0,
            NodeKind::Row => 1,
            NodeKind::Column => 2,
            NodeKind::Stack => 3,
            NodeKind::Grid => 4,
            NodeKind::Scroll(_) => 5,
            NodeKind::Spacer => 6,
            NodeKind::Overlay(_) => 7,
            NodeKind::Text(_) => 8,
            NodeKind::RichText(_) => 9,
            NodeKind::Markdown(_) => 10,
            NodeKind::Image(_) => 11,
            NodeKind::Svg(_) => 12,
            NodeKind::Icon(_) => 13,
            NodeKind::Button(_) => 14,
            NodeKind::TextInput(_) => 15,
            NodeKind::Checkbox(_) => 16,
            NodeKind::Switch(_) => 17,
            NodeKind::Radio(_) => 18,
            NodeKind::Slider(_) => 19,
            NodeKind::Dropdown(_) => 20,
            NodeKind::Tabs(_) => 21,
            NodeKind::Carousel(_) => 22,
            NodeKind::ProgressBar(_) => 23,
            NodeKind::Spinner(_) => 24,
            NodeKind::Canvas(_) => 25,
            NodeKind::Scene3D(_) => 26,
            NodeKind::Video(_) => 27,
            NodeKind::Audio(_) => 28,
            NodeKind::Component(_) => 29,
        }
    }
}

/// The wire tag of the kind at a given position.
pub open spec fn kind_tag_text(k: nat) -> Seq<char> {
    if k == 0 {
        "div"@
    } else if k == 1 {
        "row"@
    } else if k == 2 {
        "column"@
    } else if k == 3 {
        "stack"@
    } else if k == 4 {
        "grid"@
    } else if k == 5 {
        "scroll"@
    } else if k == 6 {
        "spacer"@
    } else if k == 7 {
        "overlay"@
    } else if k == 8 {
        "text"@
    } else if k == 9 {
        "rich_text"@
    } else if k == 10 {
        "markdown"@
    } else if k == 11 {
        "image"@
    } else if k == 12 {
        "svg"@
    } else if k == 13 {
        "icon"@
    } else if k == 14 {
        "button"@
    } else if k == 15 {
        "text_input"@
    } else if k == 16 {
        "checkbox"@
    } else if k == 17 {
        "switch"@
    } else if k == 18 {
        "radio"@
    } else if k == 19 {
        "slider"@
    } else if k == 20 {
        "dropdown"@
    } else if k == 21 {
        "tabs"@
    } else if k == 22 {
        "carousel"@
    } else if k == 23 {
        "progress_bar"@
    } else if k == 24 {
        "spinner"@
    } else if k == 25 {
        "canvas"@
    } else if k == 26 {
        "scene3d"@
    } else if k == 27 {
        "video"@
    } else if k == 28 {
        "audio"@
    } else {
        "component"@
    }
}

/// Two kinds share a wire tag exactly when they are the same kind: the
/// tags of the declaration's positions are pairwise distinct.
pub proof fn lemma_tag_injective(a: NodeKind, b: NodeKind)
    ensures
        (kind_tag_text(a.variant()) == kind_tag_text(b.variant())) == (a.variant() == b.variant()),
{
    reveal_strlit("div");
    reveal_strlit("row");
    reveal_strlit("column");
    reveal_strlit("stack");
    reveal_strlit("grid");
    reveal_strlit("scroll");
    reveal_strlit("spacer");
    reveal_strlit("overlay");
    reveal_strlit("text");
    reveal_strlit("rich_text");
    reveal_strlit("markdown");
    reveal_strlit("image");
    reveal_strlit("svg");
    reveal_strlit("icon");
    reveal_strlit("button");
    reveal_strlit("text_input");
    reveal_strlit("checkbox");
    reveal_strlit("switch");
    reveal_strlit("radio");
    reveal_strlit("slider");
    reveal_strlit("dropdown");
    reveal_strlit("tabs");
    reveal_strlit("carousel");
    reveal_strlit("progress_bar");
    reveal_strlit("spinner");
    reveal_strlit("canvas");
    reveal_strlit("scene3d");
    reveal_strlit("video");
    reveal_strlit("audio");
    reveal_strlit("component");
    let i = a.variant();
    let j = b.variant();
    let x = kind_tag_text(i);
    let y = kind_tag_text(j);
    if x == y {
        assert(x.len() == y.len());
        assert(x[0] == y[0]);
        assert(x[1] == y[1]);
        assert(x[x.len() - 1] == y[y.len() - 1]);
    }
}

/// The map that a list of `(key, value)` entries describes; a later entry
/// for a key replaces an earlier one.
pub open spec fn entries_map(s: Seq<(String, String)>) -> Map<Seq<char>, Seq<char>>
    decreases s.len(),
{
    if s.len() == 0 {
        Map::empty()
    } else {
        entries_map(s.drop_last()).insert(s.last().0@, s.last().1@)
    }
}

/// No key occurs twice.
pub open spec fn keys_unique(s: Seq<(String, String)>) -> bool {
    forall|i: int, j: int| 0 <= i < j < s.len() ==> s[i].0@ != s[j].0@
}

/// With unique keys, the map holds exactly the entries.
pub proof fn lemma_entries_map(s: Seq<(String, String)>)
    requires
        keys_unique(s),
    ensures
        forall|k: Seq<char>| #[trigger] entries_map(s).contains_key(k) <==> exists|i: int| 0 <= i < s.len() && s[i].0@ == k,
        forall|i: int| 0 <= i < s.len() ==> #[trigger] entries_map(s).contains_key(s[i].0@) && entries_map(s)[s[i].0@] == s[i].1@,
    decreases s.len(),
{
    if s.len() > 0 {
        let p = s.drop_last();
        assert(keys_unique(p)) by {
            assert forall|i: int, j: int| 0 <= i < j < p.len() implies p[i].0@ != p[j].0@ by {
                assert(p[i] == s[i] && p[j] == s[j]);
            }
        }
        lemma_entries_map(p);
        assert forall|k: Seq<char>| #[trigger] entries_map(s).contains_key(k) implies exists|i: int| 0 <= i < s.len() && s[i].0@ == k by {
            if k != s.last().0@ {
                assert(entries_map(p).contains_key(k));
                let i = choose|i: int| 0 <= i < p.len() && p[i].0@ == k;
                assert(s[i] == p[i]);
            } else {
                assert(s[s.len() - 1].0@ == k);
            }
        }
        assert forall|i: int| 0 <= i < s.len() implies #[trigger] entries_map(s).contains_key(s[i].0@) && entries_map(s)[s[i].0@] == s[i].1@ by {
            if i < s.len() - 1 {
                assert(entries_map(p).contains_key(p[i].0@));
                assert(s[i] == p[i]);
                assert(s[i].0@ != s[s.len() - 1].0@);
            }
        }
    }
}

/// The event bindings of a node: event name (`"click"`, `"change"`, ...) to
/// a guest handler id. No event name occurs twice.
#[derive(Debug)]
pub struct EventMap {
    entries: Vec<(String, String)>,
}

impl EventMap {
    /// Event names are unique.
    #[verifier::type_invariant]
    pub closed spec fn wf(&self) -> bool {
        keys_unique(self.entries@)
    }

    /// The bindings, as a map.
    pub closed spec fn view_map(&self) -> Map<Seq<char>, Seq<char>> {
        entries_map(self.entries@)
    }

    /// The bindings in the order they were first made.
    pub closed spec fn entry_seq(&self) -> Seq<(String, String)> {
        self.entries@
    }

    /// No bindings.
    pub fn new() -> (m: EventMap)
        ensures
            m.view_map() == Map::<Seq<char>, Seq<char>>::empty(),
            m.entry_seq().len() == 0,
    {
        EventMap { entries: Vec::new() }
    }

    /// The number of bindings.
    pub fn len(&self) -> (n: usize)
        ensures
            n as nat == self.view_map().dom().len(),
    {
        proof {
            use_type_invariant(self);
            lemma_entries_map_len(self.entries@);
        }
        self.entries.len()
    }

    /// Whether there are no bindings.
    pub fn is_empty(&self) -> (b: bool)
        ensures
            b == (self.view_map().dom().len() == 0),
    {
        proof {
            use_type_invariant(self);
            lemma_entries_map_len(self.entries@);
        }
        self.entries.len() == 0
    }

    /// The handler bound to an event name.
    #[verifier::loop_isolation(false)]
    pub fn get(&self, key: &String) -> (r: Option<&String>)
        ensures
            r is Some <==> self.view_map().contains_key(key@),
            r matches Some(v) ==> v@ == self.view_map()[key@],
    {
        proof {
            use_type_invariant(self);
            lemma_entries_map(self.entries@);
        }
        let mut i: usize = 0;
        while i < self.entries.len()
            invariant
                i <= self.entries@.len(),
                forall|j: int| 0 <= j < i ==> self.entries@[j].0@ != key@,
            decreases self.entries@.len() - i,
        {
            if self.entries[i].0 == *key {
                return Some(&self.entries[i].1);
            }
            i += 1;
        }
        None
    }

    /// Bind `value` to `key`, returning the handler it replaces.
    #[verifier::loop_isolation(false)]
    pub fn insert(&mut self, key: String, value: String) -> (r: Option<String>)
        ensures
            final(self).view_map() == old(self).view_map().insert(key@, value@),
            r is Some <==> old(self).view_map().contains_key(key@),
            r matches Some(v) ==> v@ == old(self).view_map()[key@],
    {
        proof {
            use_type_invariant(&*self);
            lemma_entries_map(self.entries@);
        }
        let ghost before = self.entries@;
        let mut i: usize = 0;
        while i < self.entries.len()
            invariant
                i <= self.entries@.len(),
                self.entries@ == before,
                forall|j: int| 0 <= j < i ==> self.entries@[j].0@ != key@,
            decreases self.entries@.len() - i,
        {
            if self.entries[i].0 == key {
                let mut entries: Vec<(String, String)> = Vec::new();
                std::mem::swap(&mut entries, &mut self.entries);
                let old_entry = entries.remove(i);
                entries.insert(i, (key, value));
                let ghost after = entries@;
                proof {
                    assert(old_entry == before[i as int]);
                    assert(entries_map(before).contains_key(before[i as int].0@));
                    assert(entries_map(before)[before[i as int].0@] == before[i as int].1@);
                    assert(after == before.update(i as int, after[i as int]));
                    assert(keys_unique(after)) by {
                        assert forall|a: int, b: int| 0 <= a < b < after.len() implies after[a].0@ != after[b].0@ by {
                            assert(before[a].0@ != before[b].0@);
                        }
                    }
                    lemma_entries_map(after);
                    assert(entries_map(after) =~= entries_map(before).insert(key@, value@)) by {
                        assert forall|k: Seq<char>| entries_map(after).contains_key(k) implies entries_map(before).insert(key@, value@).contains_key(k) by {
                            let j = choose|j: int| 0 <= j < after.len() && after[j].0@ == k;
                            if j != i {
                                assert(before[j] == after[j]);
                            }
                        }
                        assert forall|k: Seq<char>| entries_map(before).insert(key@, value@).contains_key(k) implies entries_map(after).contains_key(k) by {
                            if k != key@ {
                                let j = choose|j: int| 0 <= j < before.len() && before[j].0@ == k;
                                assert(j != i);
                                assert(before[j] == after[j]);
                            } else {
                                assert(after[i as int].0@ == k);
                            }
                        }
                        assert forall|k: Seq<char>| #[trigger] entries_map(after).contains_key(k) implies entries_map(after)[k] == entries_map(before).insert(key@, value@)[k] by {
                            let j = choose|j: int| 0 <= j < after.len() && after[j].0@ == k;
                            if j != i {
                                assert(before[j] == after[j]);
                            }
                        }
                    }
                }
                self.entries = entries;
                return Some(old_entry.1);
            }
            i += 1;
        }
        let mut entries: Vec<(String, String)> = Vec::new();
        std::mem::swap(&mut entries, &mut self.entries);
        entries.push((key, value));
        proof {
            let after = entries@;
            assert(after.drop_last() =~= before);
            assert(keys_unique(after)) by {
                assert forall|a: int, b: int| 0 <= a < b < after.len() implies after[a].0@ != after[b].0@ by {
                    if b < before.len() {
                        assert(before[a].0@ != before[b].0@);
                    }
                }
            }
        }
        self.entries = entries;
        None
    }

    /// The bindings, in the order they were first made.
    pub fn entries(&self) -> (r: &Vec<(String, String)>)
        ensures
            r@ == self.entry_seq(),
            keys_unique(r@),
            entries_map(r@) == self.view_map(),
    {
        proof {
            use_type_invariant(self);
        }
        &self.entries
    }

    /// Whether `(k, v)` is among the bindings of `other`.
    #[verifier::loop_isolation(false)]
    fn holds(other: &Vec<(String, String)>, k: &String, v: &String) -> (r: bool)
        requires
            keys_unique(other@),
        ensures
            r == (entries_map(other@).contains_key(k@) && entries_map(other@)[k@] == v@),
    {
        proof {
            lemma_entries_map(other@);
        }
        let mut i: usize = 0;
        while i < other.len()
            invariant
                i <= other@.len(),
                forall|j: int| 0 <= j < i ==> other@[j].0@ != k@,
            decreases other@.len() - i,
        {
            if other[i].0 == *k {
                return other[i].1 == *v;
            }
            i += 1;
        }
        false
    }

    /// Every binding of `a` is a binding of `b`.
    #[verifier::loop_isolation(false)]
    fn included(a: &Vec<(String, String)>, b: &Vec<(String, String)>) -> (r: bool)
        requires
            keys_unique(a@),
            keys_unique(b@),
        ensures
            r ==> forall|k: Seq<char>| #[trigger] entries_map(a@).contains_key(k) ==>
                entries_map(b@).contains_key(k) && entries_map(b@)[k] == entries_map(a@)[k],
            !r ==> exists|k: Seq<char>| #[trigger] entries_map(a@).contains_key(k) &&
                !(entries_map(b@).contains_key(k) && entries_map(b@)[k] == entries_map(a@)[k]),
    {
        proof {
            lemma_entries_map(a@);
        }
        let mut i: usize = 0;
        while i < a.len()
            invariant
                i <= a@.len(),
                keys_unique(a@),
                keys_unique(b@),
                forall|j: int| 0 <= j < i ==> entries_map(b@).contains_key(#[trigger] a@[j].0@)
                    && entries_map(b@)[a@[j].0@] == a@[j].1@,
            decreases a@.len() - i,
        {
            if !EventMap::holds(b, &a[i].0, &a[i].1) {
                assert(entries_map(a@).contains_key(a@[i as int].0@));
                return false;
            }
            i += 1;
        }
        assert forall|k: Seq<char>| entries_map(a@).contains_key(k) implies
            entries_map(b@).contains_key(k) && entries_map(b@)[k] == entries_map(a@)[k] by {
            let j = choose|j: int| 0 <= j < a@.len() && a@[j].0@ == k;
        }
        true
    }
}

/// A map of unique-keyed entries has as many keys as entries.
pub proof fn lemma_entries_map_len(s: Seq<(String, String)>)
    requires
        keys_unique(s),
    ensures
        entries_map(s).dom().len() == s.len(),
        entries_map(s).dom().finite(),
    decreases s.len(),
{
    if s.len() > 0 {
        let p = s.drop_last();
        assert(keys_unique(p)) by {
            assert forall|i: int, j: int| 0 <= i < j < p.len() implies p[i].0@ != p[j].0@ by {
                assert(p[i] == s[i] && p[j] == s[j]);
            }
        }
        lemma_entries_map_len(p);
        lemma_entries_map(p);
        if entries_map(p).contains_key(s.last().0@) {
            let i = choose|i: int| 0 <= i < p.len() && p[i].0@ == s.last().0@;
            assert(s[i] == p[i]);
        }
    } else {
        assert(entries_map(s).dom() =~= Set::<Seq<char>>::empty());
    }
}

impl Clone for EventMap {
    fn clone(&self) -> (r: Self)
        ensures
            r.view_map() == self.view_map(),
    {
        self.duplicate()
    }
}

impl Facet for EventMap {
    open spec fn deep(&self) -> DeepValue {
        DeepValue::Dict(self.view_map())
    }

    fn equals(&self, other: &Self) -> (r: bool) {
        proof {
            use_type_invariant(self);
            use_type_invariant(other);
        }
        let a = EventMap::included(&self.entries, &other.entries);
        let b = EventMap::included(&other.entries, &self.entries);
        proof {
            if a && b {
                assert(entries_map(self.entries@) =~= entries_map(other.entries@));
            } else if !a {
                let k = choose|k: Seq<char>| #[trigger] entries_map(self.entries@).contains_key(k) &&
                    !(entries_map(other.entries@).contains_key(k) && entries_map(other.entries@)[k] == entries_map(self.entries@)[k]);
                assert(self.view_map() != other.view_map());
            } else {
                let k = choose|k: Seq<char>| #[trigger] entries_map(other.entries@).contains_key(k) &&
                    !(entries_map(self.entries@).contains_key(k) && entries_map(self.entries@)[k] == entries_map(other.entries@)[k]);
                assert(self.view_map() != other.view_map());
            }
        }
        a && b
    }

    fn duplicate(&self) -> (r: Self) {
        proof {
            use_type_invariant(self);
        }
        let mut out: Vec<(String, String)> = Vec::new();
        let mut i: usize = 0;
        while i < self.entries.len()
            invariant
                i <= self.entries@.len(),
                out@ =~= self.entries@.subrange(0, i as int),
            decreases self.entries@.len() - i,
        {
            out.push((self.entries[i].0.clone(), self.entries[i].1.clone()));
            i += 1;
        }
        assert(out@ =~= self.entries@);
        EventMap { entries: out }
    }
}

impl PartialEq for EventMap {
    fn eq(&self, other: &Self) -> (r: bool) {
        self.equals(other)
    }
}

impl PartialEqSpecImpl for EventMap {
    open spec fn obeys_eq_spec() -> bool {
        true
    }

    open spec fn eq_spec(&self, other: &EventMap) -> bool {
        self.view_map() == other.view_map()
    }
}

/// A node in the widget tree.
///
/// `key` gives the node a stable identity for keyed reconciliation: two
/// nodes with the same key across renders are the same widget; without a
/// key, position is used.
#[derive(Debug, PartialEq)]
pub struct Node {
    pub key: Option<String>,
    pub kind: NodeKind,
    pub style: Style,
    pub events: EventMap,
    pub animations: Vec<Animation>,
    pub transition: Option<Transition>,
    pub children: Vec<Node>,
}

/// The mathematical model of a widget tree: each facet by its deep value.
pub struct SNode {
    pub key: Option<Seq<char>>,
    pub kind: DeepValue,
    pub style: DeepValue,
    pub events: DeepValue,
    pub animations: DeepValue,
    pub transition: DeepValue,
    pub children: Seq<SNode>,
}

/// The model of an optional string.
pub open spec fn key_model(k: Option<String>) -> Option<Seq<char>> {
    match k {
        Some(s) => Some(s@),
        None => None,
    }
}

/// The variant position that a kind's deep value records.
pub open spec fn deep_tag(d: DeepValue) -> nat {
    match d {
        DeepValue::Tag(k) => k,
        DeepValue::Pair(a, _) => match *a {
            DeepValue::Tag(k) => k,
            _ => 0,
        },
        _ => 0,
    }
}

impl Node {
    /// The model of a tree.
    #[verifier::opaque]
    pub open spec fn model(n: Node) -> SNode
        decreases n,
    {
        SNode {
            key: key_model(n.key),
            kind: n.kind.deep(),
            style: n.style.deep(),
            events: n.events.deep(),
            animations: n.animations.deep(),
            transition: n.transition.deep(),
            children: Seq::new(n.children@.len(), |i: int|
                if 0 <= i < n.children@.len() { Node::model(n.children@[i]) } else { arbitrary() }),
        }
    }

    /// The models of a list of trees.
    pub open spec fn models(s: Seq<Node>) -> Seq<SNode> {
        Seq::new(s.len(), |i: int| Node::model(s[i]))
    }

    /// The model of a tree, with its children's models spelled out.
    pub proof fn lemma_model(n: Node)
        ensures
            Node::model(n) == (SNode {
                key: key_model(n.key),
                kind: n.kind.deep(),
                style: n.style.deep(),
                events: n.events.deep(),
                animations: n.animations.deep(),
                transition: n.transition.deep(),
                children: Node::models(n.children@),
            }),
    {
        reveal(Node::model);
        assert(Node::model(n).children =~= Node::models(n.children@));
    }

    /// The models of a list of trees, entry by entry.
    pub proof fn lemma_models(s: Seq<Node>)
        ensures
            Node::models(s).len() == s.len(),
            forall|i: int| 0 <= i < s.len() ==> #[trigger] Node::models(s)[i] == Node::model(s[i]),
            forall|i: int| 0 <= i < s.len() ==> (#[trigger] Node::models(s)[i]).key == key_model(s[i].key),
    {
        reveal(Node::model);
    }

    /// A node of the given kind with no key, an empty style, no events,
    /// animations or transition, and no children.
    pub fn new(kind: NodeKind) -> (n: Node)
        ensures
            n.key is None,
            n.kind == kind,
            n.style.deep() == Style::new_model(),
            n.events.view_map() == Map::<Seq<char>, Seq<char>>::empty(),
            n.animations@.len() == 0,
            n.transition is None,
            n.children@.len() == 0,
    {
        let style = Style::new();
        Node {
            key: None,
            kind,
            style,
            events: EventMap::new(),
            animations: Vec::new(),
            transition: None,
            children: Vec::new(),
        }
    }

    /// The same node with the given children.
    pub fn with_children(self, children: Vec<Node>) -> (n: Node)
        ensures
            n.key == self.key,
            n.kind == self.kind,
            n.style == self.style,
            n.events == self.events,
            n.animations == self.animations,
            n.transition == self.transition,
            n.children == children,
    {
        let mut n = self;
        n.children = children;
        n
    }

    /// The wire tag of the node's kind; the differ replaces a node whose
    /// tag changes.
    pub fn type_tag(&self) -> (r: &'static str)
        ensures
            r@ == kind_tag_text(self.kind.variant()),
    {
        self.kind.tag()
    }

    pub(crate) fn copy_children(a: &Vec<Node>) -> (r: Vec<Node>)
        ensures
            Node::models(r@) == Node::models(a@),
        decreases a, 0nat,
    {
        let mut out: Vec<Node> = Vec::new();
        let mut i: usize = 0;
        while i < a.len()
            invariant
                i <= a@.len(),
                out@.len() == i,
                forall|j: int| 0 <= j < i ==> Node::model(#[trigger] out@[j]) == Node::model(a@[j]),
            decreases a@.len() - i,
        {
            proof {
                assert(decreases_to!(*a => a@[i as int]));
            }
            out.push(Node::copy_node(&a[i]));
            i += 1;
        }
        assert(Node::models(out@) =~= Node::models(a@));
        out
    }

    /// An exact copy of a tree.
    pub fn copy_node(n: &Node) -> (r: Node)
        ensures
            Node::model(r) == Node::model(*n),
        decreases n, 1nat,
    {
        let r = Node {
            key: n.key.duplicate(),
            kind: n.kind.duplicate(),
            style: n.style.duplicate(),
            events: n.events.duplicate(),
            animations: n.animations.duplicate(),
            transition: n.transition.duplicate(),
            children: Node::copy_children(&n.children),
        };
        proof {
            Node::lemma_model(r);
            Node::lemma_model(*n);
            assert(key_model(r.key) == key_model(n.key)) by {
                match n.key {
                    Some(s) => {
                        assert(r.key.deep() == n.key.deep());
                    },
                    None => {},
                }
            }
        }
        r
    }
}

impl Clone for Node {
    fn clone(&self) -> (r: Self)
        ensures
            Node::model(r) == Node::model(*self),
    {
        Node::copy_node(self)
    }
}

impl View for Node {
    type V = SNode;

    open spec fn view(&self) -> SNode {
        Node::model(*self)
    }
}

/// The default of a flag that is on unless the guest turns it off.
pub fn default_true() -> (r: bool)
    ensures
        r,
{
    true
}

/// The default axis of a scroll viewport.
pub fn default_scroll_axis() -> (r: String)
    ensures
        r@ == "vertical"@,
{
    String::from_str("vertical")
}

} // verus!
