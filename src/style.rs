use vstd::prelude::*;
use crate::geometry::{Rel, Sides, PT};

verus! {

/// An RGBA color.
#[derive(Clone, Copy, Debug, PartialEq, Eq, Hash)]
pub struct Color {
    pub r: u8,
    pub g: u8,
    pub b: u8,
    pub a: u8,
}

/// The thickness of the stroke that a shape gets when nothing else is said.
pub const DEFAULT_THICKNESS: i64 = PT;

/// A stroke whose paint and thickness are known.
#[derive(Clone, Copy, Debug, PartialEq, Eq, Hash)]
pub struct Stroke {
    pub paint: Color,
    pub thickness: i64,
}

/// A stroke as it is written, where paint and thickness may be left out.
#[derive(Clone, Copy, Debug, PartialEq, Eq, Hash)]
pub struct RawStroke {
    pub paint: Option<Color>,
    pub thickness: Option<i64>,
}

/// A value that is either computed from context or given.
#[derive(Clone, Copy, Debug, PartialEq, Eq, Hash)]
pub enum Smart<T> {
    Auto,
    Custom(T),
}

pub open spec fn black() -> Color {
    Color { r: 0, g: 0, b: 0, a: 255 }
}

pub open spec fn default_stroke_spec() -> Stroke {
    Stroke { paint: black(), thickness: DEFAULT_THICKNESS }
}

/// A black stroke of one point.
pub fn default_stroke() -> (r: Stroke)
    ensures
        r == default_stroke_spec(),
{
    Stroke { paint: Color { r: 0, g: 0, b: 0, a: 255 }, thickness: DEFAULT_THICKNESS }
}

impl RawStroke {
    pub open spec fn unwrap_or_default_spec(self) -> Stroke {
        Stroke {
            paint: match self.paint {
                Some(p) => p,
                None => black(),
            },
            thickness: match self.thickness {
                Some(t) => t,
                None => DEFAULT_THICKNESS,
            },
        }
    }

    /// Fills what is left out with the default stroke's paint and thickness.
    pub fn unwrap_or_default(&self) -> (r: Stroke)
        ensures
            r == self.unwrap_or_default_spec(),
    {
        let d = default_stroke();
        Stroke {
            paint: match self.paint {
                Some(p) => p,
                None => d.paint,
            },
            thickness: match self.thickness {
                Some(t) => t,
                None => d.thickness,
            },
        }
    }

    pub open spec fn fold_spec(self, outer: RawStroke) -> RawStroke {
        RawStroke {
            paint: match self.paint {
                Some(p) => Some(p),
                None => outer.paint,
            },
            thickness: match self.thickness {
                Some(t) => Some(t),
                None => outer.thickness,
            },
        }
    }

    /// Takes from `outer` what this stroke leaves out.
    pub fn fold(&self, outer: &RawStroke) -> (r: RawStroke)
        ensures
            r == self.fold_spec(*outer),
    {
        RawStroke {
            paint: match self.paint {
                Some(p) => Some(p),
                None => outer.paint,
            },
            thickness: match self.thickness {
                Some(t) => Some(t),
                None => outer.thickness,
            },
        }
    }
}

/// The resolved style properties of a shape.
#[derive(Clone, Debug, PartialEq, Eq, Hash)]
pub struct ShapeStyle {
    /// How to fill the shape.
    pub fill: Option<Color>,
    /// How to stroke the shape, side by side.
    pub stroke: Smart<Sides<Option<RawStroke>>>,
    /// How much to pad the shape's content.
    pub inset: Sides<Rel>,
    /// How much to extend the shape's dimensions beyond the allocated space.
    pub outset: Sides<Rel>,
    /// How much to round the shape's corners.
    pub radius: Sides<Rel>,
    /// Where the shape links to.
    pub link: Option<String>,
}

pub open spec fn sides_wf(s: Sides<Rel>) -> bool {
    s.left.wf() && s.top.wf() && s.right.wf() && s.bottom.wf()
}

impl ShapeStyle {
    /// All lengths are non-negative and in range.
    pub open spec fn wf(&self) -> bool {
        sides_wf(self.inset) && sides_wf(self.outset) && sides_wf(self.radius)
    }

    /// No fill, an automatic stroke, no padding, outset or rounding, no link.
    pub fn initial() -> (r: ShapeStyle)
        ensures
            r.wf(),
            r.fill.is_none(),
            r.stroke == Smart::<Sides<Option<RawStroke>>>::Auto,
            r.inset == Sides::splat_spec(Rel::zero_spec()),
            r.outset == Sides::splat_spec(Rel::zero_spec()),
            r.radius == Sides::splat_spec(Rel::zero_spec()),
            r.link.is_none(),
    {
        let z = Rel::length(0);
        ShapeStyle {
            fill: None,
            stroke: Smart::Auto,
            inset: Sides::splat(z),
            outset: Sides::splat(z),
            radius: Sides::splat(z),
            link: None,
        }
    }
}

/// Style properties that a shape's arguments set. A property left `None`
/// keeps the value of the ambient style, and so does a side left `None`.
#[derive(Clone, Copy, Debug, PartialEq, Eq, Hash)]
pub struct StyleMap {
    pub fill: Option<Option<Color>>,
    pub stroke: Option<Smart<Sides<Option<RawStroke>>>>,
    pub inset: Option<Sides<Option<Rel>>>,
    pub outset: Option<Sides<Option<Rel>>>,
    pub radius: Option<Sides<Option<Rel>>>,
}

pub open spec fn side_or(inner: Option<Rel>, outer: Rel) -> Rel {
    match inner {
        Some(r) => r,
        None => outer,
    }
}

/// Sides given in `inner` replace those of `outer`; the others stay.
pub open spec fn fold_sides_spec(inner: Option<Sides<Option<Rel>>>, outer: Sides<Rel>) -> Sides<Rel> {
    match inner {
        Some(s) => Sides {
            left: side_or(s.left, outer.left),
            top: side_or(s.top, outer.top),
            right: side_or(s.right, outer.right),
            bottom: side_or(s.bottom, outer.bottom),
        },
        None => outer,
    }
}

pub open spec fn fold_stroke_side(inner: Option<RawStroke>, outer: Option<RawStroke>) -> Option<RawStroke> {
    match (inner, outer) {
        (Some(a), Some(b)) => Some(a.fold_spec(b)),
        _ => inner,
    }
}

/// A given stroke replaces an automatic one; over a given one, each side
/// takes from the outer side what it leaves out.
pub open spec fn fold_stroke_spec(
    inner: Option<Smart<Sides<Option<RawStroke>>>>,
    outer: Smart<Sides<Option<RawStroke>>>,
) -> Smart<Sides<Option<RawStroke>>> {
    match (inner, outer) {
        (Some(Smart::Custom(i)), Smart::Custom(o)) => Smart::Custom(Sides {
            left: fold_stroke_side(i.left, o.left),
            top: fold_stroke_side(i.top, o.top),
            right: fold_stroke_side(i.right, o.right),
            bottom: fold_stroke_side(i.bottom, o.bottom),
        }),
        (Some(i), _) => i,
        (None, o) => o,
    }
}

pub open spec fn opt_sides_wf(s: Option<Sides<Option<Rel>>>) -> bool {
    match s {
        Some(s) => (s.left matches Some(r) ==> r.wf()) && (s.top matches Some(r) ==> r.wf())
            && (s.right matches Some(r) ==> r.wf()) && (s.bottom matches Some(r) ==> r.wf()),
        None => true,
    }
}

fn side_or_exec(inner: Option<Rel>, outer: Rel) -> (r: Rel)
    ensures
        r == side_or(inner, outer),
{
    match inner {
        Some(r) => r,
        None => outer,
    }
}

fn fold_sides(inner: Option<Sides<Option<Rel>>>, outer: Sides<Rel>) -> (r: Sides<Rel>)
    ensures
        r == fold_sides_spec(inner, outer),
{
    match inner {
        Some(s) => Sides {
            left: side_or_exec(s.left, outer.left),
            top: side_or_exec(s.top, outer.top),
            right: side_or_exec(s.right, outer.right),
            bottom: side_or_exec(s.bottom, outer.bottom),
        },
        None => outer,
    }
}

fn fold_stroke_side_exec(inner: Option<RawStroke>, outer: Option<RawStroke>) -> (r: Option<RawStroke>)
    ensures
        r == fold_stroke_side(inner, outer),
{
    match (inner, outer) {
        (Some(a), Some(b)) => Some(a.fold(&b)),
        _ => inner,
    }
}

fn fold_stroke(
    inner: Option<Smart<Sides<Option<RawStroke>>>>,
    outer: Smart<Sides<Option<RawStroke>>>,
) -> (r: Smart<Sides<Option<RawStroke>>>)
    ensures
        r == fold_stroke_spec(inner, outer),
{
    match (inner, outer) {
        (Some(Smart::Custom(i)), Smart::Custom(o)) => Smart::Custom(Sides {
            left: fold_stroke_side_exec(i.left, o.left),
            top: fold_stroke_side_exec(i.top, o.top),
            right: fold_stroke_side_exec(i.right, o.right),
            bottom: fold_stroke_side_exec(i.bottom, o.bottom),
        }),
        (Some(i), _) => i,
        (None, o) => o,
    }
}

impl StyleMap {
    /// Sets nothing.
    pub fn new() -> (r: StyleMap)
        ensures
            r.fill.is_none() && r.stroke.is_none() && r.inset.is_none() && r.outset.is_none()
                && r.radius.is_none(),
    {
        StyleMap { fill: None, stroke: None, inset: None, outset: None, radius: None }
    }

    /// All lengths that the map sets are non-negative and in range.
    pub open spec fn wf(&self) -> bool {
        opt_sides_wf(self.inset) && opt_sides_wf(self.outset) && opt_sides_wf(self.radius)
    }

    pub open spec fn apply_spec(self, outer: ShapeStyle) -> ShapeStyle {
        ShapeStyle {
            fill: match self.fill {
                Some(f) => f,
                None => outer.fill,
            },
            stroke: fold_stroke_spec(self.stroke, outer.stroke),
            inset: fold_sides_spec(self.inset, outer.inset),
            outset: fold_sides_spec(self.outset, outer.outset),
            radius: fold_sides_spec(self.radius, outer.radius),
            link: outer.link,
        }
    }

    /// The style that results from setting these properties over `outer`.
    pub fn apply(&self, outer: &ShapeStyle) -> (r: ShapeStyle)
        requires
            self.wf(),
            outer.wf(),
        ensures
            r == self.apply_spec(*outer),
            r.wf(),
    {
        ShapeStyle {
            fill: match self.fill {
                Some(f) => f,
                None => outer.fill,
            },
            stroke: fold_stroke(self.stroke, outer.stroke),
            inset: fold_sides(self.inset, outer.inset),
            outset: fold_sides(self.outset, outer.outset),
            radius: fold_sides(self.radius, outer.radius),
            link: outer.link.clone(),
        }
    }
}

} // verus!
