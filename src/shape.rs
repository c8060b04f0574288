use vstd::prelude::*;
use crate::frame::{Element, Frame, FrameView, Geometry, Shape};
use crate::geometry::{Pad, Point, Region, Rel, Sides, Size, LEN_MAX, PT, RATIO_MAX, RATIO_ONE};
use crate::style::{
    default_stroke, default_stroke_spec, opt_sides_wf, Color, RawStroke, ShapeStyle, Smart, Stroke,
    StyleMap,
};

verus! {

/// A category of shape.
#[derive(Clone, Copy, Debug, PartialEq, Eq, Hash)]
pub enum ShapeKind {
    /// A rectangle with equal side lengths.
    Square,
    /// A quadrilateral with four right angles.
    Rect,
    /// An ellipse with coinciding foci.
    Circle,
    /// A curve around two focal points.
    Ellipse,
}

pub open spec fn is_round_spec(kind: ShapeKind) -> bool {
    kind == ShapeKind::Circle || kind == ShapeKind::Ellipse
}

pub open spec fn is_quadratic_spec(kind: ShapeKind) -> bool {
    kind == ShapeKind::Square || kind == ShapeKind::Circle
}

/// Whether a shape kind is curvy.
pub fn is_round(kind: ShapeKind) -> (r: bool)
    ensures
        r == is_round_spec(kind),
{
    matches!(kind, ShapeKind::Circle | ShapeKind::Ellipse)
}

/// Whether a shape kind has equal side length.
pub fn is_quadratic(kind: ShapeKind) -> (r: bool)
    ensures
        r == is_quadratic_spec(kind),
{
    matches!(kind, ShapeKind::Square | ShapeKind::Circle)
}

/// The width of a shape without content, when the region leaves room for it.
pub const DEFAULT_WIDTH: i64 = 45 * PT;

/// The height of a shape without content, when the region leaves room for it.
pub const DEFAULT_HEIGHT: i64 = 30 * PT;

pub open spec fn min(a: int, b: int) -> int {
    if a <= b { a } else { b }
}

pub open spec fn max(a: int, b: int) -> int {
    if a >= b { a } else { b }
}

/// The larger of the target's components on the axes that expand, zero on the others.
pub open spec fn expand_length(region: Region) -> int {
    max(
        if region.expand_x { region.target.x as int } else { 0 },
        if region.expand_y { region.target.y as int } else { 0 },
    )
}

/// The size of a shape without content.
pub open spec fn empty_size_spec(kind: ShapeKind, region: Region) -> Size {
    let nx = min(DEFAULT_WIDTH as int, region.target.x as int);
    let ny = min(DEFAULT_HEIGHT as int, region.target.y as int);
    if is_quadratic_spec(kind) {
        let l = if region.expand_x || region.expand_y { expand_length(region) } else { min(nx, ny) };
        Size { x: l as i64, y: l as i64 }
    } else {
        Size {
            x: if region.expand_x { region.target.x } else { nx as i64 },
            y: if region.expand_y { region.target.y } else { ny as i64 },
        }
    }
}

fn min_i64(a: i64, b: i64) -> (r: i64)
    ensures
        r == min(a as int, b as int),
{
    if a <= b { a } else { b }
}

fn max_i64(a: i64, b: i64) -> (r: i64)
    ensures
        r == max(a as int, b as int),
{
    if a >= b { a } else { b }
}

fn expand_length_exec(region: &Region) -> (r: i64)
    ensures
        r == expand_length(*region),
{
    let x = if region.expand_x { region.target.x } else { 0 };
    let y = if region.expand_y { region.target.y } else { 0 };
    max_i64(x, y)
}

/// The size that a shape without content takes on in a region: a 45 by 30
/// point box clipped to the target, where each expanding axis takes the
/// target's length instead; a square or circle takes one side length for both
/// axes.
pub fn empty_size(kind: ShapeKind, region: &Region) -> (r: Size)
    requires
        region.wf(),
    ensures
        r == empty_size_spec(kind, *region),
        r.wf(),
{
    let nx = min_i64(DEFAULT_WIDTH, region.target.x);
    let ny = min_i64(DEFAULT_HEIGHT, region.target.y);
    if is_quadratic(kind) {
        let l = if region.expand_x || region.expand_y {
            expand_length_exec(region)
        } else {
            min_i64(nx, ny)
        };
        Size { x: l, y: l }
    } else {
        Size {
            x: if region.expand_x { region.target.x } else { nx },
            y: if region.expand_y { region.target.y } else { ny },
        }
    }
}

/// The side length of a square or circle whose content measured `measured`.
pub open spec fn forced_length_spec(region: Region, measured: Size) -> int {
    if region.expand_x || region.expand_y {
        expand_length(region)
    } else {
        min(min(max(measured.x as int, measured.y as int), region.target.x as int), region.target.y as int)
    }
}

/// The region for the second layout of a square's or circle's content.
pub open spec fn aspect_pod_spec(region: Region, measured: Size) -> Region {
    let l = forced_length_spec(region, measured) as i64;
    Region { target: Size { x: l, y: l }, base: region.base, expand_x: true, expand_y: true }
}

/// The region in which a square's or circle's content is laid out again, once
/// a first layout measured it: a square of the forced side length, expanding
/// on both axes. The side length is the larger expanding component of the
/// target where an axis expands, else the larger measured component, clipped
/// to the target.
pub fn aspect_pod(region: &Region, measured: Size) -> (r: Region)
    requires
        region.wf(),
        measured.wf(),
    ensures
        r == aspect_pod_spec(*region, measured),
        r.wf(),
        r.target.x == r.target.y,
{
    let l = if region.expand_x || region.expand_y {
        expand_length_exec(region)
    } else {
        min_i64(min_i64(max_i64(measured.x, measured.y), region.target.x), region.target.y)
    };
    Region { target: Size { x: l, y: l }, base: region.base, expand_x: true, expand_y: true }
}

/// The rational part of the extra ratio by which round shapes pad their
/// content, in millionths: one half.
pub const ROUND_INSET_RATIO: i64 = 500_000;

/// The part of that extra ratio in multiples of the square root of two, in
/// millionths: minus one quarter.
pub const ROUND_INSET_RATIO_SQRT2: i64 = -250_000;

/// The padding of each side of a shape's content.
pub open spec fn inset_spec(kind: ShapeKind, style: ShapeStyle) -> Sides<Pad> {
    Sides {
        left: pad_spec(kind, style.inset.left),
        top: pad_spec(kind, style.inset.top),
        right: pad_spec(kind, style.inset.right),
        bottom: pad_spec(kind, style.inset.bottom),
    }
}

pub open spec fn pad_spec(kind: ShapeKind, r: Rel) -> Pad {
    if is_round_spec(kind) {
        Pad { ratio: (r.ratio + ROUND_INSET_RATIO) as i64, ratio_sqrt2: ROUND_INSET_RATIO_SQRT2, abs: r.abs }
    } else {
        Pad::of_rel(r)
    }
}

fn pad_of(round: bool, r: Rel) -> (p: Pad)
    requires
        r.wf(),
    ensures
        round ==> p == (Pad { ratio: (r.ratio + ROUND_INSET_RATIO) as i64, ratio_sqrt2: ROUND_INSET_RATIO_SQRT2, abs: r.abs }),
        !round ==> p == Pad::of_rel(r),
        p.wf(),
{
    if round {
        assert(2 * ROUND_INSET_RATIO_SQRT2 * ROUND_INSET_RATIO_SQRT2 <= (r.ratio + ROUND_INSET_RATIO) * (r.ratio + ROUND_INSET_RATIO)) by (nonlinear_arith)
            requires 0 <= r.ratio;
        Pad { ratio: r.ratio + ROUND_INSET_RATIO, ratio_sqrt2: ROUND_INSET_RATIO_SQRT2, abs: r.abs }
    } else {
        Pad { ratio: r.ratio, ratio_sqrt2: 0, abs: r.abs }
    }
}

/// The padding of a shape's content: the style's inset, to which round shapes
/// add `1/2 - sqrt(2)/4` of the base on every side, so that the content stays
/// within the largest rectangle inscribed in the ellipse.
pub fn child_inset(kind: ShapeKind, style: &ShapeStyle) -> (r: Sides<Pad>)
    requires
        style.wf(),
    ensures
        r.left == pad_spec(kind, style.inset.left),
        r.top == pad_spec(kind, style.inset.top),
        r.right == pad_spec(kind, style.inset.right),
        r.bottom == pad_spec(kind, style.inset.bottom),
        r == inset_spec(kind, *style),
        r.left.wf() && r.top.wf() && r.right.wf() && r.bottom.wf(),
{
    let round = is_round(kind);
    Sides {
        left: pad_of(round, style.inset.left),
        top: pad_of(round, style.inset.top),
        right: pad_of(round, style.inset.right),
        bottom: pad_of(round, style.inset.bottom),
    }
}

pub open spec fn full_stroke(s: Option<RawStroke>) -> Option<Stroke> {
    match s {
        Some(raw) => Some(raw.unwrap_or_default_spec()),
        None => None,
    }
}

/// The stroke of each side: with an automatic stroke, the default stroke all
/// round where there is no fill and none where there is; else the given
/// sides, with what they leave out taken from the default stroke.
pub open spec fn stroke_spec(style: ShapeStyle) -> Sides<Option<Stroke>> {
    match style.stroke {
        Smart::Auto => if style.fill.is_none() {
            Sides::splat_spec(Some(default_stroke_spec()))
        } else {
            Sides::splat_spec(None)
        },
        Smart::Custom(s) => Sides {
            left: full_stroke(s.left),
            top: full_stroke(s.top),
            right: full_stroke(s.right),
            bottom: full_stroke(s.bottom),
        },
    }
}

fn full_stroke_exec(s: Option<RawStroke>) -> (r: Option<Stroke>)
    ensures
        r == full_stroke(s),
{
    match s {
        Some(raw) => Some(raw.unwrap_or_default()),
        None => None,
    }
}

/// Resolves the stroke of each side of a shape.
pub fn resolve_stroke(style: &ShapeStyle) -> (r: Sides<Option<Stroke>>)
    ensures
        r == stroke_spec(*style),
{
    match style.stroke {
        Smart::Auto => if style.fill.is_none() {
            Sides::splat(Some(default_stroke()))
        } else {
            Sides::splat(None)
        },
        Smart::Custom(s) => Sides {
            left: full_stroke_exec(s.left),
            top: full_stroke_exec(s.top),
            right: full_stroke_exec(s.right),
            bottom: full_stroke_exec(s.bottom),
        },
    }
}

/// Whether all four sides carry a stroke, and the same one.
pub open spec fn uniform_spec(s: Sides<Option<Stroke>>) -> bool {
    s.left.is_some() && s.top == s.left && s.right == s.left && s.bottom == s.left
}

fn same_stroke(a: &Option<Stroke>, b: &Option<Stroke>) -> (r: bool)
    ensures
        r == (*a == *b),
{
    match (a, b) {
        (Some(x), Some(y)) => {
            x.thickness == y.thickness && x.paint.r == y.paint.r && x.paint.g == y.paint.g
                && x.paint.b == y.paint.b && x.paint.a == y.paint.a
        },
        (None, None) => true,
        _ => false,
    }
}

/// Whether one shape outline can draw the given strokes: all four sides are
/// stroked, and alike.
pub fn is_uniform(s: &Sides<Option<Stroke>>) -> (r: bool)
    ensures
        r == uniform_spec(*s),
{
    s.left.is_some() && same_stroke(&s.top, &s.left) && same_stroke(&s.right, &s.left)
        && same_stroke(&s.bottom, &s.left)
}

/// The outset of each side, resolved against the pre-outset size: left and
/// right against the width, top and bottom against the height.
pub open spec fn outset_spec(style: ShapeStyle, size: Size) -> Sides<int> {
    Sides {
        left: style.outset.left.resolve_spec(size.x as int),
        top: style.outset.top.resolve_spec(size.y as int),
        right: style.outset.right.resolve_spec(size.x as int),
        bottom: style.outset.bottom.resolve_spec(size.y as int),
    }
}

/// The size of the drawn shape: the frame's size grown by the outsets.
pub open spec fn shape_size_spec(style: ShapeStyle, size: Size) -> Size {
    let o = outset_spec(style, size);
    Size { x: (size.x + o.left + o.right) as i64, y: (size.y + o.top + o.bottom) as i64 }
}

/// The corner radii, resolved against half of the drawn shape's size.
pub open spec fn radius_spec(style: ShapeStyle, size: Size) -> Sides<i64> {
    let g = shape_size_spec(style, size);
    Sides {
        left: style.radius.left.resolve_half_spec(g.x as int) as i64,
        top: style.radius.top.resolve_half_spec(g.y as int) as i64,
        right: style.radius.right.resolve_half_spec(g.x as int) as i64,
        bottom: style.radius.bottom.resolve_half_spec(g.y as int) as i64,
    }
}

/// Whether a shape element is drawn: there is a fill, or one uniform stroke.
pub open spec fn emits_shape(style: ShapeStyle) -> bool {
    style.fill.is_some() || uniform_spec(stroke_spec(style))
}

/// The shape element drawn for a frame of the given size.
pub open spec fn shape_spec(kind: ShapeKind, style: ShapeStyle, size: Size) -> Shape {
    let g = shape_size_spec(style, size);
    Shape {
        geometry: if is_round_spec(kind) {
            Geometry::Ellipse(g)
        } else {
            Geometry::Rect(g, radius_spec(style, size))
        },
        fill: style.fill,
        stroke: stroke_spec(style),
    }
}

/// Where the shape element stands: shifted up and left by the outsets.
pub open spec fn shape_pos_spec(style: ShapeStyle, size: Size) -> Point {
    let o = outset_spec(style, size);
    Point { x: -o.left as i64, y: -o.top as i64 }
}

/// A laid out frame with the shape drawn beneath its content and the style's link.
pub open spec fn decorated_spec(kind: ShapeKind, style: ShapeStyle, f: FrameView) -> FrameView {
    FrameView {
        size: f.size,
        elements: if emits_shape(style) {
            seq![(shape_pos_spec(style, f.size), Element::Shape(shape_spec(kind, style, f.size)))]
                + f.elements
        } else {
            f.elements
        },
        link: match style.link {
            Some(url) => Some(url@),
            None => f.link,
        },
    }
}

/// Draws the shape's fill and stroke beneath a laid out frame and attaches
/// the style's link.
pub fn decorate(kind: ShapeKind, style: &ShapeStyle, frame: Frame) -> (r: Frame)
    requires
        style.wf(),
        frame.size.wf(),
    ensures
        r@ == decorated_spec(kind, *style, frame@),
{
    let mut frame = frame;
    let size = frame.size;
    let fill = style.fill;
    let stroke = resolve_stroke(style);

    let ol = style.outset.left.resolve(size.x);
    let ot = style.outset.top.resolve(size.y);
    let or = style.outset.right.resolve(size.x);
    let ob = style.outset.bottom.resolve(size.y);
    assert(ol <= 1001 * LEN_MAX && or <= 1001 * LEN_MAX);
    assert(ot <= 1001 * LEN_MAX && ob <= 1001 * LEN_MAX);
    let shape_size = Size { x: size.x + ol + or, y: size.y + ot + ob };

    let radius = Sides {
        left: style.radius.left.resolve_half(shape_size.x),
        top: style.radius.top.resolve_half(shape_size.y),
        right: style.radius.right.resolve_half(shape_size.x),
        bottom: style.radius.bottom.resolve_half(shape_size.y),
    };

    if fill.is_some() || is_uniform(&stroke) {
        let geometry = if is_round(kind) {
            Geometry::Ellipse(shape_size)
        } else {
            Geometry::Rect(shape_size, radius)
        };
        let shape = Shape { geometry, fill, stroke };
        frame.prepend(Point { x: -ol, y: -ot }, Element::Shape(shape));
    }

    match &style.link {
        Some(url) => frame.link(url.clone()),
        None => {},
    }
    frame
}

pub open spec fn empty_frame_spec(kind: ShapeKind, style: ShapeStyle, region: Region) -> FrameView {
    decorated_spec(
        kind,
        style,
        FrameView { size: empty_size_spec(kind, region), elements: Seq::empty(), link: None },
    )
}

/// Lays out a shape without content.
pub fn layout_empty(kind: ShapeKind, style: &ShapeStyle, region: &Region) -> (r: Frame)
    requires
        style.wf(),
        region.wf(),
    ensures
        r@ == empty_frame_spec(kind, *style, *region),
{
    let size = empty_size(kind, region);
    decorate(kind, style, Frame::new(size))
}

/// Why a layout failed.
#[derive(Clone, Debug, PartialEq, Eq, Hash)]
pub enum LayoutError {
    /// The embedded content failed to lay itself out, for the reason given.
    Child(String),
    /// The embedded content returned a frame whose size is negative or
    /// larger than `LEN_MAX`.
    OutOfRange,
}

/// Place a node into a sizable and fillable shape. The content, if any, is
/// given by its layout function: it lays itself out, padded by the given
/// insets, into a region.
#[derive(Clone, Debug, PartialEq, Eq, Hash)]
pub struct ShapeNode<C> {
    pub kind: ShapeKind,
    pub child: Option<C>,
}

/// What the content returned, with an out-of-range frame refused.
pub open spec fn checked_spec(res: Result<Frame, LayoutError>) -> Result<Frame, LayoutError> {
    match res {
        Ok(f) => if f.size.wf() { Ok(f) } else { Err(LayoutError::OutOfRange) },
        Err(e) => Err(e),
    }
}

/// Passes on what the content returned: an in-range frame and an error
/// unchanged, a frame of negative or too large size as `OutOfRange`.
pub fn check_frame(res: Result<Frame, LayoutError>) -> (r: Result<Frame, LayoutError>)
    ensures
        r == checked_spec(res),
{
    match res {
        Ok(f) => if 0 <= f.size.x && f.size.x <= LEN_MAX && 0 <= f.size.y && f.size.y <= LEN_MAX {
            Ok(f)
        } else {
            Err(LayoutError::OutOfRange)
        },
        Err(e) => Err(e),
    }
}

pub open spec fn result_view(r: Result<Frame, LayoutError>) -> Result<FrameView, LayoutError> {
    match r {
        Ok(f) => Ok(f@),
        Err(e) => Err(e),
    }
}

/// The result of laying out a shape with content, given what the content
/// returned for the first region (`first`) and, for a square or circle, for
/// the second (`second`): the first error met is handed on; else the shape
/// is drawn beneath the last frame.
pub open spec fn content_result_spec(
    kind: ShapeKind,
    style: ShapeStyle,
    first: Result<Frame, LayoutError>,
    second: Result<Frame, LayoutError>,
) -> Result<FrameView, LayoutError> {
    match checked_spec(first) {
        Err(e) => Err(e),
        Ok(f1) => if is_quadratic_spec(kind) {
            match checked_spec(second) {
                Err(e) => Err(e),
                Ok(f2) => Ok(decorated_spec(kind, style, f2@)),
            }
        } else {
            Ok(decorated_spec(kind, style, f1@))
        },
    }
}

/// Whether `r` is a result of laying out `node` in `region`: without content
/// the empty frame; with content, the result for what the content returned
/// when laid out in `region` and, for a square or circle whose first layout
/// succeeded in range, in `aspect_pod` of the first frame's size.
pub open spec fn laid_out<C: Fn(Region, Sides<Pad>) -> Result<Frame, LayoutError>>(
    node: ShapeNode<C>,
    style: ShapeStyle,
    region: Region,
    r: Result<FrameView, LayoutError>,
) -> bool {
    match node.child {
        None => r == Ok::<FrameView, LayoutError>(empty_frame_spec(node.kind, style, region)),
        Some(c) => exists|first: Result<Frame, LayoutError>|
            #[trigger] c.ensures((region, inset_spec(node.kind, style)), first) && if is_quadratic_spec(node.kind)
                && checked_spec(first) is Ok {
                exists|second: Result<Frame, LayoutError>|
                    #[trigger] c.ensures(
                        (aspect_pod_spec(region, first->Ok_0.size), inset_spec(node.kind, style)),
                        second,
                    ) && r == content_result_spec(node.kind, style, first, second)
            } else {
                r == content_result_spec(node.kind, style, first, first)
            },
    }
}

/// Whether a layout function gives one result for each region and inset.
pub open spec fn deterministic<C: Fn(Region, Sides<Pad>) -> Result<Frame, LayoutError>>(c: C) -> bool {
    forall|p: Region, i: Sides<Pad>, a: Result<Frame, LayoutError>, b: Result<Frame, LayoutError>|
        #![trigger c.ensures((p, i), a), c.ensures((p, i), b)]
        c.ensures((p, i), a) && c.ensures((p, i), b) ==> a == b
}

/// Whether a layout function fills the target of every region that expands
/// on both axes.
pub open spec fn fills_expanding<C: Fn(Region, Sides<Pad>) -> Result<Frame, LayoutError>>(c: C) -> bool {
    forall|p: Region, i: Sides<Pad>, f: Frame|
        #![trigger c.ensures((p, i), Ok::<Frame, LayoutError>(f))]
        p.expand_x && p.expand_y && c.ensures((p, i), Ok::<Frame, LayoutError>(f)) ==> p.honored_by(f.size)
}

impl<C: Fn(Region, Sides<Pad>) -> Result<Frame, LayoutError>> ShapeNode<C> {
    /// Lays out the shape in a region. Without content it takes the size that
    /// `empty_size` gives. With content, the content is laid out once in the
    /// region, padded by `child_inset`; a square or circle then lays it out
    /// again in `aspect_pod`. Each result of the content goes through
    /// `check_frame`, and the first error is handed on; else the shape is
    /// drawn beneath the last frame, as `decorate` does.
    pub fn layout(&self, region: &Region, style: &ShapeStyle) -> (r: Result<Frame, LayoutError>)
        requires
            region.wf(),
            style.wf(),
            self.child matches Some(c) ==> forall|p: Region, i: Sides<Pad>| c.requires((p, i)),
        ensures
            laid_out(*self, *style, *region, result_view(r)),
    {
        match &self.child {
            Some(child) => {
                let ghost c = *child;
                let inset = child_inset(self.kind, style);
                let first = child(*region, inset);
                assert(c.ensures((*region, inset_spec(self.kind, *style)), first));
                let frame = match check_frame(first) {
                    Ok(f) => f,
                    Err(e) => {
                        assert(result_view(Err::<Frame, LayoutError>(e)) == content_result_spec(self.kind, *style, first, first));
                        return Err(e);
                    },
                };
                if is_quadratic(self.kind) {
                    let pod = aspect_pod(region, frame.size);
                    let second = child(pod, inset);
                    assert(c.ensures((aspect_pod_spec(*region, first->Ok_0.size), inset_spec(self.kind, *style)), second));
                    match check_frame(second) {
                        Ok(f) => {
                            let r = decorate(self.kind, style, f);
                            assert(result_view(Ok::<Frame, LayoutError>(r)) == content_result_spec(self.kind, *style, first, second));
                            Ok(r)
                        },
                        Err(e) => {
                            assert(result_view(Err::<Frame, LayoutError>(e)) == content_result_spec(self.kind, *style, first, second));
                            Err(e)
                        },
                    }
                } else {
                    let r = decorate(self.kind, style, frame);
                    assert(result_view(Ok::<Frame, LayoutError>(r)) == content_result_spec(self.kind, *style, first, first));
                    Ok(r)
                }
            },
            None => Ok(layout_empty(self.kind, style, region)),
        }
    }
}

/// A stroke argument: one value for all sides, or one for each side.
#[derive(Clone, Copy, Debug, PartialEq, Eq, Hash)]
pub enum StrokeArg {
    One(Smart<Option<RawStroke>>),
    PerSide(Smart<Sides<Option<RawStroke>>>),
}

/// The named arguments of a shape. A field left `None` was not given. A
/// one-value inset, outset or radius is given with all four sides set.
#[derive(Clone, Copy, Debug, PartialEq, Eq, Hash)]
pub struct ShapeArgs {
    pub size: Option<Rel>,
    pub width: Option<Rel>,
    pub height: Option<Rel>,
    pub radius: Option<Sides<Option<Rel>>>,
    pub fill: Option<Option<Color>>,
    pub stroke: Option<StrokeArg>,
    pub inset: Option<Sides<Option<Rel>>>,
    pub outset: Option<Sides<Option<Rel>>>,
}

/// Why a shape's arguments were refused.
#[derive(Clone, Copy, Debug, PartialEq, Eq, Hash)]
pub enum ArgumentError {
    /// A square's `size` holds a relative part; it must be an absolute length.
    SizeNotLength,
    /// A circle's `radius` is not one absolute length for all sides.
    RadiusNotLength,
    /// A round shape's `stroke` was given side by side; it takes one value.
    StrokeNotUniform,
}

/// A shape together with the width and height that it was given.
#[derive(Clone, Debug, PartialEq, Eq, Hash)]
pub struct SizedShape<C> {
    pub node: ShapeNode<C>,
    pub width: Option<Rel>,
    pub height: Option<Rel>,
}

impl ShapeArgs {
    /// Every length given is non-negative and in range.
    pub open spec fn wf(&self) -> bool {
        (self.size matches Some(r) ==> r.wf()) && (self.width matches Some(r) ==> r.wf())
            && (self.height matches Some(r) ==> r.wf()) && opt_sides_wf(self.radius)
            && opt_sides_wf(self.inset) && opt_sides_wf(self.outset)
    }
}

/// Whether a radius argument is one absolute length on all sides, and which.
pub open spec fn single_length(s: Sides<Option<Rel>>) -> Option<i64> {
    match s.left {
        Some(r) => if r.ratio == 0 && s.top == s.left && s.right == s.left && s.bottom == s.left {
            Some(r.abs)
        } else {
            None
        },
        None => None,
    }
}

/// The width and height that the arguments give a shape, or the error.
pub open spec fn construct_spec(kind: ShapeKind, args: ShapeArgs) -> Result<(Option<Rel>, Option<Rel>), ArgumentError> {
    match kind {
        ShapeKind::Square => match args.size {
            Some(r) => if r.ratio == 0 { Ok((Some(r), Some(r))) } else { Err(ArgumentError::SizeNotLength) },
            None => Ok((args.width, args.height)),
        },
        ShapeKind::Circle => match args.radius {
            Some(s) => match single_length(s) {
                Some(l) => {
                    let d = Rel { ratio: 0, abs: (2 * l) as i64 };
                    Ok((Some(d), Some(d)))
                },
                None => Err(ArgumentError::RadiusNotLength),
            },
            None => Ok((args.width, args.height)),
        },
        _ => Ok((args.width, args.height)),
    }
}

fn single_length_exec(s: &Sides<Option<Rel>>) -> (r: Option<i64>)
    ensures
        r == single_length(*s),
{
    match s.left {
        Some(l) => {
            let same = |o: Option<Rel>| -> (b: bool)
                ensures
                    b == (o == s.left),
                {
                    match o {
                        Some(x) => x.ratio == l.ratio && x.abs == l.abs,
                        None => false,
                    }
                };
            if l.ratio == 0 && same(s.top) && same(s.right) && same(s.bottom) {
                Some(l.abs)
            } else {
                None
            }
        },
        None => None,
    }
}

/// The stroke that a stroke argument sets on a shape of the given kind.
pub open spec fn stroke_arg_spec(round: bool, a: StrokeArg) -> Result<Smart<Sides<Option<RawStroke>>>, ArgumentError> {
    match a {
        StrokeArg::One(Smart::Auto) => Ok(Smart::Auto),
        StrokeArg::One(Smart::Custom(s)) => Ok(Smart::Custom(Sides::splat_spec(s))),
        StrokeArg::PerSide(s) => if round { Err(ArgumentError::StrokeNotUniform) } else { Ok(s) },
    }
}

/// The style properties that the arguments set, or the error.
pub open spec fn set_spec(kind: ShapeKind, args: ShapeArgs) -> Result<StyleMap, ArgumentError> {
    let stroke = match args.stroke {
        Some(a) => match stroke_arg_spec(is_round_spec(kind), a) {
            Ok(s) => Ok(Some(s)),
            Err(e) => Err(e),
        },
        None => Ok(None),
    };
    match stroke {
        Ok(stroke) => Ok(StyleMap {
            fill: args.fill,
            stroke,
            inset: args.inset,
            outset: args.outset,
            radius: if kind != ShapeKind::Circle { args.radius } else { None },
        }),
        Err(e) => Err(e),
    }
}

impl<C> ShapeNode<C> {
    /// Builds a shape from its arguments and content. A square's `size`, or
    /// a circle's `radius` doubled, gives both width and height, and then
    /// `width` and `height` are not read; else these two are taken as given.
    pub fn construct(kind: ShapeKind, args: &ShapeArgs, child: Option<C>) -> (r: Result<SizedShape<C>, ArgumentError>)
        requires
            args.wf(),
        ensures
            match construct_spec(kind, *args) {
                Ok((w, h)) => r matches Ok(s) && s.width == w && s.height == h && s.node.kind == kind
                    && s.node.child == child,
                Err(e) => r == Err::<SizedShape<C>, ArgumentError>(e),
            },
    {
        let size = match kind {
            ShapeKind::Square => match args.size {
                Some(r) => if r.ratio == 0 {
                    Some(r)
                } else {
                    return Err(ArgumentError::SizeNotLength);
                },
                None => None,
            },
            ShapeKind::Circle => match &args.radius {
                Some(s) => match single_length_exec(s) {
                    Some(l) => Some(Rel { ratio: 0, abs: 2 * l }),
                    None => return Err(ArgumentError::RadiusNotLength),
                },
                None => None,
            },
            _ => None,
        };
        let width = match size {
            None => args.width,
            size => size,
        };
        let height = match size {
            None => args.height,
            size => size,
        };
        Ok(SizedShape { node: ShapeNode { kind, child }, width, height })
    }

    /// Maps the arguments to the style properties they set: fill, stroke,
    /// inset, outset and, but for a circle, radius. A round shape takes one
    /// stroke for all sides.
    pub fn set(kind: ShapeKind, args: &ShapeArgs) -> (r: Result<StyleMap, ArgumentError>)
        requires
            args.wf(),
        ensures
            r == set_spec(kind, *args),
            r matches Ok(m) ==> m.wf(),
    {
        let mut styles = StyleMap::new();
        styles.fill = args.fill;
        match args.stroke {
            Some(StrokeArg::One(Smart::Auto)) => styles.stroke = Some(Smart::Auto),
            Some(StrokeArg::One(Smart::Custom(s))) => styles.stroke = Some(Smart::Custom(Sides::splat(s))),
            Some(StrokeArg::PerSide(s)) => if is_round(kind) {
                return Err(ArgumentError::StrokeNotUniform);
            } else {
                styles.stroke = Some(s);
            },
            None => {},
        }
        styles.inset = args.inset;
        styles.outset = args.outset;
        match kind {
            ShapeKind::Circle => {},
            _ => styles.radius = args.radius,
        }
        Ok(styles)
    }
}

/// A square or circle that `layout` returns is exactly as wide as it is
/// high, in every region and for every combination of expanding axes:
/// without content always, with content whenever the content fills each
/// region that expands on both axes.
pub proof fn lemma_aspect_lock<C: Fn(Region, Sides<Pad>) -> Result<Frame, LayoutError>>(
    node: ShapeNode<C>,
    style: ShapeStyle,
    region: Region,
    f: FrameView,
)
    requires
        is_quadratic_spec(node.kind),
        style.wf(),
        region.wf(),
        laid_out(node, style, region, Ok(f)),
        node.child matches Some(c) ==> fills_expanding(c),
    ensures
        f.size.x == f.size.y,
{
    match node.child {
        None => {},
        Some(c) => {
            let inset = inset_spec(node.kind, style);
            let first = choose|first: Result<Frame, LayoutError>|
                #[trigger] c.ensures((region, inset), first) && if is_quadratic_spec(node.kind)
                    && checked_spec(first) is Ok {
                    exists|second: Result<Frame, LayoutError>|
                        #[trigger] c.ensures((aspect_pod_spec(region, first->Ok_0.size), inset), second)
                            && Ok::<FrameView, LayoutError>(f) == content_result_spec(node.kind, style, first, second)
                } else {
                    Ok::<FrameView, LayoutError>(f) == content_result_spec(node.kind, style, first, first)
                };
            let pod = aspect_pod_spec(region, first->Ok_0.size);
            let second = choose|second: Result<Frame, LayoutError>|
                #[trigger] c.ensures((pod, inset), second)
                    && Ok::<FrameView, LayoutError>(f) == content_result_spec(node.kind, style, first, second);
            let f2 = second->Ok_0;
            assert(c.ensures((pod, inset), Ok::<Frame, LayoutError>(f2)));
            assert(pod.honored_by(f2.size));
        },
    }
}

/// The drawn shape is the frame grown by the outsets, each resolved against
/// the frame's length on its axis, and the corner radii are resolved against
/// half of that grown size.
pub proof fn lemma_outset_composition(style: ShapeStyle, size: Size)
    requires
        style.wf(),
        size.wf(),
    ensures
        shape_size_spec(style, size).x == size.x + style.outset.left.resolve_spec(size.x as int)
            + style.outset.right.resolve_spec(size.x as int),
        shape_size_spec(style, size).y == size.y + style.outset.top.resolve_spec(size.y as int)
            + style.outset.bottom.resolve_spec(size.y as int),
        radius_spec(style, size).left == style.radius.left.abs + style.radius.left.ratio
            * shape_size_spec(style, size).x / (2 * RATIO_ONE as int),
        radius_spec(style, size).top == style.radius.top.abs + style.radius.top.ratio
            * shape_size_spec(style, size).y / (2 * RATIO_ONE as int),
        radius_spec(style, size).right == style.radius.right.abs + style.radius.right.ratio
            * shape_size_spec(style, size).x / (2 * RATIO_ONE as int),
        radius_spec(style, size).bottom == style.radius.bottom.abs + style.radius.bottom.ratio
            * shape_size_spec(style, size).y / (2 * RATIO_ONE as int),
{
    lemma_resolved_bounds(style.outset.left, size.x as int);
    lemma_resolved_bounds(style.outset.right, size.x as int);
    lemma_resolved_bounds(style.outset.top, size.y as int);
    lemma_resolved_bounds(style.outset.bottom, size.y as int);
    let g = shape_size_spec(style, size);
    lemma_resolved_bounds(style.radius.left, g.x as int);
    lemma_resolved_bounds(style.radius.top, g.y as int);
    lemma_resolved_bounds(style.radius.right, g.x as int);
    lemma_resolved_bounds(style.radius.bottom, g.y as int);
}

/// A relative length resolved against an in-range base stays in `i64`.
proof fn lemma_resolved_bounds(r: Rel, base: int)
    requires
        r.wf(),
        0 <= base <= crate::geometry::SPAN_MAX,
    ensures
        0 <= r.resolve_spec(base) <= LEN_MAX + 1000 * base,
        0 <= r.resolve_half_spec(base) <= LEN_MAX + 1000 * base,
{
    let n = r.ratio * base;
    assert(0 <= n <= RATIO_ONE * (1000 * base)) by (nonlinear_arith)
        requires n == r.ratio * base, 0 <= r.ratio <= RATIO_MAX, 0 <= base;
    vstd::arithmetic::div_mod::lemma_div_is_ordered(n, RATIO_ONE * (1000 * base), RATIO_ONE as int);
    vstd::arithmetic::div_mod::lemma_div_multiples_vanish(1000 * base, RATIO_ONE as int);
    vstd::arithmetic::div_mod::lemma_div_pos_is_pos(n, RATIO_ONE as int);
    vstd::arithmetic::div_mod::lemma_div_pos_is_pos(n, 2 * RATIO_ONE as int);
    vstd::arithmetic::div_mod::lemma_div_is_ordered_by_denominator(n, RATIO_ONE as int, 2 * RATIO_ONE as int);
}

/// `layout` is a function of its inputs: on the same node, style and region,
/// two results are equal, whenever the content's own layout function gives
/// one result for each region and inset.
pub proof fn lemma_layout_deterministic<C: Fn(Region, Sides<Pad>) -> Result<Frame, LayoutError>>(
    node: ShapeNode<C>,
    style: ShapeStyle,
    region: Region,
    a: Result<FrameView, LayoutError>,
    b: Result<FrameView, LayoutError>,
)
    requires
        laid_out(node, style, region, a),
        laid_out(node, style, region, b),
        node.child matches Some(c) ==> deterministic(c),
    ensures
        a == b,
{
    match node.child {
        None => {},
        Some(c) => {
            let inset = inset_spec(node.kind, style);
            let fa = choose|first: Result<Frame, LayoutError>|
                #[trigger] c.ensures((region, inset), first) && if is_quadratic_spec(node.kind)
                    && checked_spec(first) is Ok {
                    exists|second: Result<Frame, LayoutError>|
                        #[trigger] c.ensures((aspect_pod_spec(region, first->Ok_0.size), inset), second)
                            && a == content_result_spec(node.kind, style, first, second)
                } else {
                    a == content_result_spec(node.kind, style, first, first)
                };
            let fb = choose|first: Result<Frame, LayoutError>|
                #[trigger] c.ensures((region, inset), first) && if is_quadratic_spec(node.kind)
                    && checked_spec(first) is Ok {
                    exists|second: Result<Frame, LayoutError>|
                        #[trigger] c.ensures((aspect_pod_spec(region, first->Ok_0.size), inset), second)
                            && b == content_result_spec(node.kind, style, first, second)
                } else {
                    b == content_result_spec(node.kind, style, first, first)
                };
            assert(fa == fb);
            if is_quadratic_spec(node.kind) && checked_spec(fa) is Ok {
                let pod = aspect_pod_spec(region, fa->Ok_0.size);
                let sa = choose|second: Result<Frame, LayoutError>|
                    #[trigger] c.ensures((pod, inset), second) && a == content_result_spec(node.kind, style, fa, second);
                let sb = choose|second: Result<Frame, LayoutError>|
                    #[trigger] c.ensures((pod, inset), second) && b == content_result_spec(node.kind, style, fb, second);
                assert(sa == sb);
            }
        },
    }
}

} // verus!
