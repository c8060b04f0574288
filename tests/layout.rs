use std::cell::RefCell;

use shapes::frame::{Element, Frame, Geometry, Shape};
use shapes::geometry::{Pad, Point, Region, Rel, Sides, Size, PT, RATIO_ONE};
use shapes::shape::{
    aspect_pod, child_inset, empty_size, is_quadratic, is_round, is_uniform, resolve_stroke,
    check_frame, LayoutError, ShapeKind, ShapeNode,
};
use shapes::style::{default_stroke, Color, RawStroke, ShapeStyle, Smart, Stroke};

const KINDS: [ShapeKind; 4] = [ShapeKind::Square, ShapeKind::Rect, ShapeKind::Circle, ShapeKind::Ellipse];

/// Content with a natural size that fills each expanding axis of its region
/// and remembers every region and inset it was laid out with.
struct Block {
    natural: Size,
    calls: RefCell<Vec<(Region, Sides<Pad>)>>,
}

impl Block {
    fn new(w: i64, h: i64) -> Block {
        Block { natural: Size::new(w, h), calls: RefCell::new(Vec::new()) }
    }
}

impl Block {
    fn lay(&self, pod: Region, inset: Sides<Pad>) -> Result<Frame, LayoutError> {
        self.calls.borrow_mut().push((pod, inset));
        let x = if pod.expand_x { pod.target.x } else { self.natural.x.min(pod.target.x) };
        let y = if pod.expand_y { pod.target.y } else { self.natural.y.min(pod.target.y) };
        let mut f = Frame::new(Size::new(x, y));
        f.push(Point { x: 0, y: 0 }, Element::Content("text".to_string()));
        Ok(f)
    }
}

type LayoutFn = fn(Region, Sides<Pad>) -> Result<Frame, LayoutError>;

fn failing(_pod: Region, _inset: Sides<Pad>) -> Result<Frame, LayoutError> {
    Err(LayoutError::Child("too large".to_string()))
}

fn negative(_pod: Region, _inset: Sides<Pad>) -> Result<Frame, LayoutError> {
    Ok(Frame::new(Size::new(-1, 5)))
}

/// A shape of the given kind holding the block.
fn with(block: &Block, kind: ShapeKind) -> ShapeNode<impl Fn(Region, Sides<Pad>) -> Result<Frame, LayoutError> + '_> {
    ShapeNode { kind, child: Some(move |p: Region, i: Sides<Pad>| block.lay(p, i)) }
}

fn region(x: i64, y: i64, ex: bool, ey: bool) -> Region {
    Region { target: Size::new(x, y), base: Size::new(x, y), expand_x: ex, expand_y: ey }
}

fn empty(kind: ShapeKind) -> ShapeNode<LayoutFn> {
    ShapeNode { kind, child: None }
}

fn shapes_of(f: &Frame) -> Vec<(Point, Shape)> {
    f.elements
        .iter()
        .filter_map(|(p, e)| match e {
            Element::Shape(s) => Some((*p, *s)),
            _ => None,
        })
        .collect()
}

#[test]
fn kind_predicates() {
    assert!(!is_round(ShapeKind::Square));
    assert!(!is_round(ShapeKind::Rect));
    assert!(is_round(ShapeKind::Circle));
    assert!(is_round(ShapeKind::Ellipse));
    assert!(is_quadratic(ShapeKind::Square));
    assert!(!is_quadratic(ShapeKind::Rect));
    assert!(is_quadratic(ShapeKind::Circle));
    assert!(!is_quadratic(ShapeKind::Ellipse));
}

#[test]
fn default_empty_box() {
    let style = ShapeStyle::initial();
    let r = region(500 * PT, 500 * PT, false, false);
    for kind in KINDS {
        let f = empty(kind).layout(&r, &style).unwrap();
        let expected = if is_quadratic(kind) { Size::new(30 * PT, 30 * PT) } else { Size::new(45 * PT, 30 * PT) };
        assert_eq!(f.size, expected);
    }
}

#[test]
fn default_box_clipped_to_target() {
    let r = region(20 * PT, 25 * PT, false, false);
    assert_eq!(empty_size(ShapeKind::Rect, &r), Size::new(20 * PT, 25 * PT));
    assert_eq!(empty_size(ShapeKind::Square, &r), Size::new(20 * PT, 20 * PT));
}

#[test]
fn expansion() {
    let style = ShapeStyle::initial();
    let r = region(200 * PT, 100 * PT, true, true);
    for kind in KINDS {
        let f = empty(kind).layout(&r, &style).unwrap();
        let expected = if is_quadratic(kind) { Size::new(200 * PT, 200 * PT) } else { Size::new(200 * PT, 100 * PT) };
        assert_eq!(f.size, expected);
    }
}

#[test]
fn expansion_on_one_axis() {
    let r = region(200 * PT, 100 * PT, false, true);
    assert_eq!(empty_size(ShapeKind::Rect, &r), Size::new(45 * PT, 100 * PT));
    assert_eq!(empty_size(ShapeKind::Circle, &r), Size::new(100 * PT, 100 * PT));
}

#[test]
fn aspect_lock_over_regions() {
    let style = ShapeStyle::initial();
    for (x, y) in [(0, 0), (10 * PT, 300 * PT), (500 * PT, 7 * PT), (123, 456)] {
        for ex in [false, true] {
            for ey in [false, true] {
                let r = region(x, y, ex, ey);
                for kind in [ShapeKind::Square, ShapeKind::Circle] {
                    let f = empty(kind).layout(&r, &style).unwrap();
                    assert_eq!(f.size.x, f.size.y);
                    let block = Block::new(40 * PT, 90 * PT);
                    let node = with(&block, kind);
                    let f = node.layout(&r, &style).unwrap();
                    assert_eq!(f.size.x, f.size.y);
                }
            }
        }
    }
}

#[test]
fn quadratic_content_laid_out_twice() {
    let style = ShapeStyle::initial();
    let block = Block::new(40 * PT, 90 * PT);
    let node = with(&block, ShapeKind::Square);
    let r = region(500 * PT, 500 * PT, false, false);
    let f = node.layout(&r, &style).unwrap();
    assert_eq!(f.size, Size::new(90 * PT, 90 * PT));
    let calls = block.calls.borrow();
    assert_eq!(calls.len(), 2);
    assert_eq!(calls[0].0, r);
    assert_eq!(
        calls[1].0,
        Region { target: Size::new(90 * PT, 90 * PT), base: r.base, expand_x: true, expand_y: true }
    );

    let block = Block::new(40 * PT, 90 * PT);
    let node = with(&block, ShapeKind::Rect);
    let f = node.layout(&r, &style).unwrap();
    assert_eq!(f.size, Size::new(40 * PT, 90 * PT));
    assert_eq!(block.calls.borrow().len(), 1);
}

#[test]
fn forced_length_clipped_to_target() {
    let r = region(500 * PT, 60 * PT, false, false);
    let pod = aspect_pod(&r, Size::new(40 * PT, 90 * PT));
    assert_eq!(pod.target, Size::new(60 * PT, 60 * PT));
    assert!(pod.expand_x && pod.expand_y);
    assert_eq!(pod.base, r.base);
    let pod = aspect_pod(&region(300 * PT, 100 * PT, true, false), Size::new(1, 2));
    assert_eq!(pod.target, Size::new(300 * PT, 300 * PT));
}

#[test]
fn shape_element_emission() {
    let mut style = ShapeStyle::initial();
    let left = RawStroke { paint: Some(Color { r: 255, g: 0, b: 0, a: 255 }), thickness: None };
    style.stroke = Smart::Custom(Sides { left: Some(left), top: None, right: None, bottom: None });
    let block = Block::new(40 * PT, 20 * PT);
    let node = with(&block, ShapeKind::Rect);
    let f = node.layout(&region(500 * PT, 500 * PT, false, false), &style).unwrap();
    assert!(shapes_of(&f).is_empty());
    assert_eq!(f.elements.len(), 1);
    assert_eq!(f.elements[0].1, Element::Content("text".to_string()));
}

#[test]
fn uniform_custom_stroke_is_drawn() {
    let mut style = ShapeStyle::initial();
    let raw = RawStroke { paint: None, thickness: Some(3 * PT) };
    style.stroke = Smart::Custom(Sides::splat(Some(raw)));
    let f = empty(ShapeKind::Ellipse).layout(&region(500 * PT, 500 * PT, false, false), &style).unwrap();
    let s = shapes_of(&f);
    assert_eq!(s.len(), 1);
    let black = Color { r: 0, g: 0, b: 0, a: 255 };
    assert_eq!(s[0].1.stroke, Sides::splat(Some(Stroke { paint: black, thickness: 3 * PT })));
    assert_eq!(s[0].1.geometry, Geometry::Ellipse(Size::new(45 * PT, 30 * PT)));
}

#[test]
fn automatic_stroke() {
    let mut style = ShapeStyle::initial();
    assert_eq!(resolve_stroke(&style), Sides::splat(Some(default_stroke())));
    assert_eq!(default_stroke().thickness, PT);
    let f = empty(ShapeKind::Rect).layout(&region(500 * PT, 500 * PT, false, false), &style).unwrap();
    assert_eq!(shapes_of(&f).len(), 1);

    let blue = Color { r: 0, g: 0, b: 255, a: 255 };
    style.fill = Some(blue);
    assert_eq!(resolve_stroke(&style), Sides::splat(None));
    let f = empty(ShapeKind::Rect).layout(&region(500 * PT, 500 * PT, false, false), &style).unwrap();
    let s = shapes_of(&f);
    assert_eq!(s.len(), 1);
    assert_eq!(s[0].1.fill, Some(blue));
    assert_eq!(s[0].1.stroke, Sides::splat(None));
}

#[test]
fn uniformity() {
    let a = Some(Stroke { paint: Color { r: 1, g: 2, b: 3, a: 4 }, thickness: 5 });
    let b = Some(Stroke { paint: Color { r: 1, g: 2, b: 3, a: 4 }, thickness: 6 });
    assert!(is_uniform(&Sides::splat(a)));
    assert!(!is_uniform(&Sides::splat(None)));
    assert!(!is_uniform(&Sides { left: a, top: a, right: a, bottom: b }));
    assert!(!is_uniform(&Sides { left: a, top: None, right: a, bottom: a }));
}

#[test]
fn round_shape_inset_correction() {
    let mut style = ShapeStyle::initial();
    style.inset = Sides::splat(Rel { ratio: 100_000, abs: 5 * PT });
    for kind in [ShapeKind::Circle, ShapeKind::Ellipse] {
        let pads = child_inset(kind, &style);
        for p in [pads.left, pads.top, pads.right, pads.bottom] {
            assert_eq!(p.abs, 5 * PT);
            let ratio = (p.ratio as f64 + p.ratio_sqrt2 as f64 * std::f64::consts::SQRT_2) / RATIO_ONE as f64;
            let expected = 0.1 + (0.5 - std::f64::consts::SQRT_2 / 4.0);
            assert!((ratio - expected).abs() <= 1e-9 * expected);
        }
    }
    for kind in [ShapeKind::Square, ShapeKind::Rect] {
        let pads = child_inset(kind, &style);
        assert_eq!(pads.left, Pad { ratio: 100_000, ratio_sqrt2: 0, abs: 5 * PT });
    }
}

#[test]
fn inset_handed_to_content() {
    let style = ShapeStyle::initial();
    let block = Block::new(10 * PT, 10 * PT);
    let node = with(&block, ShapeKind::Circle);
    node.layout(&region(100 * PT, 100 * PT, false, false), &style).unwrap();
    let calls = block.calls.borrow();
    assert_eq!(calls.len(), 2);
    for (_, inset) in calls.iter() {
        assert_eq!(inset.top, Pad { ratio: 500_000, ratio_sqrt2: -250_000, abs: 0 });
    }
}

#[test]
fn outset_size_composition() {
    let mut style = ShapeStyle::initial();
    style.fill = Some(Color { r: 9, g: 9, b: 9, a: 255 });
    style.outset = Sides::splat(Rel::length(10 * PT));
    style.radius = Sides::splat(Rel::ratio(RATIO_ONE / 2));
    let block = Block::new(100 * PT, 100 * PT);
    let node = with(&block, ShapeKind::Rect);
    let f = node.layout(&region(500 * PT, 500 * PT, false, false), &style).unwrap();
    assert_eq!(f.size, Size::new(100 * PT, 100 * PT));
    let s = shapes_of(&f);
    assert_eq!(s.len(), 1);
    assert_eq!(s[0].0, Point { x: -10 * PT, y: -10 * PT });
    assert_eq!(s[0].1.geometry, Geometry::Rect(Size::new(120 * PT, 120 * PT), Sides::splat(30 * PT)));
    assert_eq!(f.elements.len(), 2);
    assert!(matches!(f.elements[0].1, Element::Shape(_)));
}

#[test]
fn relative_outset() {
    let mut style = ShapeStyle::initial();
    style.outset = Sides { left: Rel::ratio(RATIO_ONE / 10), top: Rel::length(0), right: Rel::length(2 * PT), bottom: Rel::ratio(RATIO_ONE) };
    let f = empty(ShapeKind::Rect).layout(&region(500 * PT, 500 * PT, false, false), &style).unwrap();
    let s = shapes_of(&f);
    assert_eq!(s[0].0, Point { x: -4500, y: 0 });
    assert_eq!(s[0].1.geometry, Geometry::Rect(Size::new(45 * PT + 4500 + 2 * PT, 60 * PT), Sides::splat(0)));
}

#[test]
fn resolve_formula() {
    let r = Rel { ratio: 250_000, abs: 1000 };
    assert_eq!(r.resolve(8000), 3000);
    assert_eq!(r.resolve_half(8000), 2000);
    assert_eq!(Rel::ratio(RATIO_ONE / 3).resolve(10), 3);
}

#[test]
fn idempotence_determinism() {
    let mut style = ShapeStyle::initial();
    style.outset = Sides::splat(Rel::length(3 * PT));
    style.link = Some("https://example.com".to_string());
    let r = region(150 * PT, 80 * PT, false, true);
    for kind in KINDS {
        let block = Block::new(33 * PT, 44 * PT);
        let node = with(&block, kind);
        let a = node.layout(&r, &style).unwrap();
        let b = node.layout(&r, &style).unwrap();
        assert_eq!(a, b);
        let c = empty(kind).layout(&r, &style).unwrap();
        let d = empty(kind).layout(&r, &style).unwrap();
        assert_eq!(c, d);
    }
}

#[test]
fn link_attached() {
    let mut style = ShapeStyle::initial();
    let f = empty(ShapeKind::Square).layout(&region(500 * PT, 500 * PT, false, false), &style).unwrap();
    assert_eq!(f.link, None);
    style.link = Some("https://example.org".to_string());
    let f = empty(ShapeKind::Square).layout(&region(500 * PT, 500 * PT, false, false), &style).unwrap();
    assert_eq!(f.link, Some("https://example.org".to_string()));
}

#[test]
fn child_failure_propagates() {
    let style = ShapeStyle::initial();
    let node = ShapeNode { kind: ShapeKind::Circle, child: Some(failing as LayoutFn) };
    let r = node.layout(&region(500 * PT, 500 * PT, false, false), &style);
    assert_eq!(r, Err(LayoutError::Child("too large".to_string())));
    let node = ShapeNode { kind: ShapeKind::Rect, child: Some(negative as LayoutFn) };
    let r = node.layout(&region(500 * PT, 500 * PT, false, false), &style);
    assert_eq!(r, Err(LayoutError::OutOfRange));
}

#[test]
fn frame_check() {
    let ok = Frame::new(Size::new(3, 4));
    assert_eq!(check_frame(Ok(ok.clone())), Ok(ok));
    assert_eq!(check_frame(Ok(Frame::new(Size::new(3, -4)))), Err(LayoutError::OutOfRange));
    assert_eq!(
        check_frame(Ok(Frame::new(Size::new(shapes::geometry::LEN_MAX + 1, 0)))),
        Err(LayoutError::OutOfRange)
    );
    let e = Err(LayoutError::Child("x".to_string()));
    assert_eq!(check_frame(e.clone()), e);
}

#[test]
fn failure_in_second_pass_propagates() {
    let calls = RefCell::new(0);
    let content = |p: Region, _i: Sides<Pad>| {
        *calls.borrow_mut() += 1;
        if p.expand_x && p.expand_y {
            Err(LayoutError::Child("second".to_string()))
        } else {
            Ok(Frame::new(Size::new(10, 20)))
        }
    };
    let node = ShapeNode { kind: ShapeKind::Circle, child: Some(content) };
    let r = node.layout(&region(500 * PT, 500 * PT, false, false), &ShapeStyle::initial());
    assert_eq!(r, Err(LayoutError::Child("second".to_string())));
    assert_eq!(*calls.borrow(), 2);
}
