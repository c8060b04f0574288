use vstd::prelude::*;
use crate::geometry::{Point, Sides, Size};
use crate::style::{Color, Stroke};

verus! {

/// The outline of a drawn shape.
#[derive(Clone, Copy, Debug, PartialEq, Eq, Hash)]
pub enum Geometry {
    /// A rectangle of the given size with a radius for each corner side.
    Rect(Size, Sides<i64>),
    /// An ellipse inscribed in a box of the given size.
    Ellipse(Size),
}

/// A filled and stroked outline.
#[derive(Clone, Copy, Debug, PartialEq, Eq, Hash)]
pub struct Shape {
    pub geometry: Geometry,
    pub fill: Option<Color>,
    pub stroke: Sides<Option<Stroke>>,
}

/// Something drawn into a frame.
#[derive(Clone, Debug, PartialEq, Eq, Hash)]
pub enum Element {
    /// A shape with fill and stroke.
    Shape(Shape),
    /// Content of the embedded node, carried through as it was laid out.
    Content(String),
}

/// A finished box: its size, what is drawn into it, and where it links to.
#[derive(Clone, Debug, PartialEq, Eq, Hash)]
pub struct Frame {
    pub size: Size,
    pub elements: Vec<(Point, Element)>,
    pub link: Option<String>,
}

/// The mathematical value of a frame.
pub struct FrameView {
    pub size: Size,
    pub elements: Seq<(Point, Element)>,
    pub link: Option<Seq<char>>,
}

impl View for Frame {
    type V = FrameView;

    open spec fn view(&self) -> FrameView {
        FrameView {
            size: self.size,
            elements: self.elements@,
            link: match self.link {
                Some(s) => Some(s@),
                None => None,
            },
        }
    }
}

impl Frame {
    /// An empty frame of the given size.
    pub fn new(size: Size) -> (r: Frame)
        ensures
            r@ == (FrameView { size, elements: Seq::empty(), link: None }),
    {
        Frame { size, elements: Vec::new(), link: None }
    }

    /// Adds an element below all others.
    pub fn prepend(&mut self, pos: Point, element: Element)
        ensures
            final(self)@ == (FrameView {
                elements: seq![(pos, element)] + old(self)@.elements,
                ..old(self)@
            }),
    {
        self.elements.insert(0, (pos, element));
        assert(self.elements@ =~= seq![(pos, element)] + old(self)@.elements);
    }

    /// Adds an element above all others.
    pub fn push(&mut self, pos: Point, element: Element)
        ensures
            final(self)@ == (FrameView {
                elements: old(self)@.elements.push((pos, element)),
                ..old(self)@
            }),
    {
        self.elements.push((pos, element));
    }

    /// Links the whole frame to a destination.
    pub fn link(&mut self, url: String)
        ensures
            final(self)@ == (FrameView { link: Some(url@), ..old(self)@ }),
    {
        self.link = Some(url);
    }
}

} // verus!
