//! Visual objects, and the kinds that can be taken out of a visual. The
//! tree that places visual objects in a window is not written yet.

use vstd::prelude::*;

verus! {

/// A drawable area.
#[derive(Debug, PartialEq, Eq, Structural)]
pub struct Canvas {}

/// An image.
#[derive(Debug, PartialEq, Eq, Structural)]
pub struct Image {}

/// A container of other visual objects.
#[derive(Debug, PartialEq, Eq, Structural)]
pub struct Panel {}

/// A block of text.
#[derive(Debug, PartialEq, Eq, Structural)]
pub struct Text {}

/// A visual object.
pub enum Visual {
    Canvas(Canvas),
    Image(Image),
}

/// A kind of visual object that can be taken out of a [`Visual`].
pub trait FromVisual: Sized {
    /// Whether `node` is of this kind.
    spec fn is_kind(node: Visual) -> bool;

    /// The visual of this kind that holds `value`.
    spec fn wrap(value: Self) -> Visual;

    /// The object, when the visual is of this kind.
    fn from_node(node: Visual) -> (r: Option<Self>)
        ensures
            r is Some <==> Self::is_kind(node),
            r matches Some(x) ==> node == Self::wrap(x),
    ;

    /// The object, when the visual is of this kind.
    fn from_ref(node: &Visual) -> (r: Option<&Self>)
        ensures
            r is Some <==> Self::is_kind(*node),
            r matches Some(x) ==> *node == Self::wrap(*x),
    ;

    /// The object, for mutation, when the visual is of this kind.
    fn from_mut(node: &mut Visual) -> (r: Option<&mut Self>)
        ensures
            r is Some <==> Self::is_kind(*old(node)),
            r matches Some(x) ==> *old(node) == Self::wrap(*x) && *final(node) == Self::wrap(
                *final(x),
            ),
            r is None ==> *final(node) == *old(node),
    ;
}

impl FromVisual for Canvas {
    open spec fn is_kind(node: Visual) -> bool {
        node is Canvas
    }

    open spec fn wrap(value: Self) -> Visual {
        Visual::Canvas(value)
    }

    fn from_node(node: Visual) -> (r: Option<Self>) {
        match node {
            Visual::Canvas(canvas) => Some(canvas),
            _ => None,
        }
    }

    fn from_ref(node: &Visual) -> (r: Option<&Self>) {
        match node {
            Visual::Canvas(canvas) => Some(canvas),
            _ => None,
        }
    }

    fn from_mut(node: &mut Visual) -> (r: Option<&mut Self>) {
        match node {
            Visual::Canvas(canvas) => Some(canvas),
            _ => None,
        }
    }
}

impl FromVisual for Image {
    open spec fn is_kind(node: Visual) -> bool {
        node is Image
    }

    open spec fn wrap(value: Self) -> Visual {
        Visual::Image(value)
    }

    fn from_node(node: Visual) -> (r: Option<Self>) {
        match node {
            Visual::Image(image) => Some(image),
            _ => None,
        }
    }

    fn from_ref(node: &Visual) -> (r: Option<&Self>) {
        match node {
            Visual::Image(image) => Some(image),
            _ => None,
        }
    }

    fn from_mut(node: &mut Visual) -> (r: Option<&mut Self>) {
        match node {
            Visual::Image(image) => Some(image),
            _ => None,
        }
    }
}

/// The identifier of a visual object in a [`VisualTree`].
#[derive(Clone, Copy, Debug, PartialEq, Eq, Structural)]
pub struct VisualId {
    index: u32,
    generation: u32,
}

/// Visits the objects of a visual tree.
pub trait SceneVisitor {
    fn visit_canvas(&mut self, canvas: &Canvas);

    fn visit_image(&mut self, image: &Image);
}

/// Visits the objects of a visual tree, for mutation.
pub trait SceneVisitorMut {
    fn visit_canvas_mut(&mut self, canvas: &mut Canvas);

    fn visit_image_mut(&mut self, image: &mut Image);
}

/// A tree of visual objects.
pub struct VisualTree {}

impl From<Canvas> for Visual {
    fn from(canvas: Canvas) -> (r: Self) {
        Visual::Canvas(canvas)
    }
}

impl vstd::std_specs::convert::FromSpecImpl<Canvas> for Visual {
    open spec fn obeys_from_spec() -> bool {
        true
    }

    open spec fn from_spec(canvas: Canvas) -> Self {
        Visual::Canvas(canvas)
    }
}

impl From<Image> for Visual {
    fn from(image: Image) -> (r: Self) {
        Visual::Image(image)
    }
}

impl vstd::std_specs::convert::FromSpecImpl<Image> for Visual {
    open spec fn obeys_from_spec() -> bool {
        true
    }

    open spec fn from_spec(image: Image) -> Self {
        Visual::Image(image)
    }
}

} // verus!
