//! Turns vector image documents into triangle meshes, and keeps drawn
//! instances placed under a chosen origin.
use vstd::prelude::*;

pub mod document;
pub mod geom;
pub mod origin;
pub mod path;
pub mod prelude;
pub mod render;
pub mod style;
pub mod tessellation;

use crate::document::PathNode;
use crate::path::{convert_spec, PathConvIter};
use crate::style::{paint_color_spec, stroke_options_spec, Color, DrawType, Stroke};

verus! {

/// The plugin that loads, meshes and places images; the host wires it up.
#[derive(Clone, Copy, Debug, PartialEq, Eq, Structural)]
pub struct SvgPlugin;

/// The stages in which the host runs this library's passes.
#[derive(Clone, Copy, Debug, PartialEq, Eq, Structural)]
pub enum SvgSet {
    /// The stage in which images are linked to their meshes and drawn.
    SVG,
}

/// A conversion of a borrowed value into another type.
pub trait Convert<T>: Sized {
    /// Converts the value to `T`.
    fn convert(self) -> T;
}

impl<'a> Convert<PathConvIter> for &'a PathNode {
    /// A converter over the path's commands, sign-corrected by its absolute transform.
    fn convert(self) -> (r: PathConvIter)
        ensures
            r.wf(),
            r.pending() == convert_spec(
                self.segments@,
                self.abs_transform.sx < 0,
                self.abs_transform.sy < 0,
            ),
    {
        self.conv_iter()
    }
}

impl<'a> Convert<(Color, DrawType)> for &'a Stroke {
    /// The stroke's color and its draw type with the stroke's options.
    fn convert(self) -> (r: (Color, DrawType))
        ensures
            r == (paint_color_spec(self.paint, self.opacity), DrawType::Stroke(
                stroke_options_spec(*self),
            )),
    {
        self.resolve()
    }
}

} // verus!
