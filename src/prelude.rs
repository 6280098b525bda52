//! The items most users need, in one place.
pub use crate::document::{Group, Node, PathDescriptor, PathNode, Svg, Tree, ViewBox};
pub use crate::geom::{Point, Transform2, Vec2, Vec3, FIXED_ONE};
pub use crate::origin::{Origin, OriginState};
pub use crate::path::{PathConvIter, PathEvent, PathSegment};
pub use crate::style::{Color, DrawType, Fill, LineCap, LineJoin, Paint, Stroke, StrokeOptions};
pub use crate::tessellation::{Geometry, MeshBuffer};
pub use crate::{Convert, SvgPlugin, SvgSet};
