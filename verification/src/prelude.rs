//! The names that a sketch needs.

pub use crate::color::Color;
pub use crate::colors;
pub use crate::constructors::{hex, hex_bytes, rgb, rgba};
pub use crate::render::{
    AnchorMode, Angle, AngleMode, BufferData, Call, Context, ContextStack, Count, DrawCommand,
    FillOptions, FillRule, GeometryBuilderError, Graphics, LineCap, Mesh, PassKind, PendingPass,
    Progress, RawBuffersBuilder, RendererInitError, StrokeOptions, TessellationError, Transform,
    TransformOp, Triangle, VertexId,
};
pub use crate::sketch::{Key, Settings};
pub use crate::state::Delta;
pub use crate::types::{BoundingBox, Coord, Index, Point, RawVertex, Scalar, Size, Vector, UNIT};
