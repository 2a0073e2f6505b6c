//! The drawing context, the recorder of drawing calls and the assembly of
//! tessellated shapes into buffers.

pub mod buffers;
pub mod calls;
pub mod construct;
pub mod context;
pub mod graphics;
pub mod laws;
pub mod renderer;

pub use self::buffers::{BufferData, PendingPass, Progress, TessellationError};
pub use self::calls::Call;
pub use self::construct::{
    Count, GeometryBuilderError, Mesh, PassKind, RawBuffersBuilder, Triangle, VertexId,
};
pub use self::context::{
    AnchorMode, Angle, AngleMode, Context, ContextStack, FillOptions, FillRule, LineCap,
    StrokeOptions, Transform, TransformOp,
};
pub use self::graphics::{DrawCommand, Graphics};
pub use self::renderer::RendererInitError;
