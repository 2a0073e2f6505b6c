//! From a command log to the two buffers of a frame. The log is read in
//! order; for each tessellation that it asks for, the caller runs the
//! tessellator and hands back the mesh.

use vstd::prelude::*;
use crate::color::Color;
use crate::render::construct::{
    valid_indices, BuilderView, GeometryBuilderError, Mesh, MeshView, PassKind, RawBuffersBuilder,
};
use crate::render::context::{Context, ContextView};
use crate::render::graphics::{command_views, context_at, CommandView, DrawCommand};
use crate::types::{Index, Point, RawVertex};

verus! {

/// Why no buffers came of a frame.
#[derive(Clone, Copy, Debug, PartialEq, Eq, Structural)]
pub enum TessellationError {
    /// The tessellator does not support what was asked of it.
    UnsupportedParameter,
    /// A vertex or a triangle was refused as invalid.
    InvalidVertex,
    /// A shape needed more vertices than the index type can name.
    TooManyVertices,
    /// The tessellator failed on the shape.
    Internal,
}

impl TessellationError {
    /// The failure of a frame that follows from a refusal by the sink.
    pub open spec fn spec_from_builder(e: GeometryBuilderError) -> TessellationError {
        match e {
            GeometryBuilderError::InvalidVertex => TessellationError::InvalidVertex,
            GeometryBuilderError::TooManyVertices => TessellationError::TooManyVertices,
        }
    }

    /// The failure of a frame that follows from a refusal by the sink.
    pub fn from_builder(e: GeometryBuilderError) -> (t: TessellationError)
        ensures
            t == Self::spec_from_builder(e),
    {
        match e {
            GeometryBuilderError::InvalidVertex => TessellationError::InvalidVertex,
            GeometryBuilderError::TooManyVertices => TessellationError::TooManyVertices,
        }
    }
}

/// The geometry of a frame: its vertices, and the indices of its triangles.
/// Fills and outlines share the two buffers. The shapes stand in them in the
/// order of the log, the fill of a shape before its outline, and every three
/// indices are one triangle.
#[derive(Debug, PartialEq, Eq)]
pub struct BufferData {
    pub vertices: Vec<RawVertex>,
    pub indices: Vec<Index>,
}

/// What the buffers hold, as a value of specifications.
pub struct BufferDataView {
    pub vertices: Seq<RawVertex>,
    pub indices: Seq<Index>,
}

impl View for BufferData {
    type V = BufferDataView;

    open spec fn view(&self) -> BufferDataView {
        BufferDataView { vertices: self.vertices@, indices: self.indices@ }
    }
}

impl BufferDataView {
    /// The indices come in threes and each names a vertex.
    pub open spec fn valid(self) -> bool {
        valid_indices(self.vertices.len() as int, self.indices)
    }
}

/// What a tessellator answers, as a value of specifications.
pub open spec fn reply_view(reply: Result<Mesh, TessellationError>) -> Result<
    MeshView,
    TessellationError,
> {
    match reply {
        Ok(mesh) => Ok(mesh@),
        Err(e) => Err(e),
    }
}

/// A frame that waits for the mesh of one pass, as a value of
/// specifications.
pub struct PendingView {
    pub commands: Seq<CommandView>,
    /// The context in force before the first command of the log.
    pub initial: ContextView,
    /// The place in the log of the shape to tessellate.
    pub index: int,
    /// Which tessellation of the shape is asked for.
    pub kind: PassKind,
    /// The sink with all earlier passes in it, under the context in force at
    /// the shape.
    pub builder: BuilderView,
}

/// How far a frame has come, as a value of specifications.
pub enum ProgressView {
    Pending(PendingView),
    Finished(Result<BufferDataView, TessellationError>),
}

impl PendingView {
    /// The shape to tessellate is a shape of the log; the sink is well formed
    /// and has the context that the log has in force at the shape; the color
    /// of the pass is turned on in that context.
    pub open spec fn wf(self) -> bool {
        &&& 0 <= self.index < self.commands.len()
        &&& self.commands[self.index] is Draw
        &&& self.builder.wf()
        &&& self.builder.context == self.context()
        &&& self.builder.color(self.kind) is Some
    }

    /// The context that the log has in force at the shape to tessellate.
    pub open spec fn context(self) -> ContextView {
        context_at(self.commands, self.initial, self.index)
    }

    /// The color of the vertices of the pass: the fill color of the context
    /// for a fill, its stroke color for an outline.
    pub open spec fn color(self) -> Option<Color> {
        match self.kind {
            PassKind::Fill => self.context().fill,
            PassKind::Stroke => self.context().stroke,
        }
    }

    /// Whether the polyline to tessellate is closed.
    pub open spec fn closed(self) -> bool {
        self.commands[self.index]->Draw_0
    }

    /// The points of the polyline to tessellate.
    pub open spec fn points(self) -> Seq<Point> {
        self.commands[self.index]->Draw_1
    }

    /// How the frame goes on with the answer of the tessellator: it fails
    /// with the tessellator or where the sink refuses the mesh; else the mesh
    /// is in the sink, and the log is read on behind the pass.
    pub open spec fn supplied(self, reply: Result<MeshView, TessellationError>) -> ProgressView {
        match reply {
            Err(e) => ProgressView::Finished(Err(e)),
            Ok(mesh) => match self.builder.with_mesh(self.kind, mesh) {
                Err(e) => ProgressView::Finished(Err(TessellationError::spec_from_builder(e))),
                Ok(builder) => match self.kind {
                    PassKind::Fill => resume(
                        self.commands,
                        self.initial,
                        self.index,
                        PassKind::Stroke,
                        builder,
                    ),
                    PassKind::Stroke => resume(
                        self.commands,
                        self.initial,
                        self.index + 1,
                        PassKind::Fill,
                        builder,
                    ),
                },
            },
        }
    }
}

impl ProgressView {
    pub open spec fn wf(self) -> bool {
        match self {
            ProgressView::Pending(pending) => pending.wf(),
            ProgressView::Finished(Ok(data)) => data.valid(),
            ProgressView::Finished(Err(_)) => true,
        }
    }
}

/// Reading the log on from the command at `index`, of which the pass `kind`
/// is the next to consider. A context update puts its context in force. A
/// shape asks for its fill where the fill color is turned on, then for its
/// outline where the stroke color is turned on. At the end of the log the
/// frame is finished with what the sink holds.
pub open spec fn resume(
    commands: Seq<CommandView>,
    initial: ContextView,
    index: int,
    kind: PassKind,
    builder: BuilderView,
) -> ProgressView
    decreases commands.len() - index, (if kind is Fill { 1int } else { 0int }),
{
    if index < 0 || index >= commands.len() {
        ProgressView::Finished(
            Ok(BufferDataView { vertices: builder.vertices, indices: builder.indices }),
        )
    } else {
        match commands[index] {
            CommandView::UpdateContext(context) => resume(
                commands,
                initial,
                index + 1,
                PassKind::Fill,
                BuilderView { context, ..builder },
            ),
            CommandView::Draw(_, _) => match kind {
                PassKind::Fill => if builder.context.fill is Some {
                    ProgressView::Pending(PendingView { commands, initial, index, kind, builder })
                } else {
                    resume(commands, initial, index, PassKind::Stroke, builder)
                },
                PassKind::Stroke => if builder.context.stroke is Some {
                    ProgressView::Pending(PendingView { commands, initial, index, kind, builder })
                } else {
                    resume(commands, initial, index + 1, PassKind::Fill, builder)
                },
            },
        }
    }
}

/// The start of a frame: the log is read from its beginning into an empty
/// sink, under the context in force before the first command.
pub open spec fn started(commands: Seq<CommandView>, initial: ContextView, limit: Index) -> ProgressView {
    resume(
        commands,
        initial,
        0,
        PassKind::Fill,
        BuilderView {
            vertices: Seq::empty(),
            indices: Seq::empty(),
            offsets: (0, 0),
            context: initial,
            limit,
        },
    )
}

/// Reading on keeps the frame well formed, and leaves the buffers as they
/// are.
pub proof fn lemma_resume_wf(
    commands: Seq<CommandView>,
    initial: ContextView,
    index: int,
    kind: PassKind,
    builder: BuilderView,
)
    requires
        builder.wf(),
        0 <= index <= commands.len(),
        builder.context == context_at(commands, initial, index),
    ensures
        resume(commands, initial, index, kind, builder).wf(),
        match resume(commands, initial, index, kind, builder) {
            ProgressView::Pending(pending) => {
                &&& pending.commands == commands
                &&& pending.initial == initial
                &&& index <= pending.index
                &&& pending.builder.vertices == builder.vertices
                &&& pending.builder.indices == builder.indices
            },
            ProgressView::Finished(Ok(data)) => data.vertices == builder.vertices && data.indices
                == builder.indices,
            ProgressView::Finished(Err(_)) => false,
        },
    decreases commands.len() - index, (if kind is Fill { 1int } else { 0int }),
{
    if index < commands.len() {
        assert(commands.take(index + 1).drop_last() =~= commands.take(index));
        match commands[index] {
            CommandView::UpdateContext(context) => {
                lemma_resume_wf(
                    commands,
                    initial,
                    index + 1,
                    PassKind::Fill,
                    BuilderView { context, ..builder },
                );
            },
            CommandView::Draw(_, _) => match kind {
                PassKind::Fill => if builder.context.fill is None {
                    lemma_resume_wf(commands, initial, index, PassKind::Stroke, builder);
                },
                PassKind::Stroke => if builder.context.stroke is None {
                    lemma_resume_wf(commands, initial, index + 1, PassKind::Fill, builder);
                },
            },
        }
    }
}

/// A frame that waits for the mesh of one pass.
#[derive(Debug)]
pub struct PendingPass {
    commands: Vec<DrawCommand>,
    initial: Context,
    index: usize,
    kind: PassKind,
    builder: RawBuffersBuilder,
}

/// How far a frame has come: it waits for a mesh, or it is finished, with
/// its buffers or with the reason why there are none.
#[derive(Debug)]
pub enum Progress {
    Pending(PendingPass),
    Finished(Result<BufferData, TessellationError>),
}

impl View for PendingPass {
    type V = PendingView;

    closed spec fn view(&self) -> PendingView {
        PendingView {
            commands: command_views(self.commands@),
            initial: self.initial@,
            index: self.index as int,
            kind: self.kind,
            builder: self.builder@,
        }
    }
}

impl View for Progress {
    type V = ProgressView;

    open spec fn view(&self) -> ProgressView {
        match *self {
            Progress::Pending(pending) => ProgressView::Pending(pending@),
            Progress::Finished(Ok(data)) => ProgressView::Finished(Ok(data@)),
            Progress::Finished(Err(e)) => ProgressView::Finished(Err(e)),
        }
    }
}

/// Reads the log on from the command at `index`.
fn read_on(
    commands: Vec<DrawCommand>,
    initial: Context,
    index: usize,
    kind: PassKind,
    builder: RawBuffersBuilder,
) -> (p: Progress)
    requires
        index <= commands.len(),
        builder@.wf(),
        builder@.context == context_at(command_views(commands@), initial@, index as int),
    ensures
        p@ == resume(command_views(commands@), initial@, index as int, kind, builder@),
        p@.wf(),
{
    let ghost log = command_views(commands@);
    let ghost goal = resume(log, initial@, index as int, kind, builder@);
    proof {
        lemma_resume_wf(log, initial@, index as int, kind, builder@);
    }
    let mut at = index;
    let mut pass = kind;
    let mut sink = builder;
    loop
        invariant
            at <= commands.len(),
            log == command_views(commands@),
            sink@.wf(),
            resume(log, initial@, at as int, pass, sink@) == goal,
            goal == resume(command_views(commands@), initial@, index as int, kind, builder@),
            goal.wf(),
        decreases commands.len() - at, (if pass is Fill { 1int } else { 0int }),
    {
        if at >= commands.len() {
            let (vertices, indices) = sink.take();
            return Progress::Finished(Ok(BufferData { vertices, indices }));
        }
        let update: Option<Context> = match &commands[at] {
            DrawCommand::UpdateContext(context) => Some(context.clone()),
            DrawCommand::Draw(_, _) => None,
        };
        assert(log[at as int] == commands@[at as int]@);
        match update {
            Some(context) => {
                sink.set_context(context);
                at += 1;
                pass = PassKind::Fill;
            },
            None => match pass {
                PassKind::Fill => {
                    if sink.context().fill.is_some() {
                        return Progress::Pending(
                            PendingPass { commands, initial, index: at, kind: pass, builder: sink },
                        );
                    }
                    pass = PassKind::Stroke;
                },
                PassKind::Stroke => {
                    if sink.context().stroke.is_some() {
                        return Progress::Pending(
                            PendingPass { commands, initial, index: at, kind: pass, builder: sink },
                        );
                    }
                    at += 1;
                    pass = PassKind::Fill;
                },
            },
        }
    }
}

impl Progress {
    /// Starts a frame on the log `commands`, where `initial` was in force
    /// before its first command.
    pub fn start(commands: Vec<DrawCommand>, initial: Context) -> (p: Progress)
        ensures
            p@ == started(command_views(commands@), initial@, Index::MAX),
            p@.wf(),
    {
        Progress::start_with_vertex_limit(commands, initial, Index::MAX)
    }

    /// Starts a frame whose vertex buffer takes `limit` vertices at most.
    pub fn start_with_vertex_limit(commands: Vec<DrawCommand>, initial: Context, limit: Index) -> (p:
        Progress)
        ensures
            p@ == started(command_views(commands@), initial@, limit),
            p@.wf(),
    {
        let sink = RawBuffersBuilder::with_vertex_limit(initial.clone(), limit);
        proof {
            assert(command_views(commands@).take(0) =~= Seq::empty());
        }
        read_on(commands, initial, 0, PassKind::Fill, sink)
    }
}

impl PendingPass {
    /// See [`PendingView::wf`].
    pub open spec fn wf(&self) -> bool {
        self@.wf()
    }

    /// Which tessellation is asked for.
    pub fn kind(&self) -> (k: PassKind)
        ensures
            k == self@.kind,
    {
        self.kind
    }

    /// The place in the log of the shape to tessellate.
    pub fn index(&self) -> (i: usize)
        ensures
            i == self@.index,
    {
        self.index
    }

    /// Whether the polyline to tessellate is closed.
    pub fn closed(&self) -> (c: bool)
        requires
            self.wf(),
        ensures
            c == self@.closed(),
    {
        match &self.commands[self.index] {
            DrawCommand::Draw(closed, _) => *closed,
            DrawCommand::UpdateContext(_) => vstd::pervasive::unreached(),
        }
    }

    /// The points of the polyline to tessellate.
    pub fn points(&self) -> (points: &Vec<Point>)
        requires
            self.wf(),
        ensures
            points@ == self@.points(),
    {
        match &self.commands[self.index] {
            DrawCommand::Draw(_, points) => points,
            DrawCommand::UpdateContext(_) => vstd::pervasive::unreached(),
        }
    }

    /// The context that the log has in force at the shape: its transform is
    /// the one that the positions of the mesh are to be carried through, its
    /// stroke weight the width of the outline.
    pub fn context(&self) -> (c: &Context)
        requires
            self.wf(),
        ensures
            c@ == self@.context(),
    {
        self.builder.context()
    }

    /// Goes on with the answer of the tessellator to what was asked for.
    pub fn supply(self, reply: Result<Mesh, TessellationError>) -> (p: Progress)
        requires
            self.wf(),
        ensures
            p@ == self@.supplied(reply_view(reply)),
            p@.wf(),
    {
        match reply {
            Err(e) => Progress::Finished(Err(e)),
            Ok(mesh) => {
                let PendingPass { commands, initial, index, kind, builder } = self;
                let mut builder = builder;
                proof {
                    let log = command_views(commands@);
                    assert(log.take(index + 1).drop_last() =~= log.take(index as int));
                }
                match builder.add_mesh(kind, &mesh) {
                    Err(e) => Progress::Finished(Err(TessellationError::from_builder(e))),
                    Ok(_) => match kind {
                        PassKind::Fill => read_on(
                            commands,
                            initial,
                            index,
                            PassKind::Stroke,
                            builder,
                        ),
                        PassKind::Stroke => read_on(
                            commands,
                            initial,
                            index + 1,
                            PassKind::Fill,
                            builder,
                        ),
                    },
                }
            },
        }
    }
}

} // verus!
