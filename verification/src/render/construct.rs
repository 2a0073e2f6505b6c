//! The vertex sink: it takes the vertices and triangles of one shape after
//! the other, and can drop the shape it is taking.

use vstd::prelude::*;
use crate::color::Color;
use crate::render::context::{Context, ContextView};
use crate::types::{Index, Point, RawVertex};

verus! {

/// The place of a vertex within the shape that is being taken.
#[derive(Clone, Copy, Debug, PartialEq, Eq, Structural)]
pub struct VertexId(pub Index);

/// How many vertices and indices a shape has added.
#[derive(Clone, Copy, Debug, PartialEq, Eq, Structural)]
pub struct Count {
    pub vertices: usize,
    pub indices: usize,
}

/// Why the sink refused a vertex or a triangle.
#[derive(Clone, Copy, Debug, PartialEq, Eq, Structural)]
pub enum GeometryBuilderError {
    /// A vertex came while its color was turned off, or a triangle named a
    /// vertex that its shape does not have.
    InvalidVertex,
    /// The vertex buffer is as long as the index type allows.
    TooManyVertices,
}

/// Which of the two tessellations of a shape a mesh comes from.
#[derive(Clone, Copy, Debug, PartialEq, Eq, Structural)]
pub enum PassKind {
    Fill,
    Stroke,
}

/// Three vertices of one shape.
#[derive(Clone, Copy, Debug, PartialEq, Eq, Structural)]
pub struct Triangle {
    pub a: VertexId,
    pub b: VertexId,
    pub c: VertexId,
}

/// The tessellation of one shape: its vertices, and triangles over them.
#[derive(Debug, PartialEq, Eq)]
pub struct Mesh {
    pub positions: Vec<Point>,
    pub triangles: Vec<Triangle>,
}

/// What a mesh holds, as a value of specifications.
pub struct MeshView {
    pub positions: Seq<Point>,
    pub triangles: Seq<Triangle>,
}

impl View for Mesh {
    type V = MeshView;

    open spec fn view(&self) -> MeshView {
        MeshView { positions: self.positions@, triangles: self.triangles@ }
    }
}

impl MeshView {
    /// Every triangle names vertices of the mesh.
    pub open spec fn closed_over_vertices(self) -> bool {
        forall|i: int|
            0 <= i < self.triangles.len() ==> {
                &&& (#[trigger] self.triangles[i]).a.0 < self.positions.len()
                &&& self.triangles[i].b.0 < self.positions.len()
                &&& self.triangles[i].c.0 < self.positions.len()
            }
    }
}

/// Every index names a vertex of a buffer with `vertices` entries, and the
/// indices come in threes.
pub open spec fn valid_indices(vertices: int, indices: Seq<Index>) -> bool {
    &&& indices.len() % 3 == 0
    &&& forall|i: int| 0 <= i < indices.len() ==> (#[trigger] indices[i]) < vertices
}

/// The vertices at `positions`, all of one color.
pub open spec fn tagged(positions: Seq<Point>, color: Color) -> Seq<RawVertex> {
    Seq::new(positions.len(), |i: int| RawVertex { position: positions[i], color })
}

/// The corner of `triangle` at place `k`: 0, 1 or 2.
pub open spec fn corner(triangle: Triangle, k: int) -> Index {
    if k == 0 {
        triangle.a.0
    } else if k == 1 {
        triangle.b.0
    } else {
        triangle.c.0
    }
}

/// The corners of `triangles`, one triangle after the other, each raised by
/// `offset`.
pub open spec fn flattened(triangles: Seq<Triangle>, offset: int) -> Seq<Index> {
    Seq::new(3 * triangles.len(), |i: int| (offset + corner(triangles[i / 3], i % 3)) as Index)
}

/// The state of a sink, as a value of specifications.
pub struct BuilderView {
    pub vertices: Seq<RawVertex>,
    pub indices: Seq<Index>,
    /// The lengths of the two buffers when the shape being taken began.
    pub offsets: (int, int),
    /// The context whose colors the vertices take.
    pub context: ContextView,
    /// The most vertices that the sink takes.
    pub limit: Index,
}

impl BuilderView {
    /// The color of the vertices of a pass.
    pub open spec fn color(self, kind: PassKind) -> Option<Color> {
        match kind {
            PassKind::Fill => self.context.fill,
            PassKind::Stroke => self.context.stroke,
        }
    }

    /// The number of vertices of the shape being taken.
    pub open spec fn shape_vertices(self) -> int {
        self.vertices.len() - self.offsets.0
    }

    /// The number of indices of the shape being taken.
    pub open spec fn shape_indices(self) -> int {
        self.indices.len() - self.offsets.1
    }

    /// The buffers are valid, and stay so when the shape being taken is
    /// dropped: the indices of earlier shapes name vertices of earlier
    /// shapes.
    pub open spec fn wf(self) -> bool {
        &&& 0 <= self.offsets.0 <= self.vertices.len() <= self.limit
        &&& 0 <= self.offsets.1 <= self.indices.len()
        &&& self.offsets.1 % 3 == 0
        &&& valid_indices(self.vertices.len() as int, self.indices)
        &&& forall|i: int| 0 <= i < self.offsets.1 ==> (#[trigger] self.indices[i]) < self.offsets.0
    }

    /// The state after a new shape began.
    pub open spec fn begun(self) -> BuilderView {
        BuilderView { offsets: (self.vertices.len() as int, self.indices.len() as int), ..self }
    }

    /// The state after the shape being taken was dropped.
    pub open spec fn aborted(self) -> BuilderView {
        BuilderView {
            vertices: self.vertices.take(self.offsets.0),
            indices: self.indices.take(self.offsets.1),
            ..self
        }
    }

    /// What comes of taking `mesh` as a new shape: the state with the shape
    /// in it, or the reason why the sink refuses the shape. Vertices are
    /// looked at before triangles.
    pub open spec fn with_mesh(self, kind: PassKind, mesh: MeshView) -> Result<
        BuilderView,
        GeometryBuilderError,
    > {
        match self.color(kind) {
            None => if mesh.positions.len() > 0 || mesh.triangles.len() > 0 {
                Err(GeometryBuilderError::InvalidVertex)
            } else {
                Ok(self.begun())
            },
            Some(color) => if self.vertices.len() + mesh.positions.len() > self.limit {
                Err(GeometryBuilderError::TooManyVertices)
            } else if !mesh.closed_over_vertices() {
                Err(GeometryBuilderError::InvalidVertex)
            } else {
                Ok(
                    BuilderView {
                        vertices: self.vertices + tagged(mesh.positions, color),
                        indices: self.indices + flattened(
                            mesh.triangles,
                            self.vertices.len() as int,
                        ),
                        ..self.begun()
                    },
                )
            },
        }
    }
}

/// The vertex sink.
#[derive(Debug)]
pub struct RawBuffersBuilder {
    vertices: Vec<RawVertex>,
    indices: Vec<Index>,
    offsets: (usize, usize),
    context: Context,
    limit: Index,
}

impl View for RawBuffersBuilder {
    type V = BuilderView;

    closed spec fn view(&self) -> BuilderView {
        BuilderView {
            vertices: self.vertices@,
            indices: self.indices@,
            offsets: (self.offsets.0 as int, self.offsets.1 as int),
            context: self.context@,
            limit: self.limit,
        }
    }
}

impl Default for RawBuffersBuilder {
    /// An empty sink under the default context, which takes as many vertices
    /// as the index type can name.
    fn default() -> (b: Self)
        ensures
            b@.wf(),
            b@ == (BuilderView {
                vertices: Seq::empty(),
                indices: Seq::empty(),
                offsets: (0, 0),
                context: Context::spec_default(),
                limit: Index::MAX,
            }),
    {
        RawBuffersBuilder::with_vertex_limit(Context::default(), Index::MAX)
    }
}

impl RawBuffersBuilder {
    /// An empty sink under `context`, which takes `limit` vertices at most.
    pub fn with_vertex_limit(context: Context, limit: Index) -> (b: Self)
        ensures
            b@.wf(),
            b@ == (BuilderView {
                vertices: Seq::empty(),
                indices: Seq::empty(),
                offsets: (0, 0),
                context: context@,
                limit,
            }),
    {
        RawBuffersBuilder {
            vertices: Vec::new(),
            indices: Vec::new(),
            offsets: (0, 0),
            context,
            limit,
        }
    }

    /// The context whose colors the vertices take.
    pub fn context(&self) -> (c: &Context)
        ensures
            c@ == self@.context,
    {
        &self.context
    }

    /// The number of vertices taken so far.
    pub fn vertex_count(&self) -> (n: usize)
        ensures
            n == self@.vertices.len(),
    {
        self.vertices.len()
    }

    /// The number of indices taken so far.
    pub fn index_count(&self) -> (n: usize)
        ensures
            n == self@.indices.len(),
    {
        self.indices.len()
    }

    /// Adds a vertex of the given color to the shape being taken, unless the
    /// buffer is full.
    fn add_vertex(&mut self, position: Point, color: Color) -> (r: Result<
        VertexId,
        GeometryBuilderError,
    >)
        requires
            old(self)@.wf(),
        ensures
            final(self)@.wf(),
            old(self)@.vertices.len() < old(self)@.limit ==> r == Ok::<
                VertexId,
                GeometryBuilderError,
            >(VertexId(old(self)@.shape_vertices() as Index)) && final(self)@ == (BuilderView {
                vertices: old(self)@.vertices.push(RawVertex { position, color }),
                ..old(self)@
            }),
            old(self)@.vertices.len() >= old(self)@.limit ==> r == Err::<
                VertexId,
                GeometryBuilderError,
            >(GeometryBuilderError::TooManyVertices) && final(self)@ == old(self)@,
    {
        let len = self.vertices.len();
        if len >= self.limit as usize {
            return Err(GeometryBuilderError::TooManyVertices);
        }
        self.vertices.push(RawVertex { position, color });
        Ok(VertexId((len - self.offsets.0) as Index))
    }

    /// Puts `context` in force: the vertices that follow take its colors.
    pub fn set_context(&mut self, context: Context)
        ensures
            final(self)@ == (BuilderView { context: context@, ..old(self)@ }),
    {
        self.context = context;
    }

    /// Hands out the two buffers.
    pub fn take(self) -> (buffers: (Vec<RawVertex>, Vec<Index>))
        requires
            self@.wf(),
        ensures
            buffers.0@ == self@.vertices,
            buffers.1@ == self@.indices,
            valid_indices(buffers.0@.len() as int, buffers.1@),
    {
        (self.vertices, self.indices)
    }

    /// Begins a new shape: what was taken so far is kept whatever comes of it.
    pub fn begin_geometry(&mut self)
        requires
            old(self)@.wf(),
        ensures
            final(self)@.wf(),
            final(self)@ == old(self)@.begun(),
    {
        self.offsets = (self.vertices.len(), self.indices.len());
    }

    /// The number of vertices and indices of the shape being taken.
    pub fn end_geometry(&mut self) -> (count: Count)
        requires
            old(self)@.wf(),
        ensures
            final(self)@ == old(self)@,
            count.vertices == old(self)@.shape_vertices(),
            count.indices == old(self)@.shape_indices(),
    {
        Count {
            vertices: self.vertices.len() - self.offsets.0,
            indices: self.indices.len() - self.offsets.1,
        }
    }

    /// Adds a triangle over three vertices of the shape being taken. A
    /// triangle that names a vertex which the shape does not have is refused,
    /// and nothing changes.
    pub fn add_triangle(&mut self, a: VertexId, b: VertexId, c: VertexId) -> (r: Result<
        (),
        GeometryBuilderError,
    >)
        requires
            old(self)@.wf(),
        ensures
            final(self)@.wf(),
            r is Ok <==> a.0 < old(self)@.shape_vertices() && b.0 < old(self)@.shape_vertices()
                && c.0 < old(self)@.shape_vertices(),
            r is Ok ==> final(self)@ == (BuilderView {
                indices: old(self)@.indices.push((a.0 + old(self)@.offsets.0) as Index).push(
                    (b.0 + old(self)@.offsets.0) as Index,
                ).push((c.0 + old(self)@.offsets.0) as Index),
                ..old(self)@
            }),
            r is Err ==> r == Err::<(), GeometryBuilderError>(GeometryBuilderError::InvalidVertex)
                && final(self)@ == old(self)@,
    {
        let count = self.vertices.len() - self.offsets.0;
        if a.0 as usize >= count || b.0 as usize >= count || c.0 as usize >= count {
            return Err(GeometryBuilderError::InvalidVertex);
        }
        let offset = self.offsets.0 as Index;
        self.indices.push(a.0 + offset);
        self.indices.push(b.0 + offset);
        self.indices.push(c.0 + offset);
        Ok(())
    }

    /// Drops the shape being taken: both buffers are as they were when it
    /// began.
    pub fn abort_geometry(&mut self)
        requires
            old(self)@.wf(),
        ensures
            final(self)@.wf(),
            final(self)@ == old(self)@.aborted(),
    {
        self.vertices.truncate(self.offsets.0);
        self.indices.truncate(self.offsets.1);
    }

    /// Adds a vertex of a fill to the shape being taken, in the fill color of
    /// the context. It is refused while filling is turned off.
    pub fn add_fill_vertex(&mut self, position: Point) -> (r: Result<
        VertexId,
        GeometryBuilderError,
    >)
        requires
            old(self)@.wf(),
        ensures
            final(self)@.wf(),
            r == old(self)@.vertex_outcome(PassKind::Fill),
            final(self)@ == old(self)@.with_vertex(PassKind::Fill, position),
    {
        match self.context.fill {
            Some(color) => self.add_vertex(position, color),
            None => Err(GeometryBuilderError::InvalidVertex),
        }
    }

    /// Adds a vertex of an outline to the shape being taken, in the stroke
    /// color of the context. It is refused while outlines are turned off.
    pub fn add_stroke_vertex(&mut self, position: Point) -> (r: Result<
        VertexId,
        GeometryBuilderError,
    >)
        requires
            old(self)@.wf(),
        ensures
            final(self)@.wf(),
            r == old(self)@.vertex_outcome(PassKind::Stroke),
            final(self)@ == old(self)@.with_vertex(PassKind::Stroke, position),
    {
        match self.context.stroke {
            Some(color) => self.add_vertex(position, color),
            None => Err(GeometryBuilderError::InvalidVertex),
        }
    }
}

impl RawBuffersBuilder {
    /// Takes `mesh` as a new shape of the pass `kind`: its vertices in the
    /// color of the pass, its triangles as indices into the vertex buffer.
    /// Where a vertex or a triangle is refused, the shape is dropped and the
    /// buffers are as before.
    pub fn add_mesh(&mut self, kind: PassKind, mesh: &Mesh) -> (r: Result<
        Count,
        GeometryBuilderError,
    >)
        requires
            old(self)@.wf(),
        ensures
            final(self)@.wf(),
            match old(self)@.with_mesh(kind, mesh@) {
                Ok(state) => final(self)@ == state && r == Ok::<Count, GeometryBuilderError>(
                    Count {
                        vertices: mesh@.positions.len() as usize,
                        indices: (3 * mesh@.triangles.len()) as usize,
                    },
                ),
                Err(e) => final(self)@ == old(self)@.begun() && r == Err::<
                    Count,
                    GeometryBuilderError,
                >(e),
            },
    {
        self.begin_geometry();
        let ghost start = self@;
        let ghost color = match start.color(kind) {
            Some(c) => c,
            None => Color { r: 0, g: 0, b: 0, a: 0 },
        };
        let mut i: usize = 0;
        while i < mesh.positions.len()
            invariant
                i <= mesh.positions.len(),
                start == old(self)@.begun(),
                old(self)@.wf(),
                self@.wf(),
                i > 0 ==> start.color(kind) is Some,
                start.vertices.len() + i <= start.limit,
                start.color(kind) is Some ==> start.color(kind) == Some(color),
                self@ == (BuilderView {
                    vertices: start.vertices + tagged(mesh@.positions.take(i as int), color),
                    ..start
                }),
            decreases mesh.positions.len() - i,
        {
            let position = mesh.positions[i];
            let added = match kind {
                PassKind::Fill => self.add_fill_vertex(position),
                PassKind::Stroke => self.add_stroke_vertex(position),
            };
            match added {
                Err(e) => {
                    self.abort_geometry();
                    proof {
                        assert(self@.vertices =~= start.vertices);
                        assert(self@.indices =~= start.indices);
                    }
                    return Err(e);
                },
                Ok(_) => {
                    proof {
                        assert(mesh@.positions.take(i + 1) =~= mesh@.positions.take(i as int).push(
                            position,
                        ));
                        assert(tagged(mesh@.positions.take(i + 1), color) =~= tagged(
                            mesh@.positions.take(i as int),
                            color,
                        ).push(RawVertex { position, color }));
                        assert(self@.vertices =~= start.vertices + tagged(
                            mesh@.positions.take(i + 1),
                            color,
                        ));
                    }
                },
            }
            i += 1;
        }
        assert(mesh@.positions.take(i as int) =~= mesh@.positions);
        let ghost filled = self@;
        let mut j: usize = 0;
        while j < mesh.triangles.len()
            invariant
                j <= mesh.triangles.len(),
                start == old(self)@.begun(),
                old(self)@.wf(),
                self@.wf(),
                filled.wf(),
                mesh@.positions.len() > 0 ==> start.color(kind) is Some,
                start.color(kind) is Some ==> start.color(kind) == Some(color),
                filled == (BuilderView {
                    vertices: start.vertices + tagged(mesh@.positions, color),
                    ..start
                }),
                (MeshView {
                    positions: mesh@.positions,
                    triangles: mesh@.triangles.take(j as int),
                }).closed_over_vertices(),
                self@ == (BuilderView {
                    indices: start.indices + flattened(
                        mesh@.triangles.take(j as int),
                        start.vertices.len() as int,
                    ),
                    ..filled
                }),
            decreases mesh.triangles.len() - j,
        {
            let triangle = mesh.triangles[j];
            assert(self@.shape_vertices() == mesh@.positions.len());
            match self.add_triangle(triangle.a, triangle.b, triangle.c) {
                Err(e) => {
                    self.abort_geometry();
                    proof {
                        assert(self@.vertices =~= start.vertices);
                        assert(self@.indices =~= start.indices);
                        assert(mesh@.triangles[j as int] == triangle);
                    }
                    return Err(e);
                },
                Ok(_) => {
                    proof {
                        let offset = start.vertices.len() as int;
                        let before = mesh@.triangles.take(j as int);
                        let after = mesh@.triangles.take(j + 1);
                        assert(after =~= before.push(triangle));
                        assert forall|k: int| 0 <= k < after.len() implies {
                            &&& (#[trigger] after[k]).a.0 < mesh@.positions.len()
                            &&& after[k].b.0 < mesh@.positions.len()
                            &&& after[k].c.0 < mesh@.positions.len()
                        } by {
                            let earlier = MeshView { positions: mesh@.positions, triangles: before };
                            if k < j {
                                assert(after[k] == earlier.triangles[k]);
                            } else {
                                assert(after[k] == triangle);
                            }
                        }
                        assert(flattened(after, offset) =~= flattened(before, offset).push(
                            (triangle.a.0 + offset) as Index,
                        ).push((triangle.b.0 + offset) as Index).push(
                            (triangle.c.0 + offset) as Index,
                        ));
                        assert(self@.indices =~= start.indices + flattened(after, offset));
                    }
                },
            }
            j += 1;
        }
        assert(mesh@.triangles.take(j as int) =~= mesh@.triangles);
        proof {
            assert((MeshView { positions: mesh@.positions, triangles: mesh@.triangles })
                == mesh@);
            if mesh@.positions.len() == 0 {
                assert(mesh@.triangles.len() == 0) by {
                    if mesh@.triangles.len() > 0 {
                        assert(mesh@.triangles[0].a.0 < mesh@.positions.len());
                    }
                }
                assert(self@.indices =~= start.indices);
                assert(self@.vertices =~= start.vertices);
            }
        }
        Ok(self.end_geometry())
    }
}

impl BuilderView {
    /// A mesh that the sink takes leaves it well formed; its vertices stand
    /// behind those taken before, in the color of the pass; its indices stand
    /// behind those taken before, and name vertices of the mesh.
    pub proof fn law_mesh_in_pass_color(self, kind: PassKind, mesh: MeshView)
        requires
            self.wf(),
        ensures
            match self.with_mesh(kind, mesh) {
                Ok(after) => {
                    &&& after.wf()
                    &&& after.context == self.context
                    &&& after.limit == self.limit
                    &&& mesh.positions.len() > 0 ==> self.color(kind) is Some
                    &&& after.vertices.len() == self.vertices.len() + mesh.positions.len()
                    &&& after.indices.len() == self.indices.len() + 3 * mesh.triangles.len()
                    &&& forall|i: int|
                        0 <= i < self.vertices.len() ==> (#[trigger] after.vertices[i])
                            == self.vertices[i]
                    &&& forall|i: int|
                        self.vertices.len() <= i < after.vertices.len() ==> (
                        #[trigger] after.vertices[i]) == (RawVertex {
                            position: mesh.positions[i - self.vertices.len()],
                            color: self.color(kind)->Some_0,
                        })
                    &&& forall|i: int|
                        0 <= i < self.indices.len() ==> (#[trigger] after.indices[i])
                            == self.indices[i]
                    &&& forall|i: int|
                        self.indices.len() <= i < after.indices.len() ==> self.vertices.len() <= (
                        #[trigger] after.indices[i]) < after.vertices.len()
                },
                Err(_) => true,
            },
    {
        if let Ok(after) = self.with_mesh(kind, mesh) {
            if mesh.triangles.len() > 0 {
                assert(mesh.triangles[0].a.0 < mesh.positions.len());
            }
            assert forall|i: int| self.indices.len() <= i < after.indices.len() implies self.vertices.len()
                <= (#[trigger] after.indices[i]) < after.vertices.len() by {
                let k = i - self.indices.len();
                let triangle = mesh.triangles[k / 3];
                assert(triangle.a.0 < mesh.positions.len());
                assert(corner(triangle, k % 3) < mesh.positions.len());
                assert(after.indices[i] == flattened(mesh.triangles, self.vertices.len() as int)[k]);
            }
        }
    }
}

impl BuilderView {
    /// What the sink answers to a vertex of a pass: its place in the shape,
    /// or the reason why it is refused.
    pub open spec fn vertex_outcome(self, kind: PassKind) -> Result<VertexId, GeometryBuilderError> {
        if self.color(kind) is None {
            Err(GeometryBuilderError::InvalidVertex)
        } else if self.vertices.len() >= self.limit {
            Err(GeometryBuilderError::TooManyVertices)
        } else {
            Ok(VertexId(self.shape_vertices() as Index))
        }
    }

    /// The state after a vertex of a pass was offered: with the vertex in the
    /// color of the pass, or unchanged where it was refused.
    pub open spec fn with_vertex(self, kind: PassKind, position: Point) -> BuilderView {
        if self.vertex_outcome(kind) is Ok {
            BuilderView {
                vertices: self.vertices.push(
                    RawVertex { position, color: self.color(kind).unwrap() },
                ),
                ..self
            }
        } else {
            self
        }
    }
}

} // verus!
