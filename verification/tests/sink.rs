use peach::colors;
use peach::render::{
    Context, Count, GeometryBuilderError, Mesh, PassKind, RawBuffersBuilder, Triangle, VertexId,
};
use peach::types::{Point, RawVertex};

fn at(x: i64, y: i64) -> Point {
    Point::new(x, y)
}

fn colored(fill: bool, stroke: bool) -> Context {
    let mut context = Context::default();
    context.fill = if fill { Some(colors::red()) } else { None };
    context.stroke = if stroke { Some(colors::blue()) } else { None };
    context
}

#[test]
fn default_sink_is_empty() {
    let sink = RawBuffersBuilder::default();
    assert_eq!(sink.vertex_count(), 0);
    assert_eq!(sink.index_count(), 0);
    assert_eq!(*sink.context(), Context::default());
    let (vertices, indices) = sink.take();
    assert!(vertices.is_empty());
    assert!(indices.is_empty());
}

#[test]
fn vertex_ids_count_from_the_start_of_the_shape() {
    let mut sink = RawBuffersBuilder::with_vertex_limit(colored(true, true), 100);
    sink.begin_geometry();
    assert_eq!(sink.add_fill_vertex(at(0, 0)), Ok(VertexId(0)));
    assert_eq!(sink.add_fill_vertex(at(1, 0)), Ok(VertexId(1)));
    assert_eq!(sink.add_fill_vertex(at(1, 1)), Ok(VertexId(2)));
    assert_eq!(sink.add_triangle(VertexId(0), VertexId(1), VertexId(2)), Ok(()));
    assert_eq!(sink.end_geometry(), Count { vertices: 3, indices: 3 });
    sink.begin_geometry();
    assert_eq!(sink.add_stroke_vertex(at(5, 5)), Ok(VertexId(0)));
    assert_eq!(sink.add_stroke_vertex(at(6, 5)), Ok(VertexId(1)));
    assert_eq!(sink.add_stroke_vertex(at(6, 6)), Ok(VertexId(2)));
    assert_eq!(sink.add_triangle(VertexId(2), VertexId(1), VertexId(0)), Ok(()));
    assert_eq!(sink.end_geometry(), Count { vertices: 3, indices: 3 });
    let (vertices, indices) = sink.take();
    assert_eq!(indices, vec![0, 1, 2, 5, 4, 3]);
    assert_eq!(vertices[0], RawVertex { position: at(0, 0), color: colors::red() });
    assert_eq!(vertices[3], RawVertex { position: at(5, 5), color: colors::blue() });
    assert_eq!(vertices.len(), 6);
}

#[test]
fn vertex_without_its_color_is_invalid() {
    let mut sink = RawBuffersBuilder::with_vertex_limit(colored(false, true), 100);
    sink.begin_geometry();
    assert_eq!(sink.add_fill_vertex(at(0, 0)), Err(GeometryBuilderError::InvalidVertex));
    assert_eq!(sink.vertex_count(), 0);
    assert_eq!(sink.add_stroke_vertex(at(0, 0)), Ok(VertexId(0)));
    sink.set_context(colored(true, false));
    assert_eq!(sink.add_stroke_vertex(at(0, 0)), Err(GeometryBuilderError::InvalidVertex));
    assert_eq!(sink.add_fill_vertex(at(0, 0)), Ok(VertexId(1)));
    assert_eq!(sink.vertex_count(), 2);
}

#[test]
fn vertex_beyond_the_limit_is_refused() {
    let mut sink = RawBuffersBuilder::with_vertex_limit(colored(true, true), 2);
    sink.begin_geometry();
    assert_eq!(sink.add_fill_vertex(at(0, 0)), Ok(VertexId(0)));
    assert_eq!(sink.add_fill_vertex(at(1, 0)), Ok(VertexId(1)));
    assert_eq!(sink.add_fill_vertex(at(1, 1)), Err(GeometryBuilderError::TooManyVertices));
    assert_eq!(sink.add_stroke_vertex(at(1, 1)), Err(GeometryBuilderError::TooManyVertices));
    assert_eq!(sink.vertex_count(), 2);
}

#[test]
fn sink_with_limit_zero_takes_no_vertex() {
    let mut sink = RawBuffersBuilder::with_vertex_limit(colored(true, true), 0);
    sink.begin_geometry();
    assert_eq!(sink.add_fill_vertex(at(0, 0)), Err(GeometryBuilderError::TooManyVertices));
}

#[test]
fn triangle_over_a_missing_vertex_is_refused() {
    let mut sink = RawBuffersBuilder::with_vertex_limit(colored(true, true), 100);
    sink.begin_geometry();
    sink.add_fill_vertex(at(0, 0)).unwrap();
    sink.add_fill_vertex(at(1, 0)).unwrap();
    sink.end_geometry();
    sink.begin_geometry();
    sink.add_fill_vertex(at(0, 0)).unwrap();
    sink.add_fill_vertex(at(1, 0)).unwrap();
    assert_eq!(
        sink.add_triangle(VertexId(0), VertexId(1), VertexId(2)),
        Err(GeometryBuilderError::InvalidVertex)
    );
    assert_eq!(
        sink.add_triangle(VertexId(2), VertexId(0), VertexId(1)),
        Err(GeometryBuilderError::InvalidVertex)
    );
    assert_eq!(
        sink.add_triangle(VertexId(0), VertexId(u32::MAX), VertexId(1)),
        Err(GeometryBuilderError::InvalidVertex)
    );
    assert_eq!(sink.index_count(), 0);
    assert_eq!(sink.add_triangle(VertexId(0), VertexId(1), VertexId(1)), Ok(()));
    assert_eq!(sink.take().1, vec![2, 3, 3]);
}

#[test]
fn abort_drops_the_shape_being_taken() {
    let mut sink = RawBuffersBuilder::with_vertex_limit(colored(true, true), 100);
    sink.begin_geometry();
    sink.add_fill_vertex(at(0, 0)).unwrap();
    sink.add_fill_vertex(at(1, 0)).unwrap();
    sink.add_fill_vertex(at(1, 1)).unwrap();
    sink.add_triangle(VertexId(0), VertexId(1), VertexId(2)).unwrap();
    sink.end_geometry();
    sink.begin_geometry();
    sink.add_fill_vertex(at(9, 9)).unwrap();
    sink.add_fill_vertex(at(8, 9)).unwrap();
    sink.add_triangle(VertexId(0), VertexId(1), VertexId(1)).unwrap();
    assert_eq!(sink.vertex_count(), 5);
    assert_eq!(sink.index_count(), 6);
    sink.abort_geometry();
    assert_eq!(sink.vertex_count(), 3);
    assert_eq!(sink.index_count(), 3);
    assert_eq!(sink.end_geometry(), Count { vertices: 0, indices: 0 });
    sink.abort_geometry();
    let (vertices, indices) = sink.take();
    assert_eq!(vertices.len(), 3);
    assert_eq!(indices, vec![0, 1, 2]);
}

#[test]
fn add_mesh_offsets_its_triangles() {
    let mut sink = RawBuffersBuilder::with_vertex_limit(colored(true, true), 100);
    let mesh = Mesh {
        positions: vec![at(0, 0), at(1, 0), at(1, 1)],
        triangles: vec![Triangle { a: VertexId(0), b: VertexId(1), c: VertexId(2) }],
    };
    assert_eq!(sink.add_mesh(PassKind::Fill, &mesh), Ok(Count { vertices: 3, indices: 3 }));
    assert_eq!(sink.add_mesh(PassKind::Stroke, &mesh), Ok(Count { vertices: 3, indices: 3 }));
    let (vertices, indices) = sink.take();
    assert_eq!(indices, vec![0, 1, 2, 3, 4, 5]);
    assert_eq!(vertices[2].color, colors::red());
    assert_eq!(vertices[3].color, colors::blue());
    assert_eq!(vertices[5].position, at(1, 1));
}

#[test]
fn add_mesh_rolls_back_on_overflow() {
    let mut sink = RawBuffersBuilder::with_vertex_limit(colored(true, true), 4);
    let mesh = Mesh {
        positions: vec![at(0, 0), at(1, 0), at(1, 1)],
        triangles: vec![Triangle { a: VertexId(0), b: VertexId(1), c: VertexId(2) }],
    };
    assert!(sink.add_mesh(PassKind::Fill, &mesh).is_ok());
    assert_eq!(sink.add_mesh(PassKind::Fill, &mesh), Err(GeometryBuilderError::TooManyVertices));
    assert_eq!(sink.vertex_count(), 3);
    assert_eq!(sink.index_count(), 3);
    let (vertices, indices) = sink.take();
    assert_eq!(vertices.len(), 3);
    assert_eq!(indices, vec![0, 1, 2]);
}

#[test]
fn add_mesh_rolls_back_on_a_bad_triangle() {
    let mut sink = RawBuffersBuilder::with_vertex_limit(colored(true, true), 100);
    let good = Mesh {
        positions: vec![at(0, 0), at(1, 0), at(1, 1)],
        triangles: vec![Triangle { a: VertexId(0), b: VertexId(1), c: VertexId(2) }],
    };
    let bad = Mesh {
        positions: vec![at(0, 0), at(1, 0), at(1, 1)],
        triangles: vec![
            Triangle { a: VertexId(0), b: VertexId(1), c: VertexId(2) },
            Triangle { a: VertexId(0), b: VertexId(1), c: VertexId(3) },
        ],
    };
    assert!(sink.add_mesh(PassKind::Fill, &good).is_ok());
    assert_eq!(sink.add_mesh(PassKind::Fill, &bad), Err(GeometryBuilderError::InvalidVertex));
    assert_eq!(sink.vertex_count(), 3);
    assert_eq!(sink.index_count(), 3);
}

#[test]
fn add_mesh_without_the_color_is_invalid() {
    let mut sink = RawBuffersBuilder::with_vertex_limit(colored(false, false), 100);
    let mesh = Mesh { positions: vec![at(0, 0)], triangles: vec![] };
    assert_eq!(sink.add_mesh(PassKind::Fill, &mesh), Err(GeometryBuilderError::InvalidVertex));
    assert_eq!(sink.add_mesh(PassKind::Stroke, &mesh), Err(GeometryBuilderError::InvalidVertex));
    let empty = Mesh { positions: vec![], triangles: vec![] };
    assert_eq!(sink.add_mesh(PassKind::Fill, &empty), Ok(Count { vertices: 0, indices: 0 }));
}
