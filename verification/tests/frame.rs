use lyon_tessellation::geometry_builder::Positions;
use lyon_tessellation::math::{point, Point as FloatPoint};
use lyon_tessellation::path::iterator::FromPolyline;
use lyon_tessellation::{
    BuffersBuilder, FillOptions, FillTessellator, LineCap, StrokeOptions, StrokeTessellator,
    VertexBuffers,
};
use peach::colors;
use peach::render::{
    AnchorMode, BufferData, Context, DrawCommand, GeometryBuilderError, Graphics, Mesh, PassKind,
    PendingPass, Progress, TessellationError, Triangle, VertexId,
};
use peach::types::{Point, RawVertex, Size, Vector};

fn p(x: i64, y: i64) -> Point {
    Point::new(x, y)
}

fn triangle(a: u32, b: u32, c: u32) -> Triangle {
    Triangle { a: VertexId(a), b: VertexId(b), c: VertexId(c) }
}

fn quad(x: i64, y: i64, side: i64) -> Mesh {
    Mesh {
        positions: vec![p(x, y), p(x + side, y), p(x + side, y + side), p(x, y + side)],
        triangles: vec![triangle(0, 1, 2), triangle(0, 2, 3)],
    }
}

/// Runs the tessellator that a pass asks for.
fn tessellate(pass: &PendingPass) -> Result<Mesh, TessellationError> {
    let points: Vec<FloatPoint> =
        pass.points().iter().map(|q| point(q.x as f32, q.y as f32)).collect();
    let path = FromPolyline::new(pass.closed(), points.into_iter());
    let mut buffers: VertexBuffers<FloatPoint, u32> = VertexBuffers::new();
    let result = match pass.kind() {
        PassKind::Fill => FillTessellator::new().tessellate(
            path,
            &FillOptions::default(),
            &mut BuffersBuilder::new(&mut buffers, Positions),
        ),
        PassKind::Stroke => StrokeTessellator::new().tessellate(
            path,
            &StrokeOptions::default()
                .with_line_cap(LineCap::Round)
                .with_line_width(pass.context().get_stroke_options().line_width as f32),
            &mut BuffersBuilder::new(&mut buffers, Positions),
        ),
    };
    match result {
        Ok(_) => Ok(Mesh {
            positions: buffers
                .vertices
                .iter()
                .map(|q| p(q.x.round() as i64, q.y.round() as i64))
                .collect(),
            triangles: buffers
                .indices
                .chunks(3)
                .map(|t| triangle(t[0], t[1], t[2]))
                .collect(),
        }),
        Err(lyon_tessellation::TessellationError::UnsupportedParamater) => {
            Err(TessellationError::UnsupportedParameter)
        },
        Err(lyon_tessellation::TessellationError::InvalidVertex) => {
            Err(TessellationError::InvalidVertex)
        },
        Err(lyon_tessellation::TessellationError::TooManyVertices) => {
            Err(TessellationError::TooManyVertices)
        },
        Err(lyon_tessellation::TessellationError::Internal(_)) => Err(TessellationError::Internal),
    }
}

/// Runs a frame to its end with the real tessellator; also tells which
/// passes the frame asked for.
fn run(mut progress: Progress) -> (Result<BufferData, TessellationError>, Vec<(usize, PassKind)>) {
    let mut asked = Vec::new();
    loop {
        match progress {
            Progress::Finished(result) => return (result, asked),
            Progress::Pending(pass) => {
                asked.push((pass.index(), pass.kind()));
                let mesh = tessellate(&pass);
                progress = pass.supply(mesh);
            },
        }
    }
}

/// Runs a frame to its end with one hand-made mesh per pass.
fn run_with(mut progress: Progress, meshes: Vec<Mesh>) -> Result<BufferData, TessellationError> {
    let mut meshes = meshes.into_iter();
    loop {
        match progress {
            Progress::Finished(result) => return result,
            Progress::Pending(pass) => {
                progress = pass.supply(Ok(meshes.next().expect("a mesh for each pass")));
            },
        }
    }
}

fn assert_valid(data: &BufferData) {
    assert_eq!(data.indices.len() % 3, 0);
    for index in &data.indices {
        assert!((*index as usize) < data.vertices.len());
    }
}

#[test]
fn filled_rect_gives_four_red_vertices_and_two_triangles() {
    let mut g = Graphics::new(None);
    g.anchor_mode(AnchorMode::First);
    g.fill(colors::red());
    g.no_stroke();
    g.rect(Vector::new(0, 0), Size::new(10, 10));
    let (result, asked) = run(g.construct_buffer_data());
    let data = result.unwrap();
    assert_eq!(asked, vec![(1, PassKind::Fill)]);
    assert_eq!(data.vertices.len(), 4);
    assert_eq!(data.indices.len(), 6);
    for vertex in &data.vertices {
        assert_eq!(vertex.color, colors::red());
    }
    let mut corners: Vec<Point> = data.vertices.iter().map(|v| v.position).collect();
    corners.sort_by_key(|q| (q.x, q.y));
    assert_eq!(corners, vec![p(0, 0), p(0, 10), p(10, 0), p(10, 10)]);
    assert_valid(&data);
}

#[test]
fn open_polyline_with_stroke_only_runs_the_stroke_pass() {
    let mut g = Graphics::new(None);
    g.anchor_mode(AnchorMode::First);
    g.no_fill();
    g.stroke(colors::blue());
    g.stroke_weight(4);
    g.polyline(&[Vector::new(0, 0), Vector::new(100, 0)], false);
    let (result, asked) = run(g.construct_buffer_data());
    let data = result.unwrap();
    assert_eq!(asked, vec![(1, PassKind::Stroke)]);
    assert!(!data.vertices.is_empty());
    for vertex in &data.vertices {
        assert_eq!(vertex.color, colors::blue());
    }
    assert_valid(&data);
}

#[test]
fn fill_comes_before_stroke() {
    let mut g = Graphics::new(None);
    g.fill(colors::red());
    g.stroke(colors::green());
    g.stroke_weight(2);
    g.square(Vector::new(0, 0), 40);
    let (result, asked) = run(g.construct_buffer_data());
    let data = result.unwrap();
    assert_eq!(asked, vec![(1, PassKind::Fill), (1, PassKind::Stroke)]);
    assert_eq!(data.vertices[..4].iter().filter(|v| v.color == colors::red()).count(), 4);
    assert!(data.vertices.len() > 4);
    for vertex in &data.vertices[4..] {
        assert_eq!(vertex.color, colors::green());
    }
    for index in &data.indices[..6] {
        assert!(*index < 4);
    }
    for index in &data.indices[6..] {
        assert!(*index >= 4);
    }
    assert_valid(&data);
}

#[test]
fn shape_without_colors_asks_for_nothing() {
    let mut g = Graphics::new(None);
    g.no_fill();
    g.no_stroke();
    g.square(Vector::new(0, 0), 40);
    let (result, asked) = run(g.construct_buffer_data());
    let data = result.unwrap();
    assert!(asked.is_empty());
    assert!(data.vertices.is_empty());
    assert!(data.indices.is_empty());
}

#[test]
fn empty_log_gives_empty_buffers() {
    let g = Graphics::new(None);
    match g.construct_buffer_data() {
        Progress::Finished(Ok(data)) => {
            assert!(data.vertices.is_empty());
            assert!(data.indices.is_empty());
        },
        other => panic!("{:?}", other),
    }
}

#[test]
fn default_context_applies_before_the_first_snapshot() {
    let mut g = Graphics::new(None);
    g.square(Vector::new(0, 0), 10);
    let data = run_with(g.construct_buffer_data(), vec![quad(0, 0, 10), quad(0, 0, 10)]).unwrap();
    assert_eq!(data.vertices.len(), 8);
    for vertex in &data.vertices {
        assert_eq!(vertex.color, colors::black());
    }
}

#[test]
fn each_shape_takes_the_color_it_was_drawn_with() {
    let mut g = Graphics::new(None);
    g.no_stroke();
    g.fill(colors::red());
    g.square(Vector::new(0, 0), 10);
    g.fill(colors::blue());
    g.square(Vector::new(20, 20), 10);
    g.fill(colors::green());
    let data = run_with(g.construct_buffer_data(), vec![quad(0, 0, 10), quad(20, 20, 10)]).unwrap();
    let colors_out: Vec<_> = data.vertices.iter().map(|v| v.color).collect();
    assert_eq!(
        colors_out,
        vec![
            colors::red(),
            colors::red(),
            colors::red(),
            colors::red(),
            colors::blue(),
            colors::blue(),
            colors::blue(),
            colors::blue(),
        ]
    );
    assert_eq!(data.indices, vec![0, 1, 2, 0, 2, 3, 4, 5, 6, 4, 6, 7]);
}

#[test]
fn scope_colors_stay_in_the_scope() {
    let mut g = Graphics::new(None);
    g.no_stroke();
    g.fill(colors::red());
    g.scoped(|inner| {
        inner.fill(colors::blue());
        inner.square(Vector::new(0, 0), 10);
    });
    g.square(Vector::new(0, 0), 10);
    let data = run_with(g.construct_buffer_data(), vec![quad(0, 0, 10), quad(0, 0, 10)]).unwrap();
    assert_eq!(data.vertices[0].color, colors::blue());
    assert_eq!(data.vertices[4].color, colors::red());
}

#[test]
fn pass_reports_shape_and_context() {
    let mut g = Graphics::new(None);
    g.anchor_mode(AnchorMode::First);
    g.no_fill();
    g.stroke_weight(9);
    g.translate(Vector::new(3, 4));
    g.polyline(&[Vector::new(1, 1), Vector::new(2, 2), Vector::new(3, 1)], false);
    match g.construct_buffer_data() {
        Progress::Pending(pass) => {
            assert_eq!(pass.kind(), PassKind::Stroke);
            assert_eq!(pass.index(), 1);
            assert!(!pass.closed());
            assert_eq!(*pass.points(), vec![p(1, 1), p(2, 2), p(3, 1)]);
            assert_eq!(pass.context().stroke_weight, 9);
            assert_eq!(pass.context().transform.ops.len(), 1);
        },
        other => panic!("{:?}", other),
    }
}

#[test]
fn tessellator_failure_fails_the_frame() {
    let mut g = Graphics::new(None);
    g.square(Vector::new(0, 0), 10);
    g.square(Vector::new(0, 0), 10);
    let first = match g.construct_buffer_data() {
        Progress::Pending(pass) => pass.supply(Ok(quad(0, 0, 10))),
        other => panic!("{:?}", other),
    };
    let second = match first {
        Progress::Pending(pass) => pass.supply(Err(TessellationError::Internal)),
        other => panic!("{:?}", other),
    };
    assert!(matches!(second, Progress::Finished(Err(TessellationError::Internal))));
}

#[test]
fn unsupported_parameter_fails_the_frame() {
    let mut g = Graphics::new(None);
    g.square(Vector::new(0, 0), 10);
    match g.construct_buffer_data() {
        Progress::Pending(pass) => assert!(matches!(
            pass.supply(Err(TessellationError::UnsupportedParameter)),
            Progress::Finished(Err(TessellationError::UnsupportedParameter))
        )),
        other => panic!("{:?}", other),
    }
}

#[test]
fn triangle_outside_the_mesh_fails_the_frame() {
    let mut g = Graphics::new(None);
    g.square(Vector::new(0, 0), 10);
    let mesh = Mesh { positions: vec![p(0, 0), p(1, 0), p(1, 1)], triangles: vec![triangle(0, 1, 3)] };
    match g.construct_buffer_data() {
        Progress::Pending(pass) => assert!(matches!(
            pass.supply(Ok(mesh)),
            Progress::Finished(Err(TessellationError::InvalidVertex))
        )),
        other => panic!("{:?}", other),
    }
}

#[test]
fn too_many_vertices_fail_the_frame() {
    let mut g = Graphics::new(None);
    g.no_stroke();
    g.square(Vector::new(0, 0), 10);
    g.square(Vector::new(0, 0), 10);
    let (commands, initial) = g.into_parts();
    let first = match Progress::start_with_vertex_limit(commands, initial, 7) {
        Progress::Pending(pass) => pass.supply(Ok(quad(0, 0, 10))),
        other => panic!("{:?}", other),
    };
    let second = match first {
        Progress::Pending(pass) => pass.supply(Ok(quad(0, 0, 10))),
        other => panic!("{:?}", other),
    };
    assert!(matches!(second, Progress::Finished(Err(TessellationError::TooManyVertices))));
}

#[test]
fn vertex_limit_is_inclusive() {
    let mut g = Graphics::new(None);
    g.no_stroke();
    g.square(Vector::new(0, 0), 10);
    g.square(Vector::new(0, 0), 10);
    let (commands, initial) = g.into_parts();
    let progress = Progress::start_with_vertex_limit(commands, initial, 8);
    let data = run_with(progress, vec![quad(0, 0, 10), quad(5, 5, 10)]).unwrap();
    assert_eq!(data.vertices.len(), 8);
    assert_eq!(data.indices.len(), 12);
}

#[test]
fn replaying_a_log_twice_gives_equal_buffers() {
    let record = || {
        let mut g = Graphics::new(None);
        g.fill(colors::red());
        g.stroke_weight(3);
        g.square(Vector::new(0, 0), 30);
        g.scoped(|inner| {
            inner.no_fill();
            inner.rect(Vector::new(100, 100), Size::new(20, 60));
        });
        g.no_stroke();
        g.rect(Vector::new(-50, 20), Size::new(10, 10));
        g
    };
    let (first, asked_first) = run(record().construct_buffer_data());
    let (second, asked_second) = run(record().construct_buffer_data());
    let first = first.unwrap();
    assert_eq!(first, second.unwrap());
    assert_eq!(asked_first, asked_second);
    assert_valid(&first);
    assert!(!first.vertices.is_empty());
}

#[test]
fn start_reads_a_hand_made_log() {
    let mut context = Context::default();
    context.fill = Some(colors::white());
    context.stroke = None;
    let commands = vec![
        DrawCommand::Draw(true, vec![p(0, 0), p(1, 0), p(1, 1)]),
        DrawCommand::UpdateContext(context),
        DrawCommand::Draw(true, vec![p(0, 0), p(1, 0), p(1, 1)]),
    ];
    let mut initial = Context::default();
    initial.fill = None;
    initial.stroke = Some(colors::green());
    let corner = || Mesh { positions: vec![p(0, 0), p(1, 0), p(1, 1)], triangles: vec![triangle(0, 1, 2)] };
    let data = run_with(Progress::start(commands, initial), vec![corner(), corner()]).unwrap();
    assert_eq!(
        data.vertices,
        vec![
            RawVertex { position: p(0, 0), color: colors::green() },
            RawVertex { position: p(1, 0), color: colors::green() },
            RawVertex { position: p(1, 1), color: colors::green() },
            RawVertex { position: p(0, 0), color: colors::white() },
            RawVertex { position: p(1, 0), color: colors::white() },
            RawVertex { position: p(1, 1), color: colors::white() },
        ]
    );
    assert_eq!(data.indices, vec![0, 1, 2, 3, 4, 5]);
}

#[test]
fn from_builder_maps_each_refusal() {
    assert_eq!(
        TessellationError::from_builder(GeometryBuilderError::InvalidVertex),
        TessellationError::InvalidVertex
    );
    assert_eq!(
        TessellationError::from_builder(GeometryBuilderError::TooManyVertices),
        TessellationError::TooManyVertices
    );
}
