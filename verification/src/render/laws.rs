//! What holds of every recording and of every frame.

use vstd::prelude::*;
use crate::render::buffers::{
    lemma_resume_wf, started, PendingView, ProgressView, TessellationError,
};
use crate::render::calls::Call;
use crate::render::construct::{BuilderView, MeshView, PassKind};
use crate::render::context::{AnchorMode, ContextView};
use crate::render::graphics::{
    anchor_shift, context_after, context_at, lemma_authored_points_alignable,
    lemma_context_after_concat, polyline_points, rect_points, to_points, CommandView, GraphicsView,
};
use crate::types::{BoundingBox, Coord, Index, Point, RawVertex, Size, Vector};

verus! {

/// The contexts that the log writes, in order.
pub open spec fn snapshots(commands: Seq<CommandView>) -> Seq<ContextView>
    decreases commands.len(),
{
    if commands.len() == 0 {
        Seq::empty()
    } else {
        match commands.last() {
            CommandView::UpdateContext(context) => snapshots(commands.drop_last()).push(context),
            CommandView::Draw(_, _) => snapshots(commands.drop_last()),
        }
    }
}

/// The contexts in force at those shapes among `calls` that found the
/// recorder dirty, in the order of the calls, which start in the state
/// `start`.
pub open spec fn dirty_shapes(start: GraphicsView, calls: Seq<Call>) -> Seq<ContextView>
    decreases calls.len(),
{
    if calls.len() == 0 {
        Seq::empty()
    } else {
        let before = start.after_all(calls.drop_last());
        if calls.last().is_shape() && before.dirty {
            dirty_shapes(start, calls.drop_last()).push(before.context())
        } else {
            dirty_shapes(start, calls.drop_last())
        }
    }
}

/// A call appends to the log and changes nothing that is in it: a shape
/// appends itself, after a snapshot of the context if the recorder was dirty;
/// any other call appends nothing.
pub proof fn law_call_appends(start: GraphicsView, call: Call)
    ensures
        !call.is_shape() ==> start.after(call).commands == start.commands,
        call.is_shape() && !start.dirty ==> start.after(call).commands.len()
            == start.commands.len() + 1,
        call.is_shape() && start.dirty ==> start.after(call).commands.len() == start.commands.len()
            + 2 && start.after(call).commands[start.commands.len() as int]
            == CommandView::UpdateContext(start.context()),
        call.is_shape() ==> start.after(call).commands.last() is Draw,
        start.after(call).commands.take(start.commands.len() as int) == start.commands,
{
    assert(start.after(call).commands.take(start.commands.len() as int) =~= start.commands);
}

/// Whatever calls follow, the log keeps what it held.
pub proof fn law_log_append_only(start: GraphicsView, calls: Seq<Call>)
    ensures
        start.after_all(calls).commands.len() >= start.commands.len(),
        start.after_all(calls).commands.take(start.commands.len() as int) == start.commands,
    decreases calls.len(),
{
    if calls.len() == 0 {
        assert(start.commands.take(start.commands.len() as int) =~= start.commands);
    } else {
        let before = start.after_all(calls.drop_last());
        law_log_append_only(start, calls.drop_last());
        law_call_appends(before, calls.last());
        let after = before.after(calls.last());
        assert(after.commands.take(start.commands.len() as int) =~= after.commands.take(
            before.commands.len() as int,
        ).take(start.commands.len() as int));
    }
}

/// The snapshots that a sequence of calls adds to the log are the contexts
/// in force at the shapes that found the recorder dirty, in the order of
/// those shapes.
pub proof fn law_snapshots_follow_dirty_shapes(start: GraphicsView, calls: Seq<Call>)
    ensures
        snapshots(start.after_all(calls).commands) == snapshots(start.commands) + dirty_shapes(
            start,
            calls,
        ),
    decreases calls.len(),
{
    if calls.len() == 0 {
        assert(snapshots(start.commands) + Seq::<ContextView>::empty() =~= snapshots(
            start.commands,
        ));
    } else {
        let before = start.after_all(calls.drop_last());
        let call = calls.last();
        law_snapshots_follow_dirty_shapes(start, calls.drop_last());
        let after = before.after(call);
        if call.is_shape() {
            let flushed = before.flushed().commands;
            assert(after.commands.drop_last() =~= flushed);
            assert(snapshots(after.commands) == snapshots(flushed));
            if before.dirty {
                assert(flushed.drop_last() =~= before.commands);
                assert(snapshots(flushed) == snapshots(before.commands).push(before.context()));
            }
        }
        assert(snapshots(after.commands) =~= snapshots(start.commands) + dirty_shapes(
            start,
            calls,
        ));
    }
}

/// Calls that record no shape leave the log as it is, however they change
/// the context.
pub proof fn law_no_shape_no_command(start: GraphicsView, calls: Seq<Call>)
    requires
        forall|i: int| 0 <= i < calls.len() ==> !(#[trigger] calls[i]).is_shape(),
    ensures
        start.after_all(calls).commands == start.commands,
    decreases calls.len(),
{
    if calls.len() > 0 {
        law_no_shape_no_command(start, calls.drop_last());
    }
}

/// Every call keeps a consistent recorder consistent.
pub proof fn law_calls_keep_consistent(start: GraphicsView, calls: Seq<Call>)
    requires
        start.consistent(),
    ensures
        start.after_all(calls).consistent(),
    decreases calls.len(),
{
    if calls.len() > 0 {
        law_calls_keep_consistent(start, calls.drop_last());
        let before = start.after_all(calls.drop_last());
        let call = calls.last();
        if call.is_shape() {
            law_shape_logged_under_its_context(before, call);
        }
    }
}

/// A shape stands in the log under the context that was in force when it was
/// recorded: a reader of the log finds that context in force at the shape.
pub proof fn law_shape_logged_under_its_context(start: GraphicsView, call: Call)
    requires
        start.consistent(),
        call.is_shape(),
    ensures
        start.after(call).commands.last() is Draw,
        context_after(start.after(call).commands.drop_last(), start.initial) == start.context(),
        start.after(call).logged() == start.context(),
        start.after(call).consistent(),
{
    let after = start.after(call);
    assert(after.commands.drop_last() =~= start.flushed().commands);
    if start.dirty {
        assert(start.flushed().commands.drop_last() =~= start.commands);
    }
}

/// `restore` with a single context on the stack changes nothing, and no
/// sequence of calls empties the stack.
pub proof fn law_restore_floor(start: GraphicsView, calls: Seq<Call>)
    requires
        start.stack.len() >= 1,
    ensures
        start.stack.len() == 1 ==> start.after(Call::Restore) == start,
        start.after_all(calls).stack.len() >= 1,
    decreases calls.len(),
{
    if calls.len() > 0 {
        law_restore_floor(start, calls.drop_last());
    }
}

/// What happens inside a scope stays there: after the scope the stack and
/// the context in force are what they were, and the log has that context in
/// force, whatever the scope recorded.
pub proof fn law_scope_isolated(outer: GraphicsView, inner: GraphicsView)
    requires
        outer.stack.len() >= 1,
    ensures
        outer.joined(inner).stack == outer.stack,
        outer.joined(inner).context() == outer.context(),
        outer.joined(inner).logged() == outer.context(),
        outer.joined(inner).dirty == outer.dirty,
        outer.joined(inner).consistent(),
{
}

/// A command recorded inside a scope stands in the outer log under the
/// context that it stood under in the scope's own log.
pub proof fn law_scope_keeps_contexts(outer: GraphicsView, inner: GraphicsView, k: int)
    requires
        inner.initial == outer.scope().initial,
        0 <= k <= inner.commands.len(),
    ensures
        context_after(
            outer.joined(inner).commands.take(outer.commands.len() + k),
            outer.initial,
        ) == context_after(inner.commands.take(k), inner.initial),
{
    assert(outer.joined(inner).commands.take(outer.commands.len() + k) =~= outer.commands
        + inner.commands.take(k));
    lemma_context_after_concat(outer.commands, inner.commands.take(k), outer.initial);
}

/// Under `AnchorMode::Center` the center of the bounding box of a recorded
/// rectangle is the position it was drawn at, whatever its extent.
pub proof fn law_center_anchor(position: Vector, size: Size)
    ensures
        BoundingBox::spec_from_points(
            rect_points(AnchorMode::Center, position, size),
        ).spec_center() == position.spec_to_point(),
{
    let points = rect_points(AnchorMode::Center, position, size);
    let bounds = BoundingBox::spec_from_points(points);
    BoundingBox::lemma_from_points_bounds(points);
    assert(points.len() == 4);
    assert(bounds.min.x <= points[0].x <= bounds.max.x);
    assert(bounds.min.x <= points[1].x <= bounds.max.x);
    assert(bounds.min.y <= points[0].y <= bounds.max.y);
    assert(bounds.min.y <= points[2].y <= bounds.max.y);
    assert(points[3].x == points[0].x && points[2].x == points[1].x);
    assert(points[1].y == points[0].y && points[3].y == points[2].y);
}

/// Under `AnchorMode::Center` the center of the bounding box of a recorded
/// polyline lies where the first corner of the bounding box of its authored
/// points was. Under `AnchorMode::First` the points are recorded as authored.
pub proof fn law_center_anchor_of_polyline(points: Seq<Vector>)
    requires
        points.len() > 0,
    ensures
        BoundingBox::spec_from_points(polyline_points(AnchorMode::Center, points)).spec_center()
            == BoundingBox::spec_from_points(to_points(points)).min,
        polyline_points(AnchorMode::First, points) == to_points(points),
{
    let authored = to_points(points);
    let bounds = BoundingBox::spec_from_points(authored);
    let recorded = polyline_points(AnchorMode::Center, points);
    let shift = anchor_shift(AnchorMode::Center, bounds);
    BoundingBox::lemma_from_points_bounds(authored);
    lemma_authored_points_alignable(AnchorMode::Center, points);
    assert(polyline_points(AnchorMode::First, points) =~= authored);
    let i0 = choose|i: int| 0 <= i < authored.len() && (#[trigger] authored[i]).x == bounds.min.x;
    let i1 = choose|i: int| 0 <= i < authored.len() && (#[trigger] authored[i]).y == bounds.min.y;
    let i2 = choose|i: int| 0 <= i < authored.len() && (#[trigger] authored[i]).x == bounds.max.x;
    let i3 = choose|i: int| 0 <= i < authored.len() && (#[trigger] authored[i]).y == bounds.max.y;
    assert(authored[i0] == points[i0].spec_to_point());
    assert(authored[i1] == points[i1].spec_to_point());
    assert(authored[i2] == points[i2].spec_to_point());
    assert(authored[i3] == points[i3].spec_to_point());
    let moved = BoundingBox {
        min: Point { x: (bounds.min.x - shift.0) as Coord, y: (bounds.min.y - shift.1) as Coord },
        max: Point { x: (bounds.max.x - shift.0) as Coord, y: (bounds.max.y - shift.1) as Coord },
    };
    assert forall|i: int| 0 <= i < recorded.len() implies {
        &&& moved.min.x <= (#[trigger] recorded[i]).x <= moved.max.x
        &&& moved.min.y <= recorded[i].y <= moved.max.y
    } by {
        assert(bounds.min.x <= authored[i].x <= bounds.max.x);
        assert(authored[i] == points[i].spec_to_point());
    }
    assert(recorded[i0].x == moved.min.x);
    assert(recorded[i1].y == moved.min.y);
    assert(recorded[i2].x == moved.max.x);
    assert(recorded[i3].y == moved.max.y);
    assert(moved.bounds(recorded));
    moved.lemma_bounds_from_points(recorded);
}

/// Under `AnchorMode::First` a recorded rectangle starts at the position it
/// was drawn at.
pub proof fn law_first_anchor(position: Vector, size: Size)
    ensures
        rect_points(AnchorMode::First, position, size)[0] == position.spec_to_point(),
{
}

/// A frame starts well formed: where it waits for a pass, the pass is a
/// shape of the log, and the sink has the context that the log has in force
/// at that shape.
pub proof fn law_start(commands: Seq<CommandView>, initial: ContextView, limit: Index)
    ensures
        started(commands, initial, limit).wf(),
{
    let builder = BuilderView {
        vertices: Seq::empty(),
        indices: Seq::empty(),
        offsets: (0, 0),
        context: initial,
        limit,
    };
    assert(commands.take(0) =~= Seq::empty());
    lemma_resume_wf(commands, initial, 0, PassKind::Fill, builder);
}

/// A frame goes on well formed, whatever the tessellator answers, over the
/// same log. So the buffers of every finished frame are valid: their
/// indices come in threes, and each names a vertex.
pub proof fn law_supply(pending: PendingView, reply: Result<MeshView, TessellationError>)
    requires
        pending.wf(),
    ensures
        pending.supplied(reply).wf(),
        match pending.supplied(reply) {
            ProgressView::Pending(next) => next.commands == pending.commands && next.initial
                == pending.initial,
            ProgressView::Finished(Ok(data)) => data.valid(),
            ProgressView::Finished(Err(_)) => true,
        },
{
    if let Ok(mesh) = reply {
        pending.builder.law_mesh_in_pass_color(pending.kind, mesh);
        if let Ok(builder) = pending.builder.with_mesh(pending.kind, mesh) {
            let commands = pending.commands;
            let index = pending.index;
            assert(commands.take(index + 1).drop_last() =~= commands.take(index));
            match pending.kind {
                PassKind::Fill => {
                    lemma_resume_wf(commands, pending.initial, index, PassKind::Stroke, builder);
                },
                PassKind::Stroke => {
                    lemma_resume_wf(commands, pending.initial, index + 1, PassKind::Fill, builder);
                },
            }
        }
    }
}

/// Every vertex of the fill of a shape has the fill color that the log has
/// in force at the shape, and every vertex of its outline the stroke color.
/// The vertices and indices of earlier shapes stay as they are.
pub proof fn law_vertices_in_logged_color(pending: PendingView, mesh: MeshView)
    requires
        pending.wf(),
        pending.builder.with_mesh(pending.kind, mesh) is Ok,
    ensures
        ({
            let before = pending.builder;
            let after = pending.builder.with_mesh(pending.kind, mesh)->Ok_0;
            &&& pending.color() is Some
            &&& after.vertices.len() == before.vertices.len() + mesh.positions.len()
            &&& forall|i: int|
                0 <= i < before.vertices.len() ==> (#[trigger] after.vertices[i])
                    == before.vertices[i]
            &&& forall|i: int|
                before.vertices.len() <= i < after.vertices.len() ==> (#[trigger] after.vertices[i])
                    == (RawVertex {
                    position: mesh.positions[i - before.vertices.len()],
                    color: pending.color()->Some_0,
                })
            &&& after.indices.len() == before.indices.len() + 3 * mesh.triangles.len()
            &&& forall|i: int|
                0 <= i < before.indices.len() ==> (#[trigger] after.indices[i]) == before.indices[i]
        }),
{
    pending.builder.law_mesh_in_pass_color(pending.kind, mesh);
}

/// The frame after the answers `replies` were supplied one by one, as far as
/// the frame asked for them.
pub open spec fn fed(progress: ProgressView, replies: Seq<Result<MeshView, TessellationError>>) -> ProgressView
    decreases replies.len(),
{
    if replies.len() == 0 {
        progress
    } else {
        match progress {
            ProgressView::Pending(pending) => fed(
                pending.supplied(replies.first()),
                replies.drop_first(),
            ),
            ProgressView::Finished(_) => progress,
        }
    }
}

/// What comes of a frame is decided by its log, the context before the
/// first command, the vertex limit and the answers of the tessellator:
/// two frames that agree in these agree in every vertex and every index.
/// Nothing else that a recorder holds bears on it.
pub proof fn law_frame_determined(
    first: GraphicsView,
    second: GraphicsView,
    limit: Index,
    replies: Seq<Result<MeshView, TessellationError>>,
)
    requires
        first.commands == second.commands,
        first.initial == second.initial,
    ensures
        fed(started(first.commands, first.initial, limit), replies) == fed(
            started(second.commands, second.initial, limit),
            replies,
        ),
{
}

/// However many answers were supplied, the frame is well formed.
pub proof fn law_fed(progress: ProgressView, replies: Seq<Result<MeshView, TessellationError>>)
    requires
        progress.wf(),
    ensures
        fed(progress, replies).wf(),
        match (progress, fed(progress, replies)) {
            (ProgressView::Pending(first), ProgressView::Pending(last)) => last.commands
                == first.commands && last.initial == first.initial,
            _ => true,
        },
    decreases replies.len(),
{
    if replies.len() > 0 {
        if let ProgressView::Pending(pending) = progress {
            law_supply(pending, replies.first());
            law_fed(pending.supplied(replies.first()), replies.drop_first());
        }
    }
}

/// However the tessellator answered so far, the pass that a frame waits for
/// is a shape of its log, and each vertex of the pass takes the color that
/// the log has in force at that shape: the fill color for a fill, the stroke
/// color for an outline.
pub proof fn law_every_pass_in_logged_color(
    commands: Seq<CommandView>,
    initial: ContextView,
    limit: Index,
    replies: Seq<Result<MeshView, TessellationError>>,
    mesh: MeshView,
)
    ensures
        match fed(started(commands, initial, limit), replies) {
            ProgressView::Pending(pending) => {
                let context = context_at(commands, initial, pending.index);
                let color = match pending.kind {
                    PassKind::Fill => context.fill,
                    PassKind::Stroke => context.stroke,
                };
                &&& 0 <= pending.index < commands.len()
                &&& commands[pending.index] is Draw
                &&& color is Some
                &&& match pending.builder.with_mesh(pending.kind, mesh) {
                    Ok(after) => forall|i: int|
                        pending.builder.vertices.len() <= i < after.vertices.len() ==> (
                        #[trigger] after.vertices[i]).color == color->Some_0,
                    Err(_) => true,
                }
            },
            ProgressView::Finished(_) => true,
        },
{
    let start = started(commands, initial, limit);
    law_start(commands, initial, limit);
    law_fed(start, replies);
    if let ProgressView::Pending(pending) = fed(start, replies) {
        assert(pending.commands == commands && pending.initial == initial) by {
            let builder = BuilderView {
                vertices: Seq::empty(),
                indices: Seq::empty(),
                offsets: (0, 0),
                context: initial,
                limit,
            };
            assert(commands.take(0) =~= Seq::empty());
            lemma_resume_wf(commands, initial, 0, PassKind::Fill, builder);
        }
        if pending.builder.with_mesh(pending.kind, mesh) is Ok {
            law_vertices_in_logged_color(pending, mesh);
        }
    }
}

/// Calls leave the context before the first command as it is.
pub proof fn law_initial_context_stays(start: GraphicsView, calls: Seq<Call>)
    ensures
        start.after_all(calls).initial == start.initial,
        start.after_all(calls).clear_color == start.clear_color,
    decreases calls.len(),
{
    if calls.len() > 0 {
        law_initial_context_stays(start, calls.drop_last());
    }
}

/// A recorded shape keeps its place in the log and the context it was
/// recorded under, whatever calls follow: to change the fill color later
/// does not change the color of a shape that is in the log.
pub proof fn law_recorded_shape_keeps_its_context(
    start: GraphicsView,
    shape: Call,
    later: Seq<Call>,
)
    requires
        start.consistent(),
        shape.is_shape(),
    ensures
        ({
            let drawn = start.after(shape);
            let at = drawn.commands.len() - 1;
            let end = drawn.after_all(later);
            &&& 0 <= at < end.commands.len()
            &&& end.commands[at] is Draw
            &&& end.commands[at] == drawn.commands[at]
            &&& context_at(end.commands, end.initial, at) == start.context()
        }),
{
    let drawn = start.after(shape);
    let at = drawn.commands.len() - 1;
    let end = drawn.after_all(later);
    law_shape_logged_under_its_context(start, shape);
    law_log_append_only(drawn, later);
    law_initial_context_stays(drawn, later);
    let kept = end.commands.take(drawn.commands.len() as int);
    assert(kept[at] == end.commands[at]);
    assert(end.commands.take(at) =~= kept.take(at));
    assert(drawn.commands.take(at) =~= drawn.commands.drop_last());
}

} // verus!
