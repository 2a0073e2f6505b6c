//! The recorder: drawing calls in, an ordered command log out.

use vstd::prelude::*;
use crate::color::Color;
use crate::render::context::{
    context_views, AnchorMode, Angle, AngleMode, Context, ContextStack, ContextView, Transform,
    TransformOp,
};
use crate::render::buffers::{started, Progress};
use crate::types::{half, BoundingBox, Coord, Index, Point, Scalar, Size, Vector};

verus! {

/// One entry of the command log.
#[derive(Debug, PartialEq, Eq)]
pub enum DrawCommand {
    /// A polyline to tessellate, closed or open; its points are already
    /// anchored.
    Draw(bool, Vec<Point>),
    /// From here on the given context is in force.
    UpdateContext(Context),
}

/// What a command holds, as a value of specifications.
pub enum CommandView {
    Draw(bool, Seq<Point>),
    UpdateContext(ContextView),
}

impl View for DrawCommand {
    type V = CommandView;

    open spec fn view(&self) -> CommandView {
        match *self {
            DrawCommand::Draw(closed, points) => CommandView::Draw(closed, points@),
            DrawCommand::UpdateContext(context) => CommandView::UpdateContext(context@),
        }
    }
}

/// A copy of `points`.
pub fn copy_points(points: &[Point]) -> (copy: Vec<Point>)
    ensures
        copy@ == points@,
{
    let mut copy: Vec<Point> = Vec::new();
    let mut i: usize = 0;
    while i < points.len()
        invariant
            i <= points.len(),
            copy@ == points@.take(i as int),
        decreases points.len() - i,
    {
        copy.push(points[i]);
        assert(points@.take(i + 1) =~= points@.take(i as int).push(points@[i as int]));
        i += 1;
    }
    assert(points@.take(i as int) =~= points@);
    copy
}

impl Clone for DrawCommand {
    fn clone(&self) -> (c: Self)
        ensures
            c@ == self@,
    {
        match self {
            DrawCommand::Draw(closed, points) => DrawCommand::Draw(
                *closed,
                copy_points(points.as_slice()),
            ),
            DrawCommand::UpdateContext(context) => DrawCommand::UpdateContext(context.clone()),
        }
    }
}

/// A copy of `commands`.
pub fn copy_commands(commands: &Vec<DrawCommand>) -> (copy: Vec<DrawCommand>)
    ensures
        command_views(copy@) == command_views(commands@),
{
    let mut copy: Vec<DrawCommand> = Vec::new();
    let mut i: usize = 0;
    while i < commands.len()
        invariant
            i <= commands.len(),
            copy@.len() == i,
            forall|j: int| 0 <= j < i ==> (#[trigger] copy@[j])@ == commands@[j]@,
        decreases commands.len() - i,
    {
        let command = commands[i].clone();
        copy.push(command);
        i += 1;
    }
    assert(command_views(copy@) =~= command_views(commands@));
    copy
}

/// The views of a list of commands, in order.
pub open spec fn command_views(commands: Seq<DrawCommand>) -> Seq<CommandView> {
    commands.map_values(|c: DrawCommand| c@)
}

/// The context that the log `commands` leaves in force, when `initial` was in
/// force before its first command: that of the last context update, or
/// `initial` where there is none.
pub open spec fn context_after(commands: Seq<CommandView>, initial: ContextView) -> ContextView
    decreases commands.len(),
{
    if commands.len() == 0 {
        initial
    } else {
        match commands.last() {
            CommandView::UpdateContext(context) => context,
            CommandView::Draw(_, _) => context_after(commands.drop_last(), initial),
        }
    }
}

/// The context that a reader of `commands` finds in force at the command at
/// `index`, when `initial` was in force before the first command.
pub open spec fn context_at(commands: Seq<CommandView>, initial: ContextView, index: int) -> ContextView {
    context_after(commands.take(index), initial)
}

/// How far the points of a shape with the bounding box `bounds` are moved
/// towards the origin, along each axis.
pub open spec fn anchor_shift(mode: AnchorMode, bounds: BoundingBox) -> (int, int) {
    match mode {
        AnchorMode::First => (0, 0),
        AnchorMode::Center => (
            half(bounds.min.x + bounds.max.x) - bounds.min.x,
            half(bounds.min.y + bounds.max.y) - bounds.min.y,
        ),
    }
}

/// The box that anchoring goes by: the given one, or that of the points.
pub open spec fn anchor_bounds(points: Seq<Point>, bounds: Option<BoundingBox>) -> BoundingBox {
    match bounds {
        Some(b) => b,
        None => BoundingBox::spec_from_points(points),
    }
}

/// Every anchored coordinate lies in the range of `Coord`.
pub open spec fn alignable(mode: AnchorMode, points: Seq<Point>, bounds: BoundingBox) -> bool {
    forall|i: int|
        0 <= i < points.len() ==> {
            &&& Coord::MIN <= (#[trigger] points[i]).x - anchor_shift(mode, bounds).0 <= Coord::MAX
            &&& Coord::MIN <= points[i].y - anchor_shift(mode, bounds).1 <= Coord::MAX
        }
}

/// The points of a shape after anchoring.
pub open spec fn aligned(mode: AnchorMode, points: Seq<Point>, bounds: BoundingBox) -> Seq<Point> {
    Seq::new(
        points.len(),
        |i: int|
            Point {
                x: (points[i].x - anchor_shift(mode, bounds).0) as Coord,
                y: (points[i].y - anchor_shift(mode, bounds).1) as Coord,
            },
    )
}

/// The points at the authored positions `points`.
pub open spec fn to_points(points: Seq<Vector>) -> Seq<Point> {
    Seq::new(points.len(), |i: int| points[i].spec_to_point())
}

/// The recorded points of the polyline through the authored positions
/// `points`: anchored by their own bounding box.
pub open spec fn polyline_points(mode: AnchorMode, points: Seq<Vector>) -> Seq<Point> {
    aligned(mode, to_points(points), BoundingBox::spec_from_points(to_points(points)))
}

/// Authored positions can always be anchored by their own bounding box: no
/// coordinate leaves the range.
pub proof fn lemma_authored_points_alignable(mode: AnchorMode, points: Seq<Vector>)
    ensures
        alignable(mode, to_points(points), BoundingBox::spec_from_points(to_points(points))),
{
    let recorded = to_points(points);
    let bounds = BoundingBox::spec_from_points(recorded);
    BoundingBox::lemma_from_points_bounds(recorded);
    if recorded.len() > 0 {
        let i0 = choose|i: int| 0 <= i < recorded.len() && (#[trigger] recorded[i]).x == bounds.min.x;
        let i1 = choose|i: int| 0 <= i < recorded.len() && (#[trigger] recorded[i]).y == bounds.min.y;
        let i2 = choose|i: int| 0 <= i < recorded.len() && (#[trigger] recorded[i]).x == bounds.max.x;
        let i3 = choose|i: int| 0 <= i < recorded.len() && (#[trigger] recorded[i]).y == bounds.max.y;
        assert(recorded[i0] == points[i0].spec_to_point());
        assert(recorded[i1] == points[i1].spec_to_point());
        assert(recorded[i2] == points[i2].spec_to_point());
        assert(recorded[i3] == points[i3].spec_to_point());
        assert forall|i: int| 0 <= i < recorded.len() implies {
            &&& Coord::MIN <= (#[trigger] recorded[i]).x - anchor_shift(mode, bounds).0 <= Coord::MAX
            &&& Coord::MIN <= recorded[i].y - anchor_shift(mode, bounds).1 <= Coord::MAX
        } by {
            assert(recorded[i] == points[i].spec_to_point());
        }
    }
}

/// The corners of the rectangle at `position` with the extent `size`, before
/// anchoring: the position, then along the width, then the opposite corner,
/// then along the height.
pub open spec fn rect_corners(position: Vector, size: Size) -> Seq<Point> {
    seq![
        Point { x: position.x as Coord, y: position.y as Coord },
        Point { x: (position.x + size.width) as Coord, y: position.y as Coord },
        Point { x: (position.x + size.width) as Coord, y: (position.y + size.height) as Coord },
        Point { x: position.x as Coord, y: (position.y + size.height) as Coord },
    ]
}

/// The box spanned by `position` and the corner opposite to it.
pub open spec fn rect_bounds(position: Vector, size: Size) -> BoundingBox {
    BoundingBox {
        min: Point { x: position.x as Coord, y: position.y as Coord },
        max: Point { x: (position.x + size.width) as Coord, y: (position.y + size.height) as Coord },
    }
}

/// The recorded points of the rectangle at `position` with the extent `size`.
/// Under `AnchorMode::Center` they are moved by half the extent, rounded down.
pub open spec fn rect_points(mode: AnchorMode, position: Vector, size: Size) -> Seq<Point> {
    let dx = match mode {
        AnchorMode::First => 0,
        AnchorMode::Center => half(size.width as int),
    };
    let dy = match mode {
        AnchorMode::First => 0,
        AnchorMode::Center => half(size.height as int),
    };
    seq![
        Point { x: (position.x - dx) as Coord, y: (position.y - dy) as Coord },
        Point { x: (position.x + size.width - dx) as Coord, y: (position.y - dy) as Coord },
        Point {
            x: (position.x + size.width - dx) as Coord,
            y: (position.y + size.height - dy) as Coord,
        },
        Point { x: (position.x - dx) as Coord, y: (position.y + size.height - dy) as Coord },
    ]
}

/// The state of a recorder, as a value of specifications.
pub struct GraphicsView {
    pub clear_color: Option<Color>,
    /// The log so far.
    pub commands: Seq<CommandView>,
    /// The context in force before the first command of the log.
    pub initial: ContextView,
    /// The context stack, bottom first; its last entry is the context in
    /// force for the next shape.
    pub stack: Seq<ContextView>,
    /// The context was changed since it was last written to the log.
    pub dirty: bool,
}

impl GraphicsView {
    /// The context in force for the next shape.
    pub open spec fn context(self) -> ContextView {
        self.stack.last()
    }

    /// The context that a reader of the log finds in force at its end.
    pub open spec fn logged(self) -> ContextView {
        context_after(self.commands, self.initial)
    }

    /// A recorder that is not dirty has its context in the log.
    pub open spec fn consistent(self) -> bool {
        &&& self.stack.len() >= 1
        &&& !self.dirty ==> self.logged() == self.context()
    }

    /// The state after the context in force was replaced by `context`.
    pub open spec fn altered(self, context: ContextView) -> GraphicsView {
        GraphicsView { stack: self.stack.drop_last().push(context), dirty: true, ..self }
    }

    /// The state after a pending change of context was written to the log.
    pub open spec fn flushed(self) -> GraphicsView {
        if self.dirty {
            GraphicsView {
                commands: self.commands.push(CommandView::UpdateContext(self.context())),
                dirty: false,
                ..self
            }
        } else {
            self
        }
    }

    /// The state after a shape with anchored `points` was recorded.
    pub open spec fn recorded(self, closed: bool, points: Seq<Point>) -> GraphicsView {
        GraphicsView {
            commands: self.flushed().commands.push(CommandView::Draw(closed, points)),
            dirty: false,
            ..self
        }
    }

    /// The state after `save`.
    pub open spec fn saved(self) -> GraphicsView {
        GraphicsView { stack: self.stack.push(self.context()), ..self }
    }

    /// The state after `restore`.
    pub open spec fn restored(self) -> GraphicsView {
        if self.stack.len() > 1 {
            GraphicsView { stack: self.stack.drop_last(), dirty: true, ..self }
        } else {
            self
        }
    }

    /// The state that a scope starts in: the context in force alone, an empty
    /// log that continues this one.
    pub open spec fn scope(self) -> GraphicsView {
        GraphicsView {
            clear_color: self.clear_color,
            commands: Seq::empty(),
            initial: self.logged(),
            stack: seq![self.context()],
            dirty: self.dirty,
        }
    }

    /// The state after a scope that ended in the state `inner`: the log has
    /// the scope's commands and then a snapshot of this recorder's own
    /// context; nothing else has changed.
    pub open spec fn joined(self, inner: GraphicsView) -> GraphicsView {
        GraphicsView {
            commands: (self.commands + inner.commands).push(
                CommandView::UpdateContext(self.context()),
            ),
            ..self
        }
    }
}

/// A log whose last context update is its command `k` leaves that update's
/// context in force.
pub proof fn lemma_context_after_update(
    commands: Seq<CommandView>,
    initial: ContextView,
    k: int,
)
    requires
        0 <= k < commands.len(),
        commands[k] is UpdateContext,
        forall|i: int| k < i < commands.len() ==> commands[i] is Draw,
    ensures
        context_after(commands, initial) == commands[k]->UpdateContext_0,
    decreases commands.len(),
{
    if k < commands.len() - 1 {
        lemma_context_after_update(commands.drop_last(), initial, k);
    }
}

/// A log without a context update leaves the initial context in force.
pub proof fn lemma_context_after_draws(commands: Seq<CommandView>, initial: ContextView)
    requires
        forall|i: int| 0 <= i < commands.len() ==> commands[i] is Draw,
    ensures
        context_after(commands, initial) == initial,
    decreases commands.len(),
{
    if commands.len() > 0 {
        lemma_context_after_draws(commands.drop_last(), initial);
    }
}

/// Reading a log in two parts: the second part starts from the context that
/// the first part left in force.
pub proof fn lemma_context_after_concat(
    first: Seq<CommandView>,
    second: Seq<CommandView>,
    initial: ContextView,
)
    ensures
        context_after(first + second, initial) == context_after(
            second,
            context_after(first, initial),
        ),
    decreases second.len(),
{
    if second.len() == 0 {
        assert(first + second =~= first);
    } else {
        assert((first + second).drop_last() =~= first + second.drop_last());
        lemma_context_after_concat(first, second.drop_last(), initial);
    }
}

/// The recorder of one frame's drawing calls.
#[derive(Debug)]
pub struct Graphics {
    pub(crate) clear_color: Option<Color>,
    pub(crate) draw_commands: Vec<DrawCommand>,
    pub(crate) initial: Context,
    pub(crate) stack: ContextStack,
    pub(crate) context_dirty: bool,
    /// Where in the log the last context update stands.
    pub(crate) last_update: Option<usize>,
}

impl View for Graphics {
    type V = GraphicsView;

    closed spec fn view(&self) -> GraphicsView {
        GraphicsView {
            clear_color: self.clear_color,
            commands: command_views(self.draw_commands@),
            initial: self.initial@,
            stack: self.stack@,
            dirty: self.context_dirty,
        }
    }
}

impl Clone for Graphics {
    fn clone(&self) -> (g: Self)
        ensures
            g@ == self@,
            self.wf() ==> g.wf(),
    {
        Graphics {
            clear_color: self.clear_color,
            draw_commands: copy_commands(&self.draw_commands),
            initial: self.initial.clone(),
            stack: self.stack.clone(),
            context_dirty: self.context_dirty,
            last_update: self.last_update,
        }
    }
}

impl Graphics {
    /// The recorder keeps track of where its log last changed the context,
    /// and its state is consistent.
    pub closed spec fn wf(&self) -> bool {
        &&& self@.consistent()
        &&& match self.last_update {
            None => forall|i: int|
                0 <= i < self@.commands.len() ==> (#[trigger] self@.commands[i]) is Draw,
            Some(k) => {
                &&& k < self@.commands.len()
                &&& self@.commands[k as int] is UpdateContext
                &&& forall|i: int|
                    k < i < self@.commands.len() ==> (#[trigger] self@.commands[i]) is Draw
            },
        }
    }

    /// A well-formed recorder is consistent.
    pub proof fn lemma_wf_consistent(&self)
        requires
            self.wf(),
        ensures
            self@.consistent(),
    {
    }

    /// A recorder with an empty log, under the default context.
    pub fn new(clear_color: Option<Color>) -> (g: Graphics)
        ensures
            g.wf(),
            g@ == (GraphicsView {
                clear_color,
                commands: Seq::empty(),
                initial: Context::spec_default(),
                stack: seq![Context::spec_default()],
                dirty: false,
            }),
    {
        let g = Graphics {
            clear_color,
            draw_commands: Vec::new(),
            initial: Context::default(),
            stack: ContextStack::new(Context::default()),
            context_dirty: false,
            last_update: None,
        };
        assert(g@.commands =~= Seq::empty());
        g
    }

    /// The color that the frame is cleared to, if any.
    pub fn clear_color(&self) -> (c: Option<Color>)
        ensures
            c == self@.clear_color,
    {
        self.clear_color
    }

    /// The context in force for the next shape.
    pub fn context(&self) -> (c: &Context)
        ensures
            c@ == self@.context(),
    {
        self.stack.top()
    }

    /// The transform in force for the next shape.
    pub fn transform(&self) -> (t: &Transform)
        ensures
            t@ == self@.context().transform,
    {
        &self.stack.current.transform
    }

    /// Whether the context was changed since it was last written to the log.
    pub fn is_dirty(&self) -> (d: bool)
        ensures
            d == self@.dirty,
    {
        self.context_dirty
    }

    /// The number of contexts that `restore` can return to.
    pub fn saved_contexts(&self) -> (n: usize)
        ensures
            n + 1 == self@.stack.len(),
    {
        self.stack.depth()
    }

    /// The number of commands in the log.
    pub fn command_count(&self) -> (n: usize)
        ensures
            n == self@.commands.len(),
    {
        self.draw_commands.len()
    }

    /// The command at place `i` of the log.
    pub fn command(&self, i: usize) -> (c: &DrawCommand)
        requires
            i < self@.commands.len(),
        ensures
            c@ == self@.commands[i as int],
    {
        &self.draw_commands[i]
    }

    /// The context that a reader of the log finds in force at its end.
    pub fn logged_context(&self) -> (c: Context)
        requires
            self.wf(),
        ensures
            c@ == self@.logged(),
    {
        match self.last_update {
            None => {
                proof {
                    lemma_context_after_draws(self@.commands, self@.initial);
                }
                self.initial.clone()
            },
            Some(k) => {
                proof {
                    lemma_context_after_update(self@.commands, self@.initial, k as int);
                }
                match &self.draw_commands[k] {
                    DrawCommand::UpdateContext(context) => context.clone(),
                    DrawCommand::Draw(_, _) => vstd::pervasive::unreached(),
                }
            },
        }
    }

    /// The context in force, to be changed: the recorder counts as dirty
    /// from here on, whatever is done to the context.
    fn context_mut(&mut self) -> (context: &mut Context)
        requires
            old(self).wf(),
        ensures
            context@ == old(self)@.context(),
            final(self).wf(),
            final(self)@ == old(self)@.altered(final(context)@),
    {
        self.context_dirty = true;
        proof {
            let below = context_views(self.stack.saved@);
            assert forall|c: ContextView| #[trigger] below.push(c) == old(self)@.stack.drop_last().push(c) by {
                assert(below.push(c) =~= old(self)@.stack.drop_last().push(c));
            }
        }
        &mut self.stack.current
    }

    /// Writes the context in force to the log.
    fn update_context(&mut self)
        requires
            old(self).wf(),
        ensures
            final(self).wf(),
            final(self)@ == (GraphicsView {
                commands: old(self)@.commands.push(
                    CommandView::UpdateContext(old(self)@.context()),
                ),
                ..old(self)@
            }),
            final(self)@.logged() == old(self)@.context(),
    {
        let context = self.stack.top().clone();
        let at = self.draw_commands.len();
        self.draw_commands.push(DrawCommand::UpdateContext(context));
        self.last_update = Some(at);
        proof {
            assert(final(self)@.commands =~= old(self)@.commands.push(
                CommandView::UpdateContext(old(self)@.context()),
            ));
        }
    }

    /// Writes the context in force to the log if it was changed since it was
    /// last written.
    fn update_context_if_dirty(&mut self)
        requires
            old(self).wf(),
        ensures
            final(self).wf(),
            final(self)@ == old(self)@.flushed(),
            final(self)@.logged() == old(self)@.context(),
    {
        if self.context_dirty {
            self.update_context();
            self.context_dirty = false;
        }
    }

    /// The points of a shape, moved as the anchor mode in force asks: not at
    /// all under `First`; under `Center` so that the center of `bounds`, or of
    /// the points' own bounding box where none is given, comes to lie where
    /// its first corner was.
    fn align_points(&self, points: &[Point], bounds: Option<BoundingBox>) -> (anchored: Vec<
        Point,
    >)
        requires
            alignable(self@.context().anchor_mode, points@, anchor_bounds(points@, bounds)),
        ensures
            anchored@ == aligned(
                self@.context().anchor_mode,
                points@,
                anchor_bounds(points@, bounds),
            ),
    {
        match self.stack.current.anchor_mode {
            AnchorMode::First => {
                let anchored = copy_points(points);
                assert(anchored@ =~= aligned(
                    AnchorMode::First,
                    points@,
                    anchor_bounds(points@, bounds),
                ));
                anchored
            },
            AnchorMode::Center => {
                let bounds = match bounds {
                    Some(b) => b,
                    None => BoundingBox::from_points(points),
                };
                let center = bounds.center();
                let dx: Coord = center.x - bounds.min.x;
                let dy: Coord = center.y - bounds.min.y;
                let mut anchored: Vec<Point> = Vec::new();
                let mut i: usize = 0;
                while i < points.len()
                    invariant
                        i <= points.len(),
                        dx == anchor_shift(AnchorMode::Center, bounds).0,
                        dy == anchor_shift(AnchorMode::Center, bounds).1,
                        alignable(AnchorMode::Center, points@, bounds),
                        anchored@ == aligned(AnchorMode::Center, points@, bounds).take(i as int),
                    decreases points.len() - i,
                {
                    let p = points[i];
                    anchored.push(Point { x: p.x - dx, y: p.y - dy });
                    assert(aligned(AnchorMode::Center, points@, bounds).take(i + 1) =~= aligned(
                        AnchorMode::Center,
                        points@,
                        bounds,
                    ).take(i as int).push(aligned(AnchorMode::Center, points@, bounds)[i as int]));
                    i += 1;
                }
                assert(aligned(AnchorMode::Center, points@, bounds).take(i as int) =~= aligned(
                    AnchorMode::Center,
                    points@,
                    bounds,
                ));
                anchored
            },
        }
    }

    /// Records the polyline through `points`, closed or open, anchored as the
    /// anchor mode in force asks. A pending change of context is written to
    /// the log first.
    fn draw(&mut self, points: &[Point], closed: bool, bounds: Option<BoundingBox>)
        requires
            old(self).wf(),
            alignable(old(self)@.context().anchor_mode, points@, anchor_bounds(points@, bounds)),
        ensures
            final(self).wf(),
            final(self)@ == old(self)@.recorded(
                closed,
                aligned(old(self)@.context().anchor_mode, points@, anchor_bounds(points@, bounds)),
            ),
            final(self)@.logged() == old(self)@.context(),
    {
        self.update_context_if_dirty();
        let anchored = self.align_points(points, bounds);
        let ghost before = self@;
        self.draw_commands.push(DrawCommand::Draw(closed, anchored));
        proof {
            assert(final(self)@.commands =~= before.commands.push(
                CommandView::Draw(closed, anchored@),
            ));
            assert(final(self)@.commands.drop_last() =~= before.commands);
        }
    }

    /// Sets the fill color.
    pub fn fill(&mut self, color: Color)
        requires
            old(self).wf(),
        ensures
            final(self).wf(),
            final(self)@ == old(self)@.altered(
                ContextView { fill: Some(color), ..old(self)@.context() },
            ),
    {
        self.context_mut().fill = Some(color);
    }

    /// Turns filling off.
    pub fn no_fill(&mut self)
        requires
            old(self).wf(),
        ensures
            final(self).wf(),
            final(self)@ == old(self)@.altered(ContextView { fill: None, ..old(self)@.context() }),
    {
        self.context_mut().fill = None;
    }

    /// Sets the width of outlines; a negative width counts as zero.
    pub fn stroke_weight(&mut self, weight: Scalar)
        requires
            old(self).wf(),
        ensures
            final(self).wf(),
            final(self)@ == old(self)@.altered(
                ContextView {
                    stroke_weight: if weight < 0 {
                        0
                    } else {
                        weight
                    },
                    ..old(self)@.context()
                },
            ),
    {
        self.context_mut().stroke_weight = if weight < 0 {
            0
        } else {
            weight
        };
    }

    /// Sets the color of outlines.
    pub fn stroke(&mut self, color: Color)
        requires
            old(self).wf(),
        ensures
            final(self).wf(),
            final(self)@ == old(self)@.altered(
                ContextView { stroke: Some(color), ..old(self)@.context() },
            ),
    {
        self.context_mut().stroke = Some(color);
    }

    /// Turns outlines off.
    pub fn no_stroke(&mut self)
        requires
            old(self).wf(),
        ensures
            final(self).wf(),
            final(self)@ == old(self)@.altered(
                ContextView { stroke: None, ..old(self)@.context() },
            ),
    {
        self.context_mut().stroke = None;
    }

    /// Sets how the shapes that follow are anchored.
    pub fn anchor_mode(&mut self, mode: AnchorMode)
        requires
            old(self).wf(),
        ensures
            final(self).wf(),
            final(self)@ == old(self)@.altered(
                ContextView { anchor_mode: mode, ..old(self)@.context() },
            ),
    {
        self.context_mut().anchor_mode = mode;
    }

    /// Sets the unit in which the author writes angles.
    pub fn angle_mode(&mut self, mode: AngleMode)
        requires
            old(self).wf(),
        ensures
            final(self).wf(),
            final(self)@ == old(self)@.altered(
                ContextView { angle_mode: mode, ..old(self)@.context() },
            ),
    {
        self.context_mut().angle_mode = mode;
    }

    /// Adds a rotation by `angle` to the transform: it applies after what the
    /// transform held before.
    pub fn rotate(&mut self, angle: Angle)
        requires
            old(self).wf(),
        ensures
            final(self).wf(),
            final(self)@ == old(self)@.altered(
                ContextView {
                    transform: old(self)@.context().transform.push(TransformOp::Rotate(angle)),
                    ..old(self)@.context()
                },
            ),
    {
        let rotated = self.transform().then_rotate(angle);
        self.context_mut().transform = rotated;
    }

    /// Adds a displacement by `by` to the transform: it applies after what
    /// the transform held before.
    pub fn translate(&mut self, by: Vector)
        requires
            old(self).wf(),
        ensures
            final(self).wf(),
            final(self)@ == old(self)@.altered(
                ContextView {
                    transform: old(self)@.context().transform.push(TransformOp::Translate(by)),
                    ..old(self)@.context()
                },
            ),
    {
        let moved = self.transform().then_translate(by);
        self.context_mut().transform = moved;
    }

    /// Pushes a copy of the context in force onto the stack. The log does
    /// not change.
    pub fn save(&mut self)
        requires
            old(self).wf(),
        ensures
            final(self).wf(),
            final(self)@ == old(self)@.saved(),
    {
        self.stack.save();
    }

    /// Returns to the context below the one in force. With a single context
    /// on the stack nothing changes. The log does not change.
    pub fn restore(&mut self)
        requires
            old(self).wf(),
        ensures
            final(self).wf(),
            final(self)@ == old(self)@.restored(),
            final(self)@.stack.len() >= 1,
    {
        if self.stack.depth() > 0 {
            self.context_dirty = true;
            self.stack.restore();
        }
    }

    /// Runs `cb` on a recorder of its own, which starts with the context in
    /// force and an empty log, then appends what it recorded to this log,
    /// followed by a snapshot of this recorder's context. Whatever `cb` does
    /// to the context stays inside the scope.
    pub fn scoped<C: FnMut(&mut Graphics)>(&mut self, cb: C)
        requires
            old(self).wf(),
            forall|inner: &mut Graphics|
                inner.wf() && inner@ == old(self)@.scope() ==> #[trigger] call_requires(
                    cb,
                    (inner,),
                ),
        ensures
            final(self).wf(),
            exists|inner: &mut Graphics|
                inner.wf() && inner@ == old(self)@.scope() && #[trigger] call_ensures(
                    cb,
                    (inner,),
                    (),
                ) && final(self)@ == old(self)@.joined(final(inner)@),
            final(self)@.context() == old(self)@.context(),
            final(self)@.logged() == old(self)@.context(),
    {
        let mut inner = Graphics {
            clear_color: self.clear_color,
            draw_commands: Vec::new(),
            initial: self.logged_context(),
            stack: ContextStack::new(self.stack.top().clone()),
            context_dirty: self.context_dirty,
            last_update: None,
        };
        proof {
            assert(inner@.commands =~= Seq::empty());
            assert(inner@ == old(self)@.scope());
        }
        let mut cb = cb;
        cb(&mut inner);
        let ghost recorded = inner@;
        let context = self.stack.top().clone();
        self.draw_commands.append(&mut inner.draw_commands);
        let at = self.draw_commands.len();
        self.draw_commands.push(DrawCommand::UpdateContext(context));
        self.last_update = Some(at);
        proof {
            assert(final(self)@.commands =~= (old(self)@.commands + recorded.commands).push(
                CommandView::UpdateContext(old(self)@.context()),
            ));
        }
    }

    /// Hands out the log, and the context that was in force before its first
    /// command.
    pub fn into_parts(self) -> (parts: (Vec<DrawCommand>, Context))
        ensures
            command_views(parts.0@) == self@.commands,
            parts.1@ == self@.initial,
    {
        (self.draw_commands, self.initial)
    }

    /// Starts the frame of this log: the log is read in order, from the
    /// context in force before its first command, and each shape goes into
    /// the buffers under the context that the log has in force for it.
    pub fn construct_buffer_data(self) -> (p: Progress)
        ensures
            p@ == started(self@.commands, self@.initial, Index::MAX),
            p@.wf(),
    {
        Progress::start(self.draw_commands, self.initial)
    }

    /// Records the polyline through `points`, closed or open. Under
    /// `AnchorMode::Center` the points are moved so that the center of their
    /// bounding box comes to lie where its first corner was.
    pub fn polyline(&mut self, points: &[Vector], closed: bool)
        requires
            old(self).wf(),
        ensures
            final(self).wf(),
            final(self)@ == old(self)@.recorded(
                closed,
                polyline_points(old(self)@.context().anchor_mode, points@),
            ),
            final(self)@.logged() == old(self)@.context(),
    {
        let mut authored: Vec<Point> = Vec::new();
        let mut i: usize = 0;
        while i < points.len()
            invariant
                i <= points.len(),
                authored@ == to_points(points@).take(i as int),
            decreases points.len() - i,
        {
            authored.push(points[i].to_point());
            assert(to_points(points@).take(i + 1) =~= to_points(points@).take(i as int).push(
                points@[i as int].spec_to_point(),
            ));
            i += 1;
        }
        proof {
            assert(to_points(points@).take(i as int) =~= to_points(points@));
            lemma_authored_points_alignable(self@.context().anchor_mode, points@);
        }
        self.draw(authored.as_slice(), closed, None);
    }

    /// Records the rectangle at `position` with the extent `size`.
    pub fn rect(&mut self, position: Vector, size: Size)
        requires
            old(self).wf(),
        ensures
            final(self).wf(),
            final(self)@ == old(self)@.recorded(
                true,
                rect_points(old(self)@.context().anchor_mode, position, size),
            ),
            final(self)@.logged() == old(self)@.context(),
    {
        let x0: Coord = position.x as Coord;
        let y0: Coord = position.y as Coord;
        let x1: Coord = position.x as Coord + size.width as Coord;
        let y1: Coord = position.y as Coord + size.height as Coord;
        let corners = [
            Point { x: x0, y: y0 },
            Point { x: x1, y: y0 },
            Point { x: x1, y: y1 },
            Point { x: x0, y: y1 },
        ];
        let bounds = BoundingBox { min: Point { x: x0, y: y0 }, max: Point { x: x1, y: y1 } };
        proof {
            let mode = self@.context().anchor_mode;
            assert(corners@ =~= rect_corners(position, size));
            assert(bounds == rect_bounds(position, size));
            assert(aligned(mode, corners@, bounds) =~= rect_points(mode, position, size));
        }
        self.draw(corners.as_slice(), true, Some(bounds));
    }

    /// Records the square at `position` with the side `side`.
    pub fn square(&mut self, position: Vector, side: Scalar)
        requires
            old(self).wf(),
        ensures
            final(self).wf(),
            final(self)@ == old(self)@.recorded(
                true,
                rect_points(
                    old(self)@.context().anchor_mode,
                    position,
                    Size { width: side, height: side },
                ),
            ),
            final(self)@.logged() == old(self)@.context(),
    {
        self.rect(position, Size::new(side, side));
    }
}

} // verus!
