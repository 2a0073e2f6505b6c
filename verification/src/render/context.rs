//! The drawing context and the stack that scopes it.

use vstd::prelude::*;
use crate::color::Color;
use crate::types::{Scalar, Vector, UNIT};

verus! {

/// How a shape's authored position maps onto its points.
#[derive(Clone, Copy, Debug, PartialEq, Eq, Structural)]
pub enum AnchorMode {
    /// The points stay as authored: the first one sits at the position.
    First,
    /// The points are moved so that the center of their bounding box sits at
    /// the position.
    Center,
}

/// The unit in which an angle is written.
#[derive(Clone, Copy, Debug, PartialEq, Eq, Structural)]
pub enum AngleMode {
    Radians,
    Degrees,
}

/// An angle of rotation, counter-clockwise.
#[derive(Clone, Copy, Debug, PartialEq, Eq, Structural)]
pub struct Angle {
    pub mode: AngleMode,
    pub value: Scalar,
}

impl Angle {
    pub fn radians(value: Scalar) -> (a: Angle)
        ensures
            a == (Angle { mode: AngleMode::Radians, value }),
    {
        Angle { mode: AngleMode::Radians, value }
    }

    pub fn degrees(value: Scalar) -> (a: Angle)
        ensures
            a == (Angle { mode: AngleMode::Degrees, value }),
    {
        Angle { mode: AngleMode::Degrees, value }
    }
}

/// One step of a transform.
#[derive(Clone, Copy, Debug, PartialEq, Eq, Structural)]
pub enum TransformOp {
    /// A rotation about the origin.
    Rotate(Angle),
    /// A displacement.
    Translate(Vector),
}

/// An affine transform, kept as the steps it was composed of. A point is
/// carried through the steps in order, the first step first; the transform
/// without steps is the identity.
#[derive(Debug, PartialEq, Eq)]
pub struct Transform {
    pub ops: Vec<TransformOp>,
}

impl View for Transform {
    type V = Seq<TransformOp>;

    open spec fn view(&self) -> Seq<TransformOp> {
        self.ops@
    }
}

impl Clone for Transform {
    fn clone(&self) -> (t: Self)
        ensures
            t@ == self@,
    {
        let mut ops: Vec<TransformOp> = Vec::new();
        let mut i: usize = 0;
        while i < self.ops.len()
            invariant
                i <= self.ops.len(),
                ops@ == self.ops@.take(i as int),
            decreases self.ops.len() - i,
        {
            ops.push(self.ops[i]);
            assert(self.ops@.take(i + 1) =~= self.ops@.take(i as int).push(self.ops@[i as int]));
            i += 1;
        }
        assert(self.ops@.take(i as int) =~= self.ops@);
        Transform { ops }
    }
}

impl Transform {
    /// The transform that leaves every point where it is.
    pub fn identity() -> (t: Transform)
        ensures
            t@ == Seq::<TransformOp>::empty(),
    {
        Transform { ops: Vec::new() }
    }

    /// This transform followed by a rotation by `angle`.
    pub fn then_rotate(&self, angle: Angle) -> (t: Transform)
        ensures
            t@ == self@.push(TransformOp::Rotate(angle)),
    {
        let mut t = self.clone();
        t.ops.push(TransformOp::Rotate(angle));
        t
    }

    /// This transform followed by a displacement by `by`.
    pub fn then_translate(&self, by: Vector) -> (t: Transform)
        ensures
            t@ == self@.push(TransformOp::Translate(by)),
    {
        let mut t = self.clone();
        t.ops.push(TransformOp::Translate(by));
        t
    }
}

/// What a drawing context holds, as a value of specifications.
pub struct ContextView {
    pub angle_mode: AngleMode,
    pub anchor_mode: AnchorMode,
    pub transform: Seq<TransformOp>,
    pub fill: Option<Color>,
    pub stroke: Option<Color>,
    pub stroke_weight: Scalar,
}

/// The drawing state under which a shape is recorded.
#[derive(Debug, PartialEq, Eq)]
pub struct Context {
    pub angle_mode: AngleMode,
    pub anchor_mode: AnchorMode,
    pub transform: Transform,
    /// The color that shapes are filled with; `None` turns filling off.
    pub fill: Option<Color>,
    /// The color of outlines; `None` turns outlines off.
    pub stroke: Option<Color>,
    /// The width of outlines; never negative where it was set by a recorder.
    pub stroke_weight: Scalar,
}

impl View for Context {
    type V = ContextView;

    open spec fn view(&self) -> ContextView {
        ContextView {
            angle_mode: self.angle_mode,
            anchor_mode: self.anchor_mode,
            transform: self.transform@,
            fill: self.fill,
            stroke: self.stroke,
            stroke_weight: self.stroke_weight,
        }
    }
}

impl Clone for Context {
    fn clone(&self) -> (c: Self)
        ensures
            c@ == self@,
    {
        Context {
            angle_mode: self.angle_mode,
            anchor_mode: self.anchor_mode,
            transform: self.transform.clone(),
            fill: self.fill,
            stroke: self.stroke,
            stroke_weight: self.stroke_weight,
        }
    }
}

/// Which points of a self-overlapping outline count as inside.
#[derive(Clone, Copy, Debug, PartialEq, Eq, Structural)]
pub enum FillRule {
    EvenOdd,
    NonZero,
}

/// The shape of the two ends of an open outline.
#[derive(Clone, Copy, Debug, PartialEq, Eq, Structural)]
pub enum LineCap {
    Butt,
    Square,
    Round,
}

/// What the tessellation of a fill is run with.
#[derive(Clone, Copy, Debug, PartialEq, Eq, Structural)]
pub struct FillOptions {
    pub fill_rule: FillRule,
}

/// What the tessellation of an outline is run with.
#[derive(Clone, Copy, Debug, PartialEq, Eq, Structural)]
pub struct StrokeOptions {
    pub line_width: Scalar,
    pub line_cap: LineCap,
}

impl Context {
    /// Fills go by the even-odd rule, whatever the context holds.
    pub fn get_fill_options(&self) -> (options: FillOptions)
        ensures
            options == (FillOptions { fill_rule: FillRule::EvenOdd }),
    {
        FillOptions { fill_rule: FillRule::EvenOdd }
    }

    /// Outlines have the stroke weight of the context as their width, and
    /// round ends.
    pub fn get_stroke_options(&self) -> (options: StrokeOptions)
        ensures
            options == (StrokeOptions {
                line_width: self.stroke_weight,
                line_cap: LineCap::Round,
            }),
    {
        StrokeOptions { line_width: self.stroke_weight, line_cap: LineCap::Round }
    }
}

impl Context {
    /// The context that a recording starts with: angles in radians, shapes
    /// centered on their position, no transform, black fill, black outlines
    /// one unit wide.
    pub open spec fn spec_default() -> ContextView {
        ContextView {
            angle_mode: AngleMode::Radians,
            anchor_mode: AnchorMode::Center,
            transform: Seq::empty(),
            fill: Some(Color { r: 0, g: 0, b: 0, a: 255 }),
            stroke: Some(Color { r: 0, g: 0, b: 0, a: 255 }),
            stroke_weight: UNIT,
        }
    }
}

impl Default for Context {
    fn default() -> (c: Self)
        ensures
            c@ == Context::spec_default(),
    {
        Context {
            angle_mode: AngleMode::Radians,
            anchor_mode: AnchorMode::Center,
            transform: Transform::identity(),
            fill: Some(Color::new(0, 0, 0, 255)),
            stroke: Some(Color::new(0, 0, 0, 255)),
            stroke_weight: UNIT,
        }
    }
}

/// The views of a list of contexts, in order.
pub open spec fn context_views(contexts: Seq<Context>) -> Seq<ContextView> {
    contexts.map_values(|c: Context| c@)
}

/// The contexts that can be returned to, below the one in force. The stack
/// is never empty: its top is the context in force.
#[derive(Debug, PartialEq, Eq)]
pub struct ContextStack {
    pub current: Context,
    pub saved: Vec<Context>,
}

impl View for ContextStack {
    type V = Seq<ContextView>;

    /// The contexts from the bottom of the stack to its top.
    open spec fn view(&self) -> Seq<ContextView> {
        context_views(self.saved@).push(self.current@)
    }
}

impl Clone for ContextStack {
    fn clone(&self) -> (s: Self)
        ensures
            s@ == self@,
    {
        let mut saved: Vec<Context> = Vec::new();
        let mut i: usize = 0;
        while i < self.saved.len()
            invariant
                i <= self.saved.len(),
                saved@.len() == i,
                forall|j: int| 0 <= j < i ==> (#[trigger] saved@[j])@ == self.saved@[j]@,
            decreases self.saved.len() - i,
        {
            let context = self.saved[i].clone();
            saved.push(context);
            i += 1;
        }
        assert(context_views(saved@) =~= context_views(self.saved@));
        ContextStack { current: self.current.clone(), saved }
    }
}

impl ContextStack {
    /// The stack that holds `context` alone.
    pub fn new(context: Context) -> (s: ContextStack)
        ensures
            s@ == seq![context@],
    {
        let s = ContextStack { current: context, saved: Vec::new() };
        assert(s@ =~= seq![context@]);
        s
    }

    /// The number of contexts below the one in force: so many times can
    /// `restore` return to an earlier context.
    pub fn depth(&self) -> (n: usize)
        ensures
            n + 1 == self@.len(),
    {
        self.saved.len()
    }

    /// The context in force.
    pub fn top(&self) -> (c: &Context)
        ensures
            c@ == self@.last(),
    {
        &self.current
    }

    /// Pushes a copy of the context in force.
    pub fn save(&mut self)
        ensures
            final(self)@ == old(self)@.push(old(self)@.last()),
    {
        let copy = self.current.clone();
        self.saved.push(copy);
        assert(final(self)@ =~= old(self)@.push(old(self)@.last())) by {
            assert(context_views(self.saved@) =~= context_views(old(self).saved@).push(copy@));
        }
    }

    /// Drops the context in force and returns to the one below it. With a
    /// single context on the stack nothing changes.
    pub fn restore(&mut self) -> (popped: bool)
        ensures
            popped == (old(self)@.len() > 1),
            popped ==> final(self)@ == old(self)@.drop_last(),
            !popped ==> final(self)@ == old(self)@,
            final(self)@.len() >= 1,
    {
        match self.saved.pop() {
            Some(below) => {
                self.current = below;
                assert(final(self)@ =~= old(self)@.drop_last()) by {
                    assert(context_views(old(self).saved@) =~= context_views(
                        self.saved@,
                    ).push(below@));
                }
                true
            },
            None => false,
        }
    }
}

} // verus!
