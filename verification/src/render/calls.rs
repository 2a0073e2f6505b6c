//! Drawing calls as values, and what a sequence of them does to a recorder.

use vstd::prelude::*;
use crate::color::Color;
use crate::render::context::{AnchorMode, Angle, AngleMode, ContextView, TransformOp};
use crate::render::graphics::{polyline_points, rect_points, Graphics, GraphicsView};
use crate::types::{Scalar, Size, Vector};

verus! {

/// One call to a recorder.
#[derive(Clone, Debug, PartialEq, Eq)]
pub enum Call {
    Fill(Color),
    NoFill,
    Stroke(Color),
    NoStroke,
    StrokeWeight(Scalar),
    AnchorMode(AnchorMode),
    AngleMode(AngleMode),
    Rotate(Angle),
    Translate(Vector),
    Save,
    Restore,
    Rect(Vector, Size),
    Square(Vector, Scalar),
    Polyline(bool, Vec<Vector>),
}

impl Call {
    /// The call records a shape.
    pub open spec fn is_shape(self) -> bool {
        self is Rect || self is Square || self is Polyline
    }

    /// The context that the call puts in force in place of `context`, for a
    /// call that changes the context in force.
    pub open spec fn alter(self, context: ContextView) -> ContextView {
        match self {
            Call::Fill(color) => ContextView { fill: Some(color), ..context },
            Call::NoFill => ContextView { fill: None, ..context },
            Call::Stroke(color) => ContextView { stroke: Some(color), ..context },
            Call::NoStroke => ContextView { stroke: None, ..context },
            Call::StrokeWeight(weight) => ContextView {
                stroke_weight: if weight < 0 {
                    0
                } else {
                    weight
                },
                ..context
            },
            Call::AnchorMode(mode) => ContextView { anchor_mode: mode, ..context },
            Call::AngleMode(mode) => ContextView { angle_mode: mode, ..context },
            Call::Rotate(angle) => ContextView {
                transform: context.transform.push(TransformOp::Rotate(angle)),
                ..context
            },
            Call::Translate(by) => ContextView {
                transform: context.transform.push(TransformOp::Translate(by)),
                ..context
            },
            _ => context,
        }
    }
}

impl GraphicsView {
    /// The state after `call`.
    pub open spec fn after(self, call: Call) -> GraphicsView {
        match call {
            Call::Save => self.saved(),
            Call::Restore => self.restored(),
            Call::Rect(position, size) => self.recorded(
                true,
                rect_points(self.context().anchor_mode, position, size),
            ),
            Call::Square(position, side) => self.recorded(
                true,
                rect_points(
                    self.context().anchor_mode,
                    position,
                    Size { width: side, height: side },
                ),
            ),
            Call::Polyline(closed, points) => self.recorded(
                closed,
                polyline_points(self.context().anchor_mode, points@),
            ),
            _ => self.altered(call.alter(self.context())),
        }
    }

    /// The state after `calls`, made in order.
    pub open spec fn after_all(self, calls: Seq<Call>) -> GraphicsView
        decreases calls.len(),
    {
        if calls.len() == 0 {
            self
        } else {
            self.after_all(calls.drop_last()).after(calls.last())
        }
    }
}

impl Graphics {
    /// Makes the call that `call` stands for.
    pub fn perform(&mut self, call: &Call)
        requires
            old(self).wf(),
        ensures
            final(self).wf(),
            final(self)@ == old(self)@.after(*call),
    {
        match call {
            Call::Fill(color) => self.fill(*color),
            Call::NoFill => self.no_fill(),
            Call::Stroke(color) => self.stroke(*color),
            Call::NoStroke => self.no_stroke(),
            Call::StrokeWeight(weight) => self.stroke_weight(*weight),
            Call::AnchorMode(mode) => self.anchor_mode(*mode),
            Call::AngleMode(mode) => self.angle_mode(*mode),
            Call::Rotate(angle) => self.rotate(*angle),
            Call::Translate(by) => self.translate(*by),
            Call::Save => self.save(),
            Call::Restore => self.restore(),
            Call::Rect(position, size) => self.rect(*position, *size),
            Call::Square(position, side) => self.square(*position, *side),
            Call::Polyline(closed, points) => self.polyline(points.as_slice(), *closed),
        }
    }

    /// Makes `calls`, in order.
    pub fn perform_all(&mut self, calls: &[Call])
        requires
            old(self).wf(),
        ensures
            final(self).wf(),
            final(self)@ == old(self)@.after_all(calls@),
    {
        let mut i: usize = 0;
        while i < calls.len()
            invariant
                i <= calls.len(),
                self.wf(),
                self@ == old(self)@.after_all(calls@.take(i as int)),
            decreases calls.len() - i,
        {
            self.perform(&calls[i]);
            assert(calls@.take(i + 1).drop_last() =~= calls@.take(i as int));
            i += 1;
        }
        assert(calls@.take(i as int) =~= calls@);
    }
}

} // verus!
