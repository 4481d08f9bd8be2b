//! How the held keys move the camera.
//!
//! The camera moves along three axes of its own: the way it looks, its right
//! hand side, and straight up. Each held key asks for one step of fixed
//! length along one axis, forwards or backwards. The steps are taken in a
//! fixed order, because the additions they stand for are rounded.

use vstd::prelude::*;
use crate::input::{Input, InputView};

verus! {

/// The length of one step, as a binary32 pattern: a tenth of a unit.
pub const MOVE_SPEED: u32 = 0x3dcc_cccd;

/// Radians of turn per unit of mouse motion, as a binary32 pattern: two
/// thousandths.
pub const MOUSE_SENSITIVITY: u32 = 0x3b03_126f;

/// An axis of the camera's own frame.
#[derive(Clone, Copy, Debug, PartialEq, Eq, Structural)]
pub enum Axis {
    /// The direction the camera looks in.
    Forward,
    /// To the right of that direction, level with the ground.
    Right,
    /// Straight up, whatever the camera looks at.
    Up,
}

/// One step of the camera: `MOVE_SPEED` along `axis`, or against it.
#[derive(Clone, Copy, Debug, PartialEq, Eq, Structural)]
pub struct Step {
    pub axis: Axis,
    pub positive: bool,
}

/// The step that a key asks for, if it is held.
pub open spec fn step_if(held: bool, axis: Axis, positive: bool) -> Seq<Step> {
    if held {
        seq![Step { axis, positive }]
    } else {
        Seq::empty()
    }
}

/// The steps of one frame, in the order in which they are taken: forward,
/// backward, left, right, up, down, each only if its key is held.
pub open spec fn steps_for(input: InputView) -> Seq<Step> {
    step_if(input.forward, Axis::Forward, true)
        + step_if(input.backward, Axis::Forward, false)
        + step_if(input.left, Axis::Right, false)
        + step_if(input.right, Axis::Right, true)
        + step_if(input.up, Axis::Up, true)
        + step_if(input.down, Axis::Up, false)
}

/// What one step adds along `axis`, counted in steps.
pub open spec fn contribution(step: Step, axis: Axis) -> int {
    if step.axis != axis {
        0
    } else if step.positive {
        1
    } else {
        -1
    }
}

/// How far the steps lead along `axis` when rounding is left aside, counted
/// in steps.
pub open spec fn displacement(steps: Seq<Step>, axis: Axis) -> int
    decreases steps.len(),
{
    if steps.len() == 0 {
        0
    } else {
        displacement(steps.drop_last(), axis) + contribution(steps.last(), axis)
    }
}

/// One for a held key, zero for a key that is up.
pub open spec fn held(key: bool) -> int {
    if key {
        1
    } else {
        0
    }
}

/// Lists the steps that the held keys ask for.
pub fn movement_steps(input: &Input) -> (steps: Vec<Step>)
    ensures
        steps@ == steps_for(input@),
{
    let mut steps: Vec<Step> = Vec::new();
    if input.forward {
        steps.push(Step { axis: Axis::Forward, positive: true });
    }
    if input.backward {
        steps.push(Step { axis: Axis::Forward, positive: false });
    }
    if input.left {
        steps.push(Step { axis: Axis::Right, positive: false });
    }
    if input.right {
        steps.push(Step { axis: Axis::Right, positive: true });
    }
    if input.up {
        steps.push(Step { axis: Axis::Up, positive: true });
    }
    if input.down {
        steps.push(Step { axis: Axis::Up, positive: false });
    }
    assert(steps@ =~= steps_for(input@));
    steps
}

/// The displacement of two runs of steps, one after the other, is the sum of
/// their displacements.
pub proof fn lemma_displacement_adds(first: Seq<Step>, second: Seq<Step>, axis: Axis)
    ensures
        displacement(first + second, axis) == displacement(first, axis) + displacement(
            second,
            axis,
        ),
    decreases second.len(),
{
    if second.len() == 0 {
        assert(first + second =~= first);
    } else {
        assert((first + second).drop_last() =~= first + second.drop_last());
        lemma_displacement_adds(first, second.drop_last(), axis);
    }
}

/// What the step of one key adds along `axis`: one step in its direction if
/// the key is held and bound to that axis, nothing otherwise.
proof fn lemma_displacement_of_key(key: bool, bound: Axis, positive: bool, axis: Axis)
    ensures
        displacement(step_if(key, bound, positive), axis) == if bound != axis {
            0
        } else if positive {
            held(key)
        } else {
            -held(key)
        },
{
    if key {
        let one = step_if(key, bound, positive);
        assert(one.drop_last() =~= Seq::<Step>::empty());
        assert(displacement(one.drop_last(), axis) == 0);
    }
}

/// Along any axis, the steps of a frame lead as far as the steps of the six
/// keys taken one by one.
proof fn lemma_displacement_by_key(input: InputView, axis: Axis)
    ensures
        displacement(steps_for(input), axis) == displacement(
            step_if(input.forward, Axis::Forward, true),
            axis,
        ) + displacement(step_if(input.backward, Axis::Forward, false), axis) + displacement(
            step_if(input.left, Axis::Right, false),
            axis,
        ) + displacement(step_if(input.right, Axis::Right, true), axis) + displacement(
            step_if(input.up, Axis::Up, true),
            axis,
        ) + displacement(step_if(input.down, Axis::Up, false), axis),
{
    let s1 = step_if(input.forward, Axis::Forward, true);
    let s2 = step_if(input.backward, Axis::Forward, false);
    let s3 = step_if(input.left, Axis::Right, false);
    let s4 = step_if(input.right, Axis::Right, true);
    let s5 = step_if(input.up, Axis::Up, true);
    let s6 = step_if(input.down, Axis::Up, false);
    lemma_displacement_adds(s1, s2, axis);
    lemma_displacement_adds(s1 + s2, s3, axis);
    lemma_displacement_adds(s1 + s2 + s3, s4, axis);
    lemma_displacement_adds(s1 + s2 + s3 + s4, s5, axis);
    lemma_displacement_adds(s1 + s2 + s3 + s4 + s5, s6, axis);
}

/// Each key moves the camera along the axis it is bound to, by one step: the
/// forward key along the view and the backward key against it, the right key
/// to the right and the left key against it, the up key upwards and the down
/// key against it. Two opposite keys held together cancel.
pub proof fn lemma_keys_move_their_axis(input: InputView, axis: Axis)
    ensures
        displacement(steps_for(input), axis) == match axis {
            Axis::Forward => held(input.forward) - held(input.backward),
            Axis::Right => held(input.right) - held(input.left),
            Axis::Up => held(input.up) - held(input.down),
        },
{
    lemma_displacement_by_key(input, axis);
    lemma_displacement_of_key(input.forward, Axis::Forward, true, axis);
    lemma_displacement_of_key(input.backward, Axis::Forward, false, axis);
    lemma_displacement_of_key(input.left, Axis::Right, false, axis);
    lemma_displacement_of_key(input.right, Axis::Right, true, axis);
    lemma_displacement_of_key(input.up, Axis::Up, true, axis);
    lemma_displacement_of_key(input.down, Axis::Up, false, axis);
}

/// A frame takes one step for each held movement key.
pub proof fn lemma_one_step_per_key(input: InputView)
    ensures
        steps_for(input).len() == held(input.forward) + held(input.backward) + held(input.left)
            + held(input.right) + held(input.up) + held(input.down),
{
}

} // verus!
