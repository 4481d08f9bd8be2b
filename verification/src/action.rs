//! What the loop asks of its caller: the actions that follow an event, and
//! the update that a frame brings.

use vstd::prelude::*;
use crate::motion::Step;

verus! {

/// What the camera and the window owe to one frame.
#[derive(Debug)]
pub struct FrameUpdate {
    /// The steps to take, in this order, from the pose before the frame.
    pub steps: Vec<Step>,
    /// The mouse motions to turn the camera by, oldest first, each as two
    /// binary32 patterns. The sum of the first numbers, scaled by the mouse
    /// sensitivity, adds to the yaw; that of the second takes from the pitch.
    pub mouse_motion: Vec<(u32, u32)>,
    /// The new visibility of the cursor where it changed, `None` where not.
    pub cursor: Option<bool>,
}

/// What `FrameUpdate` stands for in contracts.
pub struct FramePlan {
    pub steps: Seq<Step>,
    pub mouse_motion: Seq<(u32, u32)>,
    pub cursor: Option<bool>,
}

impl View for FrameUpdate {
    type V = FramePlan;

    open spec fn view(&self) -> FramePlan {
        FramePlan { steps: self.steps@, mouse_motion: self.mouse_motion@, cursor: self.cursor }
    }
}

/// What the caller is to do after an event.
#[derive(Debug)]
pub enum Action {
    /// Nothing, but to keep polling.
    Poll,
    /// Leave the loop.
    Exit,
    /// The drawable area changed to the size now in the state: configure the
    /// surface for it and compute the projection anew. Then keep polling.
    Resized,
    /// Update the camera as said, draw, and ask for the next redraw. Then
    /// keep polling, whether or not the drawing succeeded.
    Frame(FrameUpdate),
}

/// What `Action` stands for in contracts.
pub enum ActionView {
    Poll,
    Exit,
    Resized,
    Frame(FramePlan),
}

impl View for Action {
    type V = ActionView;

    open spec fn view(&self) -> ActionView {
        match self {
            Action::Poll => ActionView::Poll,
            Action::Exit => ActionView::Exit,
            Action::Resized => ActionView::Resized,
            Action::Frame(frame) => ActionView::Frame(frame@),
        }
    }
}

} // verus!
