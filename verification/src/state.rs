//! The state that the frame loop carries from one event to the next.
//!
//! The loop owns the size of the drawable area, the input snapshot and the
//! visibility of the cursor. An event comes in, the state moves on, and an
//! action goes out for the caller to perform. Once per frame the snapshot is
//! turned into an update for the camera; the caller does the arithmetic and
//! the drawing.

use vstd::prelude::*;
use crate::action::{Action, ActionView, FramePlan, FrameUpdate};
use crate::geometry::PhysicalSize;
use crate::input::{
    lemma_motion_accumulates,
    DeviceEvent,
    Event,
    Input,
    InputView,
    WindowEvent,
};
use crate::motion::{movement_steps, steps_for};

verus! {

/// The state of the frame loop.
#[derive(Debug)]
pub struct State {
    pub size: PhysicalSize,
    pub input: Input,
    pub cursor_visible: bool,
}

/// What `State` stands for in contracts.
pub struct StateView {
    pub size: PhysicalSize,
    pub input: InputView,
    pub cursor_visible: bool,
}

impl View for State {
    type V = StateView;

    open spec fn view(&self) -> StateView {
        StateView { size: self.size, input: self.input@, cursor_visible: self.cursor_visible }
    }
}

impl StateView {
    /// The state of a loop that starts on an area of the given size: nothing
    /// held, no motion, cursor hidden.
    pub open spec fn initial(size: PhysicalSize) -> StateView {
        StateView { size, input: InputView::idle(), cursor_visible: false }
    }

    /// The state after the area was said to have a new size. A size with a
    /// side of zero is passed over.
    pub open spec fn resized(self, new_size: PhysicalSize) -> StateView {
        if new_size.drawable() {
            StateView { size: new_size, ..self }
        } else {
            self
        }
    }

    /// What a frame does with this state: it takes the steps of the held
    /// keys, turns by all the mouse motion that has come since the frame
    /// before, and flips the cursor's visibility where the inventory key is
    /// held.
    pub open spec fn plan(self) -> FramePlan {
        FramePlan {
            steps: steps_for(self.input),
            mouse_motion: self.input.mouse_motion,
            cursor: if self.input.toggle_inventory {
                Some(!self.cursor_visible)
            } else {
                None
            },
        }
    }

    /// The state after a frame: the mouse motion is consumed, and the cursor
    /// is as the plan says.
    pub open spec fn updated(self) -> StateView {
        StateView {
            size: self.size,
            input: self.input.without_mouse_motion(),
            cursor_visible: self.cursor_visible != self.input.toggle_inventory,
        }
    }

    /// The state with another input snapshot.
    pub open spec fn with_input(self, input: InputView) -> StateView {
        StateView { input, ..self }
    }

    /// The state after an event.
    ///
    /// An event of the window reaches the input snapshot first, and a new
    /// size is then taken over. An event of a device reaches the snapshot
    /// only. When the events are cleared a frame passes, unless the quit key
    /// is held.
    pub open spec fn after(self, event: Event) -> StateView {
        match event {
            Event::WindowEvent(window_event) => {
                let seen = self.with_input(self.input.after_window_event(window_event));
                match window_event {
                    WindowEvent::Resized(size) => seen.resized(size),
                    WindowEvent::ScaleFactorChanged { new_inner_size } => seen.resized(
                        new_inner_size,
                    ),
                    _ => seen,
                }
            },
            Event::DeviceEvent(device_event) => self.with_input(
                self.input.after_device_event(device_event),
            ),
            Event::MainEventsCleared => if self.input.quit {
                self
            } else {
                self.updated()
            },
            Event::Other => self,
        }
    }

    /// The action that an event calls for.
    ///
    /// The loop ends when the window is to be closed, and when the events
    /// are cleared while the quit key is held. A new size that is drawable
    /// calls for a new configuration. Cleared events call for a frame.
    pub open spec fn action(self, event: Event) -> ActionView {
        match event {
            Event::WindowEvent(WindowEvent::CloseRequested) => ActionView::Exit,
            Event::WindowEvent(WindowEvent::Resized(size)) => if size.drawable() {
                ActionView::Resized
            } else {
                ActionView::Poll
            },
            Event::WindowEvent(WindowEvent::ScaleFactorChanged { new_inner_size }) => if new_inner_size.drawable() {
                ActionView::Resized
            } else {
                ActionView::Poll
            },
            Event::MainEventsCleared => if self.input.quit {
                ActionView::Exit
            } else {
                ActionView::Frame(self.plan())
            },
            _ => ActionView::Poll,
        }
    }

    /// The state after one mouse motion for each of `deltas`, in their order.
    pub open spec fn after_motions(self, deltas: Seq<(u32, u32)>) -> StateView
        decreases deltas.len(),
    {
        if deltas.len() == 0 {
            self
        } else {
            self.after_motions(deltas.drop_last()).after(
                Event::DeviceEvent(DeviceEvent::MouseMotion { delta: deltas.last() }),
            )
        }
    }
}

impl State {
    /// Starts on a drawable area of the given size.
    pub fn new(size: PhysicalSize) -> (state: State)
        ensures
            state@ == StateView::initial(size),
    {
        State { size, input: Input::new(), cursor_visible: false }
    }

    /// Takes note of a new size of the drawable area. Tells whether it was
    /// taken over: only then is the surface to be configured anew.
    pub fn resize(&mut self, new_size: PhysicalSize) -> (applied: bool)
        ensures
            applied == new_size.drawable(),
            final(self)@ == old(self)@.resized(new_size),
    {
        if new_size.width > 0 && new_size.height > 0 {
            self.size = new_size;
            true
        } else {
            false
        }
    }

    /// Advances the loop by one frame and says what the camera and the
    /// window are to do for it. The frame carries every mouse motion that
    /// came since the frame before; the snapshot keeps none of them.
    pub fn update(&mut self) -> (frame: FrameUpdate)
        ensures
            frame@ == old(self)@.plan(),
            final(self)@ == old(self)@.updated(),
    {
        let steps = movement_steps(&self.input);
        let mut mouse_motion: Vec<(u32, u32)> = Vec::new();
        std::mem::swap(&mut self.input.mouse_motion, &mut mouse_motion);
        let cursor = if self.input.toggle_inventory {
            self.cursor_visible = !self.cursor_visible;
            Some(self.cursor_visible)
        } else {
            None
        };
        FrameUpdate { steps, mouse_motion, cursor }
    }

    /// Takes in one event and says what is to be done about it.
    pub fn handle_event(&mut self, event: &Event) -> (action: Action)
        ensures
            final(self)@ == old(self)@.after(*event),
            action@ == old(self)@.action(*event),
    {
        match event {
            Event::WindowEvent(window_event) => {
                self.input.process_window_events(window_event);
                match window_event {
                    WindowEvent::CloseRequested => Action::Exit,
                    WindowEvent::Resized(size) => self.resized_to(*size),
                    WindowEvent::ScaleFactorChanged { new_inner_size } => self.resized_to(
                        *new_inner_size,
                    ),
                    _ => Action::Poll,
                }
            },
            Event::DeviceEvent(device_event) => {
                self.input.process_device_events(device_event);
                Action::Poll
            },
            Event::MainEventsCleared => {
                if self.input.quit {
                    Action::Exit
                } else {
                    Action::Frame(self.update())
                }
            },
            Event::Other => Action::Poll,
        }
    }

    /// Takes note of a new size and names the action that follows.
    fn resized_to(&mut self, size: PhysicalSize) -> (action: Action)
        ensures
            final(self)@ == old(self)@.resized(size),
            action@ == if size.drawable() {
                ActionView::Resized
            } else {
                ActionView::Poll
            },
    {
        if self.resize(size) {
            Action::Resized
        } else {
            Action::Poll
        }
    }
}

/// No mouse motion is lost between two frames: when motions come in, one
/// after the other, and the events are then cleared, the frame that follows
/// carries what was waiting before and, behind it, every one of the motions
/// in the order of arrival. After the frame none is left for the next one.
pub proof fn lemma_frame_carries_all_motion(state: StateView, deltas: Seq<(u32, u32)>)
    requires
        !state.input.quit,
    ensures
        state.after_motions(deltas).action(Event::MainEventsCleared) matches ActionView::Frame(
            frame,
        ) && frame.mouse_motion == state.input.mouse_motion + deltas,
        state.after_motions(deltas).after(Event::MainEventsCleared).input.mouse_motion
            == Seq::<(u32, u32)>::empty(),
{
    lemma_motions_reach_the_input(state, deltas);
    lemma_motion_accumulates(state.input, deltas);
}

/// Mouse motions change the input snapshot and nothing else.
pub proof fn lemma_motions_reach_the_input(state: StateView, deltas: Seq<(u32, u32)>)
    ensures
        state.after_motions(deltas) == state.with_input(state.input.after_motions(deltas)),
    decreases deltas.len(),
{
    if deltas.len() > 0 {
        lemma_motions_reach_the_input(state, deltas.drop_last());
    }
}

} // verus!
