//! What the keyboard and the mouse currently ask of the camera.
//!
//! The windowing layer reports events; this module keeps the snapshot that
//! the frame loop reads once per frame. An event changes at most one field:
//! a key sets or clears its flag, a mouse motion joins the motions that have
//! come since the last frame.

use vstd::prelude::*;
use crate::geometry::PhysicalSize;

verus! {

/// Whether a key or button went down or came up.
#[derive(Clone, Copy, Debug, PartialEq, Eq, Structural)]
pub enum ElementState {
    Pressed,
    Released,
}

/// The keys that are bound to something, and one name for all the others.
#[derive(Clone, Copy, Debug, PartialEq, Eq, Structural)]
pub enum KeyCode {
    W,
    S,
    A,
    D,
    Space,
    LShift,
    Escape,
    Tab,
    Other,
}

/// A mouse button.
#[derive(Clone, Copy, Debug, PartialEq, Eq, Structural)]
pub enum MouseButton {
    Left,
    Right,
    Middle,
    Other(u16),
}

/// An event of the window, reduced to what the loop reads of it.
#[derive(Clone, Copy, Debug, PartialEq, Eq)]
pub enum WindowEvent {
    /// A key changed state. `key` is `None` where the platform could not
    /// name the key.
    KeyboardInput { key: Option<KeyCode>, state: ElementState },
    /// A mouse button changed state.
    MouseInput { state: ElementState, button: MouseButton },
    /// The user asked to close the window.
    CloseRequested,
    /// The drawable area has a new size.
    Resized(PhysicalSize),
    /// The scale factor changed, and with it the size of the drawable area.
    ScaleFactorChanged { new_inner_size: PhysicalSize },
    /// Any other event of the window.
    Other,
}

/// An event of an input device, reduced to what the loop reads of it.
#[derive(Clone, Copy, Debug, PartialEq, Eq)]
pub enum DeviceEvent {
    /// The mouse moved by `delta`, two binary32 patterns: to the right and
    /// downwards.
    MouseMotion { delta: (u32, u32) },
    /// Any other event of a device.
    Other,
}

/// An event of the loop, reduced to what the loop reads of it.
#[derive(Clone, Copy, Debug, PartialEq, Eq)]
pub enum Event {
    /// An event of the window.
    WindowEvent(WindowEvent),
    /// An event of an input device.
    DeviceEvent(DeviceEvent),
    /// All pending events were handed over: time for a frame.
    MainEventsCleared,
    /// Any other event.
    Other,
}

/// The snapshot of the controls: which movement keys are held, and how the
/// mouse has moved since the last frame.
#[derive(Debug, PartialEq, Eq)]
pub struct Input {
    pub forward: bool,
    pub backward: bool,
    pub left: bool,
    pub right: bool,
    pub up: bool,
    pub down: bool,
    pub quit: bool,
    pub toggle_inventory: bool,
    /// The mouse motions not yet consumed, oldest first, each as two binary32
    /// patterns. Their sum, taken in this order, is what the next frame turns
    /// the camera by.
    pub mouse_motion: Vec<(u32, u32)>,
}

/// What `Input` stands for in contracts: the flags, and the motions as a
/// sequence.
pub struct InputView {
    pub forward: bool,
    pub backward: bool,
    pub left: bool,
    pub right: bool,
    pub up: bool,
    pub down: bool,
    pub quit: bool,
    pub toggle_inventory: bool,
    pub mouse_motion: Seq<(u32, u32)>,
}

impl View for Input {
    type V = InputView;

    open spec fn view(&self) -> InputView {
        InputView {
            forward: self.forward,
            backward: self.backward,
            left: self.left,
            right: self.right,
            up: self.up,
            down: self.down,
            quit: self.quit,
            toggle_inventory: self.toggle_inventory,
            mouse_motion: self.mouse_motion@,
        }
    }
}

impl InputView {
    /// The snapshot before any event: nothing held, no motion.
    pub open spec fn idle() -> InputView {
        InputView {
            forward: false,
            backward: false,
            left: false,
            right: false,
            up: false,
            down: false,
            quit: false,
            toggle_inventory: false,
            mouse_motion: Seq::empty(),
        }
    }

    /// The snapshot after `key` went down (`pressed`) or came up: the field
    /// bound to the key takes the value of `pressed`, every other field stays.
    pub open spec fn with_key(self, key: KeyCode, pressed: bool) -> InputView {
        match key {
            KeyCode::W => InputView { forward: pressed, ..self },
            KeyCode::S => InputView { backward: pressed, ..self },
            KeyCode::A => InputView { left: pressed, ..self },
            KeyCode::D => InputView { right: pressed, ..self },
            KeyCode::Space => InputView { up: pressed, ..self },
            KeyCode::LShift => InputView { down: pressed, ..self },
            KeyCode::Escape => InputView { quit: pressed, ..self },
            KeyCode::Tab => InputView { toggle_inventory: pressed, ..self },
            KeyCode::Other => self,
        }
    }

    /// The snapshot after an event of the window. Only a keyboard event that
    /// names its key changes anything.
    pub open spec fn after_window_event(self, event: WindowEvent) -> InputView {
        match event {
            WindowEvent::KeyboardInput { key: Some(key), state } => self.with_key(
                key,
                state == ElementState::Pressed,
            ),
            _ => self,
        }
    }

    /// The snapshot after an event of a device. Only a mouse motion changes
    /// anything: it joins the motions that wait for the next frame, behind
    /// those that came before it.
    pub open spec fn after_device_event(self, event: DeviceEvent) -> InputView {
        match event {
            DeviceEvent::MouseMotion { delta } => InputView {
                mouse_motion: self.mouse_motion.push(delta),
                ..self
            },
            DeviceEvent::Other => self,
        }
    }

    /// The snapshot with the mouse motions consumed.
    pub open spec fn without_mouse_motion(self) -> InputView {
        InputView { mouse_motion: Seq::empty(), ..self }
    }

    /// The snapshot after one mouse motion for each of `deltas`, in their
    /// order.
    pub open spec fn after_motions(self, deltas: Seq<(u32, u32)>) -> InputView
        decreases deltas.len(),
    {
        if deltas.len() == 0 {
            self
        } else {
            self.after_motions(deltas.drop_last()).after_device_event(
                DeviceEvent::MouseMotion { delta: deltas.last() },
            )
        }
    }
}

impl Input {
    pub fn new() -> (input: Self)
        ensures
            input@ == InputView::idle(),
    {
        Input {
            forward: false,
            backward: false,
            left: false,
            right: false,
            up: false,
            down: false,
            quit: false,
            toggle_inventory: false,
            mouse_motion: Vec::new(),
        }
    }

    /// Takes in one event of the window.
    pub fn process_window_events(&mut self, event: &WindowEvent)
        ensures
            final(self)@ == old(self)@.after_window_event(*event),
    {
        match event {
            WindowEvent::KeyboardInput { key: Some(key), state } => {
                let pressed = match state {
                    ElementState::Pressed => true,
                    ElementState::Released => false,
                };
                match key {
                    KeyCode::W => self.forward = pressed,
                    KeyCode::S => self.backward = pressed,
                    KeyCode::A => self.left = pressed,
                    KeyCode::D => self.right = pressed,
                    KeyCode::Space => self.up = pressed,
                    KeyCode::LShift => self.down = pressed,
                    KeyCode::Escape => self.quit = pressed,
                    KeyCode::Tab => self.toggle_inventory = pressed,
                    KeyCode::Other => {},
                }
            },
            _ => {},
        }
    }

    /// Takes in one event of an input device. A mouse motion is kept beside
    /// those that came since the last frame: none of them is lost.
    pub fn process_device_events(&mut self, event: &DeviceEvent)
        ensures
            final(self)@ == old(self)@.after_device_event(*event),
    {
        match event {
            DeviceEvent::MouseMotion { delta } => {
                self.mouse_motion.push(*delta);
            },
            DeviceEvent::Other => {},
        }
    }

    /// Forgets the mouse motions once the frame has used them.
    pub fn clear_mouse_delta(&mut self)
        ensures
            final(self)@ == old(self)@.without_mouse_motion(),
    {
        self.mouse_motion.clear();
    }
}

/// A key changes the one field it is bound to and nothing else: whatever was
/// held before stays held, and no mouse motion is lost.
pub proof fn lemma_key_changes_one_field(input: InputView, key: KeyCode, pressed: bool)
    ensures
        key != KeyCode::W ==> input.with_key(key, pressed).forward == input.forward,
        key != KeyCode::S ==> input.with_key(key, pressed).backward == input.backward,
        key != KeyCode::A ==> input.with_key(key, pressed).left == input.left,
        key != KeyCode::D ==> input.with_key(key, pressed).right == input.right,
        key != KeyCode::Space ==> input.with_key(key, pressed).up == input.up,
        key != KeyCode::LShift ==> input.with_key(key, pressed).down == input.down,
        key != KeyCode::Escape ==> input.with_key(key, pressed).quit == input.quit,
        key != KeyCode::Tab ==> input.with_key(key, pressed).toggle_inventory
            == input.toggle_inventory,
        input.with_key(key, pressed).mouse_motion == input.mouse_motion,
{
}

/// Mouse motion adds up: after any number of motions the snapshot holds what
/// it held before and, behind it, every one of them in the order of arrival.
/// The keys stay as they were.
pub proof fn lemma_motion_accumulates(input: InputView, deltas: Seq<(u32, u32)>)
    ensures
        input.after_motions(deltas) == (InputView {
            mouse_motion: input.mouse_motion + deltas,
            ..input
        }),
    decreases deltas.len(),
{
    if deltas.len() == 0 {
        assert(input.mouse_motion + deltas =~= input.mouse_motion);
    } else {
        lemma_motion_accumulates(input, deltas.drop_last());
        assert((input.mouse_motion + deltas.drop_last()).push(deltas.last())
            =~= input.mouse_motion + deltas);
    }
}

} // verus!
