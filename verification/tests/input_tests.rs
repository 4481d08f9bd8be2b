use flycam::geometry::PhysicalSize;
use flycam::input::{DeviceEvent, ElementState, Input, KeyCode, MouseButton, WindowEvent};

fn key(key: KeyCode, state: ElementState) -> WindowEvent {
    WindowEvent::KeyboardInput { key: Some(key), state }
}

fn motion(dx: f32, dy: f32) -> DeviceEvent {
    DeviceEvent::MouseMotion { delta: (dx.to_bits(), dy.to_bits()) }
}

fn idle() -> Input {
    Input {
        forward: false,
        backward: false,
        left: false,
        right: false,
        up: false,
        down: false,
        quit: false,
        toggle_inventory: false,
        mouse_motion: vec![],
    }
}

/// The sum of the motions in the order of arrival, starting from zero.
fn total(input: &Input) -> (f32, f32) {
    let mut sum = (0.0f32, 0.0f32);
    for (dx, dy) in &input.mouse_motion {
        sum.0 += f32::from_bits(*dx);
        sum.1 += f32::from_bits(*dy);
    }
    sum
}

#[test]
fn new_input_holds_nothing() {
    let input = Input::new();
    assert_eq!(input, idle());
    assert!(input.mouse_motion.is_empty());
    assert_eq!(total(&input), (0.0, 0.0));
}

#[test]
fn each_key_sets_its_own_field() {
    let cases = [
        (KeyCode::W, Input { forward: true, ..idle() }),
        (KeyCode::S, Input { backward: true, ..idle() }),
        (KeyCode::A, Input { left: true, ..idle() }),
        (KeyCode::D, Input { right: true, ..idle() }),
        (KeyCode::Space, Input { up: true, ..idle() }),
        (KeyCode::LShift, Input { down: true, ..idle() }),
        (KeyCode::Escape, Input { quit: true, ..idle() }),
        (KeyCode::Tab, Input { toggle_inventory: true, ..idle() }),
        (KeyCode::Other, idle()),
    ];
    for (code, expected) in cases {
        let mut input = Input::new();
        input.process_window_events(&key(code, ElementState::Pressed));
        assert_eq!(input, expected, "key {:?}", code);
        input.process_window_events(&key(code, ElementState::Released));
        assert_eq!(input, idle(), "key {:?} released", code);
    }
}

#[test]
fn keys_are_held_independently() {
    let mut input = Input::new();
    input.process_window_events(&key(KeyCode::W, ElementState::Pressed));
    input.process_window_events(&key(KeyCode::D, ElementState::Pressed));
    input.process_window_events(&key(KeyCode::Space, ElementState::Pressed));
    assert_eq!(input, Input { forward: true, right: true, up: true, ..idle() });
    input.process_window_events(&key(KeyCode::D, ElementState::Released));
    assert_eq!(input, Input { forward: true, up: true, ..idle() });
    input.process_window_events(&key(KeyCode::W, ElementState::Pressed));
    assert_eq!(input, Input { forward: true, up: true, ..idle() });
}

#[test]
fn a_key_without_a_name_changes_nothing() {
    let held = || Input { forward: true, quit: true, mouse_motion: vec![(3, 4)], ..idle() };
    let mut input = held();
    input.process_window_events(&WindowEvent::KeyboardInput {
        key: None,
        state: ElementState::Pressed,
    });
    assert_eq!(input, held());
    input.process_window_events(&WindowEvent::KeyboardInput {
        key: None,
        state: ElementState::Released,
    });
    assert_eq!(input, held());
}

#[test]
fn other_window_events_change_nothing() {
    let held = || Input { left: true, down: true, mouse_motion: vec![(9, 8), (7, 6)], ..idle() };
    let events = [
        WindowEvent::MouseInput { state: ElementState::Pressed, button: MouseButton::Left },
        WindowEvent::MouseInput { state: ElementState::Pressed, button: MouseButton::Right },
        WindowEvent::MouseInput { state: ElementState::Pressed, button: MouseButton::Middle },
        WindowEvent::MouseInput { state: ElementState::Released, button: MouseButton::Other(7) },
        WindowEvent::CloseRequested,
        WindowEvent::Resized(PhysicalSize { width: 10, height: 20 }),
        WindowEvent::ScaleFactorChanged { new_inner_size: PhysicalSize { width: 1, height: 1 } },
        WindowEvent::Other,
    ];
    for event in events {
        let mut input = held();
        input.process_window_events(&event);
        assert_eq!(input, held(), "event {:?}", event);
    }
}

#[test]
fn a_key_event_keeps_the_mouse_motion() {
    let mut input = Input::new();
    input.process_device_events(&motion(1.0, 2.0));
    input.process_window_events(&key(KeyCode::W, ElementState::Pressed));
    assert_eq!(
        input,
        Input { forward: true, mouse_motion: vec![(1.0f32.to_bits(), 2.0f32.to_bits())], ..idle() }
    );
}

#[test]
fn mouse_motion_adds_up() {
    let mut input = Input { forward: true, ..idle() };
    input.process_device_events(&motion(1.0, 1.0));
    assert_eq!(total(&input), (1.0, 1.0));
    input.process_device_events(&motion(1.0, 1.0));
    assert_eq!(total(&input), (2.0, 2.0));
    input.process_device_events(&motion(3.5, -1.25));
    assert_eq!(total(&input), (5.5, 0.75));
    input.process_device_events(&motion(-7.0, 0.5));
    assert_eq!(total(&input), (-1.5, 1.25));
    assert!(input.forward);
}

#[test]
fn mouse_motions_are_kept_in_the_order_of_arrival() {
    let mut input = Input::new();
    input.process_device_events(&motion(3.5, -1.25));
    assert_eq!(input.mouse_motion, vec![(3.5f32.to_bits(), (-1.25f32).to_bits())]);
    input.process_device_events(&motion(-7.0, 0.5));
    input.process_device_events(&motion(3.5, -1.25));
    assert_eq!(
        input.mouse_motion,
        vec![
            (3.5f32.to_bits(), (-1.25f32).to_bits()),
            ((-7.0f32).to_bits(), 0.5f32.to_bits()),
            (3.5f32.to_bits(), (-1.25f32).to_bits()),
        ]
    );
}

#[test]
fn other_device_events_change_nothing() {
    let held = || Input { up: true, mouse_motion: vec![(1, 2)], ..idle() };
    let mut input = held();
    input.process_device_events(&DeviceEvent::Other);
    assert_eq!(input, held());
}

#[test]
fn clearing_the_motion_leaves_the_keys() {
    let mut input = Input {
        backward: true,
        toggle_inventory: true,
        mouse_motion: vec![(12.0f32.to_bits(), 34.0f32.to_bits()), (1, 2)],
        ..idle()
    };
    input.clear_mouse_delta();
    assert_eq!(input, Input { backward: true, toggle_inventory: true, ..idle() });
    assert_eq!(total(&input), (0.0, 0.0));
    input.clear_mouse_delta();
    assert!(input.mouse_motion.is_empty());
}

#[test]
fn motion_after_a_clear_starts_from_zero() {
    let mut input = Input::new();
    input.process_device_events(&motion(4.0, 4.0));
    input.clear_mouse_delta();
    input.process_device_events(&motion(1.0, -1.0));
    assert_eq!(total(&input), (1.0, -1.0));
}
