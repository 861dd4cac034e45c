use voxl::input::{
    input, Direction, ElementState, KeyCode, KeyState, KeyboardEvent, MovementBindings,
};

#[test]
fn movement_binding_test_01() {
    let m = MovementBindings::default();
    assert_eq!(m.front.1, KeyState::Released);
}

#[test]
fn movement_binding_test_02() {
    let kstate = KeyState::Pressed;
    let k2state = KeyState::Held;
    let k3state = KeyState::Released;
    assert!((kstate.active() == k2state.active()) != k3state.active());
}

#[test]
fn default_bindings_use_the_stock_keys() {
    let m = MovementBindings::default();
    assert_eq!(m.up.0, KeyCode::LShift);
    assert_eq!(m.down.0, KeyCode::LControl);
    assert_eq!(m.left.0, KeyCode::Left);
    assert_eq!(m.right.0, KeyCode::Right);
    assert_eq!(m.front.0, KeyCode::Up);
    assert_eq!(m.back.0, KeyCode::Down);
    assert_eq!(m.up.1, KeyState::Released);
}

#[test]
fn key_state_transitions() {
    let mut s = KeyState::Released;
    assert!(!s.active());
    assert!(s.released());
    s.press();
    assert!(s.active());
    assert!(s.pressed());
    assert!(!s.held());
    s.hold();
    assert!(s.active());
    assert!(s.held());
    s.release();
    assert!(!s.active());
}

#[test]
fn pressing_and_releasing_bound_keys_moves_the_axis() {
    let mut m = MovementBindings::new(
        KeyCode::Space,
        KeyCode::LControl,
        KeyCode::A,
        KeyCode::D,
        KeyCode::W,
        KeyCode::S,
    );
    assert_eq!(m.dir(), Direction { x: 0, y: 0, z: 0 });

    m.pressed(KeyCode::D);
    assert_eq!(m.dir(), Direction { x: 1, y: 0, z: 0 });

    m.pressed(KeyCode::W);
    // The front binding moves towards negative z.
    assert_eq!(m.dir(), Direction { x: 1, y: 0, z: -1 });

    m.released(KeyCode::D);
    m.pressed(KeyCode::A);
    assert_eq!(m.dir(), Direction { x: -1, y: 0, z: -1 });

    // An unbound key changes nothing.
    m.pressed(KeyCode::Escape);
    assert_eq!(m.dir(), Direction { x: -1, y: 0, z: -1 });

    // Opposite bindings cancel.
    m.pressed(KeyCode::D);
    assert_eq!(m.dir(), Direction { x: 0, y: 0, z: -1 });
}

#[test]
fn input_routes_a_batch_of_events_in_order() {
    let mut m = MovementBindings::default();
    let events = vec![
        KeyboardEvent { key: KeyCode::Right, state: ElementState::Pressed },
        KeyboardEvent { key: KeyCode::LShift, state: ElementState::Pressed },
        KeyboardEvent { key: KeyCode::Right, state: ElementState::Released },
    ];
    let d = input(&mut m, &events);
    assert_eq!(d, Direction { x: 0, y: 1, z: 0 });
    assert_eq!(m.right.1, KeyState::Released);
    assert_eq!(m.up.1, KeyState::Pressed);
}
