use erbium::input::{InputEvent, Key, MouseButton};
use erbium::objects::camera::{Axis, Camera, Direction, GridVector, PoseCommand};

fn key(key: Key, pressed: bool) -> InputEvent {
    InputEvent::KeyTransition { key, pressed }
}

fn button(button: MouseButton, pressed: bool) -> InputEvent {
    InputEvent::MouseButtonTransition { button, pressed }
}

const ALL_DIRECTIONS: [Direction; 6] = [
    Direction::Up,
    Direction::Left,
    Direction::Down,
    Direction::Right,
    Direction::Forward,
    Direction::Backward,
];

#[test]
fn new_camera_is_at_rest() {
    let camera = Camera::new();
    for d in ALL_DIRECTIONS {
        assert!(!camera.is_moving(d));
    }
    assert!(!camera.moving_direction);
    assert_eq!(camera.update(), Vec::<Direction>::new());
}

#[test]
fn press_w_then_update_steps_forward_once() {
    let mut camera = Camera::new();
    let command = camera.process_input(&key(Key::KeyW, true));
    assert_eq!(command, PoseCommand::Keep);
    let steps = camera.update();
    assert_eq!(steps, vec![Direction::Forward]);

    // Applied to the starting pose, whose forward axis is (0, 0, -1), the one
    // step takes 0.01 off z and leaves x and y alone.
    let forward = [0.0f32, 0.0, -1.0];
    let mut position = [0.1f32, 0.1, 1.0];
    for step in steps {
        assert_eq!(step.axis(), Axis::Forward);
        let sign = step.sign() as f32;
        for i in 0..3 {
            position[i] += sign * forward[i] * 0.01;
        }
    }
    assert_eq!(position[0], 0.1);
    assert_eq!(position[1], 0.1);
    assert!((position[2] - 0.99).abs() < 1e-6);
}

#[test]
fn update_lists_every_active_flag_in_order() {
    let mut camera = Camera::new();
    for k in [Key::KeyS, Key::KeyW, Key::KeyD, Key::ShiftLeft, Key::KeyA, Key::ControlLeft] {
        camera.process_input(&key(k, true));
    }
    assert_eq!(camera.update(), ALL_DIRECTIONS.to_vec());
}

#[test]
fn update_keeps_opposite_steps_apart() {
    let mut camera = Camera::new();
    camera.process_input(&key(Key::KeyA, true));
    camera.process_input(&key(Key::KeyD, true));
    let steps = camera.update();
    assert_eq!(steps, vec![Direction::Left, Direction::Right]);
    let net: i32 = steps.iter().map(|d| d.sign() as i32).sum();
    assert_eq!(net, 0);
}

#[test]
fn update_diagonal_is_sum_of_axes() {
    let mut camera = Camera::new();
    camera.process_input(&key(Key::KeyW, true));
    camera.process_input(&key(Key::KeyD, true));
    assert_eq!(camera.update(), vec![Direction::Right, Direction::Forward]);
}

#[test]
fn update_leaves_the_flags() {
    let mut camera = Camera::new();
    camera.process_input(&key(Key::ControlLeft, true));
    let before = camera;
    assert_eq!(camera.update(), vec![Direction::Up]);
    assert_eq!(camera.update(), vec![Direction::Up]);
    assert_eq!(camera, before);
}

#[test]
fn each_movement_key_sets_its_own_flag() {
    let table = [
        (Key::ControlLeft, Direction::Up),
        (Key::ShiftLeft, Direction::Down),
        (Key::KeyA, Direction::Left),
        (Key::KeyD, Direction::Right),
        (Key::KeyW, Direction::Forward),
        (Key::KeyS, Direction::Backward),
    ];
    for (k, d) in table {
        assert_eq!(k.direction(), Some(d));
        let mut camera = Camera::new();
        assert_eq!(camera.process_input(&key(k, true)), PoseCommand::Keep);
        for other in ALL_DIRECTIONS {
            assert_eq!(camera.is_moving(other), other == d);
        }
        assert!(!camera.moving_direction);
        assert_eq!(camera.process_input(&key(k, false)), PoseCommand::Keep);
        assert_eq!(camera, Camera::new());
    }
}

#[test]
fn key_release_twice_leaves_flag_off() {
    let mut camera = Camera::new();
    camera.process_input(&key(Key::KeyW, true));
    assert!(camera.is_moving(Direction::Forward));
    camera.process_input(&key(Key::KeyW, false));
    assert!(!camera.is_moving(Direction::Forward));
    camera.process_input(&key(Key::KeyW, false));
    assert!(!camera.is_moving(Direction::Forward));
    assert_eq!(camera, Camera::new());
}

#[test]
fn key_press_twice_leaves_flag_on() {
    let mut camera = Camera::new();
    camera.process_input(&key(Key::KeyA, true));
    let once = camera;
    camera.process_input(&key(Key::KeyA, true));
    assert_eq!(camera, once);
    assert!(camera.is_moving(Direction::Left));
}

#[test]
fn latest_transition_of_each_key_wins() {
    let mut camera = Camera::new();
    let events = [
        key(Key::KeyW, true),
        key(Key::KeyA, true),
        key(Key::KeyW, false),
        InputEvent::PointerMoved,
        key(Key::KeyS, true),
        key(Key::KeyW, true),
        key(Key::KeyA, false),
        InputEvent::Other,
    ];
    for e in events.iter() {
        camera.process_input(e);
    }
    assert!(camera.is_moving(Direction::Forward));
    assert!(camera.is_moving(Direction::Backward));
    assert!(!camera.is_moving(Direction::Left));
    assert!(!camera.is_moving(Direction::Right));
    assert_eq!(camera.update(), vec![Direction::Forward, Direction::Backward]);
}

#[test]
fn f1_asks_for_the_front_view() {
    let front = PoseCommand::Reset {
        position: GridVector { x: 0, y: 0, z: 1 },
        direction: GridVector { x: 0, y: 0, z: -1 },
    };
    let mut camera = Camera::new();
    camera.process_input(&key(Key::KeyD, true));
    let before = camera;
    assert!(Key::F1.is_reset());
    assert_eq!(Key::F1.direction(), None);
    assert_eq!(camera.process_input(&key(Key::F1, true)), front);
    assert_eq!(camera, before);
    assert_eq!(camera.process_input(&key(Key::F1, false)), front);
    assert_eq!(camera, before);
}

#[test]
fn unmapped_key_does_nothing() {
    let mut camera = Camera::new();
    camera.process_input(&key(Key::KeyS, true));
    let before = camera;
    assert!(!Key::Other.is_reset());
    assert_eq!(Key::Other.direction(), None);
    assert_eq!(camera.process_input(&key(Key::Other, true)), PoseCommand::Keep);
    assert_eq!(camera.process_input(&key(Key::Other, false)), PoseCommand::Keep);
    assert_eq!(camera, before);
}

#[test]
fn pointer_motion_is_ignored_while_not_looking() {
    let mut camera = Camera::new();
    assert_eq!(camera.process_input(&InputEvent::PointerMoved), PoseCommand::Keep);
    assert_eq!(camera, Camera::new());
}

#[test]
fn right_button_opens_and_closes_the_look_gate() {
    let mut camera = Camera::new();
    assert_eq!(camera.process_input(&button(MouseButton::Right, true)), PoseCommand::Keep);
    assert!(camera.moving_direction);
    assert_eq!(camera.process_input(&InputEvent::PointerMoved), PoseCommand::Look);
    assert_eq!(camera.process_input(&InputEvent::PointerMoved), PoseCommand::Look);
    assert!(camera.moving_direction);
    assert_eq!(camera.update(), Vec::<Direction>::new());
    assert_eq!(camera.process_input(&button(MouseButton::Right, false)), PoseCommand::Keep);
    assert!(!camera.moving_direction);
    assert_eq!(camera.process_input(&InputEvent::PointerMoved), PoseCommand::Keep);
}

#[test]
fn other_buttons_do_nothing() {
    for b in [MouseButton::Left, MouseButton::Middle, MouseButton::Other] {
        let mut camera = Camera::new();
        assert_eq!(camera.process_input(&button(b, true)), PoseCommand::Keep);
        assert_eq!(camera, Camera::new());
        camera.process_input(&button(MouseButton::Right, true));
        assert_eq!(camera.process_input(&button(b, false)), PoseCommand::Keep);
        assert!(camera.moving_direction);
    }
}

#[test]
fn other_events_do_nothing() {
    let mut camera = Camera::new();
    camera.process_input(&key(Key::KeyW, true));
    camera.process_input(&button(MouseButton::Right, true));
    let before = camera;
    assert_eq!(camera.process_input(&InputEvent::Other), PoseCommand::Keep);
    assert_eq!(camera, before);
}

#[test]
fn handle_key_and_handle_mouse_act_like_process_input() {
    let mut a = Camera::new();
    let mut b = Camera::new();
    assert_eq!(a.handle_key(Key::ShiftLeft, true), b.process_input(&key(Key::ShiftLeft, true)));
    assert_eq!(a, b);
    a.handle_mouse(MouseButton::Right, true);
    b.process_input(&button(MouseButton::Right, true));
    assert_eq!(a, b);
    assert!(a.is_moving(Direction::Down) && a.moving_direction);
}

#[test]
fn directions_have_axis_and_sign() {
    let table = [
        (Direction::Up, Axis::Up, 1i8),
        (Direction::Down, Axis::Up, -1),
        (Direction::Right, Axis::Right, 1),
        (Direction::Left, Axis::Right, -1),
        (Direction::Forward, Axis::Forward, 1),
        (Direction::Backward, Axis::Forward, -1),
    ];
    for (d, axis, sign) in table {
        assert_eq!(d.axis(), axis);
        assert_eq!(d.sign(), sign);
    }
}
