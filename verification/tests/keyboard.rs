use bevy_input::keyboard::KeyCode;
use bevy_input::Input;
use marble_bros::geometry::Vector2;
use marble_bros::input::{Direction, Key, KeyReport, KeyState};
use marble_bros::keyboard::{key_state, keyboard_input_system, sample_controls};
use marble_bros::motion::{ball_motion_system, Body, MotionOutcome, Step, PLAYER_TAG};

const IDLE: KeyState = KeyState { held: false, just_pressed: false, just_released: false };
const DOWN_NOW: KeyState = KeyState { held: true, just_pressed: true, just_released: false };
const DOWN: KeyState = KeyState { held: true, just_pressed: false, just_released: false };
const UP_NOW: KeyState = KeyState { held: false, just_pressed: false, just_released: true };

#[test]
fn fresh_keyboard_reports_nothing() {
    let keyboard: Input<KeyCode> = Input::default();
    assert_eq!(key_state(&keyboard, Key::A), IDLE);
    assert_eq!(key_state(&keyboard, Key::Left), IDLE);
    assert_eq!(key_state(&keyboard, Key::Right), IDLE);
    assert_eq!(key_state(&keyboard, Key::Space), IDLE);
    assert!(keyboard_input_system(&keyboard).is_empty());
}

#[test]
fn key_state_follows_press_hold_release() {
    let mut keyboard: Input<KeyCode> = Input::default();
    keyboard.press(KeyCode::Space);
    assert_eq!(key_state(&keyboard, Key::Space), DOWN_NOW);
    keyboard.update();
    assert_eq!(key_state(&keyboard, Key::Space), DOWN);
    keyboard.release(KeyCode::Space);
    assert_eq!(key_state(&keyboard, Key::Space), UP_NOW);
    keyboard.update();
    assert_eq!(key_state(&keyboard, Key::Space), IDLE);
}

#[test]
fn each_key_reads_its_own_code() {
    let cases = [
        (KeyCode::A, Key::A),
        (KeyCode::Left, Key::Left),
        (KeyCode::Right, Key::Right),
        (KeyCode::Space, Key::Space),
    ];
    for (code, key) in cases {
        let mut keyboard: Input<KeyCode> = Input::default();
        keyboard.press(code);
        for (_, other) in cases {
            let expected = if other == key { DOWN_NOW } else { IDLE };
            assert_eq!(key_state(&keyboard, other), expected);
        }
    }
}

#[test]
fn each_key_reads_its_own_release() {
    let cases = [
        (KeyCode::A, Key::A),
        (KeyCode::Left, Key::Left),
        (KeyCode::Right, Key::Right),
        (KeyCode::Space, Key::Space),
    ];
    for (code, key) in cases {
        let mut keyboard: Input<KeyCode> = Input::default();
        for (other_code, _) in cases {
            keyboard.press(other_code);
        }
        keyboard.update();
        keyboard.release(code);
        for (_, other) in cases {
            let expected = if other == key { UP_NOW } else { DOWN };
            assert_eq!(key_state(&keyboard, other), expected);
        }
    }
}

#[test]
fn each_key_reads_its_own_hold() {
    let cases = [
        (KeyCode::A, Key::A),
        (KeyCode::Left, Key::Left),
        (KeyCode::Right, Key::Right),
        (KeyCode::Space, Key::Space),
    ];
    for (code, key) in cases {
        let mut keyboard: Input<KeyCode> = Input::default();
        keyboard.press(code);
        keyboard.update();
        for (_, other) in cases {
            let expected = if other == key { DOWN } else { IDLE };
            assert_eq!(key_state(&keyboard, other), expected);
        }
    }
}

#[test]
fn released_arrow_alone_gives_no_intent() {
    let mut keyboard: Input<KeyCode> = Input::default();
    keyboard.press(KeyCode::Left);
    keyboard.press(KeyCode::Right);
    keyboard.update();
    keyboard.release(KeyCode::Right);
    let controls = sample_controls(&keyboard);
    assert_eq!(controls.left, DOWN);
    assert_eq!(controls.right, UP_NOW);
    assert_eq!(controls.intent(), Some(Direction::Left));
    keyboard.release(KeyCode::Left);
    let controls = sample_controls(&keyboard);
    assert_eq!(controls.left, UP_NOW);
    assert_eq!(controls.right, UP_NOW);
    assert_eq!(controls.intent(), None);
}

#[test]
fn unrelated_keys_are_ignored() {
    let mut keyboard: Input<KeyCode> = Input::default();
    keyboard.press(KeyCode::B);
    keyboard.press(KeyCode::Up);
    keyboard.press(KeyCode::Return);
    let controls = sample_controls(&keyboard);
    assert_eq!(controls.left, IDLE);
    assert_eq!(controls.right, IDLE);
    assert_eq!(controls.jump, IDLE);
    assert!(keyboard_input_system(&keyboard).is_empty());
}

#[test]
fn sampled_controls_carry_the_three_keys() {
    let mut keyboard: Input<KeyCode> = Input::default();
    keyboard.press(KeyCode::Left);
    keyboard.update();
    keyboard.press(KeyCode::Space);
    let controls = sample_controls(&keyboard);
    assert_eq!(controls.left, DOWN);
    assert_eq!(controls.right, IDLE);
    assert_eq!(controls.jump, DOWN_NOW);
    assert_eq!(controls.intent(), Some(Direction::Left));
    assert!(controls.jump_requested());
}

#[test]
fn sampled_intent_for_every_combination_of_arrows() {
    for (left, right, expected) in [
        (true, false, Some(Direction::Left)),
        (false, true, Some(Direction::Right)),
        (true, true, None),
        (false, false, None),
    ] {
        let mut keyboard: Input<KeyCode> = Input::default();
        if left {
            keyboard.press(KeyCode::Left);
        }
        if right {
            keyboard.press(KeyCode::Right);
        }
        keyboard.update();
        assert_eq!(sample_controls(&keyboard).intent(), expected);
    }
}

#[test]
fn monitor_reports_the_a_key_through_its_life() {
    let mut keyboard: Input<KeyCode> = Input::default();
    keyboard.press(KeyCode::A);
    assert_eq!(
        keyboard_input_system(&keyboard),
        vec![KeyReport::CurrentlyPressed, KeyReport::JustPressed]
    );
    keyboard.update();
    assert_eq!(keyboard_input_system(&keyboard), vec![KeyReport::CurrentlyPressed]);
    keyboard.release(KeyCode::A);
    assert_eq!(keyboard_input_system(&keyboard), vec![KeyReport::JustReleased]);
    keyboard.update();
    assert_eq!(keyboard_input_system(&keyboard), Vec::<KeyReport>::new());
}

#[test]
fn monitor_reports_press_and_release_within_one_frame() {
    let mut keyboard: Input<KeyCode> = Input::default();
    keyboard.press(KeyCode::A);
    keyboard.release(KeyCode::A);
    assert_eq!(
        keyboard_input_system(&keyboard),
        vec![KeyReport::JustPressed, KeyReport::JustReleased]
    );
}

#[test]
fn one_press_of_space_lifts_the_player_once() {
    let mut keyboard: Input<KeyCode> = Input::default();
    let mut bodies = vec![Body { tag: PLAYER_TAG, velocity: Vector2 { x: 0, y: -30 } }];

    keyboard.press(KeyCode::Space);
    let outcome = ball_motion_system(&sample_controls(&keyboard), &mut bodies);
    assert_eq!(
        outcome,
        MotionOutcome::Moved {
            index: 0,
            step: Step { force: None, capped: false, jumped: true },
            extras: 0
        }
    );
    assert_eq!(bodies[0].velocity, Vector2 { x: 0, y: 170 });

    for _ in 0..3 {
        keyboard.update();
        let outcome = ball_motion_system(&sample_controls(&keyboard), &mut bodies);
        assert_eq!(
            outcome,
            MotionOutcome::Moved {
                index: 0,
                step: Step { force: None, capped: false, jumped: false },
                extras: 0
            }
        );
        assert_eq!(bodies[0].velocity, Vector2 { x: 0, y: 170 });
    }

    keyboard.release(KeyCode::Space);
    keyboard.update();
    keyboard.press(KeyCode::Space);
    ball_motion_system(&sample_controls(&keyboard), &mut bodies);
    assert_eq!(bodies[0].velocity, Vector2 { x: 0, y: 370 });
}

#[test]
fn held_arrow_pushes_every_frame() {
    let mut keyboard: Input<KeyCode> = Input::default();
    let mut bodies = vec![Body { tag: PLAYER_TAG, velocity: Vector2 { x: 250, y: 0 } }];
    keyboard.press(KeyCode::Right);
    for _ in 0..3 {
        let outcome = ball_motion_system(&sample_controls(&keyboard), &mut bodies);
        assert_eq!(
            outcome,
            MotionOutcome::Moved {
                index: 0,
                step: Step {
                    force: Some(Vector2 { x: 1_000_000, y: 0 }),
                    capped: false,
                    jumped: false
                },
                extras: 0
            }
        );
        assert_eq!(bodies[0].velocity, Vector2 { x: 250, y: 0 });
        keyboard.update();
    }
    keyboard.press(KeyCode::Left);
    let outcome = ball_motion_system(&sample_controls(&keyboard), &mut bodies);
    assert_eq!(
        outcome,
        MotionOutcome::Moved {
            index: 0,
            step: Step { force: None, capped: false, jumped: false },
            extras: 0
        }
    );
}
