use marble_bros::input::{
    horizontal_intent, key_reports, Controls, Direction, KeyReport, KeyState,
};

fn key(held: bool, just_pressed: bool, just_released: bool) -> KeyState {
    KeyState { held, just_pressed, just_released }
}

#[test]
fn left_alone_means_left() {
    assert_eq!(horizontal_intent(true, false), Some(Direction::Left));
    assert_eq!(horizontal_intent(true, false).map(Direction::sign), Some(-1));
}

#[test]
fn right_alone_means_right() {
    assert_eq!(horizontal_intent(false, true), Some(Direction::Right));
    assert_eq!(horizontal_intent(false, true).map(Direction::sign), Some(1));
}

#[test]
fn both_arrows_cancel() {
    assert_eq!(horizontal_intent(true, true), None);
}

#[test]
fn no_arrow_means_no_intent() {
    assert_eq!(horizontal_intent(false, false), None);
}

#[test]
fn direction_signs() {
    assert_eq!(Direction::Left.sign(), -1);
    assert_eq!(Direction::Right.sign(), 1);
}

#[test]
fn controls_intent_reads_held_flags_only() {
    let edge_only = key(false, true, true);
    let held = key(true, false, false);
    let idle = key(false, false, false);
    let controls = Controls { left: edge_only, right: held, jump: idle };
    assert_eq!(controls.intent(), Some(Direction::Right));
    let controls = Controls { left: edge_only, right: edge_only, jump: idle };
    assert_eq!(controls.intent(), None);
    let controls = Controls { left: held, right: edge_only, jump: idle };
    assert_eq!(controls.intent(), Some(Direction::Left));
}

#[test]
fn jump_is_requested_on_the_edge_only() {
    let idle = key(false, false, false);
    for held in [false, true] {
        for just_released in [false, true] {
            let pressed = Controls { left: idle, right: idle, jump: key(held, true, just_released) };
            assert!(pressed.jump_requested());
            let not_pressed =
                Controls { left: idle, right: idle, jump: key(held, false, just_released) };
            assert!(!not_pressed.jump_requested());
        }
    }
}

#[test]
fn report_lines() {
    assert_eq!(KeyReport::CurrentlyPressed.line(), "'A' currently pressed");
    assert_eq!(KeyReport::JustPressed.line(), "'A' just pressed");
    assert_eq!(KeyReport::JustReleased.line(), "'A' just released");
}

#[test]
fn reports_for_every_key_state() {
    let all = [KeyReport::CurrentlyPressed, KeyReport::JustPressed, KeyReport::JustReleased];
    for held in [false, true] {
        for just_pressed in [false, true] {
            for just_released in [false, true] {
                let flags = [held, just_pressed, just_released];
                let expected: Vec<KeyReport> =
                    all.iter().zip(flags).filter(|(_, set)| *set).map(|(r, _)| *r).collect();
                assert_eq!(key_reports(key(held, just_pressed, just_released)), expected);
            }
        }
    }
}

#[test]
fn reports_come_in_fixed_order() {
    assert_eq!(
        key_reports(key(true, true, true)),
        vec![KeyReport::CurrentlyPressed, KeyReport::JustPressed, KeyReport::JustReleased]
    );
    assert_eq!(key_reports(key(false, false, false)), Vec::<KeyReport>::new());
}
