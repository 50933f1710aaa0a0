//! Reading the engine's keyboard resource.
//!
//! The engine keeps three sets of keys per frame: those that are down, those
//! that went down this frame and those that went up this frame. This module
//! declares that resource, names what it holds, and samples it into the plain
//! values the rules work on.

use bevy_input::keyboard::KeyCode;
use bevy_input::Input;
use vstd::prelude::*;

use crate::input::{key_reports, reports_of, Controls, Key, KeyReport, KeyState};

verus! {

/// The engine's record of pressable inputs, `bevy_input::Input`. Opaque here.
#[verifier::external_type_specification]
#[verifier::external_body]
#[verifier::reject_recursive_types(T)]
pub struct ExInput<T>(Input<T>);

/// The engine's key identifiers, `bevy_input::keyboard::KeyCode`. Opaque here.
#[verifier::external_type_specification]
#[verifier::external_body]
pub struct ExKeyCode(KeyCode);

/// The keys of [`Key`] whose key code is in the set of keys that are down.
pub uninterp spec fn held_keys(keyboard: Input<KeyCode>) -> Set<Key>;

/// The keys of [`Key`] whose key code is in the set of keys that went down
/// this frame.
pub uninterp spec fn just_pressed_keys(keyboard: Input<KeyCode>) -> Set<Key>;

/// The keys of [`Key`] whose key code is in the set of keys that went up this
/// frame.
pub uninterp spec fn just_released_keys(keyboard: Input<KeyCode>) -> Set<Key>;

/// Calls `Input::pressed` with the key code of `key`. Trusted: the result
/// says whether that key code is in the resource's set of keys that are down.
#[verifier::external_body]
fn pressed(keyboard: &Input<KeyCode>, key: Key) -> (held: bool)
    ensures
        held == held_keys(*keyboard).contains(key),
{
    keyboard.pressed(match key {
        Key::A => KeyCode::A,
        Key::Left => KeyCode::Left,
        Key::Right => KeyCode::Right,
        Key::Space => KeyCode::Space,
    })
}

/// Calls `Input::just_pressed` with the key code of `key`. Trusted: the result
/// says whether that key code is in the resource's set of keys that went down
/// this frame.
#[verifier::external_body]
fn just_pressed(keyboard: &Input<KeyCode>, key: Key) -> (edge: bool)
    ensures
        edge == just_pressed_keys(*keyboard).contains(key),
{
    keyboard.just_pressed(match key {
        Key::A => KeyCode::A,
        Key::Left => KeyCode::Left,
        Key::Right => KeyCode::Right,
        Key::Space => KeyCode::Space,
    })
}

/// Calls `Input::just_released` with the key code of `key`. Trusted: the
/// result says whether that key code is in the resource's set of keys that
/// went up this frame.
#[verifier::external_body]
fn just_released(keyboard: &Input<KeyCode>, key: Key) -> (edge: bool)
    ensures
        edge == just_released_keys(*keyboard).contains(key),
{
    keyboard.just_released(match key {
        Key::A => KeyCode::A,
        Key::Left => KeyCode::Left,
        Key::Right => KeyCode::Right,
        Key::Space => KeyCode::Space,
    })
}

/// What the keyboard resource holds about one key.
pub open spec fn key_state_of(keyboard: Input<KeyCode>, key: Key) -> KeyState {
    KeyState {
        held: held_keys(keyboard).contains(key),
        just_pressed: just_pressed_keys(keyboard).contains(key),
        just_released: just_released_keys(keyboard).contains(key),
    }
}

/// What the keyboard resource holds about the keys that steer the player.
pub open spec fn controls_of(keyboard: Input<KeyCode>) -> Controls {
    Controls {
        left: key_state_of(keyboard, Key::Left),
        right: key_state_of(keyboard, Key::Right),
        jump: key_state_of(keyboard, Key::Space),
    }
}

/// Samples the three flags of one key.
pub fn key_state(keyboard: &Input<KeyCode>, key: Key) -> (state: KeyState)
    ensures
        state == key_state_of(*keyboard, key),
{
    KeyState {
        held: pressed(keyboard, key),
        just_pressed: just_pressed(keyboard, key),
        just_released: just_released(keyboard, key),
    }
}

/// Samples the keys that steer the player: the two arrows and the space bar.
pub fn sample_controls(keyboard: &Input<KeyCode>) -> (controls: Controls)
    ensures
        controls == controls_of(*keyboard),
{
    Controls {
        left: key_state(keyboard, Key::Left),
        right: key_state(keyboard, Key::Right),
        jump: key_state(keyboard, Key::Space),
    }
}

/// The keyboard monitor: lists what there is to report about the A key this
/// frame. It changes nothing; the caller prints the lines.
pub fn keyboard_input_system(keyboard: &Input<KeyCode>) -> (reports: Vec<KeyReport>)
    ensures
        reports@ == reports_of(key_state_of(*keyboard, Key::A)),
{
    key_reports(key_state(keyboard, Key::A))
}

} // verus!
