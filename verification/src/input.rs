//! Keyboard state as the gameplay rules see it: which keys matter, what is
//! known about each of them in one frame, and what the player asks for.

use vstd::prelude::*;

verus! {

/// The keys the game listens to.
#[derive(Clone, Copy, Debug, PartialEq, Eq, Structural)]
pub enum Key {
    /// The letter A, watched only to report its transitions.
    A,
    /// Left arrow: move left while held.
    Left,
    /// Right arrow: move right while held.
    Right,
    /// Space bar: jump on the frame it goes down.
    Space,
}

/// What is known about one key during one frame.
///
/// `held` is true on every frame the key is down. `just_pressed` and
/// `just_released` are true only on the frame of the transition.
#[derive(Clone, Copy, Debug, PartialEq, Eq, Structural)]
pub struct KeyState {
    pub held: bool,
    pub just_pressed: bool,
    pub just_released: bool,
}

/// The per-frame snapshot of the keys that steer the player.
#[derive(Clone, Copy, Debug, PartialEq, Eq, Structural)]
pub struct Controls {
    pub left: KeyState,
    pub right: KeyState,
    pub jump: KeyState,
}

/// A horizontal direction of travel.
#[derive(Clone, Copy, Debug, PartialEq, Eq, Structural)]
pub enum Direction {
    Left,
    Right,
}

impl Direction {
    /// The sign of the direction along the x axis: `-1` for left, `+1` for right.
    pub open spec fn sign_spec(self) -> int {
        match self {
            Direction::Left => -1,
            Direction::Right => 1,
        }
    }

    /// The sign of the direction along the x axis: `-1` for left, `+1` for right.
    pub fn sign(self) -> (s: i32)
        ensures
            s == self.sign_spec(),
    {
        match self {
            Direction::Left => -1,
            Direction::Right => 1,
        }
    }
}

/// The direction asked for when the left and right keys are held as given:
/// the direction of the one key that is held alone, nothing when both or
/// neither are held.
pub open spec fn intent_of(left_held: bool, right_held: bool) -> Option<Direction> {
    if left_held == right_held {
        None
    } else if left_held {
        Some(Direction::Left)
    } else {
        Some(Direction::Right)
    }
}

/// Computes the horizontal intent from the held state of the two arrow keys.
pub fn horizontal_intent(left_held: bool, right_held: bool) -> (intent: Option<Direction>)
    ensures
        intent == intent_of(left_held, right_held),
        left_held && !right_held ==> intent == Some(Direction::Left),
        !left_held && right_held ==> intent == Some(Direction::Right),
        left_held && right_held ==> intent.is_none(),
        !left_held && !right_held ==> intent.is_none(),
{
    match (left_held, right_held) {
        (true, true) => None,
        (true, false) => Some(Direction::Left),
        (false, true) => Some(Direction::Right),
        (false, false) => None,
    }
}

impl Controls {
    /// The horizontal intent these controls express.
    pub open spec fn intent_spec(self) -> Option<Direction> {
        intent_of(self.left.held, self.right.held)
    }

    /// The horizontal intent these controls express. Only the held state of
    /// the arrow keys counts.
    pub fn intent(&self) -> (intent: Option<Direction>)
        ensures
            intent == self.intent_spec(),
    {
        horizontal_intent(self.left.held, self.right.held)
    }

    /// Whether these controls ask for a jump: true exactly on the frame the
    /// jump key goes down, whatever its held state.
    ///
    /// Nothing here asks whether the player stands on anything: a jump is
    /// granted in mid-air too. That is a known gap in the rules, not a
    /// design choice.
    pub open spec fn jump_requested_spec(self) -> bool {
        self.jump.just_pressed
    }

    /// Whether these controls ask for a jump: true exactly on the frame the
    /// jump key goes down, whatever its held state.
    ///
    /// Nothing here asks whether the player stands on anything: a jump is
    /// granted in mid-air too. That is a known gap in the rules, not a
    /// design choice.
    pub fn jump_requested(&self) -> (jump: bool)
        ensures
            jump == self.jump_requested_spec(),
    {
        self.jump.just_pressed
    }
}

/// A line the keyboard monitor reports about the watched key.
#[derive(Clone, Copy, Debug, PartialEq, Eq, Structural)]
pub enum KeyReport {
    CurrentlyPressed,
    JustPressed,
    JustReleased,
}

impl KeyReport {
    /// The text of the report.
    pub open spec fn line_spec(self) -> Seq<char> {
        match self {
            KeyReport::CurrentlyPressed => "'A' currently pressed"@,
            KeyReport::JustPressed => "'A' just pressed"@,
            KeyReport::JustReleased => "'A' just released"@,
        }
    }

    /// The text of the report.
    pub fn line(self) -> (text: &'static str)
        ensures
            text@ == self.line_spec(),
    {
        match self {
            KeyReport::CurrentlyPressed => "'A' currently pressed",
            KeyReport::JustPressed => "'A' just pressed",
            KeyReport::JustReleased => "'A' just released",
        }
    }
}

/// The reports owed for a key in the given state: one for each of the three
/// flags that is set, in the order held, just pressed, just released.
pub open spec fn reports_of(state: KeyState) -> Seq<KeyReport> {
    (if state.held {
        seq![KeyReport::CurrentlyPressed]
    } else {
        Seq::<KeyReport>::empty()
    }) + (if state.just_pressed {
        seq![KeyReport::JustPressed]
    } else {
        Seq::<KeyReport>::empty()
    }) + (if state.just_released {
        seq![KeyReport::JustReleased]
    } else {
        Seq::<KeyReport>::empty()
    })
}

/// Lists the reports owed for a key in the given state.
pub fn key_reports(state: KeyState) -> (reports: Vec<KeyReport>)
    ensures
        reports@ == reports_of(state),
{
    let mut reports: Vec<KeyReport> = Vec::new();
    if state.held {
        reports.push(KeyReport::CurrentlyPressed);
    }
    if state.just_pressed {
        reports.push(KeyReport::JustPressed);
    }
    if state.just_released {
        reports.push(KeyReport::JustReleased);
    }
    assert(reports@ =~= reports_of(state));
    reports
}

} // verus!
