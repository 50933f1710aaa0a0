//! The player motion controller: once per frame it pushes the player's body
//! sideways, caps its horizontal speed and launches it on a jump.
//!
//! The jump has no ground check. Whether the player touches anything is not
//! looked at, so a jump is granted in mid-air as well. This is a known gap in
//! the rules, kept as it is and not a design choice; a ground check would sit
//! in front of [`apply_jump`].

use vstd::prelude::*;

use crate::geometry::Vector2;
use crate::input::{Controls, Direction};

verus! {

/// The tag carried by the player's body and by no other.
pub const PLAYER_TAG: u128 = 1;

/// The cap on horizontal speed, in units per second.
pub const MAX_HORIZONTAL_SPEED: i32 = 300;

/// The magnitude of the sideways force applied while a direction is held.
pub const MOVE_FORCE: i32 = 1_000_000;

/// The vertical speed a jump adds, in units per second.
pub const JUMP_IMPULSE: i32 = 200;

/// What the motion rules know of a rigid body: its tag and its linear
/// velocity in whole units per second.
///
/// A caller whose speeds have fractions hands in each speed rounded away
/// from zero: such a speed is over the cap exactly when the rounded one is.
#[derive(Clone, Copy, Debug, PartialEq, Eq, Structural)]
pub struct Body {
    pub tag: u128,
    pub velocity: Vector2,
}

/// What one frame did to the player's body besides changing its velocity.
#[derive(Clone, Copy, Debug, PartialEq, Eq, Structural)]
pub struct Step {
    /// The force to add to whatever force the body has already accumulated,
    /// if a direction was asked for. Its vertical part is always zero.
    pub force: Option<Vector2>,
    /// Whether the horizontal speed was over the cap and has been set to it.
    pub capped: bool,
    /// Whether the jump impulse was added to the vertical speed.
    pub jumped: bool,
}

/// Where the player stands in a list of bodies.
#[derive(Clone, Copy, Debug, PartialEq, Eq, Structural)]
pub struct PlayerSlot {
    /// The position of the first body that carries the player tag.
    pub index: usize,
    /// How many further bodies carry the player tag.
    pub extras: usize,
}

/// How a frame of the motion controller ended.
#[derive(Clone, Copy, Debug, PartialEq, Eq, Structural)]
pub enum MotionOutcome {
    /// No body carries the player tag; nothing was changed.
    NoPlayer,
    /// The first body that carries the player tag was moved.
    Moved {
        /// The position of that body in the list.
        index: usize,
        /// What was done to it.
        step: Step,
        /// How many further bodies carry the player tag. They are left
        /// untouched; any count above zero is a fault in the world's setup.
        extras: usize,
    },
}

/// The magnitude of a speed.
pub open spec fn magnitude(v: int) -> int {
    if v < 0 {
        -v
    } else {
        v
    }
}

/// The sign of a speed: `-1`, `0` or `1`.
pub open spec fn signum(v: int) -> int {
    if v < 0 {
        -1
    } else if v == 0 {
        0
    } else {
        1
    }
}

/// Whether a horizontal speed is over the cap.
pub open spec fn exceeds_cap(vx: int) -> bool {
    magnitude(vx) > MAX_HORIZONTAL_SPEED
}

/// A horizontal speed after the cap: unchanged while its magnitude is within
/// the cap, else the cap with the sign of the speed.
pub open spec fn clamped(vx: int) -> int {
    if magnitude(vx) <= MAX_HORIZONTAL_SPEED {
        vx
    } else {
        signum(vx) * MAX_HORIZONTAL_SPEED
    }
}

/// A vertical speed after the jump rule: raised by the jump impulse when a
/// jump is asked for, else unchanged.
///
/// The rule has no ground check, so it lifts a player in mid-air too: a
/// known gap, not a design choice.
pub open spec fn lifted(vy: int, jump: bool) -> int {
    if jump {
        vy + JUMP_IMPULSE
    } else {
        vy
    }
}

/// The force that goes with an intent: the move force along the x axis in
/// the direction asked for, none without a direction.
pub open spec fn force_of(intent: Option<Direction>) -> Option<Vector2> {
    match intent {
        Some(direction) => Some(
            Vector2 { x: (direction.sign_spec() * MOVE_FORCE) as i32, y: 0 },
        ),
        None => None,
    }
}

/// Whether a body carries the player tag.
pub open spec fn is_player(body: Body) -> bool {
    body.tag == PLAYER_TAG
}

/// Whether some body of the list carries the player tag.
pub open spec fn has_player(bodies: Seq<Body>) -> bool {
    exists|i: int| 0 <= i < bodies.len() && is_player(#[trigger] bodies[i])
}

/// Whether `index` is the position of the first body that carries the player
/// tag.
pub open spec fn is_first_player(bodies: Seq<Body>, index: int) -> bool {
    &&& 0 <= index < bodies.len()
    &&& is_player(bodies[index])
    &&& forall|j: int| 0 <= j < index ==> !is_player(#[trigger] bodies[j])
}

/// The number of bodies that carry the player tag.
pub open spec fn player_count(bodies: Seq<Body>) -> nat
    decreases bodies.len(),
{
    if bodies.len() == 0 {
        0
    } else {
        player_count(bodies.drop_last()) + if is_player(bodies.last()) {
            1nat
        } else {
            0nat
        }
    }
}

/// Whether one frame under `controls` takes the player's body from `before`
/// to `after` and reports `step`.
///
/// The tag stays. The horizontal speed is capped, the vertical speed is lifted
/// on a jump and otherwise kept. The force is the one that goes with the
/// intent.
pub open spec fn moves(before: Body, controls: Controls, after: Body, step: Step) -> bool {
    &&& after.tag == before.tag
    &&& after.velocity.x == clamped(before.velocity.x as int)
    &&& after.velocity.y == lifted(before.velocity.y as int, controls.jump_requested_spec())
    &&& step.force == force_of(controls.intent_spec())
    &&& step.capped == exceeds_cap(before.velocity.x as int)
    &&& step.jumped == controls.jump_requested_spec()
}

/// Whether the horizontal half of a frame under `controls` takes the
/// player's body from `before` to `after` and reports `step`.
///
/// The tag and the vertical speed stay. The horizontal speed is capped. The
/// force is the one that goes with the intent.
pub open spec fn steers(before: Body, controls: Controls, after: Body, step: Step) -> bool {
    &&& after.tag == before.tag
    &&& after.velocity.x == clamped(before.velocity.x as int)
    &&& after.velocity.y == before.velocity.y
    &&& step.force == force_of(controls.intent_spec())
    &&& step.capped == exceeds_cap(before.velocity.x as int)
    &&& !step.jumped
}

impl MotionOutcome {
    /// The force that came with the frame, if any.
    pub open spec fn force_spec(self) -> Option<Vector2> {
        match self {
            MotionOutcome::NoPlayer => None,
            MotionOutcome::Moved { step, .. } => step.force,
        }
    }
}

/// The force a frame under `controls` applies in a world of `bodies`: the
/// force that goes with the intent if some body carries the player tag, none
/// otherwise.
pub open spec fn frame_force(controls: Controls, bodies: Seq<Body>) -> Option<Vector2> {
    if has_player(bodies) {
        force_of(controls.intent_spec())
    } else {
        None
    }
}

/// The horizontal speed of the body at `index` after a frame: capped for the
/// first body that carries the player tag, kept for every other body.
pub open spec fn horizontal_speed_after(bodies: Seq<Body>, index: int) -> int {
    if is_first_player(bodies, index) {
        clamped(bodies[index].velocity.x as int)
    } else {
        bodies[index].velocity.x as int
    }
}

/// The vertical speed of the body at `index` after a frame under `controls`:
/// lifted on a jump for the first body that carries the player tag, kept for
/// every other body.
pub open spec fn vertical_speed_after(controls: Controls, bodies: Seq<Body>, index: int) -> int {
    if is_first_player(bodies, index) {
        lifted(bodies[index].velocity.y as int, controls.jump_requested_spec())
    } else {
        bodies[index].velocity.y as int
    }
}

/// With both arrows held, or with neither, a frame applies no force,
/// whatever the other keys and the bodies are.
pub proof fn no_direction_no_force(controls: Controls, bodies: Seq<Body>)
    requires
        controls.left.held == controls.right.held,
    ensures
        controls.intent_spec() is None,
        force_of(controls.intent_spec()) is None,
        frame_force(controls, bodies) is None,
{
}

/// With exactly one arrow held and a player in the world, a frame applies
/// the move force along the x axis, to the left for the left arrow and to
/// the right for the right arrow, and nothing along the y axis.
pub proof fn one_direction_one_force(controls: Controls, bodies: Seq<Body>)
    requires
        controls.left.held != controls.right.held,
        has_player(bodies),
    ensures
        frame_force(controls, bodies) matches Some(force) && force.y == 0 && force.x == if controls.left.held {
            -MOVE_FORCE
        } else {
            MOVE_FORCE as int
        },
{
}

/// A horizontal speed within the cap, both ends included, is the same after
/// a frame, for the player as for any other body and whatever the keys.
pub proof fn speed_within_cap_is_kept(bodies: Seq<Body>, index: int)
    requires
        0 <= index < bodies.len(),
        -MAX_HORIZONTAL_SPEED <= bodies[index].velocity.x <= MAX_HORIZONTAL_SPEED,
    ensures
        horizontal_speed_after(bodies, index) == bodies[index].velocity.x,
{
}

/// A horizontal speed of the player over the cap is, after a frame, the cap
/// with the sign of the speed, whatever the keys.
pub proof fn speed_over_cap_is_cut(bodies: Seq<Body>, index: int)
    requires
        is_first_player(bodies, index),
        bodies[index].velocity.x > MAX_HORIZONTAL_SPEED || bodies[index].velocity.x
            < -MAX_HORIZONTAL_SPEED,
    ensures
        horizontal_speed_after(bodies, index) == if bodies[index].velocity.x < 0 {
            -MAX_HORIZONTAL_SPEED
        } else {
            MAX_HORIZONTAL_SPEED as int
        },
        horizontal_speed_after(bodies, index) == signum(bodies[index].velocity.x as int)
            * MAX_HORIZONTAL_SPEED,
{
}

/// After a frame the player's horizontal speed is within the cap, whatever
/// it was before and whatever the keys.
pub proof fn player_speed_is_within_cap_after(bodies: Seq<Body>, index: int)
    requires
        is_first_player(bodies, index),
    ensures
        magnitude(horizontal_speed_after(bodies, index)) <= MAX_HORIZONTAL_SPEED,
{
}

/// After a frame the player's vertical speed is up by the jump impulse if
/// the jump key went down on that frame, and is the same if it did not,
/// held or not; no other body's speed changes either way.
pub proof fn frame_lifts_on_the_edge_only(controls: Controls, bodies: Seq<Body>, index: int)
    requires
        0 <= index < bodies.len(),
    ensures
        is_first_player(bodies, index) && controls.jump.just_pressed ==> vertical_speed_after(
            controls,
            bodies,
            index,
        ) == bodies[index].velocity.y + JUMP_IMPULSE,
        !controls.jump.just_pressed ==> vertical_speed_after(controls, bodies, index)
            == bodies[index].velocity.y,
        !is_first_player(bodies, index) ==> vertical_speed_after(controls, bodies, index)
            == bodies[index].velocity.y && horizontal_speed_after(bodies, index)
            == bodies[index].velocity.x,
{
}

/// Two lists of bodies that agree on every tag hold the same number of
/// players.
pub proof fn player_count_follows_tags(a: Seq<Body>, b: Seq<Body>)
    requires
        a.len() == b.len(),
        forall|i: int| 0 <= i < a.len() ==> (#[trigger] a[i]).tag == b[i].tag,
    ensures
        player_count(a) == player_count(b),
    decreases a.len(),
{
    if a.len() > 0 {
        assert(a.last().tag == b.last().tag);
        assert forall|i: int| 0 <= i < a.drop_last().len() implies (#[trigger] a.drop_last()[i]).tag
            == b.drop_last()[i].tag by {
            assert(a[i].tag == b[i].tag);
        }
        player_count_follows_tags(a.drop_last(), b.drop_last());
    }
}

/// A list holds a player exactly when its player count is not zero.
pub proof fn player_count_counts_players(bodies: Seq<Body>)
    ensures
        has_player(bodies) <==> player_count(bodies) > 0,
    decreases bodies.len(),
{
    if bodies.len() > 0 {
        let front = bodies.drop_last();
        player_count_counts_players(front);
        if has_player(front) {
            let i = choose|i: int| 0 <= i < front.len() && is_player(#[trigger] front[i]);
            assert(is_player(bodies[i]));
        }
        if has_player(bodies) && !is_player(bodies.last()) {
            let i = choose|i: int| 0 <= i < bodies.len() && is_player(#[trigger] bodies[i]);
            assert(is_player(front[i]));
        }
        if is_player(bodies.last()) {
            assert(is_player(bodies[bodies.len() - 1]));
        }
    }
}

/// The cap holds after clamping, clamping keeps the sign of the speed, and
/// clamping twice is clamping once.
pub proof fn clamped_speed_is_within_cap(vx: int)
    ensures
        magnitude(clamped(vx)) <= MAX_HORIZONTAL_SPEED,
        signum(clamped(vx)) == signum(vx),
        clamped(clamped(vx)) == clamped(vx),
        clamped(vx) == vx <==> !exceeds_cap(vx),
{
}

/// After a frame the player's horizontal speed is within the cap, and a
/// force comes with the frame exactly when a direction was asked for; it
/// points that way along the x axis and has no vertical part.
pub proof fn moved_player_is_pushed_and_capped(
    before: Body,
    controls: Controls,
    after: Body,
    step: Step,
)
    requires
        moves(before, controls, after, step),
    ensures
        magnitude(after.velocity.x as int) <= MAX_HORIZONTAL_SPEED,
        step.force.is_some() <==> controls.intent_spec().is_some(),
        controls.intent_spec() matches Some(direction) ==> step.force == Some(
            Vector2 { x: (direction.sign_spec() * MOVE_FORCE) as i32, y: 0 },
        ),
{
}

/// The vertical speed changes only on the frame the jump key goes down:
/// then it rises by the jump impulse, and on any other frame it stays,
/// whether or not the key is held.
pub proof fn jump_follows_the_edge(before: Body, controls: Controls, after: Body, step: Step)
    requires
        moves(before, controls, after, step),
    ensures
        controls.jump.just_pressed ==> after.velocity.y == before.velocity.y + JUMP_IMPULSE,
        !controls.jump.just_pressed ==> after.velocity.y == before.velocity.y,
        step.jumped == controls.jump.just_pressed,
{
}

/// One press of the jump key lifts the player once: over the frame of the
/// press and a following frame on which the key is at most held, the
/// vertical speed rises by exactly one jump impulse.
pub proof fn held_jump_lifts_once(
    start: Body,
    press: Controls,
    between: Body,
    first: Step,
    hold: Controls,
    end: Body,
    second: Step,
)
    requires
        moves(start, press, between, first),
        moves(between, hold, end, second),
        press.jump.just_pressed,
        !hold.jump.just_pressed,
    ensures
        end.velocity.y == start.velocity.y + JUMP_IMPULSE,
        first.jumped && !second.jumped,
{
}

/// Tells whether a body carries the player tag.
pub fn carries_player_tag(body: &Body) -> (player: bool)
    ensures
        player == is_player(*body),
{
    body.tag == PLAYER_TAG
}

/// The force to apply for an intent: the move force along the x axis in the
/// direction asked for, none without a direction.
pub fn horizontal_force(intent: Option<Direction>) -> (force: Option<Vector2>)
    ensures
        force == force_of(intent),
        intent.is_some() <==> force.is_some(),
        force matches Some(f) ==> f.y == 0 && magnitude(f.x as int) == MOVE_FORCE,
{
    match intent {
        Some(direction) => Some(Vector2 { x: direction.sign() * MOVE_FORCE, y: 0 }),
        None => None,
    }
}

/// Caps a horizontal speed at [`MAX_HORIZONTAL_SPEED`], keeping its sign.
pub fn clamp_horizontal(vx: i32) -> (capped: i32)
    ensures
        capped == clamped(vx as int),
        magnitude(vx as int) <= MAX_HORIZONTAL_SPEED ==> capped == vx,
        magnitude(vx as int) > MAX_HORIZONTAL_SPEED ==> capped == signum(vx as int)
            * MAX_HORIZONTAL_SPEED,
{
    if vx > MAX_HORIZONTAL_SPEED {
        MAX_HORIZONTAL_SPEED
    } else if vx < -MAX_HORIZONTAL_SPEED {
        -MAX_HORIZONTAL_SPEED
    } else {
        vx
    }
}

/// Adds the jump impulse to a vertical speed when a jump is asked for.
///
/// There is no ground check: the impulse is added in mid-air too. This is a
/// known gap in the rules, not a design choice.
pub fn apply_jump(vy: i32, jump: bool) -> (raised: i32)
    requires
        jump ==> vy + JUMP_IMPULSE <= i32::MAX,
    ensures
        raised == lifted(vy as int, jump),
{
    if jump {
        vy + JUMP_IMPULSE
    } else {
        vy
    }
}

/// Runs the horizontal half of a frame on the player's body: the push and
/// the cap. It leaves the vertical speed alone and works on every body and
/// every state of the keys.
pub fn steer_player(body: &mut Body, controls: &Controls) -> (step: Step)
    ensures
        steers(*old(body), *controls, *final(body), step),
        controls.left.held == controls.right.held ==> step.force is None,
        !exceeds_cap(old(body).velocity.x as int) ==> final(body).velocity.x == old(
            body,
        ).velocity.x,
        exceeds_cap(old(body).velocity.x as int) ==> final(body).velocity.x == signum(
            old(body).velocity.x as int,
        ) * MAX_HORIZONTAL_SPEED,
{
    let force = horizontal_force(controls.intent());
    let vx: i32 = body.velocity.x;
    let capped: bool = vx > MAX_HORIZONTAL_SPEED || vx < -MAX_HORIZONTAL_SPEED;
    body.velocity.x = clamp_horizontal(vx);
    Step { force, capped, jumped: false }
}

/// Runs one frame of the motion rules on the player's body: the horizontal
/// half, then the jump.
pub fn step_player(body: &mut Body, controls: &Controls) -> (step: Step)
    requires
        controls.jump_requested_spec() ==> old(body).velocity.y + JUMP_IMPULSE <= i32::MAX,
    ensures
        moves(*old(body), *controls, *final(body), step),
{
    let steered = steer_player(body, controls);
    let jumped: bool = controls.jump_requested();
    body.velocity.y = apply_jump(body.velocity.y, jumped);
    Step { force: steered.force, capped: steered.capped, jumped }
}

/// Looks for the player: the place of the first body that carries the player
/// tag, and how many more bodies carry it.
pub fn locate_player(bodies: &Vec<Body>) -> (found: Option<PlayerSlot>)
    ensures
        found is None <==> !has_player(bodies@),
        found matches Some(slot) ==> is_first_player(bodies@, slot.index as int) && slot.extras
            + 1 == player_count(bodies@),
{
    let n: usize = bodies.len();
    let mut first: Option<usize> = None;
    let mut count: usize = 0;
    let mut i: usize = 0;
    while i < n
        invariant
            n == bodies.len(),
            i <= n,
            count == player_count(bodies@.take(i as int)),
            count <= i,
            match first {
                None => count == 0 && forall|j: int| 0 <= j < i ==> !is_player(#[trigger] bodies@[j]),
                Some(f) => count >= 1 && f < i && is_first_player(bodies@, f as int),
            },
        decreases n - i,
    {
        proof {
            let next = bodies@.take(i + 1);
            assert(next.drop_last() =~= bodies@.take(i as int));
            assert(next.last() == bodies@[i as int]);
        }
        if carries_player_tag(&bodies[i]) {
            if first.is_none() {
                first = Some(i);
            }
            count = count + 1;
        }
        i = i + 1;
    }
    proof {
        assert(bodies@.take(n as int) =~= bodies@);
    }
    match first {
        None => None,
        Some(index) => {
            assert(is_player(bodies@[index as int]));
            Some(PlayerSlot { index, extras: count - 1 })
        },
    }
}

/// The horizontal half of the motion controller: the push and the cap.
///
/// It looks for the first body that carries the player tag. Without one it
/// changes nothing. Otherwise it caps that body's horizontal speed, reports
/// the force that goes with the intent, and leaves every vertical speed and
/// every other body as it was. It works on every list of bodies and every
/// state of the keys.
pub fn ball_steering_system(controls: &Controls, bodies: &mut Vec<Body>) -> (outcome:
    MotionOutcome)
    ensures
        final(bodies)@.len() == old(bodies)@.len(),
        outcome is NoPlayer <==> !has_player(old(bodies)@),
        player_count(final(bodies)@) == player_count(old(bodies)@),
        outcome.force_spec() == frame_force(*controls, old(bodies)@),
        controls.left.held == controls.right.held ==> outcome.force_spec() is None,
        forall|i: int|
            0 <= i < old(bodies)@.len() ==> {
                &&& (#[trigger] final(bodies)@[i]).tag == old(bodies)@[i].tag
                &&& final(bodies)@[i].velocity.x == horizontal_speed_after(old(bodies)@, i)
                &&& final(bodies)@[i].velocity.y == old(bodies)@[i].velocity.y
            },
        match outcome {
            MotionOutcome::NoPlayer => final(bodies)@ == old(bodies)@,
            MotionOutcome::Moved { index, step, extras } => {
                &&& is_first_player(old(bodies)@, index as int)
                &&& steers(
                    old(bodies)@[index as int],
                    *controls,
                    final(bodies)@[index as int],
                    step,
                )
                &&& forall|j: int|
                    0 <= j < old(bodies)@.len() && j != index ==> final(bodies)@[j] == old(
                        bodies,
                    )@[j]
                &&& extras + 1 == player_count(old(bodies)@)
            },
        },
{
    match locate_player(bodies) {
        None => MotionOutcome::NoPlayer,
        Some(slot) => {
            let mut body: Body = bodies[slot.index];
            let step = steer_player(&mut body, controls);
            bodies.set(slot.index, body);
            proof {
                player_count_follows_tags(old(bodies)@, bodies@);
            }
            MotionOutcome::Moved { index: slot.index, step, extras: slot.extras }
        },
    }
}

/// The motion controller, run once per frame after the keys were sampled.
///
/// It looks for the first body that carries the player tag. Without one it
/// changes nothing. Otherwise it moves that body by the motion rules and
/// leaves every other body as it was, further carriers of the tag included.
///
/// The one demand is a limit of the machine: when a jump is asked for, the
/// player's vertical speed after it must fit in 32 bits. What the frame does
/// along the x axis does not depend on it: see [`ball_steering_system`].
pub fn ball_motion_system(controls: &Controls, bodies: &mut Vec<Body>) -> (outcome: MotionOutcome)
    requires
        controls.jump_requested_spec() ==> forall|i: int|
            is_first_player(old(bodies)@, i) ==> old(bodies)@[i].velocity.y + JUMP_IMPULSE
                <= i32::MAX,
    ensures
        final(bodies)@.len() == old(bodies)@.len(),
        outcome is NoPlayer <==> !has_player(old(bodies)@),
        player_count(final(bodies)@) == player_count(old(bodies)@),
        outcome.force_spec() == frame_force(*controls, old(bodies)@),
        forall|i: int|
            0 <= i < old(bodies)@.len() ==> {
                &&& (#[trigger] final(bodies)@[i]).tag == old(bodies)@[i].tag
                &&& final(bodies)@[i].velocity.x == horizontal_speed_after(old(bodies)@, i)
                &&& final(bodies)@[i].velocity.y == vertical_speed_after(
                    *controls,
                    old(bodies)@,
                    i,
                )
            },
        match outcome {
            MotionOutcome::NoPlayer => {
                &&& !has_player(old(bodies)@)
                &&& final(bodies)@ == old(bodies)@
            },
            MotionOutcome::Moved { index, step, extras } => {
                &&& is_first_player(old(bodies)@, index as int)
                &&& moves(
                    old(bodies)@[index as int],
                    *controls,
                    final(bodies)@[index as int],
                    step,
                )
                &&& forall|j: int|
                    0 <= j < old(bodies)@.len() && j != index ==> final(bodies)@[j] == old(
                        bodies,
                    )@[j]
                &&& extras + 1 == player_count(old(bodies)@)
            },
        },
{
    match locate_player(bodies) {
        None => MotionOutcome::NoPlayer,
        Some(slot) => {
            let mut body: Body = bodies[slot.index];
            let step = step_player(&mut body, controls);
            bodies.set(slot.index, body);
            proof {
                player_count_follows_tags(old(bodies)@, bodies@);
            }
            MotionOutcome::Moved { index: slot.index, step, extras: slot.extras }
        },
    }
}

/// The body monitor: visits the bodies every frame and changes nothing.
pub fn body_system(bodies: &mut Vec<Body>)
    ensures
        final(bodies)@ == old(bodies)@,
{
}

} // verus!
