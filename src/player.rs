use vstd::prelude::*;

use crate::geometry::{
    collides_any, collides_with_any, Position, TILE,
};
use crate::input::Keys;
use crate::timer::Timer;

verus! {

/// The player-controlled actor.
#[derive(Clone, Copy, Debug)]
pub struct Player {
    pub position: Position,
    /// Whether input moves the player; cleared when an encounter fires.
    pub active: bool,
    /// Whether the last frame asked for movement on some axis.
    pub just_moved: bool,
    /// Thousandths of a tile per second.
    pub move_speed: u16,
}

/// Counts the time the player spends walking inside encounter zones.
#[derive(Clone, Copy, Debug)]
pub struct EncounterTracker {
    pub timer: Timer,
}

/// Milliseconds of qualifying walking after which an encounter fires.
pub const ENCOUNTER_MS: u32 = 1500;

/// Sub-units covered in `dt_ms` milliseconds at `speed` thousandths of a
/// tile per second, rounded down.
pub open spec fn step_len(speed: u16, dt_ms: u32) -> int {
    (speed * TILE * dt_ms) / 1_000_000
}

/// The net delta on one axis: keys in opposite directions cancel.
pub open spec fn axis_delta(pos: bool, neg: bool, step: int) -> int {
    (if pos { step } else { 0int }) - (if neg { step } else { 0int })
}

/// Whether `p` moved by `(dx, dy)` stays within the representable plane.
pub open spec fn in_plane(p: Position, dx: int, dy: int) -> bool {
    &&& i64::MIN <= p.x + dx <= i64::MAX
    &&& i64::MIN <= p.y + dy <= i64::MAX
}

pub open spec fn shifted(p: Position, dx: int, dy: int) -> Position {
    Position { x: (p.x + dx) as i64, y: (p.y + dy) as i64, z: p.z }
}

/// `p` moved by `(dx, dy)` where that lands on no wall; otherwise `p`.
pub open spec fn try_shift(p: Position, dx: int, dy: int, walls: Seq<Position>) -> Position {
    if in_plane(p, dx, dy) && !collides_any(shifted(p, dx, dy), walls) {
        shifted(p, dx, dy)
    } else {
        p
    }
}

/// Where an active player at `p` ends up: the horizontal move is tried
/// first, then the vertical one from wherever that left the player.
pub open spec fn moved_position(p: Position, keys: Keys, step: int, walls: Seq<Position>) -> Position {
    let dx = axis_delta(keys.right_held(), keys.left_held(), step);
    let dy = axis_delta(keys.up_held(), keys.down_held(), step);
    let p1 = if dx != 0 { try_shift(p, dx, 0, walls) } else { p };
    if dy != 0 { try_shift(p1, 0, dy, walls) } else { p1 }
}

/// Whether `keys` ask for a non-zero move on some axis.
pub open spec fn requests_move(keys: Keys, step: int) -> bool {
    axis_delta(keys.right_held(), keys.left_held(), step) != 0
        || axis_delta(keys.up_held(), keys.down_held(), step) != 0
}

/// The player after one frame of movement.
pub open spec fn after_movement(player: Player, keys: Keys, dt_ms: u32, walls: Seq<Position>) -> Player {
    if !player.active {
        Player { just_moved: false, ..player }
    } else {
        let step = step_len(player.move_speed, dt_ms);
        Player {
            position: moved_position(player.position, keys, step, walls),
            just_moved: requests_move(keys, step),
            ..player
        }
    }
}

/// Moves `p` by `(dx, dy)` unless that leaves the plane or lands on a wall.
fn shift_unless_blocked(p: Position, dx: i64, dy: i64, walls: &Vec<Position>) -> (r: Position)
    ensures
        r == try_shift(p, dx as int, dy as int, walls@),
{
    let nx: i128 = p.x as i128 + dx as i128;
    let ny: i128 = p.y as i128 + dy as i128;
    if nx < i64::MIN as i128 || nx > i64::MAX as i128 || ny < i64::MIN as i128 || ny
        > i64::MAX as i128 {
        return p;
    }
    let target = Position { x: nx as i64, y: ny as i64, z: p.z };
    if collides_with_any(target, walls) {
        p
    } else {
        target
    }
}

/// One frame of player movement: keys give a delta per axis, and each axis
/// is applied on its own, horizontal first, unless it would land on a wall.
/// `just_moved` records whether some axis asked for movement, blocked or
/// not. An inactive player stays put.
pub fn player_movement(player: &mut Player, walls: &Vec<Position>, keys: Keys, dt_ms: u32)
    ensures
        *final(player) == after_movement(*old(player), keys, dt_ms, walls@),
        !old(player).active ==> final(player).position == old(player).position
            && !final(player).just_moved,
{
    player.just_moved = false;
    if !player.active {
        return;
    }
    proof {
        let sp = player.move_speed as int;
        let dt = dt_ms as int;
        assert(0 <= sp * 1000 * dt <= 65535 * 1000 * 4294967295) by (nonlinear_arith)
            requires
                0 <= sp <= 65535,
                0 <= dt <= 4294967295,
        ;
    }
    let step: i64 = (player.move_speed as i64) * TILE * (dt_ms as i64) / 1_000_000;
    let mut y_delta: i64 = 0;
    if keys.w || keys.up {
        y_delta = y_delta + step;
    }
    if keys.s || keys.down {
        y_delta = y_delta - step;
    }
    let mut x_delta: i64 = 0;
    if keys.a || keys.left {
        x_delta = x_delta - step;
    }
    if keys.d || keys.right {
        x_delta = x_delta + step;
    }
    if x_delta != 0 {
        player.just_moved = true;
        player.position = shift_unless_blocked(player.position, x_delta, 0, walls);
    }
    if y_delta != 0 {
        player.just_moved = true;
        player.position = shift_unless_blocked(player.position, 0, y_delta, walls);
    }
}

/// Whether this frame counts towards an encounter: the player asked to move
/// and stands on some encounter zone.
pub open spec fn qualifies(player: Player, zones: Seq<Position>) -> bool {
    player.just_moved && collides_any(player.position, zones)
}

/// Whether a qualifying frame of `delta_ms` completes the tracker's timer.
pub open spec fn fires(tracker: EncounterTracker, delta_ms: int) -> bool {
    tracker.timer.elapsed_ms + delta_ms >= tracker.timer.duration_ms
}

/// One frame of encounter checking. On a qualifying frame the timer runs
/// for `delta_ms`; otherwise nothing changes. When the timer completes, the
/// player is made inactive and `true` is returned: the caller then asks for
/// combat.
pub fn player_encounter_checking(
    player: &mut Player,
    tracker: &mut EncounterTracker,
    zones: &Vec<Position>,
    delta_ms: u32,
) -> (fired: bool)
    requires
        old(tracker).timer.wf(),
    ensures
        final(tracker).timer.wf(),
        qualifies(*old(player), zones@) ==> final(tracker).timer == old(tracker).timer.ticked(
            delta_ms as int,
        ),
        !qualifies(*old(player), zones@) ==> *final(tracker) == *old(tracker),
        fired == (qualifies(*old(player), zones@) && fires(*old(tracker), delta_ms as int)),
        *final(player) == (if fired {
            Player { active: false, ..*old(player) }
        } else {
            *old(player)
        }),
{
    if player.just_moved && collides_with_any(player.position, zones) {
        tracker.timer.tick(delta_ms);
        if tracker.timer.just_finished() {
            player.active = false;
            return true;
        }
    }
    false
}

/// The player as it enters the game: two tiles right and two down from the
/// origin, drawn above the map, active, at three tiles per second.
pub open spec fn initial_player() -> Player {
    Player {
        position: Position { x: (2 * TILE) as i64, y: (-2 * TILE) as i64, z: 900 },
        active: true,
        just_moved: false,
        move_speed: 3000,
    }
}

/// Creates the player and its encounter tracker.
pub fn spawn_player() -> (r: (Player, EncounterTracker))
    ensures
        r.0 == initial_player(),
        r.1.timer.wf(),
        r.1.timer.duration_ms == ENCOUNTER_MS,
        r.1.timer.elapsed_ms == 0,
        r.1.timer.times_finished == 0,
{
    let player = Player {
        position: Position { x: 2 * TILE, y: -2 * TILE, z: 900 },
        active: true,
        just_moved: false,
        move_speed: 3000,
    };
    (player, EncounterTracker { timer: Timer::from_millis(ENCOUNTER_MS) })
}

} // verus!
