use vstd::prelude::*;

use crate::game::{requested, GameState};
use crate::geometry::{collides, Position};
use crate::player::{in_plane, shifted, try_shift};
use crate::timer::Timer;

verus! {

/// A move whose target is exactly an obstacle's position is rejected: the
/// position stays as it was.
pub proof fn lemma_move_onto_obstacle_rejected(
    p: Position,
    dx: int,
    dy: int,
    walls: Seq<Position>,
    i: int,
)
    requires
        0 <= i < walls.len(),
        walls[i].x == p.x + dx,
        walls[i].y == p.y + dy,
    ensures
        try_shift(p, dx, dy, walls) == p,
{
    if in_plane(p, dx, dy) {
        assert(collides(shifted(p, dx, dy), walls[i]));
    }
}

/// A move whose target overlaps no obstacle, such as one along a wall,
/// goes through.
pub proof fn lemma_clear_move_accepted(p: Position, dx: int, dy: int, walls: Seq<Position>)
    requires
        in_plane(p, dx, dy),
        forall|i: int| 0 <= i < walls.len() ==> !collides(shifted(p, dx, dy), #[trigger] walls[i]),
    ensures
        try_shift(p, dx, dy, walls) == shifted(p, dx, dy),
        try_shift(p, dx, dy, walls).x == p.x + dx,
        try_shift(p, dx, dy, walls).y == p.y + dy,
{
}

/// Time accumulates across ticks: after a tick that does not complete the
/// timer, a second tick completes it exactly when the two together reach
/// the duration.
pub proof fn lemma_timer_accumulates(t: Timer, d1: int, d2: int)
    requires
        t.wf(),
        0 <= d1 <= u32::MAX,
        0 <= d2 <= u32::MAX,
        t.elapsed_ms + d1 < t.duration_ms,
    ensures
        t.ticked(d1).times_finished == 0,
        t.ticked(d1).elapsed_ms == t.elapsed_ms + d1,
        (t.ticked(d1).ticked(d2).times_finished > 0) <==> (t.elapsed_ms + d1 + d2
            >= t.duration_ms),
{
    let dur = t.duration_ms as int;
    let a = t.elapsed_ms + d1;
    assert(a / dur == 0 && a % dur == a) by (nonlinear_arith)
        requires
            0 <= a < dur,
    ;
    let b = a + d2;
    assert(b / dur > 0 <==> b >= dur) by (nonlinear_arith)
        requires
            dur > 0,
            b >= 0,
    ;
    assert(b / dur <= b) by (nonlinear_arith)
        requires
            dur > 0,
            b >= 0,
    ;
    assert(t.ticked(d1).elapsed_ms == a);
    assert(t.ticked(d1).ticked(d2).times_finished == b / dur);
}

/// While a transition is pending, a further request is dropped.
pub proof fn lemma_request_while_pending_dropped(pending: GameState, target: GameState)
    ensures
        requested(Some(pending), target) == Some(pending),
{
}

/// From nothing pending, two requests in a row leave only the first in
/// flight.
pub proof fn lemma_first_request_wins(first: GameState, second: GameState)
    ensures
        requested(requested(None, first), second) == Some(first),
{
}

} // verus!
