use vstd::prelude::*;

verus! {

/// Sub-units in one tile. All coordinates are integers in these sub-units.
pub const TILE: i64 = 1000;

/// Width of the moving actor's square footprint: 90% of a tile, so that
/// actors do not graze obstacles at exact tile boundaries.
pub const ACTOR_SIZE: i64 = 900;

/// Width of a static obstacle's (or encounter zone's) square footprint.
pub const OBSTACLE_SIZE: i64 = 1000;

/// A point in the plane. `z` only orders drawing and plays no part in logic.
#[derive(Clone, Copy, Debug, PartialEq, Eq, Structural)]
pub struct Position {
    pub x: i64,
    pub y: i64,
    pub z: i64,
}

impl Position {
    pub fn new(x: i64, y: i64, z: i64) -> (r: Position)
        ensures
            r == (Position { x, y, z }),
    {
        Position { x, y, z }
    }
}

/// Two axis-aligned squares, centred at `a` and `b` with widths `a_size`
/// and `b_size`, overlap with a positive area.
pub open spec fn overlaps(a: Position, a_size: int, b: Position, b_size: int) -> bool {
    &&& 2 * (a.x - b.x) < a_size + b_size
    &&& 2 * (b.x - a.x) < a_size + b_size
    &&& 2 * (a.y - b.y) < a_size + b_size
    &&& 2 * (b.y - a.y) < a_size + b_size
}

/// The actor footprint at `target` overlaps the obstacle footprint at `other`.
pub open spec fn collides(target: Position, other: Position) -> bool {
    overlaps(target, ACTOR_SIZE as int, other, OBSTACLE_SIZE as int)
}

/// The actor footprint at `target` overlaps some footprint in `others`.
pub open spec fn collides_any(target: Position, others: Seq<Position>) -> bool {
    exists|i: int| 0 <= i < others.len() && #[trigger] collides(target, others[i])
}

/// Whether two axis-aligned squares overlap with a positive area; touching
/// edges do not count.
pub fn boxes_overlap(a: Position, a_size: i64, b: Position, b_size: i64) -> (r: bool)
    ensures
        r == overlaps(a, a_size as int, b, b_size as int),
{
    let s: i128 = a_size as i128 + b_size as i128;
    let dx: i128 = a.x as i128 - b.x as i128;
    let dy: i128 = a.y as i128 - b.y as i128;
    let ex: i128 = b.x as i128 - a.x as i128;
    let ey: i128 = b.y as i128 - a.y as i128;
    2 * dx < s && 2 * ex < s && 2 * dy < s && 2 * ey < s
}

/// Whether the actor, placed at `target_player_pos`, would overlap the
/// obstacle at `other_translation`.
pub fn collision_check(target_player_pos: Position, other_translation: Position) -> (r: bool)
    ensures
        r == collides(target_player_pos, other_translation),
{
    boxes_overlap(target_player_pos, ACTOR_SIZE, other_translation, OBSTACLE_SIZE)
}

/// Whether the actor, placed at `target`, would overlap any of `others`.
pub fn collides_with_any(target: Position, others: &Vec<Position>) -> (r: bool)
    ensures
        r == collides_any(target, others@),
{
    let mut i: usize = 0;
    while i < others.len()
        invariant
            i <= others.len(),
            forall|j: int| 0 <= j < i ==> !#[trigger] collides(target, others@[j]),
        decreases others.len() - i,
    {
        if collision_check(target, others[i]) {
            assert(collides(target, others@[i as int]));
            return true;
        }
        i = i + 1;
    }
    false
}

/// Overlap does not depend on which square is called the actor, provided
/// the widths travel with the squares.
pub proof fn lemma_overlap_symmetric(a: Position, a_size: int, b: Position, b_size: int)
    ensures
        overlaps(a, a_size, b, b_size) == overlaps(b, b_size, a, a_size),
{
}

/// With the actor and obstacle widths, squares whose centres are one tile
/// apart on either axis do not collide, and squares whose centres are at
/// most half a tile apart on both axes do.
pub proof fn lemma_reference_sizes(p: Position, o: Position)
    ensures
        (o.x - p.x == TILE || p.x - o.x == TILE || o.y - p.y == TILE || p.y - o.y == TILE)
            ==> !collides(p, o),
        (-TILE / 2 <= o.x - p.x <= TILE / 2 && -TILE / 2 <= o.y - p.y <= TILE / 2)
            ==> collides(p, o),
{
}

} // verus!
