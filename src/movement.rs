//! Moving an entity by a delta, checked against the tile map.
use vstd::prelude::*;
use crate::components::Position;
use crate::map::{TileType, map_len, MAP_WIDTH, MAP_HEIGHT};

verus! {

/// `v` limited to `lo ..= hi`.
pub open spec fn clamp(v: int, lo: int, hi: int) -> int {
    if v < lo {
        lo
    } else if v > hi {
        hi
    } else {
        v
    }
}

/// The map index that a move from `p` by `(dx, dy)` looks up.
pub open spec fn candidate_index(p: Position, dx: i32, dy: i32) -> int {
    (p.y + dy) * MAP_WIDTH + (p.x + dx)
}

/// What a move may be asked on: a map of the right size, a destination
/// whose coordinates fit in an `i32`, and (unless the move stays in place)
/// a looked-up index that lies inside the map.
pub open spec fn move_allowed(map: Seq<TileType>, p: Position, dx: i32, dy: i32) -> bool {
    &&& map.len() == map_len()
    &&& i32::MIN <= p.x + dx <= i32::MAX
    &&& i32::MIN <= p.y + dy <= i32::MAX
    &&& (dx == 0 && dy == 0) || 0 <= candidate_index(p, dx, dy) < map_len()
}

/// The outcome of a move: whether it is taken, and the position after it.
pub open spec fn move_result(map: Seq<TileType>, p: Position, dx: i32, dy: i32) -> (bool, Position) {
    if dx == 0 && dy == 0 {
        (true, p)
    } else if map[candidate_index(p, dx, dy)] == TileType::Wall {
        (false, p)
    } else {
        (
            true,
            Position {
                x: clamp(p.x + dx, 0, MAP_WIDTH - 1) as i32,
                y: clamp(p.y + dy, 0, MAP_HEIGHT - 1) as i32,
            },
        )
    }
}

/// Moves `pos` by `(dx, dy)`. A zero delta stays in place and succeeds
/// without reading the map. Otherwise the cell at the destination's index is
/// looked up: a wall refuses the move and leaves `pos` as it was; anything
/// else commits the destination with each axis clamped to the map.
pub fn try_move(map: &Vec<TileType>, pos: &mut Position, dx: i32, dy: i32) -> (moved: bool)
    requires
        move_allowed(map@, *old(pos), dx, dy),
    ensures
        (moved, *final(pos)) == move_result(map@, *old(pos), dx, dy),
{
    if dx == 0 && dy == 0 {
        return true;
    }
    let nx: i32 = pos.x + dx;
    let ny: i32 = pos.y + dy;
    let idx: i64 = (ny as i64) * 80 + (nx as i64);
    if map[idx as usize] == TileType::Wall {
        return false;
    }
    pos.x = if nx < 0 {
        0
    } else if nx > MAP_WIDTH - 1 {
        MAP_WIDTH - 1
    } else {
        nx
    };
    pos.y = if ny < 0 {
        0
    } else if ny > MAP_HEIGHT - 1 {
        MAP_HEIGHT - 1
    } else {
        ny
    };
    true
}

/// A move into a wall leaves the position unchanged and fails; a move into
/// any other cell succeeds, and away from the map's edges it shifts the
/// position by the full delta.
pub proof fn lemma_move_wall_or_floor(map: Seq<TileType>, p: Position, dx: i32, dy: i32)
    requires
        move_allowed(map, p, dx, dy),
        dx != 0 || dy != 0,
    ensures
        map[candidate_index(p, dx, dy)] == TileType::Wall ==> move_result(map, p, dx, dy) == (
        false, p),
        map[candidate_index(p, dx, dy)] != TileType::Wall && 0 <= p.x + dx < MAP_WIDTH && 0 <= p.y
            + dy < MAP_HEIGHT ==> move_result(map, p, dx, dy) == (
        true, Position { x: (p.x + dx) as i32, y: (p.y + dy) as i32 }),
{
}

/// A move that goes out past an edge of the map stops at that edge: the
/// committed coordinates always lie on the map, and an axis that would leave
/// it is set to the boundary coordinate on that side.
pub proof fn lemma_move_clamps(map: Seq<TileType>, p: Position, dx: i32, dy: i32)
    requires
        move_allowed(map, p, dx, dy),
        dx != 0 || dy != 0,
        move_result(map, p, dx, dy).0,
    ensures
        0 <= move_result(map, p, dx, dy).1.x < MAP_WIDTH,
        0 <= move_result(map, p, dx, dy).1.y < MAP_HEIGHT,
        p.x + dx < 0 ==> move_result(map, p, dx, dy).1.x == 0,
        p.x + dx >= MAP_WIDTH ==> move_result(map, p, dx, dy).1.x == MAP_WIDTH - 1,
        p.y + dy < 0 ==> move_result(map, p, dx, dy).1.y == 0,
        p.y + dy >= MAP_HEIGHT ==> move_result(map, p, dx, dy).1.y == MAP_HEIGHT - 1,
{
}

/// A zero move always succeeds, leaves the position as it was, and does not
/// depend on the map at all.
pub proof fn lemma_zero_move(map1: Seq<TileType>, map2: Seq<TileType>, p: Position)
    ensures
        move_result(map1, p, 0, 0) == (true, p),
        move_result(map1, p, 0, 0) == move_result(map2, p, 0, 0),
{
}

} // verus!
