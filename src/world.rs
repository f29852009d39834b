//! The world: the tile map and an entity/component store laid out as dense
//! per-component arrays indexed by entity slot, each slot with a generation
//! that tells a stale id from a live one.
use vstd::prelude::*;
use crate::components::{Position, Renderable};
use crate::map::TileType;
use crate::movement::{move_allowed, move_result, try_move};

verus! {

/// An entity: a slot in the store and the generation of that slot it was
/// created under.
#[derive(PartialEq, Eq, Structural, Clone, Copy, Debug)]
pub struct EntityId {
    pub index: usize,
    pub generation: u32,
}

/// The world as a mathematical value: per slot its generation, whether it
/// is live, and its components; the destroys that wait for the next
/// `maintain`; and the map.
pub struct WorldModel {
    pub generations: Seq<u32>,
    pub alive: Seq<bool>,
    pub positions: Seq<Option<Position>>,
    pub renderables: Seq<Option<Renderable>>,
    pub players: Seq<bool>,
    pub pending: Seq<EntityId>,
    pub map: Seq<TileType>,
}

impl WorldModel {
    /// Whether `e` names a live entity.
    pub open spec fn live(self, e: EntityId) -> bool {
        &&& e.index < self.generations.len()
        &&& self.alive[e.index as int]
        &&& self.generations[e.index as int] == e.generation
    }

    /// The slots agree in number, and a dead slot holds no component.
    pub open spec fn wf(self) -> bool {
        &&& self.alive.len() == self.generations.len()
        &&& self.positions.len() == self.generations.len()
        &&& self.renderables.len() == self.generations.len()
        &&& self.players.len() == self.generations.len()
        &&& forall|i: int|
            0 <= i < self.generations.len() && !#[trigger] self.alive[i] ==> self.positions[i] is None
                && self.renderables[i] is None && !self.players[i]
    }

    /// Whether slot `i` is dead and its generation can still grow, so that
    /// it can be handed out again.
    pub open spec fn reusable(self, i: int) -> bool {
        !self.alive[i] && self.generations[i] < u32::MAX
    }

    /// Whether slot `i` is live and one of `pending` names it.
    pub open spec fn destroyed_by(self, pending: Seq<EntityId>, i: int) -> bool {
        &&& self.alive[i]
        &&& exists|k: int|
            0 <= k < pending.len() && (#[trigger] pending[k]).index == i && pending[k].generation
                == self.generations[i]
    }

    /// The entities among the first `n` slots that have both a position and
    /// a renderable, in slot order, with those two components.
    pub open spec fn drawables(self, n: int) -> Seq<(EntityId, Position, Renderable)>
        decreases n,
    {
        if n <= 0 {
            Seq::empty()
        } else {
            let prev = self.drawables(n - 1);
            let i = n - 1;
            if self.alive[i] && self.positions[i] is Some && self.renderables[i] is Some {
                prev.push((self.id_at(i), self.positions[i]->0, self.renderables[i]->0))
            } else {
                prev
            }
        }
    }

    /// The position that slot `i` holds after every player moves by
    /// `(dx, dy)`: a player with a position that may make the move takes
    /// the move's outcome; any other slot keeps its position.
    pub open spec fn moved_position(self, i: int, dx: i32, dy: i32) -> Option<Position> {
        if self.players[i] && self.positions[i] is Some && move_allowed(
            self.map,
            self.positions[i]->0,
            dx,
            dy,
        ) {
            Some(move_result(self.map, self.positions[i]->0, dx, dy).1)
        } else {
            self.positions[i]
        }
    }

    /// The id of the live entity in slot `i`.
    pub open spec fn id_at(self, i: int) -> EntityId {
        EntityId { index: i as usize, generation: self.generations[i] }
    }
}

/// The map and every entity with its components.
pub struct World {
    generations: Vec<u32>,
    alive: Vec<bool>,
    positions: Vec<Option<Position>>,
    renderables: Vec<Option<Renderable>>,
    players: Vec<bool>,
    pending: Vec<EntityId>,
    map: Vec<TileType>,
}

impl View for World {
    type V = WorldModel;

    closed spec fn view(&self) -> WorldModel {
        WorldModel {
            generations: self.generations@,
            alive: self.alive@,
            positions: self.positions@,
            renderables: self.renderables@,
            players: self.players@,
            pending: self.pending@,
            map: self.map@,
        }
    }
}

impl World {
    /// A world on `map` with no entities.
    pub fn new(map: Vec<TileType>) -> (r: World)
        ensures
            r@.wf(),
            r@.generations.len() == 0,
            r@.pending.len() == 0,
            r@.map == map@,
    {
        World {
            generations: Vec::new(),
            alive: Vec::new(),
            positions: Vec::new(),
            renderables: Vec::new(),
            players: Vec::new(),
            pending: Vec::new(),
            map,
        }
    }

    /// The map's cells.
    pub fn map(&self) -> (r: &Vec<TileType>)
        ensures
            r@ == self@.map,
    {
        &self.map
    }

    /// Whether `e` names a live entity.
    pub fn is_alive(&self, e: EntityId) -> (r: bool)
        requires
            self@.wf(),
        ensures
            r == self@.live(e),
    {
        e.index < self.generations.len() && self.alive[e.index] && self.generations[e.index]
            == e.generation
    }

    /// Creates an entity with no components under a fresh id. The first
    /// dead slot whose generation can still grow is reused under the next
    /// generation; failing that, a new slot is added. Every other slot is
    /// left as it was.
    pub fn create_entity(&mut self) -> (r: EntityId)
        requires
            old(self)@.wf(),
            old(self)@.generations.len() < usize::MAX,
        ensures
            final(self)@.wf(),
            !old(self)@.live(r),
            final(self)@.live(r),
            final(self)@.positions[r.index as int] is None,
            final(self)@.renderables[r.index as int] is None,
            !final(self)@.players[r.index as int],
            final(self)@.pending == old(self)@.pending,
            final(self)@.map == old(self)@.map,
            (exists|i: int| 0 <= i < old(self)@.generations.len() && old(self)@.reusable(i)) ==> {
                &&& r.index < old(self)@.generations.len()
                &&& old(self)@.reusable(r.index as int)
                &&& forall|i: int| 0 <= i < r.index ==> !old(self)@.reusable(i)
                &&& r.generation == old(self)@.generations[r.index as int] + 1
                &&& final(self)@.generations.len() == old(self)@.generations.len()
            },
            (forall|i: int| 0 <= i < old(self)@.generations.len() ==> !old(self)@.reusable(i)) ==> {
                &&& r.index == old(self)@.generations.len()
                &&& r.generation == 0
                &&& final(self)@.generations.len() == old(self)@.generations.len() + 1
            },
            forall|i: int|
                0 <= i < old(self)@.generations.len() && i != r.index ==> {
                    &&& final(self)@.generations[i] == old(self)@.generations[i]
                    &&& final(self)@.alive[i] == old(self)@.alive[i]
                    &&& final(self)@.positions[i] == old(self)@.positions[i]
                    &&& final(self)@.renderables[i] == old(self)@.renderables[i]
                    &&& final(self)@.players[i] == old(self)@.players[i]
                },
    {
        let mut i: usize = 0;
        while i < self.generations.len()
            invariant
                self@ == old(self)@,
                self@.wf(),
                i <= self@.generations.len(),
                forall|j: int| 0 <= j < i ==> !old(self)@.reusable(j),
            decreases self@.generations.len() - i,
        {
            if !self.alive[i] && self.generations[i] < u32::MAX {
                let g = self.generations[i] + 1;
                self.generations.set(i, g);
                self.alive.set(i, true);
                return EntityId { index: i, generation: g };
            }
            i += 1;
        }
        let index = self.generations.len();
        self.generations.push(0);
        self.alive.push(true);
        self.positions.push(None);
        self.renderables.push(None);
        self.players.push(false);
        EntityId { index, generation: 0 }
    }

    /// Sets the position of the live entity `e`.
    pub fn insert_position(&mut self, e: EntityId, p: Position)
        requires
            old(self)@.wf(),
            old(self)@.live(e),
        ensures
            final(self)@ == (WorldModel {
                positions: old(self)@.positions.update(e.index as int, Some(p)),
                ..old(self)@
            }),
            final(self)@.wf(),
    {
        self.positions.set(e.index, Some(p));
    }

    /// Sets how the live entity `e` is drawn.
    pub fn insert_renderable(&mut self, e: EntityId, r: Renderable)
        requires
            old(self)@.wf(),
            old(self)@.live(e),
        ensures
            final(self)@ == (WorldModel {
                renderables: old(self)@.renderables.update(e.index as int, Some(r)),
                ..old(self)@
            }),
            final(self)@.wf(),
    {
        self.renderables.set(e.index, Some(r));
    }

    /// Marks the live entity `e` as the player.
    pub fn insert_player(&mut self, e: EntityId)
        requires
            old(self)@.wf(),
            old(self)@.live(e),
        ensures
            final(self)@ == (WorldModel {
                players: old(self)@.players.update(e.index as int, true),
                ..old(self)@
            }),
            final(self)@.wf(),
    {
        self.players.set(e.index, true);
    }

    /// Removes the position of the live entity `e`.
    pub fn remove_position(&mut self, e: EntityId)
        requires
            old(self)@.wf(),
            old(self)@.live(e),
        ensures
            final(self)@ == (WorldModel {
                positions: old(self)@.positions.update(e.index as int, None),
                ..old(self)@
            }),
            final(self)@.wf(),
    {
        self.positions.set(e.index, None);
    }

    /// Removes how the live entity `e` is drawn.
    pub fn remove_renderable(&mut self, e: EntityId)
        requires
            old(self)@.wf(),
            old(self)@.live(e),
        ensures
            final(self)@ == (WorldModel {
                renderables: old(self)@.renderables.update(e.index as int, None),
                ..old(self)@
            }),
            final(self)@.wf(),
    {
        self.renderables.set(e.index, None);
    }

    /// Removes the player marker from the live entity `e`.
    pub fn remove_player(&mut self, e: EntityId)
        requires
            old(self)@.wf(),
            old(self)@.live(e),
        ensures
            final(self)@ == (WorldModel {
                players: old(self)@.players.update(e.index as int, false),
                ..old(self)@
            }),
            final(self)@.wf(),
    {
        self.players.set(e.index, false);
    }

    /// The position of the live entity `e`, if it has one.
    pub fn position(&self, e: EntityId) -> (r: Option<Position>)
        requires
            self@.wf(),
            self@.live(e),
        ensures
            r == self@.positions[e.index as int],
    {
        self.positions[e.index]
    }

    /// How the live entity `e` is drawn, if it is.
    pub fn renderable(&self, e: EntityId) -> (r: Option<Renderable>)
        requires
            self@.wf(),
            self@.live(e),
        ensures
            r == self@.renderables[e.index as int],
    {
        self.renderables[e.index]
    }

    /// Whether the live entity `e` is the player.
    pub fn is_player(&self, e: EntityId) -> (r: bool)
        requires
            self@.wf(),
            self@.live(e),
        ensures
            r == self@.players[e.index as int],
    {
        self.players[e.index]
    }

    /// Applies the destroys asked for since the last call: each live entity
    /// that one of them names loses all its components and its slot becomes
    /// dead; ids that are no longer live are ignored. Every other slot is
    /// left as it was.
    pub fn maintain(&mut self)
        requires
            old(self)@.wf(),
        ensures
            final(self)@.wf(),
            final(self)@.pending.len() == 0,
            final(self)@.map == old(self)@.map,
            final(self)@.generations == old(self)@.generations,
            forall|i: int|
                0 <= i < old(self)@.generations.len() ==> if old(self)@.destroyed_by(
                    old(self)@.pending,
                    i,
                ) {
                    &&& !final(self)@.alive[i]
                    &&& final(self)@.positions[i] is None
                    &&& final(self)@.renderables[i] is None
                    &&& !final(self)@.players[i]
                } else {
                    &&& final(self)@.alive[i] == old(self)@.alive[i]
                    &&& final(self)@.positions[i] == old(self)@.positions[i]
                    &&& final(self)@.renderables[i] == old(self)@.renderables[i]
                    &&& final(self)@.players[i] == old(self)@.players[i]
                },
    {
        let ghost start = self@;
        let mut k: usize = 0;
        while k < self.pending.len()
            invariant
                self@.wf(),
                k <= self@.pending.len(),
                self@.pending == start.pending,
                self@.map == start.map,
                self@.generations == start.generations,
                forall|i: int|
                    0 <= i < start.generations.len() ==> if start.destroyed_by(
                        start.pending.take(k as int),
                        i,
                    ) {
                        &&& !self@.alive[i]
                        &&& self@.positions[i] is None
                        &&& self@.renderables[i] is None
                        &&& !self@.players[i]
                    } else {
                        &&& self@.alive[i] == start.alive[i]
                        &&& self@.positions[i] == start.positions[i]
                        &&& self@.renderables[i] == start.renderables[i]
                        &&& self@.players[i] == start.players[i]
                    },
            decreases self@.pending.len() - k,
        {
            let e = self.pending[k];
            let ghost before = self@;
            if self.is_alive(e) {
                self.alive.set(e.index, false);
                self.positions.set(e.index, None);
                self.renderables.set(e.index, None);
                self.players.set(e.index, false);
            }
            proof {
                let prev = start.pending.take(k as int);
                let next = start.pending.take(k + 1);
                assert forall|i: int| 0 <= i < start.generations.len() implies start.destroyed_by(next, i)
                    == (start.destroyed_by(prev, i) || (start.alive[i] && e.index == i
                    && e.generation == start.generations[i])) by {
                    if start.destroyed_by(prev, i) {
                        let w = choose|w: int| 0 <= w < prev.len() && (#[trigger] prev[w]).index == i
                            && prev[w].generation == start.generations[i];
                        assert(next[w] == prev[w]);
                    }
                    if start.alive[i] && e.index == i && e.generation == start.generations[i] {
                        assert(next[k as int] == e);
                    }
                    if start.destroyed_by(next, i) {
                        let w = choose|w: int| 0 <= w < next.len() && (#[trigger] next[w]).index == i
                            && next[w].generation == start.generations[i];
                        if w < k {
                            assert(prev[w] == next[w]);
                        }
                    }
                }
            }
            k += 1;
        }
        proof {
            assert(start.pending.take(start.pending.len() as int) =~= start.pending);
        }
        self.pending = Vec::new();
    }

    /// Every entity that has a position and a renderable, in slot order,
    /// with those two components: what is drawn over the map.
    pub fn drawables(&self) -> (r: Vec<(EntityId, Position, Renderable)>)
        requires
            self@.wf(),
        ensures
            r@ == self@.drawables(self@.generations.len() as int),
    {
        let mut r: Vec<(EntityId, Position, Renderable)> = Vec::new();
        let mut i: usize = 0;
        while i < self.generations.len()
            invariant
                self@.wf(),
                i <= self@.generations.len(),
                r@ == self@.drawables(i as int),
            decreases self@.generations.len() - i,
        {
            if self.alive[i] {
                match (self.positions[i], self.renderables[i]) {
                    (Some(p), Some(d)) => {
                        r.push((EntityId { index: i, generation: self.generations[i] }, p, d));
                    },
                    _ => {},
                }
            }
            i += 1;
        }
        r
    }

    /// Moves the live entity `e`, which has a position, by `(dx, dy)` on
    /// the world's map, and reports whether the move was taken.
    pub fn attempt_move(&mut self, e: EntityId, dx: i32, dy: i32) -> (moved: bool)
        requires
            old(self)@.wf(),
            old(self)@.live(e),
            old(self)@.positions[e.index as int] is Some,
            move_allowed(old(self)@.map, old(self)@.positions[e.index as int]->0, dx, dy),
        ensures
            final(self)@.wf(),
            (moved, final(self)@.positions[e.index as int]->0) == move_result(
                old(self)@.map,
                old(self)@.positions[e.index as int]->0,
                dx,
                dy,
            ),
            final(self)@ == (WorldModel {
                positions: old(self)@.positions.update(
                    e.index as int,
                    Some(final(self)@.positions[e.index as int]->0),
                ),
                ..old(self)@
            }),
    {
        let mut p = self.positions[e.index].unwrap();
        let moved = try_move(&self.map, &mut p, dx, dy);
        self.positions.set(e.index, Some(p));
        moved
    }

    /// Moves every player that has a position by `(dx, dy)`. A player whose
    /// move could not be asked of the map (its looked-up index falls off the
    /// map) stays where it is.
    pub fn try_move_player(&mut self, dx: i32, dy: i32)
        requires
            old(self)@.wf(),
        ensures
            final(self)@.wf(),
            final(self)@ == (WorldModel {
                positions: Seq::new(
                    old(self)@.generations.len(),
                    |i: int| old(self)@.moved_position(i, dx, dy),
                ),
                ..old(self)@
            }),
    {
        let ghost start = self@;
        let mut i: usize = 0;
        while i < self.generations.len()
            invariant
                self@.wf(),
                i <= self@.generations.len(),
                self@ == (WorldModel { positions: self@.positions, ..start }),
                self@.positions.len() == start.generations.len(),
                forall|j: int| 0 <= j < i ==> self@.positions[j] == start.moved_position(j, dx, dy),
                forall|j: int|
                    i <= j < start.generations.len() ==> self@.positions[j] == start.positions[j],
            decreases self@.generations.len() - i,
        {
            if self.players[i] {
                match self.positions[i] {
                    Some(p) => {
                        if move_possible(&self.map, p, dx, dy) {
                            let mut q = p;
                            try_move(&self.map, &mut q, dx, dy);
                            self.positions.set(i, Some(q));
                        }
                    },
                    None => {},
                }
            }
            i += 1;
        }
        proof {
            assert(self@.positions =~= Seq::new(
                start.generations.len(),
                |i: int| start.moved_position(i, dx, dy),
            ));
        }
    }

    /// Asks for `e` to be destroyed. The request waits for the next
    /// `maintain`, so queries and iteration until then see `e` unchanged.
    pub fn destroy_entity(&mut self, e: EntityId)
        requires
            old(self)@.wf(),
        ensures
            final(self)@ == (WorldModel { pending: old(self)@.pending.push(e), ..old(self)@ }),
            final(self)@.wf(),
    {
        self.pending.push(e);
    }
}

/// Whether a move from `p` by `(dx, dy)` may be asked of `map`.
fn move_possible(map: &Vec<TileType>, p: Position, dx: i32, dy: i32) -> (r: bool)
    ensures
        r == move_allowed(map@, p, dx, dy),
{
    let nx: i64 = p.x as i64 + dx as i64;
    let ny: i64 = p.y as i64 + dy as i64;
    if map.len() != 4000 || nx < i32::MIN as i64 || nx > i32::MAX as i64 || ny < i32::MIN as i64
        || ny > i32::MAX as i64 {
        return false;
    }
    if dx == 0 && dy == 0 {
        return true;
    }
    let idx: i64 = ny * 80 + nx;
    0 <= idx && idx < 4000
}

} // verus!
