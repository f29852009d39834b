//! The tile map: a fixed grid of walls and floors stored row by row.
use vstd::prelude::*;

verus! {

/// Width of the map, in cells.
pub const MAP_WIDTH: i32 = 80;

/// Height of the map, in cells.
pub const MAP_HEIGHT: i32 = 50;

/// Column of the reserved spawn cell (the centre of the grid).
pub const SPAWN_X: i32 = 40;

/// Row of the reserved spawn cell (the centre of the grid).
pub const SPAWN_Y: i32 = 25;

/// The terrain of one cell.
#[derive(PartialEq, Eq, Structural, Clone, Copy, Debug)]
pub enum TileType {
    Wall,
    Floor,
}

/// Number of cells in the map.
pub open spec fn map_len() -> int {
    MAP_WIDTH as int * MAP_HEIGHT as int
}

/// Whether `(x, y)` lies on the grid.
pub open spec fn in_bounds(x: int, y: int) -> bool {
    0 <= x < MAP_WIDTH && 0 <= y < MAP_HEIGHT
}

/// Row-major index of the cell `(x, y)`.
pub open spec fn index_of(x: int, y: int) -> int {
    y * MAP_WIDTH + x
}

/// Whether `(x, y)` is a border cell of the grid.
pub open spec fn is_border(x: int, y: int) -> bool {
    x == 0 || x == MAP_WIDTH - 1 || y == 0 || y == MAP_HEIGHT - 1
}

/// Whether the cell at index `i` is a border cell.
pub open spec fn is_border_index(i: int) -> bool {
    is_border(i % MAP_WIDTH as int, i / MAP_WIDTH as int)
}

/// Index of the reserved spawn cell.
pub open spec fn spawn_index() -> int {
    index_of(SPAWN_X as int, SPAWN_Y as int)
}

/// A well-formed map: the right size, walls all round, and a floor at spawn.
pub open spec fn map_wf(cells: Seq<TileType>) -> bool {
    &&& cells.len() == map_len()
    &&& forall|x: int, y: int|
        in_bounds(x, y) && is_border(x, y) ==> #[trigger] cells[index_of(x, y)] == TileType::Wall
    &&& cells[spawn_index()] == TileType::Floor
}

/// Row-major index of the cell `(x, y)`.
pub fn xy_idx(x: i32, y: i32) -> (r: usize)
    requires
        in_bounds(x as int, y as int),
    ensures
        r as int == index_of(x as int, y as int),
        r < map_len(),
{
    (y as usize) * 80 + (x as usize)
}

/// Cell coordinates are in one-to-one correspondence with the indices
/// `0 .. MAP_WIDTH * MAP_HEIGHT`: every cell has an index in range, distinct
/// cells have distinct indices, and every index in range names a cell.
pub proof fn lemma_index_bijection()
    ensures
        forall|x: int, y: int| in_bounds(x, y) ==> 0 <= #[trigger] index_of(x, y) < map_len(),
        forall|x1: int, y1: int, x2: int, y2: int|
            in_bounds(x1, y1) && in_bounds(x2, y2) && #[trigger] index_of(x1, y1)
                == #[trigger] index_of(x2, y2) ==> x1 == x2 && y1 == y2,
        forall|i: int|
            0 <= i < map_len() ==> in_bounds(i % MAP_WIDTH as int, i / MAP_WIDTH as int)
                && index_of(#[trigger] (i % MAP_WIDTH as int), i / MAP_WIDTH as int) == i,
{
    assert forall|x: int, y: int| in_bounds(x, y) implies 0 <= #[trigger] index_of(x, y) < map_len() by {
        assert(0 <= y * 80 <= 49 * 80) by (nonlinear_arith)
            requires 0 <= y < 50;
    }
    assert forall|x1: int, y1: int, x2: int, y2: int|
        in_bounds(x1, y1) && in_bounds(x2, y2) && #[trigger] index_of(x1, y1)
            == #[trigger] index_of(x2, y2) implies x1 == x2 && y1 == y2 by {
        if y1 < y2 {
            assert(y1 * 80 + 80 <= y2 * 80) by (nonlinear_arith)
                requires y1 < y2;
        } else if y2 < y1 {
            assert(y2 * 80 + 80 <= y1 * 80) by (nonlinear_arith)
                requires y2 < y1;
        }
    }
    assert forall|i: int| 0 <= i < map_len() implies in_bounds(i % MAP_WIDTH as int, i / MAP_WIDTH as int)
        && index_of(#[trigger] (i % MAP_WIDTH as int), i / MAP_WIDTH as int) == i by {
        assert(i == (i / 80) * 80 + i % 80 && 0 <= i % 80 < 80 && 0 <= i / 80 < 50) by (nonlinear_arith)
            requires 0 <= i < 4000;
    }
}

/// One random wall placement: a column and a row of the interior sampler.
pub type Sample = (i32, i32);

/// The sampler draws columns from `1 ..= MAP_WIDTH - 1` and rows from
/// `1 ..= MAP_HEIGHT - 1`.
pub open spec fn sample_in_range(s: Sample) -> bool {
    1 <= s.0 <= MAP_WIDTH - 1 && 1 <= s.1 <= MAP_HEIGHT - 1
}

/// Whether every sample lies in the sampler's range.
pub open spec fn samples_in_range(samples: Seq<Sample>) -> bool {
    forall|k: int| 0 <= k < samples.len() ==> sample_in_range(#[trigger] samples[k])
}

/// Map index of a sample.
pub open spec fn sample_index(s: Sample) -> int {
    index_of(s.0 as int, s.1 as int)
}

/// Whether the sample at position `k` is placed as a wall: every sample is,
/// but one that falls on the reserved spawn cell.
pub open spec fn placed(samples: Seq<Sample>, k: int) -> bool {
    sample_index(samples[k]) != spawn_index()
}

/// Whether some placed sample falls on the cell at index `i`.
pub open spec fn wall_placed_at(samples: Seq<Sample>, i: int) -> bool {
    exists|k: int| 0 <= k < samples.len() && #[trigger] sample_index(samples[k]) == i && i != spawn_index()
}

/// The map that a sequence of samples yields: walls on the border and at
/// every placed sample, floor everywhere else.
pub open spec fn map_from_samples(samples: Seq<Sample>) -> Seq<TileType> {
    Seq::new(
        map_len() as nat,
        |i: int|
            if is_border_index(i) || wall_placed_at(samples, i) {
                TileType::Wall
            } else {
                TileType::Floor
            },
    )
}

/// Number of samples that were placed as walls.
pub open spec fn placed_count(samples: Seq<Sample>) -> nat
    decreases samples.len(),
{
    if samples.len() == 0 {
        0
    } else {
        placed_count(samples.drop_last()) + if placed(samples, samples.len() - 1) {
            1nat
        } else {
            0nat
        }
    }
}

/// Number of samples that hit the reserved spawn cell and were skipped.
pub open spec fn spawn_hits(samples: Seq<Sample>) -> nat
    decreases samples.len(),
{
    if samples.len() == 0 {
        0
    } else {
        spawn_hits(samples.drop_last()) + if placed(samples, samples.len() - 1) {
            0nat
        } else {
            1nat
        }
    }
}

/// Builds the map that `samples` yield: the border is walled, then each
/// sample is made a wall unless it falls on the reserved spawn cell, which is
/// skipped (neither retried nor counted).
pub fn build_map(samples: &Vec<Sample>) -> (r: Vec<TileType>)
    requires
        samples_in_range(samples@),
    ensures
        r@ == map_from_samples(samples@),
{
    let mut cells: Vec<TileType> = Vec::new();
    let mut i: usize = 0;
    while i < 4000
        invariant
            i <= 4000,
            cells@.len() == i,
            forall|j: int|
                0 <= j < i ==> #[trigger] cells@[j] == (if is_border_index(j) {
                    TileType::Wall
                } else {
                    TileType::Floor
                }),
        decreases 4000 - i,
    {
        let x: usize = i % 80;
        let y: usize = i / 80;
        if x == 0 || x == 79 || y == 0 || y == 49 {
            cells.push(TileType::Wall);
        } else {
            cells.push(TileType::Floor);
        }
        i += 1;
    }
    let spawn: usize = xy_idx(SPAWN_X, SPAWN_Y);
    let mut k: usize = 0;
    while k < samples.len()
        invariant
            samples_in_range(samples@),
            k <= samples@.len(),
            spawn as int == spawn_index(),
            cells@.len() == map_len(),
            forall|j: int|
                0 <= j < map_len() ==> #[trigger] cells@[j] == (if is_border_index(j)
                    || wall_placed_at(samples@.take(k as int), j) {
                    TileType::Wall
                } else {
                    TileType::Floor
                }),
        decreases samples@.len() - k,
    {
        let s = samples[k];
        assert(sample_in_range(samples@[k as int]));
        let idx = xy_idx(s.0, s.1);
        if idx != spawn {
            cells.set(idx, TileType::Wall);
        }
        proof {
            let prev = samples@.take(k as int);
            let next = samples@.take(k + 1);
            assert forall|j: int| 0 <= j < map_len() implies
                wall_placed_at(next, j) == (wall_placed_at(prev, j) || (j == idx && idx != spawn)) by {
                if wall_placed_at(prev, j) {
                    let w = choose|w: int| 0 <= w < prev.len() && #[trigger] sample_index(prev[w]) == j
                        && j != spawn_index();
                    assert(next[w] == prev[w]);
                }
                if j == idx && idx != spawn {
                    assert(sample_index(next[k as int]) == j);
                }
                if wall_placed_at(next, j) {
                    let w = choose|w: int| 0 <= w < next.len() && #[trigger] sample_index(next[w]) == j
                        && j != spawn_index();
                    if w < k {
                        assert(prev[w] == next[w]);
                    }
                }
            }
        }
        k += 1;
    }
    assert(samples@.take(samples@.len() as int) =~= samples@);
    assert(cells@ =~= map_from_samples(samples@));
    cells
}

/// Every map built from in-range samples is well formed: each border cell
/// is a wall and the reserved spawn cell is a floor.
pub proof fn lemma_generated_map_wf(samples: Seq<Sample>)
    requires
        samples_in_range(samples),
    ensures
        map_wf(map_from_samples(samples)),
{
    let m = map_from_samples(samples);
    assert forall|x: int, y: int| in_bounds(x, y) && is_border(x, y) implies #[trigger] m[index_of(
        x,
        y,
    )] == TileType::Wall by {
        lemma_index_bijection();
        assert(index_of(x, y) % 80 == x && index_of(x, y) / 80 == y) by (nonlinear_arith)
            requires 0 <= x < 80, index_of(x, y) == y * 80 + x;
    }
    assert(spawn_index() == 2040);
    assert(!is_border_index(2040));
    assert(!wall_placed_at(samples, 2040));
}

/// The number of walls placed is the number of samples requested less the
/// samples that hit the reserved spawn cell, and never more than requested.
pub proof fn lemma_placed_count(samples: Seq<Sample>)
    ensures
        placed_count(samples) == samples.len() - spawn_hits(samples),
        placed_count(samples) <= samples.len(),
    decreases samples.len(),
{
    if samples.len() > 0 {
        lemma_placed_count(samples.drop_last());
    }
}

/// The interior cells that the samples turn into walls.
pub open spec fn placed_cells(samples: Seq<Sample>) -> Set<int> {
    Set::new(|i: int| wall_placed_at(samples, i))
}

/// The interior walls of a map built from samples are exactly the cells of
/// the placed samples, and there are never more of them than samples
/// placed, hence never more than samples requested.
pub proof fn lemma_interior_walls(samples: Seq<Sample>)
    ensures
        placed_cells(samples).finite(),
        placed_cells(samples).len() <= placed_count(samples),
        placed_count(samples) <= samples.len(),
        forall|i: int|
            0 <= i < map_len() && !is_border_index(i) ==> (map_from_samples(samples)[i]
                == TileType::Wall <==> #[trigger] placed_cells(samples).contains(i)),
    decreases samples.len(),
{
    lemma_placed_count(samples);
    if samples.len() == 0 {
        assert(placed_cells(samples) =~= Set::<int>::empty());
    } else {
        let prev = samples.drop_last();
        let k = samples.len() - 1;
        let x = sample_index(samples[k]);
        lemma_interior_walls(prev);
        assert forall|i: int| #[trigger] wall_placed_at(samples, i) == (wall_placed_at(prev, i) || (
        i == x && placed(samples, k))) by {
            if wall_placed_at(prev, i) {
                let w = choose|w: int| 0 <= w < prev.len() && #[trigger] sample_index(prev[w]) == i
                    && i != spawn_index();
                assert(samples[w] == prev[w]);
            }
            if wall_placed_at(samples, i) {
                let w = choose|w: int| 0 <= w < samples.len() && #[trigger] sample_index(samples[w])
                    == i && i != spawn_index();
                if w < k {
                    assert(prev[w] == samples[w]);
                }
            }
        }
        if placed(samples, k) {
            assert(placed_cells(samples) =~= placed_cells(prev).insert(x));
        } else {
            assert(placed_cells(samples) =~= placed_cells(prev));
        }
    }
}

/// A map generated at random, with the samples it was built from and the
/// number of walls that were placed.
pub struct GeneratedMap {
    pub cells: Vec<TileType>,
    pub samples: Vec<Sample>,
    pub placed_walls: usize,
}

/// Generates a map: walls all round, then `wall_count` uniform samples over
/// the interior, each made a wall unless it hits the reserved spawn cell.
/// No connectivity check is made.
pub fn generate(wall_count: u32) -> (r: GeneratedMap)
    ensures
        r.samples@.len() == wall_count,
        samples_in_range(r.samples@),
        r.cells@ == map_from_samples(r.samples@),
        map_wf(r.cells@),
        r.placed_walls == placed_count(r.samples@),
        r.placed_walls == wall_count - spawn_hits(r.samples@),
        r.placed_walls <= wall_count,
{
    let mut rng = rltk::RandomNumberGenerator::new();
    let mut samples: Vec<Sample> = Vec::new();
    let mut placed_walls: usize = 0;
    let mut n: u32 = 0;
    while n < wall_count
        invariant
            n <= wall_count,
            samples@.len() == n,
            samples_in_range(samples@),
            placed_walls == placed_count(samples@),
        decreases wall_count - n,
    {
        let x = rng.roll_dice(1, MAP_WIDTH - 1);
        let y = rng.roll_dice(1, MAP_HEIGHT - 1);
        let ghost before = samples@;
        samples.push((x, y));
        assert(samples@.drop_last() =~= before);
        proof {
            lemma_placed_count(before);
        }
        if xy_idx(x, y) != xy_idx(SPAWN_X, SPAWN_Y) {
            placed_walls += 1;
        }
        n += 1;
    }
    let cells = build_map(&samples);
    proof {
        lemma_generated_map_wf(samples@);
        lemma_placed_count(samples@);
    }
    GeneratedMap { cells, samples, placed_walls }
}

/// A fresh map with four hundred random wall samples.
pub fn new_map() -> (r: Vec<TileType>)
    ensures
        map_wf(r@),
{
    generate(400).cells
}

} // verus!
