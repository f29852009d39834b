use magnus::map::{build_map, generate, new_map, xy_idx, TileType, SPAWN_X, SPAWN_Y};

fn is_border(x: i32, y: i32) -> bool {
    x == 0 || x == 79 || y == 0 || y == 49
}

fn check_wf(cells: &[TileType]) {
    assert_eq!(cells.len(), 80 * 50);
    for y in 0..50 {
        for x in 0..80 {
            if is_border(x, y) {
                assert_eq!(cells[xy_idx(x, y)], TileType::Wall);
            }
        }
    }
    assert_eq!(cells[xy_idx(SPAWN_X, SPAWN_Y)], TileType::Floor);
}

#[test]
fn index_values() {
    assert_eq!(xy_idx(0, 0), 0);
    assert_eq!(xy_idx(79, 0), 79);
    assert_eq!(xy_idx(0, 1), 80);
    assert_eq!(xy_idx(40, 25), 2040);
    assert_eq!(xy_idx(79, 49), 3999);
}

#[test]
fn index_is_a_bijection() {
    let mut seen = vec![false; 4000];
    for y in 0..50 {
        for x in 0..80 {
            let i = xy_idx(x, y);
            assert!(i < 4000);
            assert!(!seen[i]);
            seen[i] = true;
        }
    }
    assert!(seen.iter().all(|s| *s));
}

#[test]
fn no_samples_gives_border_only() {
    let cells = build_map(&vec![]);
    check_wf(&cells);
    let walls = cells.iter().filter(|c| **c == TileType::Wall).count();
    assert_eq!(walls, 2 * 80 + 2 * 48);
}

#[test]
fn samples_become_walls_but_spawn_is_skipped() {
    let cells = build_map(&vec![(3, 4), (40, 25), (79, 10), (3, 4)]);
    check_wf(&cells);
    assert_eq!(cells[xy_idx(3, 4)], TileType::Wall);
    assert_eq!(cells[xy_idx(40, 25)], TileType::Floor);
    assert_eq!(cells[xy_idx(5, 5)], TileType::Floor);
    let walls = cells.iter().filter(|c| **c == TileType::Wall).count();
    assert_eq!(walls, 2 * 80 + 2 * 48 + 1);
}

#[test]
fn generated_maps_are_well_formed() {
    for _ in 0..20 {
        let g = generate(400);
        check_wf(&g.cells);
        assert_eq!(g.samples.len(), 400);
        for (x, y) in g.samples.iter() {
            assert!(1 <= *x && *x <= 79);
            assert!(1 <= *y && *y <= 49);
        }
        assert_eq!(g.cells, build_map(&g.samples));
    }
    check_wf(&new_map());
}

#[test]
fn realized_walls_are_requested_less_spawn_hits() {
    for _ in 0..20 {
        let g = generate(400);
        let hits = g.samples.iter().filter(|s| xy_idx(s.0, s.1) == 2040).count();
        assert_eq!(g.placed_walls, 400 - hits);
        assert!(g.placed_walls <= 400);
    }
    let g = generate(0);
    assert_eq!(g.placed_walls, 0);
    assert!(g.samples.is_empty());
}

#[test]
fn sampler_spreads_over_the_interior() {
    let g = generate(4000);
    assert!(g.samples.iter().any(|s| s.0 != g.samples[0].0 || s.1 != g.samples[0].1));
    assert!(g.samples.iter().any(|s| s.0 > 1));
}
