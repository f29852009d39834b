use magnus::components::Position;
use magnus::map::{build_map, xy_idx, TileType};
use magnus::movement::try_move;

fn all(t: TileType) -> Vec<TileType> {
    vec![t; 4000]
}

#[test]
fn wall_blocks_move() {
    let mut map = all(TileType::Floor);
    map[xy_idx(11, 10)] = TileType::Wall;
    let mut p = Position { x: 10, y: 10 };
    assert!(!try_move(&map, &mut p, 1, 0));
    assert_eq!(p, Position { x: 10, y: 10 });
}

#[test]
fn floor_takes_full_delta() {
    let map = build_map(&vec![]);
    let mut p = Position { x: 10, y: 10 };
    assert!(try_move(&map, &mut p, 1, -1));
    assert_eq!(p, Position { x: 11, y: 9 });
    assert!(try_move(&map, &mut p, -1, 1));
    assert_eq!(p, Position { x: 10, y: 10 });
}

#[test]
fn border_wall_refuses_move() {
    let map = build_map(&vec![]);
    let mut p = Position { x: 1, y: 1 };
    assert!(!try_move(&map, &mut p, -1, 0));
    assert_eq!(p, Position { x: 1, y: 1 });
}

#[test]
fn move_past_edge_clamps() {
    let map = all(TileType::Floor);
    // (-1, 5) looks up index 5 * 80 - 1, a floor here; x is clamped to 0.
    let mut p = Position { x: 0, y: 5 };
    assert!(try_move(&map, &mut p, -1, 0));
    assert_eq!(p, Position { x: 0, y: 5 });
    // (80, 5) looks up index 5 * 80 + 80; x is clamped to 79.
    let mut q = Position { x: 79, y: 5 };
    assert!(try_move(&map, &mut q, 1, 0));
    assert_eq!(q, Position { x: 79, y: 5 });
}

#[test]
fn zero_move_always_succeeds() {
    let mut p = Position { x: 40, y: 25 };
    assert!(try_move(&all(TileType::Wall), &mut p, 0, 0));
    assert_eq!(p, Position { x: 40, y: 25 });
    assert!(try_move(&all(TileType::Floor), &mut p, 0, 0));
    assert_eq!(p, Position { x: 40, y: 25 });
}
