use magnus::components::{Position, Renderable, Rgb};
use magnus::map::{build_map, xy_idx, TileType};
use magnus::world::World;

fn glyph() -> Renderable {
    Renderable { glyph: 64, fg: Rgb { r: 255, g: 255, b: 0 }, bg: Rgb { r: 0, g: 0, b: 0 } }
}

#[test]
fn join_returns_entities_with_both_components() {
    let mut w = World::new(build_map(&vec![]));
    let a = w.create_entity();
    let b = w.create_entity();
    let c = w.create_entity();
    w.insert_position(a, Position { x: 1, y: 2 });
    w.insert_renderable(a, glyph());
    w.insert_position(b, Position { x: 3, y: 4 });
    w.insert_renderable(c, glyph());
    let d = w.drawables();
    assert_eq!(d, vec![(a, Position { x: 1, y: 2 }, glyph())]);
    w.remove_renderable(a);
    assert!(w.drawables().is_empty());
    w.remove_position(b);
    assert_eq!(w.position(b), None);
}

#[test]
fn destroy_waits_for_maintain_and_ids_go_stale() {
    let mut w = World::new(build_map(&vec![]));
    let a = w.create_entity();
    w.insert_position(a, Position { x: 5, y: 5 });
    w.insert_renderable(a, glyph());
    w.destroy_entity(a);
    assert!(w.is_alive(a));
    assert_eq!(w.drawables().len(), 1);
    w.maintain();
    assert!(!w.is_alive(a));
    assert!(w.drawables().is_empty());
    let b = w.create_entity();
    assert_eq!(b.index, a.index);
    assert_ne!(b.generation, a.generation);
    assert!(w.is_alive(b));
    assert!(!w.is_alive(a));
    assert_eq!(w.position(b), None);
    w.destroy_entity(a);
    w.maintain();
    assert!(w.is_alive(b));
}

#[test]
fn player_moves_and_others_stay() {
    let mut map = build_map(&vec![]);
    map[xy_idx(41, 25)] = TileType::Wall;
    let mut w = World::new(map);
    let p = w.create_entity();
    w.insert_position(p, Position { x: 40, y: 25 });
    w.insert_player(p);
    let other = w.create_entity();
    w.insert_position(other, Position { x: 10, y: 10 });
    w.try_move_player(1, 0);
    assert_eq!(w.position(p), Some(Position { x: 40, y: 25 }));
    w.try_move_player(0, 1);
    assert_eq!(w.position(p), Some(Position { x: 40, y: 26 }));
    assert_eq!(w.position(other), Some(Position { x: 10, y: 10 }));
    assert!(w.is_player(p));
    w.remove_player(p);
    w.try_move_player(0, 1);
    assert_eq!(w.position(p), Some(Position { x: 40, y: 26 }));
    assert!(w.attempt_move(other, -1, -1));
    assert_eq!(w.position(other), Some(Position { x: 9, y: 9 }));
    assert!(!w.attempt_move(p, 1, -1));
    assert_eq!(w.renderable(p), None);
    assert_eq!(w.map().len(), 4000);
}
