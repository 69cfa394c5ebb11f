use bracket_lib::prelude::RandomNumberGenerator;
use dread_crawler::geometry::Point;
use dread_crawler::map::{TileType, NUM_TILES};
use dread_crawler::map_builder::prefab::{
    apply_prefab, can_place_fortress, place_fortress, prefab_step, PrefabPlacement, FAR_KEY, FORTRESS,
    NEAR_KEY, PLACEMENT_ATTEMPTS,
};
use dread_crawler::map_builder::{ArchitectKind, MapBuilder, ThemeKind, NUM_MONSTERS, UNREACHABLE};

fn layout() -> Vec<char> {
    FORTRESS.chars().filter(|c| *c != '\r' && *c != '\n').collect()
}

#[test]
fn distance_keys_are_float_bit_patterns() {
    assert_eq!(UNREACHABLE, f32::MAX.to_bits());
    assert_eq!(NEAR_KEY, 20.0f32.to_bits());
    assert_eq!(FAR_KEY, 2000.0f32.to_bits());
    assert!(19.5f32.to_bits() < NEAR_KEY && 20.5f32.to_bits() > NEAR_KEY);
}

#[test]
fn empty_builder() {
    let mb = MapBuilder::empty();
    assert_eq!(mb.map.tiles.len(), NUM_TILES);
    assert!(mb.map.tiles.iter().all(|t| *t == TileType::Floor));
    assert!(mb.rooms.is_empty());
    assert!(mb.monster_spawns.is_empty());
    assert_eq!(mb.player_start, Point::new(0, 0));
    assert_eq!(mb.amulet_start, Point::new(0, 0));
    assert_eq!(mb.theme, ThemeKind::Dungeon);
}

#[test]
fn fill_sets_every_tile() {
    let mut mb = MapBuilder::empty();
    mb.monster_spawns.push(Point::new(4, 4));
    mb.fill(TileType::Wall);
    assert!(mb.map.tiles.iter().all(|t| *t == TileType::Wall));
    assert_eq!(mb.monster_spawns, vec![Point::new(4, 4)]);
}

#[test]
fn architect_and_theme_rolls() {
    assert_eq!(MapBuilder::architect_for(0), ArchitectKind::DrunkardWalk);
    assert_eq!(MapBuilder::architect_for(1), ArchitectKind::Rooms);
    assert_eq!(MapBuilder::architect_for(2), ArchitectKind::CellularAutomata);
    assert_eq!(MapBuilder::architect_for(3), ArchitectKind::Empty);
    assert_eq!(MapBuilder::theme_for(0), ThemeKind::Dungeon);
    assert_eq!(MapBuilder::theme_for(1), ThemeKind::SandFortress);
    assert_eq!(MapBuilder::theme_for(2), ThemeKind::Forest);
    let mut rng = RandomNumberGenerator::seeded(7);
    for _ in 0..200 {
        assert_ne!(MapBuilder::choose_architect(&mut rng), ArchitectKind::Empty);
        let _ = MapBuilder::choose_theme(&mut rng);
    }
}

#[test]
fn most_distant_is_last_farthest_reached_tile() {
    let flow = vec![5, 9, UNREACHABLE, 9, 3];
    assert_eq!(MapBuilder::most_distant_index(&flow), Some(3));
    assert_eq!(MapBuilder::most_distant_index(&vec![UNREACHABLE, UNREACHABLE]), None);
    assert_eq!(MapBuilder::most_distant_index(&vec![]), None);

    let mb = MapBuilder::empty();
    let mut flow = vec![UNREACHABLE; NUM_TILES];
    flow[0] = 0.0f32.to_bits();
    flow[1] = 1.0f32.to_bits();
    flow[163] = 47.0f32.to_bits();
    flow[200] = 12.5f32.to_bits();
    assert_eq!(mb.find_most_distant(&flow), Point::new(3, 2));
}

#[test]
fn monsters_spawn_on_distinct_far_floor_tiles() {
    let mut mb = MapBuilder::empty();
    mb.player_start = Point::new(40, 25);
    for i in 0..NUM_TILES {
        if i % 3 == 0 {
            mb.map.tiles[i] = TileType::Wall;
        }
    }
    let mut rng = RandomNumberGenerator::seeded(42);
    let start = mb.player_start;
    let spawns = mb.spawn_monsters(&start, &mut rng);
    assert_eq!(spawns.len(), NUM_MONSTERS);
    for (k, p) in spawns.iter().enumerate() {
        let idx = mb.map.point2d_to_index(*p);
        assert_eq!(mb.map.tiles[idx], TileType::Floor);
        let dx = p.x - start.x;
        let dy = p.y - start.y;
        assert!(dx * dx + dy * dy > 100);
        assert!(!spawns[..k].contains(p));
    }
}

#[test]
fn fortress_layout_has_three_monsters() {
    let cells = layout();
    assert_eq!(cells.len(), 132);
    assert_eq!(cells.iter().filter(|c| **c == 'M').count(), 3);
    assert_eq!(cells[41], 'M');
    assert_eq!(cells[62], 'M');
    assert_eq!(cells[69], 'M');
}

#[test]
fn place_fortress_stamps_tiles_and_spawns() {
    let mut mb = MapBuilder::empty();
    mb.monster_spawns = vec![Point::new(12, 7), Point::new(0, 0), Point::new(21, 15)];
    place_fortress(&mut mb, Point::new(10, 5));
    let cells = layout();
    for y in 0..50 {
        for x in 0..80 {
            let t = mb.map.tiles[(y * 80 + x) as usize];
            if (10..22).contains(&x) && (5..16).contains(&y) {
                let c = cells[((y - 5) * 12 + (x - 10)) as usize];
                let want = if c == '#' { TileType::Wall } else { TileType::Floor };
                assert_eq!(t, want);
            } else {
                assert_eq!(t, TileType::Floor);
            }
        }
    }
    assert_eq!(
        mb.monster_spawns,
        vec![Point::new(0, 0), Point::new(15, 8), Point::new(12, 10), Point::new(19, 10)]
    );
}

#[test]
fn fortress_fits_only_near_a_good_anchor() {
    let mut mb = MapBuilder::empty();
    mb.amulet_start = Point::new(50, 30);
    let at = Point::new(10, 5);
    let mut flow = vec![UNREACHABLE; NUM_TILES];
    assert!(!can_place_fortress(&mb, &flow, at));
    flow[7 * 80 + 12] = 25.0f32.to_bits();
    assert!(can_place_fortress(&mb, &flow, at));
    assert!(!can_place_fortress(&mb, &flow, Point::new(30, 5)));
    mb.amulet_start = Point::new(12, 7);
    assert!(!can_place_fortress(&mb, &flow, at));
    mb.amulet_start = Point::new(50, 30);
    flow[7 * 80 + 12] = 20.0f32.to_bits();
    assert!(!can_place_fortress(&mb, &flow, at));
    flow[7 * 80 + 12] = 2000.0f32.to_bits();
    assert!(!can_place_fortress(&mb, &flow, at));
    flow[7 * 80 + 12] = 1999.0f32.to_bits();
    assert!(can_place_fortress(&mb, &flow, at));
}

#[test]
fn prefab_not_placed_without_anchor() {
    let mut mb = MapBuilder::empty();
    mb.monster_spawns = vec![Point::new(5, 5)];
    let flow = vec![UNREACHABLE; NUM_TILES];
    let mut rng = RandomNumberGenerator::seeded(3);
    apply_prefab(&mut mb, &mut rng, &flow);
    assert!(mb.map.tiles.iter().all(|t| *t == TileType::Floor));
    assert_eq!(mb.monster_spawns, vec![Point::new(5, 5)]);
}

#[test]
fn prefab_placed_once_when_every_tile_anchors() {
    let mut mb = MapBuilder::empty();
    mb.amulet_start = Point::new(79, 49);
    let flow = vec![100.0f32.to_bits(); NUM_TILES];
    let mut rng = RandomNumberGenerator::seeded(11);
    apply_prefab(&mut mb, &mut rng, &flow);
    let walls = mb.map.tiles.iter().filter(|t| **t == TileType::Wall).count();
    assert_eq!(walls, layout().iter().filter(|c| **c == '#').count());
    assert_eq!(mb.monster_spawns.len(), 3);
    let m = &mb.monster_spawns;
    assert_eq!(m[1], Point::new(m[0].x - 3, m[0].y + 2));
    assert_eq!(m[2], Point::new(m[0].x + 4, m[0].y + 2));
    let corner = Point::new(m[0].x - 5, m[0].y - 3);
    assert!(corner.x >= 0 && corner.x < 68 && corner.y >= 0 && corner.y < 39);
}

#[test]
fn prefab_steps_stop_at_first_fitting_corner() {
    let mut mb = MapBuilder::empty();
    mb.amulet_start = Point::new(79, 49);
    let mut flow = vec![UNREACHABLE; NUM_TILES];
    flow[7 * 80 + 12] = 25.0f32.to_bits();
    let mut state = PrefabPlacement::start();
    assert!(!state.is_done());
    state = prefab_step(&mut mb, &flow, state, Point::new(40, 20));
    assert_eq!(state, PrefabPlacement { placement: None, attempts: 1 });
    assert!(mb.map.tiles.iter().all(|t| *t == TileType::Floor));
    state = prefab_step(&mut mb, &flow, state, Point::new(10, 5));
    assert_eq!(state, PrefabPlacement { placement: Some(Point::new(10, 5)), attempts: 2 });
    assert!(state.is_done());
    assert_eq!(mb.monster_spawns.len(), 3);
    let spent = PrefabPlacement { placement: None, attempts: PLACEMENT_ATTEMPTS };
    assert!(spent.is_done());
}

#[test]
fn new_builder_keeps_the_layout_and_draws_a_theme() {
    let mut built = MapBuilder::empty();
    built.player_start = Point::new(3, 3);
    built.monster_spawns = vec![Point::new(60, 40)];
    let flow = vec![UNREACHABLE; NUM_TILES];
    let mut rng = RandomNumberGenerator::seeded(1);
    let mb = MapBuilder::new(built, &mut rng, &flow);
    assert_eq!(mb.player_start, Point::new(3, 3));
    assert_eq!(mb.monster_spawns, vec![Point::new(60, 40)]);
    assert!(mb.map.tiles.iter().all(|t| *t == TileType::Floor));

    let mut built = MapBuilder::empty();
    built.amulet_start = Point::new(79, 49);
    let flow = vec![100.0f32.to_bits(); NUM_TILES];
    let mb = MapBuilder::new(built, &mut rng, &flow);
    assert_eq!(mb.monster_spawns.len(), 3);
    assert!(mb.map.tiles.iter().any(|t| *t == TileType::Wall));
}
