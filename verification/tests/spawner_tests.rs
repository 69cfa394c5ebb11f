use bracket_lib::prelude::RandomNumberGenerator;
use dread_crawler::components::{
    ColorPair, Damage, FieldOfView, Health, Player, Provided, ProvidesHealing, Render, Rgb,
};
use dread_crawler::geometry::Point;
use dread_crawler::map::TileType;
use dread_crawler::map_builder::MapBuilder;
use dread_crawler::spawner::template::{EntityType, Template, Templates};
use dread_crawler::spawner::{place_level_goal, spawn_amulet_of_yala, spawn_level, spawn_player};
use std::collections::HashSet;

fn white_on_black(glyph: u16) -> Render {
    Render {
        color: ColorPair { fg: Rgb { r: 255, g: 255, b: 255 }, bg: Rgb { r: 0, g: 0, b: 0 } },
        glyph,
    }
}

fn goblin(levels: &[usize], frequency: i32) -> Template {
    Template {
        entity_type: EntityType::Enemy,
        levels: levels.iter().copied().collect::<HashSet<usize>>(),
        frequency,
        name: "Goblin".to_string(),
        glyph: 'g',
        tint: None,
        provides: None,
        hp: Some(1),
        fov: None,
        base_damage: Some(1),
    }
}

fn potion(levels: &[usize], frequency: i32) -> Template {
    Template {
        entity_type: EntityType::Item,
        levels: levels.iter().copied().collect::<HashSet<usize>>(),
        frequency,
        name: "Healing Potion".to_string(),
        glyph: '!',
        tint: Some((0, 255, 0)),
        provides: Some(vec![
            ("Healing".to_string(), 6),
            ("MagicMap".to_string(), 0),
            ("Flying".to_string(), 2),
        ]),
        hp: None,
        fov: None,
        base_damage: None,
    }
}

#[test]
fn player_spawn() {
    let s = spawn_player(Point::new(3, 4));
    assert_eq!(s.pos, Point::new(3, 4));
    assert_eq!(s.player, Some(Player { map_level: 0 }));
    assert_eq!(s.render, white_on_black(64));
    assert_eq!(s.health, Some(Health { current: 16, max: 16 }));
    assert_eq!(s.name.0, "Glob Metalis");
    assert_eq!(s.field_of_view, Some(FieldOfView { radius: 8, is_dirty: true }));
    assert_eq!(s.damage, Some(Damage(1)));
    assert!(!s.enemy && !s.item && !s.amulet && !s.weapon && !s.chasing_player);
    assert!(s.provides.is_empty());
}

#[test]
fn amulet_spawn() {
    let s = spawn_amulet_of_yala(Point::new(9, 1));
    assert_eq!(s.pos, Point::new(9, 1));
    assert!(s.item && s.amulet);
    assert_eq!(s.render, white_on_black(124));
    assert_eq!(s.name.0, "Yala amuletas");
    assert_eq!(s.player, None);
    assert_eq!(s.health, None);
}

#[test]
fn enemy_from_template() {
    let templates = Templates { entities: vec![goblin(&[0], 1)] };
    let s = templates.spawn_entity(&Point::new(5, 6), &templates.entities[0]);
    assert_eq!(s.pos, Point::new(5, 6));
    assert_eq!(s.render, white_on_black(103));
    assert_eq!(s.name.0, "Goblin");
    assert!(s.enemy && s.chasing_player && !s.item && !s.weapon);
    assert_eq!(s.field_of_view, Some(FieldOfView { radius: 6, is_dirty: true }));
    assert_eq!(s.health, Some(Health { current: 1, max: 1 }));
    assert_eq!(s.damage, Some(Damage(1)));
}

#[test]
fn item_from_template() {
    let mut sword = potion(&[1], 1);
    sword.provides = None;
    sword.base_damage = Some(3);
    let templates = Templates { entities: vec![potion(&[1], 1), sword] };
    let s = templates.spawn_entity(&Point::new(1, 1), &templates.entities[0]);
    assert!(s.item && !s.enemy && !s.weapon);
    assert_eq!(s.render.color.fg, Rgb { r: 0, g: 255, b: 0 });
    assert_eq!(s.render.glyph, 33);
    assert_eq!(s.field_of_view, None);
    assert_eq!(s.health, None);
    assert_eq!(
        s.provides,
        vec![
            Provided::Healing(ProvidesHealing { amount: 6 }),
            Provided::DungeonMap,
            Provided::Unknown("Flying".to_string()),
        ]
    );
    let w = templates.spawn_entity(&Point::new(1, 1), &templates.entities[1]);
    assert!(w.item && w.weapon);
    assert_eq!(w.damage, Some(Damage(3)));
}

#[test]
fn pool_weights_templates_by_frequency() {
    let templates = Templates {
        entities: vec![goblin(&[0, 1], 3), potion(&[1], 2), goblin(&[0], -4), potion(&[0], 1)],
    };
    assert_eq!(templates.available_entities(0), vec![0, 0, 0, 3]);
    assert_eq!(templates.available_entities(1), vec![0, 0, 0, 1, 1]);
    assert_eq!(templates.available_entities(2), Vec::<usize>::new());
}

#[test]
fn level_entities_come_from_level_templates() {
    let templates = Templates { entities: vec![goblin(&[0], 3), potion(&[1], 2)] };
    let points = vec![Point::new(1, 1), Point::new(2, 2), Point::new(3, 3)];
    let mut rng = RandomNumberGenerator::seeded(5);
    let spawns = spawn_level(&templates, &mut rng, 0, &points);
    assert_eq!(spawns.len(), 3);
    for (s, p) in spawns.iter().zip(points.iter()) {
        assert_eq!(s.pos, *p);
        assert_eq!(s.name.0, "Goblin");
    }
    let none = spawn_level(&templates, &mut rng, 5, &points);
    assert!(none.is_empty());
}

#[test]
fn level_goal_is_exit_or_amulet() {
    let mut mb = MapBuilder::empty();
    mb.amulet_start = Point::new(7, 2);
    assert!(place_level_goal(&mut mb, 0).is_none());
    assert_eq!(mb.map.tiles[167], TileType::Exit);
    assert_eq!(mb.map.tiles.iter().filter(|t| **t == TileType::Exit).count(), 1);

    let mut mb = MapBuilder::empty();
    mb.amulet_start = Point::new(7, 2);
    let amulet = place_level_goal(&mut mb, 2).expect("the amulet lies on level 2");
    assert_eq!(amulet.pos, Point::new(7, 2));
    assert!(amulet.amulet);
    assert!(mb.map.tiles.iter().all(|t| *t == TileType::Floor));
}

#[test]
fn new_game_has_player_first_then_level_entities() {
    let templates = Templates { entities: vec![goblin(&[0], 1)] };
    let mut mb = MapBuilder::empty();
    mb.player_start = Point::new(1, 1);
    mb.amulet_start = Point::new(70, 40);
    mb.monster_spawns = vec![Point::new(30, 30), Point::new(31, 30)];
    let mut rng = RandomNumberGenerator::seeded(9);
    let spawns = dread_crawler::spawner::new_game_spawns(&mut mb, &templates, &mut rng);
    assert_eq!(spawns.len(), 3);
    assert_eq!(spawns[0].player, Some(Player { map_level: 0 }));
    assert_eq!(spawns[0].pos, Point::new(1, 1));
    assert_eq!(spawns[1].pos, Point::new(30, 30));
    assert_eq!(spawns[2].pos, Point::new(31, 30));
    assert!(spawns[1].enemy && spawns[2].enemy);
    assert_eq!(mb.map.tiles[40 * 80 + 70], TileType::Exit);
}

#[test]
fn amulet_level_spawns_amulet_first() {
    let templates = Templates { entities: vec![potion(&[2], 1)] };
    let mut mb = MapBuilder::empty();
    mb.amulet_start = Point::new(70, 40);
    mb.monster_spawns = vec![Point::new(30, 30)];
    let mut rng = RandomNumberGenerator::seeded(9);
    let spawns = dread_crawler::spawner::level_spawns(&mut mb, &templates, &mut rng, 2);
    assert_eq!(spawns.len(), 2);
    assert!(spawns[0].amulet);
    assert_eq!(spawns[0].pos, Point::new(70, 40));
    assert!(spawns[1].item && !spawns[1].amulet);
    assert!(mb.map.tiles.iter().all(|t| *t == TileType::Floor));

    let spawns = dread_crawler::spawner::level_spawns(&mut mb, &templates, &mut rng, 1);
    assert!(spawns.is_empty());
    assert_eq!(mb.map.tiles[40 * 80 + 70], TileType::Exit);
}
