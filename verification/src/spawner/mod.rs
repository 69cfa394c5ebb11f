//! What the player, the amulet and the monsters and items of a level are made of.

pub mod template;

use vstd::prelude::*;
use crate::components::{
    cp437, to_cp437, ColorPair, Damage, EntitySpawn, FieldOfView, Health, Name, Player, Render, Rgb,
};
use crate::geometry::Point;
use crate::map::{tile_index, TileType, NUM_TILES, SCREEN_WIDTH};
use crate::map_builder::MapBuilder;
use crate::spawner::template::{level_entities, level_pool, Templates};
use bracket_lib::prelude::RandomNumberGenerator;

verus! {

/// `s` is the player's entity at `pos`: on level 0, drawn as a white `@` on
/// black, with 16 of 16 health, a view radius of 8 and a damage of 1.
pub open spec fn player_spawn_at(s: EntitySpawn, pos: Point) -> bool {
    &&& s.pos == pos
    &&& s.player == Some(Player { map_level: 0 })
    &&& s.render == (Render { color: ColorPair { fg: Rgb::spec_white(), bg: Rgb::spec_black() }, glyph: cp437('@') })
    &&& s.health == Some(Health { current: 16, max: 16 })
    &&& s.name.0@ == "Glob Metalis"@
    &&& s.field_of_view == Some(FieldOfView { radius: 8, is_dirty: true })
    &&& s.damage == Some(Damage(1))
    &&& !s.enemy && !s.item && !s.amulet && !s.chasing_player && !s.weapon
    &&& s.provides@.len() == 0
}

/// `s` is the Amulet of Yala at `pos`: an item drawn as a white `|` on black.
pub open spec fn amulet_spawn_at(s: EntitySpawn, pos: Point) -> bool {
    &&& s.pos == pos
    &&& s.item && s.amulet
    &&& s.render == (Render { color: ColorPair { fg: Rgb::spec_white(), bg: Rgb::spec_black() }, glyph: cp437('|') })
    &&& s.name.0@ == "Yala amuletas"@
    &&& s.player is None
    &&& !s.enemy && !s.chasing_player && !s.weapon
    &&& s.field_of_view is None && s.health is None && s.damage is None
    &&& s.provides@.len() == 0
}

/// The player's entity at `pos`.
pub fn spawn_player(pos: Point) -> (s: EntitySpawn)
    ensures
        player_spawn_at(s, pos),
        s.render.glyph == 64,
{
    EntitySpawn {
        pos,
        render: Render { color: ColorPair::new(Rgb::white(), Rgb::black()), glyph: to_cp437('@') },
        name: Name("Glob Metalis".to_string()),
        player: Some(Player { map_level: 0 }),
        enemy: false,
        item: false,
        amulet: false,
        chasing_player: false,
        weapon: false,
        field_of_view: Some(FieldOfView::new(8)),
        health: Some(Health { current: 16, max: 16 }),
        damage: Some(Damage(1)),
        provides: Vec::new(),
    }
}

/// The Amulet of Yala at `pos`.
pub fn spawn_amulet_of_yala(pos: Point) -> (s: EntitySpawn)
    ensures
        amulet_spawn_at(s, pos),
        s.render.glyph == 124,
{
    EntitySpawn {
        pos,
        render: Render { color: ColorPair::new(Rgb::white(), Rgb::black()), glyph: to_cp437('|') },
        name: Name("Yala amuletas".to_string()),
        player: None,
        enemy: false,
        item: true,
        amulet: true,
        chasing_player: false,
        weapon: false,
        field_of_view: None,
        health: None,
        damage: None,
        provides: Vec::new(),
    }
}

/// The monsters and items of `level` at `spawn_points`, drawn from `templates`
/// (the contents of the template file).
pub fn spawn_level(
    templates: &Templates,
    rng: &mut RandomNumberGenerator,
    level: usize,
    spawn_points: &[Point],
) -> (spawns: Vec<EntitySpawn>)
    requires
        level_pool(templates.entities@, level, templates.entities@.len() as int).len() < i32::MAX,
    ensures
        level_entities(templates.entities@, level, spawn_points@, spawns@),
{
    templates.spawn_entities(rng, level, spawn_points)
}

/// The dungeon level on which the Amulet of Yala lies.
pub const AMULET_LEVEL: u32 = 2;

/// Sets up the goal of a level whose player is on `map_level`: on the amulet's
/// level the Amulet of Yala is spawned where the amulet starts, and the map is
/// left as it is; on any other level the tile where the amulet starts becomes
/// the exit to the next level.
pub fn place_level_goal(mb: &mut MapBuilder, map_level: u32) -> (amulet: Option<EntitySpawn>)
    requires
        old(mb).wf(),
        0 <= tile_index(old(mb).amulet_start) < NUM_TILES,
        i32::MIN <= old(mb).amulet_start.y * SCREEN_WIDTH <= i32::MAX,
    ensures
        final(mb).wf(),
        map_level == AMULET_LEVEL ==> {
            &&& amulet matches Some(s) && amulet_spawn_at(s, old(mb).amulet_start)
            &&& final(mb).map.tiles@ == old(mb).map.tiles@
        },
        map_level != AMULET_LEVEL ==> {
            &&& amulet is None
            &&& final(mb).map.tiles@ == old(mb).map.tiles@.update(
                tile_index(old(mb).amulet_start),
                TileType::Exit,
            )
        },
        final(mb).rooms == old(mb).rooms,
        final(mb).monster_spawns == old(mb).monster_spawns,
        final(mb).player_start == old(mb).player_start,
        final(mb).amulet_start == old(mb).amulet_start,
        final(mb).theme == old(mb).theme,
{
    if map_level == AMULET_LEVEL {
        Some(spawn_amulet_of_yala(mb.amulet_start))
    } else {
        let exit_idx = mb.map.point2d_to_index(mb.amulet_start);
        mb.map.tiles.set(exit_idx, TileType::Exit);
        None
    }
}

/// Sets up a level for the player on `map_level`: places its goal (the amulet
/// on the amulet's level, the exit on any other), then draws its monsters and
/// items at the builder's monster spawns. The amulet, when there is one, comes
/// first, then the level's entities in spawn order.
pub fn level_spawns(
    mb: &mut MapBuilder,
    templates: &Templates,
    rng: &mut RandomNumberGenerator,
    map_level: u32,
) -> (spawns: Vec<EntitySpawn>)
    requires
        old(mb).wf(),
        0 <= tile_index(old(mb).amulet_start) < NUM_TILES,
        i32::MIN <= old(mb).amulet_start.y * SCREEN_WIDTH <= i32::MAX,
        level_pool(templates.entities@, map_level as usize, templates.entities@.len() as int).len() < i32::MAX,
    ensures
        final(mb).wf(),
        final(mb).monster_spawns == old(mb).monster_spawns,
        final(mb).player_start == old(mb).player_start,
        final(mb).amulet_start == old(mb).amulet_start,
        final(mb).rooms == old(mb).rooms,
        final(mb).theme == old(mb).theme,
        map_level == AMULET_LEVEL ==> {
            &&& final(mb).map.tiles@ == old(mb).map.tiles@
            &&& spawns@.len() >= 1
            &&& amulet_spawn_at(spawns@[0], old(mb).amulet_start)
            &&& level_entities(
                templates.entities@,
                map_level as usize,
                old(mb).monster_spawns@,
                spawns@.skip(1),
            )
        },
        map_level != AMULET_LEVEL ==> {
            &&& final(mb).map.tiles@ == old(mb).map.tiles@.update(
                tile_index(old(mb).amulet_start),
                TileType::Exit,
            )
            &&& level_entities(templates.entities@, map_level as usize, old(mb).monster_spawns@, spawns@)
        },
{
    let mut spawns: Vec<EntitySpawn> = Vec::new();
    if let Some(amulet) = place_level_goal(mb, map_level) {
        spawns.push(amulet);
    }
    let ghost before = spawns@;
    let mut entities = spawn_level(templates, rng, map_level as usize, mb.monster_spawns.as_slice());
    let ghost level = entities@;
    spawns.append(&mut entities);
    proof {
        assert(spawns@ == before + level);
        if map_level == AMULET_LEVEL {
            assert(spawns@.skip(1) =~= level);
        } else {
            assert(spawns@ =~= level);
        }
    }
    spawns
}

/// The entities of a new game on the level that `mb` built: the player at its
/// start, then the monsters and items of the first level; the amulet's start
/// becomes the exit.
pub fn new_game_spawns(
    mb: &mut MapBuilder,
    templates: &Templates,
    rng: &mut RandomNumberGenerator,
) -> (spawns: Vec<EntitySpawn>)
    requires
        old(mb).wf(),
        0 <= tile_index(old(mb).amulet_start) < NUM_TILES,
        i32::MIN <= old(mb).amulet_start.y * SCREEN_WIDTH <= i32::MAX,
        level_pool(templates.entities@, 0, templates.entities@.len() as int).len() < i32::MAX,
    ensures
        final(mb).wf(),
        final(mb).map.tiles@ == old(mb).map.tiles@.update(tile_index(old(mb).amulet_start), TileType::Exit),
        final(mb).monster_spawns == old(mb).monster_spawns,
        final(mb).player_start == old(mb).player_start,
        final(mb).amulet_start == old(mb).amulet_start,
        final(mb).rooms == old(mb).rooms,
        final(mb).theme == old(mb).theme,
        spawns@.len() >= 1,
        player_spawn_at(spawns@[0], old(mb).player_start),
        level_entities(templates.entities@, 0, old(mb).monster_spawns@, spawns@.skip(1)),
{
    let mut spawns: Vec<EntitySpawn> = Vec::new();
    spawns.push(spawn_player(mb.player_start));
    let ghost player = spawns@;
    let mut level = level_spawns(mb, templates, rng, 0);
    let ghost rest = level@;
    spawns.append(&mut level);
    proof {
        assert(spawns@.skip(1) =~= rest);
    }
    spawns
}

} // verus!
