//! Building the map of a dungeon level: where its walls are, where the player
//! starts, where the amulet lies and where monsters appear.

pub mod prefab;

use vstd::prelude::*;
use crate::geometry::{Point, Rect};
use crate::map::{
    lemma_index_point_roundtrip, on_map, tile_index, tile_point, TileMap,
    TileType, NUM_TILES, SCREEN_HEIGHT, SCREEN_WIDTH,
};
use crate::map_builder::prefab::{apply_prefab, placement_attempts};
use crate::random::{random_slice_index, rng_range};
use bracket_lib::prelude::RandomNumberGenerator;

verus! {

/// How the tiles of a level are drawn.
#[derive(Clone, Copy, Debug, PartialEq, Eq, Structural)]
pub enum ThemeKind {
    Dungeon,
    SandFortress,
    Forest,
}

/// How the layout of a level is generated.
#[derive(Clone, Copy, Debug, PartialEq, Eq, Structural)]
pub enum ArchitectKind {
    DrunkardWalk,
    Rooms,
    CellularAutomata,
    Empty,
}

/// The distance key of a tile that the player's flow did not reach: the bit
/// pattern of `f32::MAX`. A flow lists, per tile index, the key of the
/// tile's walking distance from the player's start: the IEEE-754 bit pattern
/// of that non-negative distance, whose order as an integer is the order of
/// the distances.
pub const UNREACHABLE: u32 = 0x7f7f_ffff;

/// How many monster spawns a level gets.
pub const NUM_MONSTERS: usize = 50;

/// The architect that a roll of `range(0, 3)` selects.
pub open spec fn architect_of(roll: i32) -> ArchitectKind {
    if roll == 0 {
        ArchitectKind::DrunkardWalk
    } else if roll == 1 {
        ArchitectKind::Rooms
    } else if roll == 2 {
        ArchitectKind::CellularAutomata
    } else {
        ArchitectKind::Empty
    }
}

/// The theme that a roll of `range(0, 3)` selects.
pub open spec fn theme_of(roll: i32) -> ThemeKind {
    if roll == 0 {
        ThemeKind::Dungeon
    } else if roll == 1 {
        ThemeKind::SandFortress
    } else {
        ThemeKind::Forest
    }
}

/// Whether the tile at index `i` of `flow` was reached.
pub open spec fn reached(flow: Seq<u32>, i: int) -> bool {
    flow[i] < UNREACHABLE
}

/// Whether index `i` is the last of the reached tiles farthest from the player.
pub open spec fn is_most_distant(flow: Seq<u32>, i: int) -> bool {
    &&& 0 <= i < flow.len()
    &&& reached(flow, i)
    &&& forall|j: int| 0 <= j < flow.len() && reached(flow, j) ==> #[trigger] flow[j] <= flow[i]
    &&& forall|j: int| i < j < flow.len() && reached(flow, j) ==> #[trigger] flow[j] < flow[i]
}

/// Whether `p` lies more than 10 tiles from `start` as the crow flies. The
/// Pythagoras distance of `bracket_lib` (`DistanceAlg::Pythagoras`, the `f32`
/// square root of the sum of the squared coordinate differences) exceeds 10.0
/// for two grid points exactly when that sum, an integer, exceeds 100.
pub open spec fn far_from(start: Point, p: Point) -> bool {
    (p.x - start.x) * (p.x - start.x) + (p.y - start.y) * (p.y - start.y) > 100
}

/// Whether the tile at index `i` can take a monster: a floor tile more than 10
/// tiles from `start`.
pub open spec fn spawnable(tiles: Seq<TileType>, start: Point, i: int) -> bool {
    tiles[i] == TileType::Floor && far_from(start, tile_point(i))
}

/// The points of the spawnable tiles among the first `n`, in index order.
pub open spec fn spawnable_upto(tiles: Seq<TileType>, start: Point, n: int) -> Seq<Point>
    decreases n,
{
    if n <= 0 {
        Seq::empty()
    } else if spawnable(tiles, start, n - 1) {
        spawnable_upto(tiles, start, n - 1).push(tile_point(n - 1))
    } else {
        spawnable_upto(tiles, start, n - 1)
    }
}

/// The points of all spawnable tiles of `tiles`, in index order.
pub open spec fn spawnable_tiles(tiles: Seq<TileType>, start: Point) -> Seq<Point> {
    spawnable_upto(tiles, start, tiles.len() as int)
}

/// Whether `p` is on the map, on a floor tile of `tiles`, and more than 10
/// tiles from `start`.
pub open spec fn is_spawn_point(tiles: Seq<TileType>, start: Point, p: Point) -> bool {
    on_map(p) && tiles[tile_index(p)] == TileType::Floor && far_from(start, p)
}

/// The coordinates of `start` are such that its differences to the points of
/// the map fit an `i32`.
pub open spec fn distance_fits(start: Point) -> bool {
    start.x >= SCREEN_WIDTH - 1 - i32::MAX && start.y >= SCREEN_HEIGHT - 1 - i32::MAX
}

/// Whether `p` lies more than 10 tiles from `start` (Pythagoras).
fn beyond_ten(start: Point, p: Point) -> (b: bool)
    requires
        distance_fits(start),
        on_map(p),
    ensures
        b == far_from(start, p),
{
    let dx: i32 = if start.x > p.x { start.x - p.x } else { p.x - start.x };
    let dy: i32 = if start.y > p.y { start.y - p.y } else { p.y - start.y };
    let ux = dx as u64;
    let uy = dy as u64;
    assert(ux * ux <= 0x4000_0000_0000_0000 && uy * uy <= 0x4000_0000_0000_0000) by (nonlinear_arith)
        requires ux <= 0x7fff_ffff, uy <= 0x7fff_ffff;
    assert(ux * ux == (p.x - start.x) * (p.x - start.x) && uy * uy == (p.y - start.y) * (p.y - start.y))
        by (nonlinear_arith)
        requires ux == dx, uy == dy, dx == p.x - start.x || dx == start.x - p.x,
            dy == p.y - start.y || dy == start.y - p.y;
    ux * ux + uy * uy > 100
}

/// The points of the spawnable tiles among the first `n` lie on spawn points,
/// in strictly increasing index order, each below `n`.
proof fn lemma_spawnable_upto(tiles: Seq<TileType>, start: Point, n: int)
    requires
        0 <= n <= tiles.len() == NUM_TILES,
    ensures
        forall|a: int| 0 <= a < spawnable_upto(tiles, start, n).len() ==>
            is_spawn_point(tiles, start, #[trigger] spawnable_upto(tiles, start, n)[a])
            && 0 <= tile_index(spawnable_upto(tiles, start, n)[a]) < n,
        forall|a: int, b: int| 0 <= a < b < spawnable_upto(tiles, start, n).len() ==>
            tile_index(#[trigger] spawnable_upto(tiles, start, n)[a])
                < tile_index(#[trigger] spawnable_upto(tiles, start, n)[b]),
        spawnable_upto(tiles, start, n).len() <= n,
    decreases n,
{
    if n > 0 {
        lemma_spawnable_upto(tiles, start, n - 1);
        assert(n - 1 < 4000 ==> (n - 1) / 80 < 50) by (nonlinear_arith);
        lemma_index_point_roundtrip(n - 1);
        assert(on_map(tile_point(n - 1))) by {
            assert(0 <= (n - 1) % 80 < 80 && 0 <= (n - 1) / 80 < 50) by (nonlinear_arith)
                requires 0 <= n - 1 < 4000;
        }
    }
}

/// What is left of `pool` after the draws `draws`: each draw takes out the
/// point at its index among those left.
pub open spec fn remaining_after(pool: Seq<Point>, draws: Seq<usize>) -> Seq<Point>
    decreases draws.len(),
{
    if draws.len() == 0 {
        pool
    } else {
        remaining_after(pool, draws.drop_last()).remove(draws.last() as int)
    }
}

/// The points that the draws `draws` pick from `pool`, in order: each draw is
/// an index into the points not yet picked.
pub open spec fn picked_by(pool: Seq<Point>, draws: Seq<usize>) -> Seq<Point>
    decreases draws.len(),
{
    if draws.len() == 0 {
        Seq::empty()
    } else {
        picked_by(pool, draws.drop_last()).push(
            remaining_after(pool, draws.drop_last())[draws.last() as int],
        )
    }
}

/// Whether each of the draws is an index into the points not yet picked from
/// a pool of `n` points.
pub open spec fn draws_in_range(n: nat, draws: Seq<usize>) -> bool {
    forall|i: int| 0 <= i < draws.len() ==> #[trigger] draws[i] < n - i
}

/// In-range draws pick one point per draw, and the first draw picks the
/// point at its index in the whole pool; the pool loses one point per draw.
pub proof fn lemma_picked_by(pool: Seq<Point>, draws: Seq<usize>)
    requires
        draws_in_range(pool.len(), draws),
    ensures
        picked_by(pool, draws).len() == draws.len(),
        remaining_after(pool, draws).len() == pool.len() - draws.len(),
        draws.len() > 0 ==> picked_by(pool, draws)[0] == pool[draws[0] as int],
    decreases draws.len(),
{
    if draws.len() > 0 {
        let d = draws.drop_last();
        assert forall|i: int| 0 <= i < d.len() implies #[trigger] d[i] < pool.len() - i by {
            assert(d[i] == draws[i]);
        }
        lemma_picked_by(pool, d);
        assert(draws.last() == draws[draws.len() - 1]);
        if d.len() > 0 {
            assert(d[0] == draws[0]);
        } else {
            assert(draws.last() == draws[0]);
        }
    }
}

/// `a` and `b` are the same builder, but for their themes.
pub open spec fn same_but_theme(a: MapBuilder, b: MapBuilder) -> bool {
    &&& a.map == b.map
    &&& a.rooms == b.rooms
    &&& a.monster_spawns == b.monster_spawns
    &&& a.player_start == b.player_start
    &&& a.amulet_start == b.amulet_start
}

/// Draws the glyph of a tile type.
pub trait MapTheme: Sync + Send {
    fn tile_to_render(&self, tile_type: TileType) -> u16;
}

pub struct MapBuilder {
    pub map: TileMap,
    pub rooms: Vec<Rect>,
    pub monster_spawns: Vec<Point>,
    pub player_start: Point,
    pub amulet_start: Point,
    pub theme: ThemeKind,
}

impl MapBuilder {
    /// A builder holds a well-formed map.
    pub open spec fn wf(&self) -> bool {
        self.map.wf()
    }

    /// A builder with a map of floor tiles, no rooms and no monster spawns,
    /// whose player and amulet both start at the origin, in the dungeon theme.
    pub fn empty() -> (mb: MapBuilder)
        ensures
            mb.wf(),
            forall|i: int| 0 <= i < NUM_TILES ==> mb.map.tiles@[i] == TileType::Floor,
            mb.rooms@.len() == 0,
            mb.monster_spawns@.len() == 0,
            mb.player_start == (Point { x: 0, y: 0 }),
            mb.amulet_start == (Point { x: 0, y: 0 }),
            mb.theme == ThemeKind::Dungeon,
    {
        MapBuilder {
            map: TileMap::new(),
            rooms: Vec::new(),
            monster_spawns: Vec::new(),
            player_start: Point::zero(),
            amulet_start: Point::zero(),
            theme: ThemeKind::Dungeon,
        }
    }

    /// Finishes the builder of a new level from `built`, laid out by the
    /// architect that `choose_architect` drew, and the player's flow over it
    /// (per tile index, the distance key of its walking distance from the
    /// player's start): the fortress vault is stamped where it fits, as
    /// `apply_prefab` does, then the theme is drawn.
    pub fn new(built: MapBuilder, rng: &mut RandomNumberGenerator, flow: &Vec<u32>) -> (mb: MapBuilder)
        requires
            built.wf(),
            flow@.len() == NUM_TILES,
        ensures
            exists|tried: Seq<Point>, placed: MapBuilder|
                #[trigger] placement_attempts(&built, flow@, tried, &placed) && same_but_theme(placed, mb),
            exists|roll: i32| 0 <= roll < 3 && mb.theme == theme_of(roll),
    {
        let mut mb = built;
        apply_prefab(&mut mb, rng, flow);
        let ghost placed = mb;
        mb.theme = Self::choose_theme(rng);
        assert(same_but_theme(placed, mb));
        mb
    }

    /// The architect that a roll selects: 0 the drunkard's walk, 1 rooms,
    /// 2 cellular automata, and any other roll the empty architect.
    pub fn architect_for(roll: i32) -> (a: ArchitectKind)
        ensures
            a == architect_of(roll),
    {
        match roll {
            0 => ArchitectKind::DrunkardWalk,
            1 => ArchitectKind::Rooms,
            2 => ArchitectKind::CellularAutomata,
            _ => ArchitectKind::Empty,
        }
    }

    /// The theme that a roll selects: 0 the dungeon, 1 the sand fortress, any
    /// other roll the forest.
    pub fn theme_for(roll: i32) -> (t: ThemeKind)
        ensures
            t == theme_of(roll),
    {
        match roll {
            0 => ThemeKind::Dungeon,
            1 => ThemeKind::SandFortress,
            _ => ThemeKind::Forest,
        }
    }

    /// Draws the architect of a new level from `range(0, 3)`; the empty
    /// architect is never drawn.
    pub fn choose_architect(rng: &mut RandomNumberGenerator) -> (a: ArchitectKind)
        ensures
            exists|roll: i32| 0 <= roll < 3 && a == architect_of(roll),
            a != ArchitectKind::Empty,
    {
        let roll = rng_range(rng, 0, 3);
        Self::architect_for(roll)
    }

    /// Draws the theme of a new level from `range(0, 3)`.
    pub fn choose_theme(rng: &mut RandomNumberGenerator) -> (t: ThemeKind)
        ensures
            exists|roll: i32| 0 <= roll < 3 && t == theme_of(roll),
    {
        let roll = rng_range(rng, 0, 3);
        Self::theme_for(roll)
    }

    /// The index of the last of the reached tiles farthest from the player, or
    /// `None` when no tile was reached.
    pub fn most_distant_index(flow: &Vec<u32>) -> (r: Option<usize>)
        ensures
            r is None <==> forall|j: int| 0 <= j < flow@.len() ==> !reached(flow@, j),
            r matches Some(i) ==> is_most_distant(flow@, i as int),
    {
        let mut best: Option<usize> = None;
        let n = flow.len();
        let mut i: usize = 0;
        while i < n
            invariant
                n == flow@.len(),
                i <= n,
                best is None <==> forall|j: int| 0 <= j < i ==> !reached(flow@, j),
                best matches Some(b) ==> {
                    &&& b < i
                    &&& reached(flow@, b as int)
                    &&& forall|j: int| 0 <= j < i && reached(flow@, j) ==> #[trigger] flow@[j] <= flow@[b as int]
                    &&& forall|j: int| b < j < i && reached(flow@, j) ==> #[trigger] flow@[j] < flow@[b as int]
                },
            decreases n - i,
        {
            let d = flow[i];
            proof {
                if let Some(b) = best {
                    assert(reached(flow@, b as int));
                }
                assert(d < UNREACHABLE <==> reached(flow@, i as int));
            }
            if d < UNREACHABLE {
                match best {
                    None => {
                        best = Some(i);
                    },
                    Some(b) => {
                        if d >= flow[b] {
                            best = Some(i);
                        }
                    },
                }
            }
            i = i + 1;
        }
        best
    }

    /// The point of the last of the reached tiles farthest from the player.
    pub fn find_most_distant(&self, flow: &Vec<u32>) -> (p: Point)
        requires
            flow@.len() == NUM_TILES,
            exists|j: int| 0 <= j < flow@.len() && reached(flow@, j),
        ensures
            exists|i: int| is_most_distant(flow@, i) && p == tile_point(i),
    {
        let i = Self::most_distant_index(flow).unwrap();
        self.map.index_to_point2d(i)
    }

    /// The points of the floor tiles that lie more than 10 tiles from
    /// `start`, in index order.
    pub fn spawnable_points(&self, start: &Point) -> (pts: Vec<Point>)
        requires
            self.wf(),
            distance_fits(*start),
        ensures
            pts@ == spawnable_tiles(self.map.tiles@, *start),
            pts@.len() <= NUM_TILES,
            pts@.no_duplicates(),
            forall|k: int| 0 <= k < pts@.len() ==> is_spawn_point(self.map.tiles@, *start, #[trigger] pts@[k]),
    {
        let ghost tiles = self.map.tiles@;
        let mut spawnable_pts: Vec<Point> = Vec::new();
        let mut idx: usize = 0;
        while idx < NUM_TILES
            invariant
                self.wf(),
                tiles == self.map.tiles@,
                distance_fits(*start),
                idx <= NUM_TILES,
                spawnable_pts@ == spawnable_upto(tiles, *start, idx as int),
            decreases NUM_TILES - idx,
        {
            assert(idx / 80 < 50) by (nonlinear_arith) requires idx < 4000;
            let pt = self.map.index_to_point2d(idx);
            proof {
                assert(0 <= (idx as int) % 80 < 80) by (nonlinear_arith);
            }
            if self.map.tiles[idx] == TileType::Floor && beyond_ten(*start, pt) {
                spawnable_pts.push(pt);
            }
            idx = idx + 1;
        }
        proof {
            lemma_spawnable_upto(tiles, *start, NUM_TILES as int);
            assert forall|a: int, b: int| 0 <= a < spawnable_pts@.len() && 0 <= b < spawnable_pts@.len() && a != b
                implies spawnable_pts@[a] != spawnable_pts@[b] by {
                if a < b {
                    assert(tile_index(spawnable_pts@[a]) < tile_index(spawnable_pts@[b]));
                } else {
                    assert(tile_index(spawnable_pts@[b]) < tile_index(spawnable_pts@[a]));
                }
            }
        }
        spawnable_pts
    }

    /// Picks `NUM_MONSTERS` distinct monster spawns among the floor tiles that
    /// lie more than 10 tiles from `start`, drawing each from those not yet
    /// picked.
    pub fn spawn_monsters(&self, start: &Point, rng: &mut RandomNumberGenerator) -> (spawns: Vec<Point>)
        requires
            self.wf(),
            distance_fits(*start),
            spawnable_tiles(self.map.tiles@, *start).len() >= NUM_MONSTERS,
        ensures
            spawns@.len() == NUM_MONSTERS,
            spawns@.no_duplicates(),
            forall|k: int| 0 <= k < spawns@.len() ==> is_spawn_point(self.map.tiles@, *start, #[trigger] spawns@[k]),
            forall|k: int| 0 <= k < spawns@.len() ==> spawnable_tiles(self.map.tiles@, *start).contains(#[trigger] spawns@[k]),
            exists|draws: Seq<usize>|
                draws.len() == NUM_MONSTERS && draws_in_range(spawnable_tiles(self.map.tiles@, *start).len(), draws)
                    && spawns@ == #[trigger] picked_by(spawnable_tiles(self.map.tiles@, *start), draws),
    {
        let ghost tiles = self.map.tiles@;
        let ghost all = spawnable_tiles(tiles, *start);
        let mut spawnable_pts = self.spawnable_points(start);
        let mut spawns: Vec<Point> = Vec::new();
        let mut count: usize = 0;
        let ghost mut draws: Seq<usize> = Seq::empty();
        while count < NUM_MONSTERS
            invariant
                draws.len() == count,
                draws_in_range(all.len(), draws),
                spawnable_pts@ == remaining_after(all, draws),
                spawns@ == picked_by(all, draws),
                count <= NUM_MONSTERS,
                all.len() >= NUM_MONSTERS,
                all.len() <= NUM_TILES,
                spawns@.len() == count,
                spawnable_pts@.len() + count == all.len(),
                forall|a: int, b: int| 0 <= a < b < spawnable_pts@.len() ==> spawnable_pts@[a] != spawnable_pts@[b],
                forall|a: int, b: int| 0 <= a < b < spawns@.len() ==> spawns@[a] != spawns@[b],
                forall|a: int, b: int| 0 <= a < spawns@.len() && 0 <= b < spawnable_pts@.len() ==>
                    spawns@[a] != spawnable_pts@[b],
                forall|b: int| 0 <= b < spawnable_pts@.len() ==> all.contains(#[trigger] spawnable_pts@[b]),
                forall|a: int| 0 <= a < spawns@.len() ==> all.contains(#[trigger] spawns@[a]),
            decreases NUM_MONSTERS - count,
        {
            let target_index = random_slice_index(rng, spawnable_pts.as_slice()).unwrap();
            let pick = spawnable_pts[target_index];
            let ghost pool = spawnable_pts@;
            spawns.push(pick);
            spawnable_pts.remove(target_index);
            proof {
                let before = draws;
                draws = draws.push(target_index);
                assert(draws.drop_last() =~= before);
                assert forall|i: int| 0 <= i < draws.len() implies #[trigger] draws[i] < all.len() - i by {
                    if i < before.len() {
                        assert(draws[i] == before[i]);
                    }
                }
                assert(pool.contains(pick));
                assert forall|b: int| 0 <= b < spawnable_pts@.len() implies
                    spawnable_pts@[b] == if b < target_index { pool[b] } else { pool[b + 1] } by {}
            }
            count = count + 1;
        }
        proof {
            assert forall|k: int| 0 <= k < spawns@.len() implies is_spawn_point(tiles, *start, #[trigger] spawns@[k]) by {
                let a = choose|a: int| 0 <= a < all.len() && all[a] == spawns@[k];
            }
        }
        spawns
    }

    /// Sets every tile of the map to `tile`.
    pub fn fill(&mut self, tile: TileType)
        ensures
            final(self).map.tiles@.len() == old(self).map.tiles@.len(),
            forall|i: int| 0 <= i < final(self).map.tiles@.len() ==> final(self).map.tiles@[i] == tile,
            final(self).rooms == old(self).rooms,
            final(self).monster_spawns == old(self).monster_spawns,
            final(self).player_start == old(self).player_start,
            final(self).amulet_start == old(self).amulet_start,
            final(self).theme == old(self).theme,
    {
        let n = self.map.tiles.len();
        let mut i: usize = 0;
        while i < n
            invariant
                n == old(self).map.tiles@.len(),
                self.map.tiles@.len() == n,
                i <= n,
                forall|j: int| 0 <= j < i ==> self.map.tiles@[j] == tile,
                self.rooms == old(self).rooms,
                self.monster_spawns == old(self).monster_spawns,
                self.player_start == old(self).player_start,
                self.amulet_start == old(self).amulet_start,
                self.theme == old(self).theme,
            decreases n - i,
        {
            self.map.tiles.set(i, tile);
            i = i + 1;
        }
    }
}

} // verus!
