//! The tile map: a row-major grid of `SCREEN_WIDTH` by `SCREEN_HEIGHT` tiles.

use vstd::prelude::*;
use crate::geometry::Point;

verus! {

pub const SCREEN_WIDTH: i32 = 80;

pub const SCREEN_HEIGHT: i32 = 50;

/// The number of tiles of a map: `SCREEN_WIDTH * SCREEN_HEIGHT`.
pub const NUM_TILES: usize = 4000;

#[derive(Clone, Copy, Debug, PartialEq, Eq, Structural)]
pub enum TileType {
    Wall,
    Floor,
    Exit,
}

/// The index of the tile at `p` in a row-major grid `SCREEN_WIDTH` wide.
pub open spec fn tile_index(p: Point) -> int {
    p.y * SCREEN_WIDTH + p.x
}

/// The point of the tile at index `i` of a row-major grid `SCREEN_WIDTH` wide.
pub open spec fn tile_point(i: int) -> Point {
    Point { x: (i % (SCREEN_WIDTH as int)) as i32, y: (i / (SCREEN_WIDTH as int)) as i32 }
}

/// Whether `p` lies on the map.
pub open spec fn on_map(p: Point) -> bool {
    0 <= p.x < SCREEN_WIDTH && 0 <= p.y < SCREEN_HEIGHT
}

/// The index of the tile at column `x`, row `y`.
pub fn map_idx(x: i32, y: i32) -> (idx: usize)
    requires
        0 <= y * SCREEN_WIDTH + x <= i32::MAX,
        i32::MIN <= y * SCREEN_WIDTH <= i32::MAX,
    ensures
        idx == y * SCREEN_WIDTH + x,
{
    (y * SCREEN_WIDTH + x) as usize
}

pub struct TileMap {
    pub tiles: Vec<TileType>,
}

impl TileMap {
    /// A map holds exactly one tile per grid cell.
    pub open spec fn wf(&self) -> bool {
        self.tiles@.len() == NUM_TILES
    }

    /// A map of `NUM_TILES` floor tiles.
    pub fn new() -> (m: TileMap)
        ensures
            m.wf(),
            forall|i: int| 0 <= i < NUM_TILES ==> m.tiles@[i] == TileType::Floor,
    {
        let mut tiles: Vec<TileType> = Vec::new();
        let mut i: usize = 0;
        while i < NUM_TILES
            invariant
                i <= NUM_TILES,
                tiles@.len() == i,
                forall|j: int| 0 <= j < i ==> tiles@[j] == TileType::Floor,
            decreases NUM_TILES - i,
        {
            tiles.push(TileType::Floor);
            i = i + 1;
        }
        TileMap { tiles }
    }

    /// Whether `p` lies on the map.
    pub fn in_bounds(&self, p: Point) -> (b: bool)
        ensures
            b == on_map(p),
    {
        0 <= p.x && p.x < SCREEN_WIDTH && 0 <= p.y && p.y < SCREEN_HEIGHT
    }

    /// The index of the tile at `pt`.
    pub fn point2d_to_index(&self, pt: Point) -> (idx: usize)
        requires
            0 <= tile_index(pt) <= i32::MAX,
            i32::MIN <= pt.y * SCREEN_WIDTH <= i32::MAX,
        ensures
            idx == tile_index(pt),
    {
        (pt.y * SCREEN_WIDTH + pt.x) as usize
    }

    /// The point of the tile at index `idx`.
    pub fn index_to_point2d(&self, idx: usize) -> (p: Point)
        requires
            idx / (SCREEN_WIDTH as usize) <= i32::MAX,
        ensures
            p == tile_point(idx as int),
    {
        let w: usize = 80;
        Point::new((idx % w) as i32, (idx / w) as i32)
    }
}

/// Turning an index into a point and back gives the index again.
pub proof fn lemma_index_point_roundtrip(i: int)
    requires
        0 <= i,
        i / (SCREEN_WIDTH as int) <= i32::MAX,
    ensures
        tile_index(tile_point(i)) == i,
{
    assert(i == (i / 80) * 80 + i % 80) by (nonlinear_arith)
        requires 0 <= i;
}

/// Turning a point of the map into an index and back gives the point again.
pub proof fn lemma_point_index_roundtrip(p: Point)
    requires
        on_map(p),
    ensures
        tile_point(tile_index(p)) == p,
        0 <= tile_index(p) < NUM_TILES,
{
    let i = p.y * 80 + p.x;
    assert(i % 80 == p.x && i / 80 == p.y) by (nonlinear_arith)
        requires i == p.y * 80 + p.x, 0 <= p.x < 80, 0 <= p.y;
}

/// The points of distinct tile indices are distinct.
pub proof fn lemma_tile_point_injective(i: int, j: int)
    requires
        0 <= i,
        0 <= j,
        i / (SCREEN_WIDTH as int) <= i32::MAX,
        j / (SCREEN_WIDTH as int) <= i32::MAX,
        tile_point(i) == tile_point(j),
    ensures
        i == j,
{
    lemma_index_point_roundtrip(i);
    lemma_index_point_roundtrip(j);
}

} // verus!
