//! The fortress vault that may be stamped onto a level.

use vstd::prelude::*;
use vstd::string::StrSliceExecFns;
use crate::geometry::{Point, Rect};
use crate::map::{
    lemma_point_index_roundtrip, map_idx, on_map, tile_index, tile_point, TileType, NUM_TILES,
    SCREEN_HEIGHT, SCREEN_WIDTH,
};
use crate::map_builder::MapBuilder;
use crate::random::rng_range;
use bracket_lib::prelude::RandomNumberGenerator;

verus! {

/// The fortress, one text line per row: `-` is floor, `#` is wall and `M` is
/// floor where a monster appears.
pub const FORTRESS: &'static str = "------------
---######---
---#----#---
---#-M--#---
-###----###-
--M------M--
-###----###-
---#----#---
---#----#---
---######---
------------";

pub const FORTRESS_WIDTH: i32 = 12;

pub const FORTRESS_HEIGHT: i32 = 11;

/// How many times a place for the fortress is drawn before giving up.
pub const PLACEMENT_ATTEMPTS: u32 = 10;

/// The distance key of 20.0: the fortress goes where some tile of it lies
/// farther than this from the player.
pub const NEAR_KEY: u32 = 0x41a0_0000;

/// The distance key of 2000.0: ... and nearer than this.
pub const FAR_KEY: u32 = 0x44fa_0000;

pub open spec fn is_cell_char(c: char) -> bool {
    c != '\r' && c != '\n'
}

/// The cells of the fortress in row-major order: its text without line breaks.
pub open spec fn fortress_cells() -> Seq<char> {
    seq!['-', '-', '-', '-', '-', '-', '-', '-', '-', '-', '-', '-']
        + seq!['-', '-', '-', '#', '#', '#', '#', '#', '#', '-', '-', '-']
        + seq!['-', '-', '-', '#', '-', '-', '-', '-', '#', '-', '-', '-']
        + seq!['-', '-', '-', '#', '-', 'M', '-', '-', '#', '-', '-', '-']
        + seq!['-', '#', '#', '#', '-', '-', '-', '-', '#', '#', '#', '-']
        + seq!['-', '-', 'M', '-', '-', '-', '-', '-', '-', 'M', '-', '-']
        + seq!['-', '#', '#', '#', '-', '-', '-', '-', '#', '#', '#', '-']
        + seq!['-', '-', '-', '#', '-', '-', '-', '-', '#', '-', '-', '-']
        + seq!['-', '-', '-', '#', '-', '-', '-', '-', '#', '-', '-', '-']
        + seq!['-', '-', '-', '#', '#', '#', '#', '#', '#', '-', '-', '-']
        + seq!['-', '-', '-', '-', '-', '-', '-', '-', '-', '-', '-', '-']
}

/// The number of cells of the fortress.
pub open spec fn fortress_size() -> int {
    FORTRESS_WIDTH * FORTRESS_HEIGHT
}

/// The point of cell `k` of a fortress whose top-left corner is `at`.
pub open spec fn cell_point(at: Point, k: int) -> Point {
    Point { x: (at.x + k % (FORTRESS_WIDTH as int)) as i32, y: (at.y + k / (FORTRESS_WIDTH as int)) as i32 }
}

/// The cell of a fortress at `at` that covers the tile at index `j`.
pub open spec fn cell_of(at: Point, j: int) -> int {
    (tile_point(j).y - at.y) * FORTRESS_WIDTH + (tile_point(j).x - at.x)
}

/// The area that a fortress at `at` covers.
pub open spec fn fortress_area(at: Point) -> Rect {
    Rect { x1: at.x, y1: at.y, x2: (at.x + FORTRESS_WIDTH) as i32, y2: (at.y + FORTRESS_HEIGHT) as i32 }
}

/// The corners at which the fortress is drawn to stand: it then lies
/// wholly on the map.
pub open spec fn valid_origin(at: Point) -> bool {
    0 <= at.x < SCREEN_WIDTH - FORTRESS_WIDTH && 0 <= at.y < SCREEN_HEIGHT - FORTRESS_HEIGHT
}

/// The tile that a cell character makes of the tile `old` beneath it.
pub open spec fn cell_tile(c: char, old: TileType) -> TileType {
    if c == 'M' || c == '-' {
        TileType::Floor
    } else if c == '#' {
        TileType::Wall
    } else {
        old
    }
}

/// Whether the tile at `p` is a good anchor for the fortress: its distance
/// key lies strictly between `NEAR_KEY` and `FAR_KEY`, and the amulet does
/// not start there.
pub open spec fn good_anchor(mb: &MapBuilder, flow: Seq<u32>, p: Point) -> bool {
    NEAR_KEY < flow[tile_index(p)] < FAR_KEY && p != mb.amulet_start
}

/// Whether the fortress can stand at `at`: one of its cells is a good anchor.
pub open spec fn fortress_fits(mb: &MapBuilder, flow: Seq<u32>, at: Point) -> bool {
    exists|k: int| 0 <= k < fortress_size() && good_anchor(mb, flow, #[trigger] cell_point(at, k))
}

/// Whether the fortress fits at every valid corner.
pub open spec fn fits_everywhere(mb: &MapBuilder, flow: Seq<u32>) -> bool {
    forall|at: Point| valid_origin(at) ==> #[trigger] fortress_fits(mb, flow, at)
}

/// `tried` records the corners drawn by the placement of the fortress, from
/// `before` to `after`: between one and `PLACEMENT_ATTEMPTS` valid corners, none
/// but the last of which fits. If the last fits, the fortress stands there;
/// otherwise every try failed and nothing changed.
pub open spec fn placement_attempts(before: &MapBuilder, flow: Seq<u32>, tried: Seq<Point>, after: &MapBuilder) -> bool {
    &&& 1 <= tried.len() <= PLACEMENT_ATTEMPTS
    &&& forall|i: int| 0 <= i < tried.len() ==> valid_origin(#[trigger] tried[i])
    &&& forall|i: int| 0 <= i < tried.len() - 1 ==> !fortress_fits(before, flow, #[trigger] tried[i])
    &&& if fortress_fits(before, flow, tried.last()) {
        fortress_placed(before, tried.last(), after)
    } else {
        tried.len() == PLACEMENT_ATTEMPTS && *after == *before
    }
}

/// The points of the first `n` cells of a fortress at `at` that hold `M`, in
/// row-major order.
pub open spec fn fortress_monsters_upto(at: Point, n: int) -> Seq<Point>
    decreases n,
{
    if n <= 0 {
        Seq::empty()
    } else if fortress_cells()[n - 1] == 'M' {
        fortress_monsters_upto(at, n - 1).push(cell_point(at, n - 1))
    } else {
        fortress_monsters_upto(at, n - 1)
    }
}

/// The monster spawns of a fortress at `at`, in row-major order.
pub open spec fn fortress_monsters(at: Point) -> Seq<Point> {
    fortress_monsters_upto(at, fortress_size())
}

/// Whether a point lies outside the area of a fortress at `at`.
pub open spec fn outside_fortress(at: Point) -> spec_fn(Point) -> bool {
    |p: Point| !fortress_area(at).covers(p)
}

/// `after` is `before` with the fortress stamped at `at`: the tiles it covers
/// are set from its cells (`-` and `M` cells become floor, `#` cells wall,
/// whatever lay there), every other tile is kept; the monster spawns inside
/// its area are dropped and its own spawns appended; nothing else changes.
pub open spec fn fortress_placed(before: &MapBuilder, at: Point, after: &MapBuilder) -> bool {
    &&& after.map.tiles@.len() == before.map.tiles@.len()
    &&& forall|k: int| 0 <= k < fortress_size() ==>
        after.map.tiles@[tile_index(#[trigger] cell_point(at, k))]
            == cell_tile(fortress_cells()[k], before.map.tiles@[tile_index(cell_point(at, k))])
    &&& forall|k: int| 0 <= k < fortress_size() && (fortress_cells()[k] == '-' || fortress_cells()[k] == 'M')
        ==> after.map.tiles@[tile_index(#[trigger] cell_point(at, k))] == TileType::Floor
    &&& forall|k: int| 0 <= k < fortress_size() && fortress_cells()[k] == '#'
        ==> after.map.tiles@[tile_index(#[trigger] cell_point(at, k))] == TileType::Wall
    &&& forall|j: int| 0 <= j < before.map.tiles@.len() && !fortress_area(at).covers(#[trigger] tile_point(j))
        ==> after.map.tiles@[j] == before.map.tiles@[j]
    &&& after.monster_spawns@ == before.monster_spawns@.filter(outside_fortress(at))
        + fortress_monsters(at)
    &&& after.rooms == before.rooms
    &&& after.player_start == before.player_start
    &&& after.amulet_start == before.amulet_start
    &&& after.theme == before.theme
}

proof fn lemma_filter_keeps_all(s: Seq<char>)
    requires
        forall|i: int| 0 <= i < s.len() ==> is_cell_char(#[trigger] s[i]),
    ensures
        s.filter(|c: char| is_cell_char(c)) == s,
    decreases s.len(),
{
    reveal(Seq::filter);
    if s.len() > 0 {
        lemma_filter_keeps_all(s.drop_last());
        assert(s.drop_last().push(s.last()) =~= s);
    }
}

/// The fortress text without its line breaks is `fortress_cells()`.
proof fn lemma_fortress_cells()
    ensures
        FORTRESS@.filter(|c: char| is_cell_char(c)) == fortress_cells(),
        fortress_cells().len() == fortress_size(),
{
    reveal_strlit("------------
---######---
---#----#---
---#-M--#---
-###----###-
--M------M--
-###----###-
---#----#---
---#----#---
---######---
------------");
    let nl: Seq<char> = seq!['\n'];
    let r0: Seq<char> = seq!['-', '-', '-', '-', '-', '-', '-', '-', '-', '-', '-', '-'];
    let r1: Seq<char> = seq!['-', '-', '-', '#', '#', '#', '#', '#', '#', '-', '-', '-'];
    let r2: Seq<char> = seq!['-', '-', '-', '#', '-', '-', '-', '-', '#', '-', '-', '-'];
    let r3: Seq<char> = seq!['-', '-', '-', '#', '-', 'M', '-', '-', '#', '-', '-', '-'];
    let r4: Seq<char> = seq!['-', '#', '#', '#', '-', '-', '-', '-', '#', '#', '#', '-'];
    let r5: Seq<char> = seq!['-', '-', 'M', '-', '-', '-', '-', '-', '-', 'M', '-', '-'];
    let r6: Seq<char> = seq!['-', '#', '#', '#', '-', '-', '-', '-', '#', '#', '#', '-'];
    let r7: Seq<char> = seq!['-', '-', '-', '#', '-', '-', '-', '-', '#', '-', '-', '-'];
    let r8: Seq<char> = seq!['-', '-', '-', '#', '-', '-', '-', '-', '#', '-', '-', '-'];
    let r9: Seq<char> = seq!['-', '-', '-', '#', '#', '#', '#', '#', '#', '-', '-', '-'];
    let r10: Seq<char> = seq!['-', '-', '-', '-', '-', '-', '-', '-', '-', '-', '-', '-'];
    let s = r0 + nl + r1 + nl + r2 + nl + r3 + nl + r4 + nl + r5 + nl + r6 + nl + r7 + nl + r8 + nl + r9 + nl + r10;
    assert(FORTRESS@ =~= s);
    let p = |c: char| is_cell_char(c);
    assert(nl.filter(p) =~= Seq::<char>::empty()) by {
        reveal_with_fuel(Seq::filter, 2);
        assert(nl.drop_last() =~= Seq::<char>::empty());
    }
    lemma_filter_keeps_all(r0);
    lemma_filter_keeps_all(r1);
    lemma_filter_keeps_all(r2);
    lemma_filter_keeps_all(r3);
    lemma_filter_keeps_all(r4);
    lemma_filter_keeps_all(r5);
    lemma_filter_keeps_all(r6);
    lemma_filter_keeps_all(r7);
    lemma_filter_keeps_all(r8);
    lemma_filter_keeps_all(r9);
    lemma_filter_keeps_all(r10);
    broadcast use Seq::filter_distributes_over_add;

    assert(s.filter(p) =~= r0 + r1 + r2 + r3 + r4 + r5 + r6 + r7 + r8 + r9 + r10);
    assert(r0 + r1 + r2 + r3 + r4 + r5 + r6 + r7 + r8 + r9 + r10 =~= fortress_cells());
}

/// Taking one more element of `s` through a filter appends it when it passes.
proof fn lemma_filter_take_step<A>(s: Seq<A>, p: spec_fn(A) -> bool, i: int)
    requires
        0 <= i < s.len(),
    ensures
        s.take(i + 1).filter(p) == if p(s[i]) {
            s.take(i).filter(p).push(s[i])
        } else {
            s.take(i).filter(p)
        },
{
    reveal_with_fuel(Seq::filter, 1);
    assert(s.take(i + 1).drop_last() =~= s.take(i));
}

/// The cells of the fortress, read from its text.
fn fortress_glyphs() -> (v: Vec<char>)
    ensures
        v@ == fortress_cells(),
{
    let n = FORTRESS.unicode_len();
    let mut v: Vec<char> = Vec::new();
    let mut i: usize = 0;
    while i < n
        invariant
            n == FORTRESS@.len(),
            i <= n,
            v@ == FORTRESS@.take(i as int).filter(|c: char| is_cell_char(c)),
        decreases n - i,
    {
        let c = FORTRESS.get_char(i);
        proof {
            lemma_filter_take_step(FORTRESS@, |c: char| is_cell_char(c), i as int);
        }
        if c != '\r' && c != '\n' {
            v.push(c);
        }
        i = i + 1;
    }
    proof {
        assert(FORTRESS@.take(n as int) =~= FORTRESS@);
        lemma_fortress_cells();
    }
    v
}

/// Each cell of a fortress standing at a valid origin lies on the map, inside
/// the fortress area, and is the cell that covers its own tile.
pub proof fn lemma_cell_geometry(at: Point, k: int)
    requires
        valid_origin(at),
        0 <= k < fortress_size(),
    ensures
        on_map(cell_point(at, k)),
        fortress_area(at).covers(cell_point(at, k)),
        0 <= tile_index(cell_point(at, k)) < NUM_TILES,
        tile_point(tile_index(cell_point(at, k))) == cell_point(at, k),
        cell_of(at, tile_index(cell_point(at, k))) == k,
{
    assert(k == (k / 12) * 12 + k % 12 && 0 <= k / 12 < 11) by (nonlinear_arith)
        requires 0 <= k < 132;
    lemma_point_index_roundtrip(cell_point(at, k));
}

/// A tile inside the area of a fortress is covered by exactly one of its cells.
proof fn lemma_covered_tile(at: Point, j: int)
    requires
        valid_origin(at),
        0 <= j < NUM_TILES,
        fortress_area(at).covers(tile_point(j)),
    ensures
        0 <= cell_of(at, j) < fortress_size(),
        j == tile_index(cell_point(at, cell_of(at, j))),
{
    let dx = tile_point(j).x - at.x;
    let dy = tile_point(j).y - at.y;
    let c = dy * 12 + dx;
    assert(c % 12 == dx && c / 12 == dy && 0 <= c < 132) by (nonlinear_arith)
        requires c == dy * 12 + dx, 0 <= dx < 12, 0 <= dy < 11;
    crate::map::lemma_index_point_roundtrip(j);
}

/// Whether the fortress can stand with its top-left corner at `at`: whether
/// one of the tiles it would cover is a good anchor.
pub fn can_place_fortress(mb: &MapBuilder, flow: &Vec<u32>, at: Point) -> (b: bool)
    requires
        flow@.len() == NUM_TILES,
        valid_origin(at),
    ensures
        b == fortress_fits(mb, flow@, at),
{
    let mut can_place = false;
    let mut k: usize = 0;
    while k < 132
        invariant
            flow@.len() == NUM_TILES,
            valid_origin(at),
            k <= 132,
            can_place == exists|k2: int| 0 <= k2 < k && good_anchor(mb, flow@, #[trigger] cell_point(at, k2)),
        decreases 132 - k,
    {
        let pt = Point::new(at.x + (k % 12) as i32, at.y + (k / 12) as i32);
        proof {
            lemma_cell_geometry(at, k as int);
            assert(pt == cell_point(at, k as int));
        }
        let idx = mb.map.point2d_to_index(pt);
        let distance = flow[idx];
        if distance < FAR_KEY && distance > NEAR_KEY && mb.amulet_start != pt {
            can_place = true;
        }
        k = k + 1;
    }
    can_place
}

/// Stamps the fortress onto the level with its top-left corner at `at`: the
/// monster spawns inside its area are dropped, its tiles are set from its
/// cells, and a monster spawn is added at each of its `M` cells.
pub fn place_fortress(mb: &mut MapBuilder, at: Point)
    requires
        old(mb).wf(),
        valid_origin(at),
    ensures
        fortress_placed(&*old(mb), at, &*final(mb)),
{
    let ghost old_tiles = mb.map.tiles@;
    let ghost old_spawns = mb.monster_spawns@;
    let area = Rect::with_size(at.x, at.y, FORTRESS_WIDTH, FORTRESS_HEIGHT);
    assert(area == fortress_area(at));
    let mut kept: Vec<Point> = Vec::new();
    let n = mb.monster_spawns.len();
    let mut i: usize = 0;
    while i < n
        invariant
            n == old_spawns.len(),
            mb.monster_spawns@ == old_spawns,
            area == fortress_area(at),
            i <= n,
            kept@ == old_spawns.take(i as int).filter(outside_fortress(at)),
        decreases n - i,
    {
        let p = mb.monster_spawns[i];
        proof {
            lemma_filter_take_step(old_spawns, outside_fortress(at), i as int);
        }
        if !area.point_in_rect(p) {
            kept.push(p);
        }
        i = i + 1;
    }
    assert(old_spawns.take(n as int) =~= old_spawns);
    mb.monster_spawns = kept;

    let cells = fortress_glyphs();
    let mut k: usize = 0;
    while k < 132
        invariant
            valid_origin(at),
            cells@ == fortress_cells(),
            fortress_cells().len() == fortress_size(),
            old(mb).wf(),
            old_tiles == old(mb).map.tiles@,
            k <= 132,
            mb.map.tiles@.len() == NUM_TILES,
            forall|k2: int| 0 <= k2 < k ==>
                mb.map.tiles@[tile_index(#[trigger] cell_point(at, k2))]
                    == cell_tile(fortress_cells()[k2], old_tiles[tile_index(cell_point(at, k2))]),
            forall|j: int| 0 <= j < NUM_TILES && (!fortress_area(at).covers(tile_point(j)) || cell_of(at, j) >= k)
                ==> #[trigger] mb.map.tiles@[j] == old_tiles[j],
            mb.monster_spawns@ == old_spawns.filter(outside_fortress(at)) + fortress_monsters_upto(at, k as int),
            mb.rooms == old(mb).rooms,
            mb.player_start == old(mb).player_start,
            mb.amulet_start == old(mb).amulet_start,
            mb.theme == old(mb).theme,
        decreases 132 - k,
    {
        let tx = at.x + (k % 12) as i32;
        let ty = at.y + (k / 12) as i32;
        let ghost pt = cell_point(at, k as int);
        proof {
            lemma_cell_geometry(at, k as int);
            assert(tx == pt.x && ty == pt.y);
        }
        let idx = map_idx(tx, ty);
        let ghost before = mb.map.tiles@;
        let c = cells[k];
        if c == 'M' {
            mb.map.tiles.set(idx, TileType::Floor);
            mb.monster_spawns.push(Point::new(tx, ty));
        } else if c == '-' {
            mb.map.tiles.set(idx, TileType::Floor);
        } else if c == '#' {
            mb.map.tiles.set(idx, TileType::Wall);
        }
        proof {
            assert(before[idx as int] == old_tiles[idx as int]);
            assert forall|k2: int| 0 <= k2 < k + 1 implies
                mb.map.tiles@[tile_index(#[trigger] cell_point(at, k2))]
                    == cell_tile(fortress_cells()[k2], old_tiles[tile_index(cell_point(at, k2))]) by {
                lemma_cell_geometry(at, k2);
            }
            assert forall|j: int| 0 <= j < NUM_TILES && (!fortress_area(at).covers(tile_point(j)) || cell_of(at, j) >= k + 1)
                implies #[trigger] mb.map.tiles@[j] == old_tiles[j] by {
                if j == idx as int {
                    assert(fortress_area(at).covers(tile_point(j)));
                    assert(cell_of(at, j) == k);
                }
            }
            assert(mb.monster_spawns@ == old_spawns.filter(outside_fortress(at)) + fortress_monsters_upto(at, k + 1));
        }
        k = k + 1;
    }
}

/// Where the placement of the fortress stands: the corner it was placed at, if
/// any, and how many corners were tried.
#[derive(Clone, Copy, Debug, PartialEq, Eq, Structural)]
pub struct PrefabPlacement {
    pub placement: Option<Point>,
    pub attempts: u32,
}

impl PrefabPlacement {
    /// No corner tried yet.
    pub fn start() -> (s: PrefabPlacement)
        ensures
            s.placement is None,
            s.attempts == 0,
    {
        PrefabPlacement { placement: None, attempts: 0 }
    }

    /// Whether the placement is over: the fortress stands, or every try was
    /// spent.
    pub fn is_done(&self) -> (b: bool)
        ensures
            b == (self.placement is Some || self.attempts >= PLACEMENT_ATTEMPTS),
    {
        self.placement.is_some() || self.attempts >= PLACEMENT_ATTEMPTS
    }
}

/// One try of the placement with the drawn corner `at`: it counts the try,
/// and stamps the fortress there when it fits, recording the corner;
/// otherwise nothing changes.
pub fn prefab_step(mb: &mut MapBuilder, flow: &Vec<u32>, state: PrefabPlacement, at: Point) -> (next: PrefabPlacement)
    requires
        old(mb).wf(),
        flow@.len() == NUM_TILES,
        valid_origin(at),
        state.placement is None,
        state.attempts < PLACEMENT_ATTEMPTS,
    ensures
        next.attempts == state.attempts + 1,
        fortress_fits(&*old(mb), flow@, at) ==> next.placement == Some(at)
            && fortress_placed(&*old(mb), at, &*final(mb)),
        !fortress_fits(&*old(mb), flow@, at) ==> next.placement is None && *final(mb) == *old(mb),
{
    let mut placement = None;
    if can_place_fortress(mb, flow, at) {
        placement = Some(at);
        place_fortress(mb, at);
    }
    PrefabPlacement { placement, attempts: state.attempts + 1 }
}

/// Tries up to `PLACEMENT_ATTEMPTS` times to stamp the fortress vault onto the
/// level: each try draws a top-left corner that keeps the fortress on the map,
/// and the first corner at which it fits is used. `flow` holds, per tile index,
/// the distance key of the tile's walking distance from the player's start.
/// The corners tried form a record of at most `PLACEMENT_ATTEMPTS` valid
/// corners, none but the last of which fits: the fortress stands at the last
/// when it fits there, and otherwise all `PLACEMENT_ATTEMPTS` tries failed and
/// nothing changes. When it fits at every valid corner, it is always placed.
pub fn apply_prefab(mb: &mut MapBuilder, rng: &mut RandomNumberGenerator, flow: &Vec<u32>)
    requires
        old(mb).wf(),
        flow@.len() == NUM_TILES,
    ensures
        exists|tried: Seq<Point>| #[trigger] placement_attempts(&*old(mb), flow@, tried, &*final(mb)),
        *final(mb) == *old(mb) || exists|at: Point|
            valid_origin(at) && fortress_fits(&*old(mb), flow@, at)
                && #[trigger] fortress_placed(&*old(mb), at, &*final(mb)),
        fits_everywhere(&*old(mb), flow@) ==> exists|at: Point|
            valid_origin(at) && #[trigger] fortress_placed(&*old(mb), at, &*final(mb)),
{
    let mut state = PrefabPlacement::start();
    let ghost mut tried: Seq<Point> = Seq::empty();
    while !state.is_done()
        invariant
            old(mb).wf(),
            flow@.len() == NUM_TILES,
            state.attempts <= PLACEMENT_ATTEMPTS,
            tried.len() == state.attempts,
            forall|i: int| 0 <= i < tried.len() ==> valid_origin(#[trigger] tried[i]),
            forall|i: int| 0 <= i < tried.len() - 1 ==> !fortress_fits(&*old(mb), flow@, #[trigger] tried[i]),
            state.placement is None ==> forall|i: int| 0 <= i < tried.len() ==> !fortress_fits(&*old(mb), flow@, #[trigger] tried[i]),
            state.placement matches Some(at) ==> tried.len() >= 1 && at == tried.last(),
            state.placement is None ==> *mb == *old(mb),
            state.placement matches Some(at) ==> valid_origin(at) && fortress_fits(&*old(mb), flow@, at)
                && fortress_placed(&*old(mb), at, &*mb),
            fits_everywhere(&*old(mb), flow@) && state.attempts > 0 ==> state.placement is Some,
        decreases PLACEMENT_ATTEMPTS - state.attempts,
    {
        let x = rng_range(rng, 0, SCREEN_WIDTH - FORTRESS_WIDTH);
        let y = rng_range(rng, 0, SCREEN_HEIGHT - FORTRESS_HEIGHT);
        let dimensions = Rect::with_size(x, y, FORTRESS_WIDTH, FORTRESS_HEIGHT);
        let at = Point::new(dimensions.x1, dimensions.y1);
        proof {
            tried = tried.push(at);
        }
        state = prefab_step(mb, flow, state, at);
    }
    assert(placement_attempts(&*old(mb), flow@, tried, &*mb));
}


proof fn lemma_fortress_monsters_upto(at: Point, n: int)
    requires
        0 <= n <= 132,
    ensures
        fortress_monsters_upto(at, n) == if n <= 41 {
            Seq::<Point>::empty()
        } else if n <= 62 {
            seq![cell_point(at, 41)]
        } else if n <= 69 {
            seq![cell_point(at, 41), cell_point(at, 62)]
        } else {
            seq![cell_point(at, 41), cell_point(at, 62), cell_point(at, 69)]
        },
    decreases n,
{
    let cells = fortress_cells();
    assert(cells[41] == 'M' && cells[62] == 'M' && cells[69] == 'M');
    if n > 0 {
        lemma_fortress_monsters_upto(at, n - 1);
        assert(cells[n - 1] == 'M' <==> (n - 1 == 41 || n - 1 == 62 || n - 1 == 69));
        if n - 1 == 41 {
            assert(seq![cell_point(at, 41)] =~= Seq::<Point>::empty().push(cell_point(at, 41)));
        } else if n - 1 == 62 {
            assert(seq![cell_point(at, 41), cell_point(at, 62)] =~= seq![cell_point(at, 41)].push(cell_point(at, 62)));
        } else if n - 1 == 69 {
            assert(seq![cell_point(at, 41), cell_point(at, 62), cell_point(at, 69)]
                =~= seq![cell_point(at, 41), cell_point(at, 62)].push(cell_point(at, 69)));
        }
    }
}

/// The fortress brings exactly three monster spawns: at its cells (5, 3),
/// (2, 5) and (9, 5), counted from its top-left corner, in that order.
pub proof fn lemma_fortress_monsters(at: Point)
    ensures
        fortress_monsters(at) == seq![cell_point(at, 41), cell_point(at, 62), cell_point(at, 69)],
{
    lemma_fortress_monsters_upto(at, 132);
}

/// Every cell of the fortress is `-`, `M` or `#`.
pub proof fn lemma_fortress_cell_chars(k: int)
    requires
        0 <= k < fortress_size(),
    ensures
        fortress_cells()[k] == '-' || fortress_cells()[k] == 'M' || fortress_cells()[k] == '#',
{
}

/// Once the fortress stands at a valid corner `at`, a tile inside its area is
/// a wall exactly when the layout has `#` at that place, and floor otherwise,
/// whatever the tile was before.
pub proof fn lemma_fortress_area_tiles(before: &MapBuilder, at: Point, after: &MapBuilder, j: int)
    requires
        before.wf(),
        valid_origin(at),
        fortress_placed(before, at, after),
        0 <= j < NUM_TILES,
        fortress_area(at).covers(tile_point(j)),
    ensures
        after.map.tiles@[j] == TileType::Wall <==> fortress_cells()[cell_of(at, j)] == '#',
        after.map.tiles@[j] == TileType::Floor <==> fortress_cells()[cell_of(at, j)] != '#',
{
    lemma_covered_tile(at, j);
    let k = cell_of(at, j);
    lemma_fortress_cell_chars(k);
    assert(after.map.tiles@[tile_index(cell_point(at, k))] == after.map.tiles@[j]);
}

/// Once the fortress stands at `at`, the only monster spawns inside its area
/// are its own three, and every earlier spawn outside it is kept.
pub proof fn lemma_fortress_clears_area(before: &MapBuilder, at: Point, after: &MapBuilder)
    requires
        fortress_placed(before, at, after),
    ensures
        after.monster_spawns@.len() == before.monster_spawns@.filter(outside_fortress(at)).len() + 3,
        forall|k: int| 0 <= k < after.monster_spawns@.len()
            && fortress_area(at).covers(#[trigger] after.monster_spawns@[k])
            ==> fortress_monsters(at).contains(after.monster_spawns@[k]),
        forall|k: int| 0 <= k < before.monster_spawns@.len()
            && !fortress_area(at).covers(#[trigger] before.monster_spawns@[k])
            ==> after.monster_spawns@.contains(before.monster_spawns@[k]),
{
    lemma_fortress_monsters(at);
    let kept = before.monster_spawns@.filter(outside_fortress(at));
    let added = fortress_monsters(at);
    assert forall|k: int| 0 <= k < after.monster_spawns@.len()
        && fortress_area(at).covers(#[trigger] after.monster_spawns@[k])
        implies added.contains(after.monster_spawns@[k]) by {
        if k < kept.len() {
            kept.lemma_filter_pred(outside_fortress(at), k);
        } else {
            assert(after.monster_spawns@[k] == added[k - kept.len()]);
        }
    }
    assert forall|k: int| 0 <= k < before.monster_spawns@.len()
        && !fortress_area(at).covers(#[trigger] before.monster_spawns@[k])
        implies after.monster_spawns@.contains(before.monster_spawns@[k]) by {
        before.monster_spawns@.lemma_filter_contains_rev(outside_fortress(at), before.monster_spawns@[k]);
        let i = choose|i: int| 0 <= i < kept.len() && kept[i] == before.monster_spawns@[k];
        assert(after.monster_spawns@[i] == kept[i]);
    }
}

} // verus!
