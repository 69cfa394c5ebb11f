//! The components that make up the entities of the game world, and the plan
//! of one entity to be spawned.

use vstd::prelude::*;
use crate::geometry::Point;

verus! {

/// An RGB color.
#[derive(Clone, Copy, Debug, PartialEq, Eq, Structural)]
pub struct Rgb {
    pub r: u8,
    pub g: u8,
    pub b: u8,
}

impl Rgb {
    pub open spec fn spec_white() -> Rgb {
        Rgb { r: 255, g: 255, b: 255 }
    }

    pub open spec fn spec_black() -> Rgb {
        Rgb { r: 0, g: 0, b: 0 }
    }

    pub open spec fn spec_red() -> Rgb {
        Rgb { r: 255, g: 0, b: 0 }
    }

    pub open spec fn spec_yellow() -> Rgb {
        Rgb { r: 255, g: 255, b: 0 }
    }

    pub open spec fn spec_green() -> Rgb {
        Rgb { r: 0, g: 255, b: 0 }
    }

    /// `bracket_lib`'s named color `RED`, (255, 0, 0).
    #[verifier::when_used_as_spec(spec_red)]
    pub fn red() -> (c: Rgb)
        ensures
            c == Self::spec_red(),
    {
        Rgb { r: 255, g: 0, b: 0 }
    }

    /// `bracket_lib`'s named color `YELLOW`, (255, 255, 0).
    #[verifier::when_used_as_spec(spec_yellow)]
    pub fn yellow() -> (c: Rgb)
        ensures
            c == Self::spec_yellow(),
    {
        Rgb { r: 255, g: 255, b: 0 }
    }

    /// `bracket_lib`'s named color `GREEN`, (0, 255, 0).
    #[verifier::when_used_as_spec(spec_green)]
    pub fn green() -> (c: Rgb)
        ensures
            c == Self::spec_green(),
    {
        Rgb { r: 0, g: 255, b: 0 }
    }

    /// `bracket_lib`'s named color `WHITE`, (255, 255, 255).
    #[verifier::when_used_as_spec(spec_white)]
    pub fn white() -> (c: Rgb)
        ensures
            c == Self::spec_white(),
    {
        Rgb { r: 255, g: 255, b: 255 }
    }

    /// `bracket_lib`'s named color `BLACK`, (0, 0, 0).
    #[verifier::when_used_as_spec(spec_black)]
    pub fn black() -> (c: Rgb)
        ensures
            c == Self::spec_black(),
    {
        Rgb { r: 0, g: 0, b: 0 }
    }
}

/// The code page 437 code that `bracket_lib`'s `to_cp437` gives a character.
pub uninterp spec fn cp437(c: char) -> u16;

/// Calls `bracket_lib::prelude::to_cp437`, a table from characters to code
/// page 437 codes (0 for a character with none). Its result is named `cp437`;
/// the table maps each printable ASCII character (`' '` to `'~'`) to its own
/// code, which is claimed as well.
#[verifier::external_body]
pub fn to_cp437(c: char) -> (r: u16)
    ensures
        r == cp437(c),
        32 <= (c as u32) <= 126 ==> r as u32 == c as u32,
{
    bracket_lib::prelude::to_cp437(c)
}

/// A foreground and a background color.
#[derive(Clone, Copy, Debug, PartialEq, Eq, Structural)]
pub struct ColorPair {
    pub fg: Rgb,
    pub bg: Rgb,
}

impl ColorPair {
    pub fn new(fg: Rgb, bg: Rgb) -> (c: ColorPair)
        ensures
            c.fg == fg,
            c.bg == bg,
    {
        ColorPair { fg, bg }
    }
}

/// How an entity is drawn: its colors and its glyph.
#[derive(Clone, Copy, Debug, PartialEq, Eq, Structural)]
pub struct Render {
    pub color: ColorPair,
    pub glyph: u16,
}

/// The player, with the dungeon level it is on.
#[derive(Clone, Copy, Debug, PartialEq, Eq, Structural)]
pub struct Player {
    pub map_level: u32,
}

#[derive(Clone, Copy, Debug, PartialEq, Eq, Structural)]
pub struct Health {
    pub current: i32,
    pub max: i32,
}

#[derive(Clone, Debug, PartialEq, Eq)]
pub struct Name(pub String);

/// What an entity sees: its view radius, and whether its visible tiles must
/// be computed again.
#[derive(Clone, Copy, Debug, PartialEq, Eq, Structural)]
pub struct FieldOfView {
    pub radius: i32,
    pub is_dirty: bool,
}

impl FieldOfView {
    /// A field of view of radius `radius`, still to be computed.
    pub fn new(radius: i32) -> (f: FieldOfView)
        ensures
            f.radius == radius,
            f.is_dirty,
    {
        FieldOfView { radius, is_dirty: true }
    }
}

/// The damage that an entity deals.
#[derive(Clone, Copy, Debug, PartialEq, Eq, Structural)]
pub struct Damage(pub i32);

#[derive(Clone, Copy, Debug, PartialEq, Eq, Structural)]
pub struct ProvidesHealing {
    pub amount: i32,
}

/// What an item provides when it is used.
#[derive(Clone, Debug, PartialEq, Eq)]
pub enum Provided {
    Healing(ProvidesHealing),
    DungeonMap,
    /// A name that no effect is known by: it is reported, and nothing is added.
    Unknown(String),
}

/// The components of one entity to be added to the world. The marker
/// components (enemy, item, amulet, chasing the player, weapon) are flags;
/// `provides` lists the effects in the order in which they are added.
#[derive(Clone, Debug, PartialEq, Eq)]
pub struct EntitySpawn {
    pub pos: Point,
    pub render: Render,
    pub name: Name,
    pub player: Option<Player>,
    pub enemy: bool,
    pub item: bool,
    pub amulet: bool,
    pub chasing_player: bool,
    pub weapon: bool,
    pub field_of_view: Option<FieldOfView>,
    pub health: Option<Health>,
    pub damage: Option<Damage>,
    pub provides: Vec<Provided>,
}

} // verus!
