//! The game's turn states, what each frame does in them, and the text of the
//! end screens.

use vstd::prelude::*;
use crate::components::{FieldOfView, Player, Rgb};
use crate::geometry::Point;

verus! {

/// Whose move it is, or how the game has ended.
#[derive(Clone, Copy, Debug, PartialEq, Eq, Structural)]
pub enum TurnState {
    AwaitingInput,
    PlayerTurn,
    MonsterTurn,
    GameOver,
    Victory,
    NextLevel,
}

/// What a frame does.
#[derive(Clone, Copy, Debug, PartialEq, Eq, Structural)]
pub enum TickAction {
    /// Runs the input schedule.
    RunInputSystems,
    /// Runs the turn schedule.
    RunTurnSystems,
    /// Shows the game-over screen, restarting on the `1` key.
    ShowGameOver,
    /// Shows the victory screen, restarting on the `1` key.
    ShowVictory,
    /// Moves the player to the next level.
    GoToNextLevel,
}

/// What a frame does in `state`: while the game waits for input it runs the
/// input schedule, in the player's and the monsters' turns the turn schedule;
/// the end states show their screens, and the next-level state changes level.
pub fn tick_action(state: TurnState) -> (a: TickAction)
    ensures
        a == match state {
            TurnState::AwaitingInput => TickAction::RunInputSystems,
            TurnState::GameOver => TickAction::ShowGameOver,
            TurnState::Victory => TickAction::ShowVictory,
            TurnState::NextLevel => TickAction::GoToNextLevel,
            TurnState::PlayerTurn | TurnState::MonsterTurn => TickAction::RunTurnSystems,
        },
{
    match state {
        TurnState::AwaitingInput => TickAction::RunInputSystems,
        TurnState::GameOver => TickAction::ShowGameOver,
        TurnState::Victory => TickAction::ShowVictory,
        TurnState::NextLevel => TickAction::GoToNextLevel,
        _ => TickAction::RunTurnSystems,
    }
}

/// A line of text centered on screen row `row`, in `fg` on black.
#[derive(Clone, Debug, PartialEq, Eq)]
pub struct ScreenLine {
    pub row: i32,
    pub fg: Rgb,
    pub text: String,
}

pub open spec fn line_is(l: ScreenLine, row: i32, fg: Rgb, text: Seq<char>) -> bool {
    l.row == row && l.fg == fg && l.text@ == text
}

fn line(row: i32, fg: Rgb, text: &str) -> (l: ScreenLine)
    ensures
        line_is(l, row, fg, text@),
{
    ScreenLine { row, fg, text: text.to_string() }
}

/// The lines of the screen shown when the monsters have won.
pub fn game_over_lines() -> (lines: Vec<ScreenLine>)
    ensures
        lines@.len() == 5,
        line_is(lines@[0], 2, Rgb::spec_red(), "Tavo misija baigesi."@),
        line_is(lines@[1], 4, Rgb::spec_white(), "Monstrai tave nugalejo, tavo herojaus kelione baigesi anksciau..."@),
        line_is(lines@[2], 5, Rgb::spec_white(), "YALA amuletas vis dar nerastas ir namu miestelis neisgelbetas."@),
        line_is(lines@[3], 8, Rgb::spec_yellow(), "Nesijaudink, galesi pameginti su kitu herojumi."@),
        line_is(lines@[4], 9, Rgb::spec_green(), "Spausk 1 ir zaisk is naujo."@),
{
    let mut lines: Vec<ScreenLine> = Vec::new();
    lines.push(line(2, Rgb::red(), "Tavo misija baigesi."));
    lines.push(line(4, Rgb::white(), "Monstrai tave nugalejo, tavo herojaus kelione baigesi anksciau..."));
    lines.push(line(5, Rgb::white(), "YALA amuletas vis dar nerastas ir namu miestelis neisgelbetas."));
    lines.push(line(8, Rgb::yellow(), "Nesijaudink, galesi pameginti su kitu herojumi."));
    lines.push(line(9, Rgb::green(), "Spausk 1 ir zaisk is naujo."));
    lines
}

/// The lines of the screen shown when the player has won.
pub fn victory_lines() -> (lines: Vec<ScreenLine>)
    ensures
        lines@.len() == 4,
        line_is(lines@[0], 2, Rgb::spec_green(), "Tu laimejai!"@),
        line_is(lines@[1], 4, Rgb::spec_white(), "Herojus uzsidejo YALA amuleta ir pajuto galia tekancia jo venomis."@),
        line_is(lines@[2], 5, Rgb::spec_white(), "Tavo miestelis isgelbetas, galima gryszti i normalu gyvenima."@),
        line_is(lines@[3], 7, Rgb::spec_green(), "Arba spausk 1 ir zaisk is naujo."@),
{
    let mut lines: Vec<ScreenLine> = Vec::new();
    lines.push(line(2, Rgb::green(), "Tu laimejai!"));
    lines.push(line(4, Rgb::white(), "Herojus uzsidejo YALA amuleta ir pajuto galia tekancia jo venomis."));
    lines.push(line(5, Rgb::white(), "Tavo miestelis isgelbetas, galima gryszti i normalu gyvenima."));
    lines.push(line(7, Rgb::green(), "Arba spausk 1 ir zaisk is naujo."));
    lines
}

/// Which entities stay when the player goes down a level: the player itself
/// and what it carries. Entities are numbered `0..carried_by.len()`; entity
/// `i` is carried by entity `c` when `carried_by[i]` is `Some(c)`.
pub fn entities_to_keep(player: usize, carried_by: &Vec<Option<usize>>) -> (keep: Vec<bool>)
    ensures
        keep@.len() == carried_by@.len(),
        forall|i: int| 0 <= i < keep@.len() ==>
            #[trigger] keep@[i] == (i == player || carried_by@[i] == Some(player)),
{
    let mut keep: Vec<bool> = Vec::new();
    let n = carried_by.len();
    let mut i: usize = 0;
    while i < n
        invariant
            n == carried_by@.len(),
            i <= n,
            keep@.len() == i,
            forall|j: int| 0 <= j < i ==> #[trigger] keep@[j] == (j == player || carried_by@[j] == Some(player)),
        decreases n - i,
    {
        let carried = match carried_by[i] {
            Some(c) => c == player,
            None => false,
        };
        keep.push(i == player || carried);
        i = i + 1;
    }
    keep
}

/// Moves the player down one level: its map level goes up by one and it
/// stands at the new level's start. Gives the new map level.
pub fn enter_next_level(player: &mut Player, pos: &mut Point, start: Point) -> (level: u32)
    requires
        old(player).map_level < u32::MAX,
    ensures
        final(player).map_level == old(player).map_level + 1,
        level == final(player).map_level,
        *final(pos) == start,
{
    player.map_level = player.map_level + 1;
    pos.x = start.x;
    pos.y = start.y;
    player.map_level
}

/// A field of view must be computed again on a new level.
pub fn mark_dirty(fov: &mut FieldOfView)
    ensures
        final(fov).radius == old(fov).radius,
        final(fov).is_dirty,
{
    fov.is_dirty = true;
}

} // verus!
