use dread_crawler::components::Rgb;
use dread_crawler::components::{FieldOfView, Player};
use dread_crawler::game::{
    entities_to_keep, enter_next_level, game_over_lines, mark_dirty, tick_action, victory_lines, TickAction,
    TurnState,
};
use dread_crawler::geometry::Point;

#[test]
fn frame_actions() {
    assert_eq!(tick_action(TurnState::AwaitingInput), TickAction::RunInputSystems);
    assert_eq!(tick_action(TurnState::PlayerTurn), TickAction::RunTurnSystems);
    assert_eq!(tick_action(TurnState::MonsterTurn), TickAction::RunTurnSystems);
    assert_eq!(tick_action(TurnState::GameOver), TickAction::ShowGameOver);
    assert_eq!(tick_action(TurnState::Victory), TickAction::ShowVictory);
    assert_eq!(tick_action(TurnState::NextLevel), TickAction::GoToNextLevel);
}

#[test]
fn end_screens() {
    let over = game_over_lines();
    assert_eq!(over.len(), 5);
    assert_eq!(over[0].row, 2);
    assert_eq!(over[0].fg, Rgb { r: 255, g: 0, b: 0 });
    assert_eq!(over[0].text, "Tavo misija baigesi.");
    assert_eq!(over[4].text, "Spausk 1 ir zaisk is naujo.");
    assert_eq!(over[3].fg, Rgb { r: 255, g: 255, b: 0 });
    let won = victory_lines();
    assert_eq!(won.len(), 4);
    assert_eq!(won[0].text, "Tu laimejai!");
    assert_eq!(won[3].row, 7);
    assert_eq!(won[3].fg, Rgb { r: 0, g: 255, b: 0 });
}

#[test]
fn player_and_carried_items_stay() {
    let carried_by = vec![None, Some(0), Some(3), None, Some(0)];
    assert_eq!(entities_to_keep(3, &carried_by), vec![false, false, true, true, false]);
    assert_eq!(entities_to_keep(0, &carried_by), vec![true, true, false, false, true]);
}

#[test]
fn next_level_moves_the_player() {
    let mut player = Player { map_level: 1 };
    let mut pos = Point::new(5, 5);
    assert_eq!(enter_next_level(&mut player, &mut pos, Point::new(20, 30)), 2);
    assert_eq!(player.map_level, 2);
    assert_eq!(pos, Point::new(20, 30));
    let mut fov = FieldOfView { radius: 8, is_dirty: false };
    mark_dirty(&mut fov);
    assert_eq!(fov, FieldOfView { radius: 8, is_dirty: true });
}
