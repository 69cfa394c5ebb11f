use dread_crawler::systems::SystemStep::{
    Chasing, Combat, EndTurn, EntityRender, Flush, Fov, Hud, MapRender, Movement, PlayerInput, RandomMove,
    Tooltip, UseItems,
};
use dread_crawler::systems::{build_input_scheduler, build_turn_scheduler};

#[test]
fn input_schedule_order() {
    assert_eq!(
        build_input_scheduler(),
        vec![PlayerInput, Fov, Flush, MapRender, EntityRender, Hud, Tooltip]
    );
}

#[test]
fn turn_schedule_order() {
    assert_eq!(
        build_turn_scheduler(),
        vec![
            PlayerInput, Flush, Chasing, RandomMove, Flush, UseItems, Combat, Flush, Movement, Flush,
            Fov, Flush, MapRender, EntityRender, Hud, Tooltip, EndTurn
        ]
    );
}
