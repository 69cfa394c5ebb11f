//! The order in which the game's systems run.

use vstd::prelude::*;

verus! {

/// One step of a schedule: a system, or a flush of the commands that the
/// systems before it queued.
#[derive(Clone, Copy, Debug, PartialEq, Eq, Structural)]
pub enum SystemStep {
    PlayerInput,
    Fov,
    MapRender,
    EntityRender,
    Hud,
    Tooltip,
    Chasing,
    RandomMove,
    UseItems,
    Combat,
    Movement,
    EndTurn,
    Flush,
}

/// The steps run while the game waits for the player's input: input and
/// field of view, a flush, then drawing.
pub open spec fn input_schedule() -> Seq<SystemStep> {
    seq![
        SystemStep::PlayerInput,
        SystemStep::Fov,
        SystemStep::Flush,
        SystemStep::MapRender,
        SystemStep::EntityRender,
        SystemStep::Hud,
        SystemStep::Tooltip,
    ]
}

/// The steps of a player's or the monsters' turn: input; monster moves; item
/// use and combat; movement; field of view; drawing, and the end of the turn;
/// with a flush between the groups.
pub open spec fn turn_schedule() -> Seq<SystemStep> {
    seq![
        SystemStep::PlayerInput,
        SystemStep::Flush,
        SystemStep::Chasing,
        SystemStep::RandomMove,
        SystemStep::Flush,
        SystemStep::UseItems,
        SystemStep::Combat,
        SystemStep::Flush,
        SystemStep::Movement,
        SystemStep::Flush,
        SystemStep::Fov,
        SystemStep::Flush,
        SystemStep::MapRender,
        SystemStep::EntityRender,
        SystemStep::Hud,
        SystemStep::Tooltip,
        SystemStep::EndTurn,
    ]
}

pub fn build_input_scheduler() -> (steps: Vec<SystemStep>)
    ensures
        steps@ == input_schedule(),
{
    let mut steps: Vec<SystemStep> = Vec::new();
    steps.push(SystemStep::PlayerInput);
    steps.push(SystemStep::Fov);
    steps.push(SystemStep::Flush);
    steps.push(SystemStep::MapRender);
    steps.push(SystemStep::EntityRender);
    steps.push(SystemStep::Hud);
    steps.push(SystemStep::Tooltip);
    assert(steps@ =~= input_schedule());
    steps
}

pub fn build_turn_scheduler() -> (steps: Vec<SystemStep>)
    ensures
        steps@ == turn_schedule(),
{
    let mut steps: Vec<SystemStep> = Vec::new();
    steps.push(SystemStep::PlayerInput);
    steps.push(SystemStep::Flush);
    steps.push(SystemStep::Chasing);
    steps.push(SystemStep::RandomMove);
    steps.push(SystemStep::Flush);
    steps.push(SystemStep::UseItems);
    steps.push(SystemStep::Combat);
    steps.push(SystemStep::Flush);
    steps.push(SystemStep::Movement);
    steps.push(SystemStep::Flush);
    steps.push(SystemStep::Fov);
    steps.push(SystemStep::Flush);
    steps.push(SystemStep::MapRender);
    steps.push(SystemStep::EntityRender);
    steps.push(SystemStep::Hud);
    steps.push(SystemStep::Tooltip);
    steps.push(SystemStep::EndTurn);
    assert(steps@ =~= turn_schedule());
    steps
}

} // verus!
