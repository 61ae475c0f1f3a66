use bot_control::movement::{parse_direction, MovementModule, MovementOptions, MovementPlan, Pause, WalkDirection};
use bot_control::scaffold::{ScaffoldAction, ScaffoldMode, ScaffoldModule};

fn opts(mode: &str, dir: &str, sync: bool, impulsive: bool, x: Option<i32>, z: Option<i32>) -> MovementOptions {
    MovementOptions {
        mode: mode.to_string(),
        direction: dir.to_string(),
        use_sync: sync,
        use_impulsiveness: impulsive,
        x,
        z,
        state: true,
    }
}

#[test]
fn directions() {
    assert_eq!(parse_direction("forward"), Some(WalkDirection::Forward));
    assert_eq!(parse_direction("backward"), Some(WalkDirection::Backward));
    assert_eq!(parse_direction("left"), Some(WalkDirection::Left));
    assert_eq!(parse_direction("right"), Some(WalkDirection::Right));
    assert_eq!(parse_direction("up"), None);
}

#[test]
fn default_walk_plans() {
    let m = MovementModule::new();
    assert_eq!(
        m.enable(&opts("default", "left", true, true, None, None)),
        MovementPlan::Walk {
            direction: Some(WalkDirection::Left),
            initial_pause: None,
            repeat_pause: Some(Pause::Fixed { millis: 1200 }),
        }
    );
    assert_eq!(
        m.enable(&opts("default", "forward", false, true, None, None)),
        MovementPlan::Walk {
            direction: Some(WalkDirection::Forward),
            initial_pause: Some(Pause::Random { min: 500, max: 2000 }),
            repeat_pause: Some(Pause::Random { min: 800, max: 1800 }),
        }
    );
    assert_eq!(
        m.enable(&opts("default", "sideways", true, false, None, None)),
        MovementPlan::Walk { direction: None, initial_pause: None, repeat_pause: None }
    );
}

#[test]
fn pathfinder_needs_both_coordinates() {
    let m = MovementModule::new();
    assert_eq!(
        m.enable(&opts("pathfinder", "", false, false, Some(5), Some(-7))),
        MovementPlan::Goto { x: 5, z: -7, initial_pause: Some(Pause::Random { min: 500, max: 2000 }) }
    );
    assert_eq!(m.enable(&opts("pathfinder", "", true, false, Some(5), None)), MovementPlan::Idle);
    assert_eq!(m.enable(&opts("teleport", "", true, false, Some(5), Some(1))), MovementPlan::Idle);
}

#[test]
fn scaffold_modes_and_steps() {
    assert_eq!(ScaffoldModule::enable("ninja-bridge"), Some(ScaffoldMode::NinjaBridge));
    assert_eq!(ScaffoldModule::enable("god-bridge"), Some(ScaffoldMode::GodBridge));
    assert_eq!(ScaffoldModule::enable("jump-bridge"), Some(ScaffoldMode::JumpBridge));
    assert_eq!(ScaffoldModule::enable("bridge"), None);
    assert_eq!(ScaffoldModule::tick_delay(None), 1);
    assert_eq!(ScaffoldModule::tick_delay(Some(4)), 4);
    assert!(ScaffoldModule::place_actions(ScaffoldMode::GodBridge, false).is_empty());
    let ninja = ScaffoldModule::place_actions(ScaffoldMode::NinjaBridge, true);
    assert_eq!(ninja.len(), 7);
    assert_eq!(ninja[0], ScaffoldAction::Crouch);
    assert_eq!(ninja[6], ScaffoldAction::Uncrouch);
    assert_eq!(
        ScaffoldModule::place_actions(ScaffoldMode::JumpBridge, true),
        vec![ScaffoldAction::Jump, ScaffoldAction::SwingArm, ScaffoldAction::UseItem, ScaffoldAction::Jitter]
    );
    assert_eq!(
        ScaffoldModule::place_actions(ScaffoldMode::GodBridge, true),
        vec![ScaffoldAction::SwingArm, ScaffoldAction::UseItem, ScaffoldAction::Jitter]
    );
}
