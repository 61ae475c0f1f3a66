//! Movement: walking in a direction, once or in impulses, or heading for a
//! column with the pathfinder.

use vstd::prelude::*;
use crate::text::text_eq;

verus! {

/// A walking direction.
#[derive(Clone, Copy, Debug, PartialEq, Eq, Structural)]
pub enum WalkDirection {
    Forward,
    Backward,
    Left,
    Right,
}

/// A pause, either of a fixed length or drawn at random from `min..=max`,
/// in milliseconds.
#[derive(Clone, Copy, Debug, PartialEq, Eq, Structural)]
pub enum Pause {
    Fixed { millis: u64 },
    Random { min: u64, max: u64 },
}

/// What the movement module does.
#[derive(Clone, Copy, Debug, PartialEq, Eq, Structural)]
pub enum MovementPlan {
    /// Nothing.
    Idle,
    /// Wait `initial_pause` if given, then walk in `direction` (standing
    /// still for an unknown direction). With `repeat_pause`, walk in
    /// impulses for ever: walk, pause, stop, again.
    Walk { direction: Option<WalkDirection>, initial_pause: Option<Pause>, repeat_pause: Option<Pause> },
    /// Wait `initial_pause` if given, then path-find to column `(x, z)`
    /// without mining.
    Goto { x: i32, z: i32, initial_pause: Option<Pause> },
}

/// The movement module's options.
#[derive(Clone, Debug)]
pub struct MovementOptions {
    pub mode: String,
    pub direction: String,
    pub use_sync: bool,
    pub use_impulsiveness: bool,
    pub x: Option<i32>,
    pub z: Option<i32>,
    pub state: bool,
}

/// The direction a name gives: "forward", "backward", "left" or "right".
pub open spec fn direction_spec(name: Seq<char>) -> Option<WalkDirection> {
    if name == "forward"@ {
        Some(WalkDirection::Forward)
    } else if name == "backward"@ {
        Some(WalkDirection::Backward)
    } else if name == "left"@ {
        Some(WalkDirection::Left)
    } else if name == "right"@ {
        Some(WalkDirection::Right)
    } else {
        None
    }
}

/// Unsynchronised bots start after a random pause of 0.5 to 2 seconds, so
/// that they do not all move at once.
pub open spec fn start_pause_spec(use_sync: bool) -> Option<Pause> {
    if use_sync {
        None
    } else {
        Some(Pause::Random { min: 500, max: 2000 })
    }
}

/// The plan the options give.
pub open spec fn movement_plan_spec(o: MovementOptions) -> MovementPlan {
    if o.mode@ == "default"@ {
        MovementPlan::Walk {
            direction: direction_spec(o.direction@),
            initial_pause: start_pause_spec(o.use_sync),
            repeat_pause: if o.use_impulsiveness {
                Some(
                    if o.use_sync {
                        Pause::Fixed { millis: 1200 }
                    } else {
                        Pause::Random { min: 800, max: 1800 }
                    },
                )
            } else {
                None
            },
        }
    } else if o.mode@ == "pathfinder"@ {
        match (o.x, o.z) {
            (Some(x), Some(z)) => MovementPlan::Goto {
                x,
                z,
                initial_pause: start_pause_spec(o.use_sync),
            },
            _ => MovementPlan::Idle,
        }
    } else {
        MovementPlan::Idle
    }
}

/// Synchronised bots start at once and unsynchronised ones after a random
/// pause of 0.5 to 2 s, in both modes; the pathfinder heads for exactly the
/// given column when both coordinates are given, and does nothing without
/// one; impulses pause 1.2 s when synchronised and 0.8 to 1.8 s otherwise,
/// and only impulsive walks repeat.
pub proof fn lemma_movement_timing(o: MovementOptions)
    ensures
        movement_plan_spec(o) matches MovementPlan::Walk { initial_pause, .. } ==> initial_pause == (
        if o.use_sync {
            None
        } else {
            Some(Pause::Random { min: 500, max: 2000 })
        }),
        movement_plan_spec(o) matches MovementPlan::Goto { initial_pause, .. } ==> initial_pause == (
        if o.use_sync {
            None
        } else {
            Some(Pause::Random { min: 500, max: 2000 })
        }),
        movement_plan_spec(o) matches MovementPlan::Goto { x, z, .. } ==> o.x == Some(x) && o.z == Some(
            z,
        ),
        o.mode@ == "pathfinder"@ && o.x is Some && o.z is Some ==> movement_plan_spec(o) is Goto,
        o.mode@ == "pathfinder"@ && (o.x is None || o.z is None) ==> movement_plan_spec(o) is Idle,
        o.mode@ == "default"@ ==> movement_plan_spec(o) is Walk,
        o.mode@ != "default"@ && o.mode@ != "pathfinder"@ ==> movement_plan_spec(o) is Idle,
        movement_plan_spec(o) matches MovementPlan::Walk { repeat_pause, .. } ==> repeat_pause == (
        if !o.use_impulsiveness {
            None
        } else if o.use_sync {
            Some(Pause::Fixed { millis: 1200 })
        } else {
            Some(Pause::Random { min: 800, max: 1800 })
        }),
{
    reveal_strlit("default");
    reveal_strlit("pathfinder");
    assert("default"@[0] != "pathfinder"@[0]);
}

/// Each direction name gives its own direction; other names give none.
pub proof fn lemma_direction_names(name: Seq<char>)
    ensures
        direction_spec("forward"@) == Some(WalkDirection::Forward),
        direction_spec("backward"@) == Some(WalkDirection::Backward),
        direction_spec("left"@) == Some(WalkDirection::Left),
        direction_spec("right"@) == Some(WalkDirection::Right),
        (direction_spec(name) is Some) == (name == "forward"@ || name == "backward"@ || name == "left"@
            || name == "right"@),
{
    reveal_strlit("forward");
    reveal_strlit("backward");
    reveal_strlit("left");
    reveal_strlit("right");
    assert("backward"@[0] != "forward"@[0]);
    assert("left"@[0] != "forward"@[0]);
    assert("left"@[0] != "backward"@[0]);
    assert("right"@[0] != "forward"@[0]);
    assert("right"@[0] != "backward"@[0]);
    assert("right"@[0] != "left"@[0]);
}

/// The direction a name gives.
pub fn parse_direction(name: &str) -> (res: Option<WalkDirection>)
    ensures
        res == direction_spec(name@),
{
    if text_eq(name, "forward") {
        Some(WalkDirection::Forward)
    } else if text_eq(name, "backward") {
        Some(WalkDirection::Backward)
    } else if text_eq(name, "left") {
        Some(WalkDirection::Left)
    } else if text_eq(name, "right") {
        Some(WalkDirection::Right)
    } else {
        None
    }
}

/// The movement module.
pub struct MovementModule;

impl MovementModule {
    pub fn new() -> (res: MovementModule) {
        MovementModule
    }

    /// The plan for the options: "default" walks, "pathfinder" heads for
    /// the given column when both coordinates are given, anything else does
    /// nothing.
    pub fn enable(&self, options: &MovementOptions) -> (res: MovementPlan)
        ensures
            res == movement_plan_spec(*options),
    {
        let initial_pause = if options.use_sync {
            None
        } else {
            Some(Pause::Random { min: 500, max: 2000 })
        };
        if text_eq(options.mode.as_str(), "default") {
            MovementPlan::Walk {
                direction: parse_direction(options.direction.as_str()),
                initial_pause,
                repeat_pause: if options.use_impulsiveness {
                    Some(
                        if options.use_sync {
                            Pause::Fixed { millis: 1200 }
                        } else {
                            Pause::Random { min: 800, max: 1800 }
                        },
                    )
                } else {
                    None
                },
            }
        } else if text_eq(options.mode.as_str(), "pathfinder") {
            match (options.x, options.z) {
                (Some(x), Some(z)) => MovementPlan::Goto { x, z, initial_pause },
                _ => MovementPlan::Idle,
            }
        } else {
            MovementPlan::Idle
        }
    }
}

} // verus!
