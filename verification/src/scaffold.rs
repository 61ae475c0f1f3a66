//! Scaffold: the three bridging styles and what each does when the block
//! under the bot is air.

use vstd::prelude::*;
use crate::text::text_eq;

verus! {

/// The bridging styles.
#[derive(Clone, Copy, Debug, PartialEq, Eq, Structural)]
pub enum ScaffoldMode {
    NinjaBridge,
    GodBridge,
    JumpBridge,
}

/// One step of placing a block.
#[derive(Clone, Copy, Debug, PartialEq, Eq, Structural)]
pub enum ScaffoldAction {
    Crouch,
    Uncrouch,
    Jump,
    /// Wait a random number of ticks in `min..=max`.
    WaitTicks { min: u64, max: u64 },
    SwingArm,
    UseItem,
    /// Turn the head by a small random amount.
    Jitter,
}

/// The steps of a tick: nothing while there is a block under the bot;
/// otherwise swing and place, with the style's crouch or jump around it.
pub open spec fn place_actions_spec(mode: ScaffoldMode, below_is_air: bool) -> Seq<ScaffoldAction> {
    if !below_is_air {
        seq![]
    } else {
        match mode {
            ScaffoldMode::NinjaBridge => seq![
                ScaffoldAction::Crouch,
                ScaffoldAction::WaitTicks { min: 1, max: 2 },
                ScaffoldAction::SwingArm,
                ScaffoldAction::UseItem,
                ScaffoldAction::WaitTicks { min: 1, max: 2 },
                ScaffoldAction::Jitter,
                ScaffoldAction::Uncrouch,
            ],
            ScaffoldMode::GodBridge => seq![
                ScaffoldAction::SwingArm,
                ScaffoldAction::UseItem,
                ScaffoldAction::Jitter,
            ],
            ScaffoldMode::JumpBridge => seq![
                ScaffoldAction::Jump,
                ScaffoldAction::SwingArm,
                ScaffoldAction::UseItem,
                ScaffoldAction::Jitter,
            ],
        }
    }
}

/// Over air every style swings the arm and then uses the held block exactly
/// once each; a ninja bridge crouches first and stands up last, a jump
/// bridge jumps first. Over a block nothing is done.
pub proof fn lemma_places_one_block(mode: ScaffoldMode, below_is_air: bool)
    ensures
        !below_is_air ==> place_actions_spec(mode, below_is_air).len() == 0,
        below_is_air ==> exists|u: int, w: int|
            0 <= w < u < place_actions_spec(mode, below_is_air).len()
                && place_actions_spec(mode, below_is_air)[u] == ScaffoldAction::UseItem
                && place_actions_spec(mode, below_is_air)[w] == ScaffoldAction::SwingArm
                && forall|k: int|
                0 <= k < place_actions_spec(mode, below_is_air).len() && k != u
                    ==> place_actions_spec(mode, below_is_air)[k] != ScaffoldAction::UseItem,
        below_is_air && mode == ScaffoldMode::NinjaBridge ==> place_actions_spec(mode, below_is_air)[0]
            == ScaffoldAction::Crouch && place_actions_spec(mode, below_is_air).last()
            == ScaffoldAction::Uncrouch,
        below_is_air && mode == ScaffoldMode::JumpBridge ==> place_actions_spec(mode, below_is_air)[0]
            == ScaffoldAction::Jump,
{
    let s = place_actions_spec(mode, below_is_air);
    if below_is_air {
        match mode {
            ScaffoldMode::NinjaBridge => {
                assert(s[2] == ScaffoldAction::SwingArm && s[3] == ScaffoldAction::UseItem);
                assert forall|k: int| 0 <= k < s.len() && k != 3 implies s[k] != ScaffoldAction::UseItem by {}
            },
            ScaffoldMode::GodBridge => {
                assert(s[0] == ScaffoldAction::SwingArm && s[1] == ScaffoldAction::UseItem);
                assert forall|k: int| 0 <= k < s.len() && k != 1 implies s[k] != ScaffoldAction::UseItem by {}
            },
            ScaffoldMode::JumpBridge => {
                assert(s[1] == ScaffoldAction::SwingArm && s[2] == ScaffoldAction::UseItem);
                assert forall|k: int| 0 <= k < s.len() && k != 2 implies s[k] != ScaffoldAction::UseItem by {}
            },
        }
    }
}

/// The scaffold module.
pub struct ScaffoldModule;

impl ScaffoldModule {
    /// The style a mode name gives: "ninja-bridge", "god-bridge" or
    /// "jump-bridge"; any other name runs nothing.
    pub fn enable(mode: &str) -> (res: Option<ScaffoldMode>)
        ensures
            res == (if mode@ == "ninja-bridge"@ {
                Some(ScaffoldMode::NinjaBridge)
            } else if mode@ == "god-bridge"@ {
                Some(ScaffoldMode::GodBridge)
            } else if mode@ == "jump-bridge"@ {
                Some(ScaffoldMode::JumpBridge)
            } else {
                None
            }),
    {
        if text_eq(mode, "ninja-bridge") {
            Some(ScaffoldMode::NinjaBridge)
        } else if text_eq(mode, "god-bridge") {
            Some(ScaffoldMode::GodBridge)
        } else if text_eq(mode, "jump-bridge") {
            Some(ScaffoldMode::JumpBridge)
        } else {
            None
        }
    }

    /// Ticks to wait between two checks: the given delay, or one tick.
    pub fn tick_delay(delay: Option<usize>) -> (res: usize)
        ensures
            res == (match delay {
                Some(d) => d,
                None => 1,
            }),
    {
        match delay {
            Some(d) => d,
            None => 1,
        }
    }

    /// The steps of one tick of `mode`.
    pub fn place_actions(mode: ScaffoldMode, below_is_air: bool) -> (res: Vec<ScaffoldAction>)
        ensures
            res@ == place_actions_spec(mode, below_is_air),
            res@.len() > 0 && res@[0] == ScaffoldAction::Crouch ==> res@.last()
                == ScaffoldAction::Uncrouch,
    {
        let mut steps: Vec<ScaffoldAction> = Vec::new();
        if below_is_air {
            match mode {
                ScaffoldMode::NinjaBridge => {
                    steps.push(ScaffoldAction::Crouch);
                    steps.push(ScaffoldAction::WaitTicks { min: 1, max: 2 });
                    steps.push(ScaffoldAction::SwingArm);
                    steps.push(ScaffoldAction::UseItem);
                    steps.push(ScaffoldAction::WaitTicks { min: 1, max: 2 });
                    steps.push(ScaffoldAction::Jitter);
                    steps.push(ScaffoldAction::Uncrouch);
                },
                ScaffoldMode::GodBridge => {
                    steps.push(ScaffoldAction::SwingArm);
                    steps.push(ScaffoldAction::UseItem);
                    steps.push(ScaffoldAction::Jitter);
                },
                ScaffoldMode::JumpBridge => {
                    steps.push(ScaffoldAction::Jump);
                    steps.push(ScaffoldAction::SwingArm);
                    steps.push(ScaffoldAction::UseItem);
                    steps.push(ScaffoldAction::Jitter);
                },
            }
        }
        assert(steps@ =~= place_actions_spec(mode, below_is_air));
        steps
    }
}

} // verus!
