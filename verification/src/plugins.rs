//! Background plugins: keeping a totem in the off hand, and looking at the
//! nearest entity while no combat or building module needs the head.

use vstd::prelude::*;
use crate::inventory::{Menu, ItemKind};

verus! {

/// Menu index of the off-hand slot in the player's inventory.
pub const OFFHAND_SLOT: usize = 45;

/// Slot `i` of the menu holds a totem of undying, other than the off hand.
pub open spec fn is_spare_totem(menu: &Menu, i: int) -> bool {
    0 <= i < menu.slots@.len() && i != 45 && menu.slots@[i].kind == ItemKind::TotemOfUndying
}

/// The auto-totem plugin.
pub struct AutoTotemPlugin;

impl AutoTotemPlugin {
    /// Whether the off-hand slot exists and is empty.
    pub fn is_totem_slot_empty(menu: &Menu) -> (res: bool)
        ensures
            res == menu.empty_at(45),
    {
        if OFFHAND_SLOT < menu.slots.len() {
            menu.slots[OFFHAND_SLOT].is_empty()
        } else {
            false
        }
    }

    /// The slots whose totems are moved to the off hand, each by a click
    /// on the slot and a click on the off hand: with an empty off hand,
    /// every slot other than the off hand that holds a totem, in order;
    /// with a filled (or missing) off hand, none.
    pub fn take_totem(menu: &Menu) -> (res: Vec<usize>)
        ensures
            !menu.empty_at(45) ==> res@.len() == 0,
            forall|k: int| 0 <= k < res@.len() ==> is_spare_totem(menu, #[trigger] res@[k] as int),
            menu.empty_at(45) ==> forall|i: int| is_spare_totem(menu, i) ==> res@.contains(i as usize),
            forall|a: int, b: int| 0 <= a < b < res@.len() ==> #[trigger] res@[a] < #[trigger] res@[b],
    {
        let mut slots: Vec<usize> = Vec::new();
        if !Self::is_totem_slot_empty(menu) {
            return slots;
        }
        let n: usize = menu.slots.len();
        let mut i: usize = 0;
        while i < n
            invariant
                n == menu.slots@.len(),
                i <= n,
                forall|k: int|
                    0 <= k < slots@.len() ==> #[trigger] slots@[k] < i && is_spare_totem(
                        menu,
                        slots@[k] as int,
                    ),
                forall|j: int| 0 <= j < i && is_spare_totem(menu, j) ==> slots@.contains(j as usize),
                forall|a: int, b: int|
                    0 <= a < b < slots@.len() ==> #[trigger] slots@[a] < #[trigger] slots@[b],
            decreases n - i,
        {
            if i != OFFHAND_SLOT && menu.slots[i].kind == ItemKind::TotemOfUndying {
                let ghost before = slots@;
                slots.push(i);
                proof {
                    assert forall|j: int|
                        0 <= j < i + 1 && is_spare_totem(menu, j) implies slots@.contains(
                        j as usize,
                    ) by {
                        if j == i {
                            assert(slots@[slots@.len() - 1] == j);
                        } else {
                            let k: int = choose|k: int| 0 <= k < before.len() && before[k] == j as usize;
                            assert(slots@[k] == j as usize);
                        }
                    }
                }
            }
            i = i + 1;
        }
        slots
    }
}

/// The auto-look plugin.
pub struct AutoLookPlugin;

impl AutoLookPlugin {
    /// The plugin keeps running until the swarm is known to be inactive:
    /// `swarm_active` is `None` when there is no swarm manager.
    pub fn keep_running(swarm_active: Option<bool>) -> (res: bool)
        ensures
            res == (swarm_active != Some(false)),
    {
        match swarm_active {
            Some(active) => active,
            None => true,
        }
    }

    /// The bot looks at the nearest entity only while auto-potion is idle
    /// and none of bow-aim, killaura, scaffold and miner is running.
    pub fn look_allowed(
        auto_potion_active: bool,
        bow_aim_running: bool,
        killaura_running: bool,
        scaffold_running: bool,
        miner_running: bool,
    ) -> (res: bool)
        ensures
            res == !(auto_potion_active || bow_aim_running || killaura_running || scaffold_running
                || miner_running),
    {
        !auto_potion_active && !bow_aim_running && !killaura_running && !scaffold_running
            && !miner_running
    }
}

} // verus!
