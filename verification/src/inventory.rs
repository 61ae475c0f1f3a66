//! The bot's open menu as plain values, and the slot bookkeeping done on it:
//! which slots are empty, how inventory slots map onto the hotbar.

use vstd::prelude::*;
use crate::search::{first_in, lemma_first_in};
use crate::text::text_eq;

verus! {

/// The kinds of item that the bot's logic tells apart.
#[derive(Clone, Copy, Debug, PartialEq, Eq, Structural)]
pub enum ItemKind {
    Air,
    WoodenSword,
    GoldenSword,
    StoneSword,
    CopperSword,
    IronSword,
    DiamondSword,
    NetheriteSword,
    TotemOfUndying,
    Other,
}

/// One menu slot: the kind of item in it and how many there are.
#[derive(Clone, Copy, Debug, PartialEq, Eq, Structural)]
pub struct ItemStack {
    pub kind: ItemKind,
    pub count: i32,
}

impl ItemStack {
    /// The empty slot.
    pub fn empty() -> (res: ItemStack)
        ensures
            res == (ItemStack { kind: ItemKind::Air, count: 0 }),
            res.spec_is_empty(),
    {
        ItemStack { kind: ItemKind::Air, count: 0 }
    }

    /// A slot is empty when it holds no items or holds air.
    pub open spec fn spec_is_empty(&self) -> bool {
        self.count <= 0 || self.kind == ItemKind::Air
    }

    /// Whether the slot is empty.
    #[verifier::when_used_as_spec(spec_is_empty)]
    pub fn is_empty(&self) -> (res: bool)
        ensures
            res == self.spec_is_empty(),
    {
        self.count <= 0 || self.kind == ItemKind::Air
    }
}

/// An open menu: its slots in index order, and the index at which the nine
/// hotbar slots begin.
pub struct Menu {
    pub slots: Vec<ItemStack>,
    pub hotbar_start: usize,
}

impl Menu {
    /// The menu has a slot at index `i` and it is empty.
    pub open spec fn empty_at(&self, i: int) -> bool {
        0 <= i < self.slots@.len() && self.slots@[i].spec_is_empty()
    }

    /// The menu has a slot at index `i` and it is not empty.
    pub open spec fn filled_at(&self, i: int) -> bool {
        0 <= i < self.slots@.len() && !self.slots@[i].spec_is_empty()
    }

    /// The predicate "the menu has an empty slot at this index".
    pub open spec fn empty_pred(&self) -> spec_fn(int) -> bool {
        |i: int| self.empty_at(i)
    }

    /// The first empty hotbar slot of this menu, if any.
    pub open spec fn first_empty_hotbar(&self) -> Option<int> {
        first_in(self.hotbar_start as int, self.hotbar_start + 8, self.empty_pred())
    }

    /// The first empty slot past the crafting and armour area, if any.
    pub open spec fn first_empty_storage(&self) -> Option<int> {
        first_in(10, self.slots@.len() - 1, self.empty_pred())
    }

    /// The first empty hotbar slot lies in the hotbar, is empty, and every
    /// hotbar slot before it holds items (or is missing).
    pub proof fn lemma_first_empty_hotbar(&self)
        ensures
            self.first_empty_hotbar() matches Some(i) ==> self.hotbar_start <= i
                <= self.hotbar_start + 8 && self.empty_at(i) && forall|j: int|
                self.hotbar_start <= j < i ==> !self.empty_at(j),
    {
        let p = self.empty_pred();
        lemma_first_in(self.hotbar_start as int, self.hotbar_start + 8, p);
        if let Some(i) = self.first_empty_hotbar() {
            assert(p(i));
            assert forall|j: int| self.hotbar_start <= j < i implies !self.empty_at(j) by {
                assert(!p(j));
            }
        }
    }

    /// A menu from its slots and the index of its first hotbar slot.
    pub fn new(slots: Vec<ItemStack>, hotbar_start: usize) -> (res: Menu)
        ensures
            res.slots@ == slots@,
            res.hotbar_start == hotbar_start,
    {
        Menu { slots, hotbar_start }
    }
}

/// The hotbar index of inventory slot `slot`: slots 36 to 44 of the player's
/// menu are the hotbar, in order.
pub open spec fn hotbar_index(slot: int) -> Option<u8> {
    if 36 <= slot <= 44 {
        Some((slot - 36) as u8)
    } else {
        None
    }
}

/// Converts an index of the player's inventory menu into a hotbar index:
/// `Some(h)` for slot `36 + h` with `h` in `0..=8`, `None` for every other slot.
pub fn convert_inventory_slot_to_hotbar_slot(slot: u16) -> (res: Option<u8>)
    ensures
        res == hotbar_index(slot as int),
        res matches Some(h) ==> h <= 8 && slot == 36 + h,
        36 <= slot <= 44 ==> res == Some((slot - 36) as u8),
{
    if 36 <= slot && slot <= 44 {
        Some((slot - 36) as u8)
    } else {
        None
    }
}

/// `convert_inventory_slot_to_hotbar_slot` on a menu index of any width.
pub fn hotbar_index_of(slot: usize) -> (res: Option<u8>)
    ensures
        res == hotbar_index(slot as int),
{
    if slot <= 44 {
        convert_inventory_slot_to_hotbar_slot(slot as u16)
    } else {
        None
    }
}

/// The first empty slot of the menu whose index is above 9 (past the
/// crafting grid and armour), or `None` when every such slot holds items.
pub fn find_empty_slot_in_invenotry(menu: &Menu) -> (res: Option<usize>)
    ensures
        res == (match menu.first_empty_storage() {
            Some(i) => Some(i as usize),
            None => None,
        }),
        res matches Some(i) ==> i > 9 && menu.empty_at(i as int) && forall|j: int|
            9 < j < i ==> !menu.empty_at(j),
        res is None ==> forall|j: int| 9 < j ==> !menu.empty_at(j),
{
    proof {
        lemma_first_in(10, menu.slots@.len() - 1, menu.empty_pred());
    }
    let n: usize = menu.slots.len();
    let mut i: usize = 10;
    while i < n
        invariant
            n == menu.slots@.len(),
            10 <= i,
            menu.first_empty_storage() == first_in(i as int, n - 1, menu.empty_pred()),
        decreases n - i,
    {
        if menu.slots[i].is_empty() {
            proof {
                let p = menu.empty_pred();
                lemma_first_in(10, n - 1, p);
                assert forall|j: int| 9 < j < i implies !menu.empty_at(j) by {
                    assert(!p(j));
                }
            }
            return Some(i);
        }
        i = i + 1;
    }
    proof {
        let p = menu.empty_pred();
        lemma_first_in(10, n - 1, p);
        assert forall|j: int| 9 < j implies !menu.empty_at(j) by {
            if j < n {
                assert(!p(j));
            }
        }
    }
    None
}

/// The first empty hotbar slot of the menu, as a menu index cut to `u8`, or
/// `None` when all nine hotbar slots that the menu has hold items.
pub fn find_empty_slot_in_hotbar(menu: &Menu) -> (res: Option<u8>)
    ensures
        res == (match menu.first_empty_hotbar() {
            Some(i) => Some(#[verifier::truncate] (i as u8)),
            None => None,
        }),
        res is None ==> forall|j: int|
            menu.hotbar_start <= j <= menu.hotbar_start + 8 ==> !menu.empty_at(j),
        menu.first_empty_hotbar() matches Some(i) ==> menu.hotbar_start <= i <= menu.hotbar_start
            + 8 && menu.empty_at(i) && forall|j: int|
            menu.hotbar_start <= j < i ==> !menu.empty_at(j),
{
    let n: usize = menu.slots.len();
    let start: usize = menu.hotbar_start;
    let mut slot: usize = start;
    while slot < n && slot - start <= 8
        invariant
            n == menu.slots@.len(),
            start == menu.hotbar_start,
            start <= slot,
            slot - start <= 9,
            menu.first_empty_hotbar() == first_in(slot as int, start + 8, menu.empty_pred()),
        decreases n - slot,
    {
        if menu.slots[slot].is_empty() {
            proof {
                menu.lemma_first_empty_hotbar();
            }
            return Some(#[verifier::truncate] (slot as u8));
        }
        slot = slot + 1;
    }
    proof {
        if slot >= n {
            let p = menu.empty_pred();
            assert forall|j: int| slot <= j <= start + 8 implies !#[trigger] p(j) by {}
            lemma_first_in(slot as int, start + 8, p);
        }
        let p = menu.empty_pred();
        lemma_first_in(start as int, start + 8, p);
        assert forall|j: int| start <= j <= start + 8 implies !menu.empty_at(j) by {
            assert(!p(j));
        }
    }
    None
}

/// Whether slot `slot` of the menu holds no items; a slot the menu does not
/// have counts as empty.
pub fn is_this_slot_empty(menu: &Menu, slot: usize) -> (res: bool)
    ensures
        res == !menu.filled_at(slot as int),
{
    if slot < menu.slots.len() {
        if !menu.slots[slot].is_empty() {
            return false;
        }
    }
    true
}

} // verus!

verus! {

/// The inventory module's options: the slot to act on, the slot to swap
/// with, and the action ("select", "drop", "left-click", "right-click" or
/// "swap").
#[derive(Clone, Debug)]
pub struct InventoryOptions {
    pub slot: Option<u16>,
    pub target_slot: Option<u16>,
    pub state: String,
}

/// A click in the bot's inventory.
#[derive(Clone, Copy, Debug, PartialEq, Eq, Structural)]
pub enum InventoryClick {
    /// Throw the whole stack in `slot`.
    ThrowAll { slot: u16 },
    LeftClick { slot: u16 },
    RightClick { slot: u16 },
    /// Swap `source` with hotbar slot `target`.
    Swap { source: u16, target: u8 },
}

/// What an inventory command does.
#[derive(Clone, Copy, Debug, PartialEq, Eq, Structural)]
pub enum InteractPlan {
    /// No slot given: nothing.
    Nothing,
    /// Select hotbar slot `slot`.
    SelectHotbar { slot: u8 },
    /// Report that `slot` cannot be selected: hotbar indices stop at 8.
    RejectSlot { slot: u16 },
    /// With the inventory open, make `click` (if any), then allow the bot
    /// to walk, sprint, interact and attack again.
    Click { click: Option<InventoryClick> },
}

/// The plan for an inventory command.
pub open spec fn interact_spec(o: InventoryOptions) -> InteractPlan {
    match o.slot {
        None => InteractPlan::Nothing,
        Some(s) => if o.state@ == "select"@ {
            if s <= 8 {
                InteractPlan::SelectHotbar { slot: s as u8 }
            } else {
                InteractPlan::RejectSlot { slot: s }
            }
        } else {
            InteractPlan::Click {
                click: if o.state@ == "drop"@ {
                    Some(InventoryClick::ThrowAll { slot: s })
                } else if o.state@ == "left-click"@ {
                    Some(InventoryClick::LeftClick { slot: s })
                } else if o.state@ == "right-click"@ {
                    Some(InventoryClick::RightClick { slot: s })
                } else if o.state@ == "swap"@ {
                    Some(
                        InventoryClick::Swap {
                            source: s,
                            target: match o.target_slot {
                                Some(t) => t as u8,
                                None => 0,
                            },
                        },
                    )
                } else {
                    None
                },
            }
        },
    }
}

/// "select" selects every hotbar index 0 to 8 and refuses every larger
/// slot; every other action clicks the given slot; nothing is done without
/// a slot.
pub proof fn lemma_select_bounds(o: InventoryOptions, s: u16)
    ensures
        (o.slot is None) ==> interact_spec(o) == InteractPlan::Nothing,
        o.slot == Some(s) && o.state@ == "select"@ && s <= 8 ==> interact_spec(o)
            == (InteractPlan::SelectHotbar { slot: s as u8 }) && (s as u8) as int == s as int,
        o.slot == Some(s) && o.state@ == "select"@ && s > 8 ==> interact_spec(o)
            == (InteractPlan::RejectSlot { slot: s }),
        o.slot == Some(s) && o.state@ != "select"@ ==> (interact_spec(o) is Click),
        o.slot == Some(s) && o.state@ == "drop"@ ==> interact_spec(o) == (InteractPlan::Click {
            click: Some(InventoryClick::ThrowAll { slot: s }),
        }),
        o.slot == Some(s) && o.state@ == "left-click"@ ==> interact_spec(o) == (InteractPlan::Click {
            click: Some(InventoryClick::LeftClick { slot: s }),
        }),
        o.slot == Some(s) && o.state@ == "right-click"@ ==> interact_spec(o) == (InteractPlan::Click {
            click: Some(InventoryClick::RightClick { slot: s }),
        }),
        o.slot == Some(s) && o.state@ == "swap"@ && o.target_slot is None ==> interact_spec(o)
            == (InteractPlan::Click { click: Some(InventoryClick::Swap { source: s, target: 0 }) }),
{
    reveal_strlit("select");
    reveal_strlit("drop");
    reveal_strlit("left-click");
    reveal_strlit("right-click");
    reveal_strlit("swap");
    assert("select"@[0] != "drop"@[0]);
    assert("select"@[0] != "left-click"@[0]);
    assert("select"@[0] != "right-click"@[0]);
    assert("select"@[1] != "swap"@[1]);
    assert("drop"@[0] != "left-click"@[0]);
    assert("drop"@[0] != "right-click"@[0]);
    assert("drop"@[0] != "swap"@[0]);
    assert("left-click"@[0] != "right-click"@[0]);
    assert("left-click"@[0] != "swap"@[0]);
    assert("right-click"@[0] != "swap"@[0]);
}

/// The inventory module.
pub struct InventoryModule;

impl InventoryModule {
    pub fn new() -> (res: InventoryModule) {
        InventoryModule
    }

    /// The plan for an inventory command: "select" picks a hotbar slot
    /// (indices above 8 are refused); the other actions click the slot.
    /// The swap target is cut to its low byte, and is 0 when missing.
    pub fn interact(&self, options: &InventoryOptions) -> (res: InteractPlan)
        ensures
            res == interact_spec(*options),
            res matches InteractPlan::SelectHotbar { slot } ==> slot <= 8,
    {
        match options.slot {
            None => InteractPlan::Nothing,
            Some(s) => {
                let state = options.state.as_str();
                if text_eq(state, "select") {
                    if s <= 8 {
                        InteractPlan::SelectHotbar { slot: s as u8 }
                    } else {
                        InteractPlan::RejectSlot { slot: s }
                    }
                } else {
                    let click = if text_eq(state, "drop") {
                        Some(InventoryClick::ThrowAll { slot: s })
                    } else if text_eq(state, "left-click") {
                        Some(InventoryClick::LeftClick { slot: s })
                    } else if text_eq(state, "right-click") {
                        Some(InventoryClick::RightClick { slot: s })
                    } else if text_eq(state, "swap") {
                        Some(
                            InventoryClick::Swap {
                                source: s,
                                target: match options.target_slot {
                                    Some(t) => #[verifier::truncate] (t as u8),
                                    None => 0,
                                },
                            },
                        )
                    } else {
                        None
                    };
                    InteractPlan::Click { click }
                }
            },
        }
    }
}

} // verus!
