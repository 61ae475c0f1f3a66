//! Killaura: picking the best sword in the menu, moving it into the hotbar,
//! and the per-tick decisions of the two attack modes.

use vstd::prelude::*;
use crate::text::text_eq;
use crate::inventory::{
    Menu, ItemKind, hotbar_index, hotbar_index_of, find_empty_slot_in_hotbar,
};

verus! {

/// The attack priority of a sword kind; other items are no weapon.
pub open spec fn weapon_priority(kind: ItemKind) -> Option<u8> {
    match kind {
        ItemKind::WoodenSword => Some(0u8),
        ItemKind::GoldenSword => Some(1u8),
        ItemKind::StoneSword => Some(2u8),
        ItemKind::CopperSword => Some(3u8),
        ItemKind::IronSword => Some(4u8),
        ItemKind::DiamondSword => Some(5u8),
        ItemKind::NetheriteSword => Some(6u8),
        _ => None,
    }
}

/// How strongly slot `i` of the menu is preferred as a weapon: the priority
/// of a sword that it holds, and 0 for anything else, an empty slot or a
/// slot the menu does not have.
pub open spec fn weapon_rank(menu: &Menu, i: int) -> int {
    if menu.filled_at(i) {
        match weapon_priority(menu.slots@[i].kind) {
            Some(p) => p as int,
            None => 0,
        }
    } else {
        0
    }
}

/// A slot is the chosen weapon: it ranks above 0, no slot ranks higher, and
/// every slot before it ranks lower.
pub open spec fn is_best_weapon(menu: &Menu, i: int) -> bool {
    &&& 0 <= i < menu.slots@.len()
    &&& weapon_rank(menu, i) > 0
    &&& forall|j: int| 0 <= j < menu.slots@.len() ==> weapon_rank(menu, j) <= weapon_rank(menu, i)
    &&& forall|j: int| 0 <= j < i ==> weapon_rank(menu, j) < weapon_rank(menu, i)
}

/// The chosen weapon slot of the menu, if there is a slot that ranks above
/// 0; there is at most one such slot (`lemma_best_weapon_unique`).
pub open spec fn best_weapon(menu: &Menu) -> Option<int> {
    if exists|i: int| is_best_weapon(menu, i) {
        Some(choose|i: int| is_best_weapon(menu, i))
    } else {
        None
    }
}

/// Two slots that both satisfy `is_best_weapon` are the same slot.
pub proof fn lemma_best_weapon_unique(menu: &Menu, i: int, j: int)
    requires
        is_best_weapon(menu, i),
        is_best_weapon(menu, j),
    ensures
        i == j,
{
    if i < j {
        assert(weapon_rank(menu, i) < weapon_rank(menu, j));
    } else if j < i {
        assert(weapon_rank(menu, j) < weapon_rank(menu, i));
    }
}

/// Swords rank by material, from wood up to netherite, each above the one
/// before: wood, gold, stone, copper, iron, diamond, netherite; nothing else
/// is a weapon.
pub proof fn lemma_sword_order(kind: ItemKind)
    ensures
        weapon_priority(ItemKind::WoodenSword) == Some(0u8),
        weapon_priority(ItemKind::GoldenSword)->0 > weapon_priority(ItemKind::WoodenSword)->0,
        weapon_priority(ItemKind::StoneSword)->0 > weapon_priority(ItemKind::GoldenSword)->0,
        weapon_priority(ItemKind::CopperSword)->0 > weapon_priority(ItemKind::StoneSword)->0,
        weapon_priority(ItemKind::IronSword)->0 > weapon_priority(ItemKind::CopperSword)->0,
        weapon_priority(ItemKind::DiamondSword)->0 > weapon_priority(ItemKind::IronSword)->0,
        weapon_priority(ItemKind::NetheriteSword)->0 > weapon_priority(ItemKind::DiamondSword)->0,
        weapon_priority(ItemKind::NetheriteSword) == Some(6u8),
        (weapon_priority(kind) is Some) == (kind != ItemKind::Air && kind != ItemKind::TotemOfUndying
            && kind != ItemKind::Other),
{
}

/// A moderate attack jumps exactly when a jump was drawn and crouches (and
/// later stands up) exactly when a crouch was drawn, each whatever the other
/// draw; it looks at the target before it strikes, and strikes once. An
/// aggressive attack never jumps, crouches or looks, and strikes once.
pub proof fn lemma_attack_draws(jump: bool, crouch: bool)
    ensures
        attack_sequence_spec(KillauraMode::Moderate, jump, crouch).contains(AttackStep::Jump) == jump,
        attack_sequence_spec(KillauraMode::Moderate, jump, crouch).contains(AttackStep::Crouch) == crouch,
        attack_sequence_spec(KillauraMode::Moderate, jump, crouch).contains(AttackStep::Uncrouch) == crouch,
        exists|i: int, j: int|
            0 <= i < j < attack_sequence_spec(KillauraMode::Moderate, jump, crouch).len()
                && attack_sequence_spec(KillauraMode::Moderate, jump, crouch)[i] == AttackStep::LookAtTarget
                && attack_sequence_spec(KillauraMode::Moderate, jump, crouch)[j] == AttackStep::Attack
                && forall|k: int|
                0 <= k < attack_sequence_spec(KillauraMode::Moderate, jump, crouch).len() && k != j
                    ==> attack_sequence_spec(KillauraMode::Moderate, jump, crouch)[k] != AttackStep::Attack,
        !attack_sequence_spec(KillauraMode::Aggressive, jump, crouch).contains(AttackStep::Jump),
        !attack_sequence_spec(KillauraMode::Aggressive, jump, crouch).contains(AttackStep::Crouch),
        !attack_sequence_spec(KillauraMode::Aggressive, jump, crouch).contains(AttackStep::LookAtTarget),
        attack_sequence_spec(KillauraMode::Aggressive, jump, crouch).last() == AttackStep::Attack,
{
    let s = attack_sequence_spec(KillauraMode::Moderate, jump, crouch);
    let a = attack_sequence_spec(KillauraMode::Aggressive, jump, crouch);
    let base: int = (if jump { 1int } else { 0 }) + (if crouch { 1int } else { 0 });
    assert(s.len() == base + 4 + (if crouch { 1int } else { 0 }));
    assert(s[base + 1] == AttackStep::LookAtTarget);
    assert(s[base + 3] == AttackStep::Attack);
    assert forall|k: int| 0 <= k < s.len() && k != base + 3 implies s[k] != AttackStep::Attack by {}
    if jump {
        assert(s[0] == AttackStep::Jump);
    } else {
        assert forall|k: int| 0 <= k < s.len() implies s[k] != AttackStep::Jump by {}
    }
    if crouch {
        assert(s[base - 1] == AttackStep::Crouch);
        assert(s[base + 4] == AttackStep::Uncrouch);
    } else {
        assert forall|k: int| 0 <= k < s.len() implies s[k] != AttackStep::Crouch by {}
        assert forall|k: int| 0 <= k < s.len() implies s[k] != AttackStep::Uncrouch by {}
    }
    assert forall|k: int| 0 <= k < a.len() implies a[k] != AttackStep::Jump && a[k] != AttackStep::Crouch
        && a[k] != AttackStep::LookAtTarget by {}
}

/// The priority of a sword kind, `None` for any other item.
pub fn weapon_priority_of(kind: ItemKind) -> (res: Option<u8>)
    ensures
        res == weapon_priority(kind),
{
    match kind {
        ItemKind::WoodenSword => Some(0),
        ItemKind::GoldenSword => Some(1),
        ItemKind::StoneSword => Some(2),
        ItemKind::CopperSword => Some(3),
        ItemKind::IronSword => Some(4),
        ItemKind::DiamondSword => Some(5),
        ItemKind::NetheriteSword => Some(6),
        _ => None,
    }
}

/// The menu slot holding the best sword: the first slot of the highest
/// priority, where a wooden sword (priority 0) never wins. `None` when the
/// menu holds no sword above wood.
pub fn best_weapon_slot(menu: &Menu) -> (res: Option<usize>)
    ensures
        res matches Some(i) ==> is_best_weapon(menu, i as int),
        res == (match best_weapon(menu) {
            Some(i) => Some(i as usize),
            None => None,
        }),
        res is None ==> forall|j: int| 0 <= j < menu.slots@.len() ==> weapon_rank(menu, j) == 0,
{
    let n: usize = menu.slots.len();
    let mut best: Option<usize> = None;
    let mut best_rank: u8 = 0;
    let mut k: usize = 0;
    while k < n
        invariant
            n == menu.slots@.len(),
            k <= n,
            best_rank <= 6,
            forall|j: int| 0 <= j < k ==> weapon_rank(menu, j) <= best_rank,
            best is None <==> best_rank == 0,
            best matches Some(i) ==> i < k && weapon_rank(menu, i as int) == best_rank && forall|
                j: int,
            | 0 <= j < i ==> weapon_rank(menu, j) < best_rank,
        decreases n - k,
    {
        let item = menu.slots[k];
        if !item.is_empty() {
            if let Some(p) = weapon_priority_of(item.kind) {
                if p > best_rank {
                    best = Some(k);
                    best_rank = p;
                }
            }
        }
        k = k + 1;
    }
    proof {
        match best {
            Some(i) => {
                assert(is_best_weapon(menu, i as int));
                let c: int = choose|c: int| is_best_weapon(menu, c);
                lemma_best_weapon_unique(menu, i as int, c);
            },
            None => {
                assert forall|i: int| !is_best_weapon(menu, i) by {
                    if is_best_weapon(menu, i) {
                        assert(weapon_rank(menu, i) <= 0);
                    }
                }
            },
        }
    }
    best
}

/// What the bot does to get its best sword into hand.
#[derive(Clone, Copy, Debug, PartialEq, Eq, Structural)]
pub enum WeaponPlan {
    /// No sword worth taking: change nothing.
    Keep,
    /// The sword is already in the hotbar: make this hotbar slot selected.
    SelectHotbar { hotbar: u8 },
    /// Pick the sword up from `from` and put it down in the empty hotbar
    /// slot `to`, then make `select` the selected hotbar slot if there is one.
    MoveToEmpty { from: usize, to: u8, select: Option<u8> },
    /// The hotbar is full: shift-click `via` out of the hotbar, pick the sword
    /// up from `from`, put it down in `via`, then select hotbar slot `select`.
    SwapThrough { from: usize, via: u16, hotbar: u8 },
}

/// The plan for the sword: `random_slot` is the hotbar slot to free when the
/// hotbar is full, drawn by the caller from the player's hotbar indices.
pub open spec fn weapon_plan_spec(menu: &Menu, best: Option<usize>, random_slot: u16) -> WeaponPlan {
    match best {
        None => WeaponPlan::Keep,
        Some(slot) => match hotbar_index(slot as int) {
            Some(h) => WeaponPlan::SelectHotbar { hotbar: h },
            None => match menu.first_empty_hotbar() {
                Some(e) => WeaponPlan::MoveToEmpty {
                    from: slot,
                    to: e as u8,
                    select: hotbar_index((e as u8) as int),
                },
                None => WeaponPlan::SwapThrough {
                    from: slot,
                    via: random_slot,
                    hotbar: match hotbar_index(random_slot as int) {
                        Some(h) => h,
                        None => 0,
                    },
                },
            },
        },
    }
}

/// The hotbar slot to switch to: `Some(wanted)` when it differs from the
/// selected one, `None` when it is already selected.
pub fn selection_change(current: u8, wanted: u8) -> (res: Option<u8>)
    ensures
        res == (if current != wanted {
            Some(wanted)
        } else {
            None
        }),
{
    if current != wanted {
        Some(wanted)
    } else {
        None
    }
}

/// The killaura module: attacks the nearest entity of a chosen kind.
pub struct KillauraModule;

/// Where the killaura's reach comes from.
#[derive(Clone, Copy, Debug, PartialEq, Eq, Structural)]
pub enum DistanceSource {
    /// The standard reach of 3.1 blocks.
    Standard,
    /// The distance given in the options.
    FromOptions,
}

/// The settings the killaura runs with.
#[derive(Debug)]
pub struct KillauraConfig {
    pub target: String,
    pub slot: Option<u8>,
    pub distance: DistanceSource,
    pub delay: usize,
}

/// The two attack styles.
#[derive(Clone, Copy, Debug, PartialEq, Eq, Structural)]
pub enum KillauraMode {
    Moderate,
    Aggressive,
}

/// The kinds of entity the killaura can aim at.
#[derive(Clone, Copy, Debug, PartialEq, Eq, Structural)]
pub enum TargetKind {
    Player,
    Monster,
    Animal,
}

/// How the killaura arms itself on a tick.
#[derive(Clone, Copy, Debug, PartialEq, Eq, Structural)]
pub enum WeaponStep {
    /// Take the best sword from the menu.
    AutoWeapon,
    /// Select the given hotbar slot.
    Select(u8),
    /// Leave the hand as it is.
    Keep,
}

/// One step of an attack on the nearest target.
#[derive(Clone, Copy, Debug, PartialEq, Eq, Structural)]
pub enum AttackStep {
    Jump,
    Crouch,
    Uncrouch,
    /// Wait a random number of ticks in `min..=max`.
    WaitTicks { min: u64, max: u64 },
    LookAtTarget,
    Attack,
}

/// The attack sequence of a mode.
pub open spec fn attack_sequence_spec(mode: KillauraMode, jump: bool, crouch: bool) -> Seq<AttackStep> {
    match mode {
        KillauraMode::Moderate => (if jump {
            seq![AttackStep::Jump]
        } else {
            seq![]
        }) + (if crouch {
            seq![AttackStep::Crouch]
        } else {
            seq![]
        }) + seq![
            AttackStep::WaitTicks { min: 1, max: 2 },
            AttackStep::LookAtTarget,
            AttackStep::WaitTicks { min: 3, max: 5 },
            AttackStep::Attack,
        ] + (if crouch {
            seq![AttackStep::Uncrouch]
        } else {
            seq![]
        }),
        KillauraMode::Aggressive => seq![AttackStep::WaitTicks { min: 3, max: 4 }, AttackStep::Attack],
    }
}

impl KillauraModule {
    /// The killaura mode named by `mode`; any other name runs nothing.
    pub fn enable(mode: &str) -> (res: Option<KillauraMode>)
        ensures
            res == (if mode@ == "moderate"@ {
                Some(KillauraMode::Moderate)
            } else if mode@ == "aggressive"@ {
                Some(KillauraMode::Aggressive)
            } else {
                None
            }),
    {
        if text_eq(mode, "moderate") {
            Some(KillauraMode::Moderate)
        } else if text_eq(mode, "aggressive") {
            Some(KillauraMode::Aggressive)
        } else {
            None
        }
    }

    /// The entity kind named by `target`: "player", "monster" or "animal".
    pub fn target_kind(target: &str) -> (res: Option<TargetKind>)
        ensures
            res == (if target@ == "player"@ {
                Some(TargetKind::Player)
            } else if target@ == "monster"@ {
                Some(TargetKind::Monster)
            } else if target@ == "animal"@ {
                Some(TargetKind::Animal)
            } else {
                None
            }),
    {
        if text_eq(target, "player") {
            Some(TargetKind::Player)
        } else if text_eq(target, "monster") {
            Some(TargetKind::Monster)
        } else if text_eq(target, "animal") {
            Some(TargetKind::Animal)
        } else {
            None
        }
    }

    /// The configuration of the "adaptive" settings: standard reach, a
    /// one-tick delay and no fixed slot.
    pub fn create_adaptive_config(target: String) -> (res: KillauraConfig)
        ensures
            res.target@ == target@,
            res.slot is None,
            res.distance == DistanceSource::Standard,
            res.delay == 1,
    {
        KillauraConfig { target, slot: None, distance: DistanceSource::Standard, delay: 1 }
    }

    /// The configuration the options give: adaptive settings ignore the
    /// slot, distance and delay; other settings take them, with the standard
    /// reach and a one-tick delay where they are missing.
    pub fn resolve_config(
        settings: &str,
        target: String,
        slot: Option<u8>,
        has_distance: bool,
        delay: Option<usize>,
    ) -> (res: KillauraConfig)
        ensures
            res.target@ == target@,
            settings@ == "adaptive"@ ==> res.slot is None && res.distance == DistanceSource::Standard
                && res.delay == 1,
            settings@ != "adaptive"@ ==> res.slot == slot && res.distance == (if has_distance {
                DistanceSource::FromOptions
            } else {
                DistanceSource::Standard
            }) && res.delay == (match delay {
                Some(d) => d,
                None => 1,
            }),
    {
        if text_eq(settings, "adaptive") {
            Self::create_adaptive_config(target)
        } else {
            KillauraConfig {
                target,
                slot,
                distance: if has_distance {
                    DistanceSource::FromOptions
                } else {
                    DistanceSource::Standard
                },
                delay: match delay {
                    Some(d) => d,
                    None => 1,
                },
            }
        }
    }

    /// The killaura acts on a tick only while neither auto-eat nor
    /// auto-potion is busy.
    pub fn tick_allowed(auto_eat_active: bool, auto_potion_active: bool) -> (res: bool)
        ensures
            res == (!auto_eat_active && !auto_potion_active),
    {
        !auto_eat_active && !auto_potion_active
    }

    /// How to arm on a tick: adaptive settings, or no fixed slot, take the
    /// best sword; a fixed slot is selected only when it is a hotbar index.
    pub fn weapon_step(adaptive: bool, slot: Option<u8>) -> (res: WeaponStep)
        ensures
            adaptive ==> res == WeaponStep::AutoWeapon,
            !adaptive ==> res == (match slot {
                Some(s) => if s <= 8 {
                    WeaponStep::Select(s)
                } else {
                    WeaponStep::Keep
                },
                None => WeaponStep::AutoWeapon,
            }),
            res matches WeaponStep::Select(s) ==> s <= 8,
    {
        if adaptive {
            WeaponStep::AutoWeapon
        } else {
            match slot {
                Some(s) => if s <= 8 {
                    WeaponStep::Select(s)
                } else {
                    WeaponStep::Keep
                },
                None => WeaponStep::AutoWeapon,
            }
        }
    }

    /// The bot attacks a found entity only when both entity ids are known
    /// and differ, so it never attacks itself.
    pub fn should_attack(bot_id: Option<i32>, target_id: Option<i32>) -> (res: bool)
        ensures
            res == (bot_id is Some && target_id is Some && bot_id != target_id),
    {
        match (bot_id, target_id) {
            (Some(b), Some(t)) => b != t,
            _ => false,
        }
    }

    /// The steps of one attack: moderate attacks may jump and crouch first
    /// (the caller draws both at even odds), look at the target and release
    /// the crouch afterwards; aggressive attacks just wait and strike.
    pub fn attack_sequence(mode: KillauraMode, jump: bool, crouch: bool) -> (res: Vec<AttackStep>)
        ensures
            res@ == attack_sequence_spec(mode, jump, crouch),
            res@.contains(AttackStep::Attack),
            res@.contains(AttackStep::Crouch) ==> res@.last() == AttackStep::Uncrouch,
    {
        let mut steps: Vec<AttackStep> = Vec::new();
        match mode {
            KillauraMode::Moderate => {
                if jump {
                    steps.push(AttackStep::Jump);
                }
                if crouch {
                    steps.push(AttackStep::Crouch);
                }
                steps.push(AttackStep::WaitTicks { min: 1, max: 2 });
                steps.push(AttackStep::LookAtTarget);
                steps.push(AttackStep::WaitTicks { min: 3, max: 5 });
                steps.push(AttackStep::Attack);
                if crouch {
                    steps.push(AttackStep::Uncrouch);
                }
            },
            KillauraMode::Aggressive => {
                steps.push(AttackStep::WaitTicks { min: 3, max: 4 });
                steps.push(AttackStep::Attack);
            },
        }
        assert(steps@ =~= attack_sequence_spec(mode, jump, crouch));
        proof {
            match mode {
                KillauraMode::Moderate => {
                    let k: int = (if jump { 1int } else { 0 }) + (if crouch { 1int } else { 0 }) + 3;
                    assert(steps@[k] == AttackStep::Attack);
                    if !crouch {
                        assert forall|i: int| 0 <= i < steps@.len() implies steps@[i]
                            != AttackStep::Crouch by {}
                    }
                },
                KillauraMode::Aggressive => {
                    assert(steps@[1] == AttackStep::Attack);
                    assert forall|i: int| 0 <= i < steps@.len() implies steps@[i]
                        != AttackStep::Crouch by {}
                },
            }
        }
        steps
    }

    /// The first half of a tick: `None` when auto-eat or auto-potion is busy
    /// (the tick only waits), otherwise how to arm.
    pub fn begin_tick(
        auto_eat_active: bool,
        auto_potion_active: bool,
        adaptive: bool,
        slot: Option<u8>,
    ) -> (res: Option<WeaponStep>)
        ensures
            res is None <==> (auto_eat_active || auto_potion_active),
            res matches Some(step) ==> step == (if adaptive {
                WeaponStep::AutoWeapon
            } else {
                match slot {
                    Some(s) => if s <= 8 {
                        WeaponStep::Select(s)
                    } else {
                        WeaponStep::Keep
                    },
                    None => WeaponStep::AutoWeapon,
                }
            }),
    {
        if Self::tick_allowed(auto_eat_active, auto_potion_active) {
            Some(Self::weapon_step(adaptive, slot))
        } else {
            None
        }
    }

    /// The second half of a tick: the attack on the nearest target, whose
    /// entity id is `target_id` (`None` when no target was found), or no
    /// step at all when there is none or it is the bot itself.
    pub fn attack_steps(
        mode: KillauraMode,
        bot_id: Option<i32>,
        target_id: Option<i32>,
        jump: bool,
        crouch: bool,
    ) -> (res: Vec<AttackStep>)
        ensures
            (bot_id is Some && target_id is Some && bot_id != target_id) ==> res@
                == attack_sequence_spec(mode, jump, crouch),
            !(bot_id is Some && target_id is Some && bot_id != target_id) ==> res@.len() == 0,
    {
        if Self::should_attack(bot_id, target_id) {
            Self::attack_sequence(mode, jump, crouch)
        } else {
            Vec::new()
        }
    }

    /// How to get the best sword into hand: select it when it already sits
    /// in the player's hotbar, otherwise move it into the first empty hotbar
    /// slot, or, with a full hotbar, into `random_slot` after clearing it.
    pub fn auto_weapon(menu: &Menu, random_slot: u16) -> (res: WeaponPlan)
        ensures
            res == weapon_plan_spec(
                menu,
                match best_weapon(menu) {
                    Some(i) => Some(i as usize),
                    None => None,
                },
                random_slot,
            ),
    {
        let best = best_weapon_slot(menu);
        match best {
            None => WeaponPlan::Keep,
            Some(slot) => match hotbar_index_of(slot) {
                Some(h) => WeaponPlan::SelectHotbar { hotbar: h },
                None => match find_empty_slot_in_hotbar(menu) {
                    Some(e) => WeaponPlan::MoveToEmpty {
                        from: slot,
                        to: e,
                        select: hotbar_index_of(e as usize),
                    },
                    None => WeaponPlan::SwapThrough {
                        from: slot,
                        via: random_slot,
                        hotbar: match crate::inventory::convert_inventory_slot_to_hotbar_slot(
                            random_slot,
                        ) {
                            Some(h) => h,
                            None => 0,
                        },
                    },
                },
            },
        }
    }
}

} // verus!
