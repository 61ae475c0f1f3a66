use bot_control::inventory::{ItemKind, ItemStack, Menu};
use bot_control::killaura::{
    best_weapon_slot, selection_change, weapon_priority_of, AttackStep, DistanceSource, KillauraMode,
    KillauraModule, TargetKind, WeaponPlan, WeaponStep,
};

fn menu_with(filled: &[(usize, ItemKind)]) -> Menu {
    let mut slots = vec![ItemStack::empty(); 46];
    for (i, k) in filled {
        slots[*i] = ItemStack { kind: *k, count: 1 };
    }
    Menu::new(slots, 36)
}

#[test]
fn priorities_of_swords() {
    assert_eq!(weapon_priority_of(ItemKind::WoodenSword), Some(0));
    assert_eq!(weapon_priority_of(ItemKind::CopperSword), Some(3));
    assert_eq!(weapon_priority_of(ItemKind::NetheriteSword), Some(6));
    assert_eq!(weapon_priority_of(ItemKind::TotemOfUndying), None);
}

#[test]
fn best_weapon_is_first_of_highest_priority() {
    let menu = menu_with(&[
        (10, ItemKind::StoneSword),
        (12, ItemKind::DiamondSword),
        (20, ItemKind::DiamondSword),
        (30, ItemKind::IronSword),
    ]);
    assert_eq!(best_weapon_slot(&menu), Some(12));
}

#[test]
fn wooden_sword_is_never_chosen() {
    let menu = menu_with(&[(10, ItemKind::WoodenSword), (11, ItemKind::Other)]);
    assert_eq!(best_weapon_slot(&menu), None);
    assert_eq!(KillauraModule::auto_weapon(&menu, 40), WeaponPlan::Keep);
}

#[test]
fn empty_stack_of_a_sword_is_ignored() {
    let mut slots = vec![ItemStack::empty(); 46];
    slots[10] = ItemStack { kind: ItemKind::NetheriteSword, count: 0 };
    slots[11] = ItemStack { kind: ItemKind::GoldenSword, count: 1 };
    assert_eq!(best_weapon_slot(&Menu::new(slots, 36)), Some(11));
}

#[test]
fn weapon_in_hotbar_is_selected() {
    let menu = menu_with(&[(38, ItemKind::IronSword)]);
    assert_eq!(KillauraModule::auto_weapon(&menu, 40), WeaponPlan::SelectHotbar { hotbar: 2 });
}

#[test]
fn weapon_in_storage_moves_to_empty_hotbar_slot() {
    let menu = menu_with(&[(15, ItemKind::IronSword), (36, ItemKind::Other)]);
    assert_eq!(
        KillauraModule::auto_weapon(&menu, 40),
        WeaponPlan::MoveToEmpty { from: 15, to: 37, select: Some(1) }
    );
}

#[test]
fn full_hotbar_swaps_through_random_slot() {
    let mut filled: Vec<(usize, ItemKind)> = (36..=44).map(|i| (i, ItemKind::Other)).collect();
    filled.push((15, ItemKind::DiamondSword));
    let menu = menu_with(&filled);
    assert_eq!(
        KillauraModule::auto_weapon(&menu, 42),
        WeaponPlan::SwapThrough { from: 15, via: 42, hotbar: 6 }
    );
    assert_eq!(
        KillauraModule::auto_weapon(&menu, 50),
        WeaponPlan::SwapThrough { from: 15, via: 50, hotbar: 0 }
    );
}

#[test]
fn selection_changes_only_when_different() {
    assert_eq!(selection_change(3, 3), None);
    assert_eq!(selection_change(3, 5), Some(5));
}

#[test]
fn modes_and_targets() {
    assert_eq!(KillauraModule::enable("moderate"), Some(KillauraMode::Moderate));
    assert_eq!(KillauraModule::enable("aggressive"), Some(KillauraMode::Aggressive));
    assert_eq!(KillauraModule::enable("calm"), None);
    assert_eq!(KillauraModule::target_kind("player"), Some(TargetKind::Player));
    assert_eq!(KillauraModule::target_kind("monster"), Some(TargetKind::Monster));
    assert_eq!(KillauraModule::target_kind("animal"), Some(TargetKind::Animal));
    assert_eq!(KillauraModule::target_kind("villager"), None);
}

#[test]
fn adaptive_config_ignores_options() {
    let c = KillauraModule::resolve_config("adaptive", "player".to_string(), Some(3), true, Some(7));
    assert_eq!(c.target, "player");
    assert_eq!(c.slot, None);
    assert_eq!(c.distance, DistanceSource::Standard);
    assert_eq!(c.delay, 1);
    let c = KillauraModule::create_adaptive_config("animal".to_string());
    assert_eq!((c.slot, c.distance, c.delay), (None, DistanceSource::Standard, 1));
}

#[test]
fn custom_config_takes_options_with_defaults() {
    let c = KillauraModule::resolve_config("custom", "monster".to_string(), Some(3), true, Some(7));
    assert_eq!((c.slot, c.distance, c.delay), (Some(3), DistanceSource::FromOptions, 7));
    let c = KillauraModule::resolve_config("custom", "monster".to_string(), None, false, None);
    assert_eq!((c.slot, c.distance, c.delay), (None, DistanceSource::Standard, 1));
}

#[test]
fn tick_and_weapon_decisions() {
    assert!(KillauraModule::tick_allowed(false, false));
    assert!(!KillauraModule::tick_allowed(true, false));
    assert!(!KillauraModule::tick_allowed(false, true));
    assert_eq!(KillauraModule::weapon_step(true, Some(2)), WeaponStep::AutoWeapon);
    assert_eq!(KillauraModule::weapon_step(false, Some(2)), WeaponStep::Select(2));
    assert_eq!(KillauraModule::weapon_step(false, Some(9)), WeaponStep::Keep);
    assert_eq!(KillauraModule::weapon_step(false, None), WeaponStep::AutoWeapon);
}

#[test]
fn never_attacks_itself() {
    assert!(KillauraModule::should_attack(Some(1), Some(2)));
    assert!(!KillauraModule::should_attack(Some(1), Some(1)));
    assert!(!KillauraModule::should_attack(None, Some(1)));
    assert!(!KillauraModule::should_attack(Some(1), None));
}

#[test]
fn attack_sequences() {
    assert_eq!(
        KillauraModule::attack_sequence(KillauraMode::Moderate, true, true),
        vec![
            AttackStep::Jump,
            AttackStep::Crouch,
            AttackStep::WaitTicks { min: 1, max: 2 },
            AttackStep::LookAtTarget,
            AttackStep::WaitTicks { min: 3, max: 5 },
            AttackStep::Attack,
            AttackStep::Uncrouch,
        ]
    );
    assert_eq!(
        KillauraModule::attack_sequence(KillauraMode::Moderate, false, false),
        vec![
            AttackStep::WaitTicks { min: 1, max: 2 },
            AttackStep::LookAtTarget,
            AttackStep::WaitTicks { min: 3, max: 5 },
            AttackStep::Attack,
        ]
    );
    assert_eq!(
        KillauraModule::attack_sequence(KillauraMode::Aggressive, true, true),
        vec![AttackStep::WaitTicks { min: 3, max: 4 }, AttackStep::Attack]
    );
}

#[test]
fn tick_halves() {
    assert_eq!(KillauraModule::begin_tick(true, false, true, None), None);
    assert_eq!(KillauraModule::begin_tick(false, false, false, Some(4)), Some(WeaponStep::Select(4)));
    assert_eq!(KillauraModule::begin_tick(false, false, true, Some(4)), Some(WeaponStep::AutoWeapon));
    assert!(KillauraModule::attack_steps(KillauraMode::Aggressive, Some(1), None, false, false).is_empty());
    assert!(KillauraModule::attack_steps(KillauraMode::Aggressive, Some(1), Some(1), false, false).is_empty());
    assert_eq!(
        KillauraModule::attack_steps(KillauraMode::Aggressive, Some(1), Some(2), false, false),
        vec![AttackStep::WaitTicks { min: 3, max: 4 }, AttackStep::Attack]
    );
}
