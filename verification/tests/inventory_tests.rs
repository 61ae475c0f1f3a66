use bot_control::inventory::{
    convert_inventory_slot_to_hotbar_slot, find_empty_slot_in_hotbar, find_empty_slot_in_invenotry,
    hotbar_index_of, is_this_slot_empty, InteractPlan, InventoryClick, InventoryModule,
    InventoryOptions, ItemKind, ItemStack, Menu,
};

fn stack(kind: ItemKind, count: i32) -> ItemStack {
    ItemStack { kind, count }
}

fn player_menu(filled: &[(usize, ItemKind)]) -> Menu {
    let mut slots = vec![ItemStack::empty(); 46];
    for (i, k) in filled {
        slots[*i] = stack(*k, 1);
    }
    Menu::new(slots, 36)
}

#[test]
fn hotbar_conversion_maps_36_to_44() {
    for h in 0u16..=8 {
        assert_eq!(convert_inventory_slot_to_hotbar_slot(36 + h), Some(h as u8));
    }
    assert_eq!(convert_inventory_slot_to_hotbar_slot(35), None);
    assert_eq!(convert_inventory_slot_to_hotbar_slot(45), None);
    assert_eq!(convert_inventory_slot_to_hotbar_slot(0), None);
    assert_eq!(hotbar_index_of(40), Some(4));
    assert_eq!(hotbar_index_of(100_000), None);
}

#[test]
fn empty_storage_slot_skips_first_ten() {
    let mut filled: Vec<(usize, ItemKind)> = (10..=12).map(|i| (i, ItemKind::Other)).collect();
    filled.push((0, ItemKind::Other));
    let menu = player_menu(&filled);
    assert_eq!(find_empty_slot_in_invenotry(&menu), Some(13));
    let all: Vec<(usize, ItemKind)> = (10..46).map(|i| (i, ItemKind::Other)).collect();
    assert_eq!(find_empty_slot_in_invenotry(&player_menu(&all)), None);
    // slots 0..=9 are never picked
    let menu = Menu::new(vec![ItemStack::empty(); 10], 36);
    assert_eq!(find_empty_slot_in_invenotry(&menu), None);
}

#[test]
fn air_or_zero_count_is_empty() {
    assert!(stack(ItemKind::Air, 5).is_empty());
    assert!(stack(ItemKind::IronSword, 0).is_empty());
    assert!(!stack(ItemKind::IronSword, 1).is_empty());
}

#[test]
fn empty_hotbar_slot_is_first_free_one() {
    let menu = player_menu(&[(36, ItemKind::Other), (37, ItemKind::Other)]);
    assert_eq!(find_empty_slot_in_hotbar(&menu), Some(38));
    let full: Vec<(usize, ItemKind)> = (36..=44).map(|i| (i, ItemKind::Other)).collect();
    assert_eq!(find_empty_slot_in_hotbar(&player_menu(&full)), None);
    // a menu that ends before its hotbar has no hotbar slot
    assert_eq!(find_empty_slot_in_hotbar(&Menu::new(vec![ItemStack::empty(); 5], 36)), None);
    // a chest menu whose hotbar starts further on
    let chest = Menu::new(vec![ItemStack::empty(); 63], 54);
    assert_eq!(find_empty_slot_in_hotbar(&chest), Some(54));
}

#[test]
fn slot_emptiness_counts_missing_slots_as_empty() {
    let menu = player_menu(&[(5, ItemKind::Other)]);
    assert!(!is_this_slot_empty(&menu, 5));
    assert!(is_this_slot_empty(&menu, 6));
    assert!(is_this_slot_empty(&menu, 400));
}

fn opts(slot: Option<u16>, target: Option<u16>, state: &str) -> InventoryOptions {
    InventoryOptions { slot, target_slot: target, state: state.to_string() }
}

#[test]
fn interact_plans() {
    let m = InventoryModule::new();
    assert_eq!(m.interact(&opts(None, None, "select")), InteractPlan::Nothing);
    assert_eq!(m.interact(&opts(Some(3), None, "select")), InteractPlan::SelectHotbar { slot: 3 });
    assert_eq!(m.interact(&opts(Some(9), None, "select")), InteractPlan::RejectSlot { slot: 9 });
    assert_eq!(
        m.interact(&opts(Some(12), None, "drop")),
        InteractPlan::Click { click: Some(InventoryClick::ThrowAll { slot: 12 }) }
    );
    assert_eq!(
        m.interact(&opts(Some(12), None, "left-click")),
        InteractPlan::Click { click: Some(InventoryClick::LeftClick { slot: 12 }) }
    );
    assert_eq!(
        m.interact(&opts(Some(12), None, "right-click")),
        InteractPlan::Click { click: Some(InventoryClick::RightClick { slot: 12 }) }
    );
    assert_eq!(
        m.interact(&opts(Some(12), Some(4), "swap")),
        InteractPlan::Click { click: Some(InventoryClick::Swap { source: 12, target: 4 }) }
    );
    assert_eq!(
        m.interact(&opts(Some(12), None, "swap")),
        InteractPlan::Click { click: Some(InventoryClick::Swap { source: 12, target: 0 }) }
    );
    assert_eq!(
        m.interact(&opts(Some(12), Some(260), "swap")),
        InteractPlan::Click { click: Some(InventoryClick::Swap { source: 12, target: 4 }) }
    );
    assert_eq!(m.interact(&opts(Some(12), None, "dance")), InteractPlan::Click { click: None });
}
