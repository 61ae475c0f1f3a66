use bot_control::inventory::{ItemKind, ItemStack, Menu};
use bot_control::movement::Pause;
use bot_control::stealer::{BlockPos, StealerModule, StealerOptions, StealerStep};

#[test]
fn block_ids_by_target() {
    let s = StealerModule::new();
    assert!(s.check_block_id(3793, "chest"));
    assert!(s.check_block_id(3799, "chest"));
    assert!(!s.check_block_id(3794, "chest"));
    assert!(s.check_block_id(20541, "barrel"));
    assert!(!s.check_block_id(3793, "barrel"));
    assert!(s.check_block_id(14762, "shulker"));
    assert!(s.check_block_id(14666, "shulker"));
    assert!(!s.check_block_id(14667, "shulker"));
    assert!(!s.check_block_id(3793, "furnace"));
}

#[test]
fn ids_belong_to_one_kind_only() {
    let s = StealerModule::new();
    for id in [3793u16, 3787, 3805, 3799, 20547, 20543, 20541, 20549, 20545, 14666, 14732] {
        let kinds = ["chest", "barrel", "shulker"].iter().filter(|t| s.check_block_id(id, t)).count();
        assert_eq!(kinds, 1);
    }
}

#[test]
fn scan_covers_cube_in_order() {
    let s = StealerModule::new();
    let c = BlockPos { x: 10, y: 64, z: -3 };
    let area = s.scan_area(c, 1);
    assert_eq!(area.len(), 27);
    assert_eq!(area[0], BlockPos { x: 9, y: 63, z: -4 });
    assert_eq!(area[1], BlockPos { x: 9, y: 63, z: -3 });
    assert_eq!(area[3], BlockPos { x: 9, y: 64, z: -4 });
    assert_eq!(area[26], BlockPos { x: 11, y: 65, z: -2 });
    assert_eq!(s.scan_area(c, 4).len(), 729);
    assert!(s.scan_area(c, -1).is_empty());
    assert_eq!(s.scan_area(c, 0), vec![c]);
}

#[test]
fn targets_keep_scan_order_and_kind() {
    let s = StealerModule::new();
    let c = BlockPos { x: 0, y: 0, z: 0 };
    let area = s.scan_area(c, 1);
    let mut states: Vec<Option<u16>> = vec![Some(1); area.len()];
    states[2] = Some(3793);
    states[5] = None;
    states[7] = Some(20541);
    states[20] = Some(3805);
    assert_eq!(s.find_nearest_targets(c, 1, &states, "chest"), vec![area[2], area[20]]);
    assert_eq!(s.find_nearest_targets(c, 1, &states, "barrel"), vec![area[7]]);
    assert!(s.find_nearest_targets(c, 1, &states, "shulker").is_empty());
    assert!(s.find_nearest_targets(c, -1, &vec![], "chest").is_empty());
}

#[test]
fn round_steps_visit_each_target() {
    let s = StealerModule::new();
    let o = StealerOptions { target: "chest".to_string(), radius: None, delay: Some(700), state: true };
    let plan = s.enable(&o);
    let a = BlockPos { x: 1, y: 2, z: 3 };
    let b = BlockPos { x: 4, y: 5, z: 6 };
    let steps = s.round(&plan, &vec![a, b]);
    assert_eq!(
        steps,
        vec![
            StealerStep::LookAt(a),
            StealerStep::Wait(Pause::Random { min: 50, max: 100 }),
            StealerStep::Open(a),
            StealerStep::TakeAll,
            StealerStep::Close,
            StealerStep::Wait(Pause::Random { min: 200, max: 300 }),
            StealerStep::LookAt(b),
            StealerStep::Wait(Pause::Random { min: 50, max: 100 }),
            StealerStep::Open(b),
            StealerStep::TakeAll,
            StealerStep::Close,
            StealerStep::Wait(Pause::Random { min: 200, max: 300 }),
            StealerStep::TurnHead,
            StealerStep::Sleep(700),
        ]
    );
    assert_eq!(s.round(&plan, &vec![]), vec![StealerStep::TurnHead, StealerStep::Sleep(700)]);
}

#[test]
fn stealer_defaults() {
    let s = StealerModule::new();
    let o = StealerOptions { target: "chest".to_string(), radius: None, delay: None, state: true };
    let p = s.enable(&o);
    assert_eq!((p.radius, p.delay_millis), (4, 1000));
    let o = StealerOptions { target: "chest".to_string(), radius: Some(2), delay: Some(50), state: true };
    let p = s.enable(&o);
    assert_eq!((p.radius, p.delay_millis), (2, 50));
}

#[test]
fn extraction_takes_filled_container_slots() {
    let s = StealerModule::new();
    let mut slots = vec![ItemStack::empty(); 63];
    slots[0] = ItemStack { kind: ItemKind::Other, count: 3 };
    slots[26] = ItemStack { kind: ItemKind::Other, count: 1 };
    slots[27] = ItemStack { kind: ItemKind::Other, count: 1 };
    assert_eq!(s.extract_all_items(&Menu::new(slots, 54)), vec![0, 26]);
    assert!(s.extract_all_items(&Menu::new(vec![], 0)).is_empty());
}

#[test]
fn targets_lie_within_radius() {
    let s = StealerModule::new();
    let c = BlockPos { x: -5, y: 70, z: 12 };
    let area = s.scan_area(c, 2);
    assert_eq!(area.len(), 125);
    let states: Vec<Option<u16>> = (0..area.len()).map(|i| if i % 7 == 0 { Some(3793) } else { Some(0) }).collect();
    let found = s.find_nearest_targets(c, 2, &states, "chest");
    assert_eq!(found.len(), (area.len() + 6) / 7);
    for p in found {
        assert!((p.x - c.x).abs() <= 2 && (p.y - c.y).abs() <= 2 && (p.z - c.z).abs() <= 2);
    }
}

#[test]
fn stealer_pauses() {
    let s = StealerModule::new();
    let o = StealerOptions { target: "barrel".to_string(), radius: None, delay: None, state: true };
    let p = s.enable(&o);
    assert_eq!(p.look_pause, Pause::Random { min: 50, max: 100 });
    assert_eq!(p.close_pause, Pause::Random { min: 200, max: 300 });
}
