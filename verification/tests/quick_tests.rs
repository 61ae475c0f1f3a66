use bot_control::inventory::{ItemKind, ItemStack, Menu};
use bot_control::movement::WalkDirection;
use bot_control::quick::{CapsuleAction, HoldAction, QuickBot, QuickPlan, QuickTask, QuickTaskManager};
use bot_control::stealer::BlockPos;

#[test]
fn quick_task_names() {
    let names = [
        ("clear-inventory", QuickTask::ClearInventory),
        ("move-forward", QuickTask::MoveForward),
        ("move-backward", QuickTask::MoveBackward),
        ("move-left", QuickTask::MoveLeft),
        ("move-right", QuickTask::MoveRight),
        ("jump", QuickTask::Jump),
        ("shift", QuickTask::Shift),
        ("quit", QuickTask::Quit),
        ("fly", QuickTask::Fly),
        ("rise", QuickTask::Rise),
        ("capsule", QuickTask::Capsule),
        ("unite", QuickTask::Unite),
        ("turn", QuickTask::Turn),
        ("zero", QuickTask::Zero),
        ("form-circle", QuickTask::FormCircle),
        ("form-line", QuickTask::FormLine),
        ("pathfinder-stop", QuickTask::PathfinderStop),
    ];
    for (name, task) in names {
        assert_eq!(QuickTaskManager::task_of(name), Some(task));
        assert!(QuickTaskManager::execute(name, &vec![]).is_none());
    }
    assert_eq!(QuickTaskManager::task_of("dance"), None);
    assert!(QuickTaskManager::execute("dance", &vec![bot(None)]).is_none());
}

#[test]
fn move_and_shift_timings() {
    assert_eq!(QuickTaskManager::walk_direction(QuickTask::MoveLeft), Some(WalkDirection::Left));
    assert_eq!(QuickTaskManager::walk_direction(QuickTask::Jump), None);
    assert_eq!(QuickTaskManager::hold_millis(QuickTask::MoveRight), Some(100));
    assert_eq!(QuickTaskManager::hold_millis(QuickTask::Shift), Some(200));
    assert_eq!(QuickTaskManager::hold_millis(QuickTask::Quit), None);
}

#[test]
fn clear_inventory_takes_filled_slots_up_to_48() {
    let mut slots = vec![ItemStack::empty(); 60];
    for i in [0usize, 9, 45, 48, 49] {
        slots[i] = ItemStack { kind: ItemKind::Other, count: 2 };
    }
    assert_eq!(QuickTaskManager::clear_inventory_slots(&Menu::new(slots, 36)), vec![0, 9, 45, 48]);
}

#[test]
fn capsule_blocks_surround_bot() {
    let b = BlockPos { x: 0, y: 70, z: 5 };
    let blocks = QuickTaskManager::capsule_blocks(b);
    assert_eq!(
        blocks,
        vec![
            BlockPos { x: -1, y: 70, z: 5 },
            BlockPos { x: 1, y: 70, z: 5 },
            BlockPos { x: 0, y: 70, z: 4 },
            BlockPos { x: 0, y: 70, z: 6 },
            BlockPos { x: -1, y: 71, z: 5 },
            BlockPos { x: 1, y: 71, z: 5 },
            BlockPos { x: 0, y: 71, z: 4 },
            BlockPos { x: 0, y: 71, z: 6 },
            BlockPos { x: -1, y: 72, z: 5 },
            BlockPos { x: 0, y: 72, z: 5 },
        ]
    );
    for p in blocks {
        assert!((p.x - b.x).abs() <= 1 && (p.z - b.z).abs() <= 1 && p.y - b.y <= 2);
    }
}

#[test]
fn capsule_rounds() {
    let p = BlockPos { x: 1, y: 2, z: 3 };
    assert_eq!(
        QuickTaskManager::capsule_round(1, p),
        vec![
            CapsuleAction::LookAt(p),
            CapsuleAction::WaitTicks { min: 1, max: 2 },
            CapsuleAction::SwingArm,
            CapsuleAction::PlaceAt(p),
            CapsuleAction::WaitTicks { min: 2, max: 3 },
        ]
    );
    let ninth = QuickTaskManager::capsule_round(9, p);
    assert_eq!(ninth[0], CapsuleAction::Jump);
    assert_eq!(ninth[2], CapsuleAction::Crouch);
    assert_eq!(ninth.len(), 9);
    let tenth = QuickTaskManager::capsule_round(10, p);
    assert_eq!(tenth[0], CapsuleAction::WaitTicks { min: 4, max: 5 });
    assert_eq!(tenth[5], CapsuleAction::Uncrouch);
    assert_eq!(tenth.len(), 7);
}

fn bot(menu: Option<Menu>) -> QuickBot {
    QuickBot { menu, block: BlockPos { x: 3, y: 64, z: -2 } }
}

#[test]
fn execute_plans_holds() {
    let bots = vec![bot(None), bot(None)];
    assert_eq!(
        QuickTaskManager::execute("move-left", &bots),
        Some(QuickPlan::Hold { action: HoldAction::Walk(WalkDirection::Left), millis: 100 })
    );
    assert_eq!(
        QuickTaskManager::execute("move-forward", &bots),
        Some(QuickPlan::Hold { action: HoldAction::Walk(WalkDirection::Forward), millis: 100 })
    );
    assert_eq!(
        QuickTaskManager::execute("shift", &bots),
        Some(QuickPlan::Hold { action: HoldAction::Crouch, millis: 200 })
    );
    assert_eq!(QuickTaskManager::execute("jump", &bots), Some(QuickPlan::Other(QuickTask::Jump)));
    assert_eq!(QuickTaskManager::execute("form-line", &bots), Some(QuickPlan::Other(QuickTask::FormLine)));
}

#[test]
fn execute_plans_clear_inventory_per_bot() {
    let mut slots = vec![ItemStack::empty(); 46];
    slots[3] = ItemStack { kind: ItemKind::Other, count: 1 };
    slots[40] = ItemStack { kind: ItemKind::Other, count: 1 };
    let bots = vec![bot(Some(Menu::new(slots, 36))), bot(None)];
    assert_eq!(
        QuickTaskManager::execute("clear-inventory", &bots),
        Some(QuickPlan::Throw { slots: vec![vec![3, 40], vec![]] })
    );
}

#[test]
fn execute_plans_capsule_per_bot() {
    let bots = vec![bot(None)];
    let plan = QuickTaskManager::execute("capsule", &bots);
    let b = BlockPos { x: 3, y: 64, z: -2 };
    let expected = QuickTaskManager::capsule_plan(b);
    assert_eq!(plan, Some(QuickPlan::Capsule { steps: vec![expected.clone()] }));
    // ten blocks: 10 rounds of 5 steps, plus 4 before the ninth and 2 around the tenth
    assert_eq!(expected.len(), 56);
    assert_eq!(expected[0], CapsuleAction::LookAt(BlockPos { x: 2, y: 64, z: -2 }));
    assert_eq!(expected[55], CapsuleAction::WaitTicks { min: 2, max: 3 });
}
