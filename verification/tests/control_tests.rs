use bot_control::control::{
    ControlStep, ModuleCommand, ModuleKind, ModuleManager, Routine, SwitchModule,
};

fn groups(g: &[Option<&str>]) -> Vec<Option<String>> {
    g.iter().map(|o| o.map(|s| s.to_string())).collect()
}

#[test]
fn module_names() {
    assert_eq!(ModuleKind::from_name("chat"), Some(ModuleKind::Chat));
    assert_eq!(ModuleKind::from_name("action"), Some(ModuleKind::Action));
    assert_eq!(ModuleKind::from_name("inventory"), Some(ModuleKind::Inventory));
    assert_eq!(ModuleKind::from_name("movement"), Some(ModuleKind::Movement));
    assert_eq!(ModuleKind::from_name("anti-afk"), Some(ModuleKind::AntiAfk));
    assert_eq!(ModuleKind::from_name("flight"), Some(ModuleKind::Flight));
    assert_eq!(ModuleKind::from_name("killaura"), Some(ModuleKind::Killaura));
    assert_eq!(ModuleKind::from_name("scaffold"), Some(ModuleKind::Scaffold));
    assert_eq!(ModuleKind::from_name("anti-fall"), Some(ModuleKind::AntiFall));
    assert_eq!(ModuleKind::from_name("bow-aim"), Some(ModuleKind::BowAim));
    assert_eq!(ModuleKind::from_name("stealer"), Some(ModuleKind::Stealer));
    assert_eq!(ModuleKind::from_name("miner"), Some(ModuleKind::Miner));
    assert_eq!(ModuleKind::from_name("farmer"), Some(ModuleKind::Farmer));
    assert_eq!(ModuleKind::from_name("fishing"), None);
}

#[test]
fn switch_on_restarts_the_module() {
    let cmd = ModuleCommand::Switch { module: SwitchModule::Killaura, state: true };
    assert_eq!(
        ModuleManager::steps(&cmd),
        vec![
            ControlStep::Stop,
            ControlStep::Start { routine: Routine::Module(SwitchModule::Killaura), register: true },
        ]
    );
}

#[test]
fn switch_off_only_stops() {
    let cmd = ModuleCommand::Switch { module: SwitchModule::Miner, state: false };
    assert_eq!(ModuleManager::steps(&cmd), vec![ControlStep::Stop, ControlStep::Stop]);
    let cmd = ModuleCommand::Action { action: "jumping".to_string(), state: false };
    assert_eq!(ModuleManager::steps(&cmd), vec![ControlStep::Stop, ControlStep::Stop]);
}

#[test]
fn chat_steps() {
    let spam_on = ModuleCommand::Chat { mode: "spamming".to_string(), state: true };
    assert_eq!(
        ModuleManager::steps(&spam_on),
        vec![ControlStep::Stop, ControlStep::Start { routine: Routine::ChatSpamming, register: true }]
    );
    let msg_on = ModuleCommand::Chat { mode: "message".to_string(), state: true };
    assert_eq!(
        ModuleManager::steps(&msg_on),
        vec![ControlStep::Start { routine: Routine::ChatMessage, register: false }]
    );
    let msg_off = ModuleCommand::Chat { mode: "message".to_string(), state: false };
    assert!(ModuleManager::steps(&msg_off).is_empty());
    let spam_off = ModuleCommand::Chat { mode: "spamming".to_string(), state: false };
    assert_eq!(ModuleManager::steps(&spam_off), vec![ControlStep::Stop, ControlStep::Stop]);
}

#[test]
fn action_and_inventory_steps() {
    let cmd = ModuleCommand::Action { action: "waving".to_string(), state: true };
    assert_eq!(
        ModuleManager::steps(&cmd),
        vec![ControlStep::Stop, ControlStep::Start { routine: Routine::Waving, register: true }]
    );
    let cmd = ModuleCommand::Action { action: "dancing".to_string(), state: true };
    assert_eq!(ModuleManager::routine(&cmd), Routine::Idle);
    assert_eq!(
        ModuleManager::steps(&ModuleCommand::Inventory),
        vec![ControlStep::Start { routine: Routine::InventoryAction, register: false }]
    );
}

#[test]
fn group_filter_keeps_unassigned_bots() {
    let g = groups(&[Some("a"), None, Some("b"), Some("a")]);
    let plan = ModuleManager::control(
        "flight",
        &ModuleCommand::Switch { module: SwitchModule::Flight, state: true },
        &g,
        "a",
    )
    .unwrap();
    assert_eq!(plan.bots, vec![0, 1, 3]);
    assert_eq!(plan.steps.len(), 2);
    assert_eq!(plan.key, "flight");
    assert!(ModuleManager::in_group(&None, "x"));
    assert!(!ModuleManager::in_group(&Some("y".to_string()), "x"));
}

#[test]
fn no_bots_no_plan() {
    assert!(ModuleManager::control("inventory", &ModuleCommand::Inventory, &vec![], "a").is_none());
}

#[test]
fn unknown_command_name_does_nothing() {
    let g = groups(&[None]);
    assert!(ModuleManager::control("fishing", &ModuleCommand::Inventory, &g, "a").is_none());
}

#[test]
fn task_keys() {
    let spam = ModuleCommand::Chat { mode: "spamming".to_string(), state: true };
    assert_eq!(ModuleManager::task_key(&spam), "spamming");
    let act = ModuleCommand::Action { action: "waving".to_string(), state: true };
    assert_eq!(ModuleManager::task_key(&act), "waving");
    let sw = ModuleCommand::Switch { module: SwitchModule::BowAim, state: false };
    assert_eq!(ModuleManager::task_key(&sw), "bow-aim");
    let g = groups(&[None]);
    let plan = ModuleManager::control("action", &act, &g, "x").unwrap();
    assert_eq!(plan.key, "waving");
    assert_eq!(plan.bots, vec![0]);
}
