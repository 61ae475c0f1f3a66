use bot_control::tasks::TaskRegistry;

#[test]
fn recording_a_task_hands_back_the_replaced_one() {
    let mut reg: TaskRegistry<u32> = TaskRegistry::new();
    assert!(!reg.is_recorded("killaura"));
    assert_eq!(reg.run_task("killaura", 1), None);
    assert!(reg.is_recorded("killaura"));
    assert_eq!(reg.run_task("scaffold", 2), None);
    assert_eq!(reg.run_task("killaura", 3), Some(1));
    assert_eq!(reg.stop_task("killaura"), Some(3));
    assert!(!reg.is_recorded("killaura"));
    assert_eq!(reg.stop_task("killaura"), None);
    assert_eq!(reg.stop_task("scaffold"), Some(2));
}

#[test]
fn recorded_task_is_found_by_key() {
    let mut reg: TaskRegistry<u32> = TaskRegistry::new();
    reg.run_task("miner", 7);
    assert_eq!(reg.get("miner"), Some(&7));
    assert_eq!(reg.get("farmer"), None);
}
