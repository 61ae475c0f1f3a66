use bot_control::captcha::CaptchaCatcher;
use bot_control::inventory::{ItemKind, ItemStack, Menu};
use bot_control::plugins::{AutoLookPlugin, AutoTotemPlugin};
use bot_control::status::{
    get_active_bots_count, get_player_uuid, is_online_status, launch_outcome, status_is_online,
    LaunchOutcome, TabEntry,
};

fn menu(filled: &[(usize, ItemKind)]) -> Menu {
    let mut slots = vec![ItemStack::empty(); 46];
    for (i, k) in filled {
        slots[*i] = ItemStack { kind: *k, count: 1 };
    }
    Menu::new(slots, 36)
}

#[test]
fn totems_move_only_into_empty_off_hand() {
    let m = menu(&[(12, ItemKind::TotemOfUndying), (40, ItemKind::TotemOfUndying)]);
    assert!(AutoTotemPlugin::is_totem_slot_empty(&m));
    assert_eq!(AutoTotemPlugin::take_totem(&m), vec![12, 40]);
    let m = menu(&[(12, ItemKind::TotemOfUndying), (45, ItemKind::TotemOfUndying)]);
    assert!(!AutoTotemPlugin::is_totem_slot_empty(&m));
    assert!(AutoTotemPlugin::take_totem(&m).is_empty());
    let short = Menu::new(vec![ItemStack::empty(); 10], 0);
    assert!(!AutoTotemPlugin::is_totem_slot_empty(&short));
}

#[test]
fn auto_look_rules() {
    assert!(AutoLookPlugin::keep_running(None));
    assert!(AutoLookPlugin::keep_running(Some(true)));
    assert!(!AutoLookPlugin::keep_running(Some(false)));
    assert!(AutoLookPlugin::look_allowed(false, false, false, false, false));
    assert!(!AutoLookPlugin::look_allowed(false, false, true, false, false));
    assert!(!AutoLookPlugin::look_allowed(true, false, false, false, false));
}

#[test]
fn captcha_link_with_required_part() {
    let msg = "Visit http://a.com/x or https://captcha.site/abc now".to_string();
    let re = r"https?://\S+";
    assert_eq!(
        CaptchaCatcher::catch_url_from_message(msg.clone(), re, Some("captcha".to_string())),
        Some("https://captcha.site/abc".to_string())
    );
    assert_eq!(
        CaptchaCatcher::catch_url_from_message(msg.clone(), re, None),
        Some("http://a.com/x".to_string())
    );
    assert_eq!(CaptchaCatcher::catch_url_from_message(msg, re, Some("zzz".to_string())), None);
}

#[test]
fn captcha_empty_matches_are_skipped() {
    let msg = "abc".to_string();
    assert_eq!(CaptchaCatcher::catch_url_from_message(msg.clone(), "x*", None), None);
    assert_eq!(CaptchaCatcher::catch_url_from_message(msg, "b*", None), Some("b".to_string()));
}

#[test]
fn captcha_invalid_pattern() {
    assert_eq!(CaptchaCatcher::try_catch_url_from_message("a".to_string(), "(", None), None);
    assert_eq!(
        CaptchaCatcher::try_catch_url_from_message("a1".to_string(), "[0-9]", None),
        Some(Some("1".to_string()))
    );
}

#[test]
fn select_url_picks_first_acceptable() {
    let ms = vec!["".to_string(), "abc".to_string(), "xyz".to_string()];
    assert_eq!(CaptchaCatcher::select_url(&ms, &None), Some("abc".to_string()));
    assert_eq!(CaptchaCatcher::select_url(&ms, &Some("y".to_string())), Some("xyz".to_string()));
    assert_eq!(CaptchaCatcher::select_url(&ms, &Some("q".to_string())), None);
}

#[test]
fn online_statuses() {
    assert!(status_is_online("online"));
    assert!(status_is_online("онлайн"));
    assert!(!status_is_online("Online"));
    assert!(is_online_status("ONLINE"));
    assert!(is_online_status("Онлайн"));
    assert!(!is_online_status("offline"));
    let statuses = vec![
        Some("Online".to_string()),
        None,
        Some("offline".to_string()),
        Some("ОНЛАЙН".to_string()),
    ];
    assert_eq!(get_active_bots_count(&statuses), 2);
    assert_eq!(get_active_bots_count(&vec![]), 0);
}

#[test]
fn player_uuid_lookup() {
    let entries = vec![
        TabEntry { uuid: "u1".to_string(), name: "Steve".to_string() },
        TabEntry { uuid: "u2".to_string(), name: "Alex".to_string() },
        TabEntry { uuid: "u3".to_string(), name: "Alex".to_string() },
    ];
    assert_eq!(get_player_uuid(&entries, "Alex"), Some("u2".to_string()));
    assert_eq!(get_player_uuid(&entries, "alex"), None);
}

#[test]
fn launch_decisions() {
    assert_eq!(launch_outcome(false, true), LaunchOutcome::NoManager);
    assert_eq!(launch_outcome(true, true), LaunchOutcome::AlreadyActive);
    assert_eq!(launch_outcome(true, false), LaunchOutcome::Launch);
}
