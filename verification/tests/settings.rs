use majsoul_max_rs::settings::{
    apply_github_prefix, parse_update_interval_minutes, resolve_update_mode, AvatarError,
    LiqiUpdateStatus, LiveModPatch, ModSettings, Settings, StoredUpdateMode, UpdateCheckMode,
    ViewSlot, DEFAULT_UPDATE_INTERVAL_MINUTES,
};

#[test]
fn derives_default_avatar_id_for_both_id_widths() {
    assert_eq!(ModSettings::default_avatar_id(200001).unwrap(), 400101);
    assert_eq!(ModSettings::default_avatar_id(200042).unwrap(), 404201);
    assert_eq!(ModSettings::default_avatar_id(20000125).unwrap(), 40012501);
}

#[test]
fn default_avatar_id_refuses_ids_shorter_than_four_digits() {
    assert_eq!(ModSettings::default_avatar_id(999), Err(AvatarError::IdTooShort(999)));
    assert_eq!(ModSettings::default_avatar_id(0), Err(AvatarError::IdTooShort(0)));
    assert_eq!(ModSettings::default_avatar_id(1000).unwrap(), 4001);
    assert_eq!(ModSettings::default_avatar_id(u32::MAX).unwrap(), 4096729501);
}

#[test]
fn avatar_id_falls_back_when_char_skin_missing() {
    let mut settings = ModSettings::default();
    assert!(settings.char_skin.is_empty());
    assert_eq!(settings.main_avatar_id().unwrap(), 400101);

    settings.char_skin.insert(200001, 400199);
    assert_eq!(settings.main_avatar_id().unwrap(), 400199);
}

#[test]
fn out_of_range_preset_index_falls_back_to_first() {
    let mut settings = ModSettings::default();
    settings.views_presets[0] = vec![ViewSlot {
        slot: 5,
        view_type: 0,
        item_id: 305519,
        item_id_list: vec![],
    }];

    settings.preset_index = 0;
    assert_eq!(settings.avatar_frame(), 305519);

    settings.preset_index = 9999;
    assert_eq!(settings.current_preset().len(), 1);
    assert_eq!(settings.avatar_frame(), 305519);
}

#[test]
fn avatar_frame_is_the_first_slot_five_or_zero() {
    let mut settings = ModSettings::default();
    assert_eq!(settings.avatar_frame(), 0);
    settings.views_presets[3] = vec![
        ViewSlot { slot: 1, view_type: 0, item_id: 11, item_id_list: vec![] },
        ViewSlot { slot: 5, view_type: 0, item_id: 22, item_id_list: vec![] },
        ViewSlot { slot: 5, view_type: 0, item_id: 33, item_id_list: vec![] },
    ];
    settings.preset_index = 3;
    assert_eq!(settings.avatar_frame(), 22);
    assert_eq!(settings.preset_count(), 10);
}

#[test]
fn prefixes_github_urls() {
    let api = "https://api.github.com/repos/Avenshy/MajsoulData/releases/latest";
    assert_eq!(apply_github_prefix("", api), api);
    assert_eq!(apply_github_prefix("   ", api), api);
    assert_eq!(
        apply_github_prefix("https://gh-proxy.org/", api),
        format!("https://gh-proxy.org/{api}")
    );
    assert_eq!(
        apply_github_prefix("https://gh-proxy.org", api),
        format!("https://gh-proxy.org/{api}")
    );
}

#[test]
fn github_prefix_trims_every_trailing_slash_and_surrounding_blanks() {
    assert_eq!(apply_github_prefix("  https://p.example//  ", "u"), "https://p.example/u");
}

#[test]
fn applies_live_mod_patches() {
    let mut settings = ModSettings::default();
    settings.apply_live_patch(&LiveModPatch::Nickname("测试".to_owned()));
    settings.apply_live_patch(&LiveModPatch::ShowServer(false));
    settings.apply_live_patch(&LiveModPatch::AntiNicknameCensorship(false));
    settings.apply_live_patch(&LiveModPatch::EmojiSwitch(true));
    settings.apply_live_patch(&LiveModPatch::HintSwitch(false));

    assert_eq!(settings.nickname, "测试");
    assert!(!settings.show_server());
    assert!(!settings.anti_nickname_censorship());
    assert!(settings.emoji_on());
    assert!(!settings.hint_on());
}

#[test]
fn a_live_patch_keeps_every_other_value() {
    let mut settings = ModSettings::default();
    settings.title = 100001;
    settings.main_char = 200042;
    settings.apply_live_patch(&LiveModPatch::Nickname("新昵称".to_owned()));
    assert_eq!(settings.nickname, "新昵称");
    assert_eq!(settings.title, 100001);
    assert_eq!(settings.main_char, 200042);
    assert!(settings.show_server());
}

#[test]
fn update_intervals_reject_empty_zero_fractional_and_out_of_range_values() {
    for text in ["", "0", "-1", "1.5", "65536", "abc"] {
        assert!(parse_update_interval_minutes(text).is_err(), "{text:?}");
    }
    assert_eq!(parse_update_interval_minutes(" 1 ").unwrap(), 1);
    assert_eq!(parse_update_interval_minutes("65535").unwrap(), 65535);
}

#[test]
fn update_intervals_accept_a_plus_sign_and_leading_zeros() {
    assert_eq!(parse_update_interval_minutes("+5").unwrap(), 5);
    assert_eq!(parse_update_interval_minutes("007").unwrap(), 7);
    assert!(parse_update_interval_minutes("+").is_err());
}

#[test]
fn legacy_auto_update_flags_keep_their_behavior_and_default_interval() {
    for (enabled, mode) in [(true, UpdateCheckMode::Startup), (false, UpdateCheckMode::Disabled)] {
        assert_eq!(resolve_update_mode(StoredUpdateMode::Legacy(enabled)), mode);
        let settings = Settings::default();
        assert_eq!(settings.update_interval_minutes(), 60);
        assert_eq!(DEFAULT_UPDATE_INTERVAL_MINUTES, 60);
        assert!(!settings.debug_log_on());
    }
    assert_eq!(
        resolve_update_mode(StoredUpdateMode::Mode(UpdateCheckMode::Periodic)),
        UpdateCheckMode::Periodic
    );
}

#[test]
fn interval_minutes_are_at_least_one() {
    let mut settings = Settings::default();
    settings.set_update_interval_minutes(0);
    assert_eq!(settings.update_interval_minutes(), 1);
    settings.set_update_interval_minutes(90);
    assert_eq!(settings.update_interval_minutes(), 90);
    settings.set_update_check_mode(UpdateCheckMode::Periodic);
    assert_eq!(settings.update_check_mode(), UpdateCheckMode::Periodic);
}

#[test]
fn github_url_goes_through_the_stored_prefix() {
    let mut settings = Settings::default();
    settings.set_github_prefix("https://gh-proxy.org/".to_owned());
    assert_eq!(settings.github_prefix(), "https://gh-proxy.org/");
    assert_eq!(settings.github_url("https://x.test/a"), "https://gh-proxy.org/https://x.test/a");
    settings.set_req_proxy("http://127.0.0.1:7890".to_owned());
    assert_eq!(settings.req_proxy(), "http://127.0.0.1:7890");
}

#[test]
fn a_reloaded_update_status_reflects_the_running_version() {
    let updated = LiqiUpdateStatus::Updated("v2".to_owned()).resolved_after_reload("v2");
    assert!(matches!(updated, LiqiUpdateStatus::Latest(ref v) if v == "v2"));
    let still_pending = LiqiUpdateStatus::Updated("v3".to_owned()).resolved_after_reload("v2");
    assert!(matches!(still_pending, LiqiUpdateStatus::Updated(ref v) if v == "v3"));
    let failed = LiqiUpdateStatus::Failed("boom".to_owned()).resolved_after_reload("v2");
    assert!(matches!(failed, LiqiUpdateStatus::Failed(ref e) if e == "boom"));
}

#[test]
fn debug_logs_live_under_the_data_directory() {
    let settings = Settings::default().with_data_dir("cfg".to_owned());
    assert_eq!(settings.data_dir(), "cfg");
    let logs = settings.debug_log_dir();
    assert!(logs == "cfg/logs" || logs == "cfg\\logs", "{logs}");
    let trailing = Settings::default().with_data_dir("cfg/".to_owned()).debug_log_dir();
    assert_eq!(trailing, "cfg/logs");
    let mut settings = settings;
    settings.set_debug_log(true);
    assert!(settings.debug_log_on());
}
