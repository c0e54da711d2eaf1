use majsoul_max_rs::settings::{LiqiUpdatePhase, LiqiUpdateStatus, LiveModPatch, Settings};
use majsoul_max_rs::sidebar::{
    apply_live_setting, live_mod_patch, setting_applies_immediately, setting_target,
    gui_step, FlushOutcome, GuiAction, GuiEventKind, GuiFlags, InitialValues, SaveFor, SettingChange, SettingValue, SettingsFile, SidebarApp,
    TextField, TEXT_DEBOUNCE_MILLIS,
};

fn initial() -> InitialValues {
    InitialValues {
        mod_switch: true,
        auto_update: false,
        nickname: "雀魂".to_owned(),
        show_server: true,
        anti_nickname_censorship: true,
        emoji_switch: false,
        hint_switch: true,
        req_proxy: String::new(),
        github_prefix: String::new(),
        liqi_version: "v1".to_owned(),
    }
}

fn texts(changes: &[SettingChange]) -> Vec<String> {
    changes
        .iter()
        .map(|c| match c {
            SettingChange::Nickname(v) => format!("nickname={v}"),
            SettingChange::ReqProxy(v) => format!("reqProxy={v}"),
            SettingChange::GithubPrefix(v) => format!("githubPrefix={v}"),
            _ => "other".to_owned(),
        })
        .collect()
}

#[test]
fn only_edited_fields_are_sent_when_the_sidebar_closes() {
    let mut app = SidebarApp::from_initial(&initial());
    assert!(app.take_pending_changes().is_empty());
    app.nickname.edit("新昵称".to_owned(), 10);
    app.github_prefix.edit("https://gh-proxy.org".to_owned(), 20);
    let changes = app.take_pending_changes();
    assert_eq!(texts(&changes), vec!["nickname=新昵称", "githubPrefix=https://gh-proxy.org"]);
    assert!(app.take_pending_changes().is_empty());
    assert_eq!(app.nickname.sent, "新昵称");
}

#[test]
fn an_edit_back_to_the_sent_text_sends_nothing() {
    let mut field = TextField::new("a");
    field.edit("b".to_owned(), 0);
    field.edit("a".to_owned(), 5);
    assert_eq!(field.flush(), None);
    assert_eq!(field.dirty_at, None);
}

#[test]
fn a_field_is_sent_once_it_has_rested() {
    let mut field = TextField::new("");
    assert!(matches!(field.flush_if_due(1000), FlushOutcome::Idle));
    field.edit("x".to_owned(), 1000);
    assert!(matches!(field.flush_if_due(1100), FlushOutcome::Wait(350)));
    assert!(matches!(field.flush_if_due(900), FlushOutcome::Wait(TEXT_DEBOUNCE_MILLIS)));
    match field.flush_if_due(1000 + TEXT_DEBOUNCE_MILLIS) {
        FlushOutcome::Flushed(Some(v)) => assert_eq!(v, "x"),
        _ => panic!("the field should have been sent"),
    }
    assert!(matches!(field.flush_if_due(5000), FlushOutcome::Idle));
}

#[test]
fn due_fields_are_sent_and_the_rest_ask_for_the_shortest_wait() {
    let mut app = SidebarApp::from_initial(&initial());
    app.nickname.edit("甲".to_owned(), 0);
    app.req_proxy.edit("http://127.0.0.1:7890".to_owned(), 300);
    app.github_prefix.edit("p".to_owned(), 200);
    let (changes, wait) = app.flush_due_text(500);
    assert_eq!(texts(&changes), vec!["nickname=甲"]);
    assert_eq!(wait, Some(150));
    let (changes, wait) = app.flush_due_text(800);
    assert_eq!(texts(&changes), vec!["reqProxy=http://127.0.0.1:7890", "githubPrefix=p"]);
    assert_eq!(wait, None);
}

#[test]
fn labels_follow_the_update_check() {
    let mut app = SidebarApp::from_initial(&initial());
    assert_eq!(app.latest_label, "最新：尚未检查");
    assert_eq!(app.proxy_status, "● 正在启动…");
    app.set_update_phase(Some(LiqiUpdatePhase::Checking));
    assert_eq!(app.latest_label, "最新：检查更新中");
    app.set_update_phase(Some(LiqiUpdatePhase::Downloading));
    assert_eq!(app.latest_label, "最新：正在更新");
    app.set_latest_version(&LiqiUpdateStatus::Latest("v2".to_owned()));
    assert_eq!(app.latest_label, "最新：v2 （已是最新）");
    assert!(app.update_phase.is_none());
    app.set_latest_version(&LiqiUpdateStatus::Updated("v3".to_owned()));
    assert_eq!(app.latest_label, "最新：v3 （已更新，需重启读取）");
    app.set_latest_version(&LiqiUpdateStatus::Failed("超时".to_owned()));
    assert_eq!(app.latest_label, "最新：检查失败");
    assert_eq!(app.message, "检查失败：超时");
}

#[test]
fn reloaded_values_replace_what_was_pending() {
    let mut app = SidebarApp::from_initial(&initial());
    app.nickname.edit("未发送".to_owned(), 1);
    let mut values = initial();
    values.nickname = "已保存".to_owned();
    values.liqi_version = "v9".to_owned();
    app.apply_values(&values);
    assert_eq!(app.nickname.value, "已保存");
    assert_eq!(app.liqi_version, "v9");
    assert!(app.take_pending_changes().is_empty());
}

#[test]
fn changes_are_routed_to_their_file_and_key() {
    let t = setting_target(SettingChange::ShowServer(false));
    assert_eq!(t.file, SettingsFile::Mod);
    assert_eq!(t.key, "showServer");
    assert!(matches!(t.value, SettingValue::Bool(false)));
    let t = setting_target(SettingChange::ReqProxy("http://p".to_owned()));
    assert_eq!(t.file, SettingsFile::General);
    assert_eq!(t.key, "reqProxy");
    assert!(matches!(t.value, SettingValue::Text(ref v) if v == "http://p"));
    let t = setting_target(SettingChange::AntiNicknameCensorship(true));
    assert_eq!(t.key, "antiNicknameCensorship");
    assert_eq!(setting_target(SettingChange::AutoUpdate(true)).key, "autoUpdate");
}

#[test]
fn which_changes_apply_at_once() {
    assert!(setting_applies_immediately(&SettingChange::GithubPrefix(String::new()), false));
    assert!(setting_applies_immediately(&SettingChange::HintSwitch(true), true));
    assert!(!setting_applies_immediately(&SettingChange::HintSwitch(true), false));
    assert!(!setting_applies_immediately(&SettingChange::ModSwitch(true), true));
    assert!(matches!(
        live_mod_patch(SettingChange::EmojiSwitch(true)),
        Some(LiveModPatch::EmojiSwitch(true))
    ));
    assert!(live_mod_patch(SettingChange::AutoUpdate(true)).is_none());

    let mut settings = Settings::default();
    apply_live_setting(&mut settings, &SettingChange::ReqProxy("http://127.0.0.1:1".to_owned()));
    assert_eq!(settings.req_proxy(), "http://127.0.0.1:1");
    apply_live_setting(&mut settings, &SettingChange::Nickname("x".to_owned()));
    assert_eq!(settings.req_proxy(), "http://127.0.0.1:1");
}

#[test]
fn the_event_loop_guards_busy_work() {
    let s = GuiFlags::initial();
    let (s, a) = gui_step(s, GuiEventKind::Launched { auto_update: true });
    assert!(s.checking_update);
    assert_eq!(a, GuiAction::StartUpdateCheck { at_startup: true });
    // A second check is ignored while the first runs.
    assert_eq!(gui_step(s, GuiEventKind::CheckUpdate), (s, GuiAction::Nothing));
    let (s, a) = gui_step(s, GuiEventKind::StartupUpdateFinished);
    assert!(!s.checking_update && s.has_update_status);
    assert_eq!(a, GuiAction::SavePendingThenReload { starting: true });
    let (s, _) = gui_step(s, GuiEventKind::ReloadBegun(true));
    assert!(s.reloading_proxy);
    assert_eq!(gui_step(s, GuiEventKind::Restart), (s, GuiAction::Nothing));
    assert_eq!(gui_step(s, GuiEventKind::CheckUpdate), (s, GuiAction::Nothing));
    let (s, a) = gui_step(s, GuiEventKind::ProxyReloaded(true));
    assert!(!s.reloading_proxy);
    assert_eq!(a, GuiAction::ShowReloaded { first_start: true });
    let (s, _) = gui_step(s, GuiEventKind::WebviewCreated(true));
    let (s, a) = gui_step(s, GuiEventKind::Restart);
    assert_eq!(a, GuiAction::SavePendingFor(SaveFor::Restart));
    let (s, a) = gui_step(s, GuiEventKind::PendingSaved(SaveFor::Restart));
    assert_eq!(a, GuiAction::BeginProxyReload { starting: false });
    let (s, _) = gui_step(s, GuiEventKind::ReloadBegun(false));
    assert!(!s.reloading_proxy);
    let (s, a) = gui_step(s, GuiEventKind::ProxyReloaded(false));
    assert_eq!(a, GuiAction::ShowReloadFailed { show_last_status: true });
    let (s, a) = gui_step(s, GuiEventKind::CheckUpdate);
    assert_eq!(a, GuiAction::SavePendingFor(SaveFor::Check));
    let (s, a) = gui_step(s, GuiEventKind::PendingSaved(SaveFor::Check));
    assert!(s.checking_update);
    assert_eq!(a, GuiAction::StartUpdateCheck { at_startup: false });
    let (_, a) = gui_step(GuiFlags::initial(), GuiEventKind::Launched { auto_update: false });
    assert_eq!(a, GuiAction::BeginProxyReload { starting: true });
}
