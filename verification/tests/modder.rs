use majsoul_max_rs::max_data::{parse_max_data, MaxData};
use majsoul_max_rs::modder::{
    add_announcement, drops_account_update, hinted_mode_id, notify_method, request_method,
    response_method, Account, AllCommonViews, Character, CharacterInfo, CharacterProgress,
    ContestPlayer, FetchInfo, GameConfig, Item, LobbyRequest, MainCharacterReward, ModifyError,
    Modder, NicknameSetting, NotifyMethod, PlayerGameView, RequestMethod, RequestVerdict,
    ResponseMethod, RoomPlayer, ANNOUNCEMENT_ID,
};
use majsoul_max_rs::settings::{AvatarError, LiveModPatch, ModSettings, ViewSlot};

fn fresh_modder() -> Modder {
    Modder::new(ModSettings::default(), MaxData::new())
}

fn sample_data() -> MaxData {
    parse_max_data(
        "character:
- 200001
- 200042
skin:
- 400101
title:
- 600001
- 600002
item:
- 305001
- 305002
loading_image:
- 307001
- 305001
emoji:
  200001:
  - 10
endings:
- 410001
",
    )
    .unwrap()
}

fn account(account_id: u32) -> Account {
    Account {
        account_id,
        avatar_id: 1,
        avatar_frame: 2,
        verified: 3,
        nickname: "原名".to_owned(),
        title: 4,
        loading_image: vec![5],
    }
}

fn character(charid: u32) -> Character {
    Character {
        charid,
        level: 1,
        exp: 7,
        skin: 9,
        is_upgraded: false,
        rewarded_level: vec![],
        extra_emoji: vec![],
        views: vec![],
    }
}

fn player(account_id: u32, with_character: bool) -> PlayerGameView {
    PlayerGameView {
        account_id,
        avatar_id: 1,
        character: if with_character { Some(character(200042)) } else { None },
        nickname: "路人".to_owned(),
        title: 2,
        views: vec![],
        avatar_frame: 3,
        verified: 4,
    }
}

#[test]
fn fetch_account_info_survives_empty_char_skin() {
    let modder = fresh_modder();
    let mut acc = account(0);
    assert_eq!(modder.edit_account_info(&mut acc), Ok(true));
    // Falls back to the default skin of main_char 200001.
    assert_eq!(acc.avatar_id, 400101);
}

#[test]
fn other_accounts_are_left_alone() {
    let modder = fresh_modder();
    let mut acc = account(77);
    assert_eq!(modder.edit_account_info(&mut acc), Ok(false));
    assert_eq!(acc.avatar_id, 1);
    assert_eq!(acc.avatar_frame, 2);
}

#[test]
fn a_main_character_without_a_skin_is_an_error() {
    let mut settings = ModSettings::default();
    settings.main_char = 12;
    let modder = Modder::new(settings, MaxData::new());
    let mut acc = account(0);
    assert_eq!(modder.edit_account_info(&mut acc), Err(AvatarError::IdTooShort(12)));
    assert_eq!(acc.avatar_id, 1);
}

#[test]
fn out_of_range_use_common_view_is_rejected() {
    let mut modder = fresh_modder();
    let r = modder.handle_request(LobbyRequest::UseCommonView { index: 9999 });
    assert!(matches!(r, Err(ModifyError::PresetOutOfRange(9999))));
    assert_eq!(modder.mod_settings.preset_index, 0, "越界的 index 不应被写入");
}

#[test]
fn out_of_range_save_common_views_is_rejected() {
    let mut modder = fresh_modder();
    let r = modder.handle_request(LobbyRequest::SaveCommonViews {
        views: vec![],
        save_index: 9999,
        is_use: 1,
    });
    assert!(matches!(r, Err(ModifyError::PresetOutOfRange(9999))));
    assert_eq!(modder.mod_settings.preset_index, 0);
}

#[test]
fn saved_presets_keep_only_what_their_type_uses() {
    let mut modder = fresh_modder();
    let views = vec![
        ViewSlot { slot: 5, view_type: 0, item_id: 305519, item_id_list: vec![1, 2] },
        ViewSlot { slot: 1, view_type: 1, item_id: 8, item_id_list: vec![3, 4] },
    ];
    let r = modder
        .handle_request(LobbyRequest::SaveCommonViews { views, save_index: 2, is_use: 1 })
        .unwrap();
    assert_eq!(r.verdict, RequestVerdict::Heartbeat);
    assert!(r.settings_changed);
    assert_eq!(modder.mod_settings.preset_index, 2);
    let saved = &modder.mod_settings.views_presets[2];
    assert!(saved[0].item_id_list.is_empty());
    assert_eq!(saved[0].item_id, 305519);
    assert_eq!(saved[1].item_id, 0);
    assert_eq!(saved[1].item_id_list, vec![3, 4]);
    assert_eq!(modder.mod_settings.avatar_frame(), 305519);
}

#[test]
fn settings_requests_are_answered_locally() {
    let mut modder = fresh_modder();
    let r = modder.handle_request(LobbyRequest::UseTitle { title: 100001 }).unwrap();
    assert_eq!(r.verdict, RequestVerdict::Heartbeat);
    assert!(r.settings_changed);
    assert_eq!(modder.mod_settings.title, 100001);

    let r = modder
        .handle_request(LobbyRequest::ChangeMainCharacter { character_id: 200042 })
        .unwrap();
    assert_eq!(r.verdict, RequestVerdict::Heartbeat);
    assert_eq!(modder.mod_settings.main_char, 200042);

    let r = modder.handle_request(LobbyRequest::AddFinishedEnding).unwrap();
    assert_eq!(r.verdict, RequestVerdict::Drop);
    assert!(!r.settings_changed);

    let r = modder.handle_request(LobbyRequest::ReceiveCharacterRewards).unwrap();
    assert_eq!(r.verdict, RequestVerdict::Heartbeat);
    assert!(!r.settings_changed);

    let r = modder
        .handle_request(LobbyRequest::SetRandomCharacter { enabled: true, pool: vec![(200001, 400102)] })
        .unwrap();
    assert_eq!(r.verdict, RequestVerdict::Heartbeat);
    assert!(modder.mod_settings.random_char_switch);
    assert_eq!(modder.mod_settings.random_char_pool, vec![(200001, 400102)]);
}

#[test]
fn heartbeats_and_announcements() {
    let mut modder = fresh_modder();
    let r = modder
        .handle_request(LobbyRequest::LoginBeat { contract: "合同".to_owned() })
        .unwrap();
    assert_eq!(r.verdict, RequestVerdict::Forward);
    assert_eq!(modder.contract, "合同");

    let r = modder
        .handle_request(LobbyRequest::ReadAnnouncement { announcement_id: ANNOUNCEMENT_ID })
        .unwrap();
    assert_eq!(r.verdict, RequestVerdict::Heartbeat);
    let r = modder
        .handle_request(LobbyRequest::ReadAnnouncement { announcement_id: 5 })
        .unwrap();
    assert_eq!(r.verdict, RequestVerdict::Forward);

    let r = modder.handle_request(LobbyRequest::UseCommonView { index: 3 }).unwrap();
    assert_eq!(r.verdict, RequestVerdict::Forward);
    assert!(r.settings_changed);
    assert_eq!(modder.mod_settings.preset_index, 3);
}

#[test]
fn changing_a_skin_injects_the_rebuilt_character() {
    let mut modder = Modder::new(ModSettings::default(), sample_data());
    modder.mod_settings.emoji_switch = true;
    let r = modder
        .handle_request(LobbyRequest::ChangeCharacterSkin { character_id: 200001, skin: 400105 })
        .unwrap();
    assert_eq!(r.verdict, RequestVerdict::Heartbeat);
    let c = r.inject.unwrap();
    assert_eq!(c.charid, 200001);
    assert_eq!(c.skin, 400105);
    assert_eq!(c.level, 5);
    assert!(c.is_upgraded);
    assert_eq!(c.exp, 0);
    assert_eq!(c.rewarded_level, vec![1, 2, 3, 4, 5]);
    assert_eq!(c.extra_emoji, vec![10]);
    assert_eq!(modder.mod_settings.char_skin[&200001], 400105);
}

#[test]
fn request_methods_are_recognised_by_name() {
    assert_eq!(request_method(".lq.Lobby.useTitle"), RequestMethod::UseTitle);
    assert_eq!(request_method(".lq.Lobby.saveCommonViews"), RequestMethod::SaveCommonViews);
    assert_eq!(request_method(".lq.Lobby.somethingElse"), RequestMethod::Other);
    assert_eq!(response_method(".lq.Lobby.oauth2Login"), ResponseMethod::Login);
    assert_eq!(response_method(".lq.Lobby.login"), ResponseMethod::Login);
    assert_eq!(response_method(".lq.FastTest.authGame"), ResponseMethod::AuthGame);
    assert_eq!(response_method(""), ResponseMethod::Other);
    assert_eq!(notify_method(".lq.NotifyRoomPlayerUpdate"), NotifyMethod::RoomPlayerUpdate);
    assert_eq!(notify_method(".lq.NotifyAccountUpdate"), NotifyMethod::AccountUpdate);
    assert_eq!(notify_method(".lq.NotifyOther"), NotifyMethod::Other);
    assert!(drops_account_update(true));
    assert!(!drops_account_update(false));
}

#[test]
fn login_dresses_the_account_and_remembers_its_id() {
    let mut modder = fresh_modder();
    modder.mod_settings.nickname = "雀魂".to_owned();
    modder.mod_settings.title = 600001;
    modder.mod_settings.loading_bg = vec![307001];
    modder.mod_settings.verified = 1;
    let mut acc = Some(account(12345));
    modder.record_login(12345, &mut acc).unwrap();
    assert_eq!(modder.safe.account_id, 12345);
    let acc = acc.unwrap();
    assert_eq!(acc.avatar_id, 400101);
    assert_eq!(acc.nickname, "雀魂");
    assert_eq!(acc.title, 600001);
    assert_eq!(acc.loading_image, vec![307001]);
    assert_eq!(acc.verified, 1);
    assert_eq!(acc.avatar_frame, 2);

    let mut none: Option<Account> = None;
    modder.record_login(7, &mut none).unwrap();
    assert_eq!(modder.safe.account_id, 7);
    assert!(none.is_none());
}

#[test]
fn an_empty_mod_nickname_keeps_the_real_one() {
    let mut modder = fresh_modder();
    let mut acc = Some(account(1));
    modder.record_login(1, &mut acc).unwrap();
    assert_eq!(acc.unwrap().nickname, "原名");
}

#[test]
fn character_info_shows_every_known_character() {
    let mut modder = Modder::new(ModSettings::default(), sample_data());
    modder.mod_settings.star_character = vec![200042];
    let mut info = CharacterInfo {
        characters: vec![character(200001)],
        skins: vec![],
        main_character_id: 200001,
        character_sort: vec![],
        hidden_characters: vec![],
        finished_endings: vec![],
        rewarded_endings: vec![],
    };
    modder.fill_character_info(&mut info).unwrap();
    assert_eq!(modder.safe.main_character_id, 200001);
    assert_eq!(modder.safe.characters.len(), 1);
    assert_eq!(modder.safe.characters[0].exp, 7);
    assert_eq!(info.characters.len(), 2);
    assert_eq!(info.characters[1].charid, 200042);
    assert_eq!(info.characters[1].skin, 404201);
    assert_eq!(info.skins, vec![400101]);
    assert_eq!(info.character_sort, vec![200042]);
    assert_eq!(info.finished_endings, vec![410001]);
    assert_eq!(info.rewarded_endings, vec![410001]);
}

#[test]
fn a_character_without_a_skin_leaves_the_list_unchanged() {
    let data = parse_max_data(
        "character:\n- 12\nskin:\n- 1\ntitle:\n- 1\nitem:\n- 1\nloading_image:\n- 1\nemoji:\n  12:\n  - 1\nendings:\n- 1\n",
    )
    .unwrap();
    let mut modder = Modder::new(ModSettings::default(), data);
    let mut info = CharacterInfo {
        characters: vec![],
        skins: vec![9],
        main_character_id: 3,
        character_sort: vec![],
        hidden_characters: vec![],
        finished_endings: vec![],
        rewarded_endings: vec![],
    };
    assert_eq!(modder.fill_character_info(&mut info), Err(AvatarError::IdTooShort(12)));
    assert_eq!(info.skins, vec![9]);
    assert_eq!(modder.safe.main_character_id, 3);
}

#[test]
fn the_bag_gains_each_unlocked_item_once() {
    let mut modder = Modder::new(ModSettings::default(), sample_data());
    let mut items = vec![Item { item_id: 305002, stack: 3 }];
    modder.fill_bag(&mut items);
    let ids: Vec<(u32, u32)> = items.iter().map(|i| (i.item_id, i.stack)).collect();
    // 305002 was held; 305001 is listed both as an item and a loading image.
    assert_eq!(ids, vec![(305002, 3), (305001, 1), (307001, 1)]);
    assert_eq!(modder.safe.items.len(), 1);
    assert_eq!(modder.safe.items[0].stack, 3);
}

#[test]
fn common_views_are_listed_by_index_and_name() {
    let mut modder = fresh_modder();
    modder.mod_settings.preset_index = 4;
    modder.mod_settings.views_presets[9] =
        vec![ViewSlot { slot: 5, view_type: 0, item_id: 1, item_id_list: vec![] }];
    let mut views = AllCommonViews { use_index: 0, views: vec![] };
    modder.fill_common_views(&mut views);
    assert_eq!(views.use_index, 4);
    assert_eq!(views.views.len(), 10);
    assert_eq!(views.views[0].name, "View0");
    assert_eq!(views.views[9].name, "View9");
    assert_eq!(views.views[9].index, 9);
    assert_eq!(views.views[9].values.len(), 1);
}

#[test]
fn fetch_info_fills_every_part_it_holds() {
    let mut modder = Modder::new(ModSettings::default(), sample_data());
    let mut info = FetchInfo {
        character_info: None,
        bag: Some(vec![]),
        all_common_views: None,
        title_list: None,
        random_character: None,
    };
    modder.fill_info(&mut info).unwrap();
    assert!(info.character_info.is_none());
    assert_eq!(info.bag.as_ref().unwrap().len(), 3);
    assert_eq!(info.title_list, Some(vec![600001, 600002]));
    assert!(!info.random_character.as_ref().unwrap().enabled);
}

#[test]
fn the_own_player_is_shown_with_the_mod_settings() {
    let mut modder = fresh_modder();
    modder.safe.account_id = 5;
    modder.mod_settings.title = 600001;
    modder.mod_settings.show_server = false;
    modder.mod_settings.views_presets[0] = vec![
        ViewSlot { slot: 5, view_type: 0, item_id: 305519, item_id_list: vec![] },
        ViewSlot { slot: 2, view_type: 1, item_id: 0, item_id_list: vec![7, 8] },
        ViewSlot { slot: 3, view_type: 1, item_id: 0, item_id_list: vec![] },
    ];
    let mut p = player(5, true);
    modder.change_player(&mut p).unwrap();
    let c = p.character.as_ref().unwrap();
    assert_eq!(c.charid, 200001);
    assert_eq!(p.avatar_id, 400101);
    assert_eq!(c.level, 5);
    assert_eq!(p.title, 600001);
    assert_eq!(p.avatar_frame, 305519);
    assert_eq!(p.views.len(), 3);
    assert!(p.views[1].item_id == 7 || p.views[1].item_id == 8);
    assert_eq!(p.views[2].item_id, 0);
    assert_eq!(p.nickname, "路人");
}

#[test]
fn a_random_pool_draws_the_shown_character() {
    let mut modder = fresh_modder();
    modder.safe.account_id = 5;
    modder.mod_settings.show_server = false;
    modder.mod_settings.random_char_switch = true;
    modder.mod_settings.random_char_pool = vec![(200042, 404299)];
    let mut p = player(5, true);
    modder.change_player(&mut p).unwrap();
    assert_eq!(p.character.as_ref().unwrap().charid, 200042);
    assert_eq!(p.avatar_id, 404299);
    // The character itself wears its own skin.
    assert_eq!(p.character.as_ref().unwrap().skin, 404201);
}

#[test]
fn other_players_are_upgraded_and_tagged() {
    let modder = fresh_modder();
    let mut players = vec![player(7 << 23, true), player(13 << 23, false)];
    modder.change_players(&mut players).unwrap();
    let c = players[0].character.as_ref().unwrap();
    assert!(c.is_upgraded);
    assert_eq!(c.level, 5);
    assert_eq!(c.exp, 7);
    assert_eq!(players[0].avatar_id, 1);
    assert_eq!(players[0].nickname, "[JP]路人");
    assert_eq!(players[1].nickname, "[EN]路人");
}

#[test]
fn room_updates_show_the_own_player() {
    let mut modder = fresh_modder();
    modder.safe.account_id = 5;
    modder.mod_settings.nickname = "雀魂".to_owned();
    let mut players = vec![
        RoomPlayer { account_id: 5, avatar_id: 1, nickname: "我".to_owned(), title: 2 },
        RoomPlayer { account_id: 6, avatar_id: 3, nickname: "他".to_owned(), title: 4 },
    ];
    modder.edit_room_players(&mut players).unwrap();
    assert_eq!(players[0].avatar_id, 400101);
    assert_eq!(players[0].nickname, "[C\u{feff}N]雀魂");
    assert_eq!(players[1].avatar_id, 3);
    assert_eq!(players[1].nickname, "[C\u{feff}N]他");
    assert_eq!(players[1].title, 4);
}

#[test]
fn a_finished_game_remembers_the_real_progress() {
    let mut modder = fresh_modder();
    modder.safe.main_character_id = 200001;
    modder.safe.characters = vec![
        CharacterProgress { charid: 200002, level: 1, exp: 1 },
        CharacterProgress { charid: 200001, level: 2, exp: 30 },
    ];
    let mut reward = Some(MainCharacterReward { add: 50, exp: 80, level: 3 });
    modder.record_game_finish(&mut reward);
    let shown = reward.unwrap();
    assert_eq!((shown.add, shown.exp, shown.level), (0, 0, 5));
    assert_eq!(modder.safe.characters[1].exp, 80);
    assert_eq!(modder.safe.characters[1].level, 3);
    assert_eq!(modder.safe.characters[0].exp, 1);
}

#[test]
fn contest_players_are_tagged_when_servers_are_shown() {
    let mut modder = fresh_modder();
    let mut players = vec![ContestPlayer { account_id: 20 << 23, nickname: "甲".to_owned() }];
    assert!(modder.tag_contest_players(&mut players));
    assert_eq!(players[0].nickname, "[??]甲");
    modder.mod_settings.show_server = false;
    assert!(!modder.tag_contest_players(&mut players));
    assert_eq!(players[0].nickname, "[??]甲");
}

#[test]
fn hints_and_nickname_filters() {
    let mut modder = fresh_modder();
    let mut config = GameConfig { edge_hint: Some(false), mode_id: Some(15) };
    modder.apply_hint(&mut config);
    assert_eq!(config.edge_hint, Some(true));
    assert_eq!(config.mode_id, Some(11));
    assert_eq!(hinted_mode_id(26), 24);
    assert_eq!(hinted_mode_id(3), 3);

    let mut setting = Some(NicknameSetting { enable: 1, nicknames: vec!["x".to_owned()] });
    assert!(modder.edit_nickname_setting(&mut setting));
    let setting = setting.unwrap();
    assert_eq!(setting.enable, 0);
    assert!(setting.nicknames.is_empty());

    assert!(modder.apply_live_patch(LiveModPatch::HintSwitch(false)));
    let mut config = GameConfig { edge_hint: None, mode_id: Some(16) };
    modder.apply_hint(&mut config);
    assert_eq!(config.mode_id, Some(16));
}

#[test]
fn the_announcement_comes_first() {
    let mut list = Vec::new();
    add_announcement(&mut list, "0.1.0");
    assert_eq!(list.len(), 1);
    assert_eq!(list[0].id, ANNOUNCEMENT_ID);
    assert_eq!(list[0].title, "雀魂Max-rs载入成功");
    assert!(list[0].content.contains("版本: 0.1.0</color>"));
}

#[test]
fn failed_game_save_reports_error_and_keeps_request_substitution() {
    // Saving is the caller's work; the request is answered with a heartbeat
    // and marked as changing the settings whatever the save then does.
    let mut modder = fresh_modder();
    let r = modder.handle_request(LobbyRequest::UseTitle { title: 100001 }).unwrap();
    assert_eq!(r.verdict, RequestVerdict::Heartbeat);
    assert!(r.settings_changed);
    assert!(r.inject.is_none());
    assert_eq!(modder.mod_settings.title, 100001);
}

#[test]
fn live_patch_restores_sidebar_value_after_an_earlier_game_save() {
    let mut settings = ModSettings::default();
    settings.title = 100001;
    let mut modder = Modder::new(settings, MaxData::new());
    // The patch asks for a save, so the sidebar's value reaches the file again.
    assert!(modder.apply_live_patch(LiveModPatch::Nickname("新昵称".to_owned())));
    assert_eq!(modder.mod_settings.nickname, "新昵称");
    assert_eq!(modder.mod_settings.title, 100001);
}
