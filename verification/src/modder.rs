//! The rules by which game messages are rewritten.
//!
//! The caller decodes each protocol message into the plain values below,
//! calls the rule for its method and encodes the result again. Requests that
//! change the Mod settings are answered locally: the request is replaced by a
//! harmless heartbeat and the settings are changed instead.

use crate::settings::{
    default_avatar_id_result, effective_preset_index, frame_of, slots_view, spec_avatar_id_of,
    live_patch_applied, AvatarError, LiveModPatch, ModSettings, ViewSlot, ViewSlotView, PRESET_COUNT, copy_u32s, copy_slots,
};
use crate::frame::FrameError;
use crate::max_data::MaxData;
use std::collections::HashSet;
use crate::text::{chars_eq, chars_of, decimal_text, push_char, push_decimal};
use crate::ids::{add_zone_id, zone_tag};
use vstd::prelude::*;

verus! {

broadcast use vstd::std_specs::hash::group_hash_axioms;

/// The method names the request rules know.
#[derive(Debug, Clone, Copy, PartialEq, Eq, Structural)]
pub enum RequestMethod {
    ChangeMainCharacter,
    ChangeCharacterSkin,
    AddFinishedEnding,
    UpdateCharacterSort,
    UseTitle,
    SetLoadingImage,
    SaveCommonViews,
    UseCommonView,
    LoginBeat,
    ReadAnnouncement,
    ReceiveCharacterRewards,
    SetRandomCharacter,
    SetHiddenCharacter,
    Other,
}

pub open spec fn spec_request_method(name: Seq<char>) -> RequestMethod {
    if name == ".lq.Lobby.changeMainCharacter"@ {
        RequestMethod::ChangeMainCharacter
    } else if name == ".lq.Lobby.changeCharacterSkin"@ {
        RequestMethod::ChangeCharacterSkin
    } else if name == ".lq.Lobby.addFinishedEnding"@ {
        RequestMethod::AddFinishedEnding
    } else if name == ".lq.Lobby.updateCharacterSort"@ {
        RequestMethod::UpdateCharacterSort
    } else if name == ".lq.Lobby.useTitle"@ {
        RequestMethod::UseTitle
    } else if name == ".lq.Lobby.setLoadingImage"@ {
        RequestMethod::SetLoadingImage
    } else if name == ".lq.Lobby.saveCommonViews"@ {
        RequestMethod::SaveCommonViews
    } else if name == ".lq.Lobby.useCommonView"@ {
        RequestMethod::UseCommonView
    } else if name == ".lq.Lobby.loginBeat"@ {
        RequestMethod::LoginBeat
    } else if name == ".lq.Lobby.readAnnouncement"@ {
        RequestMethod::ReadAnnouncement
    } else if name == ".lq.Lobby.receiveCharacterRewards"@ {
        RequestMethod::ReceiveCharacterRewards
    } else if name == ".lq.Lobby.setRandomCharacter"@ {
        RequestMethod::SetRandomCharacter
    } else if name == ".lq.Lobby.setHiddenCharacter"@ {
        RequestMethod::SetHiddenCharacter
    } else {
        RequestMethod::Other
    }
}

/// Which rule a request method name selects.
pub fn request_method(name: &str) -> (r: RequestMethod)
    ensures
        r == spec_request_method(name@),
{
    let c = chars_of(name);
    if chars_eq(&c, ".lq.Lobby.changeMainCharacter") {
        RequestMethod::ChangeMainCharacter
    } else if chars_eq(&c, ".lq.Lobby.changeCharacterSkin") {
        RequestMethod::ChangeCharacterSkin
    } else if chars_eq(&c, ".lq.Lobby.addFinishedEnding") {
        RequestMethod::AddFinishedEnding
    } else if chars_eq(&c, ".lq.Lobby.updateCharacterSort") {
        RequestMethod::UpdateCharacterSort
    } else if chars_eq(&c, ".lq.Lobby.useTitle") {
        RequestMethod::UseTitle
    } else if chars_eq(&c, ".lq.Lobby.setLoadingImage") {
        RequestMethod::SetLoadingImage
    } else if chars_eq(&c, ".lq.Lobby.saveCommonViews") {
        RequestMethod::SaveCommonViews
    } else if chars_eq(&c, ".lq.Lobby.useCommonView") {
        RequestMethod::UseCommonView
    } else if chars_eq(&c, ".lq.Lobby.loginBeat") {
        RequestMethod::LoginBeat
    } else if chars_eq(&c, ".lq.Lobby.readAnnouncement") {
        RequestMethod::ReadAnnouncement
    } else if chars_eq(&c, ".lq.Lobby.receiveCharacterRewards") {
        RequestMethod::ReceiveCharacterRewards
    } else if chars_eq(&c, ".lq.Lobby.setRandomCharacter") {
        RequestMethod::SetRandomCharacter
    } else if chars_eq(&c, ".lq.Lobby.setHiddenCharacter") {
        RequestMethod::SetHiddenCharacter
    } else {
        RequestMethod::Other
    }
}

/// The method name of each request rule, as the game's protocol spells it.
pub open spec fn request_method_name(m: RequestMethod) -> Seq<char> {
    match m {
        RequestMethod::ChangeMainCharacter => ".lq.Lobby.changeMainCharacter"@,
        RequestMethod::ChangeCharacterSkin => ".lq.Lobby.changeCharacterSkin"@,
        RequestMethod::AddFinishedEnding => ".lq.Lobby.addFinishedEnding"@,
        RequestMethod::UpdateCharacterSort => ".lq.Lobby.updateCharacterSort"@,
        RequestMethod::UseTitle => ".lq.Lobby.useTitle"@,
        RequestMethod::SetLoadingImage => ".lq.Lobby.setLoadingImage"@,
        RequestMethod::SaveCommonViews => ".lq.Lobby.saveCommonViews"@,
        RequestMethod::UseCommonView => ".lq.Lobby.useCommonView"@,
        RequestMethod::LoginBeat => ".lq.Lobby.loginBeat"@,
        RequestMethod::ReadAnnouncement => ".lq.Lobby.readAnnouncement"@,
        RequestMethod::ReceiveCharacterRewards => ".lq.Lobby.receiveCharacterRewards"@,
        RequestMethod::SetRandomCharacter => ".lq.Lobby.setRandomCharacter"@,
        RequestMethod::SetHiddenCharacter => ".lq.Lobby.setHiddenCharacter"@,
        RequestMethod::Other => Seq::empty(),
    }
}

/// A request selects a rule exactly when its method name is that rule's
/// name: each rule's own name selects it, and no other name does.
pub proof fn law_request_method_table(m: RequestMethod, name: Seq<char>)
    requires
        m != RequestMethod::Other,
    ensures
        spec_request_method(name) == m <==> name == request_method_name(m),
{
    reveal_strlit(".lq.Lobby.changeMainCharacter");
    reveal_strlit(".lq.Lobby.changeCharacterSkin");
    reveal_strlit(".lq.Lobby.addFinishedEnding");
    reveal_strlit(".lq.Lobby.updateCharacterSort");
    reveal_strlit(".lq.Lobby.useTitle");
    reveal_strlit(".lq.Lobby.setLoadingImage");
    reveal_strlit(".lq.Lobby.saveCommonViews");
    reveal_strlit(".lq.Lobby.useCommonView");
    reveal_strlit(".lq.Lobby.loginBeat");
    reveal_strlit(".lq.Lobby.readAnnouncement");
    reveal_strlit(".lq.Lobby.receiveCharacterRewards");
    reveal_strlit(".lq.Lobby.setRandomCharacter");
    reveal_strlit(".lq.Lobby.setHiddenCharacter");
    assert(".lq.Lobby.changeMainCharacter"@.len() == 29);
    assert(".lq.Lobby.changeCharacterSkin"@.len() == 29);
    assert(".lq.Lobby.addFinishedEnding"@.len() == 27);
    assert(".lq.Lobby.updateCharacterSort"@.len() == 29);
    assert(".lq.Lobby.useTitle"@.len() == 18);
    assert(".lq.Lobby.setLoadingImage"@.len() == 25);
    assert(".lq.Lobby.saveCommonViews"@.len() == 25);
    assert(".lq.Lobby.useCommonView"@.len() == 23);
    assert(".lq.Lobby.loginBeat"@.len() == 19);
    assert(".lq.Lobby.readAnnouncement"@.len() == 26);
    assert(".lq.Lobby.receiveCharacterRewards"@.len() == 33);
    assert(".lq.Lobby.setRandomCharacter"@.len() == 28);
    assert(".lq.Lobby.setHiddenCharacter"@.len() == 28);
    assert(".lq.Lobby.changeMainCharacter"@[16] == 'M');
    assert(".lq.Lobby.changeCharacterSkin"@[16] == 'C');
    assert(".lq.Lobby.changeMainCharacter"@[10] == 'c');
    assert(".lq.Lobby.updateCharacterSort"@[10] == 'u');
    assert(".lq.Lobby.changeCharacterSkin"@[10] == 'c');
    assert(".lq.Lobby.setLoadingImage"@[11] == 'e');
    assert(".lq.Lobby.saveCommonViews"@[11] == 'a');
    assert(".lq.Lobby.setRandomCharacter"@[13] == 'R');
    assert(".lq.Lobby.setHiddenCharacter"@[13] == 'H');
}

/// The response methods the response rules know.
#[derive(Debug, Clone, Copy, PartialEq, Eq, Structural)]
pub enum ResponseMethod {
    FetchAccountInfo,
    FetchCharacterInfo,
    Login,
    CreateRoom,
    AuthGame,
    FetchTitleList,
    FetchRoom,
    FetchBagInfo,
    FetchAllCommonViews,
    FetchAnnouncement,
    FetchInfo,
    FetchServerSettings,
    FetchGameRecord,
    FetchRandomCharacter,
    SetHiddenCharacter,
    Other,
}

pub open spec fn spec_response_method(name: Seq<char>) -> ResponseMethod {
    if name == ".lq.Lobby.fetchAccountInfo"@ {
        ResponseMethod::FetchAccountInfo
    } else if name == ".lq.Lobby.fetchCharacterInfo"@ {
        ResponseMethod::FetchCharacterInfo
    } else if name == ".lq.Lobby.login"@ || name == ".lq.Lobby.oauth2Login"@ {
        ResponseMethod::Login
    } else if name == ".lq.Lobby.createRoom"@ {
        ResponseMethod::CreateRoom
    } else if name == ".lq.FastTest.authGame"@ {
        ResponseMethod::AuthGame
    } else if name == ".lq.Lobby.fetchTitleList"@ {
        ResponseMethod::FetchTitleList
    } else if name == ".lq.Lobby.fetchRoom"@ {
        ResponseMethod::FetchRoom
    } else if name == ".lq.Lobby.fetchBagInfo"@ {
        ResponseMethod::FetchBagInfo
    } else if name == ".lq.Lobby.fetchAllCommonViews"@ {
        ResponseMethod::FetchAllCommonViews
    } else if name == ".lq.Lobby.fetchAnnouncement"@ {
        ResponseMethod::FetchAnnouncement
    } else if name == ".lq.Lobby.fetchInfo"@ {
        ResponseMethod::FetchInfo
    } else if name == ".lq.Lobby.fetchServerSettings"@ {
        ResponseMethod::FetchServerSettings
    } else if name == ".lq.Lobby.fetchGameRecord"@ {
        ResponseMethod::FetchGameRecord
    } else if name == ".lq.Lobby.fetchRandomCharacter"@ {
        ResponseMethod::FetchRandomCharacter
    } else if name == ".lq.Lobby.setHiddenCharacter"@ {
        ResponseMethod::SetHiddenCharacter
    } else {
        ResponseMethod::Other
    }
}

/// Which rule a response's method name selects (the name of the request it answers).
pub fn response_method(name: &str) -> (r: ResponseMethod)
    ensures
        r == spec_response_method(name@),
{
    let c = chars_of(name);
    if chars_eq(&c, ".lq.Lobby.fetchAccountInfo") {
        ResponseMethod::FetchAccountInfo
    } else if chars_eq(&c, ".lq.Lobby.fetchCharacterInfo") {
        ResponseMethod::FetchCharacterInfo
    } else if chars_eq(&c, ".lq.Lobby.login") || chars_eq(&c, ".lq.Lobby.oauth2Login") {
        ResponseMethod::Login
    } else if chars_eq(&c, ".lq.Lobby.createRoom") {
        ResponseMethod::CreateRoom
    } else if chars_eq(&c, ".lq.FastTest.authGame") {
        ResponseMethod::AuthGame
    } else if chars_eq(&c, ".lq.Lobby.fetchTitleList") {
        ResponseMethod::FetchTitleList
    } else if chars_eq(&c, ".lq.Lobby.fetchRoom") {
        ResponseMethod::FetchRoom
    } else if chars_eq(&c, ".lq.Lobby.fetchBagInfo") {
        ResponseMethod::FetchBagInfo
    } else if chars_eq(&c, ".lq.Lobby.fetchAllCommonViews") {
        ResponseMethod::FetchAllCommonViews
    } else if chars_eq(&c, ".lq.Lobby.fetchAnnouncement") {
        ResponseMethod::FetchAnnouncement
    } else if chars_eq(&c, ".lq.Lobby.fetchInfo") {
        ResponseMethod::FetchInfo
    } else if chars_eq(&c, ".lq.Lobby.fetchServerSettings") {
        ResponseMethod::FetchServerSettings
    } else if chars_eq(&c, ".lq.Lobby.fetchGameRecord") {
        ResponseMethod::FetchGameRecord
    } else if chars_eq(&c, ".lq.Lobby.fetchRandomCharacter") {
        ResponseMethod::FetchRandomCharacter
    } else if chars_eq(&c, ".lq.Lobby.setHiddenCharacter") {
        ResponseMethod::SetHiddenCharacter
    } else {
        ResponseMethod::Other
    }
}

/// The method names each response rule answers, as the game's protocol
/// spells them: a login is answered alike for both ways of logging in.
pub open spec fn response_method_names(m: ResponseMethod) -> Set<Seq<char>> {
    match m {
        ResponseMethod::FetchAccountInfo => set![".lq.Lobby.fetchAccountInfo"@],
        ResponseMethod::FetchCharacterInfo => set![".lq.Lobby.fetchCharacterInfo"@],
        ResponseMethod::Login => set![".lq.Lobby.login"@, ".lq.Lobby.oauth2Login"@],
        ResponseMethod::CreateRoom => set![".lq.Lobby.createRoom"@],
        ResponseMethod::AuthGame => set![".lq.FastTest.authGame"@],
        ResponseMethod::FetchTitleList => set![".lq.Lobby.fetchTitleList"@],
        ResponseMethod::FetchRoom => set![".lq.Lobby.fetchRoom"@],
        ResponseMethod::FetchBagInfo => set![".lq.Lobby.fetchBagInfo"@],
        ResponseMethod::FetchAllCommonViews => set![".lq.Lobby.fetchAllCommonViews"@],
        ResponseMethod::FetchAnnouncement => set![".lq.Lobby.fetchAnnouncement"@],
        ResponseMethod::FetchInfo => set![".lq.Lobby.fetchInfo"@],
        ResponseMethod::FetchServerSettings => set![".lq.Lobby.fetchServerSettings"@],
        ResponseMethod::FetchGameRecord => set![".lq.Lobby.fetchGameRecord"@],
        ResponseMethod::FetchRandomCharacter => set![".lq.Lobby.fetchRandomCharacter"@],
        ResponseMethod::SetHiddenCharacter => set![".lq.Lobby.setHiddenCharacter"@],
        ResponseMethod::Other => Set::empty(),
    }
}

/// A response selects a rule exactly when the method it answers is one of
/// that rule's names: each rule's own names select it, and no other name does.
pub proof fn law_response_method_table(m: ResponseMethod, name: Seq<char>)
    requires
        m != ResponseMethod::Other,
    ensures
        spec_response_method(name) == m <==> response_method_names(m).contains(name),
{
    reveal_strlit(".lq.Lobby.fetchAccountInfo");
    reveal_strlit(".lq.Lobby.fetchCharacterInfo");
    reveal_strlit(".lq.Lobby.login");
    reveal_strlit(".lq.Lobby.oauth2Login");
    reveal_strlit(".lq.Lobby.createRoom");
    reveal_strlit(".lq.FastTest.authGame");
    reveal_strlit(".lq.Lobby.fetchTitleList");
    reveal_strlit(".lq.Lobby.fetchRoom");
    reveal_strlit(".lq.Lobby.fetchBagInfo");
    reveal_strlit(".lq.Lobby.fetchAllCommonViews");
    reveal_strlit(".lq.Lobby.fetchAnnouncement");
    reveal_strlit(".lq.Lobby.fetchInfo");
    reveal_strlit(".lq.Lobby.fetchServerSettings");
    reveal_strlit(".lq.Lobby.fetchGameRecord");
    reveal_strlit(".lq.Lobby.fetchRandomCharacter");
    reveal_strlit(".lq.Lobby.setHiddenCharacter");
    assert(".lq.Lobby.fetchAccountInfo"@.len() == 26);
    assert(".lq.Lobby.fetchCharacterInfo"@.len() == 28);
    assert(".lq.Lobby.login"@.len() == 15);
    assert(".lq.Lobby.oauth2Login"@.len() == 21);
    assert(".lq.Lobby.createRoom"@.len() == 20);
    assert(".lq.FastTest.authGame"@.len() == 21);
    assert(".lq.Lobby.fetchTitleList"@.len() == 24);
    assert(".lq.Lobby.fetchRoom"@.len() == 19);
    assert(".lq.Lobby.fetchBagInfo"@.len() == 22);
    assert(".lq.Lobby.fetchAllCommonViews"@.len() == 29);
    assert(".lq.Lobby.fetchAnnouncement"@.len() == 27);
    assert(".lq.Lobby.fetchInfo"@.len() == 19);
    assert(".lq.Lobby.fetchServerSettings"@.len() == 29);
    assert(".lq.Lobby.fetchGameRecord"@.len() == 25);
    assert(".lq.Lobby.fetchRandomCharacter"@.len() == 30);
    assert(".lq.Lobby.setHiddenCharacter"@.len() == 28);
    assert(".lq.Lobby.fetchCharacterInfo"@[10] == 'f');
    assert(".lq.Lobby.setHiddenCharacter"@[10] == 's');
    assert(".lq.Lobby.oauth2Login"@[4] == 'L');
    assert(".lq.FastTest.authGame"@[4] == 'F');
    assert(".lq.Lobby.fetchRoom"@[15] == 'R');
    assert(".lq.Lobby.fetchInfo"@[15] == 'I');
    assert(".lq.Lobby.fetchAllCommonViews"@[15] == 'A');
    assert(".lq.Lobby.fetchServerSettings"@[15] == 'S');
}

/// The notification methods the notification rules know.
#[derive(Debug, Clone, Copy, PartialEq, Eq, Structural)]
pub enum NotifyMethod {
    AccountUpdate,
    RoomPlayerUpdate,
    GameFinishRewardV2,
    CustomContestSystemMsg,
    Other,
}

pub open spec fn spec_notify_method(name: Seq<char>) -> NotifyMethod {
    if name == ".lq.NotifyAccountUpdate"@ {
        NotifyMethod::AccountUpdate
    } else if name == ".lq.NotifyRoomPlayerUpdate"@ {
        NotifyMethod::RoomPlayerUpdate
    } else if name == ".lq.NotifyGameFinishRewardV2"@ {
        NotifyMethod::GameFinishRewardV2
    } else if name == ".lq.NotifyCustomContestSystemMsg"@ {
        NotifyMethod::CustomContestSystemMsg
    } else {
        NotifyMethod::Other
    }
}

/// Which rule a notification's method name selects.
pub fn notify_method(name: &str) -> (r: NotifyMethod)
    ensures
        r == spec_notify_method(name@),
{
    let c = chars_of(name);
    if chars_eq(&c, ".lq.NotifyAccountUpdate") {
        NotifyMethod::AccountUpdate
    } else if chars_eq(&c, ".lq.NotifyRoomPlayerUpdate") {
        NotifyMethod::RoomPlayerUpdate
    } else if chars_eq(&c, ".lq.NotifyGameFinishRewardV2") {
        NotifyMethod::GameFinishRewardV2
    } else if chars_eq(&c, ".lq.NotifyCustomContestSystemMsg") {
        NotifyMethod::CustomContestSystemMsg
    } else {
        NotifyMethod::Other
    }
}

/// The method name of each notification rule, as the game's protocol spells it.
pub open spec fn notify_method_name(m: NotifyMethod) -> Seq<char> {
    match m {
        NotifyMethod::AccountUpdate => ".lq.NotifyAccountUpdate"@,
        NotifyMethod::RoomPlayerUpdate => ".lq.NotifyRoomPlayerUpdate"@,
        NotifyMethod::GameFinishRewardV2 => ".lq.NotifyGameFinishRewardV2"@,
        NotifyMethod::CustomContestSystemMsg => ".lq.NotifyCustomContestSystemMsg"@,
        NotifyMethod::Other => Seq::empty(),
    }
}

/// A notification selects a rule exactly when its method name is that
/// rule's name: each rule's own name selects it, and no other name does.
pub proof fn law_notify_method_table(m: NotifyMethod, name: Seq<char>)
    requires
        m != NotifyMethod::Other,
    ensures
        spec_notify_method(name) == m <==> name == notify_method_name(m),
{
    reveal_strlit(".lq.NotifyAccountUpdate");
    reveal_strlit(".lq.NotifyRoomPlayerUpdate");
    reveal_strlit(".lq.NotifyGameFinishRewardV2");
    reveal_strlit(".lq.NotifyCustomContestSystemMsg");
    assert(".lq.NotifyAccountUpdate"@.len() == 23);
    assert(".lq.NotifyRoomPlayerUpdate"@.len() == 26);
    assert(".lq.NotifyGameFinishRewardV2"@.len() == 28);
    assert(".lq.NotifyCustomContestSystemMsg"@.len() == 32);
}

/// A decoded lobby request, with the fields the rules read.
pub enum LobbyRequest {
    ChangeMainCharacter { character_id: u32 },
    ChangeCharacterSkin { character_id: u32, skin: u32 },
    AddFinishedEnding,
    UpdateCharacterSort { sort: Vec<u32>, hidden_characters: Vec<u32> },
    UseTitle { title: u32 },
    SetLoadingImage { images: Vec<u32> },
    SaveCommonViews { views: Vec<ViewSlot>, save_index: u32, is_use: u32 },
    UseCommonView { index: u32 },
    LoginBeat { contract: String },
    ReadAnnouncement { announcement_id: u32 },
    ReceiveCharacterRewards,
    /// `pool` holds (character id, skin id) pairs.
    SetRandomCharacter { enabled: bool, pool: Vec<(u32, u32)> },
    SetHiddenCharacter { chara_list: Vec<u32> },
    Other,
}

/// What becomes of a request.
#[derive(Debug, Clone, Copy, PartialEq, Eq, Structural)]
pub enum RequestVerdict {
    /// Sent on unchanged.
    Forward,
    /// Not sent at all.
    Drop,
    /// Answered locally: replaced by a `loginBeat` heartbeat carrying the
    /// stored contract, so that the server sees nothing it could refuse.
    Heartbeat,
}

/// A character as the client shows it.
pub struct Character {
    pub charid: u32,
    pub level: u32,
    pub exp: u32,
    pub skin: u32,
    pub is_upgraded: bool,
    pub rewarded_level: Vec<u32>,
    pub extra_emoji: Vec<u32>,
    pub views: Vec<ViewSlot>,
}

/// The outcome of a request rule.
pub struct RequestOutcome {
    pub verdict: RequestVerdict,
    /// The Mod settings changed and should be saved.
    pub settings_changed: bool,
    /// A character update to send to the client as a notification.
    pub inject: Option<Character>,
}

/// Why a message was left unchanged.
#[derive(Debug, Clone, Copy, PartialEq, Eq, Structural)]
pub enum ModifyError {
    /// A preset index sent by the client is out of range.
    PresetOutOfRange(u32),
    /// A skin could not be derived.
    Avatar(AvatarError),
    /// The frame's header or envelope was refused.
    Frame(FrameError),
}

/// What becomes of one websocket frame: the frame to send on (none to drop
/// it), and a frame to send back to the client as well.
pub struct ModifyResult {
    pub msg: Option<Vec<u8>>,
    pub inject_msg: Option<Vec<u8>>,
}

/// The result of handling a frame, with a failed handling replaced by the
/// frame as it came.
pub open spec fn spec_modify_fallback(buf: Seq<u8>, r: Result<ModifyResult, ModifyError>) -> (Option<Seq<u8>>, Option<Seq<u8>>) {
    match r {
        Ok(m) => modify_result_view(m),
        Err(_) => (Some(buf), None),
    }
}

/// The view of a frame result: the frame sent on and the frame injected.
pub open spec fn modify_result_view(m: ModifyResult) -> (Option<Seq<u8>>, Option<Seq<u8>>) {
    (
        match m.msg {
            Some(v) => Some(v@),
            None => None,
        },
        match m.inject_msg {
            Some(v) => Some(v@),
            None => None,
        },
    )
}

/// A frame whose handling failed is sent on unchanged, with nothing
/// injected; a handled frame keeps what its handler decided.
pub fn modify_fallback(buf: Vec<u8>, r: Result<ModifyResult, ModifyError>) -> (m: ModifyResult)
    ensures
        modify_result_view(m) == spec_modify_fallback(buf@, r),
{
    match r {
        Ok(m) => m,
        Err(_) => ModifyResult { msg: Some(buf), inject_msg: None },
    }
}

/// An error never drops a frame: whatever went wrong, the frame is sent on
/// as it came and nothing is injected.
pub proof fn law_errors_never_drop_a_frame(buf: Seq<u8>, e: ModifyError)
    ensures
        spec_modify_fallback(buf, Err(e)) == (Some(buf), None::<Seq<u8>>),
{
}

/// The id of the announcement the modder adds.
pub const ANNOUNCEMENT_ID: u32 = 1145141919;

/// How long-term progress of a character is remembered.
#[derive(Debug, Clone, Copy)]
pub struct CharacterProgress {
    pub charid: u32,
    pub level: u32,
    pub exp: u32,
}

/// An item stack in the bag.
#[derive(Debug, Clone, Copy)]
pub struct Item {
    pub item_id: u32,
    pub stack: u32,
}

/// What the modder remembers of the real account.
pub struct Safe {
    pub account_id: u32,
    pub characters: Vec<CharacterProgress>,
    pub main_character_id: u32,
    pub items: Vec<Item>,
}

/// The modder's state: the game data, the Mod settings, what it remembers of
/// the account, and the latest heartbeat contract.
pub struct Modder {
    pub max_data: MaxData,
    pub mod_settings: ModSettings,
    pub safe: Safe,
    pub contract: String,
}


/// The part of an account the rules rewrite.
pub struct Account {
    pub account_id: u32,
    pub avatar_id: u32,
    pub avatar_frame: u32,
    pub verified: u32,
    pub nickname: String,
    pub title: u32,
    pub loading_image: Vec<u32>,
}

/// A player as a room or a game shows it.
pub struct PlayerGameView {
    pub account_id: u32,
    pub avatar_id: u32,
    pub character: Option<Character>,
    pub nickname: String,
    pub title: u32,
    pub views: Vec<ViewSlot>,
    pub avatar_frame: u32,
    pub verified: u32,
}

/// The character list of the account.
pub struct CharacterInfo {
    pub characters: Vec<Character>,
    pub skins: Vec<u32>,
    pub main_character_id: u32,
    pub character_sort: Vec<u32>,
    pub hidden_characters: Vec<u32>,
    pub finished_endings: Vec<u32>,
    pub rewarded_endings: Vec<u32>,
}

/// One preset as the client lists it.
pub struct CommonView {
    pub index: u32,
    pub name: String,
    pub values: Vec<ViewSlot>,
}

/// The random-character setting as the client shows it.
pub struct RandomCharacterSetting {
    pub enabled: bool,
    pub pool: Vec<(u32, u32)>,
}

/// The server's nickname filter.
pub struct NicknameSetting {
    pub enable: u32,
    pub nicknames: Vec<String>,
}

/// A player in a room update notification.
pub struct RoomPlayer {
    pub account_id: u32,
    pub avatar_id: u32,
    pub nickname: String,
    pub title: u32,
}

/// The main character's progress in a game-finish reward.
#[derive(Debug, Clone, Copy)]
pub struct MainCharacterReward {
    pub add: u32,
    pub exp: u32,
    pub level: u32,
}

/// A player in a contest start notification.
pub struct ContestPlayer {
    pub account_id: u32,
    pub nickname: String,
}

/// An announcement shown in the lobby.
pub struct Announcement {
    pub title: String,
    pub id: u32,
    pub header_image: String,
    pub content: String,
}

/// A uniformly random element of `items` (rand's `IndexedRandom::choose`
/// with the thread-local generator). It is `None` exactly when `items` is
/// empty; which element comes back is chance.
#[verifier::external_body]
fn choose_one<T: Copy>(items: &[T]) -> (r: Option<T>)
    ensures
        r is None <==> items@.len() == 0,
        r is Some ==> items@.contains(r->0),
{
    rand::seq::IndexedRandom::choose(items, &mut rand::rng()).copied()
}

/// The mode id shown with the edge hint on: modes 15 and 16 show as 11 and
/// 12, modes 25 and 26 as 23 and 24; others are unchanged.
pub open spec fn spec_hinted_mode_id(mode_id: u32) -> u32 {
    if 15 <= mode_id <= 16 {
        (mode_id - 4) as u32
    } else if 25 <= mode_id <= 26 {
        (mode_id - 2) as u32
    } else {
        mode_id
    }
}

pub fn hinted_mode_id(mode_id: u32) -> (r: u32)
    ensures
        r == spec_hinted_mode_id(mode_id),
{
    if 15 <= mode_id && mode_id <= 16 {
        mode_id - 4
    } else if 25 <= mode_id && mode_id <= 26 {
        mode_id - 2
    } else {
        mode_id
    }
}

/// An account update notification that touches characters is dropped: the
/// modder's own character list stays in view.
pub fn drops_account_update(updates_characters: bool) -> (r: bool)
    ensures
        r == updates_characters,
{
    updates_characters
}

pub open spec fn announcement_text_before() -> Seq<char> {
    "<color=#f9963b>作者: Xerxes-2        版本: "@
}

pub open spec fn announcement_text_after() -> Seq<char> {
    "</color>\n\n<b>本工具完全免费、开源，如果您为此付费，说明您被骗了！</b>\n\n<b>本工具仅供学习交流, 请在下载后24小时内删除, 不得用于商业用途, 否则后果自负！</b>\n\n<b>本工具有可能导致账号被封禁，给猫粮充钱才是正道！</b>\n\n\n<color=#f9963b>开源地址：</color>\n\n<href=https://github.com/Xerxes-2/MajsoulMax-rs>https://github.com/Xerxes-2/MajsoulMax-rs</href>\n\n\n<color=#f9963b>再次重申：脚本完全免费使用，没有收费功能！</color>"@
}

/// The announcement that tells the player the modder is active; `version` is
/// the modder's version.
pub fn announcement(version: &str) -> (r: Announcement)
    ensures
        r.id == ANNOUNCEMENT_ID,
        r.title@ == "雀魂Max-rs载入成功"@,
        r.header_image@ == "internal://2.jpg"@,
        r.content@ == announcement_text_before() + version@ + announcement_text_after(),
{
    let mut content = "<color=#f9963b>作者: Xerxes-2        版本: ".to_owned();
    crate::text::append_chars(&mut content, &chars_of(version));
    crate::text::append_chars(&mut content, &chars_of("</color>\n\n<b>本工具完全免费、开源，如果您为此付费，说明您被骗了！</b>\n\n<b>本工具仅供学习交流, 请在下载后24小时内删除, 不得用于商业用途, 否则后果自负！</b>\n\n<b>本工具有可能导致账号被封禁，给猫粮充钱才是正道！</b>\n\n\n<color=#f9963b>开源地址：</color>\n\n<href=https://github.com/Xerxes-2/MajsoulMax-rs>https://github.com/Xerxes-2/MajsoulMax-rs</href>\n\n\n<color=#f9963b>再次重申：脚本完全免费使用，没有收费功能！</color>"));
    Announcement {
        title: "雀魂Max-rs载入成功".to_owned(),
        id: ANNOUNCEMENT_ID,
        header_image: "internal://2.jpg".to_owned(),
        content,
    }
}

/// A saved slot keeps only what its type uses: a fixed slot (type 0) loses
/// its random list, a random slot (type 1) its fixed item.
pub open spec fn normalized_slot(v: ViewSlotView) -> ViewSlotView {
    if v.view_type == 0 {
        ViewSlotView { item_id_list: Seq::empty(), ..v }
    } else if v.view_type == 1 {
        ViewSlotView { item_id: 0, ..v }
    } else {
        v
    }
}

fn normalize_slots(views: &mut Vec<ViewSlot>)
    ensures
        slots_view(final(views)@) == slots_view(old(views)@).map_values(
            |v: ViewSlotView| normalized_slot(v),
        ),
{
    let ghost unsaved = slots_view(views@);
    let mut i: usize = 0;
    while i < views.len()
        invariant
            i <= views@.len(),
            unsaved.len() == views@.len(),
            forall|k: int|
                0 <= k < i ==> (#[trigger] views@[k])@ == normalized_slot(unsaved[k]),
            forall|k: int| i <= k < views@.len() ==> (#[trigger] views@[k])@ == unsaved[k],
        decreases views@.len() - i,
    {
        let mut slot = views[i].duplicate();
        if slot.view_type == 0 {
            slot.item_id_list = Vec::new();
        } else if slot.view_type == 1 {
            slot.item_id = 0;
        }
        views.set(i, slot);
        i += 1;
    }
    assert(slots_view(views@) =~= unsaved.map_values(|v: ViewSlotView| normalized_slot(v)));
}

/// The emoji a built character carries: the character's emoji list when
/// emoji are switched on and the data lists some, else none.
pub open spec fn built_emoji(m: Modder, id: u32) -> Seq<u32> {
    if m.mod_settings.emoji_switch && m.max_data.emoji@.contains_key(id) {
        m.max_data.emoji@[id]@
    } else {
        Seq::empty()
    }
}

/// `c` is character `id` as the modder shows it: fully upgraded at level 5
/// with all level rewards, its chosen (or default) skin, its emoji when
/// switched on, and the preset in use.
pub open spec fn character_built(m: Modder, id: u32, c: Character) -> bool {
    &&& c.charid == id
    &&& c.exp == 0
    &&& c.is_upgraded
    &&& c.level == 5
    &&& spec_avatar_id_of(m.mod_settings.char_skin@, id) == Some(c.skin)
    &&& c.rewarded_level@ == seq![1u32, 2, 3, 4, 5]
    &&& c.extra_emoji@ == built_emoji(m, id)
    &&& slots_view(c.views@) == m.mod_settings.spec_current_preset()
}

pub open spec fn answered_locally(r: Result<RequestOutcome, ModifyError>, changed: bool) -> bool {
    r matches Ok(o) && o.verdict == RequestVerdict::Heartbeat && o.settings_changed == changed
        && o.inject is None
}

pub open spec fn outcome_is(r: Result<RequestOutcome, ModifyError>, verdict: RequestVerdict, changed: bool) -> bool {
    r matches Ok(o) && o.verdict == verdict && o.settings_changed == changed && o.inject is None
}

/// What a request rule does to the modder (`old` before, `new` after) and returns.
pub open spec fn request_effect(
    old: Modder,
    request: LobbyRequest,
    new: Modder,
    r: Result<RequestOutcome, ModifyError>,
) -> bool {
    let s = old.mod_settings;
    let t = new.mod_settings;
    match request {
        LobbyRequest::ChangeMainCharacter { character_id } => {
            &&& t == (ModSettings { main_char: character_id, ..s })
            &&& new.contract == old.contract
            &&& answered_locally(r, true)
        },
        LobbyRequest::ChangeCharacterSkin { character_id, skin } => {
            &&& t == (ModSettings { char_skin: t.char_skin, ..s })
            &&& t.char_skin@ == s.char_skin@.insert(character_id, skin)
            &&& new.contract == old.contract
            &&& r is Ok
            &&& r->Ok_0.verdict == RequestVerdict::Heartbeat
            &&& r->Ok_0.settings_changed
            &&& r->Ok_0.inject is Some
            &&& character_built(new, character_id, r->Ok_0.inject->0)
        },
        LobbyRequest::AddFinishedEnding => {
            &&& t == s
            &&& new.contract == old.contract
            &&& outcome_is(r, RequestVerdict::Drop, false)
        },
        LobbyRequest::UpdateCharacterSort { sort, hidden_characters } => {
            &&& t == (ModSettings { star_character: sort, hidden_characters: hidden_characters, ..s })
            &&& new.contract == old.contract
            &&& answered_locally(r, true)
        },
        LobbyRequest::UseTitle { title } => {
            &&& t == (ModSettings { title: title, ..s })
            &&& new.contract == old.contract
            &&& answered_locally(r, true)
        },
        LobbyRequest::SetLoadingImage { images } => {
            &&& t == (ModSettings { loading_bg: images, ..s })
            &&& new.contract == old.contract
            &&& answered_locally(r, true)
        },
        LobbyRequest::SaveCommonViews { views, save_index, is_use } => {
            &&& new.contract == old.contract
            &&& if save_index < PRESET_COUNT {
                &&& t == (ModSettings {
                    views_presets: t.views_presets,
                    preset_index: if is_use == 1 {
                        save_index
                    } else {
                        s.preset_index
                    },
                    ..s
                })
                &&& forall|i: int|
                    0 <= i < PRESET_COUNT && i != save_index ==> #[trigger] t.views_presets@[i]
                        == s.views_presets@[i]
                &&& slots_view(t.views_presets@[save_index as int]@) == slots_view(views@).map_values(
                    |v: ViewSlotView| normalized_slot(v),
                )
                &&& answered_locally(r, true)
            } else {
                &&& t == s
                &&& r == Err::<RequestOutcome, ModifyError>(ModifyError::PresetOutOfRange(save_index))
            }
        },
        LobbyRequest::UseCommonView { index } => {
            &&& new.contract == old.contract
            &&& if index < PRESET_COUNT {
                &&& t == (ModSettings { preset_index: index, ..s })
                &&& outcome_is(r, RequestVerdict::Forward, true)
            } else {
                &&& t == s
                &&& r == Err::<RequestOutcome, ModifyError>(ModifyError::PresetOutOfRange(index))
            }
        },
        LobbyRequest::LoginBeat { contract } => {
            &&& t == s
            &&& new.contract == contract
            &&& outcome_is(r, RequestVerdict::Forward, false)
        },
        LobbyRequest::ReadAnnouncement { announcement_id } => {
            &&& t == s
            &&& new.contract == old.contract
            &&& outcome_is(
                r,
                if announcement_id == ANNOUNCEMENT_ID {
                    RequestVerdict::Heartbeat
                } else {
                    RequestVerdict::Forward
                },
                false,
            )
        },
        LobbyRequest::ReceiveCharacterRewards => {
            &&& t == s
            &&& new.contract == old.contract
            &&& answered_locally(r, false)
        },
        LobbyRequest::SetRandomCharacter { enabled, pool } => {
            &&& t == (ModSettings { random_char_switch: enabled, random_char_pool: pool, ..s })
            &&& new.contract == old.contract
            &&& answered_locally(r, true)
        },
        LobbyRequest::SetHiddenCharacter { chara_list } => {
            &&& t == (ModSettings { hidden_characters: chara_list, ..s })
            &&& new.contract == old.contract
            &&& answered_locally(r, true)
        },
        LobbyRequest::Other => {
            &&& t == s
            &&& new.contract == old.contract
            &&& outcome_is(r, RequestVerdict::Forward, false)
        },
    }
}

impl Modder {
    /// A modder for the given settings and data, with nothing remembered yet.
    pub fn new(mod_settings: ModSettings, max_data: MaxData) -> (m: Modder)
        ensures
            m.mod_settings == mod_settings,
            m.max_data == max_data,
            m.safe.account_id == 0,
            m.safe.main_character_id == 0,
            m.safe.characters@.len() == 0,
            m.safe.items@.len() == 0,
            m.contract@.len() == 0,
    {
        Modder {
            max_data,
            mod_settings,
            safe: Safe { account_id: 0, characters: Vec::new(), main_character_id: 0, items: Vec::new() },
            contract: String::new(),
        }
    }

    /// Applies a sidebar change to the Mod settings while the game runs.
    /// Returns that the settings changed and must be saved: the sidebar has
    /// written the value to the settings file, and a save made meanwhile
    /// from the older settings would otherwise leave the file without it.
    pub fn apply_live_patch(&mut self, patch: LiveModPatch) -> (settings_changed: bool)
        ensures
            settings_changed,
            live_patch_applied(old(self).mod_settings, final(self).mod_settings, patch),
            final(self).max_data == old(self).max_data,
            final(self).safe == old(self).safe,
            final(self).contract == old(self).contract,
    {
        self.mod_settings.apply_live_patch(&patch);
        true
    }

    /// Builds character `id` as the modder shows it.
    pub fn build_character(&self, id: u32) -> (r: Result<Character, AvatarError>)
        ensures
            match r {
                Ok(c) => character_built(*self, id, c),
                Err(e) => spec_avatar_id_of(self.mod_settings.char_skin@, id) is None
                    && default_avatar_id_result(id) == Err::<u32, AvatarError>(e),
            },
    {
        let skin = match self.mod_settings.avatar_id_of(id) {
            Ok(skin) => skin,
            Err(e) => {
                return Err(e);
            },
        };
        let mut rewarded_level: Vec<u32> = Vec::new();
        rewarded_level.push(1);
        rewarded_level.push(2);
        rewarded_level.push(3);
        rewarded_level.push(4);
        rewarded_level.push(5);
        let extra_emoji = if self.mod_settings.emoji_on() {
            match self.max_data.emoji.get(&id) {
                Some(list) => crate::settings::copy_u32s(list.as_slice()),
                None => Vec::new(),
            }
        } else {
            Vec::new()
        };
        let views = crate::settings::copy_slots(self.mod_settings.current_preset());
        let c = Character { charid: id, level: 5, exp: 0, skin, is_upgraded: true, rewarded_level, extra_emoji, views };
        assert(c.rewarded_level@ =~= seq![1u32, 2, 3, 4, 5]);
        Ok(c)
    }

    /// Applies a request: settings requests change the Mod settings and are
    /// answered with a heartbeat; `addFinishedEnding` is dropped; a preset
    /// index out of range is refused and changes nothing.
    pub fn handle_request(&mut self, request: LobbyRequest) -> (r: Result<RequestOutcome, ModifyError>)
        ensures
            final(self).max_data == old(self).max_data,
            final(self).safe == old(self).safe,
            request_effect(*old(self), request, *final(self), r),
    {
        let ghost s0 = self.mod_settings;
        match request {
            LobbyRequest::ChangeMainCharacter { character_id } => {
                self.mod_settings.main_char = character_id;
                Ok(RequestOutcome { verdict: RequestVerdict::Heartbeat, settings_changed: true, inject: None })
            },
            LobbyRequest::ChangeCharacterSkin { character_id, skin } => {
                self.mod_settings.char_skin.insert(character_id, skin);
                match self.build_character(character_id) {
                    Ok(character) => Ok(
                        RequestOutcome {
                            verdict: RequestVerdict::Heartbeat,
                            settings_changed: true,
                            inject: Some(character),
                        },
                    ),
                    Err(e) => Err(ModifyError::Avatar(e)),
                }
            },
            LobbyRequest::AddFinishedEnding => {
                Ok(RequestOutcome { verdict: RequestVerdict::Drop, settings_changed: false, inject: None })
            },
            LobbyRequest::UpdateCharacterSort { sort, hidden_characters } => {
                self.mod_settings.star_character = sort;
                self.mod_settings.hidden_characters = hidden_characters;
                Ok(RequestOutcome { verdict: RequestVerdict::Heartbeat, settings_changed: true, inject: None })
            },
            LobbyRequest::UseTitle { title } => {
                self.mod_settings.title = title;
                Ok(RequestOutcome { verdict: RequestVerdict::Heartbeat, settings_changed: true, inject: None })
            },
            LobbyRequest::SetLoadingImage { images } => {
                self.mod_settings.loading_bg = images;
                Ok(RequestOutcome { verdict: RequestVerdict::Heartbeat, settings_changed: true, inject: None })
            },
            LobbyRequest::SaveCommonViews { views, save_index, is_use } => {
                let mut views = views;
                normalize_slots(&mut views);
                if (save_index as usize) >= PRESET_COUNT {
                    return Err(ModifyError::PresetOutOfRange(save_index));
                }
                self.mod_settings.views_presets.set(save_index as usize, views);
                if is_use == 1 {
                    self.mod_settings.preset_index = save_index;
                }
                Ok(RequestOutcome { verdict: RequestVerdict::Heartbeat, settings_changed: true, inject: None })
            },
            LobbyRequest::UseCommonView { index } => {
                if (index as usize) >= PRESET_COUNT {
                    return Err(ModifyError::PresetOutOfRange(index));
                }
                self.mod_settings.preset_index = index;
                Ok(RequestOutcome { verdict: RequestVerdict::Forward, settings_changed: true, inject: None })
            },
            LobbyRequest::LoginBeat { contract } => {
                self.contract = contract;
                Ok(RequestOutcome { verdict: RequestVerdict::Forward, settings_changed: false, inject: None })
            },
            LobbyRequest::ReadAnnouncement { announcement_id } => {
                let verdict = if announcement_id == ANNOUNCEMENT_ID {
                    RequestVerdict::Heartbeat
                } else {
                    RequestVerdict::Forward
                };
                Ok(RequestOutcome { verdict, settings_changed: false, inject: None })
            },
            LobbyRequest::ReceiveCharacterRewards => {
                Ok(RequestOutcome { verdict: RequestVerdict::Heartbeat, settings_changed: false, inject: None })
            },
            LobbyRequest::SetRandomCharacter { enabled, pool } => {
                self.mod_settings.random_char_switch = enabled;
                self.mod_settings.random_char_pool = pool;
                Ok(RequestOutcome { verdict: RequestVerdict::Heartbeat, settings_changed: true, inject: None })
            },
            LobbyRequest::SetHiddenCharacter { chara_list } => {
                self.mod_settings.hidden_characters = chara_list;
                Ok(RequestOutcome { verdict: RequestVerdict::Heartbeat, settings_changed: true, inject: None })
            },
            LobbyRequest::Other => {
                Ok(RequestOutcome { verdict: RequestVerdict::Forward, settings_changed: false, inject: None })
            },
        }
    }
}


/// A game configuration as `authGame` returns it, with what the rules read:
/// the edge-hint flag of its detail rule and the mode id of its meta block,
/// each present exactly when its block is.
pub struct GameConfig {
    pub edge_hint: Option<bool>,
    pub mode_id: Option<u32>,
}

/// The presets as `fetchAllCommonViews` lists them.
pub struct AllCommonViews {
    pub use_index: u32,
    pub views: Vec<CommonView>,
}

/// The name a preset is listed under: `View` and its index.
pub open spec fn view_name(index: nat) -> Seq<char> {
    seq!['V', 'i', 'e', 'w'] + decimal_text(index)
}

/// The presets as the modder lists them: each under its index and the name
/// `View<index>`, with the index in use.
pub open spec fn common_views_shown(s: ModSettings, v: AllCommonViews) -> bool {
    &&& v.use_index == s.preset_index
    &&& v.views@.len() == PRESET_COUNT
    &&& forall|i: int|
        0 <= i < PRESET_COUNT ==> {
            &&& (#[trigger] v.views@[i]).index == i
            &&& v.views@[i].name@ == view_name(i as nat)
            &&& slots_view(v.views@[i].values@) == slots_view(s.views_presets@[i]@)
        }
}

/// The parts of a `fetchInfo` response the rules rewrite, each present
/// exactly when the response holds it.
pub struct FetchInfo {
    pub character_info: Option<CharacterInfo>,
    pub bag: Option<Vec<Item>>,
    pub all_common_views: Option<AllCommonViews>,
    pub title_list: Option<Vec<u32>>,
    pub random_character: Option<RandomCharacterSetting>,
}

/// The skin of the main character under the Mod settings, if it has one.
pub open spec fn main_avatar(s: ModSettings) -> Option<u32> {
    spec_avatar_id_of(s.char_skin@, s.main_char)
}

/// The error `main_avatar_id` reports when the main character has no skin.
pub open spec fn main_avatar_error(s: ModSettings) -> AvatarError {
    default_avatar_id_result(s.main_char)->Err_0
}

/// The nickname shown for the player: the Mod nickname when one is set.
pub open spec fn shown_nickname(s: ModSettings, nickname: Seq<char>) -> Seq<char> {
    if s.nickname@.len() == 0 {
        nickname
    } else {
        s.nickname@
    }
}

/// `nickname` with the zone tag of `account_id` in front when servers are shown.
pub open spec fn tagged_nickname(s: ModSettings, account_id: u32, nickname: Seq<char>) -> Seq<char> {
    if s.show_server {
        zone_tag(account_id) + nickname
    } else {
        nickname
    }
}

/// The account returned at login as the modder shows it.
pub open spec fn login_account_shown(s: ModSettings, before: Account, avatar: u32, after: Account) -> bool {
    &&& after.account_id == before.account_id
    &&& after.avatar_id == avatar
    &&& after.avatar_frame == before.avatar_frame
    &&& after.verified == s.verified
    &&& after.nickname@ == shown_nickname(s, before.nickname@)
    &&& after.title == s.title
    &&& after.loading_image@ == s.loading_bg@
}

/// A room player as the modder shows it; `avatar` is the main character's skin.
pub open spec fn room_player_shown(m: Modder, avatar: u32, before: RoomPlayer, after: RoomPlayer) -> bool {
    let s = m.mod_settings;
    let own = before.account_id == m.safe.account_id;
    let base = if own {
        shown_nickname(s, before.nickname@)
    } else {
        before.nickname@
    };
    &&& after.account_id == before.account_id
    &&& after.avatar_id == (if own {
        avatar
    } else {
        before.avatar_id
    })
    &&& after.title == (if own {
        s.title
    } else {
        before.title
    })
    &&& after.nickname@ == tagged_nickname(s, before.account_id, base)
}

/// Some player in `players` is the player's own account.
pub open spec fn has_own_player(m: Modder, players: Seq<RoomPlayer>) -> bool {
    exists|i: int| 0 <= i < players.len() && (#[trigger] players[i]).account_id == m.safe.account_id
}

/// Copies a list of pairs.
fn copy_pairs(v: &[(u32, u32)]) -> (r: Vec<(u32, u32)>)
    ensures
        r@ == v@,
{
    let mut r: Vec<(u32, u32)> = Vec::new();
    let mut i: usize = 0;
    while i < v.len()
        invariant
            i <= v@.len(),
            r@ == v@.take(i as int),
        decreases v@.len() - i,
    {
        r.push(v[i]);
        assert(v@.take(i as int).push(v@[i as int]) == v@.take(i + 1));
        i += 1;
    }
    assert(v@.take(v@.len() as int) == v@);
    r
}

/// The modder's announcement put first in the lobby's announcement list.
pub fn add_announcement(list: &mut Vec<Announcement>, version: &str)
    ensures
        final(list)@.len() == old(list)@.len() + 1,
        final(list)@.skip(1) == old(list)@,
        final(list)@[0].id == ANNOUNCEMENT_ID,
        final(list)@[0].title@ == "雀魂Max-rs载入成功"@,
        final(list)@[0].header_image@ == "internal://2.jpg"@,
        final(list)@[0].content@ == announcement_text_before() + version@ + announcement_text_after(),
{
    let a = announcement(version);
    list.insert(0, a);
    assert(list@.skip(1) =~= old(list)@);
}

/// What the modder remembers of a character's progress.
pub open spec fn progress_of(c: Character) -> CharacterProgress {
    CharacterProgress { charid: c.charid, level: c.level, exp: c.exp }
}

/// Every known character has a skin under the Mod settings.
pub open spec fn all_have_avatars(m: Modder) -> bool {
    forall|i: int|
        0 <= i < m.max_data.character@.len() ==> #[trigger] spec_avatar_id_of(
            m.mod_settings.char_skin@,
            m.max_data.character@[i],
        ) is Some
}

/// The character list as the modder shows it: every known character built,
/// every known skin, the Mod main character, sort and hidden list, and every
/// ending finished and rewarded.
pub open spec fn character_info_shown(m: Modder, info: CharacterInfo) -> bool {
    &&& info.characters@.len() == m.max_data.character@.len()
    &&& forall|i: int|
        0 <= i < info.characters@.len() ==> character_built(
            m,
            m.max_data.character@[i],
            #[trigger] info.characters@[i],
        )
    &&& info.skins@ == m.max_data.skin@
    &&& info.main_character_id == m.mod_settings.main_char
    &&& info.character_sort@ == m.mod_settings.star_character@
    &&& info.hidden_characters@ == m.mod_settings.hidden_characters@
    &&& info.finished_endings@ == m.max_data.endings@
    &&& info.rewarded_endings@ == m.max_data.endings@
}

/// The ids of a list of items.
pub open spec fn item_ids(items: Seq<Item>) -> Seq<u32> {
    items.map_values(|it: Item| it.item_id)
}

/// The ids of `ids` that are not in `seen`, each once, in order of first
/// appearance.
pub open spec fn added_ids(seen: Set<u32>, ids: Seq<u32>) -> Seq<u32>
    decreases ids.len(),
{
    if ids.len() == 0 {
        Seq::empty()
    } else {
        let prev = added_ids(seen, ids.drop_last());
        if seen.contains(ids.last()) || prev.contains(ids.last()) {
            prev
        } else {
            prev.push(ids.last())
        }
    }
}

/// Every item and loading image the data knows, in that order.
pub open spec fn unlocked_ids(d: MaxData) -> Seq<u32> {
    d.item@ + d.loading_image@
}

/// A single unlocked item.
pub open spec fn unlocked_item(id: u32) -> Item {
    Item { item_id: id, stack: 1 }
}

/// The bag as the modder shows it: the items it held, then one of each
/// unlocked id it did not hold.
pub open spec fn bag_filled(before: Seq<Item>, unlocked: Seq<u32>) -> Seq<Item> {
    before + added_ids(item_ids(before).to_set(), unlocked).map_values(|id: u32| unlocked_item(id))
}

proof fn lemma_added_ids(seen: Set<u32>, ids: Seq<u32>)
    ensures
        forall|id: u32| ids.contains(id) ==> seen.contains(id) || added_ids(seen, ids).contains(id),
        forall|i: int|
            0 <= i < added_ids(seen, ids).len() ==> !seen.contains(#[trigger] added_ids(seen, ids)[i])
                && ids.contains(added_ids(seen, ids)[i]),
        forall|i: int, j: int|
            0 <= i < j < added_ids(seen, ids).len() ==> added_ids(seen, ids)[i] != added_ids(
                seen,
                ids,
            )[j],
    decreases ids.len(),
{
    if ids.len() > 0 {
        let rest = ids.drop_last();
        let x = ids.last();
        lemma_added_ids(seen, rest);
        let prev = added_ids(seen, rest);
        assert forall|id: u32| ids.contains(id) implies seen.contains(id) || added_ids(
            seen,
            ids,
        ).contains(id) by {
            let k = choose|k: int| 0 <= k < ids.len() && ids[k] == id;
            if k < ids.len() - 1 {
                assert(rest[k] == id);
                assert(rest.contains(id));
                if !seen.contains(id) {
                    let p = choose|p: int| 0 <= p < prev.len() && prev[p] == id;
                    if !(seen.contains(x) || prev.contains(x)) {
                        assert(prev.push(x)[p] == id);
                    }
                }
            } else {
                if !seen.contains(x) && !prev.contains(x) {
                    assert(prev.push(x)[prev.len() as int] == x);
                }
            }
        }
        assert forall|i: int| 0 <= i < added_ids(seen, ids).len() implies !seen.contains(
            #[trigger] added_ids(seen, ids)[i],
        ) && ids.contains(added_ids(seen, ids)[i]) by {
            if i < prev.len() {
                assert(added_ids(seen, ids)[i] == prev[i]);
                let k = choose|k: int| 0 <= k < rest.len() && rest[k] == prev[i];
                assert(ids[k] == prev[i]);
            } else {
                assert(ids[ids.len() - 1] == x);
            }
        }
    }
}

/// Filling the bag keeps every item it held, in order, and adds one item of
/// stack 1 for each unlocked id it did not hold: every unlocked id is then
/// in the bag, no added id was there before, and none is added twice.
pub proof fn law_bag_unlocks_each_id_once(before: Seq<Item>, unlocked: Seq<u32>)
    ensures
        bag_filled(before, unlocked).take(before.len() as int) == before,
        forall|id: u32|
            unlocked.contains(id) ==> item_ids(bag_filled(before, unlocked)).contains(id),
        forall|i: int|
            before.len() <= i < bag_filled(before, unlocked).len() ==> {
                &&& (#[trigger] bag_filled(before, unlocked)[i]).stack == 1
                &&& unlocked.contains(bag_filled(before, unlocked)[i].item_id)
                &&& !item_ids(before).contains(bag_filled(before, unlocked)[i].item_id)
            },
        forall|i: int, j: int|
            before.len() <= i < j < bag_filled(before, unlocked).len() ==> (#[trigger] bag_filled(
                before,
                unlocked,
            )[i]).item_id != (#[trigger] bag_filled(before, unlocked)[j]).item_id,
{
    let seen = item_ids(before).to_set();
    let added = added_ids(seen, unlocked);
    let after = bag_filled(before, unlocked);
    lemma_added_ids(seen, unlocked);
    assert(after.take(before.len() as int) =~= before);
    assert forall|id: u32| unlocked.contains(id) implies item_ids(after).contains(id) by {
        if seen.contains(id) {
            let k = choose|k: int| 0 <= k < item_ids(before).len() && item_ids(before)[k] == id;
            assert(item_ids(after)[k] == id);
        } else {
            let p = choose|p: int| 0 <= p < added.len() && added[p] == id;
            assert(item_ids(after)[before.len() + p] == id);
        }
    }
    assert forall|i: int| before.len() <= i < after.len() implies {
        &&& (#[trigger] after[i]).stack == 1
        &&& unlocked.contains(after[i].item_id)
        &&& !item_ids(before).contains(after[i].item_id)
    } by {
        assert(after[i] == unlocked_item(added[i - before.len()]));
        if item_ids(before).contains(after[i].item_id) {
            assert(seen.contains(added[i - before.len()]));
        }
    }
    assert forall|i: int, j: int| before.len() <= i < j < after.len() implies (#[trigger] after[i]).item_id
        != (#[trigger] after[j]).item_id by {
        assert(after[i] == unlocked_item(added[i - before.len()]));
        assert(after[j] == unlocked_item(added[j - before.len()]));
    }
}

proof fn lemma_push_to_set(s: Seq<u32>, x: u32)
    ensures
        s.push(x).to_set() == s.to_set().insert(x),
{
    assert forall|y: u32| s.push(x).contains(y) implies s.contains(y) || y == x by {
        let q = choose|q: int| 0 <= q < s.len() + 1 && s.push(x)[q] == y;
        if q < s.len() {
            assert(s[q] == y);
        }
    }
    assert forall|y: u32| s.contains(y) implies s.push(x).contains(y) by {
        let q = choose|q: int| 0 <= q < s.len() && s[q] == y;
        assert(s.push(x)[q] == y);
    }
    assert(s.push(x)[s.len() as int] == x);
    assert(s.push(x).to_set() =~= s.to_set().insert(x));
}

/// Copies a list of items.
fn copy_items(v: &[Item]) -> (r: Vec<Item>)
    ensures
        r@ == v@,
{
    let mut r: Vec<Item> = Vec::new();
    let mut i: usize = 0;
    while i < v.len()
        invariant
            i <= v@.len(),
            r@ == v@.take(i as int),
        decreases v@.len() - i,
    {
        r.push(v[i]);
        assert(v@.take(i as int).push(v@[i as int]) == v@.take(i + 1));
        i += 1;
    }
    assert(v@.take(v@.len() as int) == v@);
    r
}

/// The views a player shows: the preset in use, where each random slot
/// (type 1) shows one item of its list, or 0 when its list is empty.
pub open spec fn views_drawn(preset: Seq<ViewSlotView>, views: Seq<ViewSlotView>) -> bool {
    &&& views.len() == preset.len()
    &&& forall|i: int|
        0 <= i < preset.len() ==> {
            &&& (#[trigger] views[i]).slot == preset[i].slot
            &&& views[i].view_type == preset[i].view_type
            &&& views[i].item_id_list == preset[i].item_id_list
            &&& if preset[i].view_type == 1 {
                if preset[i].item_id_list.len() == 0 {
                    views[i].item_id == 0
                } else {
                    preset[i].item_id_list.contains(views[i].item_id)
                }
            } else {
                views[i].item_id == preset[i].item_id
            }
        }
}

/// The player's own character is drawn from the random pool.
pub open spec fn draws_random(s: ModSettings) -> bool {
    s.random_char_switch && s.random_char_pool@.len() > 0
}

/// The player's own character may be shown as `charid` with avatar `avatar`:
/// an entry of the random pool when drawing at random, else the main
/// character with its skin.
pub open spec fn character_choice(s: ModSettings, charid: u32, avatar: u32) -> bool {
    if draws_random(s) {
        s.random_char_pool@.contains((charid, avatar))
    } else {
        charid == s.main_char && main_avatar(s) == Some(avatar)
    }
}

/// The player is the account's own and has a character to show.
pub open spec fn is_own_with_character(m: Modder, p: PlayerGameView) -> bool {
    p.account_id == m.safe.account_id && p.character is Some
}

/// Showing the player may fail: it is the own player and a character it may
/// be shown with has no skin.
pub open spec fn player_may_fail(m: Modder, p: PlayerGameView) -> bool {
    let s = m.mod_settings;
    &&& is_own_with_character(m, p)
    &&& if draws_random(s) {
        exists|i: int|
            0 <= i < s.random_char_pool@.len() && spec_avatar_id_of(
                s.char_skin@,
                (#[trigger] s.random_char_pool@[i]).0,
            ) is None
    } else {
        main_avatar(s) is None
    }
}

/// The error of a failed attempt to show the player.
pub open spec fn player_error(m: Modder, e: AvatarError) -> bool {
    let s = m.mod_settings;
    if draws_random(s) {
        exists|i: int|
            0 <= i < s.random_char_pool@.len() && spec_avatar_id_of(
                s.char_skin@,
                (#[trigger] s.random_char_pool@[i]).0,
            ) is None && default_avatar_id_result(s.random_char_pool@[i].0) == Err::<u32, AvatarError>(e)
    } else {
        e == main_avatar_error(s)
    }
}

/// A player in a room or game as the modder shows it. The own player shows
/// a character drawn as `character_choice` says, fully built, the Mod
/// nickname and title, the preset in use with its random slots drawn, the
/// preset's avatar frame and the verified mark. Every other character is
/// shown upgraded at level 5. With servers shown, every nickname gets its
/// zone tag.
pub open spec fn player_shown(m: Modder, before: PlayerGameView, after: PlayerGameView) -> bool {
    let s = m.mod_settings;
    &&& after.account_id == before.account_id
    &&& if is_own_with_character(m, before) {
        &&& after.character is Some
        &&& character_choice(s, after.character->0.charid, after.avatar_id)
        &&& character_built(m, after.character->0.charid, after.character->0)
        &&& after.nickname@ == tagged_nickname(
            s,
            before.account_id,
            shown_nickname(s, before.nickname@),
        )
        &&& after.title == s.title
        &&& views_drawn(s.spec_current_preset(), slots_view(after.views@))
        &&& after.avatar_frame == frame_of(s.spec_current_preset())
        &&& after.verified == s.verified
    } else {
        &&& after.avatar_id == before.avatar_id
        &&& after.character == (match before.character {
            Some(c) => Some(Character { is_upgraded: true, level: 5, ..c }),
            None => None,
        })
        &&& after.nickname@ == tagged_nickname(s, before.account_id, before.nickname@)
        &&& after.title == before.title
        &&& after.views == before.views
        &&& after.avatar_frame == before.avatar_frame
        &&& after.verified == before.verified
    }
}

/// The preset's slots with each random slot (type 1) showing an item drawn
/// from its list, or 0 when the list is empty.
fn draw_views(preset: &[ViewSlot]) -> (r: Vec<ViewSlot>)
    ensures
        views_drawn(slots_view(preset@), slots_view(r@)),
{
    let mut r: Vec<ViewSlot> = Vec::new();
    let mut i: usize = 0;
    while i < preset.len()
        invariant
            i <= preset@.len(),
            r@.len() == i,
            forall|k: int|
                0 <= k < i ==> {
                    let v = (#[trigger] r@[k])@;
                    let p = preset@[k]@;
                    &&& v.slot == p.slot
                    &&& v.view_type == p.view_type
                    &&& v.item_id_list == p.item_id_list
                    &&& if p.view_type == 1 {
                        if p.item_id_list.len() == 0 {
                            v.item_id == 0
                        } else {
                            p.item_id_list.contains(v.item_id)
                        }
                    } else {
                        v.item_id == p.item_id
                    }
                },
        decreases preset@.len() - i,
    {
        let mut slot = preset[i].duplicate();
        if slot.view_type == 1 {
            slot.item_id = match choose_one(slot.item_id_list.as_slice()) {
                Some(item) => item,
                None => 0,
            };
        }
        r.push(slot);
        i += 1;
    }
    r
}

/// The position of the first character with id `id`.
fn first_with_charid(chars: &[CharacterProgress], id: u32) -> (r: Option<usize>)
    ensures
        match r {
            Some(j) => j < chars@.len() && chars@[j as int].charid == id && forall|k: int|
                0 <= k < j ==> (#[trigger] chars@[k]).charid != id,
            None => forall|k: int| 0 <= k < chars@.len() ==> (#[trigger] chars@[k]).charid != id,
        },
{
    let mut j: usize = 0;
    while j < chars.len()
        invariant
            j <= chars@.len(),
            forall|k: int| 0 <= k < j ==> (#[trigger] chars@[k]).charid != id,
        decreases chars@.len() - j,
    {
        if chars[j].charid == id {
            return Some(j);
        }
        j += 1;
    }
    None
}

impl Modder {
    /// `fetchAccountInfo`: the player's own account shows the main
    /// character's skin, the avatar frame of the preset in use and the
    /// verified mark; other accounts are left alone. Returns whether the
    /// account changed.
    pub fn edit_account_info(&self, account: &mut Account) -> (r: Result<bool, AvatarError>)
        ensures
            old(account).account_id != self.safe.account_id ==> r == Ok::<bool, AvatarError>(false)
                && *final(account) == *old(account),
            old(account).account_id == self.safe.account_id ==> match main_avatar(self.mod_settings) {
                Some(avatar) => r == Ok::<bool, AvatarError>(true) && *final(account) == (Account {
                    avatar_frame: frame_of(self.mod_settings.spec_current_preset()),
                    avatar_id: avatar,
                    verified: self.mod_settings.verified,
                    ..*old(account)
                }),
                None => r == Err::<bool, AvatarError>(main_avatar_error(self.mod_settings))
                    && *final(account) == *old(account),
            },
    {
        if account.account_id != self.safe.account_id {
            return Ok(false);
        }
        let avatar = match self.mod_settings.main_avatar_id() {
            Ok(a) => a,
            Err(e) => {
                return Err(e);
            },
        };
        account.avatar_frame = self.mod_settings.avatar_frame();
        account.avatar_id = avatar;
        account.verified = self.mod_settings.verified;
        Ok(true)
    }

    /// `login` / `oauth2Login`: remembers the player's account id and shows
    /// the returned account with the Mod settings.
    pub fn record_login(&mut self, account_id: u32, account: &mut Option<Account>) -> (r: Result<(), AvatarError>)
        ensures
            final(self).safe == (Safe { account_id, ..old(self).safe }),
            final(self).mod_settings == old(self).mod_settings,
            final(self).max_data == old(self).max_data,
            final(self).contract == old(self).contract,
            match *old(account) {
                None => r is Ok && (*final(account)) is None,
                Some(a) => match main_avatar(old(self).mod_settings) {
                    None => r == Err::<(), AvatarError>(main_avatar_error(old(self).mod_settings))
                        && *final(account) == *old(account),
                    Some(avatar) => r is Ok && (*final(account)) is Some && login_account_shown(
                        old(self).mod_settings,
                        a,
                        avatar,
                        final(account)->0,
                    ),
                },
            },
    {
        self.safe.account_id = account_id;
        let taken = account.take();
        match taken {
            None => Ok(()),
            Some(mut a) => {
                let avatar = match self.mod_settings.main_avatar_id() {
                    Ok(v) => v,
                    Err(e) => {
                        *account = Some(a);
                        return Err(e);
                    },
                };
                a.avatar_id = avatar;
                if !self.mod_settings.nickname.as_str().is_empty() {
                    a.nickname = self.mod_settings.nickname.clone();
                }
                a.title = self.mod_settings.title;
                a.loading_image = copy_u32s(self.mod_settings.loading_bg.as_slice());
                a.verified = self.mod_settings.verified;
                *account = Some(a);
                Ok(())
            },
        }
    }

    /// `fetchRandomCharacter`: the random-character setting of the Mod settings.
    pub fn random_character(&self) -> (r: RandomCharacterSetting)
        ensures
            r.enabled == self.mod_settings.random_char_switch,
            r.pool@ == self.mod_settings.random_char_pool@,
    {
        RandomCharacterSetting {
            enabled: self.mod_settings.random_char_switch,
            pool: copy_pairs(self.mod_settings.random_char_pool.as_slice()),
        }
    }

    /// `fetchTitleList`: every known title.
    pub fn title_list(&self) -> (r: Vec<u32>)
        ensures
            r@ == self.max_data.title@,
    {
        copy_u32s(self.max_data.title.as_slice())
    }

    /// `setHiddenCharacter`'s response: the hidden characters of the Mod settings.
    pub fn hidden_characters(&self) -> (r: Vec<u32>)
        ensures
            r@ == self.mod_settings.hidden_characters@,
    {
        copy_u32s(self.mod_settings.hidden_characters.as_slice())
    }

    /// `fetchAllCommonViews`: the presets of the Mod settings, each listed
    /// under its index and the name `View<index>`, and the index in use.
    pub fn fill_common_views(&self, views: &mut AllCommonViews)
        ensures
            common_views_shown(self.mod_settings, *final(views)),
    {
        views.use_index = self.mod_settings.preset_index;
        let mut list: Vec<CommonView> = Vec::new();
        let mut i: usize = 0;
        while i < PRESET_COUNT
            invariant
                i <= PRESET_COUNT,
                list@.len() == i,
                self.mod_settings.views_presets@.len() == PRESET_COUNT,
                forall|k: int|
                    0 <= k < i ==> {
                        &&& (#[trigger] list@[k]).index == k
                        &&& list@[k].name@ == view_name(k as nat)
                        &&& slots_view(list@[k].values@) == slots_view(
                            self.mod_settings.views_presets@[k]@,
                        )
                    },
            decreases PRESET_COUNT - i,
        {
            let mut name = String::new();
            push_char(&mut name, 'V');
            push_char(&mut name, 'i');
            push_char(&mut name, 'e');
            push_char(&mut name, 'w');
            push_decimal(&mut name, i as u32);
            assert(name@ =~= view_name(i as nat));
            let values = copy_slots(self.mod_settings.views_presets[i].as_slice());
            list.push(CommonView { index: i as u32, name, values });
            i += 1;
        }
        views.views = list;
    }

    /// `authGame`: with the edge hint on, the detail rule shows the edge hint
    /// and the mode is shown in its hinted form.
    pub fn apply_hint(&self, config: &mut GameConfig)
        ensures
            !self.mod_settings.hint_switch ==> *final(config) == *old(config),
            self.mod_settings.hint_switch ==> {
                &&& final(config).edge_hint == (if old(config).edge_hint is Some {
                    Some(true)
                } else {
                    None
                })
                &&& final(config).mode_id == (match old(config).mode_id {
                    Some(m) => Some(spec_hinted_mode_id(m)),
                    None => None,
                })
            },
    {
        if !self.mod_settings.hint_on() {
            return;
        }
        if config.edge_hint.is_some() {
            config.edge_hint = Some(true);
        }
        match config.mode_id {
            Some(m) => {
                config.mode_id = Some(hinted_mode_id(m));
            },
            None => {},
        }
    }

    /// `fetchServerSettings`: with anti-censorship on, the nickname filter is
    /// switched off and emptied. Returns whether the setting changed.
    pub fn edit_nickname_setting(&self, setting: &mut Option<NicknameSetting>) -> (r: bool)
        ensures
            r == (self.mod_settings.anti_nickname_censorship && (*old(setting)) is Some),
            !r ==> *final(setting) == *old(setting),
            r ==> (*final(setting)) is Some && final(setting)->0.enable == 0
                && final(setting)->0.nicknames@.len() == 0,
    {
        if !self.mod_settings.anti_nickname_censorship() || setting.is_none() {
            return false;
        }
        *setting = Some(NicknameSetting { enable: 0, nicknames: Vec::new() });
        true
    }

    /// `NotifyCustomContestSystemMsg`: with servers shown, every contest
    /// player's nickname gets its zone tag. Returns whether anything changed.
    pub fn tag_contest_players(&self, players: &mut Vec<ContestPlayer>) -> (r: bool)
        ensures
            r == self.mod_settings.show_server,
            final(players)@.len() == old(players)@.len(),
            forall|i: int|
                0 <= i < old(players)@.len() ==> {
                    &&& (#[trigger] final(players)@[i]).account_id == old(players)@[i].account_id
                    &&& final(players)@[i].nickname@ == tagged_nickname(
                        self.mod_settings,
                        old(players)@[i].account_id,
                        old(players)@[i].nickname@,
                    )
                },
    {
        if !self.mod_settings.show_server() {
            return false;
        }
        let mut i: usize = 0;
        while i < players.len()
            invariant
                self.mod_settings.show_server,
                i <= players@.len(),
                players@.len() == old(players)@.len(),
                forall|k: int|
                    0 <= k < i ==> {
                        &&& (#[trigger] players@[k]).account_id == old(players)@[k].account_id
                        &&& players@[k].nickname@ == zone_tag(old(players)@[k].account_id)
                            + old(players)@[k].nickname@
                    },
                forall|k: int| i <= k < players@.len() ==> #[trigger] players@[k] == old(players)@[k],
            decreases players@.len() - i,
        {
            let account_id = players[i].account_id;
            let nickname = add_zone_id(account_id, players[i].nickname.as_str());
            players.set(i, ContestPlayer { account_id, nickname });
            i += 1;
        }
        true
    }

    /// `NotifyRoomPlayerUpdate`: the player's own entry shows the main
    /// character's skin, the Mod nickname and title, and with servers shown
    /// every nickname gets its zone tag. When the main character has no skin
    /// and the player is in the list, nothing changes.
    pub fn edit_room_players(&self, players: &mut Vec<RoomPlayer>) -> (r: Result<(), AvatarError>)
        ensures
            has_own_player(*self, old(players)@) && main_avatar(self.mod_settings) is None ==> r
                == Err::<(), AvatarError>(main_avatar_error(self.mod_settings)) && final(players)@
                == old(players)@,
            !(has_own_player(*self, old(players)@) && main_avatar(self.mod_settings) is None) ==> {
                &&& r is Ok
                &&& final(players)@.len() == old(players)@.len()
                &&& forall|i: int|
                    0 <= i < old(players)@.len() ==> room_player_shown(
                        *self,
                        main_avatar(self.mod_settings)->0,
                        old(players)@[i],
                        #[trigger] final(players)@[i],
                    )
            },
    {
        let main = self.mod_settings.main_avatar_id();
        assert(main_avatar(self.mod_settings) is None ==> main == Err::<u32, AvatarError>(
            main_avatar_error(self.mod_settings),
        ));
        let mut j: usize = 0;
        while j < players.len()
            invariant
                j <= players@.len(),
                players@ == old(players)@,
                main_avatar(self.mod_settings) is None ==> main == Err::<u32, AvatarError>(
                    main_avatar_error(self.mod_settings),
                ),
                main_avatar(self.mod_settings) is Some ==> main == Ok::<u32, AvatarError>(
                    main_avatar(self.mod_settings)->0,
                ),
                main is Err ==> forall|k: int|
                    0 <= k < j ==> (#[trigger] players@[k]).account_id != self.safe.account_id,
            decreases players@.len() - j,
        {
            if players[j].account_id == self.safe.account_id {
                match main {
                    Err(e) => {
                        proof {
                            assert(old(players)@[j as int].account_id == self.safe.account_id);
                            assert(has_own_player(*self, old(players)@));
                        }
                        return Err(e);
                    },
                    Ok(_) => {},
                }
            }
            j += 1;
        }
        let avatar: u32 = match main {
            Ok(a) => a,
            Err(_) => 0,
        };
        let ghost no_own = !has_own_player(*self, old(players)@);
        let mut i: usize = 0;
        while i < players.len()
            invariant
                i <= players@.len(),
                players@.len() == old(players)@.len(),
                no_own == !has_own_player(*self, old(players)@),
                no_own || main_avatar(self.mod_settings) == Some(avatar),
                forall|k: int|
                    0 <= k < i ==> room_player_shown(
                        *self,
                        main_avatar(self.mod_settings)->0,
                        old(players)@[k],
                        #[trigger] players@[k],
                    ),
                forall|k: int| i <= k < players@.len() ==> #[trigger] players@[k] == old(players)@[k],
            decreases players@.len() - i,
        {
            let account_id = players[i].account_id;
            let own = account_id == self.safe.account_id;
            let mut nickname = players[i].nickname.clone();
            let mut avatar_id = players[i].avatar_id;
            let mut title = players[i].title;
            if own {
                proof {
                    assert(old(players)@[i as int].account_id == self.safe.account_id);
                }
                avatar_id = avatar;
                if !self.mod_settings.nickname.as_str().is_empty() {
                    nickname = self.mod_settings.nickname.clone();
                }
                title = self.mod_settings.title;
            }
            if self.mod_settings.show_server() {
                nickname = add_zone_id(account_id, nickname.as_str());
            }
            players.set(i, RoomPlayer { account_id, avatar_id, nickname, title });
            i += 1;
        }
        Ok(())
    }

    /// `fetchCharacterInfo`: remembers the account's real main character
    /// and progress, then shows every known character, built with the Mod
    /// settings. When some known character has no skin, the list is left
    /// as it was.
    pub fn fill_character_info(&mut self, info: &mut CharacterInfo) -> (r: Result<(), AvatarError>)
        ensures
            final(self).mod_settings == old(self).mod_settings,
            final(self).max_data == old(self).max_data,
            final(self).contract == old(self).contract,
            final(self).safe.account_id == old(self).safe.account_id,
            final(self).safe.items == old(self).safe.items,
            final(self).safe.main_character_id == old(info).main_character_id,
            final(self).safe.characters@ == old(info).characters@.map_values(
                |c: Character| progress_of(c),
            ),
            r is Ok <==> all_have_avatars(*old(self)),
            r is Ok ==> character_info_shown(*final(self), *final(info)),
            r is Err ==> *final(info) == *old(info) && exists|i: int|
                0 <= i < old(self).max_data.character@.len() && spec_avatar_id_of(
                    old(self).mod_settings.char_skin@,
                    old(self).max_data.character@[i],
                ) is None && default_avatar_id_result(old(self).max_data.character@[i]) == Err::<
                    u32,
                    AvatarError,
                >(r->Err_0),
    {
        let mut progress: Vec<CharacterProgress> = Vec::new();
        let mut p: usize = 0;
        while p < info.characters.len()
            invariant
                p <= info.characters@.len(),
                *info == *old(info),
                *self == *old(self),
                progress@ == info.characters@.take(p as int).map_values(|c: Character| progress_of(c)),
            decreases info.characters@.len() - p,
        {
            let c = &info.characters[p];
            progress.push(CharacterProgress { charid: c.charid, level: c.level, exp: c.exp });
            assert(info.characters@.take(p + 1).map_values(|c: Character| progress_of(c))
                =~= info.characters@.take(p as int).map_values(|c: Character| progress_of(c)).push(
                progress_of(info.characters@[p as int]),
            ));
            p += 1;
        }
        assert(info.characters@.take(info.characters@.len() as int) == info.characters@);
        self.safe.main_character_id = info.main_character_id;
        self.safe.characters = progress;
        let mut built: Vec<Character> = Vec::new();
        let mut i: usize = 0;
        while i < self.max_data.character.len()
            invariant
                i <= self.max_data.character@.len(),
                self.contract == old(self).contract,
                self.safe.account_id == old(self).safe.account_id,
                self.safe.items == old(self).safe.items,
                self.safe.main_character_id == old(info).main_character_id,
                self.safe.characters@ == old(info).characters@.map_values(|c: Character| progress_of(c)),
                *info == *old(info),
                self.max_data == old(self).max_data,
                self.mod_settings == old(self).mod_settings,
                built@.len() == i,
                forall|k: int|
                    0 <= k < i ==> character_built(
                        *self,
                        self.max_data.character@[k],
                        #[trigger] built@[k],
                    ),
            decreases self.max_data.character@.len() - i,
        {
            match self.build_character(self.max_data.character[i]) {
                Ok(c) => {
                    built.push(c);
                },
                Err(e) => {
                    return Err(e);
                },
            }
            i += 1;
        }
        assert forall|k: int| 0 <= k < old(self).max_data.character@.len() implies #[trigger] spec_avatar_id_of(
            old(self).mod_settings.char_skin@,
            old(self).max_data.character@[k],
        ) is Some by {
            assert(character_built(*self, self.max_data.character@[k], built@[k]));
        }
        info.characters = built;
        info.skins = copy_u32s(self.max_data.skin.as_slice());
        info.main_character_id = self.mod_settings.main_char;
        info.character_sort = copy_u32s(self.mod_settings.star_character.as_slice());
        info.hidden_characters = copy_u32s(self.mod_settings.hidden_characters.as_slice());
        info.finished_endings = copy_u32s(self.max_data.endings.as_slice());
        info.rewarded_endings = copy_u32s(self.max_data.endings.as_slice());
        Ok(())
    }

    /// `fetchBagInfo`: remembers the real bag, then adds one of each unlocked
    /// item and loading image the bag does not hold.
    pub fn fill_bag(&mut self, items: &mut Vec<Item>)
        ensures
            final(self).mod_settings == old(self).mod_settings,
            final(self).max_data == old(self).max_data,
            final(self).contract == old(self).contract,
            final(self).safe.account_id == old(self).safe.account_id,
            final(self).safe.main_character_id == old(self).safe.main_character_id,
            final(self).safe.characters == old(self).safe.characters,
            final(self).safe.items@ == old(items)@,
            final(items)@ == bag_filled(old(items)@, unlocked_ids(old(self).max_data)),
    {
        self.safe.items = copy_items(items.as_slice());
        let mut seen: HashSet<u32> = HashSet::new();
        let mut i: usize = 0;
        while i < items.len()
            invariant
                i <= items@.len(),
                *items == *old(items),
                seen@ == item_ids(items@.take(i as int)).to_set(),
            decreases items@.len() - i,
        {
            seen.insert(items[i].item_id);
            assert(item_ids(items@.take(i + 1)) =~= item_ids(items@.take(i as int)).push(
                items@[i as int].item_id,
            ));
            proof {
                lemma_push_to_set(item_ids(items@.take(i as int)), items@[i as int].item_id);
            }
            i += 1;
        }
        assert(items@.take(items@.len() as int) == items@);
        let mut unlocked = copy_u32s(self.max_data.item.as_slice());
        let mut l: usize = 0;
        while l < self.max_data.loading_image.len()
            invariant
                l <= self.max_data.loading_image@.len(),
                unlocked@ == self.max_data.item@ + self.max_data.loading_image@.take(l as int),
            decreases self.max_data.loading_image@.len() - l,
        {
            unlocked.push(self.max_data.loading_image[l]);
            assert(self.max_data.loading_image@.take(l + 1) =~= self.max_data.loading_image@.take(
                l as int,
            ).push(self.max_data.loading_image@[l as int]));
            l += 1;
        }
        assert(self.max_data.loading_image@.take(l as int) == self.max_data.loading_image@);
        let ghost seen0 = seen@;
        let ghost base = items@;
        let mut k: usize = 0;
        assert(unlocked@.take(0) =~= Seq::<u32>::empty());
        while k < unlocked.len()
            invariant
                k <= unlocked@.len(),
                items@ == base + added_ids(seen0, unlocked@.take(k as int)).map_values(
                    |id: u32| unlocked_item(id),
                ),
                seen@ == seen0.union(added_ids(seen0, unlocked@.take(k as int)).to_set()),
            decreases unlocked@.len() - k,
        {
            let id = unlocked[k];
            let ghost prev = added_ids(seen0, unlocked@.take(k as int));
            assert(unlocked@.take(k + 1).drop_last() =~= unlocked@.take(k as int));
            assert(unlocked@.take(k + 1).last() == id);
            assert(seen@.contains(id) <==> seen0.contains(id) || prev.contains(id));
            if seen.insert(id) {
                items.push(Item { item_id: id, stack: 1 });
                proof {
                    lemma_push_to_set(prev, id);
                }
                assert(prev.push(id).map_values(|id: u32| unlocked_item(id)) =~= prev.map_values(
                    |id: u32| unlocked_item(id),
                ).push(unlocked_item(id)));
            }
            k += 1;
        }
        assert(unlocked@.take(unlocked@.len() as int) == unlocked@);
        assert(seen0 =~= item_ids(old(items)@).to_set());
    }

    /// Shows one player in a room or game (`createRoom`, `fetchRoom`,
    /// `authGame`). The own player's character is drawn at random from the
    /// pool when that is on. When the character it would show has no skin,
    /// the player is left as it was and the error is returned.
    pub fn change_player(&self, p: &mut PlayerGameView) -> (r: Result<(), AvatarError>)
        ensures
            r is Ok ==> player_shown(*self, *old(p), *final(p)),
            r is Err ==> player_may_fail(*self, *old(p)) && player_error(*self, r->Err_0)
                && *final(p) == *old(p),
            !player_may_fail(*self, *old(p)) ==> r is Ok,
    {
        let s = &self.mod_settings;
        if p.account_id == self.safe.account_id && p.character.is_some() {
            let (charid, avatar) = if s.random_char_switch && s.random_char_pool.len() > 0 {
                match choose_one(s.random_char_pool.as_slice()) {
                    Some(pair) => pair,
                    None => (s.main_char, 0),
                }
            } else {
                match s.main_avatar_id() {
                    Ok(a) => (s.main_char, a),
                    Err(e) => {
                        return Err(e);
                    },
                }
            };
            let character = match self.build_character(charid) {
                Ok(c) => c,
                Err(e) => {
                    proof {
                        if draws_random(*s) {
                            let i = choose|i: int|
                                0 <= i < s.random_char_pool@.len() && s.random_char_pool@[i] == (
                                    charid,
                                    avatar,
                                );
                            assert(spec_avatar_id_of(s.char_skin@, s.random_char_pool@[i].0) is None);
                        }
                    }
                    return Err(e);
                },
            };
            let views = draw_views(s.current_preset());
            let base = if s.nickname.as_str().is_empty() {
                p.nickname.clone()
            } else {
                s.nickname.clone()
            };
            let nickname = if s.show_server() {
                add_zone_id(p.account_id, base.as_str())
            } else {
                base
            };
            p.nickname = nickname;
            p.avatar_id = avatar;
            p.character = Some(character);
            p.title = s.title;
            p.views = views;
            p.avatar_frame = s.avatar_frame();
            p.verified = s.verified;
        } else {
            let taken = p.character.take();
            match taken {
                Some(mut c) => {
                    c.is_upgraded = true;
                    c.level = 5;
                    p.character = Some(c);
                },
                None => {},
            }
            if s.show_server() {
                p.nickname = add_zone_id(p.account_id, p.nickname.as_str());
            }
        }
        Ok(())
    }

    /// Shows every player of a room or game in turn, as `change_player`
    /// does, and stops at the first player that cannot be shown: the players
    /// before it are then already changed, it and the rest are not, and the
    /// message is forwarded as it came.
    pub fn change_players(&self, players: &mut Vec<PlayerGameView>) -> (r: Result<(), AvatarError>)
        ensures
            final(players)@.len() == old(players)@.len(),
            r is Ok ==> forall|i: int|
                0 <= i < old(players)@.len() ==> player_shown(
                    *self,
                    old(players)@[i],
                    #[trigger] final(players)@[i],
                ),
            r is Err ==> exists|j: int|
                0 <= j < old(players)@.len() && player_may_fail(*self, #[trigger] old(players)@[j])
                    && player_error(*self, r->Err_0) && (forall|k: int|
                    0 <= k < j ==> player_shown(*self, old(players)@[k], #[trigger] final(players)@[k]))
                    && (forall|k: int|
                    j <= k < old(players)@.len() ==> #[trigger] final(players)@[k] == old(players)@[k]),
            (forall|i: int| 0 <= i < old(players)@.len() ==> !player_may_fail(*self, #[trigger] old(players)@[i]))
                ==> r is Ok,
    {
        let mut i: usize = 0;
        while i < players.len()
            invariant
                i <= players@.len(),
                players@.len() == old(players)@.len(),
                forall|k: int|
                    0 <= k < i ==> player_shown(*self, old(players)@[k], #[trigger] players@[k]),
                forall|k: int| i <= k < players@.len() ==> #[trigger] players@[k] == old(players)@[k],
            decreases players@.len() - i,
        {
            let res = self.change_player(&mut players[i]);
            match res {
                Ok(()) => {},
                Err(e) => {
                    return Err(e);
                },
            }
            i += 1;
        }
        Ok(())
    }

    /// `fetchInfo`: the character list, bag and presets it holds are filled
    /// as their own responses are, and the title list and random-character
    /// setting are set. When a known character has no skin, the rest is
    /// left undone and the message is forwarded as it came.
    pub fn fill_info(&mut self, info: &mut FetchInfo) -> (r: Result<(), AvatarError>)
        ensures
            final(self).mod_settings == old(self).mod_settings,
            final(self).max_data == old(self).max_data,
            final(self).contract == old(self).contract,
            final(self).safe.account_id == old(self).safe.account_id,
            r is Ok <==> (old(info).character_info is None || all_have_avatars(*old(self))),
            r is Err ==> *final(info) == *old(info),
            match old(info).character_info {
                Some(ci) => final(self).safe.main_character_id == ci.main_character_id
                    && final(self).safe.characters@ == ci.characters@.map_values(
                    |c: Character| progress_of(c),
                ),
                None => final(self).safe.main_character_id == old(self).safe.main_character_id
                    && final(self).safe.characters == old(self).safe.characters,
            },
            r is Ok ==> {
                &&& match old(info).character_info {
                    Some(_) => final(info).character_info is Some && character_info_shown(
                        *final(self),
                        final(info).character_info->0,
                    ),
                    None => final(info).character_info is None,
                }
                &&& match old(info).bag {
                    Some(bag) => final(info).bag is Some && final(info).bag->0@ == bag_filled(
                        bag@,
                        unlocked_ids(old(self).max_data),
                    ) && final(self).safe.items@ == bag@,
                    None => final(info).bag is None && final(self).safe.items == old(self).safe.items,
                }
                &&& match old(info).all_common_views {
                    Some(_) => final(info).all_common_views is Some && common_views_shown(
                        old(self).mod_settings,
                        final(info).all_common_views->0,
                    ),
                    None => final(info).all_common_views is None,
                }
                &&& final(info).title_list is Some
                &&& final(info).title_list->0@ == old(self).max_data.title@
                &&& final(info).random_character is Some
                &&& final(info).random_character->0.enabled == old(self).mod_settings.random_char_switch
                &&& final(info).random_character->0.pool@ == old(self).mod_settings.random_char_pool@
            },
    {
        match &mut info.character_info {
            Some(ci) => {
                let res = self.fill_character_info(ci);
                match res {
                    Ok(()) => {},
                    Err(e) => {
                        return Err(e);
                    },
                }
            },
            None => {},
        }
        match &mut info.bag {
            Some(bag) => {
                self.fill_bag(bag);
            },
            None => {},
        }
        match &mut info.all_common_views {
            Some(views) => {
                self.fill_common_views(views);
            },
            None => {},
        }
        info.title_list = Some(self.title_list());
        info.random_character = Some(self.random_character());
        Ok(())
    }

    /// `NotifyGameFinishRewardV2`: the main character's real progress is
    /// remembered, and the reward shows no experience gained at level 5.
    pub fn record_game_finish(&mut self, reward: &mut Option<MainCharacterReward>)
        ensures
            final(self).mod_settings == old(self).mod_settings,
            final(self).max_data == old(self).max_data,
            final(self).contract == old(self).contract,
            final(self).safe.account_id == old(self).safe.account_id,
            final(self).safe.main_character_id == old(self).safe.main_character_id,
            final(self).safe.items == old(self).safe.items,
            match *old(reward) {
                None => (*final(reward)) is None && final(self).safe.characters@ == old(self).safe.characters@,
                Some(mc) => {
                    let chars = old(self).safe.characters@;
                    let main = old(self).safe.main_character_id;
                    &&& *final(reward) == Some(MainCharacterReward { add: 0, exp: 0, level: 5 })
                    &&& (forall|k: int| 0 <= k < chars.len() ==> (#[trigger] chars[k]).charid != main)
                        ==> final(self).safe.characters@ == chars
                    &&& forall|j: int|
                        0 <= j < chars.len() && (#[trigger] chars[j]).charid == main && (forall|k: int|
                            0 <= k < j ==> (#[trigger] chars[k]).charid != main) ==> final(self).safe.characters@ == chars.update(
                            j,
                            CharacterProgress { exp: mc.exp, level: mc.level, ..chars[j] },
                        )
                },
            },
    {
        let current: Option<MainCharacterReward> = *reward;
        if let Some(mc) = current {
            let main = self.safe.main_character_id;
            match first_with_charid(self.safe.characters.as_slice(), main) {
                Some(j) => {
                    let old_c = self.safe.characters[j];
                    self.safe.characters.set(
                        j,
                        CharacterProgress { charid: old_c.charid, level: mc.level, exp: mc.exp },
                    );
                },
                None => {},
            }
            *reward = Some(MainCharacterReward { add: 0, exp: 0, level: 5 });
        }
    }
}

/// A preset index sent by the client is only ever stored when it is in
/// range: a Mod setting whose preset in use is in range keeps it in range
/// through every request.
pub proof fn law_requests_keep_preset_index_in_range(
    before: Modder,
    request: LobbyRequest,
    after: Modder,
    r: Result<RequestOutcome, ModifyError>,
)
    requires
        request_effect(before, request, after, r),
        before.mod_settings.preset_index < PRESET_COUNT,
    ensures
        after.mod_settings.preset_index < PRESET_COUNT,
{
}

/// A preset index out of range is refused and changes nothing.
pub proof fn law_out_of_range_preset_changes_nothing(
    before: Modder,
    request: LobbyRequest,
    after: Modder,
    r: Result<RequestOutcome, ModifyError>,
)
    requires
        request_effect(before, request, after, r),
        r is Err,
        request is SaveCommonViews || request is UseCommonView,
    ensures
        after.mod_settings == before.mod_settings,
        after.contract == before.contract,
{
}

} // verus!
