//! The settings sidebar's state and the routing of the changes it makes.
//!
//! Switches take effect as soon as they are flipped. Text fields are sent
//! when they lose focus, when the sidebar is closed, or once they have not
//! been edited for `TEXT_DEBOUNCE_MILLIS`; a field is only sent when its text
//! differs from what was last sent. Times are milliseconds of a monotonic
//! clock.

use crate::settings::{LiqiUpdatePhase, LiqiUpdateStatus, LiveModPatch, Settings};
use crate::text::{append_chars, chars_of};
use vstd::prelude::*;

verus! {

/// How long a text field must rest before its text is sent.
pub const TEXT_DEBOUNCE_MILLIS: u64 = 450;

/// A setting changed in the sidebar.
pub enum SettingChange {
    ModSwitch(bool),
    AutoUpdate(bool),
    Nickname(String),
    ShowServer(bool),
    AntiNicknameCensorship(bool),
    EmojiSwitch(bool),
    HintSwitch(bool),
    ReqProxy(String),
    GithubPrefix(String),
}

/// Whether a change sets one of the Mod's own values: its nickname or one of
/// its display switches.
pub open spec fn is_mod_value(change: SettingChange) -> bool {
    match change {
        SettingChange::Nickname(_) | SettingChange::ShowServer(_)
        | SettingChange::AntiNicknameCensorship(_) | SettingChange::EmojiSwitch(_)
        | SettingChange::HintSwitch(_) => true,
        _ => false,
    }
}

/// The Mod values a change sets while the game runs, if it is one of them.
pub fn live_mod_patch(change: SettingChange) -> (r: Option<LiveModPatch>)
    ensures
        r is Some <==> is_mod_value(change),
        match change {
            SettingChange::Nickname(v) => r matches Some(LiveModPatch::Nickname(p)) && p@ == v@,
            SettingChange::ShowServer(v) => r == Some(LiveModPatch::ShowServer(v)),
            SettingChange::AntiNicknameCensorship(v) => r == Some(
                LiveModPatch::AntiNicknameCensorship(v),
            ),
            SettingChange::EmojiSwitch(v) => r == Some(LiveModPatch::EmojiSwitch(v)),
            SettingChange::HintSwitch(v) => r == Some(LiveModPatch::HintSwitch(v)),
            _ => r is None,
        },
{
    match change {
        SettingChange::Nickname(value) => Some(LiveModPatch::Nickname(value)),
        SettingChange::ShowServer(value) => Some(LiveModPatch::ShowServer(value)),
        SettingChange::AntiNicknameCensorship(value) => Some(LiveModPatch::AntiNicknameCensorship(value)),
        SettingChange::EmojiSwitch(value) => Some(LiveModPatch::EmojiSwitch(value)),
        SettingChange::HintSwitch(value) => Some(LiveModPatch::HintSwitch(value)),
        _ => None,
    }
}

/// Whether a change takes effect without a reload: the GitHub proxy and
/// prefix always do, the Mod values while the Mod is on, the Mod and
/// auto-update switches never.
pub fn setting_applies_immediately(change: &SettingChange, mod_on: bool) -> (r: bool)
    ensures
        r == match *change {
            SettingChange::ReqProxy(_) | SettingChange::GithubPrefix(_) => true,
            SettingChange::Nickname(_) | SettingChange::ShowServer(_)
            | SettingChange::AntiNicknameCensorship(_) | SettingChange::EmojiSwitch(_)
            | SettingChange::HintSwitch(_) => mod_on,
            _ => false,
        },
{
    match change {
        SettingChange::ReqProxy(_) | SettingChange::GithubPrefix(_) => true,
        SettingChange::Nickname(_)
        | SettingChange::ShowServer(_)
        | SettingChange::AntiNicknameCensorship(_)
        | SettingChange::EmojiSwitch(_)
        | SettingChange::HintSwitch(_) => mod_on,
        _ => false,
    }
}

/// Applies the GitHub proxy or prefix to the running settings; other
/// changes leave them as they are.
pub fn apply_live_setting(settings: &mut Settings, change: &SettingChange)
    ensures
        match *change {
            SettingChange::ReqProxy(v) => final(settings).spec_req_proxy() == v@
                && final(settings).spec_github_prefix() == old(settings).spec_github_prefix(),
            SettingChange::GithubPrefix(v) => final(settings).spec_github_prefix() == v@
                && final(settings).spec_req_proxy() == old(settings).spec_req_proxy(),
            _ => *final(settings) == *old(settings),
        },
        final(settings).spec_mod_on() == old(settings).spec_mod_on(),
        final(settings).spec_debug_log_on() == old(settings).spec_debug_log_on(),
        final(settings).spec_update_check_mode() == old(settings).spec_update_check_mode(),
        final(settings).spec_update_interval_minutes() == old(settings).spec_update_interval_minutes(),
        final(settings).spec_liqi_version() == old(settings).spec_liqi_version(),
        final(settings).spec_github_token() == old(settings).spec_github_token(),
        final(settings).spec_data_dir() == old(settings).spec_data_dir(),
        final(settings).spec_proxy_addr() == old(settings).spec_proxy_addr(),
        old(settings).wf() ==> final(settings).wf(),
{
    match change {
        SettingChange::ReqProxy(value) => settings.set_req_proxy(value.clone()),
        SettingChange::GithubPrefix(value) => settings.set_github_prefix(value.clone()),
        _ => {},
    }
}

/// The file a setting is stored in.
#[derive(Debug, Clone, Copy, PartialEq, Eq, Structural)]
pub enum SettingsFile {
    /// `settings.json`
    General,
    /// `settings.mod.json`
    Mod,
}

/// A JSON value a setting is stored as.
pub enum SettingValue {
    Bool(bool),
    Text(String),
}

/// Where and how a change is stored: the file, the key and the value.
pub struct SettingTarget {
    pub file: SettingsFile,
    pub key: String,
    pub value: SettingValue,
}

pub open spec fn spec_setting_key(change: SettingChange) -> Seq<char> {
    match change {
        SettingChange::ModSwitch(_) => "modSwitch"@,
        SettingChange::AutoUpdate(_) => "autoUpdate"@,
        SettingChange::Nickname(_) => "nickname"@,
        SettingChange::ShowServer(_) => "showServer"@,
        SettingChange::AntiNicknameCensorship(_) => "antiNicknameCensorship"@,
        SettingChange::EmojiSwitch(_) => "emojiSwitch"@,
        SettingChange::HintSwitch(_) => "hintSwitch"@,
        SettingChange::ReqProxy(_) => "reqProxy"@,
        SettingChange::GithubPrefix(_) => "githubPrefix"@,
    }
}

pub open spec fn spec_setting_file(change: SettingChange) -> SettingsFile {
    match change {
        SettingChange::ModSwitch(_) | SettingChange::AutoUpdate(_) | SettingChange::ReqProxy(_)
        | SettingChange::GithubPrefix(_) => SettingsFile::General,
        _ => SettingsFile::Mod,
    }
}

/// A change is stored in `settings.mod.json` exactly when it sets one of the
/// Mod's own values, the values the running game takes as a live patch; the
/// Mod and auto-update switches and the GitHub proxy and prefix are stored in
/// `settings.json`.
pub proof fn law_mod_values_are_stored_with_the_mod(change: SettingChange)
    ensures
        spec_setting_file(change) == SettingsFile::Mod <==> is_mod_value(change),
        spec_setting_file(change) == SettingsFile::General <==> (change is ModSwitch
            || change is AutoUpdate || change is ReqProxy || change is GithubPrefix),
{
}

/// The value a change stores, as its JSON value.
pub open spec fn setting_value_matches(change: SettingChange, value: SettingValue) -> bool {
    match change {
        SettingChange::ModSwitch(v) | SettingChange::AutoUpdate(v) | SettingChange::ShowServer(v)
        | SettingChange::AntiNicknameCensorship(v) | SettingChange::EmojiSwitch(v)
        | SettingChange::HintSwitch(v) => value == SettingValue::Bool(v),
        SettingChange::Nickname(v) | SettingChange::ReqProxy(v) | SettingChange::GithubPrefix(v) => {
            value matches SettingValue::Text(t) && t@ == v@
        },
    }
}

fn text_of(s: &str) -> (r: String)
    ensures
        r@ == s@,
{
    let mut r = String::new();
    append_chars(&mut r, chars_of(s).as_slice());
    r
}

/// Where a change is written: switches of the Mod and its nickname go to
/// `settings.mod.json`, the rest to `settings.json`, each under its
/// camel-case key.
pub fn setting_target(change: SettingChange) -> (r: SettingTarget)
    ensures
        r.file == spec_setting_file(change),
        r.key@ == spec_setting_key(change),
        setting_value_matches(change, r.value),
{
    match change {
        SettingChange::ModSwitch(v) => SettingTarget {
            file: SettingsFile::General,
            key: text_of("modSwitch"),
            value: SettingValue::Bool(v),
        },
        SettingChange::AutoUpdate(v) => SettingTarget {
            file: SettingsFile::General,
            key: text_of("autoUpdate"),
            value: SettingValue::Bool(v),
        },
        SettingChange::Nickname(v) => SettingTarget {
            file: SettingsFile::Mod,
            key: text_of("nickname"),
            value: SettingValue::Text(v),
        },
        SettingChange::ShowServer(v) => SettingTarget {
            file: SettingsFile::Mod,
            key: text_of("showServer"),
            value: SettingValue::Bool(v),
        },
        SettingChange::AntiNicknameCensorship(v) => SettingTarget {
            file: SettingsFile::Mod,
            key: text_of("antiNicknameCensorship"),
            value: SettingValue::Bool(v),
        },
        SettingChange::EmojiSwitch(v) => SettingTarget {
            file: SettingsFile::Mod,
            key: text_of("emojiSwitch"),
            value: SettingValue::Bool(v),
        },
        SettingChange::HintSwitch(v) => SettingTarget {
            file: SettingsFile::Mod,
            key: text_of("hintSwitch"),
            value: SettingValue::Bool(v),
        },
        SettingChange::ReqProxy(v) => SettingTarget {
            file: SettingsFile::General,
            key: text_of("reqProxy"),
            value: SettingValue::Text(v),
        },
        SettingChange::GithubPrefix(v) => SettingTarget {
            file: SettingsFile::General,
            key: text_of("githubPrefix"),
            value: SettingValue::Text(v),
        },
    }
}

/// A text field of the sidebar: its text, the text last sent, and when it
/// was last edited if that edit has not been sent yet.
pub struct TextField {
    pub value: String,
    pub sent: String,
    pub dirty_at: Option<u64>,
}

/// What a debounced flush of a text field did.
pub enum FlushOutcome {
    /// Nothing was waiting.
    Idle,
    /// The field was edited too recently: look again after this many
    /// milliseconds.
    Wait(u64),
    /// The field was sent; it holds this text when that differs from what was
    /// sent before.
    Flushed(Option<String>),
}

impl TextField {
    /// A field showing `value`, with `value` counted as sent.
    pub fn new(value: &str) -> (f: TextField)
        ensures
            f.value@ == value@,
            f.sent@ == value@,
            f.dirty_at is None,
    {
        TextField { value: text_of(value), sent: text_of(value), dirty_at: None }
    }

    /// The user changed the text at time `now`.
    pub fn edit(&mut self, value: String, now: u64)
        ensures
            final(self).value == value,
            final(self).sent == old(self).sent,
            final(self).dirty_at == Some(now),
    {
        self.value = value;
        self.dirty_at = Some(now);
    }

    /// Sends the field: nothing waits any more, and the text is returned when
    /// it differs from what was last sent, which it then becomes.
    pub fn flush(&mut self) -> (r: Option<String>)
        ensures
            final(self).dirty_at is None,
            final(self).value == old(self).value,
            final(self).sent@ == old(self).value@,
            r is Some <==> old(self).value@ != old(self).sent@,
            r is Some ==> r->0@ == old(self).value@,
    {
        self.dirty_at = None;
        if self.value != self.sent {
            self.sent = self.value.clone();
            Some(self.value.clone())
        } else {
            None
        }
    }

    /// At time `now`, sends the field once its last edit is
    /// `TEXT_DEBOUNCE_MILLIS` old.
    pub fn flush_if_due(&mut self, now: u64) -> (r: FlushOutcome)
        ensures
            match old(self).dirty_at {
                None => r is Idle && *final(self) == *old(self),
                Some(started) => if now < started + TEXT_DEBOUNCE_MILLIS {
                    r == FlushOutcome::Wait(
                        (TEXT_DEBOUNCE_MILLIS - (if now >= started {
                            now - started
                        } else {
                            0
                        })) as u64,
                    ) && *final(self) == *old(self)
                } else {
                    &&& r is Flushed
                    &&& final(self).dirty_at is None
                    &&& final(self).value == old(self).value
                    &&& final(self).sent@ == old(self).value@
                    &&& (r->Flushed_0 is Some <==> old(self).value@ != old(self).sent@)
                    &&& (r->Flushed_0 is Some ==> r->Flushed_0->0@ == old(self).value@)
                },
            },
    {
        match self.dirty_at {
            None => FlushOutcome::Idle,
            Some(started) => {
                let elapsed = now.saturating_sub(started);
                if elapsed < TEXT_DEBOUNCE_MILLIS {
                    FlushOutcome::Wait(TEXT_DEBOUNCE_MILLIS - elapsed)
                } else {
                    FlushOutcome::Flushed(self.flush())
                }
            },
        }
    }
}

/// A field that has just been sent has nothing left to send: sending it
/// again sends nothing until it is edited.
pub proof fn law_sent_field_has_nothing_pending(f: TextField)
    requires
        f.sent@ == f.value@,
    ensures
        field_change(f).len() == 0,
{
}

/// The values the sidebar starts with.
pub struct InitialValues {
    pub mod_switch: bool,
    pub auto_update: bool,
    pub nickname: String,
    pub show_server: bool,
    pub anti_nickname_censorship: bool,
    pub emoji_switch: bool,
    pub hint_switch: bool,
    pub req_proxy: String,
    pub github_prefix: String,
    pub liqi_version: String,
}

/// The sidebar's state, apart from how it is drawn.
pub struct SidebarApp {
    pub collapsed: bool,
    pub update_phase: Option<LiqiUpdatePhase>,
    pub reloading: bool,
    pub mod_switch: bool,
    pub auto_update: bool,
    pub nickname: TextField,
    pub show_server: bool,
    pub anti_nickname_censorship: bool,
    pub emoji_switch: bool,
    pub hint_switch: bool,
    pub req_proxy: TextField,
    pub github_prefix: TextField,
    pub liqi_version: String,
    pub latest_label: String,
    pub proxy_status: String,
    pub message: String,
}

/// The text fields show `v`'s texts, counted as sent.
pub open spec fn fields_show(s: SidebarApp, v: InitialValues) -> bool {
    &&& s.mod_switch == v.mod_switch
    &&& s.auto_update == v.auto_update
    &&& s.nickname.value@ == v.nickname@ && s.nickname.sent@ == v.nickname@
    &&& s.nickname.dirty_at is None
    &&& s.show_server == v.show_server
    &&& s.anti_nickname_censorship == v.anti_nickname_censorship
    &&& s.emoji_switch == v.emoji_switch
    &&& s.hint_switch == v.hint_switch
    &&& s.req_proxy.value@ == v.req_proxy@ && s.req_proxy.sent@ == v.req_proxy@
    &&& s.req_proxy.dirty_at is None
    &&& s.github_prefix.value@ == v.github_prefix@ && s.github_prefix.sent@ == v.github_prefix@
    &&& s.github_prefix.dirty_at is None
    &&& s.liqi_version@ == v.liqi_version@
}

/// The change a text field's flush produces, if any.
pub open spec fn field_change(f: TextField) -> Seq<Seq<char>> {
    if f.value@ != f.sent@ {
        seq![f.value@]
    } else {
        Seq::empty()
    }
}

/// The text of a text change, and which field it is for (0 nickname,
/// 1 GitHub proxy, 2 GitHub prefix).
pub open spec fn text_change(c: SettingChange) -> Option<(int, Seq<char>)> {
    match c {
        SettingChange::Nickname(v) => Some((0, v@)),
        SettingChange::ReqProxy(v) => Some((1, v@)),
        SettingChange::GithubPrefix(v) => Some((2, v@)),
        _ => None,
    }
}

/// The changes of flushing the three text fields, in order.
pub open spec fn pending_changes(s: SidebarApp) -> Seq<(int, Seq<char>)> {
    field_change(s.nickname).map_values(|v: Seq<char>| (0int, v)) + field_change(
        s.req_proxy,
    ).map_values(|v: Seq<char>| (1int, v)) + field_change(s.github_prefix).map_values(
        |v: Seq<char>| (2int, v),
    )
}

/// What a due-flush of a field contributes: its change when it was sent
/// with a text that differs, and how long to wait when it is not yet due.
pub open spec fn due_change(f: TextField, now: u64) -> Seq<Seq<char>> {
    match f.dirty_at {
        Some(started) => if now >= started + TEXT_DEBOUNCE_MILLIS {
            field_change(f)
        } else {
            Seq::empty()
        },
        None => Seq::empty(),
    }
}

/// The changes a due-flush of the three text fields sends, in order.
pub open spec fn due_changes(s: SidebarApp, now: u64) -> Seq<(int, Seq<char>)> {
    due_change(s.nickname, now).map_values(|v: Seq<char>| (0int, v)) + due_change(
        s.req_proxy,
        now,
    ).map_values(|v: Seq<char>| (1int, v)) + due_change(s.github_prefix, now).map_values(
        |v: Seq<char>| (2int, v),
    )
}

/// The field, after a due-flush at `now`.
pub open spec fn flushed_if_due(before: TextField, after: TextField, now: u64) -> bool {
    match before.dirty_at {
        Some(started) => if now >= started + TEXT_DEBOUNCE_MILLIS {
            after.dirty_at is None && after.value == before.value && after.sent@ == before.value@
        } else {
            after == before
        },
        None => after == before,
    }
}

/// The wait a field asks for at `now`: the rest of its debounce time.
pub open spec fn field_wait(f: TextField, now: u64) -> Option<u64> {
    match f.dirty_at {
        Some(started) => if now < started + TEXT_DEBOUNCE_MILLIS {
            Some(
                (TEXT_DEBOUNCE_MILLIS - (if now >= started {
                    now - started
                } else {
                    0
                })) as u64,
            )
        } else {
            None
        },
        None => None,
    }
}

/// The shorter of two optional waits.
pub open spec fn shorter_wait(a: Option<u64>, b: Option<u64>) -> Option<u64> {
    match (a, b) {
        (Some(x), Some(y)) => Some(if x <= y {
            x
        } else {
            y
        }),
        (Some(x), None) => Some(x),
        (None, y) => y,
    }
}

fn shorter(a: Option<u64>, b: Option<u64>) -> (r: Option<u64>)
    ensures
        r == shorter_wait(a, b),
{
    match (a, b) {
        (Some(x), Some(y)) => Some(if x <= y {
            x
        } else {
            y
        }),
        (Some(x), None) => Some(x),
        (None, y) => y,
    }
}

fn flush_field_if_due(f: &mut TextField, now: u64) -> (r: (Option<String>, Option<u64>))
    ensures
        flushed_if_due(*old(f), *final(f), now),
        r.1 == field_wait(*old(f), now),
        r.0 is Some <==> due_change(*old(f), now).len() == 1,
        r.0 is Some ==> r.0->0@ == due_change(*old(f), now)[0],
        due_change(*old(f), now).len() <= 1,
{
    match f.flush_if_due(now) {
        FlushOutcome::Idle => (None, None),
        FlushOutcome::Wait(w) => (None, Some(w)),
        FlushOutcome::Flushed(v) => (v, None),
    }
}

impl SidebarApp {
    /// The sidebar as it opens.
    pub fn from_initial(initial: &InitialValues) -> (s: SidebarApp)
        ensures
            fields_show(s, *initial),
            !s.collapsed,
            s.update_phase is None,
            !s.reloading,
            s.latest_label@ == "最新：尚未检查"@,
            s.proxy_status@ == "● 正在启动…"@,
            s.message@.len() == 0,
    {
        SidebarApp {
            collapsed: false,
            update_phase: None,
            reloading: false,
            mod_switch: initial.mod_switch,
            auto_update: initial.auto_update,
            nickname: TextField::new(initial.nickname.as_str()),
            show_server: initial.show_server,
            anti_nickname_censorship: initial.anti_nickname_censorship,
            emoji_switch: initial.emoji_switch,
            hint_switch: initial.hint_switch,
            req_proxy: TextField::new(initial.req_proxy.as_str()),
            github_prefix: TextField::new(initial.github_prefix.as_str()),
            liqi_version: text_of(initial.liqi_version.as_str()),
            latest_label: text_of("最新：尚未检查"),
            proxy_status: text_of("● 正在启动…"),
            message: String::new(),
        }
    }

    /// Shows freshly loaded values; nothing waits to be sent any more.
    pub fn apply_values(&mut self, values: &InitialValues)
        ensures
            fields_show(*final(self), *values),
            final(self).collapsed == old(self).collapsed,
            final(self).update_phase == old(self).update_phase,
            final(self).reloading == old(self).reloading,
            final(self).latest_label == old(self).latest_label,
            final(self).proxy_status == old(self).proxy_status,
            final(self).message == old(self).message,
    {
        self.mod_switch = values.mod_switch;
        self.auto_update = values.auto_update;
        self.nickname = TextField::new(values.nickname.as_str());
        self.show_server = values.show_server;
        self.anti_nickname_censorship = values.anti_nickname_censorship;
        self.emoji_switch = values.emoji_switch;
        self.hint_switch = values.hint_switch;
        self.req_proxy = TextField::new(values.req_proxy.as_str());
        self.github_prefix = TextField::new(values.github_prefix.as_str());
        self.liqi_version = text_of(values.liqi_version.as_str());
    }

    /// Sends every text field at once (the sidebar is closing): the changes
    /// of the fields whose text differs from what was last sent, in the
    /// order nickname, GitHub proxy, GitHub prefix.
    pub fn take_pending_changes(&mut self) -> (r: Vec<SettingChange>)
        ensures
            r@.len() == pending_changes(*old(self)).len(),
            forall|i: int|
                0 <= i < r@.len() ==> text_change(#[trigger] r@[i]) == Some(
                    pending_changes(*old(self))[i],
                ),
            final(self).nickname.sent@ == old(self).nickname.value@,
            final(self).req_proxy.sent@ == old(self).req_proxy.value@,
            final(self).github_prefix.sent@ == old(self).github_prefix.value@,
            final(self).nickname.value == old(self).nickname.value,
            final(self).req_proxy.value == old(self).req_proxy.value,
            final(self).github_prefix.value == old(self).github_prefix.value,
            final(self).nickname.dirty_at is None,
            final(self).req_proxy.dirty_at is None,
            final(self).github_prefix.dirty_at is None,
            final(self).collapsed == old(self).collapsed,
            final(self).update_phase == old(self).update_phase,
            final(self).reloading == old(self).reloading,
            final(self).mod_switch == old(self).mod_switch,
            final(self).auto_update == old(self).auto_update,
            final(self).show_server == old(self).show_server,
            final(self).anti_nickname_censorship == old(self).anti_nickname_censorship,
            final(self).emoji_switch == old(self).emoji_switch,
            final(self).hint_switch == old(self).hint_switch,
            final(self).liqi_version == old(self).liqi_version,
            final(self).latest_label == old(self).latest_label,
            final(self).proxy_status == old(self).proxy_status,
            final(self).message == old(self).message,
    {
        let mut changes: Vec<SettingChange> = Vec::new();
        let ghost s0 = *self;
        if let Some(v) = self.nickname.flush() {
            changes.push(SettingChange::Nickname(v));
        }
        let ghost c1 = changes@;
        if let Some(v) = self.req_proxy.flush() {
            changes.push(SettingChange::ReqProxy(v));
        }
        let ghost c2 = changes@;
        if let Some(v) = self.github_prefix.flush() {
            changes.push(SettingChange::GithubPrefix(v));
        }
        proof {
            let p = pending_changes(s0);
            let a = field_change(s0.nickname).map_values(|v: Seq<char>| (0int, v));
            let b = field_change(s0.req_proxy).map_values(|v: Seq<char>| (1int, v));
            let c = field_change(s0.github_prefix).map_values(|v: Seq<char>| (2int, v));
            assert(c1.len() == a.len());
            assert(forall|i: int| 0 <= i < c1.len() ==> text_change(#[trigger] c1[i]) == Some(a[i]));
            assert(c2.len() == a.len() + b.len());
            assert(forall|i: int|
                0 <= i < c2.len() ==> text_change(#[trigger] c2[i]) == Some((a + b)[i]));
            assert(p == a + b + c);
            assert(changes@.len() == p.len());
            assert forall|i: int| 0 <= i < changes@.len() implies text_change(
                #[trigger] changes@[i],
            ) == Some(p[i]) by {
                if i < c2.len() {
                    assert(changes@[i] == c2[i]);
                    assert(text_change(c2[i]) == Some((a + b)[i]));
                }
            }
        }
        changes
    }

    /// At time `now`, sends each text field whose last edit is old enough;
    /// returns the changes sent, in the order nickname, GitHub proxy, GitHub
    /// prefix, and the shortest wait the fields not yet due ask for.
    pub fn flush_due_text(&mut self, now: u64) -> (r: (Vec<SettingChange>, Option<u64>))
        ensures
            r.0@.len() == due_changes(*old(self), now).len(),
            forall|i: int|
                0 <= i < r.0@.len() ==> text_change(#[trigger] r.0@[i]) == Some(
                    due_changes(*old(self), now)[i],
                ),
            r.1 == shorter_wait(
                shorter_wait(field_wait(old(self).nickname, now), field_wait(old(self).req_proxy, now)),
                field_wait(old(self).github_prefix, now),
            ),
            flushed_if_due(old(self).nickname, final(self).nickname, now),
            flushed_if_due(old(self).req_proxy, final(self).req_proxy, now),
            flushed_if_due(old(self).github_prefix, final(self).github_prefix, now),
            final(self).collapsed == old(self).collapsed,
            final(self).update_phase == old(self).update_phase,
            final(self).reloading == old(self).reloading,
            final(self).mod_switch == old(self).mod_switch,
            final(self).auto_update == old(self).auto_update,
            final(self).show_server == old(self).show_server,
            final(self).anti_nickname_censorship == old(self).anti_nickname_censorship,
            final(self).emoji_switch == old(self).emoji_switch,
            final(self).hint_switch == old(self).hint_switch,
            final(self).liqi_version == old(self).liqi_version,
            final(self).latest_label == old(self).latest_label,
            final(self).proxy_status == old(self).proxy_status,
            final(self).message == old(self).message,
    {
        let ghost s0 = *self;
        let mut changes: Vec<SettingChange> = Vec::new();
        let (v1, w1) = flush_field_if_due(&mut self.nickname, now);
        if let Some(v) = v1 {
            changes.push(SettingChange::Nickname(v));
        }
        let ghost c1 = changes@;
        let (v2, w2) = flush_field_if_due(&mut self.req_proxy, now);
        if let Some(v) = v2 {
            changes.push(SettingChange::ReqProxy(v));
        }
        let ghost c2 = changes@;
        let (v3, w3) = flush_field_if_due(&mut self.github_prefix, now);
        if let Some(v) = v3 {
            changes.push(SettingChange::GithubPrefix(v));
        }
        proof {
            let p = due_changes(s0, now);
            let a = due_change(s0.nickname, now).map_values(|v: Seq<char>| (0int, v));
            let b = due_change(s0.req_proxy, now).map_values(|v: Seq<char>| (1int, v));
            let c = due_change(s0.github_prefix, now).map_values(|v: Seq<char>| (2int, v));
            assert(c1.len() == a.len());
            assert(forall|i: int| 0 <= i < c1.len() ==> text_change(#[trigger] c1[i]) == Some(a[i]));
            assert(c2.len() == a.len() + b.len());
            assert(forall|i: int|
                0 <= i < c2.len() ==> text_change(#[trigger] c2[i]) == Some((a + b)[i]));
            assert(p == a + b + c);
            assert forall|i: int| 0 <= i < changes@.len() implies text_change(
                #[trigger] changes@[i],
            ) == Some(p[i]) by {
                if i < c2.len() {
                    assert(changes@[i] == c2[i]);
                    assert(text_change(c2[i]) == Some((a + b)[i]));
                }
            }
        }
        let wait = shorter(shorter(w1, w2), w3);
        (changes, wait)
    }

    /// Shows a message under the buttons.
    pub fn set_message(&mut self, message: String)
        ensures
            final(self).message == message,
            final(self).latest_label == old(self).latest_label,
            final(self).update_phase == old(self).update_phase,
    {
        self.message = message;
    }

    /// Greys the controls out while the proxy reloads.
    pub fn set_reloading(&mut self, reloading: bool)
        ensures
            final(self).reloading == reloading,
            final(self).message == old(self).message,
    {
        self.reloading = reloading;
    }

    /// Shows the proxy's status line.
    pub fn set_proxy_status(&mut self, message: String)
        ensures
            final(self).proxy_status == message,
            final(self).message == old(self).message,
    {
        self.proxy_status = message;
    }

    /// Shows the step an update check is in.
    pub fn set_update_phase(&mut self, phase: Option<LiqiUpdatePhase>)
        ensures
            final(self).update_phase == phase,
            match phase {
                Some(LiqiUpdatePhase::Checking) => final(self).latest_label@ == "最新：检查更新中"@,
                Some(LiqiUpdatePhase::Downloading) => final(self).latest_label@ == "最新：正在更新"@,
                None => final(self).latest_label == old(self).latest_label,
            },
            final(self).message == old(self).message,
    {
        self.update_phase = phase;
        match phase {
            Some(LiqiUpdatePhase::Checking) => {
                self.latest_label = text_of("最新：检查更新中");
            },
            Some(LiqiUpdatePhase::Downloading) => {
                self.latest_label = text_of("最新：正在更新");
            },
            None => {},
        }
    }

    /// Shows the outcome of an update check.
    pub fn set_latest_version(&mut self, status: &LiqiUpdateStatus)
        ensures
            final(self).update_phase is None,
            match *status {
                LiqiUpdateStatus::Latest(v) => final(self).latest_label@ == "最新："@ + v@
                    + " （已是最新）"@ && final(self).message@.len() == 0,
                LiqiUpdateStatus::Updated(v) => final(self).latest_label@ == "最新："@ + v@
                    + " （已更新，需重启读取）"@ && final(self).message@.len() == 0,
                LiqiUpdateStatus::Failed(e) => final(self).latest_label@ == "最新：检查失败"@
                    && final(self).message@ == "检查失败："@ + e@,
            },
    {
        self.update_phase = None;
        match status {
            LiqiUpdateStatus::Latest(version) => {
                let mut label = text_of("最新：");
                append_chars(&mut label, chars_of(version.as_str()).as_slice());
                append_chars(&mut label, chars_of(" （已是最新）").as_slice());
                self.latest_label = label;
                self.message = String::new();
            },
            LiqiUpdateStatus::Updated(version) => {
                let mut label = text_of("最新：");
                append_chars(&mut label, chars_of(version.as_str()).as_slice());
                append_chars(&mut label, chars_of(" （已更新，需重启读取）").as_slice());
                self.latest_label = label;
                self.message = String::new();
            },
            LiqiUpdateStatus::Failed(error) => {
                self.latest_label = text_of("最新：检查失败");
                let mut message = text_of("检查失败：");
                append_chars(&mut message, chars_of(error.as_str()).as_slice());
                self.message = message;
            },
        }
    }
}

/// What the window's event loop keeps between events.
#[derive(Debug, Clone, Copy, PartialEq, Eq, Structural)]
pub struct GuiFlags {
    /// An update check is running.
    pub checking_update: bool,
    /// The proxy is being started or reloaded.
    pub reloading_proxy: bool,
    /// The game page has been opened.
    pub webview_started: bool,
    /// An update check has reported its outcome.
    pub has_update_status: bool,
}

impl GuiFlags {
    /// The flags as the window opens.
    pub fn initial() -> (f: GuiFlags)
        ensures
            !f.checking_update && !f.reloading_proxy && !f.webview_started && !f.has_update_status,
    {
        GuiFlags {
            checking_update: false,
            reloading_proxy: false,
            webview_started: false,
            has_update_status: false,
        }
    }
}

/// What the pending sidebar changes were saved for.
#[derive(Debug, Clone, Copy, PartialEq, Eq, Structural)]
pub enum SaveFor {
    Check,
    Restart,
}

/// An event of the window's event loop, with what the decisions read of it.
#[derive(Debug, Clone, Copy, PartialEq, Eq, Structural)]
pub enum GuiEventKind {
    /// The window opened; `auto_update` when updates are checked at start.
    Launched { auto_update: bool },
    /// The check-update button.
    CheckUpdate,
    /// The pending changes were saved.
    PendingSaved(SaveFor),
    /// A running check moved to its next step.
    UpdateProgress,
    /// A check asked for from the sidebar finished.
    LatestVersion,
    /// The check made at start finished.
    StartupUpdateFinished,
    /// The reload button.
    Restart,
    /// A reload was asked of the proxy manager; `false` when it could not be.
    ReloadBegun(bool),
    /// The proxy finished reloading; `false` when that failed.
    ProxyReloaded(bool),
    /// The game page was opened; `false` when that failed.
    WebviewCreated(bool),
}

/// What the event loop does next.
#[derive(Debug, Clone, Copy, PartialEq, Eq, Structural)]
pub enum GuiAction {
    Nothing,
    /// Show the step the running check is in.
    ShowUpdatePhase,
    /// Start an update check.
    StartUpdateCheck { at_startup: bool },
    /// Save the pending sidebar changes, then report `PendingSaved`; on a
    /// failure show it and stop.
    SavePendingFor(SaveFor),
    /// Show the outcome of the check.
    ShowLatestVersion,
    /// Save the pending changes (a failure is not reported), then ask the
    /// proxy manager for a reload and report `ReloadBegun`.
    SavePendingThenReload { starting: bool },
    /// Ask the proxy manager for a reload and report `ReloadBegun`.
    BeginProxyReload { starting: bool },
    /// Show the reloaded settings; on the first start open the game page and
    /// report `WebviewCreated`, otherwise reload the page.
    ShowReloaded { first_start: bool },
    /// Show that the reload failed, and the last check's outcome if there is one.
    ShowReloadFailed { show_last_status: bool },
}

/// The decisions of the window's event loop: a check is not started while
/// one runs or the proxy reloads, a reload is not started while one runs,
/// and a finished start-up check goes on to start the proxy.
pub open spec fn spec_gui_step(s: GuiFlags, e: GuiEventKind) -> (GuiFlags, GuiAction) {
    match e {
        GuiEventKind::Launched { auto_update } => if auto_update {
            (GuiFlags { checking_update: true, ..s }, GuiAction::StartUpdateCheck { at_startup: true })
        } else {
            (s, GuiAction::BeginProxyReload { starting: true })
        },
        GuiEventKind::CheckUpdate => if s.checking_update || s.reloading_proxy {
            (s, GuiAction::Nothing)
        } else {
            (s, GuiAction::SavePendingFor(SaveFor::Check))
        },
        GuiEventKind::PendingSaved(SaveFor::Check) => (
            GuiFlags { checking_update: true, ..s },
            GuiAction::StartUpdateCheck { at_startup: false },
        ),
        GuiEventKind::PendingSaved(SaveFor::Restart) => (
            s,
            GuiAction::BeginProxyReload { starting: false },
        ),
        GuiEventKind::UpdateProgress => (s, GuiAction::ShowUpdatePhase),
        GuiEventKind::LatestVersion => (
            GuiFlags { checking_update: false, has_update_status: true, ..s },
            GuiAction::ShowLatestVersion,
        ),
        GuiEventKind::StartupUpdateFinished => (
            GuiFlags { checking_update: false, has_update_status: true, ..s },
            GuiAction::SavePendingThenReload { starting: true },
        ),
        GuiEventKind::Restart => if s.reloading_proxy {
            (s, GuiAction::Nothing)
        } else {
            (s, GuiAction::SavePendingFor(SaveFor::Restart))
        },
        GuiEventKind::ReloadBegun(ok) => (
            GuiFlags { reloading_proxy: s.reloading_proxy || ok, ..s },
            GuiAction::Nothing,
        ),
        GuiEventKind::ProxyReloaded(ok) => (
            GuiFlags { reloading_proxy: false, ..s },
            if ok {
                GuiAction::ShowReloaded { first_start: !s.webview_started }
            } else {
                GuiAction::ShowReloadFailed { show_last_status: s.has_update_status }
            },
        ),
        GuiEventKind::WebviewCreated(ok) => (
            GuiFlags { webview_started: s.webview_started || ok, ..s },
            GuiAction::Nothing,
        ),
    }
}

/// One step of the window's event loop.
pub fn gui_step(s: GuiFlags, e: GuiEventKind) -> (r: (GuiFlags, GuiAction))
    ensures
        r == spec_gui_step(s, e),
{
    match e {
        GuiEventKind::Launched { auto_update } => if auto_update {
            (GuiFlags { checking_update: true, ..s }, GuiAction::StartUpdateCheck { at_startup: true })
        } else {
            (s, GuiAction::BeginProxyReload { starting: true })
        },
        GuiEventKind::CheckUpdate => if s.checking_update || s.reloading_proxy {
            (s, GuiAction::Nothing)
        } else {
            (s, GuiAction::SavePendingFor(SaveFor::Check))
        },
        GuiEventKind::PendingSaved(SaveFor::Check) => (
            GuiFlags { checking_update: true, ..s },
            GuiAction::StartUpdateCheck { at_startup: false },
        ),
        GuiEventKind::PendingSaved(SaveFor::Restart) => (
            s,
            GuiAction::BeginProxyReload { starting: false },
        ),
        GuiEventKind::UpdateProgress => (s, GuiAction::ShowUpdatePhase),
        GuiEventKind::LatestVersion => (
            GuiFlags { checking_update: false, has_update_status: true, ..s },
            GuiAction::ShowLatestVersion,
        ),
        GuiEventKind::StartupUpdateFinished => (
            GuiFlags { checking_update: false, has_update_status: true, ..s },
            GuiAction::SavePendingThenReload { starting: true },
        ),
        GuiEventKind::Restart => if s.reloading_proxy {
            (s, GuiAction::Nothing)
        } else {
            (s, GuiAction::SavePendingFor(SaveFor::Restart))
        },
        GuiEventKind::ReloadBegun(ok) => (
            GuiFlags { reloading_proxy: s.reloading_proxy || ok, ..s },
            GuiAction::Nothing,
        ),
        GuiEventKind::ProxyReloaded(ok) => (
            GuiFlags { reloading_proxy: false, ..s },
            if ok {
                GuiAction::ShowReloaded { first_start: !s.webview_started }
            } else {
                GuiAction::ShowReloadFailed { show_last_status: s.has_update_status }
            },
        ),
        GuiEventKind::WebviewCreated(ok) => (
            GuiFlags { webview_started: s.webview_started || ok, ..s },
            GuiAction::Nothing,
        ),
    }
}

/// While a check runs or the proxy reloads, the check button does nothing;
/// while the proxy reloads, the reload button does nothing.
pub proof fn law_busy_buttons_do_nothing(s: GuiFlags)
    ensures
        (s.checking_update || s.reloading_proxy) ==> spec_gui_step(s, GuiEventKind::CheckUpdate)
            == (s, GuiAction::Nothing),
        s.reloading_proxy ==> spec_gui_step(s, GuiEventKind::Restart) == (s, GuiAction::Nothing),
{
}

/// A step that starts an update check marks one as running, and a step that
/// starts the game page only does so once.
pub proof fn law_started_work_is_marked(s: GuiFlags, e: GuiEventKind)
    ensures
        spec_gui_step(s, e).1 is StartUpdateCheck ==> spec_gui_step(s, e).0.checking_update,
        spec_gui_step(s, e).1 == (GuiAction::ShowReloaded { first_start: true })
            ==> !s.webview_started,
{
}

} // verus!
