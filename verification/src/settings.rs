//! General settings (`settings.json`) and Mod settings (`settings.mod.json`),
//! and the rules that read and derive their values.
//!
//! The files themselves are read and written outside this library; these
//! types hold their contents.

use crate::text::{append_chars, chars_eq, chars_of, parse_unsigned, parse_unsigned_chars, push_char, trim, trim_chars, trim_end_char, trim_end_char_chars};
use std::collections::HashMap;
use vstd::prelude::*;

verus! {

broadcast use vstd::std_specs::hash::group_hash_axioms;

/// When the protocol data is checked for updates.
#[derive(Debug, Clone, Copy, PartialEq, Eq, Structural)]
pub enum UpdateCheckMode {
    Startup,
    Periodic,
    Disabled,
}

impl Default for UpdateCheckMode {
    fn default() -> (m: Self)
        ensures
            m == UpdateCheckMode::Disabled,
    {
        UpdateCheckMode::Disabled
    }
}

/// The stored form of the update mode: a mode name, or the boolean that
/// earlier versions stored.
#[derive(Debug, Clone, Copy, PartialEq, Eq, Structural)]
pub enum StoredUpdateMode {
    Mode(UpdateCheckMode),
    Legacy(bool),
}

pub open spec fn spec_resolve_update_mode(stored: StoredUpdateMode) -> UpdateCheckMode {
    match stored {
        StoredUpdateMode::Mode(mode) => mode,
        StoredUpdateMode::Legacy(true) => UpdateCheckMode::Startup,
        StoredUpdateMode::Legacy(false) => UpdateCheckMode::Disabled,
    }
}

/// The update mode a stored value means: a legacy `true` checks at startup,
/// a legacy `false` never checks.
pub fn resolve_update_mode(stored: StoredUpdateMode) -> (m: UpdateCheckMode)
    ensures
        m == spec_resolve_update_mode(stored),
{
    match stored {
        StoredUpdateMode::Mode(mode) => mode,
        StoredUpdateMode::Legacy(true) => UpdateCheckMode::Startup,
        StoredUpdateMode::Legacy(false) => UpdateCheckMode::Disabled,
    }
}

pub const DEFAULT_UPDATE_INTERVAL_MINUTES: u16 = 60;

/// The update-check interval of a settings file that names none: one hour.
pub fn default_update_interval_minutes() -> (m: u16)
    ensures
        m == DEFAULT_UPDATE_INTERVAL_MINUTES,
{
    DEFAULT_UPDATE_INTERVAL_MINUTES
}

/// An update-check interval typed by the user is not a whole number of
/// minutes from 1 to 65535.
#[derive(Debug, Clone, Copy, PartialEq, Eq, Structural)]
pub struct InvalidInterval;

pub open spec fn spec_parse_update_interval(value: Seq<char>) -> Option<u16> {
    match parse_unsigned(trim(value), u16::MAX as nat) {
        Some(n) => if n > 0 {
            Some(n as u16)
        } else {
            None
        },
        None => None,
    }
}

/// Reads an interval typed by the user: surrounding whitespace is ignored,
/// and the rest must parse as a `u16` other than zero.
pub fn parse_update_interval_minutes(value: &str) -> (r: Result<u16, InvalidInterval>)
    ensures
        match spec_parse_update_interval(value@) {
            Some(n) => r == Ok::<u16, InvalidInterval>(n),
            None => r is Err,
        },
{
    let chars = chars_of(value);
    let trimmed = trim_chars(&chars);
    match parse_unsigned_chars(&trimmed, 0xffff) {
        Some(n) => if n > 0 {
            Ok(n as u16)
        } else {
            Err(InvalidInterval)
        },
        None => Err(InvalidInterval),
    }
}

/// A change made in the sidebar that the running Mod applies at once.
#[derive(Debug, Clone)]
pub enum LiveModPatch {
    Nickname(String),
    ShowServer(bool),
    AntiNicknameCensorship(bool),
    EmojiSwitch(bool),
    HintSwitch(bool),
}

/// The outcome of a protocol-data update check.
#[derive(Debug, Clone)]
pub enum LiqiUpdateStatus {
    Latest(String),
    Updated(String),
    Failed(String),
}

/// The step an update check is in.
#[derive(Debug, Clone, Copy, PartialEq, Eq, Structural)]
pub enum LiqiUpdatePhase {
    Checking,
    Downloading,
}

impl LiqiUpdateStatus {
    /// After a reload, an update to the version now loaded reads as "latest".
    pub fn resolved_after_reload(self, current_version: &str) -> (r: Self)
        ensures
            match self {
                LiqiUpdateStatus::Updated(v) => if v@ == current_version@ {
                    r matches LiqiUpdateStatus::Latest(w) && w@ == v@
                } else {
                    r matches LiqiUpdateStatus::Updated(w) && w@ == v@
                },
                LiqiUpdateStatus::Latest(v) => r matches LiqiUpdateStatus::Latest(w) && w@ == v@,
                LiqiUpdateStatus::Failed(v) => r matches LiqiUpdateStatus::Failed(w) && w@ == v@,
            },
    {
        match self {
            LiqiUpdateStatus::Updated(version) => {
                let chars = chars_of(version.as_str());
                if chars_eq(&chars, current_version) {
                    LiqiUpdateStatus::Latest(version)
                } else {
                    LiqiUpdateStatus::Updated(version)
                }
            },
            other => other,
        }
    }
}

pub open spec fn spec_apply_github_prefix(prefix: Seq<char>, url: Seq<char>) -> Seq<char> {
    let p = trim(prefix);
    if p.len() == 0 {
        url
    } else {
        trim_end_char(p, '/') + seq!['/'] + url
    }
}

/// Routes a GitHub URL through a user-chosen prefix (a mirror): the trimmed
/// prefix without its trailing slashes, one slash, then the URL. A blank
/// prefix leaves the URL unchanged.
pub fn apply_github_prefix(prefix: &str, url: &str) -> (r: String)
    ensures
        r@ == spec_apply_github_prefix(prefix@, url@),
{
    let p = trim_chars(&chars_of(prefix));
    if p.len() == 0 {
        return url.to_owned();
    }
    let base = trim_end_char_chars(&p, '/');
    let mut r = String::new();
    append_chars(&mut r, &base);
    push_char(&mut r, '/');
    append_chars(&mut r, &chars_of(url));
    r
}

/// A Windows verbatim path: one that starts with `\\?\`.
pub open spec fn is_verbatim_path(p: Seq<char>) -> bool {
    p.len() >= 4 && p[0] == '\\' && p[1] == '\\' && p[2] == '?' && p[3] == '\\'
}

/// `s` ends with `tail`.
pub open spec fn ends_with(s: Seq<char>, tail: Seq<char>) -> bool {
    s.len() >= tail.len() && s.skip(s.len() - tail.len()) == tail
}

/// `base` followed by `name` as a path (std's `Path::join`). For a `name` made
/// of ASCII letters only, the result always ends with `name`. When `base` is
/// not a Windows verbatim path, the documentation promises that the result is
/// `base`, a separator where `base` does not already end in one, and `name`;
/// which separator that is (`/` or `\`) depends on the platform and is not
/// stated. A verbatim `base` is normalized as it is joined (its `.` and `..`
/// components removed), and nothing more is stated of the result then.
#[verifier::external_body]
fn join_path(base: &str, name: &str) -> (r: String)
    requires
        name@.len() > 0,
        forall|i: int| 0 <= i < name@.len() ==> ('a' <= #[trigger] name@[i] <= 'z' || 'A'
            <= name@[i] <= 'Z'),
    ensures
        ends_with(r@, name@),
        !is_verbatim_path(base@) ==> (r@ == base@ + name@ || r@ == base@ + seq!['/'] + name@
            || r@ == base@ + seq!['\\'] + name@),
{
    std::path::Path::new(base).join(name).to_string_lossy().into_owned()
}


/// One slot of a dress-up preset (the protocol's `ViewSlot`). `view_type` is
/// the protocol's `type` field: 0 for a fixed item, 1 for a random pick from
/// `item_id_list`.
#[derive(Debug, Clone)]
pub struct ViewSlot {
    pub slot: u32,
    pub view_type: u32,
    pub item_id: u32,
    pub item_id_list: Vec<u32>,
}

pub struct ViewSlotView {
    pub slot: u32,
    pub view_type: u32,
    pub item_id: u32,
    pub item_id_list: Seq<u32>,
}

impl View for ViewSlot {
    type V = ViewSlotView;

    open spec fn view(&self) -> ViewSlotView {
        ViewSlotView {
            slot: self.slot,
            view_type: self.view_type,
            item_id: self.item_id,
            item_id_list: self.item_id_list@,
        }
    }
}

pub fn copy_u32s(v: &[u32]) -> (r: Vec<u32>)
    ensures
        r@ == v@,
{
    let mut r: Vec<u32> = Vec::new();
    let mut i: usize = 0;
    while i < v.len()
        invariant
            i <= v@.len(),
            r@ == v@.take(i as int),
        decreases v@.len() - i,
    {
        r.push(v[i]);
        assert(v@.take(i as int).push(v@[i as int]) == v@.take(i + 1));
        i += 1;
    }
    assert(v@.take(v@.len() as int) == v@);
    r
}

impl ViewSlot {
    /// An equal copy.
    pub fn duplicate(&self) -> (r: ViewSlot)
        ensures
            r@ == self@,
    {
        ViewSlot {
            slot: self.slot,
            view_type: self.view_type,
            item_id: self.item_id,
            item_id_list: copy_u32s(&self.item_id_list),
        }
    }
}

pub open spec fn slots_view(v: Seq<ViewSlot>) -> Seq<ViewSlotView> {
    v.map_values(|s: ViewSlot| s@)
}

/// Copies a list of slots.
pub fn copy_slots(v: &[ViewSlot]) -> (r: Vec<ViewSlot>)
    ensures
        slots_view(r@) == slots_view(v@),
{
    let mut r: Vec<ViewSlot> = Vec::new();
    let mut i: usize = 0;
    while i < v.len()
        invariant
            i <= v@.len(),
            slots_view(r@) == slots_view(v@.take(i as int)),
        decreases v@.len() - i,
    {
        let ghost old_r = r@;
        assert(slots_view(old_r).len() == old_r.len());
        assert(slots_view(v@.take(i as int)).len() == i);
        assert(old_r.len() == i);
        let d = v[i].duplicate();
        r.push(d);
        assert forall|k: int| 0 <= k < i + 1 implies #[trigger] slots_view(r@)[k] == slots_view(
            v@.take(i + 1),
        )[k] by {
            if k < i {
                assert(slots_view(old_r)[k] == slots_view(v@.take(i as int))[k]);
                assert(r@[k] == old_r[k]);
            }
        }
        assert(slots_view(r@) =~= slots_view(v@.take(i + 1)));
        i += 1;
    }
    assert(v@.take(v@.len() as int) == v@);
    r
}

/// The decimal digits of `n`, most significant first.
pub open spec fn decimal_digits(n: nat) -> Seq<nat>
    decreases n,
{
    if n < 10 {
        seq![n]
    } else {
        decimal_digits(n / 10).push(n % 10)
    }
}

/// The number that a sequence of decimal digits denotes.
pub open spec fn digits_value(d: Seq<nat>) -> nat
    decreases d.len(),
{
    if d.len() == 0 {
        0
    } else {
        digits_value(d.drop_last()) * 10 + d.last()
    }
}

/// The digits of a character's default skin: `4`, `0`, the character id from
/// its fifth digit on, `0`, `1`.
pub open spec fn default_avatar_digits(char_id: nat) -> Seq<nat> {
    seq![4nat, 0nat] + decimal_digits(char_id).skip(4) + seq![0nat, 1nat]
}

/// The default skin of a character, when its id has at least four digits and
/// the result fits a `u32`.
pub open spec fn spec_default_avatar_id(char_id: u32) -> Option<u32> {
    if decimal_digits(char_id as nat).len() >= 4 && digits_value(default_avatar_digits(char_id as nat))
        <= u32::MAX {
        Some(digits_value(default_avatar_digits(char_id as nat)) as u32)
    } else {
        None
    }
}

/// A default skin cannot be derived for this character id.
#[derive(Debug, Clone, Copy, PartialEq, Eq, Structural)]
pub enum AvatarError {
    /// The id has fewer than four digits.
    IdTooShort(u32),
    /// The derived id does not fit a `u32`.
    OutOfRange(u32),
}

proof fn lemma_digits_prefix_le(d: Seq<nat>, i: int)
    requires
        0 <= i <= d.len(),
    ensures
        digits_value(d.take(i)) <= digits_value(d),
    decreases d.len() - i,
{
    if i < d.len() {
        lemma_digits_prefix_le(d, i + 1);
        assert(d.take(i + 1).drop_last() == d.take(i));
    } else {
        assert(d.take(i) == d);
    }
}

/// Ten to the power `k`.
pub open spec fn pow10(k: nat) -> nat
    decreases k,
{
    if k == 0 {
        1
    } else {
        10 * pow10((k - 1) as nat)
    }
}

proof fn lemma_pow10_monotone(i: nat, j: nat)
    requires
        i <= j,
    ensures
        pow10(i) <= pow10(j),
    decreases j,
{
    if i < j {
        lemma_pow10_monotone(i, (j - 1) as nat);
    }
}

proof fn lemma_decimal_digits_small(n: nat)
    ensures
        forall|i: int| 0 <= i < decimal_digits(n).len() ==> #[trigger] decimal_digits(n)[i] < 10,
        decimal_digits(n).len() >= 1,
    decreases n,
{
    if n >= 10 {
        lemma_decimal_digits_small(n / 10);
    }
}

proof fn lemma_decimal_digits_len(n: nat, k: nat)
    requires
        n < pow10(k),
        k >= 1,
    ensures
        decimal_digits(n).len() <= k,
    decreases n,
{
    if n >= 10 {
        assert(k >= 2) by {
            if k == 1 {
                assert(pow10(1) == 10) by {
                    assert(pow10(0) == 1);
                }
            }
        }
        assert(n / 10 < pow10((k - 1) as nat)) by {
            assert(pow10(k) == 10 * pow10((k - 1) as nat));
        }
        lemma_decimal_digits_len(n / 10, (k - 1) as nat);
    }
}

proof fn lemma_digits_value_bound(d: Seq<nat>)
    requires
        forall|i: int| 0 <= i < d.len() ==> #[trigger] d[i] < 10,
    ensures
        digits_value(d) < pow10(d.len()),
    decreases d.len(),
{
    if d.len() > 0 {
        let rest = d.drop_last();
        assert forall|i: int| 0 <= i < rest.len() implies #[trigger] rest[i] < 10 by {
            assert(rest[i] == d[i]);
        }
        lemma_digits_value_bound(rest);
        let v = digits_value(rest);
        let p = pow10(rest.len());
        assert(d.last() < 10);
        assert(v * 10 + d.last() < p * 10) by (nonlinear_arith)
            requires
                v < p,
                d.last() < 10,
        ;
    }
}

proof fn lemma_digits_value_concat(a: Seq<nat>, b: Seq<nat>)
    ensures
        digits_value(a + b) == digits_value(a) * pow10(b.len()) + digits_value(b),
    decreases b.len(),
{
    if b.len() == 0 {
        assert(a + b =~= a);
        assert(pow10(0) == 1);
        assert(digits_value(b) == 0);
        assert(digits_value(a) * 1 == digits_value(a));
    } else {
        let b1 = b.drop_last();
        assert((a + b).drop_last() =~= a + b1);
        assert((a + b).last() == b.last());
        lemma_digits_value_concat(a, b1);
        let va = digits_value(a);
        let p = pow10(b1.len());
        let vb1 = digits_value(b1);
        assert(pow10(b.len()) == 10 * p);
        assert(digits_value(a + b) == digits_value(a + b1) * 10 + b.last());
        assert(digits_value(b) == vb1 * 10 + b.last());
        assert((va * p + vb1) * 10 + b.last() == va * (10 * p) + (vb1 * 10 + b.last()))
            by (nonlinear_arith);
        assert(va * pow10(b.len()) == va * (10 * p));
    }
}

/// Every character id of four digits or more has a default skin: the
/// derived id always fits a `u32`, so deriving it fails only for ids
/// shorter than four digits.
pub proof fn law_long_ids_have_a_default_avatar(char_id: u32)
    requires
        char_id >= 1000,
    ensures
        spec_default_avatar_id(char_id) is Some,
        default_avatar_id_result(char_id) is Ok,
{
    let n = char_id as nat;
    let d = decimal_digits(n);
    lemma_decimal_digits_small(n);
    assert(pow10(10) == 10_000_000_000) by {
        reveal_with_fuel(pow10, 11);
    }
    lemma_decimal_digits_len(n, 10);
    assert(d.len() >= 4) by {
        if d.len() < 4 {
            assert(pow10(3) == 1000) by {
        reveal_with_fuel(pow10, 4);
    }
            lemma_digits_value_bound(d);
            lemma_pow10_monotone(d.len(), 3);
            lemma_digits_roundtrip(n);
        }
    }
    let mid = d.skip(4);
    assert forall|i: int| 0 <= i < mid.len() implies #[trigger] mid[i] < 10 by {
        assert(mid[i] == d[i + 4]);
    }
    lemma_digits_value_bound(mid);
    lemma_pow10_monotone(mid.len(), 6);
    assert(pow10(6) == 1_000_000) by {
        reveal_with_fuel(pow10, 7);
    }
    let head = seq![4nat, 0nat];
    let tail = seq![0nat, 1nat];
    lemma_digits_value_concat(head, mid);
    lemma_digits_value_concat(head + mid, tail);
    assert(digits_value(head) == 40) by {
        assert(head.drop_last() =~= seq![4nat]);
        assert(seq![4nat].drop_last() =~= Seq::<nat>::empty());
        assert(digits_value(Seq::<nat>::empty()) == 0);
        assert(digits_value(seq![4nat]) == 4);
        assert(head.last() == 0);
    }
    assert(digits_value(tail) == 1) by {
        assert(tail.drop_last() =~= seq![0nat]);
        assert(seq![0nat].drop_last() =~= Seq::<nat>::empty());
        assert(digits_value(Seq::<nat>::empty()) == 0);
        assert(digits_value(seq![0nat]) == 0);
        assert(tail.last() == 1);
    }
    assert(pow10(2) == 100) by {
        reveal_with_fuel(pow10, 3);
    }
    let p = pow10(mid.len());
    let vm = digits_value(mid);
    assert((40 * p + vm) * 100 + 1 <= u32::MAX) by (nonlinear_arith)
        requires
            vm < p,
            p <= 1_000_000,
    ;
    assert(default_avatar_digits(n) == head + mid + tail);
}

proof fn lemma_digits_roundtrip(n: nat)
    ensures
        digits_value(decimal_digits(n)) == n,
    decreases n,
{
    if n < 10 {
        let d = decimal_digits(n);
        assert(d.drop_last() =~= Seq::<nat>::empty());
        assert(digits_value(Seq::<nat>::empty()) == 0);
        assert(d.last() == n);
        assert(digits_value(d) == digits_value(d.drop_last()) * 10 + d.last());
    } else {
        lemma_digits_roundtrip(n / 10);
        let d = decimal_digits(n);
        assert(d.drop_last() =~= decimal_digits(n / 10));
        assert(d.last() == n % 10);
        assert(digits_value(d) == digits_value(d.drop_last()) * 10 + d.last());
        assert((n / 10) * 10 + n % 10 == n) by (nonlinear_arith);
    }
}

/// The decimal digits of `n`, most significant first, as small integers.
fn digits_of(n: u32) -> (r: Vec<u8>)
    ensures
        r@.map_values(|x: u8| x as nat) == decimal_digits(n as nat),
        r@.len() >= 1,
        forall|i: int| 0 <= i < r@.len() ==> #[trigger] r@[i] < 10,
{
    let mut tail: Vec<u8> = Vec::new();
    let mut rest = n;
    while rest >= 10
        invariant
            decimal_digits(n as nat) == decimal_digits(rest as nat) + tail@.map_values(
                |x: u8| x as nat,
            ),
            forall|i: int| 0 <= i < tail@.len() ==> #[trigger] tail@[i] < 10,
        decreases rest,
    {
        let d = (rest % 10) as u8;
        let ghost old_tail = tail@;
        tail.insert(0, d);
        proof {
            assert(tail@.map_values(|x: u8| x as nat) =~= seq![d as nat] + old_tail.map_values(
                |x: u8| x as nat,
            ));
            assert(decimal_digits(rest as nat) == decimal_digits((rest / 10) as nat).push(
                (rest % 10) as nat,
            ));
            assert(decimal_digits(n as nat) =~= decimal_digits((rest / 10) as nat) + tail@.map_values(
                |x: u8| x as nat,
            ));
        }
        rest = rest / 10;
    }
    let ghost old_tail = tail@;
    tail.insert(0, rest as u8);
    assert(tail@.map_values(|x: u8| x as nat) =~= seq![rest as nat] + old_tail.map_values(
        |x: u8| x as nat,
    ));
    tail
}



/// The Mod settings (`settings.mod.json`): what the modder shows in place of
/// the account's own choices.
pub struct ModSettings {
    pub main_char: u32,
    /// Skin id by character id; holds only characters whose skin was changed.
    pub char_skin: HashMap<u32, u32>,
    pub nickname: String,
    pub star_character: Vec<u32>,
    pub hidden_characters: Vec<u32>,
    pub hint_switch: bool,
    pub title: u32,
    pub loading_bg: Vec<u32>,
    pub emoji_switch: bool,
    pub views_presets: [Vec<ViewSlot>; 10],
    pub preset_index: u32,
    pub show_server: bool,
    pub anti_nickname_censorship: bool,
    pub random_char_switch: bool,
    /// (character id, skin id) pairs.
    pub random_char_pool: Vec<(u32, u32)>,
    pub verified: u32,
    /// The directory the settings file lives in.
    pub dir: String,
}

pub const PRESET_COUNT: usize = 10;

/// The index of the preset in use: `preset_index` when it is in range, else 0.
pub open spec fn effective_preset_index(preset_index: u32) -> int {
    if preset_index < PRESET_COUNT {
        preset_index as int
    } else {
        0
    }
}

/// The item id of the first slot numbered 5 (the avatar frame), or 0.
pub open spec fn frame_of(slots: Seq<ViewSlotView>) -> u32
    decreases slots.len(),
{
    if slots.len() == 0 {
        0
    } else if slots[0].slot == 5 {
        slots[0].item_id
    } else {
        frame_of(slots.drop_first())
    }
}

pub open spec fn spec_avatar_id_of(char_skin: Map<u32, u32>, char_id: u32) -> Option<u32> {
    if char_skin.contains_key(char_id) {
        Some(char_skin[char_id])
    } else {
        spec_default_avatar_id(char_id)
    }
}

impl ModSettings {
    /// Derives a character's default skin id: `40`, the character id from its
    /// fifth digit on, then `01` (200001 gives 400101, 20000125 gives 40012501).
    pub fn default_avatar_id(char_id: u32) -> (r: Result<u32, AvatarError>)
        ensures
            match spec_default_avatar_id(char_id) {
                Some(v) => r == Ok::<u32, AvatarError>(v),
                None => r == Err::<u32, AvatarError>(
                    if decimal_digits(char_id as nat).len() < 4 {
                        AvatarError::IdTooShort(char_id)
                    } else {
                        AvatarError::OutOfRange(char_id)
                    },
                ),
            },
    {
        let digits = digits_of(char_id);
        let ghost dd = decimal_digits(char_id as nat);
        assert(digits@.map_values(|x: u8| x as nat).len() == digits@.len());
        if digits.len() < 4 {
            return Err(AvatarError::IdTooShort(char_id));
        }
        let mut d: Vec<u8> = Vec::new();
        d.push(4);
        d.push(0);
        let mut i: usize = 4;
        assert(d@.map_values(|x: u8| x as nat) =~= seq![4nat, 0nat] + dd.skip(4).take(0));
        while i < digits.len()
            invariant
                4 <= i <= digits@.len(),
                digits@.map_values(|x: u8| x as nat) == dd,
                dd.len() == digits@.len(),
                d@.map_values(|x: u8| x as nat) == seq![4nat, 0nat] + dd.skip(4).take(i - 4),
                forall|k: int| 0 <= k < digits@.len() ==> #[trigger] digits@[k] < 10,
                forall|k: int| 0 <= k < d@.len() ==> #[trigger] d@[k] < 10,
            decreases digits@.len() - i,
        {
            let ghost before = d@;
            d.push(digits[i]);
            proof {
                assert(dd[i as int] == digits@[i as int] as nat);
                assert(dd.skip(4).take(i - 4 + 1) =~= dd.skip(4).take(i - 4).push(dd[i as int]));
                assert(d@.map_values(|x: u8| x as nat) =~= before.map_values(|x: u8| x as nat).push(
                    digits@[i as int] as nat,
                ));
            }
            i += 1;
        }
        let ghost before = d@;
        d.push(0);
        d.push(1);
        proof {
            assert(dd.skip(4).take(i - 4) =~= dd.skip(4));
            assert(d@.map_values(|x: u8| x as nat) =~= before.map_values(|x: u8| x as nat) + seq![
                0nat,
                1nat,
            ]);
            assert(d@.map_values(|x: u8| x as nat) =~= default_avatar_digits(char_id as nat));
        }
        let ghost target = default_avatar_digits(char_id as nat);
        let mut value: u64 = 0;
        let mut k: usize = 0;
        assert(target.take(0) =~= Seq::<nat>::empty());
        while k < d.len()
            invariant
                k <= d@.len(),
                d@.map_values(|x: u8| x as nat) == target,
                target.len() == d@.len(),
                value as nat == digits_value(target.take(k as int)),
                value <= u32::MAX,
                dd.len() >= 4,
                dd == decimal_digits(char_id as nat),
                target == default_avatar_digits(char_id as nat),
                forall|j: int| 0 <= j < d@.len() ==> #[trigger] d@[j] < 10,
            decreases d@.len() - k,
        {
            let next: u64 = value * 10 + d[k] as u64;
            proof {
                assert(target[k as int] == d@[k as int] as nat);
                assert(target.take(k + 1).drop_last() == target.take(k as int));
            }
            if next > 0xffff_ffff {
                proof {
                    lemma_digits_prefix_le(target, k + 1);
                }
                return Err(AvatarError::OutOfRange(char_id));
            }
            value = next;
            k += 1;
        }
        assert(target.take(k as int) == target);
        Ok(value as u32)
    }

    pub open spec fn spec_current_preset(&self) -> Seq<ViewSlotView> {
        slots_view(self.views_presets@[effective_preset_index(self.preset_index)]@)
    }

    /// A character's skin: the one chosen for it, else its default skin.
    pub fn avatar_id_of(&self, char_id: u32) -> (r: Result<u32, AvatarError>)
        ensures
            self.char_skin@.contains_key(char_id) ==> r == Ok::<u32, AvatarError>(
                self.char_skin@[char_id],
            ),
            !self.char_skin@.contains_key(char_id) ==> r == default_avatar_id_result(char_id),
    {
        match self.char_skin.get(&char_id) {
            Some(skin) => Ok(*skin),
            None => ModSettings::default_avatar_id(char_id),
        }
    }

    /// The main character's skin.
    pub fn main_avatar_id(&self) -> (r: Result<u32, AvatarError>)
        ensures
            self.char_skin@.contains_key(self.main_char) ==> r == Ok::<u32, AvatarError>(
                self.char_skin@[self.main_char],
            ),
            !self.char_skin@.contains_key(self.main_char) ==> r == default_avatar_id_result(
                self.main_char,
            ),
    {
        self.avatar_id_of(self.main_char)
    }

    /// The preset in use; an out-of-range `preset_index` falls back to preset 0.
    pub fn current_preset(&self) -> (r: &[ViewSlot])
        ensures
            slots_view(r@) == self.spec_current_preset(),
    {
        if (self.preset_index as usize) < PRESET_COUNT {
            self.views_presets[self.preset_index as usize].as_slice()
        } else {
            self.views_presets[0].as_slice()
        }
    }

    /// The avatar frame of the preset in use: the item of its first slot 5, or 0.
    pub fn avatar_frame(&self) -> (r: u32)
        ensures
            r == frame_of(self.spec_current_preset()),
    {
        let preset = self.current_preset();
        let mut i: usize = 0;
        assert(slots_view(preset@).skip(0) =~= slots_view(preset@));
        while i < preset.len()
            invariant
                i <= preset@.len(),
                slots_view(preset@) == self.spec_current_preset(),
                frame_of(slots_view(preset@)) == frame_of(slots_view(preset@).skip(i as int)),
            decreases preset@.len() - i,
        {
            assert(slots_view(preset@).skip(i as int)[0] == preset@[i as int]@);
            assert(slots_view(preset@).skip(i as int).len() > 0);
            if preset[i].slot == 5 {
                return preset[i].item_id;
            }
            assert(slots_view(preset@).skip(i as int).drop_first() =~= slots_view(preset@).skip(
                i + 1,
            ));
            i += 1;
        }
        assert(slots_view(preset@).skip(i as int).len() == 0);
        0
    }

    /// The number of preset slots.
    pub fn preset_count(&self) -> (r: usize)
        ensures
            r == PRESET_COUNT,
            r == self.views_presets@.len(),
    {
        PRESET_COUNT
    }

    pub fn hint_on(&self) -> (r: bool)
        ensures
            r == self.hint_switch,
    {
        self.hint_switch
    }

    pub fn emoji_on(&self) -> (r: bool)
        ensures
            r == self.emoji_switch,
    {
        self.emoji_switch
    }

    pub fn show_server(&self) -> (r: bool)
        ensures
            r == self.show_server,
    {
        self.show_server
    }

    pub fn anti_nickname_censorship(&self) -> (r: bool)
        ensures
            r == self.anti_nickname_censorship,
    {
        self.anti_nickname_censorship
    }

    /// Applies a sidebar change: it sets the one value it names and leaves
    /// every other value as it was.
    pub fn apply_live_patch(&mut self, patch: &LiveModPatch)
        ensures
            live_patch_applied(*old(self), *final(self), *patch),
    {
        match patch {
            LiveModPatch::Nickname(value) => {
                self.nickname = value.clone();
            },
            LiveModPatch::ShowServer(value) => {
                self.show_server = *value;
            },
            LiveModPatch::AntiNicknameCensorship(value) => {
                self.anti_nickname_censorship = *value;
            },
            LiveModPatch::EmojiSwitch(value) => {
                self.emoji_switch = *value;
            },
            LiveModPatch::HintSwitch(value) => {
                self.hint_switch = *value;
            },
        }
    }
}

/// `default_avatar_id`'s result as a spec value.
pub open spec fn default_avatar_id_result(char_id: u32) -> Result<u32, AvatarError> {
    match spec_default_avatar_id(char_id) {
        Some(v) => Ok(v),
        None => Err(
            if decimal_digits(char_id as nat).len() < 4 {
                AvatarError::IdTooShort(char_id)
            } else {
                AvatarError::OutOfRange(char_id)
            },
        ),
    }
}

/// Two Mod settings agree on everything but the five values a live patch can set.
pub open spec fn same_but_live_values(a: ModSettings, b: ModSettings) -> bool {
    &&& a.main_char == b.main_char
    &&& a.char_skin@ == b.char_skin@
    &&& a.star_character@ == b.star_character@
    &&& a.hidden_characters@ == b.hidden_characters@
    &&& a.title == b.title
    &&& a.loading_bg@ == b.loading_bg@
    &&& a.views_presets == b.views_presets
    &&& a.preset_index == b.preset_index
    &&& a.random_char_switch == b.random_char_switch
    &&& a.random_char_pool@ == b.random_char_pool@
    &&& a.verified == b.verified
    &&& a.dir@ == b.dir@
}

/// `after` is `before` with `patch` applied.
pub open spec fn live_patch_applied(before: ModSettings, after: ModSettings, patch: LiveModPatch) -> bool {
    &&& same_but_live_values(before, after)
    &&& after.nickname@ == (match patch {
        LiveModPatch::Nickname(v) => v@,
        _ => before.nickname@,
    })
    &&& after.show_server == (match patch {
        LiveModPatch::ShowServer(v) => v,
        _ => before.show_server,
    })
    &&& after.anti_nickname_censorship == (match patch {
        LiveModPatch::AntiNicknameCensorship(v) => v,
        _ => before.anti_nickname_censorship,
    })
    &&& after.emoji_switch == (match patch {
        LiveModPatch::EmojiSwitch(v) => v,
        _ => before.emoji_switch,
    })
    &&& after.hint_switch == (match patch {
        LiveModPatch::HintSwitch(v) => v,
        _ => before.hint_switch,
    })
}

fn empty_presets() -> (r: [Vec<ViewSlot>; 10])
    ensures
        forall|i: int| 0 <= i < 10 ==> (#[trigger] r@[i])@.len() == 0,
{
    [
        Vec::new(),
        Vec::new(),
        Vec::new(),
        Vec::new(),
        Vec::new(),
        Vec::new(),
        Vec::new(),
        Vec::new(),
        Vec::new(),
        Vec::new(),
    ]
}

impl Default for ModSettings {
    /// A fresh installation: main character 200001, no chosen skins, the hint,
    /// server tags and nickname-censorship bypass on, everything else off or empty.
    fn default() -> (s: Self)
        ensures
            s.main_char == 200001,
            s.char_skin@ == Map::<u32, u32>::empty(),
            s.nickname@ == Seq::<char>::empty(),
            s.star_character@ == Seq::<u32>::empty(),
            s.hidden_characters@ == Seq::<u32>::empty(),
            s.hint_switch,
            s.title == 0,
            s.loading_bg@ == Seq::<u32>::empty(),
            !s.emoji_switch,
            forall|i: int| 0 <= i < 10 ==> (#[trigger] s.views_presets@[i])@.len() == 0,
            s.preset_index == 0,
            s.show_server,
            s.anti_nickname_censorship,
            !s.random_char_switch,
            s.random_char_pool@ == Seq::<(u32, u32)>::empty(),
            s.verified == 0,
            s.dir@ == Seq::<char>::empty(),
    {
        ModSettings {
            main_char: 200001,
            char_skin: HashMap::new(),
            nickname: String::new(),
            star_character: Vec::new(),
            hidden_characters: Vec::new(),
            hint_switch: true,
            title: 0,
            loading_bg: Vec::new(),
            emoji_switch: false,
            views_presets: empty_presets(),
            preset_index: 0,
            show_server: true,
            anti_nickname_censorship: true,
            random_char_switch: false,
            random_char_pool: Vec::new(),
            verified: 0,
            dir: String::new(),
        }
    }
}

/// The general settings (`settings.json`).
#[derive(Debug, Clone)]
pub struct Settings {
    pub proxy_addr: String,
    mod_switch: bool,
    auto_update: UpdateCheckMode,
    auto_update_interval_minutes: u16,
    liqi_version: String,
    github_token: String,
    req_proxy: String,
    github_prefix: String,
    debug_log: bool,
    dir: String,
}

impl Settings {
    /// Every settings value has an update interval of at least one minute.
    pub closed spec fn wf(&self) -> bool {
        self.auto_update_interval_minutes >= 1
    }

    pub closed spec fn spec_proxy_addr(&self) -> Seq<char> {
        self.proxy_addr@
    }

    pub closed spec fn spec_mod_on(&self) -> bool {
        self.mod_switch
    }

    pub closed spec fn spec_debug_log_on(&self) -> bool {
        self.debug_log
    }

    pub closed spec fn spec_update_check_mode(&self) -> UpdateCheckMode {
        self.auto_update
    }

    pub closed spec fn spec_update_interval_minutes(&self) -> u16 {
        self.auto_update_interval_minutes
    }

    pub closed spec fn spec_liqi_version(&self) -> Seq<char> {
        self.liqi_version@
    }

    pub closed spec fn spec_github_token(&self) -> Seq<char> {
        self.github_token@
    }

    pub closed spec fn spec_req_proxy(&self) -> Seq<char> {
        self.req_proxy@
    }

    pub closed spec fn spec_github_prefix(&self) -> Seq<char> {
        self.github_prefix@
    }

    pub closed spec fn spec_data_dir(&self) -> Seq<char> {
        self.dir@
    }

    /// Settings with every value given; the interval must be at least one
    /// minute, as the settings file requires.
    pub fn from_parts(
        proxy_addr: String,
        mod_switch: bool,
        auto_update: UpdateCheckMode,
        auto_update_interval_minutes: u16,
        liqi_version: String,
        github_token: String,
        req_proxy: String,
        github_prefix: String,
        debug_log: bool,
        dir: String,
    ) -> (s: Settings)
        requires
            auto_update_interval_minutes >= 1,
        ensures
            s.wf(),
            s.spec_proxy_addr() == proxy_addr@,
            s.spec_mod_on() == mod_switch,
            s.spec_update_check_mode() == auto_update,
            s.spec_update_interval_minutes() == auto_update_interval_minutes,
            s.spec_liqi_version() == liqi_version@,
            s.spec_github_token() == github_token@,
            s.spec_req_proxy() == req_proxy@,
            s.spec_github_prefix() == github_prefix@,
            s.spec_debug_log_on() == debug_log,
            s.spec_data_dir() == dir@,
    {
        Settings {
            proxy_addr,
            mod_switch,
            auto_update,
            auto_update_interval_minutes,
            liqi_version,
            github_token,
            req_proxy,
            github_prefix,
            debug_log,
            dir,
        }
    }

    /// The same settings read from the directory `dir`.
    pub fn with_data_dir(self, dir: String) -> (s: Settings)
        ensures
            s.spec_data_dir() == dir@,
            s.spec_proxy_addr() == self.spec_proxy_addr(),
            s.spec_mod_on() == self.spec_mod_on(),
            s.spec_update_check_mode() == self.spec_update_check_mode(),
            s.spec_update_interval_minutes() == self.spec_update_interval_minutes(),
            s.spec_liqi_version() == self.spec_liqi_version(),
            s.spec_github_token() == self.spec_github_token(),
            s.spec_req_proxy() == self.spec_req_proxy(),
            s.spec_github_prefix() == self.spec_github_prefix(),
            s.spec_debug_log_on() == self.spec_debug_log_on(),
            self.wf() ==> s.wf(),
    {
        Settings { dir, ..self }
    }

    /// The directory the settings were read from.
    pub fn data_dir(&self) -> (r: &str)
        ensures
            r@ == self.spec_data_dir(),
    {
        self.dir.as_str()
    }

    pub fn mod_on(&self) -> (r: bool)
        ensures
            r == self.spec_mod_on(),
    {
        self.mod_switch
    }

    pub fn debug_log_on(&self) -> (r: bool)
        ensures
            r == self.spec_debug_log_on(),
    {
        self.debug_log
    }

    pub fn set_debug_log(&mut self, enabled: bool)
        ensures
            final(self).spec_debug_log_on() == enabled,
            final(self).spec_mod_on() == old(self).spec_mod_on(),
            final(self).spec_update_check_mode() == old(self).spec_update_check_mode(),
            final(self).spec_update_interval_minutes() == old(self).spec_update_interval_minutes(),
            final(self).spec_liqi_version() == old(self).spec_liqi_version(),
            final(self).spec_github_token() == old(self).spec_github_token(),
            final(self).spec_req_proxy() == old(self).spec_req_proxy(),
            final(self).spec_github_prefix() == old(self).spec_github_prefix(),
            final(self).spec_data_dir() == old(self).spec_data_dir(),
            final(self).spec_proxy_addr() == old(self).spec_proxy_addr(),
            old(self).wf() ==> final(self).wf(),
    {
        self.debug_log = enabled;
    }

    /// The directory of the debug log: `logs` inside the settings directory.
    /// For a Windows verbatim settings directory (`\\?\…`), std normalizes the
    /// joined path, and only that it ends with `logs` is stated.
    pub fn debug_log_dir(&self) -> (r: String)
        ensures
            ends_with(r@, "logs"@),
            !is_verbatim_path(self.spec_data_dir()) ==> (r@ == self.spec_data_dir() + "logs"@ || r@
                == self.spec_data_dir() + seq!['/'] + "logs"@ || r@ == self.spec_data_dir() + seq![
                '\\'] + "logs"@),
    {
        let name = "logs";
        proof {
            reveal_strlit("logs");
        }
        join_path(self.dir.as_str(), name)
    }

    pub fn update_check_mode(&self) -> (r: UpdateCheckMode)
        ensures
            r == self.spec_update_check_mode(),
    {
        self.auto_update
    }

    pub fn update_interval_minutes(&self) -> (r: u16)
        ensures
            r == self.spec_update_interval_minutes(),
            self.wf() ==> r >= 1,
    {
        self.auto_update_interval_minutes
    }

    pub fn set_update_check_mode(&mut self, mode: UpdateCheckMode)
        ensures
            final(self).spec_update_check_mode() == mode,
            final(self).spec_mod_on() == old(self).spec_mod_on(),
            final(self).spec_debug_log_on() == old(self).spec_debug_log_on(),
            final(self).spec_update_interval_minutes() == old(self).spec_update_interval_minutes(),
            final(self).spec_liqi_version() == old(self).spec_liqi_version(),
            final(self).spec_github_token() == old(self).spec_github_token(),
            final(self).spec_req_proxy() == old(self).spec_req_proxy(),
            final(self).spec_github_prefix() == old(self).spec_github_prefix(),
            final(self).spec_data_dir() == old(self).spec_data_dir(),
            final(self).spec_proxy_addr() == old(self).spec_proxy_addr(),
            old(self).wf() ==> final(self).wf(),
    {
        self.auto_update = mode;
    }

    /// Sets the interval, raised to at least one minute.
    pub fn set_update_interval_minutes(&mut self, minutes: u16)
        ensures
            final(self).spec_update_interval_minutes() == (if minutes == 0 {
                1
            } else {
                minutes
            }),
            final(self).wf(),
            final(self).spec_mod_on() == old(self).spec_mod_on(),
            final(self).spec_debug_log_on() == old(self).spec_debug_log_on(),
            final(self).spec_update_check_mode() == old(self).spec_update_check_mode(),
            final(self).spec_liqi_version() == old(self).spec_liqi_version(),
            final(self).spec_github_token() == old(self).spec_github_token(),
            final(self).spec_req_proxy() == old(self).spec_req_proxy(),
            final(self).spec_github_prefix() == old(self).spec_github_prefix(),
            final(self).spec_data_dir() == old(self).spec_data_dir(),
            final(self).spec_proxy_addr() == old(self).spec_proxy_addr(),
    {
        self.auto_update_interval_minutes = if minutes == 0 {
            1
        } else {
            minutes
        };
    }

    pub fn liqi_version(&self) -> (r: &str)
        ensures
            r@ == self.spec_liqi_version(),
    {
        self.liqi_version.as_str()
    }

    pub fn github_token(&self) -> (r: &str)
        ensures
            r@ == self.spec_github_token(),
    {
        self.github_token.as_str()
    }

    pub fn req_proxy(&self) -> (r: &str)
        ensures
            r@ == self.spec_req_proxy(),
    {
        self.req_proxy.as_str()
    }

    pub fn github_prefix(&self) -> (r: &str)
        ensures
            r@ == self.spec_github_prefix(),
    {
        self.github_prefix.as_str()
    }

    pub fn set_req_proxy(&mut self, value: String)
        ensures
            final(self).spec_req_proxy() == value@,
            final(self).spec_mod_on() == old(self).spec_mod_on(),
            final(self).spec_debug_log_on() == old(self).spec_debug_log_on(),
            final(self).spec_update_check_mode() == old(self).spec_update_check_mode(),
            final(self).spec_update_interval_minutes() == old(self).spec_update_interval_minutes(),
            final(self).spec_liqi_version() == old(self).spec_liqi_version(),
            final(self).spec_github_token() == old(self).spec_github_token(),
            final(self).spec_github_prefix() == old(self).spec_github_prefix(),
            final(self).spec_data_dir() == old(self).spec_data_dir(),
            final(self).spec_proxy_addr() == old(self).spec_proxy_addr(),
            old(self).wf() ==> final(self).wf(),
    {
        self.req_proxy = value;
    }

    pub fn set_github_prefix(&mut self, value: String)
        ensures
            final(self).spec_github_prefix() == value@,
            final(self).spec_mod_on() == old(self).spec_mod_on(),
            final(self).spec_debug_log_on() == old(self).spec_debug_log_on(),
            final(self).spec_update_check_mode() == old(self).spec_update_check_mode(),
            final(self).spec_update_interval_minutes() == old(self).spec_update_interval_minutes(),
            final(self).spec_liqi_version() == old(self).spec_liqi_version(),
            final(self).spec_github_token() == old(self).spec_github_token(),
            final(self).spec_req_proxy() == old(self).spec_req_proxy(),
            final(self).spec_data_dir() == old(self).spec_data_dir(),
            final(self).spec_proxy_addr() == old(self).spec_proxy_addr(),
            old(self).wf() ==> final(self).wf(),
    {
        self.github_prefix = value;
    }

    /// `url` routed through the configured GitHub prefix.
    pub fn github_url(&self, url: &str) -> (r: String)
        ensures
            r@ == spec_apply_github_prefix(self.spec_github_prefix(), url@),
    {
        apply_github_prefix(self.github_prefix.as_str(), url)
    }
}

impl Default for Settings {
    fn default() -> (s: Self)
        ensures
            s.wf(),
            s.spec_proxy_addr() == Seq::<char>::empty(),
            !s.spec_mod_on(),
            s.spec_update_check_mode() == UpdateCheckMode::Disabled,
            s.spec_update_interval_minutes() == DEFAULT_UPDATE_INTERVAL_MINUTES,
            s.spec_liqi_version() == Seq::<char>::empty(),
            s.spec_github_token() == Seq::<char>::empty(),
            s.spec_req_proxy() == Seq::<char>::empty(),
            s.spec_github_prefix() == Seq::<char>::empty(),
            !s.spec_debug_log_on(),
            s.spec_data_dir() == Seq::<char>::empty(),
    {
        Settings {
            proxy_addr: String::new(),
            mod_switch: false,
            auto_update: UpdateCheckMode::Disabled,
            auto_update_interval_minutes: DEFAULT_UPDATE_INTERVAL_MINUTES,
            liqi_version: String::new(),
            github_token: String::new(),
            req_proxy: String::new(),
            github_prefix: String::new(),
            debug_log: false,
            dir: String::new(),
        }
    }
}

} // verus!
