//! Identifiers shown in game-record logs: server zone tags, the anonymised
//! record UUID and the two account-id encodings.

use crate::text::{append_chars, chars_of, decimal_text, push_char, push_decimal};
use vstd::prelude::*;

verus! {

/// The server an account id belongs to, as the tag shown before a nickname:
/// ids below 7 << 23 are Chinese, then up to 13 << 23 Japanese, then up to
/// 16 << 23 English; any other id is unknown.
pub open spec fn zone_tag(id: u32) -> Seq<char> {
    let zone = id >> 23u32;
    if zone <= 6 {
        seq!['[', 'C', '\u{feff}', 'N', ']']
    } else if zone <= 12 {
        seq!['[', 'J', 'P', ']']
    } else if zone <= 15 {
        seq!['[', 'E', 'N', ']']
    } else {
        seq!['[', '?', '?', ']']
    }
}

/// `name` prefixed with the zone tag of account `id`.
pub fn add_zone_id(id: u32, name: &str) -> (r: String)
    ensures
        r@ == zone_tag(id) + name@,
{
    let zone = id >> 23u32;
    let mut tagged = String::new();
    if zone <= 6 {
        push_char(&mut tagged, '[');
        push_char(&mut tagged, 'C');
        push_char(&mut tagged, '\u{feff}');
        push_char(&mut tagged, 'N');
        push_char(&mut tagged, ']');
    } else if zone <= 12 {
        push_char(&mut tagged, '[');
        push_char(&mut tagged, 'J');
        push_char(&mut tagged, 'P');
        push_char(&mut tagged, ']');
    } else if zone <= 15 {
        push_char(&mut tagged, '[');
        push_char(&mut tagged, 'E');
        push_char(&mut tagged, 'N');
        push_char(&mut tagged, ']');
    } else {
        push_char(&mut tagged, '[');
        push_char(&mut tagged, '?');
        push_char(&mut tagged, '?');
        push_char(&mut tagged, ']');
    }
    let ghost tag = tagged@;
    assert(tag =~= zone_tag(id));
    append_chars(&mut tagged, &chars_of(name));
    tagged
}

/// The base-36 digit value of an ASCII digit or lowercase letter.
pub open spec fn base36_value(c: char) -> Option<nat> {
    if '0' <= c <= '9' {
        Some((c as u32 - '0' as u32) as nat)
    } else if 'a' <= c <= 'z' {
        Some((c as u32 - 'a' as u32 + 10) as nat)
    } else {
        None
    }
}

/// The ASCII digit or lowercase letter of a base-36 digit value below 36.
pub open spec fn base36_char(v: nat) -> char {
    if v < 10 {
        ('0' as u32 + v) as char
    } else {
        ('a' as u32 + v - 10) as char
    }
}

/// The anonymised form of the character at position `i` of a record UUID:
/// digits and lowercase letters are shifted by `17 + i` in base 36; other
/// characters are kept.
pub open spec fn encode_uuid_char(c: char, i: nat) -> char {
    match base36_value(c) {
        Some(v) => base36_char((v + 17 + i) % 36),
        None => c,
    }
}

pub open spec fn spec_encode_uuid(uuid: Seq<char>) -> Seq<char> {
    Seq::new(uuid.len(), |i: int| encode_uuid_char(uuid[i], i as nat))
}

/// The anonymised record UUID shown in record links.
pub fn encode_uuid(uuid: &str) -> (r: String)
    requires
        uuid@.len() <= u32::MAX - 51,
    ensures
        r@ == spec_encode_uuid(uuid@),
{
    let chars = chars_of(uuid);
    let mut buf = String::new();
    let mut i: usize = 0;
    while i < chars.len()
        invariant
            i <= chars@.len(),
            chars@ == uuid@,
            chars@.len() <= u32::MAX - 51,
            buf@ =~= spec_encode_uuid(uuid@).take(i as int),
        decreases chars@.len() - i,
    {
        let c = chars[i];
        let code = c as u32;
        let digit: Option<u32> = if '0' <= c && c <= '9' {
            Some(code - '0' as u32)
        } else if 'a' <= c && c <= 'z' {
            Some(code - 'a' as u32 + 10)
        } else {
            None
        };
        let out: char = match digit {
            Some(digit) => {
                let shifted = (digit + 17 + i as u32) % 36;
                if shifted < 10 {
                    (('0' as u32 + shifted) as u8) as char
                } else {
                    (('a' as u32 + shifted - 10) as u8) as char
                }
            },
            None => c,
        };
        assert(out == encode_uuid_char(c, i as nat));
        push_char(&mut buf, out);
        i += 1;
    }
    buf
}

/// The obfuscated account id used in spectator links.
pub open spec fn spec_encode_account_id(id: u32) -> int {
    (((7 * id + 1117113) as u32) ^ 86216345u32) + 1358437
}

/// `((7 * id + 1117113) ^ 86216345) + 1358437`, for every id on which no step overflows.
pub fn encode_account_id(id: u32) -> (r: u32)
    requires
        7 * id + 1117113 <= u32::MAX,
        spec_encode_account_id(id) <= u32::MAX,
    ensures
        r == spec_encode_account_id(id),
{
    ((7 * id + 1117113) ^ 86216345) + 1358437
}

/// One step of the friend-id scramble: a 26-bit rotation right by 9.
pub open spec fn rotate_step(z: u32) -> u32 {
    ((511u32 & z) << 17u32) | (z >> 9u32)
}

pub open spec fn rotate_steps(z: u32, n: nat) -> u32
    decreases n,
{
    if n == 0 {
        z
    } else {
        rotate_step(rotate_steps(z, (n - 1) as nat))
    }
}

pub const FRIEND_ID_LOW_MASK: u32 = 67108863;

/// The friend id of an account: the id xor 6139246, its low 26 bits rotated
/// five times, plus its high bits, plus ten million.
pub open spec fn spec_encode_account_id2(id: u32) -> int {
    let p = 6139246u32 ^ id;
    rotate_steps(p & FRIEND_ID_LOW_MASK, 5) + (p & !FRIEND_ID_LOW_MASK) + 10_000_000
}

proof fn lemma_rotate_five_times(z: u32)
    requires
        z < 0x400_0000,
    ensures
        rotate_steps(z, 5) == ((z >> 19u32) | (z << 7u32)) & 0x3ff_ffffu32,
{
    reveal_with_fuel(rotate_steps, 6);
    assert(rotate_steps(z, 5) == rotate_step(rotate_step(rotate_step(rotate_step(rotate_step(z))))));
    assert(z < 0x400_0000 ==> rotate_step(rotate_step(rotate_step(rotate_step(rotate_step(z)))))
        == ((z >> 19u32) | (z << 7u32)) & 0x3ff_ffffu32) by (bit_vector);
}

/// For account ids below 2^26 the friend id is ten million plus the id,
/// xor 6139246, rotated right by 19 within 26 bits: it lies in
/// `10_000_000 .. 10_000_000 + 2^26`, distinct ids get distinct friend ids,
/// and the id 6139246 gets exactly ten million.
pub proof fn law_friend_ids_are_distinct_and_in_range(a: u32, b: u32)
    requires
        a < 0x400_0000,
        b < 0x400_0000,
    ensures
        10_000_000 <= spec_encode_account_id2(a) < 10_000_000 + 0x400_0000,
        a != b ==> spec_encode_account_id2(a) != spec_encode_account_id2(b),
        spec_encode_account_id2(6139246) == 10_000_000,
{
    let pa = 6139246u32 ^ a;
    let pb = 6139246u32 ^ b;
    assert(a < 0x400_0000 ==> (6139246u32 ^ a) < 0x400_0000 && ((6139246u32 ^ a) & 0x3ff_ffffu32)
        == (6139246u32 ^ a) && ((6139246u32 ^ a) & !0x3ff_ffffu32) == 0) by (bit_vector);
    assert(b < 0x400_0000 ==> (6139246u32 ^ b) < 0x400_0000 && ((6139246u32 ^ b) & 0x3ff_ffffu32)
        == (6139246u32 ^ b) && ((6139246u32 ^ b) & !0x3ff_ffffu32) == 0) by (bit_vector);
    lemma_rotate_five_times(pa);
    lemma_rotate_five_times(pb);
    assert((((pa >> 19u32) | (pa << 7u32)) & 0x3ff_ffffu32) < 0x400_0000) by (bit_vector);
    assert(a != b ==> pa != pb) by (bit_vector)
        requires
            pa == 6139246u32 ^ a,
            pb == 6139246u32 ^ b,
    ;
    assert(pa < 0x400_0000 && pb < 0x400_0000 && pa != pb ==> (((pa >> 19u32) | (pa << 7u32))
        & 0x3ff_ffffu32) != (((pb >> 19u32) | (pb << 7u32)) & 0x3ff_ffffu32)) by (bit_vector);
    let p0 = 6139246u32 ^ 6139246u32;
    assert(p0 == 0) by (bit_vector)
        requires
            p0 == 6139246u32 ^ 6139246u32,
    ;
    lemma_rotate_five_times(p0);
    assert((((0u32 >> 19u32) | (0u32 << 7u32)) & 0x3ff_ffffu32) == 0) by (bit_vector);
    assert((0u32 & 0x3ff_ffffu32) == 0 && (0u32 & !0x3ff_ffffu32) == 0) by (bit_vector);
}

/// The friend id of an account, for every id on which the final sum does not overflow.
pub fn encode_account_id2(id: u32) -> (r: u32)
    requires
        spec_encode_account_id2(id) <= u32::MAX,
    ensures
        r == spec_encode_account_id2(id),
{
    let p = 6139246 ^ id;
    let s = p & !FRIEND_ID_LOW_MASK;
    let mut z = p & FRIEND_ID_LOW_MASK;
    let ghost z0 = z;
    let mut k: u32 = 0;
    while k < 5
        invariant
            k <= 5,
            z == rotate_steps(z0, k as nat),
        decreases 5 - k,
    {
        z = ((511 & z) << 17) | (z >> 9);
        k += 1;
    }
    z + s + 10_000_000
}


/// An account listed in a game record's head.
pub struct RecordAccount {
    pub seat: u32,
    pub account_id: u32,
    pub nickname: String,
}

/// Both id encodings of this account can be computed without overflow.
pub open spec fn record_id_fits(id: u32) -> bool {
    &&& 7 * id + 1117113 <= u32::MAX
    &&& spec_encode_account_id(id) <= u32::MAX
    &&& spec_encode_account_id2(id) <= u32::MAX
}

/// The wind of a seat, as the record log names it.
pub open spec fn seat_label(seat: u32) -> Seq<char> {
    if seat == 0 {
        "东家："@
    } else if seat == 1 {
        "南家："@
    } else if seat == 2 {
        "西家："@
    } else if seat == 3 {
        "北家："@
    } else {
        Seq::empty()
    }
}

/// Seats are named by the winds in seat order, East, South, West, North,
/// each followed by `家：`; a seat past the fourth has no name.
pub proof fn law_seat_labels_follow_the_winds(seat: u32)
    ensures
        seat < 4 ==> seat_label(seat) == seq!["东南西北"@[seat as int], '家', '：'],
        seat >= 4 ==> seat_label(seat) == Seq::<char>::empty(),
{
    reveal_strlit("东南西北");
    reveal_strlit("东家：");
    reveal_strlit("南家：");
    reveal_strlit("西家：");
    reveal_strlit("北家：");
    assert(seat == 0 ==> seat_label(seat) =~= seq!["东南西北"@[seat as int], '家', '：']);
    assert(seat == 1 ==> seat_label(seat) =~= seq!["东南西北"@[seat as int], '家', '：']);
    assert(seat == 2 ==> seat_label(seat) =~= seq!["东南西北"@[seat as int], '家', '：']);
    assert(seat == 3 ==> seat_label(seat) =~= seq!["东南西北"@[seat as int], '家', '：']);
}

/// The start of an account's log lines: its seat and whether it is the
/// player's own.
pub open spec fn entry_head(self_account_id: u32, acc: RecordAccount) -> Seq<char> {
    seat_label(acc.seat) + (if acc.account_id == self_account_id {
        "（自己）"@
    } else {
        Seq::empty()
    })
}

/// The account's tagged nickname, id and friend id.
pub open spec fn entry_ids(acc: RecordAccount) -> Seq<char> {
    zone_tag(acc.account_id) + acc.nickname@ + "\n账号id: "@ + decimal_text(acc.account_id as nat)
        + "\t加好友id: "@ + decimal_text(spec_encode_account_id2(acc.account_id) as nat)
}

/// The account's spectator links under the record UUID and the anonymised UUID.
pub open spec fn entry_links(uuid: Seq<char>, acc: RecordAccount) -> Seq<char> {
    let anonymous_id = decimal_text(spec_encode_account_id(acc.account_id) as nat);
    "\n主视角牌谱链接: "@ + uuid + "_a"@ + anonymous_id + "\n主视角牌谱链接(匿名): "@
        + spec_encode_uuid(uuid) + "_a"@ + anonymous_id + "_2\n\n"@
}

/// The log lines of one account of a record.
pub open spec fn record_entry(uuid: Seq<char>, self_account_id: u32, acc: RecordAccount) -> Seq<char> {
    entry_head(self_account_id, acc) + entry_ids(acc) + entry_links(uuid, acc)
}

pub open spec fn record_entries(uuid: Seq<char>, self_account_id: u32, accounts: Seq<RecordAccount>) -> Seq<char>
    decreases accounts.len(),
{
    if accounts.len() == 0 {
        Seq::empty()
    } else {
        record_entries(uuid, self_account_id, accounts.drop_last()) + record_entry(
            uuid,
            self_account_id,
            accounts.last(),
        )
    }
}

/// The log written when a game record is opened.
pub open spec fn spec_game_record_log(uuid: Seq<char>, self_account_id: u32, accounts: Seq<RecordAccount>) -> Seq<char> {
    "发现读入牌谱！\n"@ + record_entries(uuid, self_account_id, accounts)
        + "注意：只有在同一服务器才能添加好友！"@
}

fn append_str(s: &mut String, tail: &str)
    ensures
        final(s)@ == old(s)@ + tail@,
{
    append_chars(s, chars_of(tail).as_slice());
}

fn push_entry_head(logs: &mut String, self_account_id: u32, acc: &RecordAccount)
    ensures
        final(logs)@ == old(logs)@ + entry_head(self_account_id, *acc),
{
    let ghost start = logs@;
    if acc.seat == 0 {
        append_str(logs, "东家：");
    } else if acc.seat == 1 {
        append_str(logs, "南家：");
    } else if acc.seat == 2 {
        append_str(logs, "西家：");
    } else if acc.seat == 3 {
        append_str(logs, "北家：");
    }
    let ghost mid = logs@;
    assert(mid =~= start + seat_label(acc.seat));
    if acc.account_id == self_account_id {
        append_str(logs, "（自己）");
    }
    assert(logs@ =~= start + entry_head(self_account_id, *acc));
}

fn push_entry_ids(logs: &mut String, acc: &RecordAccount)
    requires
        record_id_fits(acc.account_id),
    ensures
        final(logs)@ == old(logs)@ + entry_ids(*acc),
{
    let ghost start = logs@;
    let tagged = add_zone_id(acc.account_id, acc.nickname.as_str());
    append_str(logs, tagged.as_str());
    append_str(logs, "\n账号id: ");
    push_decimal(logs, acc.account_id);
    append_str(logs, "\t加好友id: ");
    push_decimal(logs, encode_account_id2(acc.account_id));
    assert(logs@ =~= start + entry_ids(*acc));
}

fn push_entry_links(logs: &mut String, uuid: &str, anonymous_uuid: &str, acc: &RecordAccount)
    requires
        anonymous_uuid@ == spec_encode_uuid(uuid@),
        record_id_fits(acc.account_id),
    ensures
        final(logs)@ == old(logs)@ + entry_links(uuid@, *acc),
{
    let ghost start = logs@;
    let anonymous_id = encode_account_id(acc.account_id);
    append_str(logs, "\n主视角牌谱链接: ");
    append_str(logs, uuid);
    append_str(logs, "_a");
    push_decimal(logs, anonymous_id);
    append_str(logs, "\n主视角牌谱链接(匿名): ");
    append_str(logs, anonymous_uuid);
    append_str(logs, "_a");
    push_decimal(logs, anonymous_id);
    append_str(logs, "_2\n\n");
    assert(logs@ =~= start + entry_links(uuid@, *acc));
}

fn push_record_entry(
    logs: &mut String,
    uuid: &str,
    anonymous_uuid: &str,
    self_account_id: u32,
    acc: &RecordAccount,
)
    requires
        anonymous_uuid@ == spec_encode_uuid(uuid@),
        record_id_fits(acc.account_id),
    ensures
        final(logs)@ == old(logs)@ + record_entry(uuid@, self_account_id, *acc),
{
    let ghost start = logs@;
    push_entry_head(logs, self_account_id, acc);
    push_entry_ids(logs, acc);
    push_entry_links(logs, uuid, anonymous_uuid, acc);
    assert(logs@ =~= start + record_entry(uuid@, self_account_id, *acc));
}

/// `fetchGameRecord`: the log that lists, for each account of the record,
/// its seat, nickname, ids and spectator links.
pub fn game_record_log(uuid: &str, self_account_id: u32, accounts: &[RecordAccount]) -> (r: String)
    requires
        uuid@.len() <= u32::MAX - 51,
        forall|i: int| 0 <= i < accounts@.len() ==> record_id_fits(#[trigger] accounts@[i].account_id),
    ensures
        r@ == spec_game_record_log(uuid@, self_account_id, accounts@),
{
    let anonymous_uuid = encode_uuid(uuid);
    let mut logs = String::new();
    append_str(&mut logs, "发现读入牌谱！\n");
    let ghost head = logs@;
    let mut i: usize = 0;
    assert(accounts@.take(0) =~= Seq::<RecordAccount>::empty());
    while i < accounts.len()
        invariant
            i <= accounts@.len(),
            anonymous_uuid@ == spec_encode_uuid(uuid@),
            head == "发现读入牌谱！\n"@,
            forall|k: int| 0 <= k < accounts@.len() ==> record_id_fits(#[trigger] accounts@[k].account_id),
            logs@ == head + record_entries(uuid@, self_account_id, accounts@.take(i as int)),
        decreases accounts@.len() - i,
    {
        let ghost before = logs@;
        assert(record_id_fits(accounts@[i as int].account_id));
        push_record_entry(&mut logs, uuid, anonymous_uuid.as_str(), self_account_id, &accounts[i]);
        proof {
            assert(accounts@.take(i + 1).drop_last() =~= accounts@.take(i as int));
            assert(accounts@.take(i + 1).last() == accounts@[i as int]);
            assert(logs@ =~= before + record_entry(uuid@, self_account_id, accounts@[i as int]));
        }
        i += 1;
    }
    assert(accounts@.take(accounts@.len() as int) =~= accounts@);
    append_str(&mut logs, "注意：只有在同一服务器才能添加好友！");
    logs
}

} // verus!
