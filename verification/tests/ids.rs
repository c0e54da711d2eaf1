use majsoul_max_rs::ids::{
    add_zone_id, encode_account_id, encode_account_id2, encode_uuid, game_record_log,
    RecordAccount,
};
use majsoul_max_rs::text::wide;

#[test]
fn zone_tags_follow_the_account_id() {
    assert_eq!(add_zone_id(0, "甲"), "[C\u{feff}N]甲");
    assert_eq!(add_zone_id((6 << 23) + 5, "乙"), "[C\u{feff}N]乙");
    assert_eq!(add_zone_id(7 << 23, "丙"), "[JP]丙");
    assert_eq!(add_zone_id(12 << 23, ""), "[JP]");
    assert_eq!(add_zone_id(15 << 23, "x"), "[EN]x");
    assert_eq!(add_zone_id(16 << 23, "y"), "[??]y");
}

#[test]
fn record_uuids_are_shifted_in_base_36() {
    // Position 0 shifts by 17, position 1 by 18, and so on; other characters stay.
    assert_eq!(encode_uuid("00"), "hi");
    assert_eq!(encode_uuid("z-"), "g-");
    assert_eq!(encode_uuid(""), "");
}

#[test]
fn account_ids_have_two_encodings() {
    assert_eq!(encode_account_id(0), ((1117113u32) ^ 86216345) + 1358437);
    assert_eq!(encode_account_id(10), ((7 * 10 + 1117113u32) ^ 86216345) + 1358437);
    let p = 6139246u32 ^ 10;
    let mut z = p & 67108863;
    for _ in 0..5 {
        z = ((511 & z) << 17) | (z >> 9);
    }
    assert_eq!(encode_account_id2(10), z + (p & !67108863) + 10_000_000);
}

#[test]
fn the_record_log_lists_each_account() {
    let accounts = vec![
        RecordAccount { seat: 0, account_id: 10, nickname: "我".to_owned() },
        RecordAccount { seat: 5, account_id: 11, nickname: "他".to_owned() },
    ];
    let log = game_record_log("ab", 10, &accounts);
    let a10 = encode_account_id(10);
    let a11 = encode_account_id(11);
    let anon = encode_uuid("ab");
    let expected = format!(
        "发现读入牌谱！\n东家：（自己）[C\u{feff}N]我\n账号id: 10\t加好友id: {}\n主视角牌谱链接: ab_a{a10}\n主视角牌谱链接(匿名): {anon}_a{a10}_2\n\n[C\u{feff}N]他\n账号id: 11\t加好友id: {}\n主视角牌谱链接: ab_a{a11}\n主视角牌谱链接(匿名): {anon}_a{a11}_2\n\n注意：只有在同一服务器才能添加好友！",
        encode_account_id2(10),
        encode_account_id2(11),
    );
    assert_eq!(log, expected);
}

#[test]
fn wide_strings_end_with_a_nul() {
    assert_eq!(wide(""), vec![0]);
    assert_eq!(wide("Ab"), vec![0x41, 0x62, 0]);
    assert_eq!(wide("雀"), vec![0x96c0, 0]);
    assert_eq!(wide("😀"), vec![0xD83D, 0xDE00, 0]);
    let expected: Vec<u16> = "雀魂😀x".encode_utf16().chain(std::iter::once(0)).collect();
    assert_eq!(wide("雀魂😀x"), expected);
}

#[test]
fn friend_ids_are_distinct_and_in_range() {
    assert_eq!(encode_account_id2(6139246), 10_000_000);
    let ids = [0u32, 1, 2, 12345678, (1 << 26) - 1];
    let codes: Vec<u32> = ids.iter().map(|&id| encode_account_id2(id)).collect();
    for (i, c) in codes.iter().enumerate() {
        assert!((10_000_000..10_000_000 + (1 << 26)).contains(c));
        for d in &codes[i + 1..] {
            assert_ne!(c, d);
        }
    }
}
