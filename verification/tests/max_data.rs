use majsoul_max_rs::max_data::{parse_max_data, MaxDataError};
use majsoul_max_rs::settings::ModSettings;

// A small document in the layout of the bundled `max_data.yaml`.
const SAMPLE: &str = "# game data
character:
- 200001
- 200042
- 20000125
skin:
- 400101
- 400102
title:
- 600001
item:
- 305001
- 305002
loading_image:
- 307001
emoji:
  200001:
  - 10
  - 11
  200042:
  - 12
endings:
- 410001
";

#[test]
fn parses_bundled_max_data() {
    let data = parse_max_data(SAMPLE).unwrap();

    assert!(!data.character.is_empty());
    assert!(!data.skin.is_empty());
    assert!(!data.title.is_empty());
    assert!(!data.item.is_empty());
    assert!(!data.loading_image.is_empty());
    assert!(!data.endings.is_empty());
    assert!(data.emoji.values().all(|items| !items.is_empty()));
}

#[test]
fn parses_every_section_in_order() {
    let data = parse_max_data(SAMPLE).unwrap();
    assert_eq!(data.character, vec![200001, 200042, 20000125]);
    assert_eq!(data.skin, vec![400101, 400102]);
    assert_eq!(data.title, vec![600001]);
    assert_eq!(data.item, vec![305001, 305002]);
    assert_eq!(data.loading_image, vec![307001]);
    assert_eq!(data.endings, vec![410001]);
    assert_eq!(data.emoji.len(), 2);
    assert_eq!(data.emoji[&200001], vec![10, 11]);
    assert_eq!(data.emoji[&200042], vec![12]);
}

#[test]
fn crlf_line_breaks_and_a_missing_final_break_are_accepted() {
    let crlf = SAMPLE.replace('\n', "\r\n");
    let data = parse_max_data(&crlf).unwrap();
    assert_eq!(data.character, vec![200001, 200042, 20000125]);
    let unterminated = SAMPLE.trim_end_matches('\n');
    assert_eq!(parse_max_data(unterminated).unwrap().endings, vec![410001]);
}

#[test]
fn rejects_malformed_list_items_without_panicking() {
    for content in [
        "character:\n- \n",
        "character:\n- abc\n",
        "character:\n-\n",
        "character:\n-\n- 200001\n",
    ] {
        assert!(parse_max_data(content).is_err(), "content: {content:?}");
    }
}

#[test]
fn each_refusal_names_its_reason() {
    assert_eq!(parse_max_data("character:\n- abc\n").err(), Some(MaxDataError::InvalidId(2)));
    assert_eq!(parse_max_data("character\n").err(), Some(MaxDataError::InvalidLine(1)));
    assert_eq!(parse_max_data("weapons:\n").err(), Some(MaxDataError::UnknownSection(1)));
    assert_eq!(parse_max_data("- 1\n").err(), Some(MaxDataError::OutsideSection(1)));
    assert_eq!(parse_max_data("emoji:\n  x:\n").err(), Some(MaxDataError::InvalidEmojiCharacter(2)));
    assert_eq!(parse_max_data("emoji:\n- 1\n").err(), Some(MaxDataError::EmojiWithoutCharacter));
    assert_eq!(parse_max_data("character:\n- 4294967296\n").err(), Some(MaxDataError::InvalidId(2)));
    assert_eq!(parse_max_data("").err(), Some(MaxDataError::NoCharacters));
    assert_eq!(parse_max_data("character:\n- 1\n").err(), Some(MaxDataError::NoSkins));
    let without_titles = SAMPLE.replace("title:\n- 600001\n", "");
    assert_eq!(parse_max_data(&without_titles).err(), Some(MaxDataError::NoTitles));
    let without_items = SAMPLE.replace("item:\n- 305001\n- 305002\n", "");
    assert_eq!(parse_max_data(&without_items).err(), Some(MaxDataError::NoItems));
    let without_images = SAMPLE.replace("loading_image:\n- 307001\n", "");
    assert_eq!(parse_max_data(&without_images).err(), Some(MaxDataError::NoLoadingImages));
    let without_emoji = SAMPLE.replace("emoji:\n  200001:\n  - 10\n  - 11\n  200042:\n  - 12\n", "");
    assert_eq!(parse_max_data(&without_emoji).err(), Some(MaxDataError::NoEmoji));
    let without_endings = SAMPLE.replace("endings:\n- 410001\n", "");
    assert_eq!(parse_max_data(&without_endings).err(), Some(MaxDataError::NoEndings));
    let empty_emoji = SAMPLE.replace("  200042:\n  - 12\n", "  200042:\n");
    assert_eq!(parse_max_data(&empty_emoji).err(), Some(MaxDataError::EmptyEmojiList));
}

#[test]
fn every_bundled_character_has_a_default_avatar_id() {
    let data = parse_max_data(SAMPLE).unwrap();
    for char_id in data.character {
        ModSettings::default_avatar_id(char_id)
            .unwrap_or_else(|e| panic!("角色 {char_id} 推导默认装扮失败: {e:?}"));
    }
}
