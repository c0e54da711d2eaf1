//! The game-data inventory (`max_data.yaml`): which characters, skins,
//! titles, items, loading images, emoji and endings exist.
//!
//! The file is a small YAML subset: `section:` headers at column 0, list items
//! `- <id>`, and inside `emoji:` per-character headers `  <character id>:`
//! followed by the emoji ids of that character. Blank lines and lines whose
//! first non-blank character is `#` are ignored.

use crate::text::{
    chars_eq, chars_of, parse_unsigned, parse_unsigned_chars, sub_chars, trim, trim_chars, trim_end_char,
    trim_end_char_chars,
};
use std::collections::HashMap;
use vstd::prelude::*;

verus! {

broadcast use vstd::std_specs::hash::group_hash_axioms;

/// Every known id, by kind.
pub struct MaxData {
    pub character: Vec<u32>,
    pub skin: Vec<u32>,
    pub title: Vec<u32>,
    pub item: Vec<u32>,
    pub loading_image: Vec<u32>,
    /// Emoji ids by character id.
    pub emoji: HashMap<u32, Vec<u32>>,
    pub endings: Vec<u32>,
}

pub struct MaxDataView {
    pub character: Seq<u32>,
    pub skin: Seq<u32>,
    pub title: Seq<u32>,
    pub item: Seq<u32>,
    pub loading_image: Seq<u32>,
    pub emoji: Map<u32, Seq<u32>>,
    pub endings: Seq<u32>,
}

pub open spec fn emoji_view(m: Map<u32, Vec<u32>>) -> Map<u32, Seq<u32>> {
    m.map_values(|v: Vec<u32>| v@)
}

impl View for MaxData {
    type V = MaxDataView;

    open spec fn view(&self) -> MaxDataView {
        MaxDataView {
            character: self.character@,
            skin: self.skin@,
            title: self.title@,
            item: self.item@,
            loading_image: self.loading_image@,
            emoji: emoji_view(self.emoji@),
            endings: self.endings@,
        }
    }
}

impl MaxData {
    /// No ids at all.
    pub fn new() -> (d: MaxData)
        ensures
            d@ == empty_data(),
            d.emoji@ == Map::<u32, Vec<u32>>::empty(),
    {
        let d = MaxData {
            character: Vec::new(),
            skin: Vec::new(),
            title: Vec::new(),
            item: Vec::new(),
            loading_image: Vec::new(),
            emoji: HashMap::new(),
            endings: Vec::new(),
        };
        assert(emoji_view(d.emoji@) =~= Map::<u32, Seq<u32>>::empty());
        d
    }
}

/// Why a `max_data.yaml` document was refused. Line numbers count from 1.
#[derive(Debug, Clone, Copy, PartialEq, Eq, Structural)]
pub enum MaxDataError {
    /// A header without a trailing `:`, or a line that is neither a header nor a list item.
    InvalidLine(usize),
    /// A header that names none of the seven sections.
    UnknownSection(usize),
    /// An emoji character header whose id is not a `u32`.
    InvalidEmojiCharacter(usize),
    /// A list item whose id is not a `u32`.
    InvalidId(usize),
    /// An emoji id before any character header of the `emoji` section.
    EmojiWithoutCharacter,
    /// A list item before the first section header.
    OutsideSection(usize),
    NoCharacters,
    NoSkins,
    NoTitles,
    NoItems,
    NoLoadingImages,
    NoEmoji,
    /// Some emoji character lists no emoji.
    EmptyEmojiList,
    NoEndings,
}

#[derive(Debug, Clone, Copy, PartialEq, Eq, Structural)]
pub enum Section {
    Start,
    Character,
    Skin,
    Title,
    Item,
    LoadingImage,
    Emoji,
    Endings,
}

/// The section that a header names.
pub open spec fn section_named(name: Seq<char>) -> Option<Section> {
    if name == "character"@ {
        Some(Section::Character)
    } else if name == "skin"@ {
        Some(Section::Skin)
    } else if name == "title"@ {
        Some(Section::Title)
    } else if name == "item"@ {
        Some(Section::Item)
    } else if name == "loading_image"@ {
        Some(Section::LoadingImage)
    } else if name == "emoji"@ {
        Some(Section::Emoji)
    } else if name == "endings"@ {
        Some(Section::Endings)
    } else {
        None
    }
}

pub struct ParseState {
    pub data: MaxDataView,
    pub section: Section,
    pub emoji_character: Option<u32>,
}

pub open spec fn empty_data() -> MaxDataView {
    MaxDataView {
        character: Seq::empty(),
        skin: Seq::empty(),
        title: Seq::empty(),
        item: Seq::empty(),
        loading_image: Seq::empty(),
        emoji: Map::empty(),
        endings: Seq::empty(),
    }
}

pub open spec fn initial_state() -> ParseState {
    ParseState { data: empty_data(), section: Section::Start, emoji_character: None }
}

pub open spec fn starts_with_space(line: Seq<char>) -> bool {
    line.len() > 0 && line[0] == ' '
}

pub open spec fn starts_with_two_spaces(line: Seq<char>) -> bool {
    line.len() >= 2 && line[0] == ' ' && line[1] == ' '
}

pub open spec fn is_list_item(t: Seq<char>) -> bool {
    t.len() >= 2 && t[0] == '-' && t[1] == ' '
}

pub open spec fn ends_with_colon(t: Seq<char>) -> bool {
    t.len() > 0 && t.last() == ':'
}

pub open spec fn parse_id(s: Seq<char>) -> Option<u32> {
    match parse_unsigned(s, u32::MAX as nat) {
        Some(n) => Some(n as u32),
        None => None,
    }
}

/// Appends `id` to the list of the current section.
pub open spec fn add_item(st: ParseState, id: u32, n: usize) -> Result<ParseState, MaxDataError> {
    let d = st.data;
    match st.section {
        Section::Character => Ok(ParseState { data: MaxDataView { character: d.character.push(id), ..d }, ..st }),
        Section::Skin => Ok(ParseState { data: MaxDataView { skin: d.skin.push(id), ..d }, ..st }),
        Section::Title => Ok(ParseState { data: MaxDataView { title: d.title.push(id), ..d }, ..st }),
        Section::Item => Ok(ParseState { data: MaxDataView { item: d.item.push(id), ..d }, ..st }),
        Section::LoadingImage => Ok(ParseState { data: MaxDataView { loading_image: d.loading_image.push(id), ..d }, ..st }),
        Section::Endings => Ok(ParseState { data: MaxDataView { endings: d.endings.push(id), ..d }, ..st }),
        Section::Emoji => match st.emoji_character {
            Some(c) => Ok(ParseState { data: MaxDataView { emoji: d.emoji.insert(c, d.emoji[c].push(id)), ..d }, ..st }),
            None => Err(MaxDataError::EmojiWithoutCharacter),
        },
        Section::Start => Err(MaxDataError::OutsideSection(n)),
    }
}

/// The effect of line number `n` (its text without the line break).
pub open spec fn parse_line(st: ParseState, line: Seq<char>, n: usize) -> Result<ParseState, MaxDataError> {
    let t = trim(line);
    if t.len() == 0 || t[0] == '#' {
        Ok(st)
    } else if !starts_with_space(line) && !is_list_item(t) {
        if !ends_with_colon(t) {
            Err(MaxDataError::InvalidLine(n))
        } else {
            match section_named(trim_end_char(t, ':')) {
                Some(sec) => Ok(ParseState { data: st.data, section: sec, emoji_character: None }),
                None => Err(MaxDataError::UnknownSection(n)),
            }
        }
    } else if st.section == Section::Emoji && starts_with_two_spaces(line) && ends_with_colon(t) {
        match parse_id(trim_end_char(t, ':')) {
            Some(id) => {
                let emoji = if st.data.emoji.contains_key(id) {
                    st.data.emoji
                } else {
                    st.data.emoji.insert(id, Seq::empty())
                };
                Ok(ParseState { data: MaxDataView { emoji: emoji, ..st.data }, section: st.section, emoji_character: Some(id) })
            },
            None => Err(MaxDataError::InvalidEmojiCharacter(n)),
        }
    } else if !is_list_item(t) {
        Err(MaxDataError::InvalidLine(n))
    } else {
        match parse_id(t.skip(2)) {
            Some(id) => add_item(st, id, n),
            None => Err(MaxDataError::InvalidId(n)),
        }
    }
}

/// Reading `s` one character at a time: the state after its complete lines,
/// the text of the line still open, and how many line breaks were read.
pub open spec fn scan(s: Seq<char>) -> (Result<ParseState, MaxDataError>, Seq<char>, nat)
    decreases s.len(),
{
    if s.len() == 0 {
        (Ok(initial_state()), Seq::empty(), 0)
    } else {
        let (r, cur, n) = scan(s.drop_last());
        if s.last() == '\n' {
            let r2 = match r {
                Ok(st) => parse_line(st, cur, (n + 1) as usize),
                Err(e) => Err(e),
            };
            (r2, Seq::empty(), n + 1)
        } else {
            (r, cur.push(s.last()), n)
        }
    }
}

/// The checks made once every line has been read.
pub open spec fn check_complete(d: MaxDataView) -> Result<MaxDataView, MaxDataError> {
    if d.character.len() == 0 {
        Err(MaxDataError::NoCharacters)
    } else if d.skin.len() == 0 {
        Err(MaxDataError::NoSkins)
    } else if d.title.len() == 0 {
        Err(MaxDataError::NoTitles)
    } else if d.item.len() == 0 {
        Err(MaxDataError::NoItems)
    } else if d.loading_image.len() == 0 {
        Err(MaxDataError::NoLoadingImages)
    } else if d.emoji.dom() == Set::<u32>::empty() {
        Err(MaxDataError::NoEmoji)
    } else if exists|c: u32| d.emoji.contains_key(c) && d.emoji[c].len() == 0 {
        Err(MaxDataError::EmptyEmojiList)
    } else if d.endings.len() == 0 {
        Err(MaxDataError::NoEndings)
    } else {
        Ok(d)
    }
}

/// The outcome of reading a whole `max_data.yaml` document.
pub open spec fn spec_parse_max_data(s: Seq<char>) -> Result<MaxDataView, MaxDataError> {
    let (r, cur, n) = scan(s);
    match r {
        Ok(st) => match parse_line(st, cur, (n + 1) as usize) {
            Ok(st2) => check_complete(st2.data),
            Err(e) => Err(e),
        },
        Err(e) => Err(e),
    }
}

proof fn lemma_scan_count(s: Seq<char>)
    ensures
        scan(s).2 <= s.len(),
    decreases s.len(),
{
    if s.len() > 0 {
        lemma_scan_count(s.drop_last());
    }
}

proof fn lemma_scan_error_sticks(s: Seq<char>, j: int, e: MaxDataError)
    requires
        0 <= j <= s.len(),
        scan(s.take(j)).0 == Err::<ParseState, MaxDataError>(e),
    ensures
        scan(s).0 == Err::<ParseState, MaxDataError>(e),
    decreases s.len() - j,
{
    if j < s.len() {
        assert(s.take(j + 1).drop_last() == s.take(j));
        lemma_scan_error_sticks(s, j + 1, e);
    } else {
        assert(s.take(j) == s);
    }
}

/// The parser's working state.
struct Scanner {
    data: MaxData,
    section: Section,
    emoji_character: Option<u32>,
    /// The emoji character ids, each once.
    emoji_keys: Vec<u32>,
}

impl Scanner {
    spec fn model(&self) -> ParseState {
        ParseState { data: self.data@, section: self.section, emoji_character: self.emoji_character }
    }

    spec fn inv(&self) -> bool {
        &&& self.emoji_keys@.no_duplicates()
        &&& self.emoji_keys@.to_set() == self.data.emoji@.dom()
        &&& (self.emoji_character matches Some(c) ==> self.data.emoji@.contains_key(c))
    }

    fn add_item(&mut self, id: u32, n: usize) -> (r: Result<(), MaxDataError>)
        requires
            old(self).inv(),
        ensures
            final(self).inv(),
            match add_item(old(self).model(), id, n) {
                Ok(st) => r is Ok && final(self).model() == st,
                Err(e) => r == Err::<(), MaxDataError>(e),
            },
    {
        match self.section {
            Section::Character => {
                self.data.character.push(id);
            },
            Section::Skin => {
                self.data.skin.push(id);
            },
            Section::Title => {
                self.data.title.push(id);
            },
            Section::Item => {
                self.data.item.push(id);
            },
            Section::LoadingImage => {
                self.data.loading_image.push(id);
            },
            Section::Endings => {
                self.data.endings.push(id);
            },
            Section::Emoji => {
                match self.emoji_character {
                    Some(c) => {
                        let ghost before = self.data.emoji@;
                        let mut list = match self.data.emoji.remove(&c) {
                            Some(l) => l,
                            None => Vec::new(),
                        };
                        assert(list == before[c]);
                        list.push(id);
                        self.data.emoji.insert(c, list);
                        proof {
                            assert(self.data.emoji@ == before.insert(c, list));
                            assert(self.data.emoji@.dom() =~= before.dom());
                            assert(emoji_view(self.data.emoji@) =~= emoji_view(before).insert(
                                c,
                                emoji_view(before)[c].push(id),
                            ));
                        }
                    },
                    None => {
                        return Err(MaxDataError::EmojiWithoutCharacter);
                    },
                }
            },
            Section::Start => {
                return Err(MaxDataError::OutsideSection(n));
            },
        }
        Ok(())
    }

    fn start_emoji_character(&mut self, id: u32)
        requires
            old(self).inv(),
        ensures
            final(self).inv(),
            final(self).section == old(self).section,
            final(self).emoji_character == Some(id),
            final(self).data@ == (MaxDataView {
                emoji: if old(self).data@.emoji.contains_key(id) {
                    old(self).data@.emoji
                } else {
                    old(self).data@.emoji.insert(id, Seq::empty())
                },
                ..old(self).data@
            }),
    {
        if !self.data.emoji.contains_key(&id) {
            let ghost before = self.data.emoji@;
            let ghost old_keys = self.emoji_keys@;
            assert(!old_keys.to_set().contains(id));
            self.data.emoji.insert(id, Vec::new());
            self.emoji_keys.push(id);
            proof {
                assert forall|a: u32| #[trigger]
                    self.emoji_keys@.contains(a) == (old_keys.contains(a) || a == id) by {
                    if a == id {
                        assert(self.emoji_keys@[old_keys.len() as int] == id);
                    } else if old_keys.contains(a) {
                        let k = choose|k: int| 0 <= k < old_keys.len() && old_keys[k] == a;
                        assert(self.emoji_keys@[k] == a);
                    }
                }
                assert(self.emoji_keys@.to_set() =~= self.data.emoji@.dom());
                assert(self.emoji_keys@.no_duplicates());
                assert(emoji_view(self.data.emoji@) =~= emoji_view(before).insert(
                    id,
                    Seq::empty(),
                ));
            }
        }
        self.emoji_character = Some(id);
    }

    fn section_of(name: &[char]) -> (r: Option<Section>)
        ensures
            r == section_named(name@),
    {
        if chars_eq(name, "character") {
            Some(Section::Character)
        } else if chars_eq(name, "skin") {
            Some(Section::Skin)
        } else if chars_eq(name, "title") {
            Some(Section::Title)
        } else if chars_eq(name, "item") {
            Some(Section::Item)
        } else if chars_eq(name, "loading_image") {
            Some(Section::LoadingImage)
        } else if chars_eq(name, "emoji") {
            Some(Section::Emoji)
        } else if chars_eq(name, "endings") {
            Some(Section::Endings)
        } else {
            None
        }
    }

    fn parse_line(&mut self, line: &[char], n: usize) -> (r: Result<(), MaxDataError>)
        requires
            old(self).inv(),
        ensures
            final(self).inv(),
            match parse_line(old(self).model(), line@, n) {
                Ok(st) => r is Ok && final(self).model() == st,
                Err(e) => r == Err::<(), MaxDataError>(e),
            },
    {
        let t = trim_chars(line);
        if t.len() == 0 || t[0] == '#' {
            return Ok(());
        }
        let first_space = line.len() > 0 && line[0] == ' ';
        let list_item = t.len() >= 2 && t[0] == '-' && t[1] == ' ';
        let colon = t[t.len() - 1] == ':';
        if !first_space && !list_item {
            if !colon {
                return Err(MaxDataError::InvalidLine(n));
            }
            let name = trim_end_char_chars(&t, ':');
            match Self::section_of(&name) {
                Some(sec) => {
                    self.section = sec;
                    self.emoji_character = None;
                    return Ok(());
                },
                None => {
                    return Err(MaxDataError::UnknownSection(n));
                },
            }
        }
        let two_spaces = line.len() >= 2 && line[0] == ' ' && line[1] == ' ';
        if self.section == Section::Emoji && two_spaces && colon {
            let name = trim_end_char_chars(&t, ':');
            match parse_unsigned_chars(&name, 0xffff_ffff) {
                Some(id) => {
                    self.start_emoji_character(id as u32);
                    return Ok(());
                },
                None => {
                    return Err(MaxDataError::InvalidEmojiCharacter(n));
                },
            }
        }
        if !list_item {
            return Err(MaxDataError::InvalidLine(n));
        }
        let digits = sub_chars(&t, 2, t.len());
        assert(digits@ == t@.skip(2));
        match parse_unsigned_chars(&digits, 0xffff_ffff) {
            Some(id) => self.add_item(id as u32, n),
            None => Err(MaxDataError::InvalidId(n)),
        }
    }

    #[verifier::loop_isolation(false)]
    fn check_complete(self) -> (r: Result<MaxData, MaxDataError>)
        requires
            self.inv(),
        ensures
            match check_complete(self.data@) {
                Ok(d) => r is Ok && r->Ok_0@ == d,
                Err(e) => r == Err::<MaxData, MaxDataError>(e),
            },
    {
        let d = self.data;
        let ghost dv = d@;
        if d.character.len() == 0 {
            return Err(MaxDataError::NoCharacters);
        }
        if d.skin.len() == 0 {
            return Err(MaxDataError::NoSkins);
        }
        if d.title.len() == 0 {
            return Err(MaxDataError::NoTitles);
        }
        if d.item.len() == 0 {
            return Err(MaxDataError::NoItems);
        }
        if d.loading_image.len() == 0 {
            return Err(MaxDataError::NoLoadingImages);
        }
        let keys = self.emoji_keys;
        if keys.len() == 0 {
            assert forall|a: u32| !#[trigger] keys@.contains(a) by {}
            assert(dv.emoji.dom() =~= Set::<u32>::empty());
            return Err(MaxDataError::NoEmoji);
        }
        assert(keys@.to_set().contains(keys@[0]));
        assert(dv.emoji.dom().contains(keys@[0]));
        let mut i: usize = 0;
        while i < keys.len()
            invariant
                i <= keys@.len(),
                keys@.to_set() == d.emoji@.dom(),
                dv == d@,
                dv.character.len() > 0,
                dv.skin.len() > 0,
                dv.title.len() > 0,
                dv.item.len() > 0,
                dv.loading_image.len() > 0,
                dv.emoji.dom() != Set::<u32>::empty(),
                forall|k: int| 0 <= k < i ==> dv.emoji[#[trigger] keys@[k]].len() > 0,
            decreases keys@.len() - i,
        {
            let k = keys[i];
            assert(keys@.to_set().contains(k));
            match d.emoji.get(&k) {
                Some(list) => {
                    if list.len() == 0 {
                        assert(d.emoji@.contains_key(k));
                        assert(dv.emoji[k] == list@);
                        assert(dv.emoji.contains_key(k) && dv.emoji[k].len() == 0);
                        return Err(MaxDataError::EmptyEmojiList);
                    }
                },
                None => {
                    assert(false);
                },
            }
            i += 1;
        }
        assert forall|c: u32| dv.emoji.contains_key(c) implies dv.emoji[c].len() != 0 by {
            assert(keys@.to_set().contains(c));
            let k = choose|k: int| 0 <= k < keys@.len() && keys@[k] == c;
            assert(dv.emoji[keys@[k]].len() > 0);
        }
        if d.endings.len() == 0 {
            return Err(MaxDataError::NoEndings);
        }
        Ok(d)
    }
}

/// Reads a `max_data.yaml` document: every id of every section, in file
/// order, or the first problem found.
pub fn parse_max_data(content: &str) -> (r: Result<MaxData, MaxDataError>)
    ensures
        match spec_parse_max_data(content@) {
            Ok(d) => r is Ok && r->Ok_0@ == d,
            Err(e) => r == Err::<MaxData, MaxDataError>(e),
        },
{
    let chars = chars_of(content);
    let mut sc = Scanner {
        data: MaxData::new(),
        section: Section::Start,
        emoji_character: None,
        emoji_keys: Vec::new(),
    };
    let mut cur: Vec<char> = Vec::new();
    let mut lines: usize = 0;
    let mut i: usize = 0;
    assert(chars@.take(0) =~= Seq::<char>::empty());
    assert forall|a: u32| !#[trigger] sc.emoji_keys@.contains(a) by {}
    assert(sc.emoji_keys@.to_set() =~= sc.data.emoji@.dom());
    while i < chars.len()
        invariant
            i <= chars@.len(),
            chars@ == content@,
            sc.inv(),
            scan(chars@.take(i as int)).0 == Ok::<ParseState, MaxDataError>(sc.model()),
            scan(chars@.take(i as int)).1 == cur@,
            scan(chars@.take(i as int)).2 == lines as nat,
            lines + cur@.len() <= i,
        decreases chars@.len() - i,
    {
        let c = chars[i];
        assert(chars@.take(i + 1).drop_last() == chars@.take(i as int));
        assert(chars@.take(i + 1).last() == c);
        if c == '\n' {
            let r = sc.parse_line(&cur, lines + 1);
            match r {
                Ok(()) => {},
                Err(e) => {
                    proof {
                        lemma_scan_error_sticks(chars@, i + 1, e);
                    }
                    return Err(e);
                },
            }
            cur = Vec::new();
            lines += 1;
        } else {
            cur.push(c);
        }
        i += 1;
    }
    assert(chars@.take(i as int) == chars@);
    if lines < usize::MAX {
        match sc.parse_line(&cur, lines + 1) {
            Ok(()) => {},
            Err(e) => {
                return Err(e);
            },
        }
    } else {
        assert(cur@.len() == 0);
        assert(trim(cur@).len() == 0);
    }
    sc.check_complete()
}

} // verus!
