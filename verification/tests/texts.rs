//! Texts, lists and sorting in general.
use ajour::addon::{are_same_folders, AddonFolder};
use ajour::config::ChannelMap;
use ajour::addon::ReleaseChannel;
use ajour::order::Order;
use ajour::search::contains_string;
use ajour::text::{
    characters, compare_text, contains_text, is_decimal_of, lower, parse_u32,
};

#[test]
fn texts_are_compared_character_by_character() {
    assert_eq!(compare_text("", ""), Order::Equal);
    assert_eq!(compare_text("", "a"), Order::Less);
    assert_eq!(compare_text("b", "ab"), Order::Greater);
    assert_eq!(compare_text("ab", "abc"), Order::Less);
    assert_eq!(compare_text("Z", "a"), Order::Less);
    assert_eq!(compare_text("\u{e9}", "z"), Order::Greater);
}

#[test]
fn comparing_texts_agrees_with_std() {
    let texts = ["", "a", "A", "ab", "b", "\u{e4}", "\u{1f600}", "\u{ffff}", "a b"];
    for a in texts {
        for b in texts {
            let expected = if a < b {
                Order::Less
            } else if a == b {
                Order::Equal
            } else {
                Order::Greater
            };
            assert_eq!(compare_text(a, b), expected);
        }
    }
}

#[test]
fn characters_of_a_text() {
    assert_eq!(characters("a\u{e9}\u{1f600}"), vec!['a', '\u{e9}', '\u{1f600}']);
    assert!(characters("").is_empty());
}

#[test]
fn texts_in_texts() {
    assert!(contains_text("deadly boss mods", "boss"));
    assert!(contains_text("deadly boss mods", ""));
    assert!(contains_text("", ""));
    assert!(contains_text("aab", "ab"));
    assert!(!contains_text("deadly boss mods", "bosses"));
    assert!(!contains_text("ab", "abc"));
    assert!(contains_text("\u{1f600}\u{e9}", "\u{e9}"));
}

#[test]
fn texts_in_lowercase() {
    assert_eq!(lower(""), "");
    assert_eq!(lower("Deadly BOSS Mods"), "deadly boss mods");
    assert_eq!(lower("\u{c4}\u{3a3}"), "\u{e4}\u{3c2}");
}

#[test]
fn texts_in_lists() {
    let texts = vec!["a".to_owned(), "b".to_owned()];
    assert!(contains_string(&texts, &"b".to_owned()));
    assert!(!contains_string(&texts, &"c".to_owned()));
}

#[test]
fn decimal_texts() {
    assert!(is_decimal_of(0, "0"));
    assert!(is_decimal_of(-17, "-17"));
    assert!(is_decimal_of(i32::MIN, "-2147483648"));
    assert!(is_decimal_of(i32::MAX, "2147483647"));
    assert!(!is_decimal_of(17, "017"));
    assert!(!is_decimal_of(17, "+17"));
    assert!(!is_decimal_of(0, "-0"));
}

#[test]
fn reading_numbers() {
    assert_eq!(parse_u32("0"), Some(0));
    assert_eq!(parse_u32("+42"), Some(42));
    assert_eq!(parse_u32("0042"), Some(42));
    assert_eq!(parse_u32("4294967295"), Some(4294967295));
    assert_eq!(parse_u32("4294967296"), None);
    assert_eq!(parse_u32(""), None);
    assert_eq!(parse_u32("+"), None);
    assert_eq!(parse_u32("-1"), None);
    assert_eq!(parse_u32("1a"), None);
    assert_eq!(parse_u32("99999999999999999999999999999999"), None);
}

#[test]
fn reading_numbers_agrees_with_std() {
    for text in ["", "+", "-", "7", "+7", "-7", "++7", "7 ", "00000000000000007", "4294967296"] {
        assert_eq!(parse_u32(text), text.parse::<u32>().ok());
    }
}

#[test]
fn folders_are_compared_by_their_keys() {
    let folder = |id: &str, key: u64| AddonFolder { id: id.to_owned(), key };
    assert!(are_same_folders(&vec![folder("a", 1)], &vec![folder("b", 1)]));
    assert!(!are_same_folders(&vec![folder("a", 1)], &vec![folder("a", 2)]));
    assert!(!are_same_folders(&vec![folder("a", 1)], &vec![]));
}

#[test]
fn chosen_channels() {
    let channel = |name: &str| ReleaseChannel { name: name.to_owned() };
    let mut channels = ChannelMap::new();
    assert!(channels.get(&"a".to_owned()).is_none());
    channels.insert("a".to_owned(), channel("Stable"));
    channels.insert("b".to_owned(), channel("Beta"));
    channels.insert("a".to_owned(), channel("Alpha"));
    assert_eq!(channels.get(&"a".to_owned()), Some(&channel("Alpha")));
    assert_eq!(channels.get(&"b".to_owned()), Some(&channel("Beta")));
}
