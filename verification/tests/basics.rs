use tradeassembly_runtime::digest::{digest_text, hex_text, labelled_sha256, short_hash};
use tradeassembly_runtime::json::{canonical_hash, Json, JsonMap};
use tradeassembly_runtime::text::{
    blank, contains, contains_any, decimal_text, ends_with, insert_ascending, is_before, join,
    join2, join5, lines_of, parse_numeral, signed_decimal_text, sorted_unique, split, split_words,
    starts_with, to_lower, trim,
};
use tradeassembly_runtime::text_map::TextMap;

fn texts(list: &[&str]) -> Vec<String> {
    list.iter().map(|t| t.to_string()).collect()
}

#[test]
fn texts_are_trimmed_split_and_joined() {
    assert_eq!(trim("  a b\t\n"), "a b");
    assert!(blank(" \u{3000}\t"));
    assert!(!blank(" x "));
    assert_eq!(to_lower("AbÉ"), "abÉ");
    assert_eq!(split("a//b", '/'), texts(&["a", "", "b"]));
    assert_eq!(split_words(" a  b "), texts(&["a", "b"]));
    assert_eq!(lines_of("a\r\nb\n"), texts(&["a", "b"]));
    assert_eq!(join(&texts(&["a", "b"]), ", "), "a, b");
    assert_eq!(join2("a", "b"), "ab");
    assert_eq!(join5("a", "b", "c", "d", "e"), "abcde");
}

#[test]
fn texts_are_searched() {
    assert!(contains("haystack", "st"));
    assert!(!contains("haystack", "ts"));
    assert!(contains_any("haystack", &vec!["x", "hay"]));
    assert!(starts_with("haystack", "hay"));
    assert!(ends_with("haystack", "stack"));
    assert!(!ends_with("stack", "haystack"));
}

#[test]
fn numbers_are_written_and_read() {
    assert_eq!(decimal_text(0), "0");
    assert_eq!(decimal_text(u64::MAX), "18446744073709551615");
    assert_eq!(signed_decimal_text(i64::MIN), "-9223372036854775808");
    assert_eq!(parse_numeral("007", 10), Some(7));
    assert_eq!(parse_numeral("11", 10), None);
    assert_eq!(parse_numeral("1x", 10), None);
    assert_eq!(parse_numeral("", 10), None);
}

#[test]
fn texts_are_ordered_by_their_characters() {
    assert!(is_before("a", "b"));
    assert!(is_before("a", "aa"));
    assert!(!is_before("b", "a"));
    assert_eq!(sorted_unique(&texts(&["b", "a", "b"])), texts(&["a", "b"]));
    let mut list = texts(&["a", "c"]);
    insert_ascending(&mut list, "b".to_string());
    assert_eq!(list, texts(&["a", "b", "c"]));
}

#[test]
fn maps_keep_their_keys_in_order() {
    let mut map = TextMap::new();
    map.insert("b", 2);
    map.insert("a", 1);
    map.insert("b", 3);
    assert_eq!(map.len(), 2);
    assert_eq!(map.key_at(0), "a");
    assert_eq!(map.value_at(1), &3);
    assert_eq!(map.get("c"), None);
}

#[test]
fn digests_are_those_of_the_bytes() {
    let sum = "ba7816bf8f01cfea414140de5dae2223b00361a396177a9cb410ff61f20015ad";
    assert_eq!(digest_text("abc"), sum);
    assert_eq!(short_hash("abc"), sum[..24]);
    assert_eq!(labelled_sha256(b"abc"), format!("sha256:{sum}"));
    assert_eq!(hex_text(&vec![0, 15, 255]), "000fff");
}

#[test]
fn values_are_compared_by_what_they_hold() {
    let value = Json::Object(
        JsonMap::new()
            .with("a", Json::Int(1))
            .with("b", Json::Array(vec![Json::Null, Json::Bool(true)])),
    );
    let other = Json::Object(
        JsonMap::new()
            .with("b", Json::Array(vec![Json::Null, Json::Bool(true)]))
            .with("a", Json::Large(1)),
    );
    assert!(value.equals(&other));
    assert!(value.copy().equals(&value));
    assert_eq!(value.i64_field("a"), Some(1));
    assert!(value.field("c").is_none());
    assert_eq!(canonical_hash(&value), canonical_hash(&other));
    let mut map = JsonMap::new().with("a", Json::Null);
    assert!(map.contains_key("a"));
    map.remove("a");
    assert!(!map.contains_key("a"));
}
