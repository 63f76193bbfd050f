use jaeger_client_rust::text_map::str_eq;
use jaeger_client_rust::TextMap;

fn text(s: &str) -> String {
    s.to_owned()
}

#[test]
fn texts_are_compared_by_their_characters() {
    assert!(str_eq("abc", "abc"));
    assert!(str_eq("", ""));
    assert!(!str_eq("abc", "abd"));
    assert!(!str_eq("abc", "ab"));
    assert!(!str_eq("e", "\u{e9}"));
}

#[test]
fn map_starts_empty() {
    let map: TextMap<String> = TextMap::new();
    assert_eq!(map.len(), 0);
    assert!(map.is_empty());
    assert!(map.get("a").is_none());
    assert!(!map.contains_key("a"));
    assert!(map.entry_at(0).is_none());
    assert_eq!(map.position("a"), None);
}

#[test]
fn map_insert_returns_the_earlier_value() {
    let mut map: TextMap<String> = TextMap::new();
    assert_eq!(map.insert(text("a"), text("1")), None);
    assert_eq!(map.insert(text("b"), text("2")), None);
    assert_eq!(map.insert(text("a"), text("3")), Some(text("1")));
    assert_eq!(map.len(), 2);
    assert!(!map.is_empty());
    assert_eq!(map.get("a"), Some(&text("3")));
    assert_eq!(map.get("b"), Some(&text("2")));
    assert!(map.contains_key("b"));
    assert!(!map.contains_key("c"));
}

#[test]
fn map_keeps_the_order_of_first_arrival() {
    let mut map: TextMap<u64> = TextMap::new();
    map.insert(text("x"), 1);
    map.insert(text("y"), 2);
    map.insert(text("z"), 3);
    map.insert(text("x"), 4);
    assert_eq!(map.entry_at(0), Some((&text("x"), &4)));
    assert_eq!(map.entry_at(1), Some((&text("y"), &2)));
    assert_eq!(map.entry_at(2), Some((&text("z"), &3)));
    assert_eq!(map.entry_at(3), None);
    assert_eq!(map.position("y"), Some(1));
}

#[test]
fn map_remove_keeps_the_others_in_order() {
    let mut map: TextMap<u64> = TextMap::new();
    map.insert(text("x"), 1);
    map.insert(text("y"), 2);
    map.insert(text("z"), 3);
    assert_eq!(map.remove("y"), Some(2));
    assert_eq!(map.remove("y"), None);
    assert_eq!(map.len(), 2);
    assert_eq!(map.entry_at(0), Some((&text("x"), &1)));
    assert_eq!(map.entry_at(1), Some((&text("z"), &3)));
    assert!(map.get("y").is_none());
}

#[test]
fn map_keys_are_matched_exactly() {
    let mut map: TextMap<u64> = TextMap::new();
    map.insert(text("Key"), 1);
    assert!(map.get("key").is_none());
    assert!(map.get("Key ").is_none());
    assert_eq!(map.get("Key"), Some(&1));
}

#[test]
fn map_from_pairs_lets_the_later_value_win() {
    let map = TextMap::from_pairs(vec![
        (text("a"), 1u64),
        (text("b"), 2),
        (text("a"), 3),
    ]);
    assert_eq!(map.len(), 2);
    assert_eq!(map.entry_at(0), Some((&text("a"), &3)));
    assert_eq!(map.entry_at(1), Some((&text("b"), &2)));
}

#[test]
fn map_extend_prefers_the_other_map() {
    let mut mine: TextMap<String> = TextMap::new();
    mine.insert(text("a"), text("1"));
    mine.insert(text("b"), text("2"));
    let mut theirs: TextMap<String> = TextMap::new();
    theirs.insert(text("b"), text("3"));
    theirs.insert(text("c"), text("4"));
    mine.extend_from(&theirs);
    assert_eq!(mine.len(), 3);
    assert_eq!(mine.get("a"), Some(&text("1")));
    assert_eq!(mine.get("b"), Some(&text("3")));
    assert_eq!(mine.get("c"), Some(&text("4")));
    assert_eq!(theirs.len(), 2);
}

#[test]
fn map_clone_is_equal_and_apart() {
    let mut map: TextMap<String> = TextMap::new();
    map.insert(text("a"), text("1"));
    let mut copy = map.clone();
    assert_eq!(copy.get("a"), Some(&text("1")));
    copy.insert(text("a"), text("2"));
    copy.insert(text("b"), text("3"));
    assert_eq!(map.get("a"), Some(&text("1")));
    assert_eq!(map.len(), 1);
}
