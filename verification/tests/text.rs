use pronk::order::{compare, same_text, Place};
use pronk::ordered::OrderedMap;
use pronk::text::{clipped, join, push_decimal, push_hex_byte, push_signed_decimal};

#[test]
fn numbers_are_written_without_leading_zeros() {
    let mut text = String::new();
    push_decimal(&mut text, 0);
    text.push(' ');
    push_decimal(&mut text, u64::MAX);
    text.push(' ');
    push_signed_decimal(&mut text, i32::MIN);
    text.push(' ');
    push_hex_byte(&mut text, 0x0f);
    assert_eq!(text, "0 18446744073709551615 -2147483648 0f");
}

#[test]
fn texts_are_clipped_at_characters() {
    assert_eq!(clipped("a€b", 4), "a€");
    assert_eq!(clipped("a€b", 3), "a");
    assert_eq!(clipped("a€b", 9), "a€b");
    assert_eq!(clipped("😀", 3), "");
}

#[test]
fn parts_are_joined() {
    assert_eq!(join(&vec![], "; "), "");
    assert_eq!(join(&vec!["a".into()], "; "), "a");
    assert_eq!(join(&vec!["a".into(), "b".into(), "c".into()], "; "), "a; b; c");
}

#[test]
fn texts_are_ordered_as_strings_are() {
    for left in ["", "a", "aa", "b", "é", "z"] {
        for right in ["", "a", "aa", "b", "é", "z"] {
            let expected = if left < right {
                Place::Before
            } else if left == right {
                Place::Same
            } else {
                Place::After
            };
            assert_eq!(compare(left, right), expected);
            assert_eq!(same_text(left, right), left == right);
        }
    }
}

#[test]
fn an_ordered_map_keeps_its_keys_sorted() {
    let mut map: OrderedMap<u32> = OrderedMap::new();
    map.insert("b", 2);
    map.insert("a", 1);
    map.insert("c", 3);
    map.insert("b", 4);
    assert_eq!(map.len(), 3);
    assert_eq!(map.key_at(0), "a");
    assert_eq!(map.get("b"), Some(&4));
    assert_eq!(map.remove("a"), Some(1));
    assert_eq!(map.remove("a"), None);
    assert!(!map.contains("a"));
    assert_eq!(*map.value_at(0), 4);
}
