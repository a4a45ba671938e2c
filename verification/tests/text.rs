use button_consumer::json::{first_element, member_flag, member_text, member_unsigned};
use button_consumer::text::{join, join3, same};

fn doc(text: &str) -> serde_json::Value {
    serde_json::from_str(text).unwrap()
}

#[test]
fn texts_are_the_same_when_their_characters_are() {
    assert!(same("", ""));
    assert!(same("já existe", "já existe"));
    assert!(!same("a", "A"));
    assert!(!same("a", "ab"));
    assert!(!same("ab", "a"));
}

#[test]
fn texts_are_joined_in_order() {
    assert_eq!(join("ab", "cd"), "abcd");
    assert_eq!(join("", "x"), "x");
    assert_eq!(join("x", ""), "x");
    assert_eq!(join3("a", "ção", "z"), "açãoz");
    assert_eq!(join3("", "", ""), "");
}

#[test]
fn a_member_is_read_by_its_kind() {
    let object = doc("{\"s\":\"text\",\"b\":true,\"n\":18446744073709551615,\"z\":null}");
    assert_eq!(member_text(&object, "s"), Some("text".to_string()));
    assert_eq!(member_text(&object, "b"), None);
    assert_eq!(member_text(&object, "missing"), None);
    assert_eq!(member_flag(&object, "b"), Some(true));
    assert_eq!(member_flag(&object, "s"), None);
    assert_eq!(member_flag(&object, "z"), None);
    assert_eq!(member_unsigned(&object, "n"), Some(u64::MAX));
    assert_eq!(member_unsigned(&object, "s"), None);
    assert_eq!(member_unsigned(&doc("{\"n\":-1}"), "n"), None);
    assert_eq!(member_unsigned(&doc("{\"n\":2.0}"), "n"), None);
    assert_eq!(member_text(&doc("[\"s\"]"), "s"), None);
}

#[test]
fn the_first_element_of_an_array_is_its_head() {
    assert_eq!(first_element(&doc("[\"a\",\"b\"]")), Some(&doc("\"a\"")));
    assert_eq!(first_element(&doc("[]")), None);
    assert_eq!(first_element(&doc("{\"0\":1}")), None);
}
