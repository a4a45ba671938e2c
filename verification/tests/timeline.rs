use button_consumer::timeline::{
    find_current_chat, is_started, moment_of, pick_latest, read_event, read_events, reinterpreted,
    Candidate, ChatEvent,
};

fn doc(text: &str) -> serde_json::Value {
    serde_json::from_str(text).unwrap()
}

fn event(deleted: Option<bool>, title: Option<&str>, time: Option<&str>, number: Option<u64>) -> ChatEvent {
    ChatEvent {
        deleted,
        title: title.map(|t| t.to_string()),
        time: time.map(|t| t.to_string()),
        chat_number: number,
        chat_id: None,
    }
}

fn chat(time: Option<&str>, number: Option<u64>) -> ChatEvent {
    event(Some(false), Some("Started chat"), time, number)
}

fn candidate(eligible: bool, key: i64) -> Candidate {
    Candidate { eligible, key }
}

#[test]
fn no_candidate_gives_no_latest() {
    assert_eq!(pick_latest(&Vec::new()), None);
}

#[test]
fn ineligible_candidates_are_passed_over() {
    assert_eq!(pick_latest(&vec![candidate(false, 9), candidate(false, 1)]), None);
    assert_eq!(pick_latest(&vec![candidate(false, 9), candidate(true, 1)]), Some(1));
    assert_eq!(pick_latest(&vec![candidate(true, -5), candidate(false, 100)]), Some(0));
}

#[test]
fn the_greatest_key_is_the_latest() {
    let candidates = vec![candidate(true, 3), candidate(true, 10), candidate(true, 7)];
    assert_eq!(pick_latest(&candidates), Some(1));
    let negative = vec![candidate(true, i64::MIN), candidate(true, -1), candidate(true, -2)];
    assert_eq!(pick_latest(&negative), Some(1));
}

#[test]
fn of_equal_keys_the_last_is_the_latest() {
    let candidates = vec![
        candidate(true, 5),
        candidate(true, 5),
        candidate(false, 5),
        candidate(true, 4),
    ];
    assert_eq!(pick_latest(&candidates), Some(1));
    assert_eq!(pick_latest(&vec![candidate(true, 0), candidate(true, 0), candidate(true, 0)]), Some(2));
}

#[test]
fn a_time_is_read_as_seconds_since_the_epoch() {
    assert_eq!(moment_of(&chat(Some("1970/01/01 00:00:00"), Some(77))), 0);
    assert_eq!(moment_of(&chat(Some("1970/01/02 00:00:01"), None)), 86_401);
    assert_eq!(moment_of(&chat(Some("2024/01/02 03:04:05"), Some(77))), 1_704_164_645);
    assert_eq!(moment_of(&chat(Some("1969/12/31 23:59:59"), Some(77))), -1);
}

#[test]
fn a_time_that_cannot_be_read_falls_back_to_the_chat_number() {
    assert_eq!(moment_of(&chat(Some("yesterday"), Some(77))), 77);
    assert_eq!(moment_of(&chat(Some("2024-01-02 03:04:05"), Some(12))), 12);
    assert_eq!(moment_of(&chat(Some("2024/13/02 03:04:05"), Some(5))), 5);
    assert_eq!(moment_of(&chat(Some(""), None)), 0);
}

#[test]
fn an_event_without_time_is_placed_by_its_chat_number() {
    assert_eq!(moment_of(&chat(None, Some(123_456))), 123_456);
    assert_eq!(moment_of(&chat(None, None)), 0);
}

#[test]
fn a_number_keeps_its_bits_when_read_as_signed() {
    assert_eq!(reinterpreted(0), 0);
    assert_eq!(reinterpreted(42), 42);
    assert_eq!(reinterpreted(i64::MAX as u64), i64::MAX);
    assert_eq!(reinterpreted(i64::MAX as u64 + 1), i64::MIN);
    assert_eq!(reinterpreted(u64::MAX), -1);
    assert_eq!(moment_of(&chat(None, Some(u64::MAX))), -1);
}

#[test]
fn only_a_live_event_titled_started_chat_is_a_chat() {
    assert!(is_started(&event(Some(false), Some("Started chat"), None, None)));
    assert!(!is_started(&event(Some(true), Some("Started chat"), None, None)));
    assert!(!is_started(&event(None, Some("Started chat"), None, None)));
    assert!(!is_started(&event(Some(false), Some("Finished chat"), None, None)));
    assert!(!is_started(&event(Some(false), Some("started chat"), None, None)));
    assert!(!is_started(&event(Some(false), None, None, None)));
}

#[test]
fn the_current_chat_is_the_latest_started_chat() {
    let events = vec![
        chat(Some("2024/01/01 10:00:00"), None),
        event(Some(false), Some("Note"), Some("2025/01/01 10:00:00"), None),
        chat(Some("2024/03/01 10:00:00"), None),
        event(Some(true), Some("Started chat"), Some("2024/06/01 10:00:00"), None),
        chat(Some("2024/02/01 10:00:00"), None),
    ];
    assert_eq!(find_current_chat(&events), Some(2));
}

#[test]
fn a_timeline_without_chats_has_no_current_chat() {
    assert_eq!(find_current_chat(&Vec::new()), None);
    let events = vec![event(Some(false), Some("Note"), None, Some(3)), event(None, None, None, None)];
    assert_eq!(find_current_chat(&events), None);
}

#[test]
fn chats_at_the_same_moment_give_the_last_of_them() {
    let events = vec![
        chat(Some("2024/01/01 10:00:00"), None),
        chat(Some("2024/01/01 10:00:00"), None),
        chat(None, Some(1)),
    ];
    assert_eq!(find_current_chat(&events), Some(1));
}

#[test]
fn a_timeline_entry_is_read_member_by_member() {
    let entry = doc(
        "{\"deleted\":false,\"title\":\"Started chat\",\"time\":\"2024/01/02 03:04:05\",\"chatID\":\"c-9\",\"more\":1}",
    );
    assert_eq!(
        read_event(&entry),
        ChatEvent {
            deleted: Some(false),
            title: Some("Started chat".to_string()),
            time: Some("2024/01/02 03:04:05".to_string()),
            chat_number: None,
            chat_id: Some("c-9".to_string()),
        }
    );
}

#[test]
fn a_numeric_chat_id_is_a_number_and_no_text() {
    let entry = doc("{\"deleted\":true,\"chatID\":815}");
    assert_eq!(
        read_event(&entry),
        ChatEvent {
            deleted: Some(true),
            title: None,
            time: None,
            chat_number: Some(815),
            chat_id: None,
        }
    );
}

#[test]
fn members_of_another_kind_are_absent() {
    let entry = doc(
        "{\"deleted\":\"false\",\"title\":7,\"time\":null,\"chatID\":-3}",
    );
    assert_eq!(read_event(&entry), event(None, None, None, None));
    let fraction = doc("{\"chatID\":1.5}");
    assert_eq!(read_event(&fraction), event(None, None, None, None));
    assert_eq!(read_event(&doc("[1]")), event(None, None, None, None));
    assert_eq!(read_event(&doc("\"deleted\"")), event(None, None, None, None));
}

#[test]
fn the_events_of_a_timeline_come_in_its_order() {
    let timeline = doc("[{\"chatID\":\"a\"},{\"chatID\":\"b\"},7]");
    let events = read_events(&timeline).unwrap();
    assert_eq!(events.len(), 3);
    assert_eq!(events[0].chat_id, Some("a".to_string()));
    assert_eq!(events[1].chat_id, Some("b".to_string()));
    assert_eq!(events[2], event(None, None, None, None));
    assert_eq!(read_events(&doc("[]")), Some(Vec::new()));
}

#[test]
fn a_document_that_is_no_array_is_no_timeline() {
    assert_eq!(read_events(&doc("{}")), None);
    assert_eq!(read_events(&doc("null")), None);
    assert_eq!(read_events(&doc("\"[]\"")), None);
}
