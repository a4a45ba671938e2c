use button_consumer::webhook::{
    parse_webhook_data, Button, Change, ChangeValue, Context, Entry, Message, Metadata,
    WhatsAppWebhook,
};

fn text(s: &str) -> String {
    s.to_string()
}

fn message(from: &str, context: Option<&str>, button: Option<&str>) -> Message {
    Message {
        button: button.map(|t| Button { payload: text("p"), text: text(t) }),
        context: context.map(|c| Context {
            from: text(c),
            gs_id: text("gs"),
            id: text("ctx"),
            meta_msg_id: text("meta"),
        }),
        from: text(from),
        id: text("m"),
        timestamp: text("0"),
        kind: text("button"),
    }
}

fn change(field: &str, messages: Vec<Message>) -> Change {
    Change {
        field: text(field),
        value: ChangeValue {
            contacts: Vec::new(),
            messages,
            messaging_product: text("whatsapp"),
            metadata: Metadata {
                display_phone_number: text("1"),
                phone_number_id: text("2"),
            },
        },
    }
}

fn webhook(entries: Vec<Vec<Change>>) -> WhatsAppWebhook {
    WhatsAppWebhook {
        entry: entries
            .into_iter()
            .map(|changes| Entry { changes, id: text("e") })
            .collect(),
        gs_app_id: text("app"),
        object: text("whatsapp_business_account"),
    }
}

fn triple(a: &str, b: &str, c: &str) -> Option<(String, String, String)> {
    Some((text(a), text(b), text(c)))
}

#[test]
fn a_button_reply_is_decoded_as_its_triple() {
    let w = webhook(vec![vec![change("messages", vec![message("B", Some("A"), Some("Sim"))])]]);
    assert_eq!(parse_webhook_data(&w), triple("A", "B", "Sim"));
}

#[test]
fn a_payload_without_entries_holds_no_reply() {
    assert_eq!(parse_webhook_data(&webhook(Vec::new())), None);
    assert_eq!(parse_webhook_data(&webhook(vec![Vec::new()])), None);
    assert_eq!(parse_webhook_data(&webhook(vec![vec![change("messages", Vec::new())]])), None);
}

#[test]
fn a_message_without_context_does_not_qualify() {
    let w = webhook(vec![vec![change("messages", vec![message("B", None, Some("Sim"))])]]);
    assert_eq!(parse_webhook_data(&w), None);
}

#[test]
fn a_message_without_button_does_not_qualify() {
    let w = webhook(vec![vec![change("messages", vec![message("B", Some("A"), None)])]]);
    assert_eq!(parse_webhook_data(&w), None);
}

#[test]
fn a_message_with_neither_does_not_qualify() {
    let w = webhook(vec![vec![change("messages", vec![message("B", None, None)])]]);
    assert_eq!(parse_webhook_data(&w), None);
}

#[test]
fn a_change_of_another_field_is_not_inspected() {
    let w = webhook(vec![vec![
        change("statuses", vec![message("X", Some("Y"), Some("Z"))]),
        change("Messages", vec![message("X", Some("Y"), Some("Z"))]),
    ]]);
    assert_eq!(parse_webhook_data(&w), None);
}

#[test]
fn the_first_qualifying_message_of_a_change_wins() {
    let w = webhook(vec![vec![change(
        "messages",
        vec![
            message("skipped", None, Some("x")),
            message("B1", Some("A1"), Some("first")),
            message("B2", Some("A2"), Some("second")),
        ],
    )]]);
    assert_eq!(parse_webhook_data(&w), triple("A1", "B1", "first"));
}

#[test]
fn an_earlier_change_wins_over_a_later_one() {
    let w = webhook(vec![vec![
        change("statuses", vec![message("no", Some("no"), Some("no"))]),
        change("messages", vec![message("n", Some("c"), None)]),
        change("messages", vec![message("B1", Some("A1"), Some("first"))]),
        change("messages", vec![message("B2", Some("A2"), Some("second"))]),
    ]]);
    assert_eq!(parse_webhook_data(&w), triple("A1", "B1", "first"));
}

#[test]
fn an_earlier_entry_wins_over_a_later_one() {
    let w = webhook(vec![
        vec![change("messages", vec![message("n", None, None)])],
        vec![change("messages", vec![message("B1", Some("A1"), Some("first"))])],
        vec![change("messages", vec![message("B2", Some("A2"), Some("second"))])],
    ]);
    assert_eq!(parse_webhook_data(&w), triple("A1", "B1", "first"));
}

#[test]
fn a_reply_to_oneself_still_qualifies() {
    let w = webhook(vec![vec![change("messages", vec![message("A", Some("A"), Some("Sim"))])]]);
    assert_eq!(parse_webhook_data(&w), triple("A", "A", "Sim"));
}
