use button_consumer::gateway::{delivery, send_gupshup_message, GatewayError, GATEWAY_URL};
use button_consumer::http::{
    body_text, is_success, pair, Method, Pair, Payload, Reply, Request,
};

fn named(name: &str, value: &str) -> Pair {
    Pair { name: name.to_string(), value: value.to_string() }
}

#[test]
fn the_message_request_is_a_form_post_to_the_gateway() {
    let request = send_gupshup_message("KEY", "hello", ("S1", "A"), "B");
    let expected = Request {
        method: Method::Post,
        url: "https://api.gupshup.io/wa/api/v1/msg".to_string(),
        headers: vec![
            named("Content-Type", "application/x-www-form-urlencoded"),
            named("apikey", "KEY"),
            named("cache-control", "no-cache"),
            named("Cache-Control", "no-cache"),
        ],
        payload: Payload::Form(vec![
            named("channel", "whatsapp"),
            named("source", "S1"),
            named("destination", "B"),
            named("message", "{\"text\":\"hello\",\"type\":\"text\"}"),
            named("src.name", "S1"),
        ]),
    };
    assert_eq!(request, expected);
    assert_eq!(GATEWAY_URL, "https://api.gupshup.io/wa/api/v1/msg");
}

fn message_of(request: Request) -> String {
    match request.payload {
        Payload::Form(fields) => {
            assert_eq!(fields[3].name, "message");
            fields[3].value.clone()
        }
        other => panic!("unexpected payload {:?}", other),
    }
}

#[test]
fn the_envelope_is_json_text_whatever_the_body_holds() {
    for body in ["hello", "\"", "a \"b\"\nc", "back\\slash", "", "ação\t{}"] {
        let message = message_of(send_gupshup_message("k", body, ("n", "s"), "t"));
        let parsed: serde_json::Value = serde_json::from_str(&message).unwrap();
        let members = parsed.as_object().unwrap();
        assert_eq!(members.len(), 2);
        assert_eq!(members.get("type").and_then(|v| v.as_str()), Some("text"));
        assert_eq!(members.get("text").and_then(|v| v.as_str()), Some(body));
    }
}

#[test]
fn the_envelope_escapes_what_json_requires() {
    let message = message_of(send_gupshup_message("k", "a \"b\"\nc\\", ("n", "s"), "t"));
    assert_eq!(message, "{\"text\":\"a \\\"b\\\"\\nc\\\\\",\"type\":\"text\"}");
}

#[test]
fn the_routing_key_is_no_part_of_the_request() {
    let with = send_gupshup_message("k", "x", ("S1", "A"), "B");
    let without = send_gupshup_message("k", "x", ("S1", "other"), "B");
    assert_eq!(with, without);
}

#[test]
fn every_status_from_200_to_299_is_a_delivery() {
    for status in [200u16, 201, 204, 299] {
        assert_eq!(delivery(Reply::Answered { status, body: Some("ok".to_string()) }), Ok(()));
    }
    assert_eq!(delivery(Reply::Answered { status: 200, body: None }), Ok(()));
}

#[test]
fn a_status_outside_the_success_range_is_refused_with_its_body() {
    assert_eq!(
        delivery(Reply::Answered { status: 404, body: Some("nope".to_string()) }),
        Err(GatewayError::Refused { status: 404, body: "nope".to_string() })
    );
    assert_eq!(
        delivery(Reply::Answered { status: 199, body: Some(String::new()) }),
        Err(GatewayError::Refused { status: 199, body: String::new() })
    );
    assert_eq!(
        delivery(Reply::Answered { status: 300, body: Some("moved".to_string()) }),
        Err(GatewayError::Refused { status: 300, body: "moved".to_string() })
    );
}

#[test]
fn an_unread_body_is_replaced_by_a_notice() {
    assert_eq!(
        delivery(Reply::Answered { status: 500, body: None }),
        Err(GatewayError::Refused {
            status: 500,
            body: "<Failed to read response body>".to_string()
        })
    );
}

#[test]
fn a_request_that_could_not_be_sent_is_unreachable() {
    assert_eq!(
        delivery(Reply::Unreachable("timed out".to_string())),
        Err(GatewayError::Unreachable("timed out".to_string()))
    );
}

#[test]
fn success_is_the_range_from_200_to_299() {
    assert!(!is_success(0));
    assert!(!is_success(199));
    assert!(is_success(200));
    assert!(is_success(250));
    assert!(is_success(299));
    assert!(!is_success(300));
    assert!(!is_success(u16::MAX));
}

#[test]
fn a_pair_copies_its_texts() {
    assert_eq!(pair("a", "b"), named("a", "b"));
}

#[test]
fn the_fallback_stands_in_for_an_unread_body_only() {
    assert_eq!(body_text(Some("x".to_string()), "fallback"), "x");
    assert_eq!(body_text(Some(String::new()), "fallback"), "");
    assert_eq!(body_text(None, "fallback"), "fallback");
}
