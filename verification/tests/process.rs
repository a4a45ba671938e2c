use button_consumer::crm::{Call, Failure, Settled};
use button_consumer::http::{Payload, Reply, Request};
use button_consumer::process::{
    flow_tag_for, process_webhook, tag_for_lowercase, Effect, Missing, Pipeline, Progress, Signal,
    Trouble, Verdict,
};
use button_consumer::store::{AuditRecord, Command, Outcome, StoreError};
use button_consumer::webhook::{
    Button, Change, ChangeValue, Context, Entry, Message, Metadata, WhatsAppWebhook,
};

fn text(s: &str) -> String {
    s.to_string()
}

fn payload(messages: Vec<Message>) -> WhatsAppWebhook {
    WhatsAppWebhook {
        entry: vec![Entry {
            changes: vec![Change {
                field: text("messages"),
                value: ChangeValue {
                    contacts: Vec::new(),
                    messages,
                    messaging_product: text("whatsapp"),
                    metadata: Metadata {
                        display_phone_number: text("1"),
                        phone_number_id: text("2"),
                    },
                },
            }],
            id: text("e"),
        }],
        gs_app_id: text("app"),
        object: text("whatsapp_business_account"),
    }
}

fn reply(button: &str) -> WhatsAppWebhook {
    payload(vec![Message {
        button: Some(Button { payload: text("p"), text: text(button) }),
        context: Some(Context {
            from: text("A"),
            gs_id: text("gs"),
            id: text("ctx"),
            meta_msg_id: text("meta"),
        }),
        from: text("B"),
        id: text("m"),
        timestamp: text("0"),
        kind: text("button"),
    }])
}

fn begin(button: &str) -> Progress {
    process_webhook(Ok(reply(button)), "CRM", "GW", "CRM2")
}

fn row(column: &str) -> Signal {
    Signal::Store(Outcome::Row { column: Some(text(column)) })
}

fn done() -> Signal {
    Signal::Store(Outcome::Done)
}

fn answered(status: u16, body: &str) -> Signal {
    Signal::Http(Reply::Answered { status, body: Some(text(body)) })
}

/// Feeds the signals in order, and gives the effects that were asked for and
/// the verdict, if the processing came to one.
fn run(mut progress: Progress, signals: Vec<Signal>) -> (Vec<Effect>, Option<Verdict>) {
    let mut effects = Vec::new();
    let mut signals = signals.into_iter();
    loop {
        let pipeline: Pipeline = match progress {
            Progress::Do(pipeline, effect) => {
                effects.push(effect);
                pipeline
            }
            Progress::Done(verdict) => return (effects, Some(verdict)),
        };
        match signals.next() {
            Some(signal) => progress = pipeline.advance(signal),
            None => return (effects, None),
        }
    }
}

fn routed() -> Vec<Signal> {
    vec![done(), done(), row("U1"), done(), done(), row("S1")]
}

fn reconciled_fresh() -> Vec<Signal> {
    let mut signals = routed();
    signals.push(answered(201, "{\"id\":\"c1\"}"));
    signals.push(answered(200, "[]"));
    signals.push(answered(200, "{}"));
    signals.push(answered(200, "sent"));
    signals
}

fn calls(effects: &[Effect]) -> Vec<&Request> {
    effects
        .iter()
        .filter_map(|e| match e {
            Effect::Call(request) => Some(request),
            _ => None,
        })
        .collect()
}

#[test]
fn a_payload_that_cannot_be_decoded_fails() {
    let progress = process_webhook(Err(text("expected value at line 1")), "CRM", "GW", "CRM2");
    assert_eq!(
        progress,
        Progress::Done(Verdict::Failed(Trouble::Undecodable(text("expected value at line 1"))))
    );
}

#[test]
fn a_payload_without_a_reply_is_ignored_and_nothing_is_done() {
    let (effects, verdict) = run(process_webhook(Ok(payload(Vec::new())), "CRM", "GW", "CRM2"), Vec::new());
    assert!(effects.is_empty());
    assert_eq!(verdict, Some(Verdict::Ignored));
    assert!(!Verdict::Ignored.is_error());
}

#[test]
fn the_routing_is_looked_up_before_anything_is_sent() {
    let (effects, verdict) = run(begin("Sim"), routed());
    assert_eq!(verdict, None);
    assert_eq!(effects.len(), 7);
    assert_eq!(effects[0], Effect::Lookup(Command::LimitStatement { seconds: 30 }));
    assert_eq!(effects[1], Effect::Lookup(Command::LimitIdle { seconds: 30 }));
    assert_eq!(effects[2], Effect::Lookup(Command::SelectUuid { routing_key: text("A") }));
    assert_eq!(effects[3], Effect::Lookup(Command::LimitStatement { seconds: 30 }));
    assert_eq!(effects[4], Effect::Lookup(Command::LimitIdle { seconds: 30 }));
    assert_eq!(effects[5], Effect::Lookup(Command::SelectSourceName { routing_key: text("A") }));
    match &effects[6] {
        Effect::Call(request) => assert_eq!(request.url, "https://api.huggy.app/v2/contacts"),
        other => panic!("unexpected effect {:?}", other),
    }
}

#[test]
fn a_routing_key_without_uuid_is_abandoned() {
    let (effects, verdict) = run(begin("Sim"), vec![done(), done(), Signal::Store(Outcome::NoRow)]);
    assert_eq!(verdict, Some(Verdict::Unrouted(Missing::Uuid)));
    assert_eq!(effects.len(), 3);
    assert!(calls(&effects).is_empty());
    assert!(!Verdict::Unrouted(Missing::Uuid).is_error());
    let unreadable = vec![done(), done(), Signal::Store(Outcome::Row { column: None })];
    assert_eq!(run(begin("Sim"), unreadable).1, Some(Verdict::Unrouted(Missing::Uuid)));
}

#[test]
fn a_routing_key_without_source_name_is_abandoned() {
    let signals = vec![done(), done(), row("U1"), done(), done(), Signal::Store(Outcome::NoRow)];
    let (effects, verdict) = run(begin("Sim"), signals);
    assert_eq!(verdict, Some(Verdict::Unrouted(Missing::SourceName)));
    assert!(calls(&effects).is_empty());
}

#[test]
fn a_failed_lookup_fails_the_processing() {
    let (_, verdict) = run(begin("Sim"), vec![Signal::Store(Outcome::Failed(text("timeout")))]);
    assert_eq!(
        verdict,
        Some(Verdict::Failed(Trouble::Lookup(StoreError::Driver(text("timeout")))))
    );
    let later = vec![done(), done(), row("U1"), done(), Signal::Store(Outcome::Failed(text("gone")))];
    let (_, verdict) = run(begin("Sim"), later);
    assert_eq!(
        verdict,
        Some(Verdict::Failed(Trouble::Lookup(StoreError::Driver(text("gone")))))
    );
    assert!(Verdict::Failed(Trouble::OutOfTurn).is_error());
}

#[test]
fn a_reply_with_a_new_conversation_is_processed_to_the_audit_record() {
    let mut signals = reconciled_fresh();
    signals.extend(vec![done(), done(), done()]);
    let (effects, verdict) = run(begin("Sim"), signals);
    assert_eq!(
        verdict,
        Some(Verdict::Completed { settled: Settled::Started { prompt_sent: true }, recorded: true })
    );
    let requests = calls(&effects);
    assert_eq!(requests.len(), 4);
    assert_eq!(requests[2].url, "https://api.huggy.app/v3/contacts/c1/ExecFlow");
    let to_gateway = requests.iter().filter(|r| r.url.starts_with("https://api.gupshup.io"));
    assert_eq!(to_gateway.count(), 1);
    match &requests[3].payload {
        Payload::Form(fields) => {
            assert_eq!(fields[0].name, "channel");
            assert_eq!(fields[0].value, "whatsapp");
            assert_eq!(fields[1].name, "source");
            assert_eq!(fields[1].value, "S1");
            assert_eq!(fields[2].name, "destination");
            assert_eq!(fields[2].value, "B");
            assert_eq!(fields[4].name, "src.name");
            assert_eq!(fields[4].value, "S1");
        }
        other => panic!("unexpected payload {:?}", other),
    }
    assert_eq!(effects.len(), 13);
    assert_eq!(effects[10], Effect::Audit(Command::LimitStatement { seconds: 30 }));
    assert_eq!(effects[11], Effect::Audit(Command::LimitIdle { seconds: 30 }));
    assert_eq!(
        effects[12],
        Effect::Audit(Command::Insert(AuditRecord {
            recipient: text("B"),
            outbound_message: text(
                "Perfeito! Agora, você saberia me informar se ainda tem acesso ao aplicativo do FGTS?\n\nDigite: 1 para Sim!\nDigite: 2 para Não!\n"
            ),
            inbound_button_text: text("Sim"),
            flow_tag: text("FGTS"),
        }))
    );
}

#[test]
fn a_reply_of_a_recipient_in_an_open_chat_sends_nothing() {
    let timeline = "[{\"deleted\":false,\"title\":\"Started chat\",\"time\":\"2024/03/01 10:00:00\",\"chatID\":\"77\"}]";
    let mut signals = routed();
    signals.push(answered(201, "{\"id\":\"c1\"}"));
    signals.push(answered(200, timeline));
    signals.push(answered(200, "{\"enabledSession\":true,\"situation\":\"active\"}"));
    signals.extend(vec![done(), done(), done()]);
    let (effects, verdict) = run(begin("Sim"), signals);
    assert_eq!(verdict, Some(Verdict::Completed { settled: Settled::LeftOpen, recorded: true }));
    let requests = calls(&effects);
    assert_eq!(requests.len(), 3);
    assert!(requests.iter().all(|r| !r.url.ends_with("/ExecFlow")));
    assert!(requests.iter().all(|r| !r.url.starts_with("https://api.gupshup.io")));
}

#[test]
fn a_failed_audit_record_does_not_fail_the_processing() {
    let settled = Settled::Started { prompt_sent: true };
    for failing in 0..3 {
        let mut signals = reconciled_fresh();
        for _ in 0..failing {
            signals.push(done());
        }
        signals.push(Signal::Store(Outcome::Failed(text("disk full"))));
        let (_, verdict) = run(begin("Sim"), signals);
        let verdict = verdict.unwrap();
        assert_eq!(verdict, Verdict::Completed { settled, recorded: false });
        assert!(!verdict.is_error());
    }
    let mut out_of_turn = reconciled_fresh();
    out_of_turn.push(answered(200, "?"));
    assert_eq!(
        run(begin("Sim"), out_of_turn).1,
        Some(Verdict::Completed { settled, recorded: false })
    );
    let mut no_row = reconciled_fresh();
    no_row.extend(vec![done(), done(), Signal::Store(Outcome::NoRow)]);
    assert_eq!(run(begin("Sim"), no_row).1, Some(Verdict::Completed { settled, recorded: false }));
}

#[test]
fn a_failed_reconciliation_fails_the_processing_without_audit() {
    let mut signals = routed();
    signals.push(answered(500, "boom"));
    let (effects, verdict) = run(begin("Sim"), signals);
    assert_eq!(
        verdict,
        Some(Verdict::Failed(Trouble::Crm(Failure::Refused {
            call: Call::CreateContact,
            status: 500,
            body: text("boom"),
        })))
    );
    assert!(effects.iter().all(|e| !matches!(e, Effect::Audit(_))));
}

#[test]
fn a_result_of_the_wrong_kind_fails_the_processing() {
    let (_, verdict) = run(begin("Sim"), vec![answered(200, "{}")]);
    assert_eq!(verdict, Some(Verdict::Failed(Trouble::OutOfTurn)));
    let mut signals = routed();
    signals.push(done());
    assert_eq!(run(begin("Sim"), signals).1, Some(Verdict::Failed(Trouble::OutOfTurn)));
    let wrong_row = vec![Signal::Store(Outcome::NoRow)];
    assert_eq!(
        run(begin("Sim"), wrong_row).1,
        Some(Verdict::Failed(Trouble::Lookup(StoreError::OutOfTurn)))
    );
}

#[test]
fn the_tag_follows_the_button_text() {
    assert_eq!(flow_tag_for("Sim"), "FGTS");
    assert_eq!(flow_tag_for("SIM, quero"), "FGTS");
    assert_eq!(flow_tag_for("Pode CHAMAR"), "FGTS");
    assert_eq!(flow_tag_for("assim"), "FGTS");
    assert_eq!(flow_tag_for("Não"), "BOLSA");
    assert_eq!(flow_tag_for(""), "BOLSA");
    assert_eq!(flow_tag_for("s i m"), "BOLSA");
}

#[test]
fn the_tag_of_a_lowercase_text_is_decided_by_two_words() {
    assert_eq!(tag_for_lowercase("sim"), "FGTS");
    assert_eq!(tag_for_lowercase("chamar"), "FGTS");
    assert_eq!(tag_for_lowercase("xx chamar xx"), "FGTS");
    assert_eq!(tag_for_lowercase("Sim"), "BOLSA");
    assert_eq!(tag_for_lowercase("chama"), "BOLSA");
    assert_eq!(tag_for_lowercase("si"), "BOLSA");
}

#[test]
fn the_audit_record_of_another_button_is_tagged_bolsa() {
    let mut signals = reconciled_fresh();
    signals.extend(vec![done(), done()]);
    let (effects, _) = run(begin("Talvez"), signals);
    match effects.last() {
        Some(Effect::Audit(Command::Insert(record))) => {
            assert_eq!(record.flow_tag, "BOLSA");
            assert_eq!(record.inbound_button_text, "Talvez");
            assert_eq!(record.recipient, "B");
        }
        other => panic!("unexpected effect {:?}", other),
    }
}
