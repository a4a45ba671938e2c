//! The webhook payload of the messaging platform, and the button reply that
//! it may carry.
//!
//! A payload nests entries, their changes, the value of each change and the
//! messages of that value. Only a change whose field is `messages` is looked
//! at, and a message counts only when it carries both a reply context and a
//! button. Among the messages that count, the one that comes first in the
//! payload is the event.

use vstd::prelude::*;

verus! {

#[derive(Debug, Clone, PartialEq, Eq)]
pub struct WhatsAppWebhook {
    pub entry: Vec<Entry>,
    pub gs_app_id: String,
    pub object: String,
}

#[derive(Debug, Clone, PartialEq, Eq)]
pub struct Entry {
    pub changes: Vec<Change>,
    pub id: String,
}

#[derive(Debug, Clone, PartialEq, Eq)]
pub struct Change {
    pub field: String,
    pub value: ChangeValue,
}

#[derive(Debug, Clone, PartialEq, Eq)]
pub struct ChangeValue {
    pub contacts: Vec<Contact>,
    pub messages: Vec<Message>,
    pub messaging_product: String,
    pub metadata: Metadata,
}

#[derive(Debug, Clone, PartialEq, Eq)]
pub struct Contact {
    pub profile: Profile,
    pub wa_id: String,
}

#[derive(Debug, Clone, PartialEq, Eq)]
pub struct Profile {
    pub name: String,
}

#[derive(Debug, Clone, PartialEq, Eq)]
pub struct Message {
    pub button: Option<Button>,
    pub context: Option<Context>,
    pub from: String,
    pub id: String,
    pub timestamp: String,
    /// The payload calls this member `type`.
    pub kind: String,
}

#[derive(Debug, Clone, PartialEq, Eq)]
pub struct Button {
    pub payload: String,
    pub text: String,
}

#[derive(Debug, Clone, PartialEq, Eq)]
pub struct Context {
    pub from: String,
    pub gs_id: String,
    pub id: String,
    pub meta_msg_id: String,
}

#[derive(Debug, Clone, PartialEq, Eq)]
pub struct Metadata {
    pub display_phone_number: String,
    pub phone_number_id: String,
}

/// A button reply: the sender that the reply answers (the routing key), the
/// sender of the reply, and the text of the button.
pub struct ButtonReply {
    pub routing_key: Seq<char>,
    pub sender_id: Seq<char>,
    pub button_text: Seq<char>,
}

/// The field name of the changes that are inspected.
pub open spec fn inspected_field() -> Seq<char> {
    "messages"@
}

impl Message {
    /// Whether the message carries both a reply context and a button.
    pub open spec fn qualifies(&self) -> bool {
        self.context is Some && self.button is Some
    }

    /// The reply that a qualifying message stands for.
    pub open spec fn reply(&self) -> ButtonReply {
        ButtonReply {
            routing_key: self.context->Some_0.from@,
            sender_id: self.from@,
            button_text: self.button->Some_0.text@,
        }
    }
}

impl Change {
    /// Whether the messages of this change are looked at.
    pub open spec fn inspected(&self) -> bool {
        self.field@ == inspected_field()
    }
}

/// The first qualifying message among `messages[from..]`.
pub open spec fn first_in_messages(messages: Seq<Message>, from: int) -> Option<ButtonReply>
    decreases messages.len() - from,
{
    if from < 0 || from >= messages.len() {
        None
    } else if messages[from].qualifies() {
        Some(messages[from].reply())
    } else {
        first_in_messages(messages, from + 1)
    }
}

/// What one change contributes: nothing unless it is inspected.
pub open spec fn first_in_change(change: Change) -> Option<ButtonReply> {
    if change.inspected() {
        first_in_messages(change.value.messages@, 0)
    } else {
        None
    }
}

/// The first qualifying message among `changes[from..]`.
pub open spec fn first_in_changes(changes: Seq<Change>, from: int) -> Option<ButtonReply>
    decreases changes.len() - from,
{
    if from < 0 || from >= changes.len() {
        None
    } else if first_in_change(changes[from]) is Some {
        first_in_change(changes[from])
    } else {
        first_in_changes(changes, from + 1)
    }
}

/// The first qualifying message among `entries[from..]`.
pub open spec fn first_in_entries(entries: Seq<Entry>, from: int) -> Option<ButtonReply>
    decreases entries.len() - from,
{
    if from < 0 || from >= entries.len() {
        None
    } else if first_in_changes(entries[from].changes@, 0) is Some {
        first_in_changes(entries[from].changes@, 0)
    } else {
        first_in_entries(entries, from + 1)
    }
}

/// The event that a payload carries: its first qualifying message in
/// document order, if it has one.
pub open spec fn first_reply(webhook: WhatsAppWebhook) -> Option<ButtonReply> {
    first_in_entries(webhook.entry@, 0)
}

/// The view of a decoded triple `(context.from, message.from, button.text)`.
pub open spec fn triple_view(triple: (String, String, String)) -> ButtonReply {
    ButtonReply { routing_key: triple.0@, sender_id: triple.1@, button_text: triple.2@ }
}

/// The view of an optional decoded triple.
pub open spec fn decoded_view(found: Option<(String, String, String)>) -> Option<ButtonReply> {
    match found {
        Some(triple) => Some(triple_view(triple)),
        None => None,
    }
}

fn scan_messages(messages: &Vec<Message>) -> (found: Option<(String, String, String)>)
    ensures
        decoded_view(found) == first_in_messages(messages@, 0),
{
    let mut k: usize = 0;
    while k < messages.len()
        invariant
            k <= messages.len(),
            first_in_messages(messages@, 0) == first_in_messages(messages@, k as int),
        decreases messages.len() - k,
    {
        let message = &messages[k];
        match (&message.context, &message.button) {
            (Some(context), Some(button)) => {
                return Some((context.from.clone(), message.from.clone(), button.text.clone()));
            },
            _ => {},
        }
        k += 1;
    }
    None
}

fn scan_changes(changes: &Vec<Change>) -> (found: Option<(String, String, String)>)
    ensures
        decoded_view(found) == first_in_changes(changes@, 0),
{
    let mut j: usize = 0;
    while j < changes.len()
        invariant
            j <= changes.len(),
            first_in_changes(changes@, 0) == first_in_changes(changes@, j as int),
        decreases changes.len() - j,
    {
        let change = &changes[j];
        if crate::text::same(change.field.as_str(), "messages") {
            let found = scan_messages(&change.value.messages);
            if found.is_some() {
                return found;
            }
        }
        j += 1;
    }
    None
}

/// Extracts the button reply of a payload as the triple
/// `(context.from, message.from, button.text)` of its first qualifying
/// message, or nothing when no message qualifies.
pub fn parse_webhook_data(webhook: &WhatsAppWebhook) -> (found: Option<(String, String, String)>)
    ensures
        decoded_view(found) == first_reply(*webhook),
{
    let mut i: usize = 0;
    while i < webhook.entry.len()
        invariant
            i <= webhook.entry.len(),
            first_in_entries(webhook.entry@, 0) == first_in_entries(webhook.entry@, i as int),
        decreases webhook.entry.len() - i,
    {
        let found = scan_changes(&webhook.entry[i].changes);
        if found.is_some() {
            return found;
        }
        i += 1;
    }
    None
}

/// Whether the payload has a message at the position `(i, j, k)`: message
/// `k` of change `j` of entry `i`.
pub open spec fn in_payload(webhook: WhatsAppWebhook, i: int, j: int, k: int) -> bool {
    &&& 0 <= i < webhook.entry@.len()
    &&& 0 <= j < webhook.entry@[i].changes@.len()
    &&& 0 <= k < webhook.entry@[i].changes@[j].value.messages@.len()
}

/// The message at a position of the payload.
pub open spec fn message_at(webhook: WhatsAppWebhook, i: int, j: int, k: int) -> Message {
    webhook.entry@[i].changes@[j].value.messages@[k]
}

/// Whether the message at a position counts: it stands in an inspected
/// change and qualifies.
pub open spec fn counts(webhook: WhatsAppWebhook, i: int, j: int, k: int) -> bool {
    &&& in_payload(webhook, i, j, k)
    &&& webhook.entry@[i].changes@[j].inspected()
    &&& message_at(webhook, i, j, k).qualifies()
}

/// Whether the position `(a, b, c)` comes before `(i, j, k)` in the payload.
pub open spec fn precedes(a: int, b: int, c: int, i: int, j: int, k: int) -> bool {
    a < i || (a == i && (b < j || (b == j && c < k)))
}

proof fn lemma_messages_none(messages: Seq<Message>, from: int)
    requires
        0 <= from,
    ensures
        first_in_messages(messages, from) is None <==> forall|k: int|
            from <= k < messages.len() ==> !(#[trigger] messages[k]).qualifies(),
    decreases messages.len() - from,
{
    if from < messages.len() {
        lemma_messages_none(messages, from + 1);
    }
}

proof fn lemma_messages_first(messages: Seq<Message>, from: int, k: int)
    requires
        0 <= from <= k < messages.len(),
        messages[k].qualifies(),
        forall|c: int| from <= c < k ==> !(#[trigger] messages[c]).qualifies(),
    ensures
        first_in_messages(messages, from) == Some(messages[k].reply()),
    decreases k - from,
{
    if from < k {
        lemma_messages_first(messages, from + 1, k);
    }
}

proof fn lemma_changes_none(changes: Seq<Change>, from: int)
    requires
        0 <= from,
    ensures
        first_in_changes(changes, from) is None <==> forall|j: int|
            from <= j < changes.len() ==> first_in_change(#[trigger] changes[j]) is None,
    decreases changes.len() - from,
{
    if from < changes.len() {
        lemma_changes_none(changes, from + 1);
    }
}

proof fn lemma_changes_first(changes: Seq<Change>, from: int, j: int)
    requires
        0 <= from <= j < changes.len(),
        first_in_change(changes[j]) is Some,
        forall|b: int| from <= b < j ==> first_in_change(#[trigger] changes[b]) is None,
    ensures
        first_in_changes(changes, from) == first_in_change(changes[j]),
    decreases j - from,
{
    if from < j {
        lemma_changes_first(changes, from + 1, j);
    }
}

proof fn lemma_entries_none(entries: Seq<Entry>, from: int)
    requires
        0 <= from,
    ensures
        first_in_entries(entries, from) is None <==> forall|i: int|
            from <= i < entries.len() ==> first_in_changes((#[trigger] entries[i]).changes@, 0)
                is None,
    decreases entries.len() - from,
{
    if from < entries.len() {
        lemma_entries_none(entries, from + 1);
    }
}

proof fn lemma_entries_first(entries: Seq<Entry>, from: int, i: int)
    requires
        0 <= from <= i < entries.len(),
        first_in_changes(entries[i].changes@, 0) is Some,
        forall|a: int|
            from <= a < i ==> first_in_changes((#[trigger] entries[a]).changes@, 0) is None,
    ensures
        first_in_entries(entries, from) == first_in_changes(entries[i].changes@, 0),
    decreases i - from,
{
    if from < i {
        lemma_entries_first(entries, from + 1, i);
    }
}

/// A change contributes nothing exactly when none of its messages counts.
proof fn lemma_change_none(webhook: WhatsAppWebhook, i: int, j: int)
    requires
        0 <= i < webhook.entry@.len(),
        0 <= j < webhook.entry@[i].changes@.len(),
    ensures
        first_in_change(webhook.entry@[i].changes@[j]) is None <==> forall|k: int|
            !#[trigger] counts(webhook, i, j, k),
{
    let change = webhook.entry@[i].changes@[j];
    let messages = change.value.messages@;
    lemma_messages_none(messages, 0);
    if first_in_change(change) is None {
        assert forall|k: int| !#[trigger] counts(webhook, i, j, k) by {
            if in_payload(webhook, i, j, k) && change.inspected() {
                assert(!messages[k].qualifies());
            }
        }
    } else {
        let k = choose|k: int| 0 <= k < messages.len() && (#[trigger] messages[k]).qualifies();
        assert(counts(webhook, i, j, k));
    }
}

/// An entry contributes nothing exactly when none of its messages counts.
proof fn lemma_entry_none(webhook: WhatsAppWebhook, i: int)
    requires
        0 <= i < webhook.entry@.len(),
    ensures
        first_in_changes(webhook.entry@[i].changes@, 0) is None <==> forall|j: int, k: int|
            !#[trigger] counts(webhook, i, j, k),
{
    let changes = webhook.entry@[i].changes@;
    lemma_changes_none(changes, 0);
    if first_in_changes(changes, 0) is None {
        assert forall|j: int, k: int| !#[trigger] counts(webhook, i, j, k) by {
            if 0 <= j < changes.len() {
                assert(first_in_change(changes[j]) is None);
                lemma_change_none(webhook, i, j);
            }
        }
    } else {
        let j = choose|j: int|
            0 <= j < changes.len() && first_in_change(#[trigger] changes[j]) is Some;
        lemma_change_none(webhook, i, j);
        let k = choose|k: int| counts(webhook, i, j, k);
        assert(counts(webhook, i, j, k));
    }
}

/// A payload carries no event exactly when none of its messages counts: when
/// every message of an inspected change lacks its context or its button.
pub proof fn lemma_no_reply_without_qualifying_message(webhook: WhatsAppWebhook)
    ensures
        first_reply(webhook) is None <==> forall|i: int, j: int, k: int|
            !#[trigger] counts(webhook, i, j, k),
{
    let entries = webhook.entry@;
    lemma_entries_none(entries, 0);
    if first_reply(webhook) is None {
        assert forall|i: int, j: int, k: int| !#[trigger] counts(webhook, i, j, k) by {
            if 0 <= i < entries.len() {
                assert(first_in_changes(entries[i].changes@, 0) is None);
                lemma_entry_none(webhook, i);
            }
        }
    } else {
        let i = choose|i: int|
            0 <= i < entries.len() && first_in_changes((#[trigger] entries[i]).changes@, 0)
                is Some;
        lemma_entry_none(webhook, i);
        let (j, k) = choose|j: int, k: int| counts(webhook, i, j, k);
        assert(counts(webhook, i, j, k));
    }
}

/// The event of a payload is the reply of the message that counts and has no
/// message that counts before it. Where exactly one message counts, the
/// event is its reply.
pub proof fn lemma_first_qualifying_message_is_decoded(
    webhook: WhatsAppWebhook,
    i: int,
    j: int,
    k: int,
)
    requires
        counts(webhook, i, j, k),
        forall|a: int, b: int, c: int|
            precedes(a, b, c, i, j, k) ==> !#[trigger] counts(webhook, a, b, c),
    ensures
        first_reply(webhook) == Some(message_at(webhook, i, j, k).reply()),
{
    let entries = webhook.entry@;
    let changes = entries[i].changes@;
    let messages = changes[j].value.messages@;
    assert forall|c: int| 0 <= c < k implies !(#[trigger] messages[c]).qualifies() by {
        assert(precedes(i, j, c, i, j, k));
        assert(!counts(webhook, i, j, c));
    }
    lemma_messages_first(messages, 0, k);
    assert(first_in_change(changes[j]) == Some(messages[k].reply()));
    assert forall|b: int| 0 <= b < j implies first_in_change(#[trigger] changes[b]) is None by {
        assert forall|c: int| !#[trigger] counts(webhook, i, b, c) by {
            assert(precedes(i, b, c, i, j, k));
        }
        lemma_change_none(webhook, i, b);
    }
    lemma_changes_first(changes, 0, j);
    assert forall|a: int| 0 <= a < i implies first_in_changes(
        (#[trigger] entries[a]).changes@,
        0,
    ) is None by {
        assert forall|b: int, c: int| !#[trigger] counts(webhook, a, b, c) by {
            assert(precedes(a, b, c, i, j, k));
        }
        lemma_entry_none(webhook, a);
    }
    lemma_entries_first(entries, 0, i);
}

/// Where exactly one message of a payload counts, the event is the reply of
/// that message.
pub proof fn lemma_only_qualifying_message_is_decoded(
    webhook: WhatsAppWebhook,
    i: int,
    j: int,
    k: int,
)
    requires
        counts(webhook, i, j, k),
        forall|a: int, b: int, c: int| #[trigger]
            counts(webhook, a, b, c) ==> a == i && b == j && c == k,
    ensures
        first_reply(webhook) == Some(message_at(webhook, i, j, k).reply()),
{
    lemma_first_qualifying_message_is_decoded(webhook, i, j, k);
}

} // verus!
