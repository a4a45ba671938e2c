//! The messaging gateway: the one request that sends a text to a recipient,
//! and the reading of its answer.

use crate::http::{
    body_or, body_text, is_success, pair, pairs_view, success, Method, Pair, Payload, PayloadView, Reply,
    ReplyView, Request, RequestView,
};
use crate::json::{
    json_text, new_members, no_members, object_value, put, text_value, to_text, JsonDoc,
};
use vstd::prelude::*;

verus! {

pub const GATEWAY_URL: &'static str = "https://api.gupshup.io/wa/api/v1/msg";

/// What is put in place of an answer's body when the body could not be read.
pub const UNREAD_BODY: &'static str = "<Failed to read response body>";

/// Why a text did not reach the gateway.
#[derive(Debug, Clone, PartialEq, Eq)]
pub enum GatewayError {
    /// The request could not be carried out.
    Unreachable(String),
    /// The gateway answered with a status outside 200..=299.
    Refused { status: u16, body: String },
}

pub enum GatewayErrorView {
    Unreachable(Seq<char>),
    Refused { status: u16, body: Seq<char> },
}

impl View for GatewayError {
    type V = GatewayErrorView;

    open spec fn view(&self) -> GatewayErrorView {
        match self {
            GatewayError::Unreachable(why) => GatewayErrorView::Unreachable(why@),
            GatewayError::Refused { status, body } => GatewayErrorView::Refused {
                status: *status,
                body: body@,
            },
        }
    }
}

/// The document that carries a text: the object whose member `type` is
/// `text` and whose member `text` is the text.
pub open spec fn envelope_doc(text: Seq<char>) -> JsonDoc {
    JsonDoc::Object(
        no_members().insert("type"@, JsonDoc::Text("text"@)).insert("text"@, JsonDoc::Text(text)),
    )
}

/// The envelope that carries a text: its document written as JSON text.
pub open spec fn envelope(text: Seq<char>) -> Seq<char> {
    json_text(envelope_doc(text))
}

/// The request that sends `text` to `to` on the WhatsApp channel in the name
/// of the source `source_name`, under the key `apikey`. The source name
/// stands in the field `source` and in the field `src.name` alike.
pub open spec fn message_request(
    apikey: Seq<char>,
    text: Seq<char>,
    source_name: Seq<char>,
    to: Seq<char>,
) -> RequestView {
    RequestView {
        method: Method::Post,
        url: GATEWAY_URL@,
        headers: seq![
            ("Content-Type"@, "application/x-www-form-urlencoded"@),
            ("apikey"@, apikey),
            ("cache-control"@, "no-cache"@),
            ("Cache-Control"@, "no-cache"@),
        ],
        payload: PayloadView::Form(
            seq![
                ("channel"@, "whatsapp"@),
                ("source"@, source_name),
                ("destination"@, to),
                ("message"@, envelope(text)),
                ("src.name"@, source_name),
            ],
        ),
    }
}

/// What an answer of the gateway means: success for a status from 200 to
/// 299, and else the error with the status and the body.
pub open spec fn delivery_of(reply: ReplyView) -> Result<(), GatewayErrorView> {
    match reply {
        ReplyView::Unreachable(why) => Err(GatewayErrorView::Unreachable(why)),
        ReplyView::Answered { status, body } => if success(status) {
            Ok(())
        } else {
            Err(GatewayErrorView::Refused { status, body: body_or(body, UNREAD_BODY@) })
        },
    }
}

/// The view of the outcome of a delivery.
pub open spec fn delivery_view(r: Result<(), GatewayError>) -> Result<(), GatewayErrorView> {
    match r {
        Ok(()) => Ok(()),
        Err(e) => Err(e@),
    }
}

fn envelope_text(body: &str) -> (text: String)
    ensures
        text@ == envelope(body@),
{
    let mut members = new_members();
    put(&mut members, "type".to_owned(), text_value("text".to_owned()));
    put(&mut members, "text".to_owned(), text_value(body.to_owned()));
    to_text(&object_value(members))
}

/// Builds the request that sends `body` to `to`. `conn` is the source name
/// and the routing key, in this order. The request names the source name as
/// its `source` and as its `src.name`; the routing key is no part of it.
pub fn send_gupshup_message(apikey: &str, body: &str, conn: (&str, &str), to: &str) -> (request:
    Request)
    ensures
        request@ == message_request(apikey@, body@, conn.0@, to@),
{
    let mut headers: Vec<Pair> = Vec::new();
    headers.push(pair("Content-Type", "application/x-www-form-urlencoded"));
    headers.push(pair("apikey", apikey));
    headers.push(pair("cache-control", "no-cache"));
    headers.push(pair("Cache-Control", "no-cache"));
    let message = envelope_text(body);
    let mut form: Vec<Pair> = Vec::new();
    form.push(pair("channel", "whatsapp"));
    form.push(pair("source", conn.0));
    form.push(pair("destination", to));
    form.push(pair("message", message.as_str()));
    form.push(pair("src.name", conn.0));
    let request = Request {
        method: Method::Post,
        url: GATEWAY_URL.to_owned(),
        headers,
        payload: Payload::Form(form),
    };
    proof {
        let expected = message_request(apikey@, body@, conn.0@, to@);
        assert(request@.headers =~= expected.headers);
        assert(pairs_view(form@) =~= expected.payload->Form_0);
    }
    request
}

/// Reads the answer to a message request.
pub fn delivery(reply: Reply) -> (r: Result<(), GatewayError>)
    ensures
        delivery_view(r) == delivery_of(reply@),
{
    match reply {
        Reply::Unreachable(why) => Err(GatewayError::Unreachable(why)),
        Reply::Answered { status, body } => {
            if is_success(status) {
                Ok(())
            } else {
                Err(GatewayError::Refused { status, body: body_text(body, UNREAD_BODY) })
            }
        },
    }
}

} // verus!
