//! HTTP exchanges as plain values: what is to be sent, and what came back.
//!
//! Nothing here performs a request. A [`Request`] says what the caller is to
//! send, and a [`Reply`] says what the caller got.

use vstd::prelude::*;

verus! {

#[derive(Debug, Clone, Copy, PartialEq, Eq, Structural)]
pub enum Method {
    Get,
    Post,
    Put,
}

/// A named text: a header, or a field of a form.
#[derive(Debug, Clone, PartialEq, Eq)]
pub struct Pair {
    pub name: String,
    pub value: String,
}

/// What a request carries besides its headers.
#[derive(Debug, Clone, PartialEq, Eq)]
pub enum Payload {
    Empty,
    /// A body that is sent as it stands.
    Text(String),
    /// Fields that are sent form-encoded.
    Form(Vec<Pair>),
}

#[derive(Debug, Clone, PartialEq, Eq)]
pub struct Request {
    pub method: Method,
    pub url: String,
    pub headers: Vec<Pair>,
    pub payload: Payload,
}

/// What came back for a request.
#[derive(Debug, Clone, PartialEq, Eq)]
pub enum Reply {
    /// The request could not be carried out; the text says why.
    Unreachable(String),
    /// The server answered. `body` is absent when it could not be read.
    Answered { status: u16, body: Option<String> },
}

pub enum PayloadView {
    Empty,
    Text(Seq<char>),
    Form(Seq<(Seq<char>, Seq<char>)>),
}

pub struct RequestView {
    pub method: Method,
    pub url: Seq<char>,
    pub headers: Seq<(Seq<char>, Seq<char>)>,
    pub payload: PayloadView,
}

pub enum ReplyView {
    Unreachable(Seq<char>),
    Answered { status: u16, body: Option<Seq<char>> },
}

/// The names and values of a list of pairs, in order.
pub open spec fn pairs_view(pairs: Seq<Pair>) -> Seq<(Seq<char>, Seq<char>)> {
    pairs.map_values(|p: Pair| (p.name@, p.value@))
}

impl View for Payload {
    type V = PayloadView;

    open spec fn view(&self) -> PayloadView {
        match self {
            Payload::Empty => PayloadView::Empty,
            Payload::Text(body) => PayloadView::Text(body@),
            Payload::Form(fields) => PayloadView::Form(pairs_view(fields@)),
        }
    }
}

impl View for Request {
    type V = RequestView;

    open spec fn view(&self) -> RequestView {
        RequestView {
            method: self.method,
            url: self.url@,
            headers: pairs_view(self.headers@),
            payload: self.payload@,
        }
    }
}

impl View for Reply {
    type V = ReplyView;

    open spec fn view(&self) -> ReplyView {
        match self {
            Reply::Unreachable(why) => ReplyView::Unreachable(why@),
            Reply::Answered { status, body } => ReplyView::Answered {
                status: *status,
                body: match body {
                    Some(text) => Some(text@),
                    None => None,
                },
            },
        }
    }
}

/// Whether a status code reports success: the codes from 200 to 299.
pub open spec fn success(status: u16) -> bool {
    200 <= status < 300
}

/// Whether a status code reports success.
pub fn is_success(status: u16) -> (r: bool)
    ensures
        r == success(status),
{
    200 <= status && status < 300
}

/// A pair made of copies of the two texts.
pub fn pair(name: &str, value: &str) -> (p: Pair)
    ensures
        p.name@ == name@,
        p.value@ == value@,
{
    Pair { name: name.to_owned(), value: value.to_owned() }
}

/// The body of an answer, or `fallback` where the body could not be read.
pub open spec fn body_or(body: Option<Seq<char>>, fallback: Seq<char>) -> Seq<char> {
    match body {
        Some(text) => text,
        None => fallback,
    }
}

/// The body of an answer, or `fallback` where the body could not be read.
pub fn body_text(body: Option<String>, fallback: &str) -> (text: String)
    ensures
        text@ == body_or(
            match body {
                Some(t) => Some(t@),
                None => None,
            },
            fallback@,
        ),
{
    match body {
        Some(text) => text,
        None => fallback.to_owned(),
    }
}

} // verus!
