//! The timeline of a contact, and the choice of its current chat.
//!
//! A timeline is a list of events. Those titled `Started chat` that are
//! marked as not deleted are the chats of the contact. The current chat is
//! the one with the greatest moment, and of several with that moment the one
//! that comes last in the list. The moment of an event is the time it
//! carries, read as seconds since the epoch; an event without a time that
//! can be read is placed by the number of its chat instead.

use crate::json::{
    as_array, contents, elements_of, flag_of, json_content, member, member_flag, member_text,
    member_unsigned, opt_text, text_of, unsigned_of, JsonDoc,
};
use vstd::prelude::*;

verus! {

/// The title of the events that start a chat.
pub const STARTED_CHAT: &'static str = "Started chat";

/// The form in which the timeline writes a time.
pub const TIME_FORMAT: &'static str = "%Y/%m/%d %H:%M:%S";

/// An event of a timeline, as far as the choice of the current chat reads it.
#[derive(Debug, Clone, PartialEq, Eq)]
pub struct ChatEvent {
    pub deleted: Option<bool>,
    pub title: Option<String>,
    pub time: Option<String>,
    /// The member `chatID`, where it is a number.
    pub chat_number: Option<u64>,
    /// The member `chatID`, where it is a text.
    pub chat_id: Option<String>,
}

pub struct ChatEventView {
    pub deleted: Option<bool>,
    pub title: Option<Seq<char>>,
    pub time: Option<Seq<char>>,
    pub chat_number: Option<u64>,
    pub chat_id: Option<Seq<char>>,
}

impl View for ChatEvent {
    type V = ChatEventView;

    open spec fn view(&self) -> ChatEventView {
        ChatEventView {
            deleted: self.deleted,
            title: opt_text(self.title),
            time: opt_text(self.time),
            chat_number: self.chat_number,
            chat_id: opt_text(self.chat_id),
        }
    }
}

/// The views of a list of events, in order.
pub open spec fn events_view(events: Seq<ChatEvent>) -> Seq<ChatEventView> {
    events.map_values(|e: ChatEvent| e@)
}

/// An event as a candidate for the current chat: whether it is a chat at
/// all, and the moment that places it.
#[derive(Debug, Clone, Copy, PartialEq, Eq, Structural)]
pub struct Candidate {
    pub eligible: bool,
    pub key: i64,
}

/// Seconds since the epoch of the date and time that `text` denotes when it
/// is read in the form `format`, without a time zone; nothing where `text`
/// is not of that form.
pub uninterp spec fn naive_seconds(text: Seq<char>, format: Seq<char>) -> Option<i64>;

/// `chrono::NaiveDateTime::parse_from_str`, and for a text that it accepts
/// the seconds since the epoch of the result, taken as UTC by
/// `NaiveDateTime::and_utc` and `DateTime::timestamp`.
#[verifier::external_body]
pub(crate) fn parse_seconds(text: &str, format: &str) -> (r: Option<i64>)
    ensures
        r == naive_seconds(text@, format@),
{
    match chrono::NaiveDateTime::parse_from_str(text, format) {
        Ok(moment) => Some(moment.and_utc().timestamp()),
        Err(_) => None,
    }
}

/// What a timeline entry says, read from its JSON form.
pub open spec fn event_of(doc: JsonDoc) -> ChatEventView {
    ChatEventView {
        deleted: flag_of(member(doc, "deleted"@)),
        title: text_of(member(doc, "title"@)),
        time: text_of(member(doc, "time"@)),
        chat_number: unsigned_of(member(doc, "chatID"@)),
        chat_id: text_of(member(doc, "chatID"@)),
    }
}

/// The events of a timeline document: those of its elements, when it is an
/// array.
pub open spec fn events_of(doc: JsonDoc) -> Option<Seq<ChatEventView>> {
    match elements_of(doc) {
        Some(items) => Some(items.map_values(|item: JsonDoc| event_of(item))),
        None => None,
    }
}

/// Whether an event starts a chat that was not deleted.
pub open spec fn started(event: ChatEventView) -> bool {
    event.deleted == Some(false) && event.title == Some(STARTED_CHAT@)
}

/// A number read as a signed 64-bit value of the same bits.
pub open spec fn reinterpret(n: u64) -> i64 {
    if n <= i64::MAX as u64 {
        n as i64
    } else {
        (n - 0x1_0000_0000_0000_0000) as i64
    }
}

/// The place of an event by the number of its chat: that number, or zero for
/// an event without one.
pub open spec fn number_key(event: ChatEventView) -> i64 {
    match event.chat_number {
        Some(n) => reinterpret(n),
        None => 0,
    }
}

/// The moment that places an event: its time in seconds, and where it has no
/// time or the time cannot be read, the number of its chat.
pub open spec fn moment(event: ChatEventView) -> i64 {
    match event.time {
        Some(text) => match naive_seconds(text, TIME_FORMAT@) {
            Some(seconds) => seconds,
            None => number_key(event),
        },
        None => number_key(event),
    }
}

/// An event as a candidate.
pub open spec fn candidate_of(event: ChatEventView) -> Candidate {
    Candidate { eligible: started(event), key: moment(event) }
}

/// The candidates that a list of events makes.
pub open spec fn candidates_of(events: Seq<ChatEventView>) -> Seq<Candidate> {
    events.map_values(|e: ChatEventView| candidate_of(e))
}

/// Whether the candidate at `at` is eligible, no eligible candidate has a
/// greater key, and every eligible candidate after it has a smaller one.
pub open spec fn is_latest(candidates: Seq<Candidate>, at: int) -> bool {
    &&& 0 <= at < candidates.len()
    &&& candidates[at].eligible
    &&& forall|j: int|
        0 <= j < candidates.len() && candidates[j].eligible ==> candidates[j].key
            <= candidates[at].key
    &&& forall|j: int|
        at < j < candidates.len() && candidates[j].eligible ==> candidates[j].key
            < candidates[at].key
}

/// Whether no candidate is eligible.
pub open spec fn none_eligible(candidates: Seq<Candidate>) -> bool {
    forall|j: int| 0 <= j < candidates.len() ==> !candidates[j].eligible
}

/// The position of the latest candidate, if any is eligible.
pub open spec fn latest(candidates: Seq<Candidate>) -> Option<int> {
    if exists|at: int| is_latest(candidates, at) {
        Some(choose|at: int| is_latest(candidates, at))
    } else {
        None
    }
}

/// The current chat of a timeline: the position of its latest started chat.
pub open spec fn current_chat(events: Seq<ChatEventView>) -> Option<int> {
    latest(candidates_of(events))
}

/// At most one position is the latest.
pub proof fn lemma_latest_is_unique(candidates: Seq<Candidate>, a: int, b: int)
    requires
        is_latest(candidates, a),
        is_latest(candidates, b),
    ensures
        a == b,
{
}

/// Where some candidate is eligible, some position is the latest; where none
/// is, no position is.
pub proof fn lemma_latest_exists(candidates: Seq<Candidate>)
    ensures
        none_eligible(candidates) <==> latest(candidates) is None,
        latest(candidates) matches Some(at) ==> is_latest(candidates, at),
{
    if none_eligible(candidates) {
        assert(forall|at: int| !is_latest(candidates, at));
    } else {
        lemma_latest_upto(candidates, candidates.len() as int);
        assert(candidates.take(candidates.len() as int) =~= candidates);
    }
}

/// Among the first `n` candidates, one is the latest of them unless none of
/// them is eligible.
proof fn lemma_latest_upto(candidates: Seq<Candidate>, n: int)
    requires
        0 <= n <= candidates.len(),
    ensures
        none_eligible(candidates.take(n)) || exists|at: int| is_latest(candidates.take(n), at),
    decreases n,
{
    if n > 0 {
        lemma_latest_upto(candidates, n - 1);
        let shorter = candidates.take(n - 1);
        let longer = candidates.take(n);
        let last = candidates[n - 1];
        assert(forall|j: int| 0 <= j < n - 1 ==> shorter[j] == longer[j]);
        if last.eligible {
            if none_eligible(shorter) {
                assert(is_latest(longer, n - 1));
            } else {
                let at = choose|at: int| is_latest(shorter, at);
                if last.key >= shorter[at].key {
                    assert(is_latest(longer, n - 1));
                } else {
                    assert(is_latest(longer, at));
                }
            }
        } else {
            if none_eligible(shorter) {
                assert(none_eligible(longer));
            } else {
                let at = choose|at: int| is_latest(shorter, at);
                assert(is_latest(longer, at));
            }
        }
    } else {
        assert(none_eligible(candidates.take(n)));
    }
    if n == candidates.len() {
        assert(candidates.take(n) =~= candidates);
    }
}

/// Picks the latest candidate: the eligible one with the greatest key, and
/// of several with that key the last. Nothing when no candidate is eligible.
pub fn pick_latest(candidates: &Vec<Candidate>) -> (r: Option<usize>)
    ensures
        match r {
            Some(at) => is_latest(candidates@, at as int),
            None => none_eligible(candidates@),
        },
        match r {
            Some(at) => latest(candidates@) == Some(at as int),
            None => latest(candidates@) is None,
        },
{
    let mut best: Option<usize> = None;
    let mut i: usize = 0;
    while i < candidates.len()
        invariant
            i <= candidates.len(),
            match best {
                Some(at) => is_latest(candidates@.take(i as int), at as int),
                None => none_eligible(candidates@.take(i as int)),
            },
        decreases candidates.len() - i,
    {
        let candidate = candidates[i];
        let ghost before = candidates@.take(i as int);
        let ghost after = candidates@.take(i + 1);
        assert(forall|j: int| 0 <= j < i ==> before[j] == after[j]);
        if candidate.eligible {
            match best {
                Some(at) => {
                    if candidate.key >= candidates[at].key {
                        best = Some(i);
                    }
                },
                None => {
                    best = Some(i);
                },
            }
        }
        i += 1;
    }
    proof {
        assert(candidates@.take(i as int) =~= candidates@);
        lemma_latest_exists(candidates@);
        if let Some(at) = best {
            lemma_latest_is_unique(candidates@, at as int, latest(candidates@).unwrap());
        }
    }
    best
}

/// Reads a number as a signed 64-bit value of the same bits.
pub fn reinterpreted(n: u64) -> (r: i64)
    ensures
        r == reinterpret(n),
{
    if n <= 0x7fff_ffff_ffff_ffff {
        n as i64
    } else {
        let high: u64 = n - 0x8000_0000_0000_0000;
        (high as i64) + i64::MIN
    }
}

/// Computes the moment that places an event.
pub fn moment_of(event: &ChatEvent) -> (key: i64)
    ensures
        key == moment(event@),
{
    let by_number: i64 = match event.chat_number {
        Some(n) => reinterpreted(n),
        None => 0,
    };
    match &event.time {
        Some(text) => match parse_seconds(text.as_str(), TIME_FORMAT) {
            Some(seconds) => seconds,
            None => by_number,
        },
        None => by_number,
    }
}

/// Whether an event starts a chat that was not deleted.
pub fn is_started(event: &ChatEvent) -> (r: bool)
    ensures
        r == started(event@),
{
    let live = match event.deleted {
        Some(flag) => !flag,
        None => false,
    };
    let titled = match &event.title {
        Some(title) => crate::text::same(title.as_str(), STARTED_CHAT),
        None => false,
    };
    live && titled
}

/// Finds the current chat of a timeline.
pub fn find_current_chat(events: &Vec<ChatEvent>) -> (r: Option<usize>)
    ensures
        match r {
            Some(at) => current_chat(events_view(events@)) == Some(at as int) && at < events.len(),
            None => current_chat(events_view(events@)) is None,
        },
{
    let mut candidates: Vec<Candidate> = Vec::new();
    let mut i: usize = 0;
    while i < events.len()
        invariant
            i <= events.len(),
            candidates@ == candidates_of(events_view(events@)).take(i as int),
        decreases events.len() - i,
    {
        let event = &events[i];
        candidates.push(Candidate { eligible: is_started(event), key: moment_of(event) });
        proof {
            let all = candidates_of(events_view(events@));
            assert(candidates@ =~= all.take(i + 1));
        }
        i += 1;
    }
    proof {
        let all = candidates_of(events_view(events@));
        assert(all.take(i as int) =~= all);
    }
    pick_latest(&candidates)
}

/// Reads one timeline entry.
pub fn read_event(item: &serde_json::Value) -> (event: ChatEvent)
    ensures
        event@ == event_of(json_content(*item)),
{
    ChatEvent {
        deleted: member_flag(item, "deleted"),
        title: member_text(item, "title"),
        time: member_text(item, "time"),
        chat_number: member_unsigned(item, "chatID"),
        chat_id: member_text(item, "chatID"),
    }
}

/// Reads the entries of a timeline document, when it is an array.
pub fn read_events(doc: &serde_json::Value) -> (r: Option<Vec<ChatEvent>>)
    ensures
        match r {
            Some(events) => events_of(json_content(*doc)) == Some(events_view(events@)),
            None => events_of(json_content(*doc)) is None,
        },
{
    match as_array(doc) {
        Some(items) => {
            let mut events: Vec<ChatEvent> = Vec::new();
            let mut i: usize = 0;
            while i < items.len()
                invariant
                    i <= items.len(),
                    events@.len() == i,
                    events_view(events@) == contents(items@).map_values(
                        |item: JsonDoc| event_of(item),
                    ).take(i as int),
                decreases items.len() - i,
            {
                let ghost before = events_view(events@);
                events.push(read_event(&items[i]));
                proof {
                    let all = contents(items@).map_values(|item: JsonDoc| event_of(item));
                    assert(before.len() == i);
                    assert(events_view(events@).len() == i + 1);
                    assert forall|j: int| 0 <= j < i + 1 implies events_view(events@)[j]
                        == all.take(i + 1)[j] by {
                        if j < i {
                            assert(events_view(events@)[j] == before[j]);
                        }
                    }
                    assert(events_view(events@) =~= all.take(i + 1));
                }
                i += 1;
            }
            proof {
                let all = contents(items@).map_values(|item: JsonDoc| event_of(item));
                assert(all.take(i as int) =~= all);
            }
            Some(events)
        },
        None => None,
    }
}

} // verus!
