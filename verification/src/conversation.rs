//! What holds of every reconciliation, whatever the CRM and the gateway
//! answer.
//!
//! A run is a reconciliation that is fed a sequence of answers. The stages it
//! passes through say which requests it asked: the flow is asked for at the
//! stage `StartingFlow`, the prompt at `SendingPrompt`, and at no other.

use crate::crm::{
    ask, created_id, found_id, next, JobView, ReconcilerView, Settled, StageView, StepView,
    EXISTING_CONTACT_MARK, FINISHING,
};
use crate::gateway::UNREAD_BODY;
use crate::http::{body_or, success, ReplyView};
use crate::json::{flag_of, json_parsed, member, text_of, JsonDoc};
use crate::text::occurs_in;
use vstd::prelude::*;

verus! {

/// The reconciliation of a job at its beginning.
pub open spec fn beginning(job: JobView) -> ReconcilerView {
    ReconcilerView { job, stage: StageView::CreatingContact }
}

/// The stages that a reconciliation enters, in order, while it is fed the
/// answers `replies`.
pub open spec fn stages_after(reconciler: ReconcilerView, replies: Seq<ReplyView>) -> Seq<
    StageView,
>
    decreases replies.len(),
{
    if replies.len() == 0 {
        Seq::empty()
    } else {
        match next(reconciler, replies[0]) {
            StepView::Ask(then, _) => seq![then.stage] + stages_after(then, replies.drop_first()),
            _ => Seq::empty(),
        }
    }
}

/// How a reconciliation that is fed the answers `replies` ends; nothing
/// while it still waits for an answer.
pub open spec fn end_after(reconciler: ReconcilerView, replies: Seq<ReplyView>) -> Option<StepView>
    decreases replies.len(),
{
    if replies.len() == 0 {
        None
    } else {
        match next(reconciler, replies[0]) {
            StepView::Ask(then, _) => end_after(then, replies.drop_first()),
            done => Some(done),
        }
    }
}

/// All the stages of the run of a job on the answers `replies`.
pub open spec fn stages_of(job: JobView, replies: Seq<ReplyView>) -> Seq<StageView> {
    seq![StageView::CreatingContact] + stages_after(beginning(job), replies)
}

/// How the run of a job on the answers `replies` ends.
pub open spec fn end_of(job: JobView, replies: Seq<ReplyView>) -> Option<StepView> {
    end_after(beginning(job), replies)
}

/// The place of a stage in the order of a reconciliation.
pub open spec fn rank(stage: StageView) -> int {
    match stage {
        StageView::CreatingContact => 0,
        StageView::SearchingContact => 1,
        StageView::ReadingTimeline { .. } => 2,
        StageView::ReadingChat { .. } => 3,
        StageView::StartingFlow { .. } => 4,
        StageView::SendingPrompt => 5,
    }
}

/// Whether no stage of the run asks for the flow.
pub open spec fn flow_never_asked(stages: Seq<StageView>) -> bool {
    forall|i: int| 0 <= i < stages.len() ==> !(#[trigger] stages[i] is StartingFlow)
}

/// Whether exactly one stage of the run asks for the flow.
pub open spec fn flow_asked_once(stages: Seq<StageView>) -> bool {
    exists|i: int|
        0 <= i < stages.len() && #[trigger] stages[i] is StartingFlow && forall|j: int|
            0 <= j < stages.len() && j != i ==> !(#[trigger] stages[j] is StartingFlow)
}

/// Whether no stage of the run sends the prompt.
pub open spec fn prompt_never_sent(stages: Seq<StageView>) -> bool {
    forall|i: int| 0 <= i < stages.len() ==> !(#[trigger] stages[i] is SendingPrompt)
}

/// Whether exactly one stage of the run sends the prompt.
pub open spec fn prompt_sent_once(stages: Seq<StageView>) -> bool {
    exists|i: int|
        0 <= i < stages.len() && #[trigger] stages[i] is SendingPrompt && forall|j: int|
            0 <= j < stages.len() && j != i ==> !(#[trigger] stages[j] is SendingPrompt)
}

/// Whether the stages come in the order of a reconciliation, none twice.
pub open spec fn ascending(stages: Seq<StageView>) -> bool {
    forall|i: int, j: int|
        0 <= i < j < stages.len() ==> rank(#[trigger] stages[i]) < rank(#[trigger] stages[j])
}

/// Every answer either ends the reconciliation or moves it to a later stage
/// of the same job, and the request it then asks is the one of that stage.
pub proof fn lemma_step_moves_on(reconciler: ReconcilerView, reply: ReplyView)
    ensures
        match next(reconciler, reply) {
            StepView::Ask(then, request) => {
                &&& then.job == reconciler.job
                &&& rank(then.stage) > rank(reconciler.stage)
                &&& next(reconciler, reply) == ask(reconciler.job, then.stage)
            },
            StepView::Settled(Settled::LeftOpen) => reconciler.stage is ReadingChat,
            StepView::Settled(Settled::Started { .. }) => reconciler.stage is SendingPrompt,
            StepView::Failed(_) => !(reconciler.stage is SendingPrompt),
        },
        next(reconciler, reply) matches StepView::Ask(then, _) ==> (then.stage is SendingPrompt
            <==> reconciler.stage is StartingFlow),
{
}

/// The stages of a run come in order, and how the run ends tells which of
/// them it passed.
proof fn lemma_run(reconciler: ReconcilerView, replies: Seq<ReplyView>)
    ensures
        ascending(stages_after(reconciler, replies)),
        forall|i: int|
            0 <= i < stages_after(reconciler, replies).len() ==> rank(
                #[trigger] stages_after(reconciler, replies)[i],
            ) > rank(reconciler.stage),
        end_after(reconciler, replies) == Some(StepView::Settled(Settled::LeftOpen)) ==> forall|
            i: int,
        |
            0 <= i < stages_after(reconciler, replies).len() ==> rank(
                #[trigger] stages_after(reconciler, replies)[i],
            ) <= 3,
        end_after(reconciler, replies) matches Some(StepView::Settled(Settled::Started { .. }))
            ==> {
            &&& rank(reconciler.stage) < 4 ==> exists|i: int|
                0 <= i < stages_after(reconciler, replies).len() && #[trigger] stages_after(
                    reconciler,
                    replies,
                )[i] is StartingFlow
            &&& rank(reconciler.stage) < 5 ==> exists|i: int|
                0 <= i < stages_after(reconciler, replies).len() && #[trigger] stages_after(
                    reconciler,
                    replies,
                )[i] is SendingPrompt
        },
    decreases replies.len(),
{
    let stages = stages_after(reconciler, replies);
    if replies.len() > 0 {
        lemma_step_moves_on(reconciler, replies[0]);
        match next(reconciler, replies[0]) {
            StepView::Ask(then, _) => {
                let rest = stages_after(then, replies.drop_first());
                lemma_run(then, replies.drop_first());
                assert(stages == seq![then.stage] + rest);
                assert(stages[0] == then.stage);
                assert(forall|i: int| 0 <= i < rest.len() ==> stages[i + 1] == rest[i]);
                assert forall|i: int, j: int| 0 <= i < j < stages.len() implies rank(
                    #[trigger] stages[i],
                ) < rank(#[trigger] stages[j]) by {
                    assert(stages[j] == rest[j - 1]);
                    if i > 0 {
                        assert(stages[i] == rest[i - 1]);
                    }
                }
                assert forall|i: int| 0 <= i < stages.len() implies rank(#[trigger] stages[i])
                    > rank(reconciler.stage) by {
                    if i > 0 {
                        assert(stages[i] == rest[i - 1]);
                    }
                }
                if end_after(reconciler, replies) == Some(StepView::Settled(Settled::LeftOpen)) {
                    assert forall|i: int| 0 <= i < stages.len() implies rank(#[trigger] stages[i])
                        <= 3 by {
                        if i > 0 {
                            assert(stages[i] == rest[i - 1]);
                        } else {
                            if rest.len() > 0 {
                                assert(rank(rest[0]) <= 3);
                            } else {
                                assert(replies.drop_first().len() > 0);
                                lemma_step_moves_on(then, replies.drop_first()[0]);
                            }
                        }
                    }
                }
                if end_after(reconciler, replies) matches Some(
                    StepView::Settled(Settled::Started { .. }),
                ) {
                    if rank(reconciler.stage) < 4 {
                        if then.stage is StartingFlow {
                            assert(stages[0] is StartingFlow);
                        } else {
                            let i = choose|i: int|
                                0 <= i < rest.len() && #[trigger] rest[i] is StartingFlow;
                            assert(stages[i + 1] is StartingFlow);
                        }
                    }
                    if rank(reconciler.stage) < 5 {
                        if then.stage is SendingPrompt {
                            assert(stages[0] is SendingPrompt);
                        } else {
                            let i = choose|i: int|
                                0 <= i < rest.len() && #[trigger] rest[i] is SendingPrompt;
                            assert(stages[i + 1] is SendingPrompt);
                        }
                    }
                }
            },
            _ => {},
        }
    }
}

/// The stages of a run, its first included, come in the order of a
/// reconciliation.
pub proof fn lemma_stages_ascend(job: JobView, replies: Seq<ReplyView>)
    ensures
        ascending(stages_of(job, replies)),
{
    let rest = stages_after(beginning(job), replies);
    let stages = stages_of(job, replies);
    lemma_run(beginning(job), replies);
    assert forall|i: int, j: int| 0 <= i < j < stages.len() implies rank(#[trigger] stages[i])
        < rank(#[trigger] stages[j]) by {
        assert(stages[j] == rest[j - 1]);
        if i > 0 {
            assert(stages[i] == rest[i - 1]);
        }
    }
}

/// Whatever is answered, a run asks for the flow at most once and sends the
/// prompt at most once.
pub proof fn lemma_nothing_twice(job: JobView, replies: Seq<ReplyView>)
    ensures
        forall|i: int, j: int|
            #![trigger stages_of(job, replies)[i], stages_of(job, replies)[j]]
            0 <= i < j < stages_of(job, replies).len() ==> !(stages_of(job, replies)[i]
                is StartingFlow && stages_of(job, replies)[j] is StartingFlow),
        forall|i: int, j: int|
            #![trigger stages_of(job, replies)[i], stages_of(job, replies)[j]]
            0 <= i < j < stages_of(job, replies).len() ==> !(stages_of(job, replies)[i]
                is SendingPrompt && stages_of(job, replies)[j] is SendingPrompt),
{
    lemma_stages_ascend(job, replies);
}

/// A run that ends with the conversation left open has asked for no flow and
/// sent no prompt.
pub proof fn lemma_left_open_starts_nothing(job: JobView, replies: Seq<ReplyView>)
    requires
        end_of(job, replies) == Some(StepView::Settled(Settled::LeftOpen)),
    ensures
        flow_never_asked(stages_of(job, replies)),
        prompt_never_sent(stages_of(job, replies)),
{
    let rest = stages_after(beginning(job), replies);
    let stages = stages_of(job, replies);
    lemma_run(beginning(job), replies);
    assert forall|i: int| 0 <= i < stages.len() implies rank(#[trigger] stages[i]) <= 3 by {
        if i > 0 {
            assert(stages[i] == rest[i - 1]);
        }
    }
}

/// A run that ends with a started flow has asked for the flow exactly once
/// and sent the prompt exactly once.
pub proof fn lemma_started_asks_once(job: JobView, replies: Seq<ReplyView>)
    requires
        end_of(job, replies) matches Some(StepView::Settled(Settled::Started { .. })),
    ensures
        flow_asked_once(stages_of(job, replies)),
        prompt_sent_once(stages_of(job, replies)),
{
    let rest = stages_after(beginning(job), replies);
    let stages = stages_of(job, replies);
    lemma_run(beginning(job), replies);
    lemma_stages_ascend(job, replies);
    let f = choose|i: int| 0 <= i < rest.len() && #[trigger] rest[i] is StartingFlow;
    assert(stages[f + 1] is StartingFlow);
    assert forall|j: int| 0 <= j < stages.len() && j != f + 1 implies !(#[trigger] stages[j]
        is StartingFlow) by {
        if j < f + 1 {
            assert(rank(stages[j]) < rank(stages[f + 1]));
        } else {
            assert(rank(stages[f + 1]) < rank(stages[j]));
        }
    }
    let p = choose|i: int| 0 <= i < rest.len() && #[trigger] rest[i] is SendingPrompt;
    assert(stages[p + 1] is SendingPrompt);
    assert forall|j: int| 0 <= j < stages.len() && j != p + 1 implies !(#[trigger] stages[j]
        is SendingPrompt) by {
        if j < p + 1 {
            assert(rank(stages[j]) < rank(stages[p + 1]));
        } else {
            assert(rank(stages[p + 1]) < rank(stages[j]));
        }
    }
}

/// A chat whose detail shows neither the situation `finishing` nor a
/// disabled session is left alone: the reconciliation ends there, with
/// nothing asked.
pub proof fn lemma_open_chat_is_left_alone(
    job: JobView,
    contact_id: Seq<char>,
    chat_id: Seq<char>,
    status: u16,
    body: Seq<char>,
    detail: JsonDoc,
)
    requires
        success(status),
        json_parsed(body) == Some(detail),
        text_of(member(detail, "situation"@)) != Some(FINISHING@),
        flag_of(member(detail, "enabledSession"@)) == Some(true),
    ensures
        next(
            ReconcilerView { job, stage: StageView::ReadingChat { contact_id, chat_id } },
            ReplyView::Answered { status, body: Some(body) },
        ) == StepView::Settled(Settled::LeftOpen),
{
}

/// A chat whose detail shows the situation `finishing` is followed by the
/// request for the flow.
pub proof fn lemma_finishing_chat_starts_flow(
    job: JobView,
    contact_id: Seq<char>,
    chat_id: Seq<char>,
    status: u16,
    body: Seq<char>,
    detail: JsonDoc,
)
    requires
        success(status),
        json_parsed(body) == Some(detail),
        text_of(member(detail, "situation"@)) == Some(FINISHING@),
    ensures
        next(
            ReconcilerView { job, stage: StageView::ReadingChat { contact_id, chat_id } },
            ReplyView::Answered { status, body: Some(body) },
        ) == ask(job, StageView::StartingFlow { contact_id }),
{
}

/// A contact that exists already and is found by the search is taken up
/// exactly as one that was newly created with the same id: both lead to the
/// same stage and the same request.
pub proof fn lemma_found_contact_joins_created(
    job: JobView,
    contact_id: Seq<char>,
    created: ReplyView,
    conflict: ReplyView,
    found: ReplyView,
)
    requires
        created matches ReplyView::Answered { status, body } && success(status) && created_id(
            json_parsed(body_or(body, UNREAD_BODY@)),
        ) == Some(contact_id),
        conflict matches ReplyView::Answered { status, body } && !success(status) && occurs_in(
            EXISTING_CONTACT_MARK@,
            body_or(body, UNREAD_BODY@),
        ),
        found matches ReplyView::Answered { status, body } && success(status) && found_id(
            json_parsed(body_or(body, "[]"@)),
        ) == Some(contact_id),
    ensures
        next(beginning(job), created) == ask(job, StageView::ReadingTimeline { contact_id }),
        next(beginning(job), conflict) == ask(job, StageView::SearchingContact),
        next(ReconcilerView { job, stage: StageView::SearchingContact }, found) == next(
            beginning(job),
            created,
        ),
{
}

/// The reconciliation as it stands once it has taken the answers `replies`;
/// nothing when it has ended before the last of them.
pub open spec fn reached(reconciler: ReconcilerView, replies: Seq<ReplyView>) -> Option<
    ReconcilerView,
>
    decreases replies.len(),
{
    if replies.len() == 0 {
        Some(reconciler)
    } else {
        match next(reconciler, replies[0]) {
            StepView::Ask(then, _) => reached(then, replies.drop_first()),
            _ => None,
        }
    }
}

/// The answers of a run in which one answer is singled out: those before
/// it, the answer itself, and those after it.
pub open spec fn around(before: Seq<ReplyView>, reply: ReplyView, after: Seq<ReplyView>) -> Seq<
    ReplyView,
> {
    before + (seq![reply] + after)
}

/// A run on two sequences of answers in a row is the run on the first,
/// followed by the run from where that one stands on the second.
pub proof fn lemma_run_splits(
    reconciler: ReconcilerView,
    first: Seq<ReplyView>,
    second: Seq<ReplyView>,
)
    requires
        reached(reconciler, first) is Some,
    ensures
        reached(reconciler, first)->Some_0.job == reconciler.job,
        stages_after(reconciler, first + second) == stages_after(reconciler, first)
            + stages_after(reached(reconciler, first)->Some_0, second),
        end_after(reconciler, first + second) == end_after(
            reached(reconciler, first)->Some_0,
            second,
        ),
    decreases first.len(),
{
    if first.len() == 0 {
        assert(first + second =~= second);
        assert(stages_after(reconciler, first) + stages_after(reconciler, second)
            =~= stages_after(reconciler, second));
    } else {
        let whole = first + second;
        assert(whole[0] == first[0]);
        assert(whole.drop_first() =~= first.drop_first() + second);
        lemma_step_moves_on(reconciler, first[0]);
        match next(reconciler, first[0]) {
            StepView::Ask(then, _) => {
                lemma_run_splits(then, first.drop_first(), second);
                let standing = reached(reconciler, first)->Some_0;
                assert(stages_after(reconciler, whole) =~= stages_after(reconciler, first)
                    + stages_after(standing, second));
            },
            _ => {},
        }
    }
}

/// Whenever the detail of the current chat shows it open, the run ends there
/// with the conversation left as it is: whatever was answered before and
/// whatever would be answered after, no flow is asked for and no prompt is
/// sent.
pub proof fn lemma_open_chat_starts_nothing(
    job: JobView,
    before: Seq<ReplyView>,
    status: u16,
    body: Seq<char>,
    detail: JsonDoc,
    after: Seq<ReplyView>,
)
    requires
        reached(beginning(job), before) matches Some(standing) && standing.stage is ReadingChat,
        success(status),
        json_parsed(body) == Some(detail),
        text_of(member(detail, "situation"@)) != Some(FINISHING@),
        flag_of(member(detail, "enabledSession"@)) == Some(true),
    ensures
        end_of(job, around(before, ReplyView::Answered { status, body: Some(body) }, after))
            == Some(StepView::Settled(Settled::LeftOpen)),
        flow_never_asked(
            stages_of(job, around(before, ReplyView::Answered { status, body: Some(body) }, after)),
        ),
        prompt_never_sent(
            stages_of(job, around(before, ReplyView::Answered { status, body: Some(body) }, after)),
        ),
{
    let reply = ReplyView::Answered { status, body: Some(body) };
    let tail = seq![reply] + after;
    lemma_run_splits(beginning(job), before, tail);
    assert(tail[0] == reply);
    lemma_left_open_starts_nothing(job, around(before, reply, after));
}

/// Whenever the detail of the current chat shows the situation `finishing`,
/// the flow is asked for next, and in the whole run exactly once, whatever
/// was answered before and whatever is answered after.
pub proof fn lemma_finishing_chat_asks_flow_once(
    job: JobView,
    before: Seq<ReplyView>,
    status: u16,
    body: Seq<char>,
    detail: JsonDoc,
    after: Seq<ReplyView>,
)
    requires
        reached(beginning(job), before) matches Some(standing) && standing.stage is ReadingChat,
        success(status),
        json_parsed(body) == Some(detail),
        text_of(member(detail, "situation"@)) == Some(FINISHING@),
    ensures
        flow_asked_once(
            stages_of(job, around(before, ReplyView::Answered { status, body: Some(body) }, after)),
        ),
{
    let reply = ReplyView::Answered { status, body: Some(body) };
    let tail = seq![reply] + after;
    let whole = around(before, reply, after);
    let standing = reached(beginning(job), before)->Some_0;
    lemma_run_splits(beginning(job), before, tail);
    assert(tail[0] == reply);
    let early = stages_after(beginning(job), before);
    let late = stages_after(standing, tail);
    assert(late.len() > 0 && late[0] is StartingFlow);
    let stages = stages_of(job, whole);
    let at = 1 + early.len() as int;
    assert(stages =~= seq![StageView::CreatingContact] + (early + late));
    assert(stages[at] == late[0]);
    lemma_stages_ascend(job, whole);
    assert forall|j: int| 0 <= j < stages.len() && j != at implies !(#[trigger] stages[j]
        is StartingFlow) by {
        if j < at {
            assert(rank(stages[j]) < rank(stages[at]));
        } else {
            assert(rank(stages[at]) < rank(stages[j]));
        }
    }
}

} // verus!
