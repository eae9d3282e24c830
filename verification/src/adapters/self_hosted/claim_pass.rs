//! Claiming the messages of a queue, step by step: the answers that deliveries still wait for
//! are sent, and then what the broker delivers is claimed or answered. The caller performs
//! what a step asks for and hands back what became of it.

use vstd::prelude::*;

use crate::adapters::self_hosted::naming;
use crate::adapters::self_hosted::queue;
use crate::adapters::self_hosted::queue::{
    check_claim, decide_answer, AckAnswer, ClaimOutcome, PendingQueueReply, QueueDelivery,
};
use crate::adapters::self_hosted::worker::{fetch_command, JetStreamDelivery, WorkerCommand};
use crate::text;

verus! {

/// What is claimed, by whom and for how long.
#[derive(Debug)]
pub struct ClaimCase {
    pub queue: String,
    pub owner: String,
    pub now_ms: i64,
    pub visibility_timeout_ms: i64,
    pub limit: usize,
}

/// Where claiming stands: what it waits for.
#[derive(Debug)]
pub enum ClaimStage {
    /// What became of the leases that ran out.
    Staging,
    /// The answers that deliveries wait for.
    Listing,
    /// What became of sending an answer, and the answers that come after it.
    Replying { reply: PendingQueueReply, rest: Vec<PendingQueueReply> },
    /// What became of noting that it was sent.
    Finalizing { rest: Vec<PendingQueueReply> },
    /// What the broker delivers.
    Fetching,
    /// What comes of claiming a delivery, which is answered at `reply_subject`; the
    /// deliveries that come after it; and what was claimed before.
    Claiming { reply_subject: String, rest: Vec<JetStreamDelivery>, claimed: Vec<QueueDelivery> },
    /// What became of answering a delivery that was not claimed.
    Answering { rest: Vec<JetStreamDelivery>, claimed: Vec<QueueDelivery> },
}

/// What became of what a step asked for.
#[derive(Debug)]
pub enum ClaimEvent {
    /// It failed.
    Failed(String),
    /// It is done.
    Done,
    Replies(Vec<PendingQueueReply>),
    Deliveries(Vec<JetStreamDelivery>),
    Outcome(ClaimOutcome),
}

/// What a step asks for.
#[derive(Debug)]
pub enum ClaimAction {
    /// To have the deliveries answered whose lease has run out.
    StageExpired { queue: String, now_ms: i64 },
    ListReplies { queue: String, now_ms: i64 },
    /// To have the worker answer a delivery.
    Answer(WorkerCommand),
    /// To note that an answer was sent.
    Finalize(PendingQueueReply),
    /// To have the worker fetch deliveries.
    Fetch(WorkerCommand),
    Claim { owner: String, now_ms: i64, visibility_timeout_ms: i64, delivery: JetStreamDelivery },
}

/// What comes of a step.
#[derive(Debug)]
pub enum QueueClaimStep {
    Ask { stage: ClaimStage, action: ClaimAction },
    End(Result<Vec<QueueDelivery>, String>),
}

/// Whether an event is one that a stage waits for.
pub open spec fn claim_fits(stage: ClaimStage, event: ClaimEvent) -> bool {
    event is Failed || match stage {
        ClaimStage::Staging | ClaimStage::Replying { .. } | ClaimStage::Finalizing { .. }
        | ClaimStage::Answering { .. } => event is Done,
        ClaimStage::Listing => event is Replies,
        ClaimStage::Fetching => event is Deliveries,
        ClaimStage::Claiming { .. } => event is Outcome,
    }
}

/// Whether a command answers a delivery.
pub open spec fn answers(command: WorkerCommand, reply_subject: Seq<char>, answer: AckAnswer) -> bool {
    command matches WorkerCommand::AckReply { reply_subject: to, answer: sent } && to@
        == reply_subject && sent == answer
}

/// Whether a step goes on with the answers that are left: it sends the first of them, or
/// fetches where there is none.
pub open spec fn goes_on_replying(case: ClaimCase, rest: Seq<PendingQueueReply>, r: QueueClaimStep) -> bool {
    if rest.len() == 0 {
        r matches QueueClaimStep::Ask { stage: ClaimStage::Fetching, action: ClaimAction::Fetch(command) }
            && (command matches WorkerCommand::FetchQueue { queue, subject, limit } && queue@
            == case.queue@ && subject@ == "queue."@ + naming::component(case.queue@) && limit
            == case.limit)
    } else {
        r matches QueueClaimStep::Ask {
            stage: ClaimStage::Replying { reply, rest: left },
            action: ClaimAction::Answer(command),
        } && reply == rest[0] && left@ == rest.drop_first() && answers(
            command,
            reply.reply_subject@,
            queue::answer_of(reply.kind, reply.delay_ms),
        )
    }
}

/// Whether a step goes on with the deliveries that are left: it claims the first of them, or
/// ends with what was claimed where there is none.
pub open spec fn goes_on_claiming(
    case: ClaimCase,
    rest: Seq<JetStreamDelivery>,
    claimed: Seq<QueueDelivery>,
    r: QueueClaimStep,
) -> bool {
    if rest.len() == 0 {
        r matches QueueClaimStep::End(Ok(list)) && list@ == claimed
    } else {
        r matches QueueClaimStep::Ask {
            stage: ClaimStage::Claiming { reply_subject, rest: left, claimed: kept },
            action: ClaimAction::Claim { owner, now_ms, visibility_timeout_ms, delivery },
        } && delivery == rest[0] && reply_subject@ == delivery.reply_subject@ && left@
            == rest.drop_first() && kept@ == claimed && owner@ == case.owner@ && now_ms
            == case.now_ms && visibility_timeout_ms == case.visibility_timeout_ms
    }
}

/// Whether a step is the first of claiming messages.
pub open spec fn claim_begins(case: ClaimCase, r: QueueClaimStep) -> bool {
    if text::is_blank(case.queue@) || text::is_blank(case.owner@) || case.limit == 0
        || case.visibility_timeout_ms <= 0 {
        r matches QueueClaimStep::End(Err(e)) && e@ == "invalid durable queue claim"@
    } else {
        r matches QueueClaimStep::Ask {
            stage: ClaimStage::Staging,
            action: ClaimAction::StageExpired { queue, now_ms },
        } && queue@ == case.queue@ && now_ms == case.now_ms
    }
}

/// Whether a step is the one that a stage and an event lead to.
pub open spec fn claim_leads_to(
    case: ClaimCase,
    stage: ClaimStage,
    event: ClaimEvent,
    r: QueueClaimStep,
) -> bool {
    match (stage, event) {
        (_, ClaimEvent::Failed(code)) => r matches QueueClaimStep::End(Err(e)) && e@ == code@,
        (ClaimStage::Staging, ClaimEvent::Done) => r matches QueueClaimStep::Ask {
            stage: ClaimStage::Listing,
            action: ClaimAction::ListReplies { queue, now_ms },
        } && queue@ == case.queue@ && now_ms == case.now_ms,
        (ClaimStage::Listing, ClaimEvent::Replies(list)) => goes_on_replying(case, list@, r),
        (ClaimStage::Replying { reply, rest }, ClaimEvent::Done) => r == (QueueClaimStep::Ask {
            stage: ClaimStage::Finalizing { rest },
            action: ClaimAction::Finalize(reply),
        }),
        (ClaimStage::Finalizing { rest }, ClaimEvent::Done) => goes_on_replying(case, rest@, r),
        (ClaimStage::Fetching, ClaimEvent::Deliveries(list)) => goes_on_claiming(
            case,
            list@,
            seq![],
            r,
        ),
        (
            ClaimStage::Claiming { reply_subject, rest, claimed },
            ClaimEvent::Outcome(outcome),
        ) => match outcome {
            ClaimOutcome::Claimed(message) => goes_on_claiming(
                case,
                rest@,
                claimed@.push(message),
                r,
            ),
            ClaimOutcome::Answered(answer) => r matches QueueClaimStep::Ask {
                stage: ClaimStage::Answering { rest: left, claimed: kept },
                action: ClaimAction::Answer(command),
            } && left == rest && kept == claimed && answers(command, reply_subject@, answer),
        },
        (ClaimStage::Answering { rest, claimed }, ClaimEvent::Done) => goes_on_claiming(
            case,
            rest@,
            claimed@,
            r,
        ),
        _ => false,
    }
}

/// Begins to claim messages of a queue.
pub fn begin_claim(case: &ClaimCase) -> (r: QueueClaimStep)
    ensures
        claim_begins(*case, r),
{
    match check_claim(
        case.queue.as_str(),
        case.owner.as_str(),
        case.visibility_timeout_ms,
        case.limit,
    ) {
        Err(code) => QueueClaimStep::End(Err(code)),
        Ok(_) => QueueClaimStep::Ask {
            stage: ClaimStage::Staging,
            action: ClaimAction::StageExpired { queue: case.queue.clone(), now_ms: case.now_ms },
        },
    }
}

fn next_reply(case: &ClaimCase, rest: Vec<PendingQueueReply>) -> (r: QueueClaimStep)
    ensures
        goes_on_replying(*case, rest@, r),
{
    if rest.len() == 0 {
        return QueueClaimStep::Ask {
            stage: ClaimStage::Fetching,
            action: ClaimAction::Fetch(fetch_command(case.queue.as_str(), case.limit)),
        };
    }
    let ghost all = rest@;
    let mut rest = rest;
    let reply = rest.remove(0);
    assert(rest@ =~= all.drop_first());
    let command = WorkerCommand::AckReply {
        reply_subject: reply.reply_subject.clone(),
        answer: decide_answer(&reply),
    };
    QueueClaimStep::Ask {
        stage: ClaimStage::Replying { reply, rest },
        action: ClaimAction::Answer(command),
    }
}

fn next_delivery(
    case: &ClaimCase,
    rest: Vec<JetStreamDelivery>,
    claimed: Vec<QueueDelivery>,
) -> (r: QueueClaimStep)
    ensures
        goes_on_claiming(*case, rest@, claimed@, r),
{
    if rest.len() == 0 {
        return QueueClaimStep::End(Ok(claimed));
    }
    let ghost all = rest@;
    let mut rest = rest;
    let delivery = rest.remove(0);
    assert(rest@ =~= all.drop_first());
    QueueClaimStep::Ask {
        stage: ClaimStage::Claiming {
            reply_subject: delivery.reply_subject.clone(),
            rest,
            claimed,
        },
        action: ClaimAction::Claim {
            owner: case.owner.clone(),
            now_ms: case.now_ms,
            visibility_timeout_ms: case.visibility_timeout_ms,
            delivery,
        },
    }
}

/// The next step of claiming messages of a queue.
pub fn claim(case: &ClaimCase, stage: ClaimStage, event: ClaimEvent) -> (r: QueueClaimStep)
    requires
        claim_fits(stage, event),
    ensures
        claim_leads_to(*case, stage, event, r),
{
    match (stage, event) {
        (_, ClaimEvent::Failed(code)) => QueueClaimStep::End(Err(code)),
        (ClaimStage::Listing, ClaimEvent::Replies(list)) => next_reply(case, list),
        (ClaimStage::Replying { reply, rest }, _) => QueueClaimStep::Ask {
            stage: ClaimStage::Finalizing { rest },
            action: ClaimAction::Finalize(reply),
        },
        (ClaimStage::Finalizing { rest }, _) => next_reply(case, rest),
        (ClaimStage::Fetching, ClaimEvent::Deliveries(list)) => next_delivery(
            case,
            list,
            Vec::new(),
        ),
        (ClaimStage::Claiming { reply_subject, rest, claimed }, ClaimEvent::Outcome(outcome)) => {
            match outcome {
                ClaimOutcome::Claimed(message) => {
                    let mut claimed = claimed;
                    claimed.push(message);
                    next_delivery(case, rest, claimed)
                },
                ClaimOutcome::Answered(answer) => QueueClaimStep::Ask {
                    stage: ClaimStage::Answering { rest, claimed },
                    action: ClaimAction::Answer(WorkerCommand::AckReply { reply_subject, answer }),
                },
            }
        },
        (ClaimStage::Answering { rest, claimed }, _) => next_delivery(case, rest, claimed),
        _ => QueueClaimStep::Ask {
            stage: ClaimStage::Listing,
            action: ClaimAction::ListReplies { queue: case.queue.clone(), now_ms: case.now_ms },
        },
    }
}

/// An answer is noted as sent only once it was sent, and new deliveries are fetched only once
/// no answer is left to send.
pub proof fn answers_go_out_first(
    case: ClaimCase,
    stage: ClaimStage,
    event: ClaimEvent,
    r: QueueClaimStep,
)
    requires
        claim_fits(stage, event),
        claim_leads_to(case, stage, event, r),
    ensures
        r matches QueueClaimStep::Ask { action: ClaimAction::Finalize(noted), .. } ==> (
        stage matches ClaimStage::Replying { reply, .. } && reply == noted && event is Done),
        r matches QueueClaimStep::Ask { action: ClaimAction::Fetch(_), .. } ==> match stage {
            ClaimStage::Listing => event matches ClaimEvent::Replies(list) && list@.len() == 0,
            ClaimStage::Finalizing { rest } => rest@.len() == 0,
            _ => false,
        },
{
}

/// How many deliveries of a fetch a stage has still to look at, with the one that it is
/// looking at.
pub open spec fn deliveries_left(stage: ClaimStage) -> nat {
    match stage {
        ClaimStage::Claiming { rest, .. } => rest@.len() + 1,
        ClaimStage::Answering { rest, .. } => rest@.len(),
        _ => 0,
    }
}

/// A delivery that is looked at joins what was claimed, or is answered where it came from.
/// Then comes the next one, in the order in which they were delivered; what is given in the
/// end is what was claimed.
pub proof fn delivery_is_claimed_or_answered(
    case: ClaimCase,
    reply_subject: String,
    rest: Vec<JetStreamDelivery>,
    claimed: Vec<QueueDelivery>,
    outcome: ClaimOutcome,
    r: QueueClaimStep,
)
    requires
        claim_leads_to(
            case,
            ClaimStage::Claiming { reply_subject, rest, claimed },
            ClaimEvent::Outcome(outcome),
            r,
        ),
    ensures
        match (outcome, r) {
            (ClaimOutcome::Claimed(message), QueueClaimStep::End(given)) => rest@.len() == 0 && (
            given matches Ok(list) && list@ == claimed@.push(message)),
            (
                ClaimOutcome::Claimed(message),
                QueueClaimStep::Ask { stage, action: ClaimAction::Claim { delivery, .. } },
            ) => delivery == rest@[0] && deliveries_left(stage) == rest@.len() && (
            stage matches ClaimStage::Claiming { claimed: kept, .. } && kept@ == claimed@.push(
                message,
            )),
            (
                ClaimOutcome::Answered(answer),
                QueueClaimStep::Ask { stage, action: ClaimAction::Answer(command) },
            ) => answers(command, reply_subject@, answer) && deliveries_left(stage) == rest@.len()
                && (stage matches ClaimStage::Answering { claimed: kept, .. } && kept == claimed),
            _ => false,
        },
{
}

/// How far claiming has still to go: the phases that are left, and the steps of this one.
pub open spec fn claim_rest(stage: ClaimStage) -> (nat, nat) {
    match stage {
        ClaimStage::Staging => (4, 0),
        ClaimStage::Listing => (3, 0),
        ClaimStage::Replying { rest, .. } => (2, 2 * rest@.len() + 1),
        ClaimStage::Finalizing { rest } => (2, 2 * rest@.len()),
        ClaimStage::Fetching => (1, 0),
        ClaimStage::Claiming { rest, .. } => (0, 2 * rest@.len() + 1),
        ClaimStage::Answering { rest, .. } => (0, 2 * rest@.len()),
    }
}

/// Claiming comes to an end: every step enters a later phase, or leaves fewer steps of its
/// phase.
pub proof fn claim_ends(case: ClaimCase, stage: ClaimStage, event: ClaimEvent, r: QueueClaimStep)
    requires
        claim_fits(stage, event),
        claim_leads_to(case, stage, event, r),
    ensures
        r matches QueueClaimStep::Ask { stage: next, .. } ==> claim_rest(next).0 < claim_rest(stage).0
            || (claim_rest(next).0 == claim_rest(stage).0 && claim_rest(next).1 < claim_rest(
            stage,
        ).1),
{
}

} // verus!
