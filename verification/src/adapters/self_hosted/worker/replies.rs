//! What the sender of a command is told: the deliveries that came, the place of an event, or
//! what failed.

use vstd::prelude::*;

use crate::adapters::self_hosted::naming;
use crate::adapters::self_hosted::worker;
use crate::adapters::self_hosted::worker::{
    BrokerMessage, BrokerStream, WorkerAction, WorkerAnswer, WorkerCommand, WorkerEvent, WorkerStage,
    WorkerStep,
};

verus! {

/// Messages that came whole and can be read are told one for one, in their order: each with the
/// name that it carries, where to answer, and its two numbers.
pub proof fn deliveries_are_the_messages(
    messages: Vec<BrokerMessage>,
    answer: WorkerAnswer,
    i: int,
)
    requires
        worker::first_unreadable(messages@) is None,
        worker::answers(
            answer,
            worker::Wanted::Deliveries,
            WorkerEvent::Fetched { messages, broken: None },
        ),
        0 <= i < messages@.len(),
    ensures
        answer matches WorkerAnswer::Deliveries(Ok(list)) && list@.len() == messages@.len()
            && worker::message_named(messages@[i].payload@) == Ok::<Seq<char>, Seq<char>>(
            list@[i].message_id@,
        ) && (messages@[i].reply matches Some(subject) ==> list@[i].reply_subject@ == subject@)
            && list@[i].stream_sequence == messages@[i].stream_sequence as i64
            && list@[i].consumer_sequence == messages@[i].consumer_sequence as i64,
{
}

/// The first message that cannot be read fails the whole, and so does what broke them off.
pub proof fn unreadable_message_fails_the_whole(messages: Seq<BrokerMessage>, at: int)
    requires
        0 <= at < messages.len(),
        worker::message_named(messages[at].payload@) is Err,
        forall|j: int|
            0 <= j < at ==> worker::message_named((#[trigger] messages[j]).payload@) is Ok,
    ensures
        worker::first_unreadable(messages) matches Some(said) && worker::message_named(
            messages[at].payload@,
        ) == Err::<Seq<char>, Seq<char>>(said),
    decreases messages.len(),
{
    if at > 0 {
        let rest = messages.drop_first();
        assert(worker::message_named(messages[0].payload@) is Ok);
        assert(rest[at - 1] == messages[at]);
        assert forall|j: int| 0 <= j < at - 1 implies worker::message_named(
            (#[trigger] rest[j]).payload@,
        ) is Ok by {
            assert(rest[j] == messages[j + 1]);
        }
        unreadable_message_fails_the_whole(rest, at - 1);
    }
}

/// A failure of the broker is told to whoever waits, in the form that they wait for.
pub proof fn failure_is_told_as_it_is_waited_for(
    command: WorkerCommand,
    error: String,
    answer: WorkerAnswer,
)
    requires
        worker::answers(answer, worker::wanted_by(command), WorkerEvent::Failed(error)),
    ensures
        command is FetchQueue ==> (answer matches WorkerAnswer::Deliveries(Err(e)) && e@
            == "jetstream operation failed: "@ + error@),
        command is PublishEvent ==> (answer matches WorkerAnswer::Sequence(Err(e)) && e@
            == "jetstream operation failed: "@ + error@),
        command is PublishQueue || command is PublishBus || command is AckReply ==> (answer
            matches WorkerAnswer::Done(Err(e)) && e@ == "jetstream operation failed: "@ + error@),
{
}

/// Whoever publishes an event is told its place, and any other only that it is done.
pub proof fn place_of_an_event_is_told(
    command: WorkerCommand,
    sequence: u64,
    answer: WorkerAnswer,
)
    requires
        worker::answers(
            answer,
            worker::wanted_by(command),
            WorkerEvent::Published { sequence },
        ),
        !(command is FetchQueue),
    ensures
        command is PublishEvent ==> answer == WorkerAnswer::Sequence(Ok(sequence as i64)),
        !(command is PublishEvent) ==> answer == WorkerAnswer::Done(Ok(())),
{
}

/// Each command needs its own stream: the queues theirs, the events theirs, the notices
/// theirs, and an answer none.
pub proof fn command_needs_its_stream(command: WorkerCommand)
    ensures
        command is PublishQueue || command is FetchQueue ==> worker::stream_of(command) == Some(
            BrokerStream::Queue,
        ),
        command is PublishEvent ==> worker::stream_of(command) == Some(BrokerStream::Event),
        command is PublishBus ==> worker::stream_of(command) == Some(BrokerStream::Bus),
        command is AckReply ==> worker::stream_of(command) is None,
{
}

/// A command is handed to the broker as it was given: a publication with its subject, its name
/// and its payload, a fetch of its queue with its limit, an answer to its delivery.
pub proof fn command_is_handed_over_as_given(
    r: WorkerStep,
    known: worker::KnownStreams,
    command: WorkerCommand,
)
    requires
        worker::performs(r, known, command),
    ensures
        r matches WorkerStep::Ask { stage, action } && (stage is Performing) && match command {
            WorkerCommand::PublishQueue { subject, message_id, payload } => action
                == (WorkerAction::Publish { subject, message_id, payload }),
            WorkerCommand::PublishEvent { subject, message_id, payload } => action
                == (WorkerAction::Publish { subject, message_id, payload }),
            WorkerCommand::PublishBus { subject, message_id, payload } => action
                == (WorkerAction::Publish { subject, message_id, payload }),
            WorkerCommand::FetchQueue { queue, subject, limit } => action is Fetch
                && action->Fetch_consumer@ == "queue_"@ + naming::component(queue@)
                && action->Fetch_subject == subject && action->Fetch_limit == limit,
            WorkerCommand::AckReply { reply_subject, answer } => action == (WorkerAction::Reply {
                reply_subject,
                answer,
            }),
        },
{
}

/// A worker that serves ends just where no command comes any more.
pub proof fn worker_serves_until_it_is_closed(
    known: worker::KnownStreams,
    command: WorkerCommand,
    r: WorkerStep,
)
    ensures
        worker::leads_to(WorkerStage::Serving { known }, WorkerEvent::Closed, r) <==> r
            == WorkerStep::End,
        worker::leads_to(WorkerStage::Serving { known }, WorkerEvent::Command(command), r)
            ==> r is Ask,
        worker::leads_to(WorkerStage::Answering { known }, WorkerEvent::Taken, r) ==> r
            == (WorkerStep::Ask {
            stage: WorkerStage::Serving { known },
            action: WorkerAction::Receive,
        }),
{
}

} // verus!
