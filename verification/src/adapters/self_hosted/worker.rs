//! The worker that talks to the message broker: which stream a command needs, and what its
//! sender is answered. The caller performs what a step asks for and hands back what became
//! of it.

pub mod replies;

use vstd::prelude::*;

use crate::adapters::self_hosted::events;
use crate::adapters::self_hosted::events::{event_value, EventRecord};
use crate::adapters::self_hosted::naming;
use crate::adapters::self_hosted::naming::{
    bus_subject, consumer_name, event_subject, js_error, queue_subject, stable_id, BUS_STREAM,
    EVENT_STREAM, QUEUE_STREAM,
};
use crate::adapters::self_hosted::queue;
use crate::adapters::self_hosted::queue::{
    delivered_message_id, message_value, AckAnswer, QueueRequest,
};
use crate::json;
use crate::json::{parse_json_bytes, value_bytes, Json, JsonTree, READER_DEPTH};

verus! {

/// A stream that the broker keeps.
#[derive(Clone, Copy, Debug, PartialEq, Eq, Structural)]
pub enum BrokerStream {
    Queue,
    Event,
    Bus,
}

impl BrokerStream {
    /// The name of the stream.
    pub open spec fn named(self) -> Seq<char> {
        match self {
            BrokerStream::Queue => QUEUE_STREAM@,
            BrokerStream::Event => EVENT_STREAM@,
            BrokerStream::Bus => BUS_STREAM@,
        }
    }

    /// The subjects that the stream takes.
    pub open spec fn takes(self) -> Seq<char> {
        match self {
            BrokerStream::Queue => "queue.>"@,
            BrokerStream::Event => "event.>"@,
            BrokerStream::Bus => "notify.>"@,
        }
    }

    /// Names the stream.
    pub fn name(self) -> (r: &'static str)
        ensures
            r@ == self.named(),
    {
        match self {
            BrokerStream::Queue => QUEUE_STREAM,
            BrokerStream::Event => EVENT_STREAM,
            BrokerStream::Bus => BUS_STREAM,
        }
    }

    /// Tells which subjects the stream takes.
    pub fn subjects(self) -> (r: &'static str)
        ensures
            r@ == self.takes(),
    {
        match self {
            BrokerStream::Queue => "queue.>",
            BrokerStream::Event => "event.>",
            BrokerStream::Bus => "notify.>",
        }
    }

    /// Tells whether messages of the stream can be read directly.
    pub fn allows_direct(self) -> (r: bool)
        ensures
            r == (self == BrokerStream::Event),
    {
        match self {
            BrokerStream::Event => true,
            _ => false,
        }
    }
}

/// Which streams are known to be there.
#[derive(Clone, Copy, Debug, PartialEq, Eq, Structural)]
pub struct KnownStreams {
    pub queue: bool,
    pub event: bool,
    pub bus: bool,
}

impl KnownStreams {
    /// Whether a stream is known.
    pub open spec fn has(self, stream: BrokerStream) -> bool {
        match stream {
            BrokerStream::Queue => self.queue,
            BrokerStream::Event => self.event,
            BrokerStream::Bus => self.bus,
        }
    }

    /// The known streams and one more.
    pub open spec fn and(self, stream: BrokerStream) -> KnownStreams {
        match stream {
            BrokerStream::Queue => KnownStreams { queue: true, ..self },
            BrokerStream::Event => KnownStreams { event: true, ..self },
            BrokerStream::Bus => KnownStreams { bus: true, ..self },
        }
    }

    /// Whether every stream is known.
    pub open spec fn all(self) -> bool {
        self.queue && self.event && self.bus
    }

    /// No stream is known.
    pub fn none() -> (r: KnownStreams)
        ensures
            r == (KnownStreams { queue: false, event: false, bus: false }),
    {
        KnownStreams { queue: false, event: false, bus: false }
    }

    fn knows(self, stream: BrokerStream) -> (r: bool)
        ensures
            r == self.has(stream),
    {
        match stream {
            BrokerStream::Queue => self.queue,
            BrokerStream::Event => self.event,
            BrokerStream::Bus => self.bus,
        }
    }

    fn with(self, stream: BrokerStream) -> (r: KnownStreams)
        ensures
            r == self.and(stream),
    {
        match stream {
            BrokerStream::Queue => KnownStreams { queue: true, ..self },
            BrokerStream::Event => KnownStreams { event: true, ..self },
            BrokerStream::Bus => KnownStreams { bus: true, ..self },
        }
    }
}

/// What the worker is told to do.
#[derive(Debug)]
pub enum WorkerCommand {
    PublishQueue { subject: String, message_id: String, payload: Vec<u8> },
    FetchQueue { queue: String, subject: String, limit: usize },
    AckReply { reply_subject: String, answer: AckAnswer },
    PublishEvent { subject: String, message_id: String, payload: Vec<u8> },
    PublishBus { subject: String, message_id: String, payload: Vec<u8> },
}

/// The command that publishes a message of a queue.
pub fn queue_command(request: &QueueRequest, message_id: &str) -> (r: WorkerCommand)
    ensures
        r matches WorkerCommand::PublishQueue { subject, message_id: id, payload } && subject@
            == "queue."@ + naming::component(request.queue@) && id@ == message_id@ && payload@
            == json::json_bytes_of(queue::message_tree(*request, message_id@)),
{
    WorkerCommand::PublishQueue {
        subject: queue_subject(request.queue.as_str()),
        message_id: message_id.to_owned(),
        payload: value_bytes(&message_value(request, message_id)),
    }
}

/// The command that publishes a stored event.
pub fn event_command(record: &EventRecord, retention_until_ms: Option<i64>) -> (r: WorkerCommand)
    ensures
        r matches WorkerCommand::PublishEvent { subject, message_id, payload } && subject@
            == "event."@ + naming::component(record.stream@) && message_id@ == record.event_id@
            && payload@ == json::json_bytes_of(events::event_tree(*record, retention_until_ms)),
{
    WorkerCommand::PublishEvent {
        subject: event_subject(record.stream.as_str()),
        message_id: record.event_id.clone(),
        payload: value_bytes(&event_value(record, retention_until_ms)),
    }
}

/// The command that publishes what is said on a topic, under an idempotency key.
pub fn bus_command(topic: &str, payload: &Json, idempotency_key: &str) -> (r: WorkerCommand)
    ensures
        r matches WorkerCommand::PublishBus { subject, message_id, payload: sent } && subject@
            == "notify."@ + naming::component(topic@) && message_id@ == naming::identifier(
            "notify"@,
            idempotency_key@,
        ) && sent@ == json::json_bytes_of(payload@),
{
    WorkerCommand::PublishBus {
        subject: bus_subject(topic),
        message_id: stable_id("notify", idempotency_key),
        payload: value_bytes(payload),
    }
}

/// The command that fetches messages of a queue.
pub fn fetch_command(queue: &str, limit: usize) -> (r: WorkerCommand)
    ensures
        r matches WorkerCommand::FetchQueue { queue: named, subject, limit: most } && named@ == queue@
            && subject@ == "queue."@ + naming::component(queue@) && most == limit,
{
    WorkerCommand::FetchQueue { queue: queue.to_owned(), subject: queue_subject(queue), limit }
}

/// The stream that a command needs; an answer to a delivery needs none.
pub open spec fn stream_of(command: WorkerCommand) -> Option<BrokerStream> {
    match command {
        WorkerCommand::PublishQueue { .. } | WorkerCommand::FetchQueue { .. } => Some(
            BrokerStream::Queue,
        ),
        WorkerCommand::AckReply { .. } => None,
        WorkerCommand::PublishEvent { .. } => Some(BrokerStream::Event),
        WorkerCommand::PublishBus { .. } => Some(BrokerStream::Bus),
    }
}

/// A message as the broker hands it out.
#[derive(Debug)]
pub struct BrokerMessage {
    /// The bytes that the message carries.
    pub payload: Vec<u8>,
    pub reply: Option<String>,
    pub stream_sequence: u64,
    pub consumer_sequence: u64,
}

/// A delivery of a queue.
#[derive(Debug)]
pub struct JetStreamDelivery {
    pub message_id: String,
    pub reply_subject: String,
    pub stream_sequence: i64,
    pub consumer_sequence: i64,
}

/// The message that a payload names, or what is said of one that cannot be read.
pub open spec fn message_named(payload: Seq<u8>) -> Result<Seq<char>, Seq<char>> {
    match json::json_value_of_bytes(payload) {
        Ok(tree) => Ok(queue::delivered_message(tree)),
        Err(message) => Err(message),
    }
}

/// Whether an outcome is that of reading which message a payload names.
pub open spec fn names_message(payload: Seq<u8>, r: Result<String, String>) -> bool {
    &&& message_named(payload) == (match r {
        Ok(id) => Ok::<Seq<char>, Seq<char>>(id@),
        Err(message) => Err::<Seq<char>, Seq<char>>(message@),
    })
    &&& if vstd::utf8::valid_utf8(payload) {
        json::json_value_of_bytes(payload) == json::json_value_of(
            vstd::utf8::decode_utf8(payload),
        )
    } else {
        r is Err
    }
    &&& forall|tree: JsonTree|
        json::reads_back(tree, READER_DEPTH as nat) && payload == vstd::utf8::encode_utf8(
            #[trigger] json::json_text_of(tree),
        ) ==> json::json_value_of_bytes(payload) == Ok::<JsonTree, Seq<char>>(tree)
}

/// Reads which message a payload names. What a payload that is UTF-8 reads as is what its
/// text does, and one that is not cannot be read.
pub fn read_message_id(payload: &Vec<u8>) -> (r: Result<String, String>)
    ensures
        names_message(payload@, r),
{
    match parse_json_bytes(payload.as_slice()) {
        Ok(value) => Ok(delivered_message_id(&value)),
        Err(message) => Err(message),
    }
}

proof fn message_members_differ()
    ensures
        "messageId"@ != "queue"@,
        "messageId"@ != "payload"@,
        "messageId"@ != "idempotencyKey"@,
        "messageId"@ != "partitionKey"@,
        "messageId"@ != "priority"@,
        "messageId"@ != "availableAtMs"@,
        "messageId"@ != "retentionUntilMs"@,
        "messageId"@ != "maxAttempts"@,
        "payload"@ != "idempotencyKey"@,
        "payload"@ != "partitionKey"@,
        "payload"@ != "priority"@,
        "payload"@ != "availableAtMs"@,
        "payload"@ != "retentionUntilMs"@,
        "payload"@ != "maxAttempts"@,
{
    reveal_strlit("messageId");
    reveal_strlit("queue");
    reveal_strlit("payload");
    reveal_strlit("idempotencyKey");
    reveal_strlit("partitionKey");
    reveal_strlit("priority");
    reveal_strlit("availableAtMs");
    reveal_strlit("retentionUntilMs");
    reveal_strlit("maxAttempts");
    assert("messageId"@.len() == 9 && "queue"@.len() == 5 && "payload"@.len() == 7);
    assert("idempotencyKey"@.len() == 14 && "partitionKey"@.len() == 12 && "priority"@.len() == 8);
    assert("availableAtMs"@.len() == 13 && "retentionUntilMs"@.len() == 16);
    assert("maxAttempts"@.len() == 11);
}

/// What is published as a message is delivered as that message: reading the payload that was
/// sent gives the identifier under which it was sent.
pub proof fn published_message_names_itself(
    request: QueueRequest,
    message_id: Seq<char>,
    payload: Seq<u8>,
    r: Result<String, String>,
)
    requires
        json::reads_back(request.payload@, (READER_DEPTH - 1) as nat),
        payload == json::json_bytes_of(queue::message_tree(request, message_id)),
        names_message(payload, r),
    ensures
        r matches Ok(id) && id@ == message_id,
{
    message_members_differ();
    let tree = queue::message_tree(request, message_id);
    assert(json::reads_back(tree, READER_DEPTH as nat)) by {
        let map = tree->Object_0;
        assert forall|k: Seq<char>| #[trigger] map.dom().contains(k) implies json::reads_back(
            map[k],
            (READER_DEPTH - 1) as nat,
        ) by {
            if k == "payload"@ {
                assert(map[k] == request.payload@);
            }
        }
    }
}

/// Whether a delivery is that of a message.
pub open spec fn is_delivery_of(d: JetStreamDelivery, message: BrokerMessage) -> bool {
    &&& message_named(message.payload@) == Ok::<Seq<char>, Seq<char>>(d.message_id@)
    &&& d.reply_subject@ == (match message.reply {
        Some(subject) => subject@,
        None => Seq::empty(),
    })
    &&& d.stream_sequence == message.stream_sequence as i64
    &&& d.consumer_sequence == message.consumer_sequence as i64
}

/// Whether deliveries are those of messages, one for each and in their order.
pub open spec fn are_deliveries_of(
    deliveries: Seq<JetStreamDelivery>,
    messages: Seq<BrokerMessage>,
) -> bool {
    &&& deliveries.len() == messages.len()
    &&& forall|i: int|
        0 <= i < messages.len() ==> is_delivery_of(#[trigger] deliveries[i], messages[i])
}

/// What is said of the first message that cannot be read, where there is one.
pub open spec fn first_unreadable(messages: Seq<BrokerMessage>) -> Option<Seq<char>>
    decreases messages.len(),
{
    if messages.len() == 0 {
        None
    } else {
        match message_named(messages[0].payload@) {
            Err(message) => Some(message),
            Ok(_) => first_unreadable(messages.drop_first()),
        }
    }
}

/// Reads what the broker handed out: the first message that cannot be read decides.
pub fn read_deliveries(messages: &Vec<BrokerMessage>) -> (r: Result<Vec<JetStreamDelivery>, String>)
    ensures
        match first_unreadable(messages@) {
            Some(message) => r matches Err(e) && e@ == message,
            None => r matches Ok(list) && are_deliveries_of(list@, messages@),
        },
{
    let mut out: Vec<JetStreamDelivery> = Vec::new();
    let mut i: usize = 0;
    assert(messages@.skip(0) =~= messages@);
    while i < messages.len()
        invariant
            i <= messages@.len(),
            out@.len() == i,
            first_unreadable(messages@) == first_unreadable(messages@.skip(i as int)),
            forall|j: int| 0 <= j < i ==> is_delivery_of(#[trigger] out@[j], messages@[j]),
        decreases messages.len() - i,
    {
        let message = &messages[i];
        proof {
            assert(messages@.skip(i as int)[0] == messages@[i as int]);
            assert(messages@.skip(i as int).drop_first() =~= messages@.skip(i + 1));
        }
        let message_id = match read_message_id(&message.payload) {
            Ok(id) => id,
            Err(error) => {
                return Err(error);
            },
        };
        let reply_subject = match &message.reply {
            Some(subject) => subject.clone(),
            None => String::new(),
        };
        out.push(
            JetStreamDelivery {
                message_id,
                reply_subject,
                stream_sequence: #[verifier::truncate] (message.stream_sequence as i64),
                consumer_sequence: #[verifier::truncate] (message.consumer_sequence as i64),
            },
        );
        i += 1;
    }
    Ok(out)
}

/// What the sender of a command waits for.
#[derive(Clone, Copy, Debug, PartialEq, Eq, Structural)]
pub enum Wanted {
    Nothing,
    Sequence,
    Deliveries,
}

/// What the sender of a command waits for.
pub open spec fn wanted_by(command: WorkerCommand) -> Wanted {
    match command {
        WorkerCommand::FetchQueue { .. } => Wanted::Deliveries,
        WorkerCommand::PublishEvent { .. } => Wanted::Sequence,
        _ => Wanted::Nothing,
    }
}

/// What the sender of a command is answered.
#[derive(Debug)]
pub enum WorkerAnswer {
    Done(Result<(), String>),
    Sequence(Result<i64, String>),
    Deliveries(Result<Vec<JetStreamDelivery>, String>),
}

/// Where the worker stands: what it waits for.
#[derive(Debug)]
pub enum WorkerStage {
    /// The connection.
    Connecting,
    /// A stream, at the start.
    Opening { known: KnownStreams, stream: BrokerStream },
    /// Whether anyone takes the news that it is ready.
    Reporting { known: KnownStreams },
    /// A command.
    Serving { known: KnownStreams },
    /// The stream that a command needs.
    Ensuring { known: KnownStreams, stream: BrokerStream, command: WorkerCommand },
    /// What became of a command.
    Performing { known: KnownStreams, wanted: Wanted },
    /// Whether anyone takes the answer.
    Answering { known: KnownStreams },
}

/// What became of what a step asked for.
#[derive(Debug)]
pub enum WorkerEvent {
    Connected,
    Opened,
    /// The news or the answer was handed over.
    Taken,
    Command(WorkerCommand),
    /// No command will come any more.
    Closed,
    Published { sequence: u64 },
    Replied,
    /// The messages that came, and what broke them off, if anything did.
    Fetched { messages: Vec<BrokerMessage>, broken: Option<String> },
    /// It failed.
    Failed(String),
}

/// What a step asks for.
#[derive(Debug)]
pub enum WorkerAction {
    Open(BrokerStream),
    ReportReady,
    Receive,
    Publish { subject: String, message_id: String, payload: Vec<u8> },
    Fetch { consumer: String, subject: String, limit: usize },
    Reply { reply_subject: String, answer: AckAnswer },
    Answer(WorkerAnswer),
}

/// What comes of a step.
#[derive(Debug)]
pub enum WorkerStep {
    Ask { stage: WorkerStage, action: WorkerAction },
    /// The worker cannot start.
    Refuse(String),
    End,
}

/// Whether an event is one that a stage waits for.
pub open spec fn fits(stage: WorkerStage, event: WorkerEvent) -> bool {
    match stage {
        WorkerStage::Connecting => event is Connected || event is Failed,
        WorkerStage::Opening { .. } | WorkerStage::Ensuring { .. } => event is Opened || event is Failed,
        WorkerStage::Reporting { .. } | WorkerStage::Answering { .. } => event is Taken || event is Failed,
        WorkerStage::Serving { .. } => event is Command || event is Closed,
        WorkerStage::Performing { wanted, .. } => event is Failed || match wanted {
            Wanted::Nothing => event is Published || event is Replied,
            Wanted::Sequence => event is Published,
            Wanted::Deliveries => event is Fetched,
        },
    }
}

/// The stream that is opened after another at the start; none after the last.
pub open spec fn next_stream(stream: BrokerStream) -> Option<BrokerStream> {
    match stream {
        BrokerStream::Queue => Some(BrokerStream::Event),
        BrokerStream::Event => Some(BrokerStream::Bus),
        BrokerStream::Bus => None,
    }
}

/// Whether a step hands a command to the broker.
pub open spec fn performs(r: WorkerStep, known: KnownStreams, command: WorkerCommand) -> bool {
    r matches WorkerStep::Ask { stage, action } && stage == (WorkerStage::Performing {
        known,
        wanted: wanted_by(command),
    }) && match command {
        WorkerCommand::PublishQueue { subject, message_id, payload }
        | WorkerCommand::PublishEvent { subject, message_id, payload }
        | WorkerCommand::PublishBus { subject, message_id, payload } => action == (
        WorkerAction::Publish { subject, message_id, payload }),
        WorkerCommand::FetchQueue { queue, subject, limit } => action matches WorkerAction::Fetch {
            consumer,
            subject: asked,
            limit: most,
        } && consumer@ == "queue_"@ + naming::component(queue@) && asked == subject && most == limit,
        WorkerCommand::AckReply { reply_subject, answer } => action == (WorkerAction::Reply {
            reply_subject,
            answer,
        }),
    }
}

/// Whether an answer says that a command failed.
pub open spec fn says_failed(answer: WorkerAnswer, wanted: Wanted, message: Seq<char>) -> bool {
    match wanted {
        Wanted::Nothing => answer matches WorkerAnswer::Done(Err(e)) && e@ == message,
        Wanted::Sequence => answer matches WorkerAnswer::Sequence(Err(e)) && e@ == message,
        Wanted::Deliveries => answer matches WorkerAnswer::Deliveries(Err(e)) && e@ == message,
    }
}

/// What is said of an operation of the broker that failed.
pub open spec fn broker_failure(error: Seq<char>) -> Seq<char> {
    "jetstream operation failed: "@ + error
}

/// Whether an answer is the one on what became of a command.
pub open spec fn answers(answer: WorkerAnswer, wanted: Wanted, event: WorkerEvent) -> bool {
    match event {
        WorkerEvent::Failed(error) => says_failed(answer, wanted, broker_failure(error@)),
        WorkerEvent::Published { sequence } => match wanted {
            Wanted::Sequence => answer == WorkerAnswer::Sequence(Ok(sequence as i64)),
            _ => answer == WorkerAnswer::Done(Ok(())),
        },
        WorkerEvent::Fetched { messages, broken } => match (first_unreadable(messages@), broken) {
            (Some(message), _) => answer matches WorkerAnswer::Deliveries(Err(e)) && e@ == message,
            (None, Some(error)) => answer matches WorkerAnswer::Deliveries(Err(e)) && e@
                == broker_failure(error@),
            (None, None) => answer matches WorkerAnswer::Deliveries(Ok(list)) && are_deliveries_of(
                list@,
                messages@,
            ),
        },
        _ => answer == WorkerAnswer::Done(Ok(())),
    }
}

/// Whether a step is the one that a stage and an event lead to.
pub open spec fn leads_to(stage: WorkerStage, event: WorkerEvent, r: WorkerStep) -> bool {
    match (stage, event) {
        (WorkerStage::Connecting, WorkerEvent::Connected) => r matches WorkerStep::Ask {
            stage: WorkerStage::Opening { known, stream },
            action: WorkerAction::Open(opened),
        } && known == (KnownStreams { queue: false, event: false, bus: false }) && stream
            == BrokerStream::Queue && opened == stream,
        (WorkerStage::Connecting, _) => r matches WorkerStep::Refuse(e) && e@
            == "JetStream connection failed"@,
        (WorkerStage::Opening { known, stream }, WorkerEvent::Opened) => match next_stream(stream) {
            Some(next) => r == (WorkerStep::Ask {
                stage: WorkerStage::Opening { known: known.and(stream), stream: next },
                action: WorkerAction::Open(next),
            }),
            None => r == (WorkerStep::Ask {
                stage: WorkerStage::Reporting { known: known.and(stream) },
                action: WorkerAction::ReportReady,
            }),
        },
        (WorkerStage::Opening { .. }, _) => r matches WorkerStep::Refuse(e) && e@
            == "JetStream stream initialization failed"@,
        (WorkerStage::Reporting { known }, WorkerEvent::Taken) => r == (WorkerStep::Ask {
            stage: WorkerStage::Serving { known },
            action: WorkerAction::Receive,
        }),
        (WorkerStage::Reporting { .. }, _) => r == WorkerStep::End,
        (WorkerStage::Serving { known }, WorkerEvent::Command(command)) => match stream_of(command) {
            Some(stream) => if known.has(stream) {
                performs(r, known, command)
            } else {
                r == (WorkerStep::Ask {
                    stage: WorkerStage::Ensuring { known, stream, command },
                    action: WorkerAction::Open(stream),
                })
            },
            None => performs(r, known, command),
        },
        (WorkerStage::Serving { .. }, _) => r == WorkerStep::End,
        (WorkerStage::Ensuring { known, stream, command }, WorkerEvent::Opened) => performs(
            r,
            known.and(stream),
            command,
        ),
        (WorkerStage::Ensuring { known, command, .. }, WorkerEvent::Failed(error)) => r matches WorkerStep::Ask {
            stage: WorkerStage::Answering { known: kept },
            action: WorkerAction::Answer(answer),
        } && kept == known && says_failed(answer, wanted_by(command), broker_failure(error@)),
        (WorkerStage::Performing { known, wanted }, _) => r matches WorkerStep::Ask {
            stage: WorkerStage::Answering { known: kept },
            action: WorkerAction::Answer(answer),
        } && kept == known && answers(answer, wanted, event),
        (WorkerStage::Answering { known }, _) => r == (WorkerStep::Ask {
            stage: WorkerStage::Serving { known },
            action: WorkerAction::Receive,
        }),
        _ => false,
    }
}

fn needed(command: &WorkerCommand) -> (r: Option<BrokerStream>)
    ensures
        r == stream_of(*command),
{
    match command {
        WorkerCommand::PublishQueue { .. } | WorkerCommand::FetchQueue { .. } => Some(
            BrokerStream::Queue,
        ),
        WorkerCommand::AckReply { .. } => None,
        WorkerCommand::PublishEvent { .. } => Some(BrokerStream::Event),
        WorkerCommand::PublishBus { .. } => Some(BrokerStream::Bus),
    }
}

fn wanted(command: &WorkerCommand) -> (r: Wanted)
    ensures
        r == wanted_by(*command),
{
    match command {
        WorkerCommand::FetchQueue { .. } => Wanted::Deliveries,
        WorkerCommand::PublishEvent { .. } => Wanted::Sequence,
        _ => Wanted::Nothing,
    }
}

fn perform(known: KnownStreams, command: WorkerCommand) -> (r: WorkerStep)
    ensures
        performs(r, known, command),
{
    let stage = WorkerStage::Performing { known, wanted: wanted(&command) };
    let action = match command {
        WorkerCommand::PublishQueue { subject, message_id, payload } => WorkerAction::Publish {
            subject,
            message_id,
            payload,
        },
        WorkerCommand::PublishEvent { subject, message_id, payload } => WorkerAction::Publish {
            subject,
            message_id,
            payload,
        },
        WorkerCommand::PublishBus { subject, message_id, payload } => WorkerAction::Publish {
            subject,
            message_id,
            payload,
        },
        WorkerCommand::FetchQueue { queue, subject, limit } => WorkerAction::Fetch {
            consumer: consumer_name(queue.as_str()),
            subject,
            limit,
        },
        WorkerCommand::AckReply { reply_subject, answer } => WorkerAction::Reply {
            reply_subject,
            answer,
        },
    };
    WorkerStep::Ask { stage, action }
}

fn failed(wanted: Wanted, message: String) -> (r: WorkerAnswer)
    ensures
        says_failed(r, wanted, message@),
{
    match wanted {
        Wanted::Nothing => WorkerAnswer::Done(Err(message)),
        Wanted::Sequence => WorkerAnswer::Sequence(Err(message)),
        Wanted::Deliveries => WorkerAnswer::Deliveries(Err(message)),
    }
}

fn answer(wanted: Wanted, event: WorkerEvent) -> (r: WorkerAnswer)
    ensures
        answers(r, wanted, event),
{
    match event {
        WorkerEvent::Failed(error) => failed(wanted, js_error(error.as_str())),
        WorkerEvent::Published { sequence } => match wanted {
            Wanted::Sequence => WorkerAnswer::Sequence(
                Ok(#[verifier::truncate] (sequence as i64)),
            ),
            _ => WorkerAnswer::Done(Ok(())),
        },
        WorkerEvent::Fetched { messages, broken } => match (read_deliveries(&messages), broken) {
            (Err(error), _) => WorkerAnswer::Deliveries(Err(error)),
            (Ok(_), Some(error)) => WorkerAnswer::Deliveries(Err(js_error(error.as_str()))),
            (Ok(list), None) => WorkerAnswer::Deliveries(Ok(list)),
        },
        _ => WorkerAnswer::Done(Ok(())),
    }
}

/// The step of the worker on what became of the one before.
pub fn jetstream_loop(stage: WorkerStage, event: WorkerEvent) -> (r: WorkerStep)
    requires
        fits(stage, event),
    ensures
        leads_to(stage, event, r),
{
    match (stage, event) {
        (WorkerStage::Connecting, WorkerEvent::Connected) => WorkerStep::Ask {
            stage: WorkerStage::Opening {
                known: KnownStreams::none(),
                stream: BrokerStream::Queue,
            },
            action: WorkerAction::Open(BrokerStream::Queue),
        },
        (WorkerStage::Connecting, _) => WorkerStep::Refuse("JetStream connection failed".to_owned()),
        (WorkerStage::Opening { known, stream }, WorkerEvent::Opened) => {
            let known = known.with(stream);
            match stream {
                BrokerStream::Queue => WorkerStep::Ask {
                    stage: WorkerStage::Opening { known, stream: BrokerStream::Event },
                    action: WorkerAction::Open(BrokerStream::Event),
                },
                BrokerStream::Event => WorkerStep::Ask {
                    stage: WorkerStage::Opening { known, stream: BrokerStream::Bus },
                    action: WorkerAction::Open(BrokerStream::Bus),
                },
                BrokerStream::Bus => WorkerStep::Ask {
                    stage: WorkerStage::Reporting { known },
                    action: WorkerAction::ReportReady,
                },
            }
        },
        (WorkerStage::Opening { .. }, _) => WorkerStep::Refuse(
            "JetStream stream initialization failed".to_owned(),
        ),
        (WorkerStage::Reporting { known }, WorkerEvent::Taken) => WorkerStep::Ask {
            stage: WorkerStage::Serving { known },
            action: WorkerAction::Receive,
        },
        (WorkerStage::Reporting { .. }, _) => WorkerStep::End,
        (WorkerStage::Serving { known }, WorkerEvent::Command(command)) => match needed(&command) {
            Some(stream) => if known.knows(stream) {
                perform(known, command)
            } else {
                WorkerStep::Ask {
                    stage: WorkerStage::Ensuring { known, stream, command },
                    action: WorkerAction::Open(stream),
                }
            },
            None => perform(known, command),
        },
        (WorkerStage::Serving { .. }, _) => WorkerStep::End,
        (WorkerStage::Ensuring { known, stream, command }, WorkerEvent::Opened) => perform(
            known.with(stream),
            command,
        ),
        (WorkerStage::Ensuring { known, command, .. }, WorkerEvent::Failed(error)) => {
            let message = js_error(error.as_str());
            WorkerStep::Ask {
                stage: WorkerStage::Answering { known },
                action: WorkerAction::Answer(failed(wanted(&command), message)),
            }
        },
        (WorkerStage::Performing { known, wanted }, event) => WorkerStep::Ask {
            stage: WorkerStage::Answering { known },
            action: WorkerAction::Answer(answer(wanted, event)),
        },
        (WorkerStage::Answering { known }, _) => WorkerStep::Ask {
            stage: WorkerStage::Serving { known },
            action: WorkerAction::Receive,
        },
        _ => {
            assert(false);
            WorkerStep::End
        },
    }
}

/// Whether a stage knows the streams that were opened before it: at the start those before
/// the one that it waits for, and later every one.
pub open spec fn is_reached(stage: WorkerStage) -> bool {
    match stage {
        WorkerStage::Connecting => true,
        WorkerStage::Opening { known, stream } => match stream {
            BrokerStream::Queue => !known.queue && !known.event && !known.bus,
            BrokerStream::Event => known.queue && !known.event && !known.bus,
            BrokerStream::Bus => known.queue && known.event && !known.bus,
        },
        WorkerStage::Ensuring { .. } => false,
        WorkerStage::Reporting { known } | WorkerStage::Serving { known }
        | WorkerStage::Performing { known, .. } | WorkerStage::Answering { known } => known.all(),
    }
}

/// A worker takes no command before every stream is there, and none is opened twice: what
/// comes of a stage that is reached is reached, and a stream is opened only where it is not
/// known.
pub proof fn streams_are_opened_once(stage: WorkerStage, event: WorkerEvent, r: WorkerStep)
    requires
        is_reached(stage),
        fits(stage, event),
        leads_to(stage, event, r),
    ensures
        r matches WorkerStep::Ask { stage: next, action } ==> is_reached(next) && (
        action matches WorkerAction::Open(stream) ==> (next matches WorkerStage::Opening {
            known,
            stream: waited,
        } && waited == stream && !known.has(stream))),
{
}

/// A command is answered once: it is performed, what became of it is answered, and the
/// worker waits for the next command.
pub proof fn command_is_answered(
    known: KnownStreams,
    command: WorkerCommand,
    outcome: WorkerEvent,
    taken: WorkerEvent,
    first: WorkerStep,
    second: WorkerStep,
    third: WorkerStep,
)
    requires
        known.all(),
        leads_to(WorkerStage::Serving { known }, WorkerEvent::Command(command), first),
        fits(first->stage, outcome),
        leads_to(first->stage, outcome, second),
        fits(second->stage, taken),
        leads_to(second->stage, taken, third),
    ensures
        performs(first, known, command),
        second matches WorkerStep::Ask { action: WorkerAction::Answer(answer), .. } && answers(
            answer,
            wanted_by(command),
            outcome,
        ),
        third == (WorkerStep::Ask {
            stage: WorkerStage::Serving { known },
            action: WorkerAction::Receive,
        }),
{
}

} // verus!
