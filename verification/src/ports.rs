//! What the rules of this library ask of, and hear from, the outside: storage,
//! leases, events and the authority under which they are used.

use vstd::prelude::*;

use crate::json::{Json, JsonTree};
use crate::text;

verus! {

/// Who acts, through which surface and on which kind of account.
#[derive(Debug)]
pub struct AuthorityContext {
    pub actor: String,
    pub surface: String,
    pub account_mode: String,
}

/// The authority and the idempotency key of a side effect.
#[derive(Debug)]
pub struct SideEffectContext {
    pub authority: AuthorityContext,
    pub idempotency_key: String,
}

/// A lease that its owner holds until it expires.
#[derive(Debug)]
pub struct LeaseClaim {
    pub resource: String,
    pub owner: String,
    pub fencing_token: i64,
    pub expires_at_ms: i64,
}

/// The authority under which a record is written: that of the local command line, or one
/// that is given.
#[derive(Debug)]
pub enum WriteAuthority {
    LocalCli,
    Given(AuthorityContext),
}

/// The authority and the idempotency key of a write.
#[derive(Debug)]
pub struct WriteContext {
    pub authority: WriteAuthority,
    pub idempotency_key: String,
}

/// A record to be put in storage.
#[derive(Debug)]
pub struct StorageWrite {
    pub namespace: &'static str,
    pub key: String,
    pub value: Json,
    pub context: WriteContext,
}

/// What a record must be for a batch of writes to go through.
#[derive(Debug)]
pub struct StorageExpectation {
    pub namespace: &'static str,
    pub key: String,
    pub value: Option<Json>,
}

/// Writes that go through together, where every expectation is met, or not at all.
#[derive(Debug)]
pub struct StorageBatch {
    pub writes: Vec<StorageWrite>,
    pub expectations: Vec<StorageExpectation>,
}

/// What a [`StorageBatch`] says.
#[verifier::ext_equal]
pub struct BatchView {
    pub writes: Seq<WriteView>,
    pub expectations: Seq<ExpectationView>,
}

/// An event to be appended to a stream.
#[derive(Debug)]
pub struct EventAppend {
    pub stream: String,
    pub event_type: String,
    pub aggregate_id: String,
    pub payload: Json,
    pub idempotency_key: String,
    pub occurred_at_ms: i64,
    pub retention_until_ms: Option<i64>,
}

/// A record to be appended to the outbox.
#[derive(Debug)]
pub struct OutboxRecord {
    pub outbox_id: String,
    pub topic: String,
    pub payload: Json,
    pub idempotency_key: String,
    pub created_at_ms: i64,
    pub fencing_token: i64,
}

/// What a [`WriteAuthority`] says.
#[verifier::ext_equal]
pub enum AuthorityView {
    LocalCli,
    Given { actor: Seq<char>, surface: Seq<char>, account_mode: Seq<char> },
}

/// What a [`WriteContext`] says.
#[verifier::ext_equal]
pub struct ContextView {
    pub authority: AuthorityView,
    pub idempotency_key: Seq<char>,
}

/// A context of the local command line.
pub open spec fn local_context(idempotency_key: Seq<char>) -> ContextView {
    ContextView { authority: AuthorityView::LocalCli, idempotency_key }
}

/// The context in which a side effect is asked for.
pub open spec fn context_of(context: SideEffectContext) -> ContextView {
    ContextView {
        authority: given_authority(context.authority),
        idempotency_key: context.idempotency_key@,
    }
}

/// An authority that is given.
pub open spec fn given_authority(authority: AuthorityContext) -> AuthorityView {
    AuthorityView::Given {
        actor: authority.actor@,
        surface: authority.surface@,
        account_mode: authority.account_mode@,
    }
}

impl View for WriteContext {
    type V = ContextView;

    open spec fn view(&self) -> ContextView {
        ContextView {
            authority: match self.authority {
                WriteAuthority::LocalCli => AuthorityView::LocalCli,
                WriteAuthority::Given(authority) => given_authority(authority),
            },
            idempotency_key: self.idempotency_key@,
        }
    }
}

impl AuthorityContext {
    /// A copy of this authority.
    pub fn copy(&self) -> (r: AuthorityContext)
        ensures
            r == *self,
    {
        AuthorityContext {
            actor: self.actor.clone(),
            surface: self.surface.clone(),
            account_mode: self.account_mode.clone(),
        }
    }
}

impl WriteContext {
    /// A context of the local command line.
    pub fn local(idempotency_key: String) -> (r: WriteContext)
        ensures
            r@ == local_context(idempotency_key@),
    {
        WriteContext { authority: WriteAuthority::LocalCli, idempotency_key }
    }

    /// The context in which a side effect is asked for.
    pub fn of(context: &SideEffectContext) -> (r: WriteContext)
        ensures
            r@ == context_of(*context),
    {
        WriteContext {
            authority: WriteAuthority::Given(context.authority.copy()),
            idempotency_key: context.idempotency_key.clone(),
        }
    }

    /// A copy of this context.
    pub fn copy(&self) -> (r: WriteContext)
        ensures
            r == *self,
    {
        WriteContext {
            authority: match &self.authority {
                WriteAuthority::LocalCli => WriteAuthority::LocalCli,
                WriteAuthority::Given(authority) => WriteAuthority::Given(authority.copy()),
            },
            idempotency_key: self.idempotency_key.clone(),
        }
    }
}

/// What a [`StorageWrite`] says.
#[verifier::ext_equal]
pub struct WriteView {
    pub namespace: Seq<char>,
    pub key: Seq<char>,
    pub value: JsonTree,
    pub context: ContextView,
}

/// What a [`StorageExpectation`] says.
#[verifier::ext_equal]
pub struct ExpectationView {
    pub namespace: Seq<char>,
    pub key: Seq<char>,
    pub value: Option<JsonTree>,
}

/// What a [`LeaseClaim`] says.
#[verifier::ext_equal]
pub struct LeaseView {
    pub resource: Seq<char>,
    pub owner: Seq<char>,
    pub fencing_token: int,
    pub expires_at_ms: int,
}

/// What an [`EventAppend`] says.
#[verifier::ext_equal]
pub struct EventView {
    pub stream: Seq<char>,
    pub event_type: Seq<char>,
    pub aggregate_id: Seq<char>,
    pub payload: JsonTree,
    pub idempotency_key: Seq<char>,
    pub occurred_at_ms: int,
    pub retention_until_ms: Option<i64>,
}

/// What an [`OutboxRecord`] says.
#[verifier::ext_equal]
pub struct OutboxView {
    pub outbox_id: Seq<char>,
    pub topic: Seq<char>,
    pub payload: JsonTree,
    pub idempotency_key: Seq<char>,
    pub created_at_ms: int,
    pub fencing_token: int,
}

impl View for StorageWrite {
    type V = WriteView;

    open spec fn view(&self) -> WriteView {
        WriteView {
            namespace: self.namespace@,
            key: self.key@,
            value: self.value@,
            context: self.context@,
        }
    }
}

/// What an optional value stands for.
pub open spec fn option_tree(value: Option<Json>) -> Option<JsonTree> {
    match value {
        Some(v) => Some(v@),
        None => None,
    }
}

impl View for StorageExpectation {
    type V = ExpectationView;

    open spec fn view(&self) -> ExpectationView {
        ExpectationView {
            namespace: self.namespace@,
            key: self.key@,
            value: option_tree(self.value),
        }
    }
}

impl View for StorageBatch {
    type V = BatchView;

    open spec fn view(&self) -> BatchView {
        BatchView {
            writes: Seq::new(self.writes@.len(), |i: int| self.writes@[i]@),
            expectations: Seq::new(self.expectations@.len(), |i: int| self.expectations@[i]@),
        }
    }
}

impl StorageBatch {
    /// A batch that does nothing.
    pub fn new() -> (r: StorageBatch)
        ensures
            r@ == (BatchView { writes: seq![], expectations: seq![] }),
    {
        let r = StorageBatch { writes: Vec::new(), expectations: Vec::new() };
        assert(r@.writes =~= seq![]);
        assert(r@.expectations =~= seq![]);
        r
    }

    /// The batch with one more write.
    pub fn write(
        self,
        namespace: &'static str,
        key: &str,
        value: Json,
        context: &WriteContext,
    ) -> (r: StorageBatch)
        ensures
            r@ == (BatchView {
                writes: self@.writes.push(
                    WriteView { namespace: namespace@, key: key@, value: value@, context: context@ },
                ),
                expectations: self@.expectations,
            }),
    {
        let ghost before = self@;
        let mut r = self;
        r.writes.push(
            StorageWrite { namespace, key: key.to_owned(), value, context: context.copy() },
        );
        assert(r@.writes =~= before.writes.push(r.writes@.last()@));
        assert(r@.expectations =~= before.expectations);
        r
    }

    /// The batch with one more expectation.
    pub fn expect(self, namespace: &'static str, key: &str, value: Option<Json>) -> (r: StorageBatch)
        ensures
            r@ == (BatchView {
                writes: self@.writes,
                expectations: self@.expectations.push(
                    ExpectationView { namespace: namespace@, key: key@, value: option_tree(value) },
                ),
            }),
    {
        let ghost before = self@;
        let mut r = self;
        r.expectations.push(StorageExpectation { namespace, key: key.to_owned(), value });
        assert(r@.writes =~= before.writes);
        assert(r@.expectations =~= before.expectations.push(r.expectations@.last()@));
        r
    }
}

impl View for LeaseClaim {
    type V = LeaseView;

    open spec fn view(&self) -> LeaseView {
        LeaseView {
            resource: self.resource@,
            owner: self.owner@,
            fencing_token: self.fencing_token as int,
            expires_at_ms: self.expires_at_ms as int,
        }
    }
}

impl View for EventAppend {
    type V = EventView;

    open spec fn view(&self) -> EventView {
        EventView {
            stream: self.stream@,
            event_type: self.event_type@,
            aggregate_id: self.aggregate_id@,
            payload: self.payload@,
            idempotency_key: self.idempotency_key@,
            occurred_at_ms: self.occurred_at_ms as int,
            retention_until_ms: self.retention_until_ms,
        }
    }
}

impl View for OutboxRecord {
    type V = OutboxView;

    open spec fn view(&self) -> OutboxView {
        OutboxView {
            outbox_id: self.outbox_id@,
            topic: self.topic@,
            payload: self.payload@,
            idempotency_key: self.idempotency_key@,
            created_at_ms: self.created_at_ms as int,
            fencing_token: self.fencing_token as int,
        }
    }
}

impl LeaseClaim {
    /// A copy of this claim.
    pub fn copy(&self) -> (r: LeaseClaim)
        ensures
            r == *self,
    {
        LeaseClaim {
            resource: self.resource.clone(),
            owner: self.owner.clone(),
            fencing_token: self.fencing_token,
            expires_at_ms: self.expires_at_ms,
        }
    }
}

/// A copy of an optional value.
pub fn copy_optional(value: &Option<Json>) -> (r: Option<Json>)
    ensures
        option_tree(r) == option_tree(*value),
{
    match value {
        Some(v) => Some(v.copy()),
        None => None,
    }
}

/// A record that was looked up and read as a value of some type.
#[derive(Debug)]
pub enum Stored<T> {
    /// There is no such record.
    Absent,
    /// There is a record that cannot be read as such a value.
    Malformed,
    Present(T),
}

/// What a port is for.
#[derive(Clone, Copy, Debug, PartialEq, Eq, Structural)]
pub enum PortKind {
    Storage,
    Scheduler,
    Outbox,
    Inbox,
    Lease,
    Identity,
    Evidence,
    Telemetry,
    DurableQueue,
    EventStream,
    Policy,
    Credentials,
    Plugins,
    Clock,
    Exports,
}

/// What happens where a port fails.
#[derive(Clone, Copy, Debug, PartialEq, Eq, Structural)]
pub enum FailureMode {
    LocalOnly,
    FailClosed,
}

/// What an adapter says of a port. Where it says nothing of the failure mode or of the
/// configuration, that of the port counts.
#[derive(Debug)]
pub struct PortDescriptor {
    pub kind: PortKind,
    pub adapter_id: String,
    pub profiles: Vec<String>,
    pub capabilities: Vec<String>,
    pub failure_mode: Option<FailureMode>,
    pub configuration_schema: Option<Json>,
    pub redaction_rules: Vec<String>,
}

/// What a [`PortDescriptor`] says.
#[verifier::ext_equal]
pub struct DescriptorView {
    pub kind: PortKind,
    pub adapter_id: Seq<char>,
    pub profiles: Seq<Seq<char>>,
    pub capabilities: Seq<Seq<char>>,
    pub failure_mode: Option<FailureMode>,
    pub configuration_schema: Option<JsonTree>,
    pub redaction_rules: Seq<Seq<char>>,
}

impl View for PortDescriptor {
    type V = DescriptorView;

    open spec fn view(&self) -> DescriptorView {
        DescriptorView {
            kind: self.kind,
            adapter_id: self.adapter_id@,
            profiles: text::texts(self.profiles@),
            capabilities: text::texts(self.capabilities@),
            failure_mode: self.failure_mode,
            configuration_schema: option_tree(self.configuration_schema),
            redaction_rules: text::texts(self.redaction_rules@),
        }
    }
}

/// What an adapter says of a port with nothing but its capabilities and its profiles.
pub open spec fn plain_descriptor(
    kind: PortKind,
    adapter_id: Seq<char>,
    profiles: Seq<Seq<char>>,
    capabilities: Seq<Seq<char>>,
) -> DescriptorView {
    DescriptorView {
        kind,
        adapter_id,
        profiles,
        capabilities,
        failure_mode: None,
        configuration_schema: None,
        redaction_rules: seq![],
    }
}

/// What some descriptors say.
pub open spec fn descriptor_views(list: Seq<PortDescriptor>) -> Seq<DescriptorView> {
    list.map_values(|d: PortDescriptor| d@)
}

/// Puts one more text on a list.
pub fn add_text(list: Vec<String>, item: &str) -> (r: Vec<String>)
    ensures
        text::texts(r@) == text::texts(list@).push(item@),
{
    let mut out = list;
    let ghost before = out@;
    out.push(item.to_owned());
    assert(text::texts(out@) =~= text::texts(before).push(item@));
    out
}

impl PortDescriptor {
    /// The descriptor of a port of which nothing more is said.
    pub fn new(kind: PortKind, adapter_id: &str) -> (r: PortDescriptor)
        ensures
            r@ == plain_descriptor(kind, adapter_id@, seq![], seq![]),
    {
        let r = PortDescriptor {
            kind,
            adapter_id: adapter_id.to_owned(),
            profiles: Vec::new(),
            capabilities: Vec::new(),
            failure_mode: None,
            configuration_schema: None,
            redaction_rules: Vec::new(),
        };
        assert(r@ =~= plain_descriptor(kind, adapter_id@, seq![], seq![]));
        r
    }

    /// The same for one profile more.
    pub fn for_profile(self, profile: &str) -> (r: PortDescriptor)
        ensures
            r@ == (DescriptorView { profiles: self@.profiles.push(profile@), ..self@ }),
    {
        PortDescriptor { profiles: add_text(self.profiles, profile), ..self }
    }

    /// The same with one capability more.
    pub fn with_capability(self, capability: &str) -> (r: PortDescriptor)
        ensures
            r@ == (DescriptorView { capabilities: self@.capabilities.push(capability@), ..self@ }),
    {
        PortDescriptor { capabilities: add_text(self.capabilities, capability), ..self }
    }

    /// The same with one redaction rule more.
    pub fn with_redaction_rule(self, rule: &str) -> (r: PortDescriptor)
        ensures
            r@ == (DescriptorView { redaction_rules: self@.redaction_rules.push(rule@), ..self@ }),
    {
        PortDescriptor { redaction_rules: add_text(self.redaction_rules, rule), ..self }
    }
}

} // verus!
