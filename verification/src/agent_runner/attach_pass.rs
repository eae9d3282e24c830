//! The attachment of an outside client, step by step: what it rests on is read, its lease is
//! taken, its run is put on record and its authority is checked. The caller performs what a
//! step asks for and hands back what became of it.

use vstd::prelude::*;

use crate::agent_runner::capability::{
    AgentMcpExecutionCapability, VerifiedAgentMcpExecutionContext,
};
use crate::agent_runner::deployment::{AgentDeployment, DEFAULT_LEASE_MS};
use crate::agent_runner::external_session;
use crate::agent_runner::external_session::{
    attached_lease, attachment_lease, check_attachment, plan_attachment, required,
    AttachmentRecords, AuthorityRecords, CloseStep, ExternalAgentSession, ReadRecord, SessionView,
};
use crate::agent_runner::records;
use crate::json::Json;
use crate::ports;
use crate::ports::{LeaseClaim, SideEffectContext, StorageBatch, Stored, WriteContext};
use crate::text;

verus! {

/// What a client is attached to, and for whom.
#[derive(Debug)]
pub struct AttachCase {
    pub deployment_id: String,
    pub activation_id: String,
    pub context: SideEffectContext,
}

/// What an attachment rests on: the deployment, and the records that were read.
#[derive(Debug)]
pub struct Attachment {
    pub deployment: AgentDeployment,
    pub seen: AttachmentRecords,
}

/// Where an attachment stands: what it waits for.
pub enum AttachStage {
    /// The record of the deployment.
    Deploying,
    /// The configuration.
    Configuring { deployment: AgentDeployment, record: Json },
    /// The activation.
    Activating { deployment: AgentDeployment, record: Json, config: Json },
    /// The pointer to the deployment's run.
    Pointing { deployment: AgentDeployment, record: Json, config: Json, activation: Json },
    /// The time, and a fresh capability.
    Readying { found: Attachment },
    /// The lease.
    Leasing { found: Attachment, capability: AgentMcpExecutionCapability, now_ms: i64 },
    /// Whether the writes went through.
    Writing { session: ExternalAgentSession },
    /// What the records say of the authority of the session.
    Verifying { session: ExternalAgentSession },
    /// What became of the lease of an attachment that did not go through.
    Releasing,
    /// What is to be left to an operator, since the session has no authority.
    Failing { session: ExternalAgentSession, code: String },
    /// What became of leaving it to an operator.
    Closing { code: String },
}

/// What became of what a step asked for.
pub enum AttachEvent {
    /// It failed.
    Failed(String),
    /// The record of the deployment, and what it reads as.
    Deployment { record: Option<Json>, deployment: Stored<AgentDeployment> },
    /// A record, if there is one.
    Record(Option<Json>),
    Ready { now_ms: i64, capability: AgentMcpExecutionCapability },
    /// The lease, where no other holds it.
    Lease(Option<LeaseClaim>),
    /// Whether the writes went through.
    Written(bool),
    Authority(AuthorityRecords),
    /// The pointer to the run and the record of it, as far as they could be read.
    Records { active: ReadRecord, run: ReadRecord },
    /// It was tried.
    Tried,
}

/// What a step asks for.
pub enum AttachAction {
    LoadDeployment { deployment_id: String },
    LoadConfig { config_id: String },
    LoadActivation { activation_id: String },
    LoadActive { deployment_id: String },
    /// To tell the time and to issue a capability.
    Prepare,
    AcquireLease { resource: String, owner: String, now_ms: i64, lease_ms: i64 },
    Write(StorageBatch),
    /// To read what the authority of the session is checked against.
    CheckAuthority,
    Release(LeaseClaim),
    /// To read the pointer to the run and the record of it.
    ReadRun,
    /// To make the writes, if there are any, and to release the lease.
    Detach { batch: Option<StorageBatch>, lease: LeaseClaim },
}

/// What comes of a step.
pub enum AttachStep {
    Ask { stage: AttachStage, action: AttachAction },
    End(Result<ExternalAgentSession, String>),
}

impl Attachment {
    /// Why the attachment cannot be made, if it cannot.
    pub open spec fn fault(self, case: AttachCase) -> Option<Seq<char>> {
        external_session::attachment_fault(
            self.deployment,
            self.seen.config@,
            self.seen.activation@,
            case.activation_id@,
            case.context.authority.account_mode@,
            ports::option_tree(self.seen.prior),
        )
    }
}

/// Whether an attachment can have come to a stage.
pub open spec fn attach_reached(case: AttachCase, stage: AttachStage) -> bool {
    match stage {
        AttachStage::Readying { found } | AttachStage::Leasing { found, .. } => found.fault(
            case,
        ) is None,
        AttachStage::Writing { session } | AttachStage::Verifying { session }
        | AttachStage::Failing { session, .. } => !session@.closed,
        _ => true,
    }
}

/// Whether an event is one that a stage waits for. What is left to an operator is a run that
/// can take the state in which it is left.
pub open spec fn attach_fits(case: AttachCase, stage: AttachStage, event: AttachEvent) -> bool {
    &&& attach_reached(case, stage)
    &&& match event {
        AttachEvent::Failed(_) => !(stage is Releasing) && !(stage is Failing) && !(stage is Closing),
        _ => match stage {
            AttachStage::Deploying => event is Deployment,
            AttachStage::Configuring { .. } | AttachStage::Activating { .. }
            | AttachStage::Pointing { .. } => event is Record,
            AttachStage::Readying { .. } => event is Ready,
            AttachStage::Leasing { .. } => event is Lease,
            AttachStage::Writing { .. } => event is Written,
            AttachStage::Verifying { .. } => event is Authority,
            AttachStage::Releasing | AttachStage::Closing { .. } => event is Tried,
            AttachStage::Failing { session, .. } => event matches AttachEvent::Records {
                active,
                run,
            } && external_session::can_detach(session@, active, run),
        },
    }
}

/// Whether a step ends the attachment with a code.
pub open spec fn refuses(r: AttachStep, code: Seq<char>) -> bool {
    r matches AttachStep::End(Err(e)) && e@ == code
}

/// Whether a step closes a session that has no authority.
pub open spec fn gives_up(r: AttachStep, session: ExternalAgentSession, code: Seq<char>) -> bool {
    r matches AttachStep::Ask {
        stage: AttachStage::Failing { session: kept, code: said },
        action: AttachAction::ReadRun,
    } && kept == session && said@ == code
}

/// Whether a step releases the lease of an attachment that did not go through.
pub open spec fn backs_out(r: AttachStep, session: ExternalAgentSession) -> bool {
    r matches AttachStep::Ask {
        stage: AttachStage::Releasing,
        action: AttachAction::Release(lease),
    } && lease@ == session@.lease
}

/// Whether a step is the first of an attachment.
pub open spec fn attach_begins(case: AttachCase, r: AttachStep) -> bool {
    r matches AttachStep::Ask {
        stage: AttachStage::Deploying,
        action: AttachAction::LoadDeployment { deployment_id },
    } && deployment_id@ == case.deployment_id@
}

/// The session of an attachment.
pub open spec fn session_of(case: AttachCase, token: Seq<char>, lease: LeaseClaim) -> SessionView {
    SessionView {
        token,
        lease: lease@,
        deployment_id: case.deployment_id@,
        run_id: external_session::external_run_id(token),
        closed: false,
    }
}

/// Whether a step is the one that a stage and an event lead to.
pub open spec fn attach_leads_to(
    case: AttachCase,
    stage: AttachStage,
    event: AttachEvent,
    r: AttachStep,
) -> bool {
    match (stage, event) {
        (AttachStage::Writing { session }, AttachEvent::Failed(_)) => backs_out(r, session),
        (AttachStage::Verifying { session }, AttachEvent::Failed(code)) => gives_up(
            r,
            session,
            code@,
        ),
        (_, AttachEvent::Failed(code)) => refuses(r, code@),
        (AttachStage::Deploying, AttachEvent::Deployment { record, deployment }) => match (
            record,
            deployment,
        ) {
            (None, _) => refuses(r, "external_agent_binding_missing"@),
            (Some(held), Stored::Present(d)) => r matches AttachStep::Ask {
                stage: AttachStage::Configuring { deployment: kept, record: seen },
                action: AttachAction::LoadConfig { config_id },
            } && kept == d && seen == held && config_id@ == d.execution_config_version_id@,
            _ => refuses(r, "agent_deployment_invalid"@),
        },
        (AttachStage::Configuring { deployment, record }, AttachEvent::Record(config)) => match config {
            None => refuses(r, "external_agent_binding_missing"@),
            Some(found) => r matches AttachStep::Ask {
                stage: AttachStage::Activating { deployment: kept, record: held, config: seen },
                action: AttachAction::LoadActivation { activation_id },
            } && kept == deployment && held == record && seen == found && activation_id@
                == case.activation_id@,
        },
        (
            AttachStage::Activating { deployment, record, config },
            AttachEvent::Record(activation),
        ) => match activation {
            None => refuses(r, "external_agent_binding_missing"@),
            Some(found) => if external_session::attachment_agrees(
                deployment,
                config@,
                found@,
                case.activation_id@,
                case.context.authority.account_mode@,
            ) {
                r matches AttachStep::Ask {
                    stage: AttachStage::Pointing {
                        deployment: kept,
                        record: held,
                        config: same,
                        activation: seen,
                    },
                    action: AttachAction::LoadActive { deployment_id },
                } && kept == deployment && held == record && same == config && seen == found
                    && deployment_id@ == case.deployment_id@
            } else {
                refuses(r, "external_agent_binding_invalid"@)
            },
        },
        (
            AttachStage::Pointing { deployment, record, config, activation },
            AttachEvent::Record(prior),
        ) => {
            let found = Attachment {
                deployment,
                seen: AttachmentRecords { deployment_record: record, config, activation, prior },
            };
            match found.fault(case) {
                Some(code) => refuses(r, code),
                None => r == (AttachStep::Ask {
                    stage: AttachStage::Readying { found },
                    action: AttachAction::Prepare,
                }),
            }
        },
        (AttachStage::Readying { found }, AttachEvent::Ready { now_ms, capability }) => r matches AttachStep::Ask {
            stage: AttachStage::Leasing { found: kept, capability: held, now_ms: at },
            action: AttachAction::AcquireLease { resource, owner, now_ms: asked, lease_ms },
        } && kept == found && held == capability && at == now_ms && resource@
            == records::lease_resource_of(case.deployment_id@) && owner@
            == external_session::external_run_id(capability@) && asked == now_ms && lease_ms
            == DEFAULT_LEASE_MS,
        (AttachStage::Leasing { found, capability, now_ms }, AttachEvent::Lease(lease)) => match lease {
            None => refuses(r, "agent_run_lease_held"@),
            Some(claim) => r matches AttachStep::Ask {
                stage: AttachStage::Writing { session },
                action: AttachAction::Write(batch),
            } && session@ == session_of(case, capability@, claim) && batch@
                == external_session::attachment_batch(
                found.deployment,
                case.deployment_id@,
                case.activation_id@,
                found.seen,
                capability@,
                claim@,
                now_ms as int,
                ports::context_of(case.context),
            ),
        },
        (AttachStage::Writing { session }, AttachEvent::Written(through)) => if through {
            r == (AttachStep::Ask {
                stage: AttachStage::Verifying { session },
                action: AttachAction::CheckAuthority,
            })
        } else {
            backs_out(r, session)
        },
        (AttachStage::Verifying { session }, AttachEvent::Authority(seen)) => exists|
            verdict: Result<VerifiedAgentMcpExecutionContext, String>,
        |
            #[trigger] session.authority(
                seen.snapshot,
                text::option_text(seen.desired_state),
                seen.lease,
                seen.checked_at_ms as int,
                seen.known_tools@,
                verdict,
            ) && match verdict {
                Ok(_) => r == AttachStep::End(Ok(session)),
                Err(code) => gives_up(r, session, code@),
            },
        (AttachStage::Releasing, AttachEvent::Tried) => refuses(r, "external_agent_attach_conflict"@),
        (AttachStage::Failing { session, code }, AttachEvent::Records { active, run }) => {
            r matches AttachStep::Ask {
                stage: AttachStage::Closing { code: said },
                action: AttachAction::Detach { batch, lease },
            } && said == code && lease@ == session@.lease
                && match external_session::detachment_fault(session@, active, run) {
                Some(_) => batch is None,
                None => batch matches Some(writes) && writes@ == external_session::detachment_batch(
                    session@,
                    active->Ok_0->Some_0@,
                    run->Ok_0->Some_0@,
                ),
            }
        },
        (AttachStage::Closing { code }, AttachEvent::Tried) => refuses(r, code@),
        _ => false,
    }
}

fn refuse(code: &str) -> (r: AttachStep)
    ensures
        refuses(r, code@),
{
    AttachStep::End(Err(code.to_owned()))
}

fn back_out(session: ExternalAgentSession) -> (r: AttachStep)
    ensures
        backs_out(r, session),
{
    AttachStep::Ask {
        stage: AttachStage::Releasing,
        action: AttachAction::Release(session.lease().copy()),
    }
}

fn take_activation(
    case: &AttachCase,
    deployment: AgentDeployment,
    record: Json,
    config: Json,
    activation: Option<Json>,
) -> (r: AttachStep)
    ensures
        attach_leads_to(
            *case,
            AttachStage::Activating { deployment, record, config },
            AttachEvent::Record(activation),
            r,
        ),
        r matches AttachStep::Ask { stage, .. } ==> attach_reached(*case, stage),
{
    let activation = match required(activation) {
        Ok(found) => found,
        Err(code) => {
            return AttachStep::End(Err(code));
        },
    };
    match check_attachment(
        &deployment,
        &config,
        &activation,
        case.activation_id.as_str(),
        case.context.authority.account_mode.as_str(),
        &None,
    ) {
        Ok(_) => AttachStep::Ask {
            stage: AttachStage::Pointing { deployment, record, config, activation },
            action: AttachAction::LoadActive { deployment_id: case.deployment_id.clone() },
        },
        Err(code) => AttachStep::End(Err(code)),
    }
}

fn take_pointer(
    case: &AttachCase,
    deployment: AgentDeployment,
    record: Json,
    config: Json,
    activation: Json,
    prior: Option<Json>,
) -> (r: AttachStep)
    ensures
        attach_leads_to(
            *case,
            AttachStage::Pointing { deployment, record, config, activation },
            AttachEvent::Record(prior),
            r,
        ),
        r matches AttachStep::Ask { stage, .. } ==> attach_reached(*case, stage),
{
    let found = Attachment {
        deployment,
        seen: AttachmentRecords { deployment_record: record, config, activation, prior },
    };
    match check_attachment(
        &found.deployment,
        &found.seen.config,
        &found.seen.activation,
        case.activation_id.as_str(),
        case.context.authority.account_mode.as_str(),
        &found.seen.prior,
    ) {
        Ok(_) => AttachStep::Ask {
            stage: AttachStage::Readying { found },
            action: AttachAction::Prepare,
        },
        Err(code) => AttachStep::End(Err(code)),
    }
}

fn take_lease(
    case: &AttachCase,
    found: Attachment,
    capability: AgentMcpExecutionCapability,
    now_ms: i64,
    lease: Option<LeaseClaim>,
) -> (r: AttachStep)
    requires
        found.fault(*case) is None,
    ensures
        attach_leads_to(
            *case,
            AttachStage::Leasing { found, capability, now_ms },
            AttachEvent::Lease(lease),
            r,
        ),
        r matches AttachStep::Ask { stage, .. } ==> attach_reached(*case, stage),
{
    let claim = match attached_lease(lease) {
        Ok(claim) => claim,
        Err(code) => {
            return AttachStep::End(Err(code));
        },
    };
    match plan_attachment(
        &found.deployment,
        case.deployment_id.as_str(),
        case.activation_id.as_str(),
        case.context.authority.account_mode.as_str(),
        &found.seen,
        capability,
        claim,
        now_ms,
        &WriteContext::of(&case.context),
    ) {
        Ok((session, batch)) => AttachStep::Ask {
            stage: AttachStage::Writing { session },
            action: AttachAction::Write(batch),
        },
        Err(code) => AttachStep::End(Err(code)),
    }
}

fn detach(session: ExternalAgentSession, code: String, active: ReadRecord, run: ReadRecord) -> (r:
    AttachStep)
    requires
        !session@.closed,
        external_session::can_detach(session@, active, run),
    ensures
        forall|case: AttachCase|
            #[trigger] attach_leads_to(
                case,
                AttachStage::Failing { session, code },
                AttachEvent::Records { active, run },
                r,
            ),
        r matches AttachStep::Ask { stage: AttachStage::Closing { .. }, .. },
{
    let mut session = session;
    let batch: Option<StorageBatch> = match session.close(&active, &run) {
        CloseStep::Detach(writes) => Some(writes),
        _ => None,
    };
    AttachStep::Ask {
        stage: AttachStage::Closing { code },
        action: AttachAction::Detach { batch, lease: session.lease().copy() },
    }
}

impl ExternalAgentSession {
    /// Begins an attachment. It is called only after the owning service has authorized this
    /// very activation: it grants no mandate and does not make an activation ready.
    pub fn begin_attachment(case: &AttachCase) -> (r: AttachStep)
        ensures
            attach_begins(*case, r),
    {
        AttachStep::Ask {
            stage: AttachStage::Deploying,
            action: AttachAction::LoadDeployment { deployment_id: case.deployment_id.clone() },
        }
    }

    /// The next step of an attachment.
    pub fn attach(case: &AttachCase, stage: AttachStage, event: AttachEvent) -> (r: AttachStep)
        requires
            attach_fits(*case, stage, event),
        ensures
            attach_leads_to(*case, stage, event, r),
            r matches AttachStep::Ask { stage: next, .. } ==> attach_reached(*case, next),
    {
        match (stage, event) {
            (AttachStage::Writing { session }, AttachEvent::Failed(_)) => back_out(session),
            (AttachStage::Verifying { session }, AttachEvent::Failed(code)) => AttachStep::Ask {
                stage: AttachStage::Failing { session, code },
                action: AttachAction::ReadRun,
            },
            (_, AttachEvent::Failed(code)) => AttachStep::End(Err(code)),
            (AttachStage::Deploying, AttachEvent::Deployment { record, deployment }) => {
                let record = match required(record) {
                    Ok(held) => held,
                    Err(code) => {
                        return AttachStep::End(Err(code));
                    },
                };
                match deployment {
                    Stored::Present(deployment) => {
                        let config_id = deployment.execution_config_version_id.clone();
                        AttachStep::Ask {
                            stage: AttachStage::Configuring { deployment, record },
                            action: AttachAction::LoadConfig { config_id },
                        }
                    },
                    _ => refuse("agent_deployment_invalid"),
                }
            },
            (AttachStage::Configuring { deployment, record }, AttachEvent::Record(config)) => {
                match required(config) {
                    Ok(config) => AttachStep::Ask {
                        stage: AttachStage::Activating { deployment, record, config },
                        action: AttachAction::LoadActivation {
                            activation_id: case.activation_id.clone(),
                        },
                    },
                    Err(code) => AttachStep::End(Err(code)),
                }
            },
            (
                AttachStage::Activating { deployment, record, config },
                AttachEvent::Record(activation),
            ) => take_activation(case, deployment, record, config, activation),
            (
                AttachStage::Pointing { deployment, record, config, activation },
                AttachEvent::Record(prior),
            ) => take_pointer(case, deployment, record, config, activation, prior),
            (AttachStage::Readying { found }, AttachEvent::Ready { now_ms, capability }) => {
                let (resource, owner) = attachment_lease(case.deployment_id.as_str(), &capability);
                AttachStep::Ask {
                    stage: AttachStage::Leasing { found, capability, now_ms },
                    action: AttachAction::AcquireLease {
                        resource,
                        owner,
                        now_ms,
                        lease_ms: DEFAULT_LEASE_MS,
                    },
                }
            },
            (AttachStage::Leasing { found, capability, now_ms }, AttachEvent::Lease(lease)) => take_lease(
                case,
                found,
                capability,
                now_ms,
                lease,
            ),
            (AttachStage::Writing { session }, AttachEvent::Written(through)) => {
                if !through {
                    return back_out(session);
                }
                AttachStep::Ask {
                    stage: AttachStage::Verifying { session },
                    action: AttachAction::CheckAuthority,
                }
            },
            (AttachStage::Verifying { session }, AttachEvent::Authority(seen)) => {
                match session.is_authorized(&seen) {
                    Ok(_) => AttachStep::End(Ok(session)),
                    Err(code) => AttachStep::Ask {
                        stage: AttachStage::Failing { session, code },
                        action: AttachAction::ReadRun,
                    },
                }
            },
            (AttachStage::Releasing, _) => refuse("external_agent_attach_conflict"),
            (AttachStage::Failing { session, code }, AttachEvent::Records { active, run }) => detach(
                session,
                code,
                active,
                run,
            ),
            (AttachStage::Closing { code }, _) => AttachStep::End(Err(code)),
            _ => {
                assert(false);
                refuse("")
            },
        }
    }
}

/// There is a session only once its run, the pointer to it and its capability are on record
/// and its authority has been checked against the records; nothing is written before its
/// lease is held.
pub proof fn session_has_authority(
    case: AttachCase,
    stage: AttachStage,
    event: AttachEvent,
    r: AttachStep,
)
    requires
        attach_fits(case, stage, event),
        attach_leads_to(case, stage, event, r),
    ensures
        r matches AttachStep::End(Ok(session)) ==> (stage matches AttachStage::Verifying {
            session: kept,
        } && kept == session && event is Authority),
        r matches AttachStep::Ask { stage: AttachStage::Verifying { session }, .. } ==> (
        stage matches AttachStage::Writing { session: kept } && kept == session && event
            == AttachEvent::Written(true)),
        r matches AttachStep::Ask { action: AttachAction::Write(_), .. } ==> stage is Leasing && (
        event matches AttachEvent::Lease(Some(_))),
{
}

/// Once its lease is held, an attachment that fails gives the lease back: it ends only after
/// the lease was released, and what it had put on record is left to an operator.
pub proof fn failed_attachment_gives_its_lease_back(
    case: AttachCase,
    stage: AttachStage,
    event: AttachEvent,
    r: AttachStep,
)
    requires
        attach_fits(case, stage, event),
        attach_leads_to(case, stage, event, r),
        stage is Writing || stage is Verifying || stage is Releasing || stage is Failing
            || stage is Closing,
    ensures
        r matches AttachStep::End(Err(_)) ==> stage is Releasing || stage is Closing,
        r matches AttachStep::Ask { stage: AttachStage::Releasing, action } ==> (
        action matches AttachAction::Release(lease) && (stage matches AttachStage::Writing {
            session,
        } && lease@ == session@.lease)),
        r matches AttachStep::Ask { stage: AttachStage::Closing { .. }, action } ==> (
        action matches AttachAction::Detach { lease, .. } && (stage matches AttachStage::Failing {
            session,
            ..
        } && lease@ == session@.lease)),
{
}

} // verus!
