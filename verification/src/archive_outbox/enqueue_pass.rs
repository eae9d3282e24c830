//! Putting evidence in and asking for it again, step by step. The caller performs what a
//! step asks for and hands back what became of it.

use vstd::prelude::*;

use crate::archive_outbox::envelope;
use crate::archive_outbox::envelope::{
    decode_envelope, idempotency_mapping, validate_identifier, ArchiveEvidenceEnvelope,
    ArchiveEvidenceInput, ArchiveOutboxError, EnvelopeView,
};
use crate::archive_outbox::state;
use crate::archive_outbox::state::{
    change_state, decode_status, first_state, load_or_repair_state, ArchiveEvidenceSyncStatus,
    StatusView,
};
use crate::archive_outbox::store;
use crate::archive_outbox::store::{plan_enqueue, ArchiveEnqueueReceipt, ArchiveEvidenceOutbox};
use crate::json;
use crate::json::Json;
use crate::ports;
use crate::ports::{SideEffectContext, StorageBatch, Stored, WriteContext};

verus! {

/// What became of what a step asked for.
#[derive(Debug)]
pub enum OutboxEvent {
    /// It failed.
    Failed,
    /// Whether the writes went through; otherwise something was not as they expected.
    Written(bool),
    /// The record is there: it was put, or the very same was there before.
    Kept,
    /// What is stored under the idempotency key.
    Mapping(Option<Json>),
    Envelope(Stored<ArchiveEvidenceEnvelope>),
    State(Stored<ArchiveEvidenceSyncStatus>),
}

/// What a step asks for.
#[derive(Debug)]
pub enum OutboxAction {
    /// To make the writes together, where everything is as they expect.
    Write(StorageBatch),
    /// To put the record, unless there is one.
    PutIfAbsent(StorageBatch),
    LoadMapping { idempotency_key: String },
    LoadEnvelope { request_id: String },
    LoadState { request_id: String },
}

/// Where putting evidence in stands: what it waits for.
#[derive(Debug)]
pub enum EnqueueStage {
    /// Whether the writes went through.
    Writing { receipt: ArchiveEnqueueReceipt },
    /// What is stored under the idempotency key, since something was there already.
    Mapping { evidence: ArchiveEvidenceEnvelope },
    /// The envelope that was put in before.
    Recalling { evidence: ArchiveEvidenceEnvelope },
    /// How far that evidence has come.
    Stating { kept: ArchiveEvidenceEnvelope },
    /// What became of the state that storage had lost.
    Repairing { receipt: ArchiveEnqueueReceipt },
}

/// What comes of a step that puts evidence in.
#[derive(Debug)]
pub enum EnqueueStep {
    Ask { stage: EnqueueStage, action: OutboxAction },
    End(Result<ArchiveEnqueueReceipt, ArchiveOutboxError>),
}

/// Whether an event is one that a stage waits for.
pub open spec fn enqueue_fits(stage: EnqueueStage, event: OutboxEvent) -> bool {
    event is Failed || match stage {
        EnqueueStage::Writing { .. } => event is Written,
        EnqueueStage::Mapping { .. } => event is Mapping,
        EnqueueStage::Recalling { .. } => event is Envelope,
        EnqueueStage::Stating { .. } => event is State,
        EnqueueStage::Repairing { .. } => event is Kept,
    }
}

/// Why a stored envelope cannot be read, if it cannot.
pub open spec fn envelope_fault(stored: Stored<ArchiveEvidenceEnvelope>) -> Option<ArchiveOutboxError> {
    match stored {
        Stored::Present(e) => match envelope::envelope_integrity(e@) {
            Ok(_) => None,
            Err(error) => Some(error),
        },
        _ => Some(ArchiveOutboxError::StorageInconsistent),
    }
}

/// Whether a receipt is of evidence in a state.
pub open spec fn receipt_is(
    receipt: ArchiveEnqueueReceipt,
    e: EnvelopeView,
    sync: StatusView,
    duplicate: bool,
) -> bool {
    receipt.evidence@ == e && receipt.sync@ == sync && receipt.duplicate == duplicate
}

/// Whether a step is the first of putting evidence in.
pub open spec fn enqueue_begins(input: ArchiveEvidenceInput, r: EnqueueStep) -> bool {
    match envelope::envelope_of(input) {
        Err(error) => r == EnqueueStep::End(Err(error)),
        Ok(e) => r matches EnqueueStep::Ask {
            stage: EnqueueStage::Writing { receipt },
            action: OutboxAction::Write(batch),
        } && receipt_is(receipt, e, state::pending_view(input.occurred_at_ms), false) && batch@
            == store::enqueue_batch(e, input.occurred_at_ms, ports::context_of(input.context)),
    }
}

/// Whether a step is the one that a stage and an event lead to.
pub open spec fn enqueue_leads_to(
    context: SideEffectContext,
    stage: EnqueueStage,
    event: OutboxEvent,
    r: EnqueueStep,
) -> bool {
    match (stage, event) {
        (_, OutboxEvent::Failed) => r == EnqueueStep::End(
            Err(ArchiveOutboxError::StorageUnavailable),
        ),
        (EnqueueStage::Writing { receipt }, OutboxEvent::Written(through)) => if through {
            r == EnqueueStep::End(Ok(receipt))
        } else {
            r matches EnqueueStep::Ask {
                stage: EnqueueStage::Mapping { evidence },
                action: OutboxAction::LoadMapping { idempotency_key },
            } && evidence == receipt.evidence && idempotency_key@ == evidence@.idempotency_key
        },
        (EnqueueStage::Mapping { evidence }, OutboxEvent::Mapping(found)) => match found {
            None => r == EnqueueStep::End(Err(ArchiveOutboxError::StorageInconsistent)),
            Some(record) => if json::alike(record@, envelope::mapping_tree(evidence@)) {
                r matches EnqueueStep::Ask {
                    stage: EnqueueStage::Recalling { evidence: same },
                    action: OutboxAction::LoadEnvelope { request_id },
                } && same == evidence && request_id@ == evidence@.request_id
            } else {
                r == EnqueueStep::End(Err(ArchiveOutboxError::IdempotencyConflict))
            },
        },
        (EnqueueStage::Recalling { evidence }, OutboxEvent::Envelope(stored)) => match envelope_fault(
            stored,
        ) {
            Some(error) => r == EnqueueStep::End(Err(error)),
            None => if envelope::envelopes_agree(stored->Present_0@, evidence@) {
                r matches EnqueueStep::Ask {
                    stage: EnqueueStage::Stating { kept },
                    action: OutboxAction::LoadState { request_id },
                } && kept == stored->Present_0 && request_id@ == evidence@.request_id
            } else {
                r == EnqueueStep::End(Err(ArchiveOutboxError::RequestIdConflict))
            },
        },
        (EnqueueStage::Stating { kept }, OutboxEvent::State(stored)) => match state::stored_status(
            stored,
        ) {
            Err(error) => r == EnqueueStep::End(Err(error)),
            Ok(Some(known)) => r matches EnqueueStep::End(Ok(receipt)) && receipt_is(
                receipt,
                kept@,
                known,
                true,
            ),
            Ok(None) => r matches EnqueueStep::Ask {
                stage: EnqueueStage::Repairing { receipt },
                action: OutboxAction::PutIfAbsent(batch),
            } && receipt_is(receipt, kept@, state::pending_view(kept.occurred_at_ms), true)
                && batch@ == state::first_state_batch(
                kept@.request_id,
                state::pending_view(kept.occurred_at_ms),
                ports::context_of(context),
            ),
        },
        (EnqueueStage::Repairing { receipt }, OutboxEvent::Kept) => r == EnqueueStep::End(
            Ok(receipt),
        ),
        _ => false,
    }
}

impl ArchiveEvidenceOutbox {
    /// Begins to put evidence in. No step of it calls the archive: where the archive is
    /// away, evidence is kept all the same.
    pub fn begin_enqueue(input: &ArchiveEvidenceInput) -> (r: EnqueueStep)
        ensures
            enqueue_begins(*input, r),
    {
        match plan_enqueue(input) {
            Ok(plan) => EnqueueStep::Ask {
                stage: EnqueueStage::Writing { receipt: plan.receipt },
                action: OutboxAction::Write(plan.batch),
            },
            Err(error) => EnqueueStep::End(Err(error)),
        }
    }

    /// The next step of putting evidence in: where something was there already, the very
    /// same evidence is acknowledged again, and anything else is a conflict.
    pub fn enqueue(context: &SideEffectContext, stage: EnqueueStage, event: OutboxEvent) -> (r:
        EnqueueStep)
        requires
            enqueue_fits(stage, event),
        ensures
            enqueue_leads_to(*context, stage, event, r),
    {
        match (stage, event) {
            (_, OutboxEvent::Failed) => EnqueueStep::End(
                Err(ArchiveOutboxError::StorageUnavailable),
            ),
            (EnqueueStage::Writing { receipt }, OutboxEvent::Written(through)) => {
                if through {
                    return EnqueueStep::End(Ok(receipt));
                }
                let evidence = receipt.evidence;
                let idempotency_key = evidence.idempotency_key.clone();
                EnqueueStep::Ask {
                    stage: EnqueueStage::Mapping { evidence },
                    action: OutboxAction::LoadMapping { idempotency_key },
                }
            },
            (EnqueueStage::Mapping { evidence }, OutboxEvent::Mapping(found)) => match found {
                None => EnqueueStep::End(Err(ArchiveOutboxError::StorageInconsistent)),
                Some(record) => {
                    if !record.equals(&idempotency_mapping(&evidence)) {
                        return EnqueueStep::End(Err(ArchiveOutboxError::IdempotencyConflict));
                    }
                    let request_id = evidence.request_id.clone();
                    EnqueueStep::Ask {
                        stage: EnqueueStage::Recalling { evidence },
                        action: OutboxAction::LoadEnvelope { request_id },
                    }
                },
            },
            (EnqueueStage::Recalling { evidence }, OutboxEvent::Envelope(stored)) => {
                match decode_envelope(stored) {
                    Err(error) => EnqueueStep::End(Err(error)),
                    Ok(kept) => {
                        if !kept.equals(&evidence) {
                            return EnqueueStep::End(Err(ArchiveOutboxError::RequestIdConflict));
                        }
                        EnqueueStep::Ask {
                            stage: EnqueueStage::Stating { kept },
                            action: OutboxAction::LoadState { request_id: evidence.request_id },
                        }
                    },
                }
            },
            (EnqueueStage::Stating { kept }, OutboxEvent::State(stored)) => match decode_status(
                &stored,
            ) {
                Err(error) => EnqueueStep::End(Err(error)),
                Ok(Some(known)) => EnqueueStep::End(
                    Ok(ArchiveEnqueueReceipt { evidence: kept, sync: known, duplicate: true }),
                ),
                Ok(None) => {
                    let pending = ArchiveEvidenceSyncStatus::pending(kept.occurred_at_ms);
                    let batch = first_state(
                        kept.request_id.as_str(),
                        &pending,
                        &WriteContext::of(context),
                    );
                    EnqueueStep::Ask {
                        stage: EnqueueStage::Repairing {
                            receipt: ArchiveEnqueueReceipt {
                                evidence: kept,
                                sync: pending,
                                duplicate: true,
                            },
                        },
                        action: OutboxAction::PutIfAbsent(batch),
                    }
                },
            },
            (EnqueueStage::Repairing { receipt }, _) => EnqueueStep::End(Ok(receipt)),
            _ => {
                assert(false);
                EnqueueStep::End(Err(ArchiveOutboxError::StorageUnavailable))
            },
        }
    }
}

/// Putting the same evidence in again answers the same, as a duplicate, and writes nothing:
/// the writes are refused, since the records are there, and after them nothing is asked for
/// but what the first time stored. The evidence that both answers hold is intact.
pub proof fn repeated_evidence_is_a_duplicate(
    input: ArchiveEvidenceInput,
    first: EnqueueStep,
    first_end: EnqueueStep,
    again: EnqueueStep,
    mapping: Json,
    mapped: EnqueueStep,
    kept: ArchiveEvidenceEnvelope,
    recalled: EnqueueStep,
    status: ArchiveEvidenceSyncStatus,
    stated: EnqueueStep,
    end: EnqueueStep,
    receipt: ArchiveEnqueueReceipt,
)
    requires
        enqueue_begins(input, first),
        enqueue_leads_to(
            input.context,
            first->stage,
            OutboxEvent::Written(true),
            first_end,
        ),
        first_end == EnqueueStep::End(Ok(receipt)),
        first is Ask,
        mapping@ == first->action->Write_0@.writes[1].value,
        kept@ == receipt.evidence@,
        status@ == receipt.sync@,
        enqueue_begins(input, again),
        enqueue_leads_to(input.context, again->stage, OutboxEvent::Written(false), mapped),
        enqueue_leads_to(
            input.context,
            mapped->stage,
            OutboxEvent::Mapping(Some(mapping)),
            recalled,
        ),
        enqueue_leads_to(
            input.context,
            recalled->stage,
            OutboxEvent::Envelope(Stored::Present(kept)),
            stated,
        ),
        enqueue_leads_to(
            input.context,
            stated->stage,
            OutboxEvent::State(Stored::Present(status)),
            end,
        ),
    ensures
        mapped matches EnqueueStep::Ask { action: OutboxAction::LoadMapping { .. }, .. },
        recalled matches EnqueueStep::Ask { action: OutboxAction::LoadEnvelope { .. }, .. },
        stated matches EnqueueStep::Ask { action: OutboxAction::LoadState { .. }, .. },
        end matches EnqueueStep::End(Ok(answer)) && receipt_is(
            answer,
            receipt.evidence@,
            receipt.sync@,
            true,
        ),
        !receipt.duplicate,
        envelope::envelope_integrity(receipt.evidence@) is Ok,
{
    let e = envelope::envelope_of(input)->Ok_0;
    json::alike_to_itself(envelope::mapping_tree(e));
    json::alike_to_itself(e.payload);
    reveal_strlit("pending");
    reveal_strlit("leased");
    assert("pending"@.len() == 7 && "leased"@.len() == 6);
    envelope::made_envelope_is_intact(input);
}

/// Where asking for evidence again stands: what it waits for.
#[derive(Debug)]
pub enum RequeueStage {
    /// The envelope.
    Finding,
    /// How far the evidence has come.
    Loading { evidence: ArchiveEvidenceEnvelope },
    /// What became of the state that storage had lost.
    Repairing { evidence: ArchiveEvidenceEnvelope, status: ArchiveEvidenceSyncStatus },
    /// Whether the state could be changed.
    Changing { evidence: ArchiveEvidenceEnvelope, replacement: ArchiveEvidenceSyncStatus },
    /// The state that another has written in the meantime.
    Reloading { evidence: ArchiveEvidenceEnvelope },
    /// What became of that state, which storage had lost.
    Restoring { status: ArchiveEvidenceSyncStatus },
}

/// What comes of a step that asks for evidence again.
#[derive(Debug)]
pub enum RequeueStep {
    Ask { stage: RequeueStage, action: OutboxAction },
    End(Result<ArchiveEvidenceSyncStatus, ArchiveOutboxError>),
}

/// Which evidence is asked for again, and when.
#[derive(Debug)]
pub struct RequeueCase {
    pub request_id: String,
    pub now_ms: i64,
    pub context: SideEffectContext,
}

/// Whether an event is one that a stage waits for.
pub open spec fn requeue_fits(stage: RequeueStage, event: OutboxEvent) -> bool {
    event is Failed || match stage {
        RequeueStage::Finding => event is Envelope,
        RequeueStage::Loading { .. } | RequeueStage::Reloading { .. } => event is State,
        RequeueStage::Repairing { .. } | RequeueStage::Restoring { .. } => event is Kept,
        RequeueStage::Changing { .. } => event is Written,
    }
}

/// Whether a step is the one on evidence in a state: what is published or held by a worker
/// stays as it is, and anything else is to be tried again at once.
pub open spec fn requeues(
    case: RequeueCase,
    evidence: ArchiveEvidenceEnvelope,
    current: StatusView,
    r: RequeueStep,
) -> bool {
    if current.is_published() || current.is_leased_until(case.now_ms) {
        r matches RequeueStep::End(Ok(status)) && status@ == current
    } else {
        r matches RequeueStep::Ask {
            stage: RequeueStage::Changing { evidence: same, replacement },
            action: OutboxAction::Write(batch),
        } && same == evidence && replacement@ == state::requeued_view(current, case.now_ms)
            && batch@ == state::state_batch(
            case.request_id@,
            current,
            state::requeued_view(current, case.now_ms),
            ports::context_of(case.context),
        )
    }
}

/// The write of a state that storage has lost.
pub open spec fn repair_of(e: EnvelopeView, occurred_at_ms: i64) -> ports::BatchView {
    state::first_state_batch(
        e.request_id,
        state::pending_view(occurred_at_ms),
        state::state_key(e.request_id, "repair"@),
    )
}

/// Whether a step is the first of asking for evidence again.
pub open spec fn requeue_begins(case: RequeueCase, r: RequeueStep) -> bool {
    if !envelope::identifier_is_safe(case.request_id@) {
        r == RequeueStep::End(Err(ArchiveOutboxError::InvalidIdentifier))
    } else if case.now_ms <= 0 {
        r == RequeueStep::End(Err(ArchiveOutboxError::InvalidOccurredAt))
    } else {
        r matches RequeueStep::Ask {
            stage: RequeueStage::Finding,
            action: OutboxAction::LoadEnvelope { request_id },
        } && request_id@ == case.request_id@
    }
}

/// Whether a step is the one that a stage and an event lead to.
pub open spec fn requeue_leads_to(
    case: RequeueCase,
    stage: RequeueStage,
    event: OutboxEvent,
    r: RequeueStep,
) -> bool {
    match (stage, event) {
        (_, OutboxEvent::Failed) => r == RequeueStep::End(
            Err(ArchiveOutboxError::StorageUnavailable),
        ),
        (RequeueStage::Finding, OutboxEvent::Envelope(stored)) => match envelope_fault(stored) {
            Some(error) => r == RequeueStep::End(Err(error)),
            None => r matches RequeueStep::Ask {
                stage: RequeueStage::Loading { evidence },
                action: OutboxAction::LoadState { request_id },
            } && evidence == stored->Present_0 && request_id@ == evidence@.request_id,
        },
        (RequeueStage::Loading { evidence }, OutboxEvent::State(stored)) => match state::stored_status(
            stored,
        ) {
            Err(error) => r == RequeueStep::End(Err(error)),
            Ok(Some(current)) => requeues(case, evidence, current, r),
            Ok(None) => r matches RequeueStep::Ask {
                stage: RequeueStage::Repairing { evidence: same, status },
                action: OutboxAction::PutIfAbsent(batch),
            } && same == evidence && status@ == state::pending_view(evidence.occurred_at_ms)
                && batch@ == repair_of(evidence@, evidence.occurred_at_ms),
        },
        (RequeueStage::Repairing { evidence, status }, OutboxEvent::Kept) => requeues(
            case,
            evidence,
            status@,
            r,
        ),
        (RequeueStage::Changing { evidence, replacement }, OutboxEvent::Written(through)) => if through {
            r == RequeueStep::End(Ok(replacement))
        } else {
            r matches RequeueStep::Ask {
                stage: RequeueStage::Reloading { evidence: same },
                action: OutboxAction::LoadState { request_id },
            } && same == evidence && request_id@ == evidence@.request_id
        },
        (RequeueStage::Reloading { evidence }, OutboxEvent::State(stored)) => match state::stored_status(
            stored,
        ) {
            Err(error) => r == RequeueStep::End(Err(error)),
            Ok(Some(current)) => r matches RequeueStep::End(Ok(status)) && status@ == current,
            Ok(None) => r matches RequeueStep::Ask {
                stage: RequeueStage::Restoring { status },
                action: OutboxAction::PutIfAbsent(batch),
            } && status@ == state::pending_view(evidence.occurred_at_ms) && batch@ == repair_of(
                evidence@,
                evidence.occurred_at_ms,
            ),
        },
        (RequeueStage::Restoring { status }, OutboxEvent::Kept) => r == RequeueStep::End(
            Ok(status),
        ),
        _ => false,
    }
}

impl ArchiveEvidenceOutbox {
    /// Begins to ask for evidence again that an operator had to look at.
    pub fn begin_requeue(case: &RequeueCase) -> (r: RequeueStep)
        ensures
            requeue_begins(*case, r),
    {
        if let Err(error) = validate_identifier(case.request_id.as_str()) {
            return RequeueStep::End(Err(error));
        }
        if case.now_ms <= 0 {
            return RequeueStep::End(Err(ArchiveOutboxError::InvalidOccurredAt));
        }
        RequeueStep::Ask {
            stage: RequeueStage::Finding,
            action: OutboxAction::LoadEnvelope { request_id: case.request_id.clone() },
        }
    }

    fn requeue_from(
        case: &RequeueCase,
        evidence: ArchiveEvidenceEnvelope,
        current: ArchiveEvidenceSyncStatus,
    ) -> (r: RequeueStep)
        ensures
            requeues(*case, evidence, current@, r),
    {
        if current.is_published() || current.is_leased_until(case.now_ms) {
            return RequeueStep::End(Ok(current));
        }
        let mut replacement = current.copy();
        replacement.state = "pending".to_owned();
        replacement.next_attempt_at_ms = Some(case.now_ms);
        replacement.last_error_code = None;
        replacement.lease_owner = None;
        replacement.lease_until_ms = None;
        let batch = change_state(
            case.request_id.as_str(),
            &current,
            &replacement,
            &WriteContext::of(&case.context),
        );
        RequeueStep::Ask {
            stage: RequeueStage::Changing { evidence, replacement },
            action: OutboxAction::Write(batch),
        }
    }

    /// The next step of asking for evidence again. Its envelope and its idempotency key
    /// stay as they are.
    pub fn requeue(case: &RequeueCase, stage: RequeueStage, event: OutboxEvent) -> (r: RequeueStep)
        requires
            requeue_fits(stage, event),
        ensures
            requeue_leads_to(*case, stage, event, r),
    {
        match (stage, event) {
            (_, OutboxEvent::Failed) => RequeueStep::End(
                Err(ArchiveOutboxError::StorageUnavailable),
            ),
            (RequeueStage::Finding, OutboxEvent::Envelope(stored)) => match decode_envelope(stored) {
                Err(error) => RequeueStep::End(Err(error)),
                Ok(evidence) => {
                    let request_id = evidence.request_id.clone();
                    RequeueStep::Ask {
                        stage: RequeueStage::Loading { evidence },
                        action: OutboxAction::LoadState { request_id },
                    }
                },
            },
            (RequeueStage::Loading { evidence }, OutboxEvent::State(stored)) => {
                match load_or_repair_state(&stored, &evidence) {
                    Err(error) => RequeueStep::End(Err(error)),
                    Ok(loaded) => match loaded.repair {
                        None => Self::requeue_from(case, evidence, loaded.status),
                        Some(batch) => RequeueStep::Ask {
                            stage: RequeueStage::Repairing { evidence, status: loaded.status },
                            action: OutboxAction::PutIfAbsent(batch),
                        },
                    },
                }
            },
            (RequeueStage::Repairing { evidence, status }, _) => Self::requeue_from(
                case,
                evidence,
                status,
            ),
            (RequeueStage::Changing { evidence, replacement }, OutboxEvent::Written(through)) => {
                if through {
                    return RequeueStep::End(Ok(replacement));
                }
                let request_id = evidence.request_id.clone();
                RequeueStep::Ask {
                    stage: RequeueStage::Reloading { evidence },
                    action: OutboxAction::LoadState { request_id },
                }
            },
            (RequeueStage::Reloading { evidence }, OutboxEvent::State(stored)) => {
                match load_or_repair_state(&stored, &evidence) {
                    Err(error) => RequeueStep::End(Err(error)),
                    Ok(loaded) => match loaded.repair {
                        None => RequeueStep::End(Ok(loaded.status)),
                        Some(batch) => RequeueStep::Ask {
                            stage: RequeueStage::Restoring { status: loaded.status },
                            action: OutboxAction::PutIfAbsent(batch),
                        },
                    },
                }
            },
            (RequeueStage::Restoring { status }, _) => RequeueStep::End(Ok(status)),
            _ => {
                assert(false);
                RequeueStep::End(Err(ArchiveOutboxError::StorageUnavailable))
            },
        }
    }
}

/// Evidence that a worker holds, or that the archive has, is left as it is when it is asked
/// for again: no state is changed.
pub proof fn settled_evidence_is_left_alone(
    case: RequeueCase,
    evidence: ArchiveEvidenceEnvelope,
    status: ArchiveEvidenceSyncStatus,
    r: RequeueStep,
)
    requires
        status@.is_known(),
        status@.is_published() || status@.is_leased_until(case.now_ms),
        requeue_leads_to(
            case,
            RequeueStage::Loading { evidence },
            OutboxEvent::State(Stored::Present(status)),
            r,
        ),
    ensures
        r matches RequeueStep::End(Ok(answer)) && answer@ == status@,
{
}

} // verus!
