//! What the adapters of the self-hosted runtime say of the ports that they serve.

use vstd::prelude::*;

use crate::ports;
use crate::ports::{DescriptorView, FailureMode, PortDescriptor, PortKind};

verus! {

/// What an adapter of the self-hosted runtime says of a port.
pub open spec fn self_hosted(
    kind: PortKind,
    adapter_id: Seq<char>,
    capabilities: Seq<Seq<char>>,
) -> DescriptorView {
    ports::plain_descriptor(kind, adapter_id, seq!["self_hosted"@], capabilities)
}

fn describe(kind: PortKind, adapter_id: &str) -> (r: PortDescriptor)
    ensures
        r@ == self_hosted(kind, adapter_id@, seq![]),
{
    let r = PortDescriptor::new(kind, adapter_id).for_profile("self_hosted");
    assert(r@.profiles =~= seq!["self_hosted"@]);
    r
}

/// What the database says of its ports.
pub fn postgres_descriptors() -> (r: Vec<PortDescriptor>)
    ensures
        ports::descriptor_views(r@) == seq![
            self_hosted(
                PortKind::Storage,
                "self_hosted.postgres"@,
                seq!["storage.json"@, "storage.transactional"@, "storage.postgres"@],
            ),
            self_hosted(
                PortKind::Scheduler,
                "self_hosted.postgres"@,
                seq!["schedule.create"@, "schedule.cancel"@, "schedule.claim"@],
            ),
            self_hosted(
                PortKind::Outbox,
                "self_hosted.postgres"@,
                seq!["outbox.append"@, "outbox.claim"@, "outbox.publish"@],
            ),
            self_hosted(
                PortKind::Inbox,
                "self_hosted.postgres"@,
                seq!["inbox.deduplicate"@, "inbox.signature_ref"@],
            ),
            self_hosted(
                PortKind::Lease,
                "self_hosted.postgres"@,
                seq!["lease.acquire"@, "lease.renew"@, "lease.fence"@],
            ),
            self_hosted(
                PortKind::Identity,
                "self_hosted.postgres"@,
                seq!["oidc.discovery"@, "oidc.session.resolve"@],
            ),
            self_hosted(
                PortKind::Evidence,
                "self_hosted.postgres"@,
                seq!["evidence.append"@, "evidence.replay"@],
            ),
            self_hosted(
                PortKind::Telemetry,
                "self_hosted.postgres"@,
                seq!["telemetry.consent_gate"@, "telemetry.postgres"@],
            ),
        ],
{
    let mut r: Vec<PortDescriptor> = Vec::new();
    let port = describe(PortKind::Storage, "self_hosted.postgres").with_capability(
        "storage.json",
    ).with_capability(
        "storage.transactional",
    ).with_capability(
        "storage.postgres",
    );
    assert(port@.capabilities =~= seq!["storage.json"@, "storage.transactional"@, "storage.postgres"@]);
    r.push(port);
    let port = describe(PortKind::Scheduler, "self_hosted.postgres").with_capability(
        "schedule.create",
    ).with_capability(
        "schedule.cancel",
    ).with_capability(
        "schedule.claim",
    );
    assert(port@.capabilities =~= seq!["schedule.create"@, "schedule.cancel"@, "schedule.claim"@]);
    r.push(port);
    let port = describe(PortKind::Outbox, "self_hosted.postgres").with_capability(
        "outbox.append",
    ).with_capability(
        "outbox.claim",
    ).with_capability(
        "outbox.publish",
    );
    assert(port@.capabilities =~= seq!["outbox.append"@, "outbox.claim"@, "outbox.publish"@]);
    r.push(port);
    let port = describe(PortKind::Inbox, "self_hosted.postgres").with_capability(
        "inbox.deduplicate",
    ).with_capability(
        "inbox.signature_ref",
    );
    assert(port@.capabilities =~= seq!["inbox.deduplicate"@, "inbox.signature_ref"@]);
    r.push(port);
    let port = describe(PortKind::Lease, "self_hosted.postgres").with_capability(
        "lease.acquire",
    ).with_capability(
        "lease.renew",
    ).with_capability(
        "lease.fence",
    );
    assert(port@.capabilities =~= seq!["lease.acquire"@, "lease.renew"@, "lease.fence"@]);
    r.push(port);
    let port = describe(PortKind::Identity, "self_hosted.postgres").with_capability(
        "oidc.discovery",
    ).with_capability(
        "oidc.session.resolve",
    );
    assert(port@.capabilities =~= seq!["oidc.discovery"@, "oidc.session.resolve"@]);
    r.push(port);
    let port = describe(PortKind::Evidence, "self_hosted.postgres").with_capability(
        "evidence.append",
    ).with_capability(
        "evidence.replay",
    );
    assert(port@.capabilities =~= seq!["evidence.append"@, "evidence.replay"@]);
    r.push(port);
    let port = describe(PortKind::Telemetry, "self_hosted.postgres").with_capability(
        "telemetry.consent_gate",
    ).with_capability(
        "telemetry.postgres",
    );
    assert(port@.capabilities =~= seq!["telemetry.consent_gate"@, "telemetry.postgres"@]);
    r.push(port);
    r
}

/// What the message broker says of its ports.
pub fn broker_descriptors() -> (r: Vec<PortDescriptor>)
    ensures
        ports::descriptor_views(r@) == seq![
            self_hosted(
                PortKind::DurableQueue,
                "self_hosted.nats-jetstream"@,
                seq!["queue.lease"@, "queue.retry"@, "queue.dead_letter"@, "queue.at_least_once"@],
            ),
            self_hosted(
                PortKind::EventStream,
                "self_hosted.nats-jetstream"@,
                seq!["event.append"@, "event.replay"@, "event.checkpoint"@, "event.at_least_once"@],
            ),
            self_hosted(
                PortKind::EventStream,
                "self_hosted.event-notifier"@,
                seq!["event.notify"@],
            ),
        ],
{
    let mut r: Vec<PortDescriptor> = Vec::new();
    let port = describe(PortKind::DurableQueue, "self_hosted.nats-jetstream").with_capability(
        "queue.lease",
    ).with_capability(
        "queue.retry",
    ).with_capability(
        "queue.dead_letter",
    ).with_capability(
        "queue.at_least_once",
    );
    assert(port@.capabilities =~= seq!["queue.lease"@, "queue.retry"@, "queue.dead_letter"@, "queue.at_least_once"@]);
    r.push(port);
    let port = describe(PortKind::EventStream, "self_hosted.nats-jetstream").with_capability(
        "event.append",
    ).with_capability(
        "event.replay",
    ).with_capability(
        "event.checkpoint",
    ).with_capability(
        "event.at_least_once",
    );
    assert(port@.capabilities =~= seq!["event.append"@, "event.replay"@, "event.checkpoint"@, "event.at_least_once"@]);
    r.push(port);
    let port = describe(PortKind::EventStream, "self_hosted.event-notifier").with_capability(
        "event.notify",
    );
    assert(port@.capabilities =~= seq!["event.notify"@]);
    r.push(port);
    r
}

/// What the policy says of its port.
pub fn policy_descriptors() -> (r: Vec<PortDescriptor>)
    ensures
        ports::descriptor_views(r@) == seq![
            self_hosted(
                PortKind::Policy,
                "self_hosted.policy"@,
                seq!["policy.evaluate"@, "policy.explain"@],
            ),
        ],
{
    let mut r: Vec<PortDescriptor> = Vec::new();
    let port = describe(PortKind::Policy, "self_hosted.policy").with_capability(
        "policy.evaluate",
    ).with_capability(
        "policy.explain",
    );
    assert(port@.capabilities =~= seq!["policy.evaluate"@, "policy.explain"@]);
    r.push(port);
    r
}

/// What the store of credentials says of its port.
pub fn credential_descriptors() -> (r: Vec<PortDescriptor>)
    ensures
        ports::descriptor_views(r@) == seq![
            self_hosted(
                PortKind::Credentials,
                "self_hosted.secret-resolver"@,
                seq!["credential.status"@, "credential.secret_ref"@],
            ),
        ],
{
    let mut r: Vec<PortDescriptor> = Vec::new();
    let port = describe(PortKind::Credentials, "self_hosted.secret-resolver").with_capability(
        "credential.status",
    ).with_capability(
        "credential.secret_ref",
    );
    assert(port@.capabilities =~= seq!["credential.status"@, "credential.secret_ref"@]);
    r.push(port);
    r
}

/// What the catalog of providers says of its port.
pub fn provider_descriptors() -> (r: Vec<PortDescriptor>)
    ensures
        ports::descriptor_views(r@) == seq![
            self_hosted(
                PortKind::Plugins,
                "self_hosted.provider-compatibility"@,
                seq!["plugin.capabilities"@],
            ),
        ],
{
    let mut r: Vec<PortDescriptor> = Vec::new();
    let port = describe(PortKind::Plugins, "self_hosted.provider-compatibility").with_capability(
        "plugin.capabilities",
    );
    assert(port@.capabilities =~= seq!["plugin.capabilities"@]);
    r.push(port);
    r
}

/// What the clock says of its port.
pub fn clock_descriptors() -> (r: Vec<PortDescriptor>)
    ensures
        ports::descriptor_views(r@) == seq![
            self_hosted(
                PortKind::Clock,
                "system.utc-clock"@,
                seq!["clock.utc_ms"@],
            ),
        ],
{
    let mut r: Vec<PortDescriptor> = Vec::new();
    let port = describe(PortKind::Clock, "system.utc-clock").with_capability(
        "clock.utc_ms",
    );
    assert(port@.capabilities =~= seq!["clock.utc_ms"@]);
    r.push(port);
    r
}

/// What the store of artifacts says of its port.
pub fn export_descriptors() -> (r: Vec<PortDescriptor>)
    ensures
        ports::descriptor_views(r@) == seq![
            DescriptorView {
                failure_mode: Some(FailureMode::FailClosed),
                ..self_hosted(
                    PortKind::Exports,
                    "self_hosted.file-artifacts"@,
                    seq!["artifact.write"@, "artifact.read"@, "artifact.safe_equivalent"@],
                )
            },
        ],
{
    let mut r: Vec<PortDescriptor> = Vec::new();
    let plain = describe(PortKind::Exports, "self_hosted.file-artifacts").with_capability(
        "artifact.write",
    ).with_capability("artifact.read").with_capability("artifact.safe_equivalent");
    assert(plain@.capabilities =~= seq![
        "artifact.write"@,
        "artifact.read"@,
        "artifact.safe_equivalent"@,
    ]);
    r.push(PortDescriptor { failure_mode: Some(FailureMode::FailClosed), ..plain });
    r
}

} // verus!
