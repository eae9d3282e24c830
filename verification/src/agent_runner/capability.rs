//! The authority that the runner issues to one agent process in flight: how it is
//! issued, verified against the records of the run, and applied to a tool call.

pub mod authority;

use rand::RngCore;
use vstd::prelude::*;

use crate::agent_runner::deployment;
use crate::agent_runner::deployment::{
    canonical_allowlist, deployment_binding_digest, valid_tools, AgentDeployment, SCHEMA_VERSION,
};
use crate::agent_runner::records;
use crate::agent_runner::records::{inner_is, lease_resource};
use crate::digest;
use crate::digest::{hex_text, labelled_sha256};
use crate::json;
use crate::json::{Json, JsonMap, JsonTree};
use crate::ports::{LeaseClaim, Stored};
use crate::text;
use crate::text::{blank, same, same_list};

verus! {

/// The code of an authority that does not hold.
pub open spec fn context_invalid() -> Seq<char> {
    "agent_mcp_execution_context_invalid"@
}

/// Verified, runner-issued authority for a single run in flight. The opaque
/// capability itself is never part of it.
#[derive(Debug)]
pub struct VerifiedAgentMcpExecutionContext {
    deployment_id: String,
    run_id: String,
    binding_digest: String,
    mode: String,
    studio_tool_allowlist: Vec<String>,
    capability_digest: String,
}

/// What a [`VerifiedAgentMcpExecutionContext`] says.
#[verifier::ext_equal]
pub struct ContextView {
    pub deployment_id: Seq<char>,
    pub run_id: Seq<char>,
    pub binding_digest: Seq<char>,
    pub mode: Seq<char>,
    pub tools: Seq<Seq<char>>,
    pub capability_digest: Seq<char>,
}

impl View for VerifiedAgentMcpExecutionContext {
    type V = ContextView;

    closed spec fn view(&self) -> ContextView {
        ContextView {
            deployment_id: self.deployment_id@,
            run_id: self.run_id@,
            binding_digest: self.binding_digest@,
            mode: self.mode@,
            tools: text::texts(self.studio_tool_allowlist@),
            capability_digest: self.capability_digest@,
        }
    }
}

impl VerifiedAgentMcpExecutionContext {
    /// The tools that may be invoked.
    pub fn allowed_tools(&self) -> (r: &Vec<String>)
        ensures
            text::texts(r@) == self@.tools,
    {
        &self.studio_tool_allowlist
    }

    pub fn deployment_id(&self) -> (r: &String)
        ensures
            r@ == self@.deployment_id,
    {
        &self.deployment_id
    }

    pub fn run_id(&self) -> (r: &String)
        ensures
            r@ == self@.run_id,
    {
        &self.run_id
    }

    pub fn binding_digest(&self) -> (r: &String)
        ensures
            r@ == self@.binding_digest,
    {
        &self.binding_digest
    }

    pub fn mode(&self) -> (r: &String)
        ensures
            r@ == self@.mode,
    {
        &self.mode
    }

    pub fn capability_digest(&self) -> (r: &String)
        ensures
            r@ == self@.capability_digest,
    {
        &self.capability_digest
    }

    /// Whether two contexts say the same.
    pub fn equals(&self, other: &VerifiedAgentMcpExecutionContext) -> (r: bool)
        ensures
            r == (self@ == other@),
    {
        let r: bool = same(self.deployment_id.as_str(), other.deployment_id.as_str()) && same(
            self.run_id.as_str(),
            other.run_id.as_str(),
        ) && same(self.binding_digest.as_str(), other.binding_digest.as_str()) && same(
            self.mode.as_str(),
            other.mode.as_str(),
        ) && same_list(&self.studio_tool_allowlist, &other.studio_tool_allowlist) && same(
            self.capability_digest.as_str(),
            other.capability_digest.as_str(),
        );
        proof {
            if self@ == other@ {
                assert(self@.tools == other@.tools);
                assert(self@.deployment_id == other@.deployment_id);
                assert(self@.run_id == other@.run_id);
                assert(self@.binding_digest == other@.binding_digest);
                assert(self@.mode == other@.mode);
                assert(self@.capability_digest == other@.capability_digest);
            }
        }
        r
    }
}

/// The lookup key of a capability: its labelled digest.
pub open spec fn capability_key(token: Seq<char>) -> Seq<char> {
    digest::labelled_digest(vstd::utf8::encode_utf8(token))
}

/// The stable, non-reversible lookup key of a runner-issued capability.
pub fn mcp_capability_digest(token: &str) -> (r: String)
    ensures
        r@ == capability_key(token@),
        r@.len() == 71,
{
    labelled_sha256(token.as_bytes())
}

/// Calls `rand::rngs::OsRng.fill_bytes`: the bytes are random and nothing but their
/// number is known.
#[verifier::external_body]
pub(crate) fn random_bytes(len: usize) -> (r: Vec<u8>)
    requires
        len <= 32,
    ensures
        r@.len() == len,
{
    let mut bytes = vec![0; len];
    rand::rngs::OsRng.fill_bytes(&mut bytes);
    bytes
}

/// An ephemeral opaque capability. Only its digest is ever kept.
pub struct AgentMcpExecutionCapability {
    token: String,
}

impl View for AgentMcpExecutionCapability {
    type V = Seq<char>;

    closed spec fn view(&self) -> Seq<char> {
        self.token@
    }
}

impl AgentMcpExecutionCapability {
    /// The capability that 32 random bytes make.
    pub fn issue() -> (r: AgentMcpExecutionCapability)
        ensures
            r@.len() == 64,
            token_shaped(r@),
    {
        let bytes = random_bytes(32);
        AgentMcpExecutionCapability::from_bytes(&bytes)
    }

    /// The capability that the given bytes make.
    pub fn from_bytes(bytes: &Vec<u8>) -> (r: AgentMcpExecutionCapability)
        requires
            bytes@.len() == 32,
        ensures
            r@ == digest::hex(bytes@),
            token_shaped(r@),
    {
        let token = hex_text(bytes);
        proof {
            hex_is_token_shaped(bytes@);
        }
        AgentMcpExecutionCapability { token }
    }

    /// The lookup key of the capability.
    pub fn digest(&self) -> (r: String)
        ensures
            r@ == capability_key(self@),
            r@.len() == 71,
    {
        mcp_capability_digest(self.token.as_str())
    }

    /// The capability itself, for the environment of the agent process.
    pub fn token(&self) -> (r: &String)
        ensures
            r@ == self@,
    {
        &self.token
    }

    /// Resolves this capability for a tool adapter in the same process.
    pub fn verified_context(&self, snapshot: &ExecutionSnapshot, known_tools: &Vec<String>) -> (r: Result<
        VerifiedAgentMcpExecutionContext,
        String,
    >)
        ensures
            says(r, context_of(*snapshot, capability_key(self@), known_tools@)),
    {
        let key = self.digest();
        verified_mcp_execution_context_for_digest(snapshot, key.as_str(), known_tools)
    }
}

/// Whether a text is a hexadecimal digit of either case.
pub open spec fn is_hex(c: char) -> bool {
    text::is_digit(c) || 'a' <= c <= 'f' || 'A' <= c <= 'F'
}

/// Whether a text has the shape of a capability: 64 hexadecimal digits.
pub open spec fn token_shaped(token: Seq<char>) -> bool {
    token.len() == 64 && forall|i: int| 0 <= i < token.len() ==> is_hex(#[trigger] token[i])
}

proof fn hex_is_token_shaped(bytes: Seq<u8>)
    requires
        bytes.len() == 32,
    ensures
        token_shaped(digest::hex(bytes)),
{
    let spelled = digest::hex(bytes);
    assert forall|i: int| 0 <= i < spelled.len() implies is_hex(#[trigger] spelled[i]) by {
        let b = bytes[i / 2];
        assert(0 <= b as int / 16 < 16);
        assert(0 <= b as int % 16 < 16);
    }
}

/// What is kept of an issued capability.
#[derive(Debug)]
pub struct AgentMcpCapabilityRecord {
    pub schema_version: String,
    pub deployment_id: String,
    pub run_id: String,
    pub binding_digest: String,
    pub mode: String,
    pub studio_tool_allowlist: Vec<String>,
    pub capability_digest: String,
}

/// The record of an issued capability.
pub open spec fn capability_tree(record: AgentMcpCapabilityRecord) -> JsonTree {
    JsonTree::Object(
        map![
            "schemaVersion"@ => JsonTree::Text(record.schema_version@),
            "deploymentId"@ => JsonTree::Text(record.deployment_id@),
            "runId"@ => JsonTree::Text(record.run_id@),
            "bindingDigest"@ => JsonTree::Text(record.binding_digest@),
            "mode"@ => JsonTree::Text(record.mode@),
            "studioToolAllowlist"@ => json::text_array(text::texts(record.studio_tool_allowlist@)),
            "capabilityDigest"@ => JsonTree::Text(record.capability_digest@)
        ],
    )
}

impl AgentMcpCapabilityRecord {
    /// The record as it is stored.
    pub fn value(&self) -> (r: Json)
        ensures
            r@ == capability_tree(*self),
    {
        Json::object(
            JsonMap::new().with("schemaVersion", Json::text(self.schema_version.as_str())).with(
                "deploymentId",
                Json::text(self.deployment_id.as_str()),
            ).with("runId", Json::text(self.run_id.as_str())).with(
                "bindingDigest",
                Json::text(self.binding_digest.as_str()),
            ).with("mode", Json::text(self.mode.as_str())).with(
                "studioToolAllowlist",
                Json::texts(&self.studio_tool_allowlist),
            ).with("capabilityDigest", Json::text(self.capability_digest.as_str())),
        )
    }
}

/// What the clock says and what the records of a run say when an authority is verified.
#[derive(Debug)]
pub struct ExecutionSnapshot {
    pub now_ms: i64,
    /// The record under the digest of the capability.
    pub capability: Stored<AgentMcpCapabilityRecord>,
    /// The record of the run that the capability names.
    pub run: Option<Json>,
    /// The record that points to the run of the deployment that the capability names.
    pub active: Option<Json>,
    /// The deployment that the capability names.
    pub deployment: Stored<AgentDeployment>,
}

/// Whether `mode` is one of the modes of an account.
pub open spec fn mode_is_valid(mode: Seq<char>) -> bool {
    mode == "paper"@ || mode == "live"@
}

/// Tests whether `mode` is one of the modes of an account.
pub fn valid_mode(mode: &str) -> (r: bool)
    ensures
        r == mode_is_valid(mode@),
{
    same(mode, "paper") || same(mode, "live")
}

/// Whether the record of a capability is in order.
pub open spec fn record_is_valid(
    record: AgentMcpCapabilityRecord,
    key: Seq<char>,
    known: Seq<String>,
) -> bool {
    &&& record.schema_version@ == SCHEMA_VERSION@
    &&& record.capability_digest@ == key
    &&& !text::is_blank(record.deployment_id@)
    &&& !text::is_blank(record.run_id@)
    &&& !text::is_blank(record.binding_digest@)
    &&& mode_is_valid(record.mode@)
    &&& deployment::tools_are_valid(record.studio_tool_allowlist@, known)
}

/// Whether the record of a run is of a run in flight under the capability.
pub open spec fn run_agrees(run: JsonTree, record: AgentMcpCapabilityRecord, key: Seq<char>) -> bool {
    &&& records::inner_text(run, "run"@, "runId"@) == Some(record.run_id@)
    &&& records::inner_text(run, "run"@, "deploymentId"@) == Some(record.deployment_id@)
    &&& records::inner_text(run, "run"@, "state"@) == Some("running"@)
    &&& json::text_member(run, "bindingDigest"@) == Some(record.binding_digest@)
    &&& json::text_member(run, "mcpCapabilityDigest"@) == Some(key)
}

/// Whether the pointer of a deployment points to the run and its lease has not ended.
pub open spec fn active_agrees(active: JsonTree, record: AgentMcpCapabilityRecord, now_ms: int) -> bool {
    &&& json::text_member(active, "state"@) == Some("running"@)
    &&& json::text_member(active, "runId"@) == Some(record.run_id@)
    &&& json::i64_member(active, "leaseExpiresAtMs"@) matches Some(expires) && expires > now_ms
}

/// Whether a deployment is still the one that the capability was issued for.
pub open spec fn deployment_agrees(d: AgentDeployment, record: AgentMcpCapabilityRecord) -> bool {
    &&& deployment::binding_digest(d) == record.binding_digest@
    &&& d.mode@ == record.mode@
    &&& deployment::canonical_tools(d.studio_tool_allowlist@) == deployment::canonical_tools(
        record.studio_tool_allowlist@,
    )
}

/// The authority that a capability has, given what the records say.
pub open spec fn context_of(snapshot: ExecutionSnapshot, key: Seq<char>, known: Seq<String>) -> Result<
    ContextView,
    Seq<char>,
> {
    if snapshot.now_ms < 0 {
        Err("agent_mcp_execution_clock_invalid"@)
    } else {
        match (snapshot.capability, snapshot.run, snapshot.active, snapshot.deployment) {
            (
                Stored::Present(record),
                Some(run),
                Some(active),
                Stored::Present(d),
            ) => if record_is_valid(record, key, known) && run_agrees(run@, record, key)
                && active_agrees(active@, record, snapshot.now_ms as int) && deployment_agrees(
                d,
                record,
            ) {
                Ok(
                    ContextView {
                        deployment_id: record.deployment_id@,
                        run_id: record.run_id@,
                        binding_digest: record.binding_digest@,
                        mode: record.mode@,
                        tools: deployment::canonical_tools(record.studio_tool_allowlist@),
                        capability_digest: key,
                    },
                )
            } else {
                Err(context_invalid())
            },
            _ => Err(context_invalid()),
        }
    }
}

/// Whether a result says what a specification says.
pub open spec fn says(
    r: Result<VerifiedAgentMcpExecutionContext, String>,
    expected: Result<ContextView, Seq<char>>,
) -> bool {
    match (r, expected) {
        (Ok(context), Ok(view)) => context@ == view,
        (Err(e), Err(code)) => e@ == code,
        _ => false,
    }
}

/// Tests whether the record of a capability is in order, so that the records of the
/// run that it names are worth reading.
pub fn capability_record_is_valid(
    record: &AgentMcpCapabilityRecord,
    capability_digest: &str,
    known_tools: &Vec<String>,
) -> (r: bool)
    ensures
        r == record_is_valid(*record, capability_digest@, known_tools@),
{
    same(record.schema_version.as_str(), SCHEMA_VERSION) && same(
        record.capability_digest.as_str(),
        capability_digest,
    ) && !blank(record.deployment_id.as_str()) && !blank(record.run_id.as_str()) && !blank(
        record.binding_digest.as_str(),
    ) && valid_mode(record.mode.as_str()) && valid_tools(&record.studio_tool_allowlist, known_tools)
}

fn invalid<T>() -> (r: Result<T, String>)
    ensures
        r matches Err(e) && e@ == context_invalid(),
{
    Err("agent_mcp_execution_context_invalid".to_owned())
}

/// Verifies the capability with the given digest against the records of its run.
pub fn verified_mcp_execution_context_for_digest(
    snapshot: &ExecutionSnapshot,
    capability_digest: &str,
    known_tools: &Vec<String>,
) -> (r: Result<VerifiedAgentMcpExecutionContext, String>)
    ensures
        says(r, context_of(*snapshot, capability_digest@, known_tools@)),
{
    if snapshot.now_ms < 0 {
        return Err("agent_mcp_execution_clock_invalid".to_owned());
    }
    let record = match &snapshot.capability {
        Stored::Present(record) => record,
        _ => {
            return invalid();
        },
    };
    if !capability_record_is_valid(record, capability_digest, known_tools) {
        return invalid();
    }
    let run = match &snapshot.run {
        Some(run) => run,
        None => {
            return invalid();
        },
    };
    if !inner_is(run, "run", "runId", record.run_id.as_str()) || !inner_is(
        run,
        "run",
        "deploymentId",
        record.deployment_id.as_str(),
    ) || !inner_is(run, "run", "state", "running") || !run.field_is(
        "bindingDigest",
        record.binding_digest.as_str(),
    ) || !run.field_is("mcpCapabilityDigest", capability_digest) {
        return invalid();
    }
    let active = match &snapshot.active {
        Some(active) => active,
        None => {
            return invalid();
        },
    };
    let unexpired: bool = match active.i64_field("leaseExpiresAtMs") {
        Some(expires) => expires > snapshot.now_ms,
        None => false,
    };
    if !active.field_is("state", "running") || !active.field_is("runId", record.run_id.as_str())
        || !unexpired {
        return invalid();
    }
    let d = match &snapshot.deployment {
        Stored::Present(d) => d,
        _ => {
            return invalid();
        },
    };
    let binding = deployment_binding_digest(d);
    let tools = canonical_allowlist(&record.studio_tool_allowlist);
    let deployed = canonical_allowlist(&d.studio_tool_allowlist);
    if !same(binding.as_str(), record.binding_digest.as_str()) || !same(
        d.mode.as_str(),
        record.mode.as_str(),
    ) || !same_list(&deployed, &tools) {
        return invalid();
    }
    Ok(
        VerifiedAgentMcpExecutionContext {
            deployment_id: record.deployment_id.clone(),
            run_id: record.run_id.clone(),
            binding_digest: record.binding_digest.clone(),
            mode: record.mode.clone(),
            studio_tool_allowlist: tools,
            capability_digest: capability_digest.to_owned(),
        },
    )
}

/// What an optional token resolves to. No token means generic local behaviour; a
/// token that is not a capability in force fails closed.
pub open spec fn resolution(
    token: Option<Seq<char>>,
    snapshot: ExecutionSnapshot,
    known: Seq<String>,
) -> Result<Option<ContextView>, Seq<char>> {
    match token {
        None => Ok(None),
        Some(t) => if !token_shaped(t) {
            Err(context_invalid())
        } else {
            match context_of(snapshot, capability_key(t), known) {
                Ok(view) => Ok(Some(view)),
                Err(code) => Err(code),
            }
        },
    }
}

/// Tests whether a text has the shape of a capability.
pub fn is_token_shaped(token: &str) -> (r: bool)
    ensures
        r == token_shaped(token@),
{
    let chars = text::chars_of(token);
    if chars.len() != 64 {
        return false;
    }
    let mut i: usize = 0;
    while i < chars.len()
        invariant
            i <= chars.len(),
            chars@ == token@,
            forall|j: int| 0 <= j < i ==> is_hex(#[trigger] chars@[j]),
        decreases chars.len() - i,
    {
        if !char_is_hex(chars[i]) {
            return false;
        }
        i += 1;
    }
    true
}

fn char_is_hex(c: char) -> (r: bool)
    ensures
        r == is_hex(c),
{
    let n: u32 = c as u32;
    (0x30 <= n && n <= 0x39) || (0x61 <= n && n <= 0x66) || (0x41 <= n && n <= 0x46)
}

/// Resolves the opaque capability that an agent process inherited.
pub fn resolve_mcp_execution_context(
    token: Option<&str>,
    snapshot: &ExecutionSnapshot,
    known_tools: &Vec<String>,
) -> (r: Result<Option<VerifiedAgentMcpExecutionContext>, String>)
    ensures
        match (
            r,
            resolution(
                match token {
                    Some(t) => Some(t@),
                    None => None,
                },
                *snapshot,
                known_tools@,
            ),
        ) {
            (Ok(Some(context)), Ok(Some(view))) => context@ == view,
            (Ok(None), Ok(None)) => true,
            (Err(e), Err(code)) => e@ == code,
            _ => false,
        },
{
    let token: &str = match token {
        Some(t) => t,
        None => {
            return Ok(None);
        },
    };
    if !is_token_shaped(token) {
        return invalid();
    }
    let key = mcp_capability_digest(token);
    match verified_mcp_execution_context_for_digest(snapshot, key.as_str(), known_tools) {
        Ok(context) => Ok(Some(context)),
        Err(e) => Err(e),
    }
}

impl VerifiedAgentMcpExecutionContext {
    /// Whether the authority still holds, given what the records say.
    pub open spec fn still_holds(self, snapshot: ExecutionSnapshot, known: Seq<String>) -> Result<
        (),
        Seq<char>,
    > {
        match context_of(snapshot, self@.capability_digest, known) {
            Err(code) => Err(code),
            Ok(view) => if view == self@ {
                Ok(())
            } else {
                Err(context_invalid())
            },
        }
    }

    /// Checks the authority again at the boundary of a side effect.
    pub fn revalidate(&self, snapshot: &ExecutionSnapshot, known_tools: &Vec<String>) -> (r: Result<
        (),
        String,
    >)
        ensures
            match (r, self.still_holds(*snapshot, known_tools@)) {
                (Ok(_), Ok(_)) => true,
                (Err(e), Err(code)) => e@ == code,
                _ => false,
            },
    {
        match verified_mcp_execution_context_for_digest(
            snapshot,
            self.capability_digest.as_str(),
            known_tools,
        ) {
            Ok(current) => if current.equals(self) {
                Ok(())
            } else {
                invalid()
            },
            Err(e) => Err(e),
        }
    }

    /// Whether the lease is the one under which the run is in flight.
    pub open spec fn lease_agrees(
        self,
        lease: LeaseClaim,
        run: JsonTree,
        active: JsonTree,
        checked_at_ms: int,
    ) -> bool {
        &&& json::member(run, "run"@) matches Some(inner) && json::i64_member(
            inner,
            "leaseFence"@,
        ) matches Some(fence) && fence > 0 && json::i64_member(active, "leaseFence"@) == Some(fence)
            && lease.fencing_token == fence
        &&& lease.resource@ == records::lease_resource_of(self@.deployment_id)
        &&& !text::is_blank(lease.owner@)
        &&& lease.expires_at_ms > checked_at_ms
    }

    /// The outcome of looking for the lease of the run.
    pub open spec fn lease_of(
        self,
        snapshot: ExecutionSnapshot,
        desired_state: Option<Seq<char>>,
        lease: Option<LeaseClaim>,
        checked_at_ms: int,
        known: Seq<String>,
    ) -> Result<LeaseClaim, Seq<char>> {
        match self.still_holds(snapshot, known) {
            Err(code) => Err(code),
            Ok(_) => match (snapshot.run, snapshot.active, snapshot.deployment, lease) {
                (Some(run), Some(active), Stored::Present(d), Some(held)) => if desired_state != Some(
                    "active"@,
                ) {
                    Err("agent_deployment_not_active"@)
                } else if self.lease_agrees(held, run@, active@, checked_at_ms) {
                    Ok(held)
                } else {
                    Err("agent_run_lease_invalid"@)
                },
                _ => if desired_state != Some("active"@) {
                    Err("agent_deployment_not_active"@)
                } else {
                    Err("agent_run_lease_invalid"@)
                },
            },
        }
    }

    /// Checks the lease that is in force, not merely the cached pointer: a stale
    /// process must not act after its lease has been replaced. `desired_state` is
    /// what the record of the deployment asks for.
    pub fn current_lease(
        &self,
        snapshot: &ExecutionSnapshot,
        desired_state: &Option<String>,
        lease: &Option<LeaseClaim>,
        checked_at_ms: i64,
        known_tools: &Vec<String>,
    ) -> (r: Result<LeaseClaim, String>)
        ensures
            match (
                r,
                self.lease_of(
                    *snapshot,
                    text::option_text(*desired_state),
                    *lease,
                    checked_at_ms as int,
                    known_tools@,
                ),
            ) {
                (Ok(claim), Ok(held)) => claim == held,
                (Err(e), Err(code)) => e@ == code,
                _ => false,
            },
    {
        if let Err(e) = self.revalidate(snapshot, known_tools) {
            return Err(e);
        }
        if !text::same_as(desired_state, "active") {
            return Err("agent_deployment_not_active".to_owned());
        }
        match (&snapshot.run, &snapshot.active, lease) {
            (Some(run), Some(active), Some(held)) => {
                let fence: i64 = match run.field("run") {
                    Some(inner) => match inner.i64_field("leaseFence") {
                        Some(n) => n,
                        None => 0,
                    },
                    None => 0,
                };
                let active_fence: i64 = match active.i64_field("leaseFence") {
                    Some(n) => n,
                    None => 0,
                };
                let resource = lease_resource(self.deployment_id.as_str());
                if fence <= 0 || active_fence != fence || !same(
                    held.resource.as_str(),
                    resource.as_str(),
                ) || blank(held.owner.as_str()) || held.fencing_token != fence || held.expires_at_ms
                    <= checked_at_ms {
                    return Err("agent_run_lease_invalid".to_owned());
                }
                Ok(held.copy())
            },
            _ => Err("agent_run_lease_invalid".to_owned()),
        }
    }
}

/// Whether the record of a capability is the one issued for a run of a deployment.
pub open spec fn record_names(
    record: AgentMcpCapabilityRecord,
    d: AgentDeployment,
    run_id: Seq<char>,
    key: Seq<char>,
) -> bool {
    &&& record.schema_version@ == SCHEMA_VERSION@
    &&& record.deployment_id@ == d.deployment_id@
    &&& record.run_id@ == run_id
    &&& record.binding_digest@ == deployment::binding_digest(d)
    &&& record.mode@ == d.mode@
    &&& deployment::canonical_tools(record.studio_tool_allowlist@) == deployment::canonical_tools(
        d.studio_tool_allowlist@,
    )
    &&& record.capability_digest@ == key
}

/// An authority does not outlive the lease of its run, however it was obtained.
pub proof fn authority_ends_with_the_lease(
    snapshot: ExecutionSnapshot,
    key: Seq<char>,
    known: Seq<String>,
    expires_at_ms: int,
)
    requires
        snapshot.active matches Some(active) && json::i64_member(active@, "leaseExpiresAtMs"@) == Some(
            expires_at_ms,
        ),
        expires_at_ms <= snapshot.now_ms,
    ensures
        context_of(snapshot, key, known) is Err,
{
}

/// An authority does not outlive the flight of its run: where the record of the run
/// or the pointer to it says another state, it fails.
pub proof fn authority_ends_with_the_run(
    snapshot: ExecutionSnapshot,
    key: Seq<char>,
    known: Seq<String>,
)
    requires
        (snapshot.run matches Some(run) && records::inner_text(run@, "run"@, "state"@) != Some(
            "running"@,
        )) || (snapshot.active matches Some(active) && json::text_member(active@, "state"@) != Some(
            "running"@,
        )),
    ensures
        context_of(snapshot, key, known) is Err,
{
}

/// An authority does not outlive its lease: where another lease is in force, or none
/// is, the check of the lease fails.
pub proof fn replaced_lease_ends_authority(
    context: VerifiedAgentMcpExecutionContext,
    snapshot: ExecutionSnapshot,
    desired_state: Option<Seq<char>>,
    lease: Option<LeaseClaim>,
    checked_at_ms: int,
    known: Seq<String>,
)
    requires
        lease matches Some(held) ==> (snapshot.run matches Some(run) && (json::member(
            run@,
            "run"@,
        ) matches Some(inner) ==> json::i64_member(inner, "leaseFence"@) != Some(
            held.fencing_token as int,
        ))),
    ensures
        context.lease_of(snapshot, desired_state, lease, checked_at_ms, known) is Err,
{
}

} // verus!
