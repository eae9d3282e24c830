//! Agent deployments: what one consists of, when it is valid, and the identity of
//! the versioned inputs and tool authority that a run is bound to.

use vstd::prelude::*;

use crate::digest;
use crate::digest::short_hash;
use crate::json;
use crate::json::{json_text, Json, JsonMap, JsonTree};
use crate::text;
use crate::text::{char_is_alphanumeric, chars_of, contains_any, listed, sorted_unique, to_lower};

verus! {

pub const DEPLOYMENTS_NS: &'static str = "agent_deployments";

pub const RUNS_NS: &'static str = "agent_runs";

pub const ACTIVE_RUNS_NS: &'static str = "agent_active_runs";

pub const SCHEDULES_NS: &'static str = "agent_deployment_schedules";

pub const MCP_CAPABILITIES_NS: &'static str = "agent_mcp_capabilities";

pub const RECOVERY_RECEIPTS_NS: &'static str = "agent_recovery_receipts";

pub const SCHEMA_VERSION: &'static str = "tradeassembly.agent_runner.v1";

pub const DEFAULT_LEASE_MS: i64 = 90_000;

pub const DEFAULT_HEARTBEAT_MS: u64 = 30_000;

pub const DEFAULT_RUN_TIMEOUT_MS: u64 = 900_000;

pub const MCP_CAPABILITY_ENV: &'static str = "TRADEASSEMBLY_AGENT_MCP_CAPABILITY";

/// How long a lease lasts and how often it is renewed while an agent runs.
#[derive(Clone, Copy, Debug, PartialEq, Eq, Structural)]
pub struct AgentRunnerTiming {
    pub lease_ms: i64,
    pub heartbeat_ms: u64,
}

impl Default for AgentRunnerTiming {
    fn default() -> (r: AgentRunnerTiming)
        ensures
            r.lease_ms == 90_000,
            r.heartbeat_ms == 30_000,
    {
        AgentRunnerTiming { lease_ms: DEFAULT_LEASE_MS, heartbeat_ms: DEFAULT_HEARTBEAT_MS }
    }
}

impl AgentRunnerTiming {
    /// Whether a heartbeat comes before the lease ends.
    pub open spec fn is_valid(self) -> bool {
        0 < self.heartbeat_ms < self.lease_ms
    }

    /// Whether a heartbeat comes before the lease ends.
    pub fn valid(&self) -> (r: bool)
        ensures
            r == self.is_valid(),
    {
        self.lease_ms > 0 && self.heartbeat_ms != 0 && self.heartbeat_ms < self.lease_ms as u64
    }
}

/// Who owns the agent process.
#[derive(Clone, Copy, Debug, PartialEq, Eq, Structural)]
pub enum AgentExecutor {
    Supervised,
    ExternalClient,
}

impl Default for AgentExecutor {
    fn default() -> (r: AgentExecutor)
        ensures
            r == AgentExecutor::Supervised,
    {
        AgentExecutor::Supervised
    }
}

/// An agent deployment.
#[derive(Debug)]
pub struct AgentDeployment {
    /// Who owns the agent process, independently of strategy evaluation mode.
    pub executor: AgentExecutor,
    pub deployment_id: String,
    pub system_project_id: String,
    pub agent_definition_version_id: String,
    pub execution_config_version_id: String,
    /// The exact tools that this deployment may invoke.
    pub studio_tool_allowlist: Vec<String>,
    pub desired_state: String,
    /// The schedule where `cron_utc` is absent: at least sixty seconds.
    pub interval_seconds: u64,
    /// A five-field cron expression with minute resolution, read in UTC.
    pub cron_utc: Option<String>,
    pub mode: String,
    pub prompt: String,
    pub workspace: String,
    pub runtime_profile: String,
}

impl AgentDeployment {
    /// A copy of this deployment.
    pub fn copy(&self) -> (r: AgentDeployment)
        ensures
            same_deployment(r, *self),
    {
        AgentDeployment {
            executor: self.executor,
            deployment_id: self.deployment_id.clone(),
            system_project_id: self.system_project_id.clone(),
            agent_definition_version_id: self.agent_definition_version_id.clone(),
            execution_config_version_id: self.execution_config_version_id.clone(),
            studio_tool_allowlist: text::copy_list(&self.studio_tool_allowlist),
            desired_state: self.desired_state.clone(),
            interval_seconds: self.interval_seconds,
            cron_utc: text::copy_option(&self.cron_utc),
            mode: self.mode.clone(),
            prompt: self.prompt.clone(),
            workspace: self.workspace.clone(),
            runtime_profile: self.runtime_profile.clone(),
        }
    }
}

/// Whether two deployments agree in every field.
pub open spec fn same_deployment(a: AgentDeployment, b: AgentDeployment) -> bool {
    &&& a.executor == b.executor
    &&& a.deployment_id == b.deployment_id
    &&& a.system_project_id == b.system_project_id
    &&& a.agent_definition_version_id == b.agent_definition_version_id
    &&& a.execution_config_version_id == b.execution_config_version_id
    &&& a.studio_tool_allowlist@ == b.studio_tool_allowlist@
    &&& a.desired_state == b.desired_state
    &&& a.interval_seconds == b.interval_seconds
    &&& a.cron_utc == b.cron_utc
    &&& a.mode == b.mode
    &&& a.prompt == b.prompt
    &&& a.workspace == b.workspace
    &&& a.runtime_profile == b.runtime_profile
}

/// The members of a list of texts.
pub open spec fn members(list: Seq<String>) -> Set<Seq<char>> {
    text::texts(list).to_set()
}

/// The canonical form of an allowlist: its members in ascending order, each once.
pub open spec fn canonical_tools(list: Seq<String>) -> Seq<Seq<char>> {
    crate::text_map::in_order(members(list))
}

/// Puts an allowlist in its canonical form.
pub fn canonical_allowlist(allowlist: &Vec<String>) -> (r: Vec<String>)
    ensures
        text::texts(r@) == canonical_tools(allowlist@),
        text::ascending(text::texts(r@)),
        forall|x: Seq<char>| text::texts(r@).contains(x) <==> text::texts(allowlist@).contains(x),
{
    let r = sorted_unique(allowlist);
    proof {
        let keys = members(allowlist@);
        vstd::seq_lib::seq_to_set_is_finite(text::texts(allowlist@));
        crate::text_map::in_order_lists_members(keys);
        text::ascending_is_determined(text::texts(r@), canonical_tools(allowlist@));
    }
    r
}

/// The versioned inputs and the tool authority of a deployment.
pub open spec fn binding_tree(d: AgentDeployment) -> JsonTree {
    let supervised = map![
        "systemProjectId"@ => JsonTree::Text(d.system_project_id@),
        "agentDefinitionVersionId"@ => JsonTree::Text(d.agent_definition_version_id@),
        "executionConfigVersionId"@ => JsonTree::Text(d.execution_config_version_id@),
        "studioToolAllowlist"@ => json::text_array(canonical_tools(d.studio_tool_allowlist@))
    ];
    match d.executor {
        AgentExecutor::Supervised => JsonTree::Object(supervised),
        AgentExecutor::ExternalClient => JsonTree::Object(
            supervised.insert("executor"@, JsonTree::Text("external_client"@)),
        ),
    }
}

/// The identity of the versioned inputs and the tool authority of a deployment.
pub open spec fn binding_digest(d: AgentDeployment) -> Seq<char> {
    digest::short_digest(json::json_text_of(binding_tree(d)))
}

/// Computes the identity of the versioned inputs and the tool authority that must
/// stay unchanged while a run is active or resumed.
pub fn deployment_binding_digest(deployment: &AgentDeployment) -> (r: String)
    ensures
        r@ == binding_digest(*deployment),
        r@.len() == 24,
        digest::is_hex(r@),
{
    let tools = canonical_allowlist(&deployment.studio_tool_allowlist);
    let mut binding = JsonMap::new().with(
        "systemProjectId",
        Json::text(deployment.system_project_id.as_str()),
    ).with(
        "agentDefinitionVersionId",
        Json::text(deployment.agent_definition_version_id.as_str()),
    ).with(
        "executionConfigVersionId",
        Json::text(deployment.execution_config_version_id.as_str()),
    ).with("studioToolAllowlist", Json::texts(&tools));
    if deployment.executor == AgentExecutor::ExternalClient {
        binding.insert("executor", Json::text("external_client"));
    }
    let encoded = json_text(&Json::object(binding));
    short_hash(encoded.as_str())
}

/// Deployments with the same versioned inputs, executor and set of tools have the
/// same binding, in whatever order and however often the tools are listed.
pub proof fn binding_ignores_order_of_tools(a: AgentDeployment, b: AgentDeployment)
    requires
        a.executor == b.executor,
        a.system_project_id@ == b.system_project_id@,
        a.agent_definition_version_id@ == b.agent_definition_version_id@,
        a.execution_config_version_id@ == b.execution_config_version_id@,
        members(a.studio_tool_allowlist@) == members(b.studio_tool_allowlist@),
    ensures
        binding_digest(a) == binding_digest(b),
{
}

/// Whether `tool` has the shape of a tool name: at most 160 bytes of ASCII letters,
/// digits, dots, underscores and hyphens.
pub open spec fn tool_shaped(tool: Seq<char>) -> bool {
    &&& vstd::utf8::encode_utf8(tool).len() <= 160
    &&& forall|i: int|
        0 <= i < tool.len() ==> text::is_alphanumeric(#[trigger] tool[i]) || tool[i] == '.' || tool[i]
            == '_' || tool[i] == '-'
}

/// Whether a deployment may list `tool`: it has the shape of a tool name and is known.
pub open spec fn tool_is_valid(tool: Seq<char>, known: Seq<String>) -> bool {
    tool_shaped(tool) && text::texts(known).contains(tool)
}

/// Tests whether a deployment may list `tool`.
pub fn valid_agent_tool_id(tool: &str, known: &Vec<String>) -> (r: bool)
    ensures
        r == tool_is_valid(tool@, known@),
{
    let bytes: usize = tool.as_bytes().len();
    if bytes > 160 {
        return false;
    }
    let chars = chars_of(tool);
    let mut i: usize = 0;
    while i < chars.len()
        invariant
            i <= chars.len(),
            chars@ == tool@,
            forall|j: int|
                0 <= j < i ==> text::is_alphanumeric(#[trigger] chars@[j]) || chars@[j] == '.' || chars@[j]
                    == '_' || chars@[j] == '-',
        decreases chars.len() - i,
    {
        let c: char = chars[i];
        if !(char_is_alphanumeric(c) || c == '.' || c == '_' || c == '-') {
            return false;
        }
        i += 1;
    }
    listed(known, tool)
}

/// Whether every tool of a list may be listed.
pub open spec fn tools_are_valid(tools: Seq<String>, known: Seq<String>) -> bool {
    tools.len() > 0 && forall|i: int|
        0 <= i < tools.len() ==> tool_is_valid((#[trigger] tools[i])@, known)
}

/// Tests whether a list names a tool and names only tools that may be listed.
pub fn valid_tools(tools: &Vec<String>, known: &Vec<String>) -> (r: bool)
    ensures
        r == tools_are_valid(tools@, known@),
{
    if tools.len() == 0 {
        return false;
    }
    let mut i: usize = 0;
    while i < tools.len()
        invariant
            i <= tools.len(),
            forall|j: int| 0 <= j < i ==> tool_is_valid((#[trigger] tools@[j])@, known@),
        decreases tools.len() - i,
    {
        if !valid_agent_tool_id(tools[i].as_str(), known) {
            return false;
        }
        i += 1;
    }
    true
}

/// The spellings that give a secret away.
pub open spec fn secret_needles() -> Seq<Seq<char>> {
    seq![
        "api_key"@,
        "apikey"@,
        "api secret"@,
        "apisecret"@,
        "access_token"@,
        "access token"@,
        "refresh_token"@,
        "refresh token"@,
        "client_secret"@,
        "client secret"@,
        "private_key"@,
        "private key"@,
        "authorization:"@,
        "bearer "@,
        "password="@,
        "password:"@,
        "secret="@,
        "secret:"@,
    ]
}

/// Tests whether a text looks as if it held a secret.
pub fn secret_shaped(value: &str) -> (r: bool)
    ensures
        r == text::occurs_any(text::lowered(value@), secret_needles()),
{
    let lowered = to_lower(value);
    let needles: Vec<&'static str> = vec![
        "api_key",
        "apikey",
        "api secret",
        "apisecret",
        "access_token",
        "access token",
        "refresh_token",
        "refresh token",
        "client_secret",
        "client secret",
        "private_key",
        "private key",
        "authorization:",
        "bearer ",
        "password=",
        "password:",
        "secret=",
        "secret:",
    ];
    proof {
        assert(needles@.map_values(|n: &'static str| n@) =~= secret_needles());
    }
    contains_any(lowered.as_str(), &needles)
}

} // verus!
