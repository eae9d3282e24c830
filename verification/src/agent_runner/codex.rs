//! The local Codex command line: how it is found, how it is called for a run, and
//! what is kept of its output, which is a session reference and nothing else.

pub mod calls;

use vstd::prelude::*;

use crate::agent_runner::capability::random_bytes;
use crate::agent_runner::deployment::{DEFAULT_RUN_TIMEOUT_MS, MCP_CAPABILITY_ENV};
use crate::agent_runner::records;
use crate::agent_runner::records::{object_entries, AgentRun};
use crate::digest;
use crate::digest::hex_text;
use crate::json;
use crate::json::{json_text, parse_json, parse_json_bytes, Json, JsonTree};
use crate::text;
use crate::text::{join2, join3, lines_of, same, same_as, utf8_text};

verus! {

/// How much of the output of an agent process is kept.
pub const DEFAULT_CODEX_OUTPUT_BYTES: usize = 1_000_000;

/// What the file system says of a path.
#[derive(Debug)]
pub struct BindingPath {
    pub absolute: bool,
    pub file: bool,
    /// The canonical form of the path, where it has one that is text.
    pub canonical: Option<String>,
}

impl BindingPath {
    /// Whether a path can be bound: it is absolute, and a file with a canonical form.
    pub open spec fn is_usable(self) -> bool {
        self.absolute && self.file && self.canonical is Some
    }
}

/// The canonical form of a path that can be bound.
pub fn checked(path: BindingPath) -> (r: Result<String, String>)
    ensures
        match r {
            Ok(text) => path.is_usable() && path.canonical == Some(text),
            Err(e) => !path.is_usable() && e@ == "agent_mcp_binding_path_invalid"@,
        },
{
    if !path.absolute || !path.file {
        return Err("agent_mcp_binding_path_invalid".to_owned());
    }
    match path.canonical {
        Some(text) => Ok(text),
        None => Err("agent_mcp_binding_path_invalid".to_owned()),
    }
}

/// The adapter for the installed Codex command line.
#[derive(Debug)]
pub struct CodexCliAdapter {
    executable: String,
    config: String,
    database: String,
}

/// What a [`CodexCliAdapter`] is bound to.
#[verifier::ext_equal]
pub struct AdapterView {
    pub executable: Seq<char>,
    pub config: Seq<char>,
    pub database: Seq<char>,
}

impl View for CodexCliAdapter {
    type V = AdapterView;

    closed spec fn view(&self) -> AdapterView {
        AdapterView {
            executable: self.executable@,
            config: self.config@,
            database: self.database@,
        }
    }
}

/// The private name of the tool server of one call.
pub open spec fn server_name(nonce: Seq<u8>) -> Seq<char> {
    "tradeassembly_runner_"@ + digest::hex(nonce)
}

/// What the agent is told about the tool servers that it sees.
pub const SERVER_INSTRUCTION: &'static str =
    "Use tradeAssemblyMcpServer for this deployment's TradeAssembly tools. Other server bindings are not this installation.";

/// A trigger that names the tool server.
pub open spec fn trigger_with_server(trigger: JsonTree, server: Seq<char>) -> JsonTree {
    JsonTree::Object(
        records::object_of(trigger).insert(
            "tradeAssemblyMcpServer"@,
            JsonTree::Text(server),
        ).insert("tradeAssemblyMcpInstruction"@, JsonTree::Text(SERVER_INSTRUCTION@)),
    )
}

/// The arguments with which the tool server is started.
pub open spec fn server_args(adapter: AdapterView) -> Seq<Seq<char>> {
    seq![
        "--config"@,
        adapter.config,
        "--db"@,
        adapter.database,
        "mcp"@,
        "serve"@,
        "--transport"@,
        "stdio"@,
    ]
}

/// The setting that binds the tool server of one call. It names the variable of the
/// capability, never its value.
pub open spec fn server_setting(adapter: AdapterView, server: Seq<char>) -> Seq<char> {
    "mcp_servers."@ + server + "={command="@ + json::json_text_of(JsonTree::Text(adapter.executable))
        + ",args="@ + json::json_text_of(json::text_array(server_args(adapter))) + ",env_vars=[\""@
        + MCP_CAPABILITY_ENV@ + "\"],enabled=true,required=true}"@
}

/// A text field of a trigger, or nothing.
pub open spec fn text_or_empty(tree: JsonTree, key: Seq<char>) -> Seq<char> {
    match json::text_member(tree, key) {
        Some(t) => t,
        None => Seq::empty(),
    }
}

/// An option with its value, where it has one.
pub open spec fn optional_flag(flag: Seq<char>, value: Seq<char>) -> Seq<Seq<char>> {
    if value.len() == 0 {
        Seq::empty()
    } else {
        seq![flag, value]
    }
}

/// The arguments of a call that goes on with a session, or begins one.
pub open spec fn run_args(session: Option<Seq<char>>, trigger: JsonTree) -> Seq<Seq<char>> {
    let prompt = json::json_text_of(trigger);
    match session {
        Some(id) => seq!["exec"@, "resume"@, "--skip-git-repo-check"@, id, prompt],
        None => seq!["exec"@, "--json"@] + optional_flag("-C"@, text_or_empty(trigger, "workspace"@))
            + optional_flag("-p"@, text_or_empty(trigger, "runtimeProfile"@)) + seq![
            "--skip-git-repo-check"@,
            prompt,
        ],
    }
}

fn put(args: &mut Vec<String>, text: &str)
    ensures
        text::texts(final(args)@) == text::texts(old(args)@).push(text@),
{
    let ghost before = text::texts(args@);
    args.push(text.to_owned());
    assert(text::texts(args@) =~= before.push(text@));
}

fn put_flag(args: &mut Vec<String>, flag: &str, value: &Option<String>)
    ensures
        text::texts(final(args)@) == text::texts(old(args)@) + optional_flag(
            flag@,
            match *value {
                Some(t) => t@,
                None => Seq::empty(),
            },
        ),
{
    let ghost before = text::texts(args@);
    match value {
        Some(text) => {
            if text::chars_of(text.as_str()).len() > 0 {
                put(args, flag);
                put(args, text.as_str());
                assert(text::texts(args@) =~= before + seq![flag@, text@]);
            } else {
                assert(text::texts(args@) =~= before + Seq::empty());
            }
        },
        None => {
            assert(text::texts(args@) =~= before + Seq::empty());
        },
    }
}

/// The arguments of a call for a run.
pub fn codex_command_args(run: &AgentRun, trigger: &Json) -> (r: Result<Vec<String>, String>)
    ensures
        r matches Ok(args) && text::texts(args@) == run_args(run@.codex_session_ref, trigger@),
{
    let prompt = json_text(trigger);
    let mut args: Vec<String> = Vec::new();
    assert(text::texts(args@) =~= Seq::empty());
    put(&mut args, "exec");
    match &run.codex_session_ref {
        Some(session) => {
            put(&mut args, "resume");
            put(&mut args, "--skip-git-repo-check");
            put(&mut args, session.as_str());
            put(&mut args, prompt.as_str());
            assert(text::texts(args@) =~= run_args(run@.codex_session_ref, trigger@));
        },
        None => {
            put(&mut args, "--json");
            put_flag(&mut args, "-C", &trigger.text_field("workspace"));
            put_flag(&mut args, "-p", &trigger.text_field("runtimeProfile"));
            put(&mut args, "--skip-git-repo-check");
            put(&mut args, prompt.as_str());
            assert(text::texts(args@) =~= run_args(run@.codex_session_ref, trigger@));
        },
    }
    Ok(args)
}

impl CodexCliAdapter {
    /// Binds an adapter to an executable, a configuration and a database.
    pub fn new(executable: BindingPath, config: BindingPath, database: BindingPath) -> (r: Result<
        CodexCliAdapter,
        String,
    >)
        ensures
            match r {
                Ok(adapter) => executable.is_usable() && config.is_usable() && database.is_usable()
                    && adapter@ == (AdapterView {
                    executable: executable.canonical->Some_0@,
                    config: config.canonical->Some_0@,
                    database: database.canonical->Some_0@,
                }),
                Err(e) => !(executable.is_usable() && config.is_usable() && database.is_usable())
                    && e@ == "agent_mcp_binding_path_invalid"@,
            },
    {
        let executable = match checked(executable) {
            Ok(path) => path,
            Err(e) => {
                return Err(e);
            },
        };
        let config = match checked(config) {
            Ok(path) => path,
            Err(e) => {
                return Err(e);
            },
        };
        let database = match checked(database) {
            Ok(path) => path,
            Err(e) => {
                return Err(e);
            },
        };
        Ok(CodexCliAdapter { executable, config, database })
    }

    /// The outcome of making the arguments of a call.
    pub open spec fn call(self, nonce: Seq<u8>, session: Option<Seq<char>>, trigger: JsonTree) -> Result<
        Seq<Seq<char>>,
        Seq<char>,
    > {
        if trigger is Object {
            let server = server_name(nonce);
            Ok(
                seq!["-c"@, server_setting(self@, server)] + run_args(
                    session,
                    trigger_with_server(trigger, server),
                ),
            )
        } else {
            Err("agent_trigger_invalid"@)
        }
    }

    /// The arguments of a call, under a fresh private name of the tool server: so no
    /// older transport or environment of a server of that name is merged in.
    pub fn command_args(&self, run: &AgentRun, trigger: &Json) -> (r: Result<Vec<String>, String>)
        ensures
            match r {
                Ok(args) => exists|nonce: Seq<u8>|
                    #![trigger server_name(nonce)]
                    nonce.len() == 16 && self.call(nonce, run@.codex_session_ref, trigger@) == Ok::<
                        Seq<Seq<char>>,
                        Seq<char>,
                    >(text::texts(args@)),
                Err(e) => !(trigger@ is Object) && e@ == "agent_trigger_invalid"@,
            },
    {
        let nonce = random_bytes(16);
        let r = self.command_args_under(&nonce, run, trigger);
        proof {
            let name = server_name(nonce@);
        }
        r
    }

    /// The arguments of a call, with the given bytes in the name of the tool server.
    pub fn command_args_under(&self, nonce: &Vec<u8>, run: &AgentRun, trigger: &Json) -> (r: Result<
        Vec<String>,
        String,
    >)
        ensures
            match (r, self.call(nonce@, run@.codex_session_ref, trigger@)) {
                (Ok(args), Ok(shown)) => text::texts(args@) == shown,
                (Err(e), Err(code)) => e@ == code,
                _ => false,
            },
    {
        let is_object: bool = match trigger {
            Json::Object(_) => true,
            _ => false,
        };
        if !is_object {
            return Err("agent_trigger_invalid".to_owned());
        }
        let spelled = hex_text(nonce);
        let server = join2("tradeassembly_runner_", spelled.as_str());
        let trigger = Json::object(
            object_entries(trigger).with("tradeAssemblyMcpServer", Json::text(server.as_str())).with(
                "tradeAssemblyMcpInstruction",
                Json::text(SERVER_INSTRUCTION),
            ),
        );
        let setting = self.setting(server.as_str());
        let mut args: Vec<String> = Vec::new();
        assert(text::texts(args@) =~= Seq::empty());
        put(&mut args, "-c");
        put(&mut args, setting.as_str());
        let mut rest = match codex_command_args(run, &trigger) {
            Ok(list) => list,
            Err(e) => {
                return Err(e);
            },
        };
        let ghost head = text::texts(args@);
        let ghost tail = text::texts(rest@);
        args.append(&mut rest);
        assert(text::texts(args@) =~= head + tail);
        assert(head =~= seq!["-c"@, setting@]);
        Ok(args)
    }

    fn setting(&self, server: &str) -> (r: String)
        ensures
            r@ == server_setting(self@, server@),
    {
        let mut list: Vec<String> = Vec::new();
        assert(text::texts(list@) =~= Seq::empty());
        put(&mut list, "--config");
        put(&mut list, self.config.as_str());
        put(&mut list, "--db");
        put(&mut list, self.database.as_str());
        put(&mut list, "mcp");
        put(&mut list, "serve");
        put(&mut list, "--transport");
        put(&mut list, "stdio");
        assert(text::texts(list@) =~= server_args(self@));
        let args = json_text(&Json::texts(&list));
        let command = json_text(&Json::text(self.executable.as_str()));
        let head = join3("mcp_servers.", server, "={command=");
        let middle = join3(command.as_str(), ",args=", args.as_str());
        let tail = join3(",env_vars=[\"", MCP_CAPABILITY_ENV, "\"],enabled=true,required=true}");
        let r = join3(head.as_str(), middle.as_str(), tail.as_str());
        assert(r@ =~= server_setting(self@, server@));
        r
    }
}

/// The executable that a process is to be started with.
#[derive(Debug)]
pub enum CodexBinary {
    /// The one on the path.
    Default,
    /// The one that an absolute path names.
    Configured(String),
}

/// Chooses the executable: a configured path has to be absolute.
pub fn codex_binary(configured: Option<String>, absolute: bool) -> (r: Result<CodexBinary, String>)
    ensures
        match configured {
            None => r matches Ok(CodexBinary::Default),
            Some(path) => if absolute {
                r matches Ok(CodexBinary::Configured(p)) && p == path
            } else {
                r matches Err(e) && e@ == "codex_cli_unavailable"@
            },
        },
{
    match configured {
        None => Ok(CodexBinary::Default),
        Some(path) => if absolute {
            Ok(CodexBinary::Configured(path))
        } else {
            Err("codex_cli_unavailable".to_owned())
        },
    }
}

/// Keeps a chunk of output as far as there is room for it.
pub fn keep_output(body: &mut Vec<u8>, chunk: &[u8])
    requires
        old(body)@.len() <= DEFAULT_CODEX_OUTPUT_BYTES,
    ensures
        final(body)@.len() <= DEFAULT_CODEX_OUTPUT_BYTES,
        final(body)@ == (old(body)@ + chunk@).take(
            if old(body)@.len() + chunk@.len() <= DEFAULT_CODEX_OUTPUT_BYTES {
                (old(body)@.len() + chunk@.len()) as int
            } else {
                DEFAULT_CODEX_OUTPUT_BYTES as int
            },
        ),
{
    let ghost before = body@;
    let room: usize = DEFAULT_CODEX_OUTPUT_BYTES - body.len();
    let n: usize = if chunk.len() < room {
        chunk.len()
    } else {
        room
    };
    let mut i: usize = 0;
    while i < n
        invariant
            i <= n,
            n <= chunk@.len(),
            body@ == before + chunk@.take(i as int),
        decreases n - i,
    {
        body.push(chunk[i]);
        i += 1;
        assert(body@ =~= before + chunk@.take(i as int));
    }
    assert(before + chunk@.take(n as int) =~= (before + chunk@).take((before.len() + n) as int));
}

/// The first of the fields in which an output line names a session.
pub open spec fn session_field(tree: JsonTree) -> Option<JsonTree> {
    match json::member(tree, "thread_id"@) {
        Some(t) => Some(t),
        None => match json::member(tree, "session_id"@) {
            Some(t) => Some(t),
            None => json::member(tree, "threadId"@),
        },
    }
}

/// The session that a value of an output line names.
pub open spec fn session_named(tree: JsonTree) -> Option<Seq<char>> {
    match session_field(tree) {
        Some(JsonTree::Text(t)) => Some(t),
        _ => None,
    }
}

/// Finds the session that a value of an output line names.
pub fn named_session(value: &Json) -> (r: Option<String>)
    ensures
        text::option_text(r) == session_named(value@),
{
    let found: Option<&Json> = match value.field("thread_id") {
        Some(v) => Some(v),
        None => match value.field("session_id") {
            Some(v) => Some(v),
            None => value.field("threadId"),
        },
    };
    match found {
        Some(Json::Text(t)) => Some(t.clone()),
        _ => None,
    }
}

/// The session that an output line names, where the line is JSON.
pub open spec fn line_session(line: Seq<char>) -> Option<Seq<char>> {
    match json::json_value_of(line) {
        Ok(tree) => session_named(tree),
        Err(_) => None,
    }
}

/// The session that the first of the lines to name one names.
pub open spec fn first_session(lines: Seq<Seq<char>>) -> Option<Seq<char>>
    decreases lines.len(),
{
    if lines.len() == 0 {
        None
    } else {
        match line_session(lines[0]) {
            Some(id) => Some(id),
            None => first_session(lines.skip(1)),
        }
    }
}

/// Finds the session that the output of an agent process names.
pub fn extract_session_ref(output: &str) -> (r: Option<String>)
    ensures
        text::option_text(r) == first_session(text::lines(output@)),
{
    let lines = lines_of(output);
    let ghost shown = text::lines(output@);
    let mut i: usize = 0;
    assert(shown.skip(0) =~= shown);
    while i < lines.len()
        invariant
            i <= lines.len(),
            text::texts(lines@) == shown,
            shown == text::lines(output@),
            first_session(shown) == first_session(shown.skip(i as int)),
        decreases lines.len() - i,
    {
        proof {
            assert(shown.skip(i as int)[0] == text::texts(lines@)[i as int]);
            assert(shown.skip(i as int).skip(1) =~= shown.skip(i + 1));
        }
        let found: Option<String> = match parse_json(lines[i].as_str()) {
            Ok(value) => named_session(&value),
            Err(_) => None,
        };
        if found.is_some() {
            return found;
        }
        i += 1;
    }
    assert(shown.skip(shown.len() as int).len() == 0);
    None
}

/// What the process of an agent was found to be.
#[derive(Clone, Copy, Debug, PartialEq, Eq, Structural)]
pub enum ChildPoll {
    Exited { success: bool },
    Running,
    /// It could not be told.
    Lost,
}

/// Where a call of the command line stands: what it waits for.
#[derive(Debug)]
pub enum CallStage {
    /// Whether the process was started.
    Spawning,
    /// What the process is found to be.
    Waiting,
    /// That the process was ended, for the reason that the code tells.
    Ending { code: &'static str },
    /// What the process wrote.
    Collecting { success: bool },
}

/// What became of what a step of a call asked for.
#[derive(Debug)]
pub enum CallEvent {
    /// It failed.
    Failed,
    /// The process runs; its output can be read or not.
    Spawned { readable: bool },
    Polled { child: ChildPoll, elapsed_ms: u64 },
    Ended,
    /// What was kept of the output, where it could be read.
    Output(Option<Vec<u8>>),
}

/// What a step of a call asks for.
#[derive(Clone, Copy, Debug, PartialEq, Eq, Structural)]
pub enum CallAction {
    /// To look at the process.
    Poll,
    /// To wait a moment and to look at the process again.
    PollLater,
    /// To end the process and to wait until it and its output are gone.
    End,
    /// To take what was kept of the output.
    Collect,
}

/// What comes of a step of a call: at last the output of a process that succeeded, or
/// nothing of one that did not.
#[derive(Debug)]
pub enum CallStep {
    Ask { stage: CallStage, action: CallAction },
    Finish(Result<Option<String>, String>),
}

/// Whether an event is one that a stage of a call waits for.
pub open spec fn call_fits(stage: CallStage, event: CallEvent) -> bool {
    match stage {
        CallStage::Spawning => event is Failed || event is Spawned,
        CallStage::Waiting => event is Polled,
        CallStage::Ending { .. } => event is Ended,
        CallStage::Collecting { .. } => event is Output,
    }
}

/// Whether a step ends a call with a code.
pub open spec fn call_fails(r: CallStep, code: Seq<char>) -> bool {
    r matches CallStep::Finish(Err(e)) && e@ == code
}

/// Whether a step of a call is the one that a stage and an event lead to.
pub open spec fn call_leads_to(stage: CallStage, event: CallEvent, r: CallStep) -> bool {
    match (stage, event) {
        (CallStage::Spawning, CallEvent::Spawned { readable }) => if readable {
            r == (CallStep::Ask { stage: CallStage::Waiting, action: CallAction::Poll })
        } else {
            call_fails(r, "codex_cli_output_invalid"@)
        },
        (CallStage::Spawning, _) => call_fails(r, "codex_cli_unavailable"@),
        (CallStage::Waiting, CallEvent::Polled { child, elapsed_ms }) => match child {
            ChildPoll::Exited { success } => r == (CallStep::Ask {
                stage: CallStage::Collecting { success },
                action: CallAction::Collect,
            }),
            ChildPoll::Running => if elapsed_ms >= DEFAULT_RUN_TIMEOUT_MS {
                r matches CallStep::Ask { stage: CallStage::Ending { code }, action } && action
                    == CallAction::End && code@ == "codex_cli_timeout"@
            } else {
                r == (CallStep::Ask { stage: CallStage::Waiting, action: CallAction::PollLater })
            },
            ChildPoll::Lost => r matches CallStep::Ask { stage: CallStage::Ending { code }, action }
                && action == CallAction::End && code@ == "codex_cli_failed"@,
        },
        (CallStage::Ending { code }, _) => call_fails(r, code@),
        (CallStage::Collecting { success }, CallEvent::Output(output)) => match output {
            Some(bytes) => if !vstd::utf8::valid_utf8(bytes@) {
                call_fails(r, "codex_cli_output_invalid"@)
            } else if success {
                r matches CallStep::Finish(Ok(Some(body))) && body@ == vstd::utf8::decode_utf8(
                    bytes@,
                )
            } else {
                r == CallStep::Finish(Ok(None))
            },
            None => call_fails(r, "codex_cli_output_invalid"@),
        },
        _ => false,
    }
}

fn give_up(code: &str) -> (r: CallStep)
    ensures
        call_fails(r, code@),
{
    CallStep::Finish(Err(code.to_owned()))
}

/// The step of a call of the command line on what became of the one before.
pub fn run_codex_command(stage: CallStage, event: CallEvent) -> (r: CallStep)
    requires
        call_fits(stage, event),
    ensures
        call_leads_to(stage, event, r),
{
    match (stage, event) {
        (CallStage::Spawning, CallEvent::Spawned { readable }) => if readable {
            CallStep::Ask { stage: CallStage::Waiting, action: CallAction::Poll }
        } else {
            give_up("codex_cli_output_invalid")
        },
        (CallStage::Spawning, _) => give_up("codex_cli_unavailable"),
        (CallStage::Waiting, CallEvent::Polled { child, elapsed_ms }) => match child {
            ChildPoll::Exited { success } => CallStep::Ask {
                stage: CallStage::Collecting { success },
                action: CallAction::Collect,
            },
            ChildPoll::Running => if elapsed_ms >= DEFAULT_RUN_TIMEOUT_MS {
                CallStep::Ask {
                    stage: CallStage::Ending { code: "codex_cli_timeout" },
                    action: CallAction::End,
                }
            } else {
                CallStep::Ask { stage: CallStage::Waiting, action: CallAction::PollLater }
            },
            ChildPoll::Lost => CallStep::Ask {
                stage: CallStage::Ending { code: "codex_cli_failed" },
                action: CallAction::End,
            },
        },
        (CallStage::Ending { code }, _) => give_up(code),
        (CallStage::Collecting { success }, CallEvent::Output(output)) => match output {
            Some(bytes) => match utf8_text(bytes) {
                Some(body) => if success {
                    CallStep::Finish(Ok(Some(body)))
                } else {
                    CallStep::Finish(Ok(None))
                },
                None => give_up("codex_cli_output_invalid"),
            },
            None => give_up("codex_cli_output_invalid"),
        },
        _ => {
            assert(false);
            give_up("codex_cli_failed")
        },
    }
}

/// An agent that runs for too long is ended, and the call fails as overdue once it is gone.
pub proof fn overdue_agent_is_ended(elapsed_ms: u64, first: CallStep, second: CallStep)
    requires
        elapsed_ms >= DEFAULT_RUN_TIMEOUT_MS,
        call_leads_to(
            CallStage::Waiting,
            CallEvent::Polled { child: ChildPoll::Running, elapsed_ms },
            first,
        ),
        call_leads_to(first->stage, CallEvent::Ended, second),
    ensures
        first->action == CallAction::End,
        call_fails(second, "codex_cli_timeout"@),
{
}

/// The session after a call: the one that the run goes on with, or the one that the
/// output names. `body` is the output of a call that succeeded.
pub fn session_after_call(run: &AgentRun, body: &Option<String>) -> (r: Result<Option<String>, String>)
    ensures
        match *body {
            None => r matches Err(e) && e@ == "codex_cli_failed"@,
            Some(output) => match run@.codex_session_ref {
                Some(id) => r matches Ok(s) && text::option_text(s) == Some(id),
                None => match first_session(text::lines(output@)) {
                    Some(id) => r matches Ok(s) && text::option_text(s) == Some(id),
                    None => r matches Err(e) && e@ == "codex_session_reference_missing"@,
                },
            },
        },
{
    let output = match body {
        Some(text) => text,
        None => {
            return Err("codex_cli_failed".to_owned());
        },
    };
    match &run.codex_session_ref {
        Some(session) => Ok(Some(session.clone())),
        None => match extract_session_ref(output.as_str()) {
            Some(session) => Ok(Some(session)),
            None => Err("codex_session_reference_missing".to_owned()),
        },
    }
}

/// The name of the platform and of the target in the package of a system, where the
/// package is made for it.
pub open spec fn platform_of(os: Seq<char>, arch: Seq<char>) -> Option<(Seq<char>, Seq<char>)> {
    if os == "macos"@ && arch == "aarch64"@ {
        Some(("darwin-arm64"@, "aarch64-apple-darwin"@))
    } else if os == "macos"@ && arch == "x86_64"@ {
        Some(("darwin-x64"@, "x86_64-apple-darwin"@))
    } else if os == "linux"@ && arch == "aarch64"@ {
        Some(("linux-arm64"@, "aarch64-unknown-linux-musl"@))
    } else if os == "linux"@ && arch == "x86_64"@ {
        Some(("linux-x64"@, "x86_64-unknown-linux-musl"@))
    } else {
        None
    }
}

fn platform(os: &str, arch: &str) -> (r: Option<(&'static str, &'static str)>)
    ensures
        match (r, platform_of(os@, arch@)) {
            (Some(p), Some(q)) => p.0@ == q.0 && p.1@ == q.1,
            (None, None) => true,
            _ => false,
        },
{
    if same(os, "macos") && same(arch, "aarch64") {
        Some(("darwin-arm64", "aarch64-apple-darwin"))
    } else if same(os, "macos") && same(arch, "x86_64") {
        Some(("darwin-x64", "x86_64-apple-darwin"))
    } else if same(os, "linux") && same(arch, "aarch64") {
        Some(("linux-arm64", "aarch64-unknown-linux-musl"))
    } else if same(os, "linux") && same(arch, "x86_64") {
        Some(("linux-x64", "x86_64-unknown-linux-musl"))
    } else {
        None
    }
}

/// Whether a file is the script that stands in the package for the executable.
pub fn is_package_script(file_name: &Option<String>) -> (r: bool)
    ensures
        r == (text::option_text(*file_name) == Some("codex.js"@)),
{
    same_as(file_name, "codex.js")
}

/// The places, relative to the package, at which the executable may stand.
pub open spec fn binary_places(os: Seq<char>, arch: Seq<char>) -> Seq<Seq<char>> {
    match platform_of(os, arch) {
        Some((platform, target)) => seq![
            "node_modules/@openai/codex-"@ + platform + "/vendor/"@ + target + "/bin/codex"@,
            "vendor/"@ + target + "/bin/codex"@,
        ],
        None => Seq::empty(),
    }
}

/// Where to look for the executable of a package script: in the layout of the official
/// package only, with no shell and no search of the machine. `metadata` is what the
/// package says of itself, where that can be read.
pub fn resolve_codex_executable(metadata: &Option<Json>, os: &str, arch: &str) -> (r: Result<
    Vec<String>,
    String,
>)
    ensures
        if (metadata matches Some(m) && json::text_member(m@, "name"@) == Some("@openai/codex"@))
            && platform_of(os@, arch@) is Some {
            r matches Ok(places) && text::texts(places@) == binary_places(os@, arch@)
        } else {
            r matches Err(e) && e@ == "codex_cli_unavailable"@
        },
{
    let official: bool = match metadata {
        Some(value) => value.field_is("name", "@openai/codex"),
        None => false,
    };
    if !official {
        return Err("codex_cli_unavailable".to_owned());
    }
    match platform(os, arch) {
        Some((name, target)) => {
            let nested = join3("node_modules/@openai/codex-", name, "/vendor/");
            let nested = join3(nested.as_str(), target, "/bin/codex");
            let flat = join3("vendor/", target, "/bin/codex");
            let mut places: Vec<String> = Vec::new();
            assert(text::texts(places@) =~= Seq::empty());
            put(&mut places, nested.as_str());
            put(&mut places, flat.as_str());
            assert(text::texts(places@) =~= binary_places(os@, arch@));
            Ok(places)
        },
        None => Err("codex_cli_unavailable".to_owned()),
    }
}

/// What a package file reads as, where it can be read: JSON bytes.
pub open spec fn package_metadata(body: Option<Seq<u8>>) -> Option<JsonTree> {
    match body {
        Some(bytes) => match json::json_value_of_bytes(bytes) {
            Ok(tree) => Some(tree),
            Err(_) => None,
        },
        None => None,
    }
}

/// Where to look for the executable of a package script, given the file in which the package
/// says what it is; none where that file could not be had.
pub fn read_codex_package(body: &Option<Vec<u8>>, os: &str, arch: &str) -> (r: Result<
    Vec<String>,
    String,
>)
    ensures
        if (package_metadata(text::option_bytes(*body)) matches Some(m) && json::text_member(
            m,
            "name"@,
        ) == Some("@openai/codex"@)) && platform_of(os@, arch@) is Some {
            r matches Ok(places) && text::texts(places@) == binary_places(os@, arch@)
        } else {
            r matches Err(e) && e@ == "codex_cli_unavailable"@
        },
        body matches Some(bytes) ==> if vstd::utf8::valid_utf8(bytes@) {
            json::json_value_of_bytes(bytes@) == json::json_value_of(
                vstd::utf8::decode_utf8(bytes@),
            )
        } else {
            r is Err
        },
{
    let metadata: Option<Json> = match body {
        Some(bytes) => match parse_json_bytes(bytes.as_slice()) {
            Ok(value) => Some(value),
            Err(_) => None,
        },
        None => None,
    };
    resolve_codex_executable(&metadata, os, arch)
}

/// The tool server of one call has a name that no other call has, unless their bytes
/// are the same.
pub proof fn server_names_are_private(a: Seq<u8>, b: Seq<u8>)
    requires
        server_name(a) == server_name(b),
        a.len() == b.len(),
    ensures
        a == b,
{
    let prefix = "tradeassembly_runner_"@;
    assert(digest::hex(a) =~= server_name(a).skip(prefix.len() as int));
    assert(digest::hex(b) =~= server_name(b).skip(prefix.len() as int));
    assert forall|i: int| 0 <= i < a.len() implies a[i] == b[i] by {
        assert(digest::hex(a)[2 * i] == digest::hex(b)[2 * i]);
        assert(digest::hex(a)[2 * i + 1] == digest::hex(b)[2 * i + 1]);
        assert((2 * i) % 2 == 0 && (2 * i) / 2 == i && (2 * i + 1) % 2 == 1 && (2 * i + 1) / 2 == i);
    }
    assert(a =~= b);
}

} // verus!
