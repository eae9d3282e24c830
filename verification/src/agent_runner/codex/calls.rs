//! How an agent is called and what is made of what it wrote.

use vstd::prelude::*;

use crate::agent_runner::codex;
use crate::agent_runner::codex::{CallEvent, CallStage, CallStep, ChildPoll};
use crate::json;
use crate::json::JsonTree;

verus! {

/// A call that goes on with a session names it, and one that begins a session names none; either
/// hands over the trigger last.
pub proof fn call_names_its_session(session: Seq<char>, trigger: JsonTree)
    ensures
        ({
            let resumed = codex::run_args(Some(session), trigger);
            &&& resumed.len() == 5
            &&& resumed[0] == "exec"@
            &&& resumed[1] == "resume"@
            &&& resumed[3] == session
            &&& resumed[4] == json::json_text_of(trigger)
        }),
        ({
            let begun = codex::run_args(None, trigger);
            &&& begun[0] == "exec"@
            &&& begun[1] == "--json"@
            &&& begun.last() == json::json_text_of(trigger)
        }),
{
}

/// A new session works in the workspace that the trigger names, under the profile that it names.
pub proof fn session_begins_in_its_workspace(
    trigger: JsonTree,
    workspace: Seq<char>,
    profile: Seq<char>,
)
    requires
        json::member(trigger, "workspace"@) == Some(JsonTree::Text(workspace)),
        json::member(trigger, "runtimeProfile"@) == Some(JsonTree::Text(profile)),
        workspace.len() > 0,
        profile.len() > 0,
    ensures
        ({
            let begun = codex::run_args(None, trigger);
            &&& begun.len() == 8
            &&& begun[2] == "-C"@
            &&& begun[3] == workspace
            &&& begun[4] == "-p"@
            &&& begun[5] == profile
        }),
{
}

/// The agent is told the tool server of the call, and the rest of the trigger is handed on as it is.
pub proof fn trigger_names_the_server(
    trigger: Map<Seq<char>, JsonTree>,
    server: Seq<char>,
    key: Seq<char>,
)
    ensures
        ({
            let told = codex::trigger_with_server(JsonTree::Object(trigger), server);
            &&& json::member(told, "tradeAssemblyMcpServer"@) == Some(JsonTree::Text(server))
            &&& key != "tradeAssemblyMcpServer"@ && key != "tradeAssemblyMcpInstruction"@
                ==> json::member(told, key) == json::member(JsonTree::Object(trigger), key)
        }),
{
    reveal_strlit("tradeAssemblyMcpServer");
    reveal_strlit("tradeAssemblyMcpInstruction");
    assert("tradeAssemblyMcpServer"@.len() == 22);
    assert("tradeAssemblyMcpInstruction"@.len() == 27);
}

/// The session of a call is the one that the first line to name one names.
pub proof fn first_line_to_name_a_session_counts(lines: Seq<Seq<char>>, at: int)
    requires
        0 <= at < lines.len(),
        codex::line_session(lines[at]) is Some,
        forall|j: int| 0 <= j < at ==> codex::line_session(#[trigger] lines[j]) is None,
    ensures
        codex::first_session(lines) == codex::line_session(lines[at]),
    decreases lines.len(),
{
    if at > 0 {
        let rest = lines.skip(1);
        assert(codex::line_session(lines[0]) is None);
        assert(rest[at - 1] == lines[at]);
        assert forall|j: int| 0 <= j < at - 1 implies codex::line_session(
            #[trigger] rest[j],
        ) is None by {
            assert(rest[j] == lines[j + 1]);
        }
        first_line_to_name_a_session_counts(rest, at - 1);
    }
}

/// No session is found where no line names one.
pub proof fn no_line_names_a_session(lines: Seq<Seq<char>>)
    requires
        forall|j: int| 0 <= j < lines.len() ==> codex::line_session(#[trigger] lines[j]) is None,
    ensures
        codex::first_session(lines) is None,
    decreases lines.len(),
{
    if lines.len() > 0 {
        let rest = lines.skip(1);
        assert forall|j: int| 0 <= j < rest.len() implies codex::line_session(
            #[trigger] rest[j],
        ) is None by {
            assert(rest[j] == lines[j + 1]);
        }
        no_line_names_a_session(rest);
    }
}

/// A line names its session by the name of its thread before any other.
pub proof fn session_is_named_by_its_thread(tree: JsonTree, id: Seq<char>)
    ensures
        json::member(tree, "thread_id"@) == Some(JsonTree::Text(id)) ==> codex::session_named(tree)
            == Some(id),
        json::member(tree, "thread_id"@) is None && json::member(tree, "session_id"@) == Some(
            JsonTree::Text(id),
        ) ==> codex::session_named(tree) == Some(id),
        json::member(tree, "thread_id"@) is None && json::member(tree, "session_id"@) is None
            && json::member(tree, "threadId"@) == Some(JsonTree::Text(id))
            ==> codex::session_named(tree) == Some(id),
{
}

/// What a successful agent wrote is given as it is, an agent that failed gives nothing, and output
/// that is no text is a failure.
pub proof fn output_is_given_as_it_is(bytes: Vec<u8>, success: bool, r: CallStep)
    requires
        codex::call_leads_to(
            CallStage::Collecting { success },
            CallEvent::Output(Some(bytes)),
            r,
        ),
    ensures
        vstd::utf8::valid_utf8(bytes@) && success ==> (r matches CallStep::Finish(Ok(Some(body)))
            && body@ == vstd::utf8::decode_utf8(bytes@)),
        vstd::utf8::valid_utf8(bytes@) && !success ==> r == CallStep::Finish(Ok(None)),
        !vstd::utf8::valid_utf8(bytes@) ==> (r matches CallStep::Finish(Err(e)) && e@
            == "codex_cli_output_invalid"@),
{
}

/// An agent is waited for up to a quarter of an hour, and is ended from then on.
pub proof fn agent_is_waited_for_a_quarter_of_an_hour(elapsed_ms: u64, r: CallStep)
    requires
        codex::call_leads_to(
            CallStage::Waiting,
            CallEvent::Polled { child: ChildPoll::Running, elapsed_ms },
            r,
        ),
    ensures
        elapsed_ms < 900_000 ==> r == (CallStep::Ask {
            stage: CallStage::Waiting,
            action: codex::CallAction::PollLater,
        }),
        elapsed_ms >= 900_000 ==> (r matches CallStep::Ask { stage, action } && action
            == codex::CallAction::End && stage is Ending),
{
}

} // verus!
