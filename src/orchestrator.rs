//! Tool-call approval and the orchestration of one user-message turn.
//!
//! A turn holds the calls that the reasoning service proposed. Calls whose
//! name needs approval are parked; the others are handed out one at a time to
//! be run through the protocol client, and their outcomes are recorded.

use vstd::prelude::*;
use crate::gate::{requires_approval, mentions_unsafe_keyword, lower_of};
use crate::markers::{ProposedCall, parse_tool_calls, proposed_calls, calls_view};
use crate::protocol::{opt_view, Tool};
use crate::server::tool_view;
use crate::text::{contains, contains_str, join_with, push_joined};

verus! {

/// Where a tool call stands.
#[derive(Clone, Copy, Debug, PartialEq, Eq, Structural)]
pub enum ToolCallStatus {
    PendingApproval,
    Approved,
    Executed,
    Failed,
}

/// Where the orchestrator stands in a turn.
#[derive(Clone, Copy, Debug, PartialEq, Eq, Structural)]
pub enum OrchestratorStatus {
    Thinking,
    CallingTool,
    WaitingApproval,
    Processing,
    Completed,
}

/// The record of one tool call.
pub struct ToolCallResult {
    pub tool_name: String,
    /// JSON text of the arguments object.
    pub arguments: String,
    pub status: ToolCallStatus,
    /// JSON text of what the tool returned.
    pub result: Option<String>,
    pub error: Option<String>,
}

/// What the protocol client gave back for a call.
pub enum CallOutcome {
    /// The tool returned this JSON text.
    Returned(String),
    /// The call failed with this message.
    Failed(String),
    /// No protocol client is connected.
    NoClient,
}

/// The message of a parked call.
pub open spec fn approval_message() -> Seq<char> {
    "This action requires approval"@
}

/// The message of a call made without a connected client.
pub open spec fn no_client_message() -> Seq<char> {
    "MCP client not available"@
}

/// A call with this name waits for approval.
pub open spec fn gated(name: Seq<char>) -> bool {
    mentions_unsafe_keyword(lower_of(name))
}

/// `r` records the call `c` as parked for approval: no result, and a message
/// saying why.
pub open spec fn is_parked(r: ToolCallResult, c: (Seq<char>, Seq<char>)) -> bool {
    &&& r.tool_name@ == c.0
    &&& r.arguments@ == c.1
    &&& r.status == ToolCallStatus::PendingApproval
    &&& r.result is None
    &&& opt_view(r.error) == Some(approval_message())
}

/// `r` records the call `c` as run with `outcome`, where `success` is the
/// status that a returned value earns.
pub open spec fn is_recorded(
    r: ToolCallResult,
    c: (Seq<char>, Seq<char>),
    outcome: CallOutcome,
    success: ToolCallStatus,
) -> bool {
    &&& r.tool_name@ == c.0
    &&& r.arguments@ == c.1
    &&& match outcome {
        CallOutcome::Returned(v) => {
            &&& r.status == success
            &&& opt_view(r.result) == Some(v@)
            &&& r.error is None
        },
        CallOutcome::Failed(m) => {
            &&& r.status == ToolCallStatus::Failed
            &&& r.result is None
            &&& opt_view(r.error) == Some(m@)
        },
        CallOutcome::NoClient => {
            &&& r.status == ToolCallStatus::Failed
            &&& r.result is None
            &&& opt_view(r.error) == Some(no_client_message())
        },
    }
}

/// `r` is a settled record of the call `c` in a turn: parked when its name
/// needs approval, and otherwise executed or failed.
pub open spec fn settles(r: ToolCallResult, c: (Seq<char>, Seq<char>)) -> bool {
    &&& r.tool_name@ == c.0
    &&& r.arguments@ == c.1
    &&& if gated(c.0) {
        is_parked(r, c)
    } else {
        r.status == ToolCallStatus::Executed || r.status == ToolCallStatus::Failed
    }
}

/// The record of a call that waits for approval.
pub fn parked_result(call: ProposedCall) -> (r: ToolCallResult)
    ensures
        is_parked(r, call@),
{
    ToolCallResult {
        tool_name: call.tool_name,
        arguments: call.arguments,
        status: ToolCallStatus::PendingApproval,
        result: None,
        error: Some("This action requires approval".to_owned()),
    }
}

/// The record of a call that was run with `outcome`; `success` is the status
/// that a returned value earns.
pub fn outcome_result(call: ProposedCall, outcome: CallOutcome, success: ToolCallStatus) -> (r: ToolCallResult)
    ensures
        is_recorded(r, call@, outcome, success),
{
    let ProposedCall { tool_name, arguments } = call;
    match outcome {
        CallOutcome::Returned(v) => ToolCallResult {
            tool_name,
            arguments,
            status: success,
            result: Some(v),
            error: None,
        },
        CallOutcome::Failed(m) => ToolCallResult {
            tool_name,
            arguments,
            status: ToolCallStatus::Failed,
            result: None,
            error: Some(m),
        },
        CallOutcome::NoClient => ToolCallResult {
            tool_name,
            arguments,
            status: ToolCallStatus::Failed,
            result: None,
            error: Some("MCP client not available".to_owned()),
        },
    }
}

/// Whether any record waits for approval; a turn with such a record is to be
/// surfaced apart from one that completed.
pub fn has_pending_approval(results: &Vec<ToolCallResult>) -> (r: bool)
    ensures
        r == exists|i: int| 0 <= i < results@.len() && results@[i].status == ToolCallStatus::PendingApproval,
{
    let mut i: usize = 0;
    while i < results.len()
        invariant
            i <= results@.len(),
            forall|j: int| 0 <= j < i ==> results@[j].status != ToolCallStatus::PendingApproval,
        decreases results@.len() - i,
    {
        if results[i].status == ToolCallStatus::PendingApproval {
            return true;
        }
        i = i + 1;
    }
    false
}

/// The tool calls of one turn and the records made of them so far.
pub struct Turn {
    calls: Vec<ProposedCall>,
    results: Vec<ToolCallResult>,
    in_flight: bool,
}

impl Turn {
    /// The calls of the turn.
    pub closed spec fn calls(&self) -> Seq<(Seq<char>, Seq<char>)> {
        calls_view(self.calls@)
    }

    /// The records made so far, one for each of the first calls.
    pub closed spec fn records(&self) -> Seq<ToolCallResult> {
        self.results@
    }

    /// A call has been handed out and its outcome is awaited.
    pub closed spec fn awaiting(&self) -> bool {
        self.in_flight
    }

    /// Each record settles its call; a call handed out may run.
    pub open spec fn wf(&self) -> bool {
        &&& self.records().len() <= self.calls().len()
        &&& forall|i: int| 0 <= i < self.records().len() ==> settles(#[trigger] self.records()[i], self.calls()[i])
        &&& self.awaiting() ==> {
            &&& self.records().len() < self.calls().len()
            &&& !gated(self.calls()[self.records().len() as int].0)
        }
    }

    /// A turn over the given calls, with nothing recorded yet.
    pub fn from_calls(calls: Vec<ProposedCall>) -> (r: Turn)
        ensures
            r.wf(),
            r.calls() == calls_view(calls@),
            r.records().len() == 0,
            !r.awaiting(),
    {
        Turn { calls, results: Vec::new(), in_flight: false }
    }

    /// A turn over the calls that a reasoning-service reply proposes.
    pub fn from_reply(reply: &str) -> (r: Turn)
        ensures
            r.wf(),
            r.calls() == proposed_calls(reply@),
            r.records().len() == 0,
            !r.awaiting(),
    {
        Turn::from_calls(parse_tool_calls(reply))
    }

    /// Parks the calls that need approval, up to the next call that may run,
    /// and hands that one out. `None` when every call is recorded.
    pub fn next_call(&mut self) -> (r: Option<ProposedCall>)
        requires
            old(self).wf(),
            !old(self).awaiting(),
        ensures
            final(self).wf(),
            final(self).calls() == old(self).calls(),
            final(self).records().subrange(0, old(self).records().len() as int) == old(self).records(),
            forall|i: int|
                old(self).records().len() <= i < final(self).records().len()
                    ==> #[trigger] gated(final(self).calls()[i].0),
            match r {
                Some(c) => {
                    &&& final(self).awaiting()
                    &&& c@ == final(self).calls()[final(self).records().len() as int]
                    &&& !gated(c@.0)
                },
                None => {
                    &&& !final(self).awaiting()
                    &&& final(self).records().len() == final(self).calls().len()
                },
            },
    {
        let ghost old_records = self.results@;
        let ghost old_calls = self.calls@;
        let mut runnable = false;
        while !runnable && self.results.len() < self.calls.len()
            invariant
                self.wf(),
                !self.in_flight,
                self.calls@ == old_calls,
                self.results@.len() >= old_records.len(),
                self.results@.subrange(0, old_records.len() as int) == old_records,
                forall|i: int| old_records.len() <= i < self.results@.len() ==> #[trigger] gated(self.calls()[i].0),
                runnable ==> self.results@.len() < self.calls@.len() && !gated(self.calls()[self.results@.len() as int].0),
            decreases self.calls@.len() - self.results@.len(), if runnable { 0int } else { 1int },
        {
            let k = self.results.len();
            let ghost before = self.results@;
            assert(self.calls()[k as int] == self.calls@[k as int]@);
            if requires_approval(self.calls[k].tool_name.as_str()) {
                let c = ProposedCall {
                    tool_name: self.calls[k].tool_name.clone(),
                    arguments: self.calls[k].arguments.clone(),
                };
                let rec = parked_result(c);
                self.results.push(rec);
                assert(self.results@.subrange(0, old_records.len() as int) =~= before.subrange(0, old_records.len() as int));
                assert forall|i: int| 0 <= i < self.records().len() implies settles(#[trigger] self.records()[i], self.calls()[i]) by {
                    if i < k {
                        assert(self.records()[i] == before[i]);
                    }
                }
            } else {
                runnable = true;
            }
        }
        if runnable {
            let k = self.results.len();
            assert(self.calls()[k as int] == self.calls@[k as int]@);
            self.in_flight = true;
            Some(ProposedCall {
                tool_name: self.calls[k].tool_name.clone(),
                arguments: self.calls[k].arguments.clone(),
            })
        } else {
            None
        }
    }

    /// Records the outcome of the call that was handed out.
    pub fn record(&mut self, outcome: CallOutcome)
        requires
            old(self).wf(),
            old(self).awaiting(),
        ensures
            final(self).wf(),
            !final(self).awaiting(),
            final(self).calls() == old(self).calls(),
            final(self).records().len() == old(self).records().len() + 1,
            final(self).records().subrange(0, old(self).records().len() as int) == old(self).records(),
            is_recorded(
                final(self).records()[old(self).records().len() as int],
                old(self).calls()[old(self).records().len() as int],
                outcome,
                ToolCallStatus::Executed,
            ),
    {
        let k = self.results.len();
        let ghost before = self.results@;
        assert(self.calls()[k as int] == self.calls@[k as int]@);
        let c = ProposedCall {
            tool_name: self.calls[k].tool_name.clone(),
            arguments: self.calls[k].arguments.clone(),
        };
        let rec = outcome_result(c, outcome, ToolCallStatus::Executed);
        self.results.push(rec);
        self.in_flight = false;
        assert(self.results@.subrange(0, k as int) =~= before);
        assert forall|i: int| 0 <= i < self.records().len() implies settles(#[trigger] self.records()[i], self.calls()[i]) by {
            if i < k {
                assert(self.records()[i] == before[i]);
            }
        }
    }

    /// Whether every call of the turn is recorded.
    pub fn is_done(&self) -> (r: bool)
        requires
            self.wf(),
        ensures
            r == (self.records().len() == self.calls().len()),
    {
        self.results.len() == self.calls.len()
    }

    /// The records of the turn.
    pub fn into_results(self) -> (r: Vec<ToolCallResult>)
        ensures
            r@ == self.records(),
    {
        self.results
    }
}

/// A call that waits for approval is parked in every settled turn, whatever
/// outcomes were recorded: it is never run without an explicit approval.
pub proof fn lemma_gated_calls_parked(t: Turn, i: int)
    requires
        t.wf(),
        0 <= i < t.records().len(),
        gated(t.calls()[i].0),
    ensures
        is_parked(t.records()[i], t.calls()[i]),
        t.records()[i].result is None,
{
    assert(settles(t.records()[i], t.calls()[i]));
}

/// The host's connection settings for the reasoning service.
pub struct Orchestrator {
    pub api_key: String,
    pub api_base: String,
    pub model_name: String,
}

/// One segment of a structured reasoning-service reply.
pub enum ReplySegment {
    /// Prose.
    Text(String),
    /// A tool invocation, with the JSON text of its input.
    ToolUse { name: String, input: String },
    /// Any other segment, which carries nothing for the turn.
    Other,
}

/// The text that a segment contributes to the reply.
pub open spec fn segment_text(s: ReplySegment) -> Seq<char> {
    match s {
        ReplySegment::Text(t) => t@,
        ReplySegment::ToolUse { name, input } => "[TOOL_USE: "@ + name@ + " with args: "@ + input@ + "]"@,
        ReplySegment::Other => Seq::empty(),
    }
}

/// The reply text of a sequence of segments.
pub open spec fn segments_text(s: Seq<ReplySegment>) -> Seq<char>
    decreases s.len(),
{
    if s.len() == 0 {
        Seq::empty()
    } else {
        segments_text(s.drop_last()) + segment_text(s.last())
    }
}

/// The reply as one text: prose as it is, and each tool invocation in the
/// marker form `[TOOL_USE: <name> with args: <json>]`.
pub fn reply_text(segments: &Vec<ReplySegment>) -> (r: String)
    ensures
        r@ == segments_text(segments@),
{
    let mut out = String::new();
    let mut i: usize = 0;
    while i < segments.len()
        invariant
            i <= segments@.len(),
            out@ == segments_text(segments@.subrange(0, i as int)),
        decreases segments@.len() - i,
    {
        let ghost before = out@;
        match &segments[i] {
            ReplySegment::Text(t) => out.append(t.as_str()),
            ReplySegment::ToolUse { name, input } => {
                out.append("[TOOL_USE: ");
                out.append(name.as_str());
                out.append(" with args: ");
                out.append(input.as_str());
                out.append("]");
            },
            ReplySegment::Other => {},
        }
        proof {
            let next = segments@.subrange(0, i + 1);
            assert(next.drop_last() =~= segments@.subrange(0, i as int));
            assert(next.last() == segments@[i as int]);
            assert(out@ =~= before + segment_text(segments@[i as int]));
        }
        i = i + 1;
    }
    assert(segments@.subrange(0, segments@.len() as int) =~= segments@);
    out
}

/// How a tool is described to the reasoning service.
pub open spec fn prompt_entry(t: (Seq<char>, Seq<char>, Seq<char>)) -> Seq<char> {
    "{\"name\": \""@ + t.0 + "\", \"description\": \""@ + t.1 + "\", \"input_schema\": "@ + t.2 + "}"@
}

/// The opening of the system instruction.
pub open spec fn prompt_head() -> Seq<char> {
    "You are an AI assistant that can interact with local system tools through the Model Context Protocol (MCP).\nAvailable tools:\n[\n"@
}

/// The close of the tool list and the fixed rules.
pub open spec fn prompt_rules() -> Seq<char> {
    "\n]\n\nWhen responding to user queries, if you need to perform an action, use the appropriate tool by calling it with the required arguments.\nFollow these rules:\n1. Always use the exact tool names as provided.\n2. Provide all required arguments according to the input schema.\n3. For potentially destructive actions (containing 'write', 'delete', 'move'), ask for confirmation before executing.\n4. To search for local files, use the 'search_local_files' tool with a query parameter.\n5. Respond with plain text when providing explanations or summaries."@
}

/// The system instruction for a tool catalog: every tool's name, description
/// and input schema, then the fixed rules.
pub open spec fn system_prompt(tools: Seq<(Seq<char>, Seq<char>, Seq<char>)>) -> Seq<char> {
    prompt_head() + join_with(tools.map_values(|t| prompt_entry(t)), ",\n"@) + prompt_rules()
}

fn prompt_entry_of(t: &Tool) -> (r: String)
    ensures
        r@ == prompt_entry(tool_view(*t)),
{
    let mut out = "{\"name\": \"".to_owned();
    out.append(t.name.as_str());
    out.append("\", \"description\": \"");
    out.append(t.description.as_str());
    out.append("\", \"input_schema\": ");
    out.append(t.input_schema.as_str());
    out.append("}");
    assert(out@ =~= prompt_entry(tool_view(*t)));
    out
}

impl Orchestrator {
    /// An orchestrator with the given connection settings.
    pub fn new(api_key: String, api_base: String, model_name: String) -> (r: Self)
        ensures
            r.api_key == api_key,
            r.api_base == api_base,
            r.model_name == model_name,
    {
        Orchestrator { api_key, api_base, model_name }
    }

    /// Starts the one-call turn of a proposed tool call: once it is driven
    /// with `next_call` and `record`, its record is parked for approval when
    /// the name needs it, and executed or failed otherwise.
    pub fn execute_tool_call(&self, tool_name: String, arguments: String) -> (r: Turn)
        ensures
            r.wf(),
            r.calls() == seq![(tool_name@, arguments@)],
            r.records().len() == 0,
            !r.awaiting(),
    {
        let mut calls: Vec<ProposedCall> = Vec::new();
        calls.push(ProposedCall { tool_name, arguments });
        let r = Turn::from_calls(calls);
        assert(r.calls() =~= seq![(tool_name@, arguments@)]);
        r
    }

    /// The record of an explicitly approved call, which is run without the
    /// approval rule: `Approved` when the tool returned, `Failed` otherwise.
    pub fn approve_tool_call(&self, tool_name: String, arguments: String, outcome: CallOutcome) -> (r: ToolCallResult)
        ensures
            is_recorded(r, (tool_name@, arguments@), outcome, ToolCallStatus::Approved),
    {
        outcome_result(ProposedCall { tool_name, arguments }, outcome, ToolCallStatus::Approved)
    }

    /// Whether the service speaks the structured-content dialect: its base
    /// address names one of the two vendors that do.
    pub fn uses_structured_replies(&self) -> (r: bool)
        ensures
            r == (contains(self.api_base@, "anthropic.com"@) || contains(self.api_base@, "openai.com"@)),
    {
        contains_str(self.api_base.as_str(), "anthropic.com") || contains_str(self.api_base.as_str(), "openai.com")
    }

    /// The address to post to: `<base>/messages` for the structured dialect,
    /// the base itself otherwise.
    pub fn endpoint(&self) -> (r: String)
        ensures
            r@ == if contains(self.api_base@, "anthropic.com"@) || contains(self.api_base@, "openai.com"@) {
                self.api_base@ + "/messages"@
            } else {
                self.api_base@
            },
    {
        let mut url = self.api_base.clone();
        if self.uses_structured_replies() {
            url.append("/messages");
        }
        url
    }

    /// The system instruction that describes the tool catalog.
    pub fn build_system_prompt(&self, tools: &Vec<Tool>) -> (r: String)
        ensures
            r@ == system_prompt(tools@.map_values(|t: Tool| tool_view(t))),
    {
        let mut entries: Vec<String> = Vec::new();
        let mut i: usize = 0;
        while i < tools.len()
            invariant
                i <= tools@.len(),
                entries@.map_values(|s: String| s@) =~= tools@.subrange(0, i as int).map_values(
                    |t: Tool| prompt_entry(tool_view(t)),
                ),
            decreases tools@.len() - i,
        {
            let ghost prev = entries@;
            entries.push(prompt_entry_of(&tools[i]));
            assert(entries@.map_values(|s: String| s@) =~= prev.map_values(|s: String| s@).push(entries@[i as int]@));
            assert(tools@.subrange(0, i + 1).map_values(|t: Tool| prompt_entry(tool_view(t))) =~= tools@.subrange(
                0,
                i as int,
            ).map_values(|t: Tool| prompt_entry(tool_view(t))).push(prompt_entry(tool_view(tools@[i as int]))));
            i = i + 1;
        }
        assert(tools@.subrange(0, tools@.len() as int) =~= tools@);
        assert(tools@.map_values(|t: Tool| tool_view(t)).map_values(|t| prompt_entry(t)) =~= tools@.map_values(
            |t: Tool| prompt_entry(tool_view(t)),
        ));
        let mut out = "You are an AI assistant that can interact with local system tools through the Model Context Protocol (MCP).\nAvailable tools:\n[\n".to_owned();
        push_joined(&mut out, &entries, ",\n");
        out.append("\n]\n\nWhen responding to user queries, if you need to perform an action, use the appropriate tool by calling it with the required arguments.\nFollow these rules:\n1. Always use the exact tool names as provided.\n2. Provide all required arguments according to the input schema.\n3. For potentially destructive actions (containing 'write', 'delete', 'move'), ask for confirmation before executing.\n4. To search for local files, use the 'search_local_files' tool with a query parameter.\n5. Respond with plain text when providing explanations or summaries.");
        out
    }
}

} // verus!
