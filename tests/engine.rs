use local_pilot::client::{begin_request, finish_wait, take_result, BeginError, ClientError, WaitOutcome};
use local_pilot::correlator::PendingTable;
use local_pilot::envelope::{decode_request, encode_request, request_line};
use local_pilot::gate::{mentions_unsafe, requires_approval};
use local_pilot::json::{is_json_object, str_field};
use local_pilot::markers::{parse_tool_calls, ProposedCall};
use local_pilot::orchestrator::{
    has_pending_approval, reply_text, CallOutcome, Orchestrator, ReplySegment,
    ToolCallStatus, Turn,
};
use local_pilot::protocol::{RequestMessage, ResponseMessage, Tool};
use local_pilot::server::{available_tools, file_read_response, Dispatch, McpServer};
use local_pilot::text::{contains_str, find_from, starts_with, str_eq};

fn response(id: Option<&str>, result: &str) -> ResponseMessage {
    ResponseMessage { id: id.map(|s| s.to_string()), result: Some(result.to_string()), error: None }
}

fn answer(d: Dispatch) -> ResponseMessage {
    match d {
        Dispatch::Respond(r) => r,
        Dispatch::ReadFile(p) => panic!("unexpected file read of {}", p),
    }
}

#[test]
fn approval_needed_for_destructive_names() {
    assert!(requires_approval("write_file"));
    assert!(requires_approval("rm_dir"));
    assert!(requires_approval("Rename"));
    assert!(requires_approval("DELETE_ALL"));
    assert!(!requires_approval("ping"));
    assert!(!requires_approval("read_file"));
    assert!(!requires_approval(""));
}

#[test]
fn keyword_check_is_case_sensitive_on_lowered_input() {
    assert!(mentions_unsafe("modify"));
    assert!(!mentions_unsafe("MODIFY"));
}

#[test]
fn search_helpers() {
    assert_eq!(find_from("abcabc", "bc", 0), Some(1));
    assert_eq!(find_from("abcabc", "bc", 2), Some(4));
    assert_eq!(find_from("abcabc", "bd", 0), None);
    assert_eq!(find_from("ab", "abc", 0), None);
    assert!(contains_str("héllo wörld", "wö"));
    assert!(!contains_str("", "a"));
    assert!(str_eq("tools/list", "tools/list"));
    assert!(!str_eq("tools/list", "tools/call"));
    assert!(starts_with("local://x", "local://"));
    assert!(!starts_with("http://x", "local://"));
}

#[test]
fn concurrent_responses_reach_their_own_waiters() {
    let mut table: PendingTable<u32> = PendingTable::new();
    assert!(table.register("A".to_string(), 1).is_ok());
    assert!(table.register("B".to_string(), 2).is_ok());
    assert!(table.register("C".to_string(), 3).is_ok());
    assert_eq!(table.len(), 3);
    let (slot, resp) = table.route(Some(response(Some("C"), "\"c\""))).unwrap();
    assert_eq!(slot, 3);
    assert_eq!(resp.result.as_deref(), Some("\"c\""));
    let (slot, resp) = table.route(Some(response(Some("A"), "\"a\""))).unwrap();
    assert_eq!(slot, 1);
    assert_eq!(resp.result.as_deref(), Some("\"a\""));
    // a duplicate delivery finds nothing
    assert!(table.route(Some(response(Some("A"), "\"again\""))).is_none());
    let (slot, resp) = table.route(Some(response(Some("B"), "\"b\""))).unwrap();
    assert_eq!(slot, 2);
    assert_eq!(resp.result.as_deref(), Some("\"b\""));
    assert!(table.is_empty());
}

#[test]
fn duplicate_identifier_is_refused() {
    let mut table: PendingTable<u32> = PendingTable::new();
    assert!(table.register("A".to_string(), 1).is_ok());
    assert_eq!(table.register("A".to_string(), 9), Err(9));
    assert_eq!(table.len(), 1);
    assert_eq!(table.take("A"), Some(1));
}

#[test]
fn timed_out_request_leaves_no_entry() {
    let mut table: PendingTable<u32> = PendingTable::new();
    let (id, _line) = match begin_request(&mut table, RequestMessage::Ping {}, 7) {
        Ok(v) => v,
        Err(_) => panic!("fresh identifier refused"),
    };
    assert!(table.contains(&id));
    assert_eq!(table.len(), 1);
    let r = finish_wait(&mut table, &id, WaitOutcome::TimedOut);
    assert!(matches!(r, Err(ClientError::Timeout)));
    assert_eq!(table.len(), 0);
    assert!(!table.contains(&id));
}

#[test]
fn closed_slot_fails_and_clears() {
    let mut table: PendingTable<u32> = PendingTable::new();
    table.register("X".to_string(), 1).unwrap();
    let r = finish_wait(&mut table, "X", WaitOutcome::Closed);
    assert!(matches!(r, Err(ClientError::Closed)));
    assert!(table.is_empty());
}

#[test]
fn reply_settles_the_wait() {
    let mut table: PendingTable<u32> = PendingTable::new();
    table.register("X".to_string(), 1).unwrap();
    let (_, resp) = table.route(Some(response(Some("X"), "[]"))).unwrap();
    let r = finish_wait(&mut table, "X", WaitOutcome::Replied(resp)).ok().unwrap();
    assert_eq!(take_result(r).ok().unwrap(), "[]");
    assert!(table.is_empty());
}

#[test]
fn garbage_lines_do_not_disturb_waiters() {
    let mut table: PendingTable<u32> = PendingTable::new();
    table.register("A".to_string(), 1).unwrap();
    table.register("B".to_string(), 2).unwrap();
    assert!(table.route(None).is_none());
    assert!(table.route(Some(response(None, "1"))).is_none());
    assert!(table.route(Some(response(Some("zzz"), "1"))).is_none());
    assert_eq!(table.len(), 2);
    assert_eq!(table.route(Some(response(Some("B"), "2"))).unwrap().0, 2);
    assert!(table.route(None).is_none());
    assert_eq!(table.route(Some(response(Some("A"), "1"))).unwrap().0, 1);
    assert!(table.is_empty());
}

#[test]
fn missing_result_is_a_protocol_error() {
    let resp = ResponseMessage { id: Some("A".to_string()), result: None, error: None };
    match take_result(resp) {
        Err(ClientError::Protocol(m)) => assert_eq!(m, "No result in response"),
        _ => panic!("expected a protocol error"),
    }
}

#[test]
fn tool_call_round_trip() {
    let req = RequestMessage::ToolCall { name: "ping_tool".to_string(), arguments: Some("{}".to_string()) };
    let wire = encode_request(req, "id-1".to_string());
    assert_eq!(wire.method, "tools/call");
    assert_eq!(wire.id, "id-1");
    match decode_request(&wire) {
        Some(RequestMessage::ToolCall { name, arguments }) => {
            assert_eq!(name, "ping_tool");
            assert_eq!(arguments.as_deref(), Some("{}"));
        },
        _ => panic!("round trip lost the request"),
    }
}

#[test]
fn request_lines_are_exact() {
    let req = RequestMessage::ToolCall { name: "ping_tool".to_string(), arguments: Some("{}".to_string()) };
    let line = request_line(&encode_request(req, "id-1".to_string()));
    assert_eq!(
        line,
        "{\"jsonrpc\":\"2.0\",\"id\":\"id-1\",\"method\":\"tools/call\",\"params\":{\"name\":\"ping_tool\",\"arguments\":{}}}"
    );
    let line = request_line(&encode_request(RequestMessage::ToolsList {}, "7".to_string()));
    assert_eq!(line, "{\"jsonrpc\":\"2.0\",\"id\":\"7\",\"method\":\"tools/list\"}");
    let req = RequestMessage::ResourceRead { uri: "a\"b".to_string() };
    let line = request_line(&encode_request(req, "7".to_string()));
    assert_eq!(
        line,
        "{\"jsonrpc\":\"2.0\",\"id\":\"7\",\"method\":\"resources/read\",\"params\":{\"uri\":\"a\\\"b\"}}"
    );
}

#[test]
fn every_variant_round_trips() {
    let reqs = vec![
        RequestMessage::ToolsList {},
        RequestMessage::ToolCall { name: "t".to_string(), arguments: None },
        RequestMessage::ResourcesList {},
        RequestMessage::ResourceRead { uri: "local://a".to_string() },
        RequestMessage::ResourceSubscribe { uri: "local://b".to_string() },
        RequestMessage::ResourceUnsubscribe { uri: "local://c".to_string() },
        RequestMessage::Ping {},
    ];
    let methods = [
        "tools/list",
        "tools/call",
        "resources/list",
        "resources/read",
        "resources/subscribe",
        "resources/unsubscribe",
        "ping",
    ];
    for (req, m) in reqs.into_iter().zip(methods.iter()) {
        let wire = encode_request(req, "i".to_string());
        assert_eq!(wire.method, *m);
        assert!(decode_request(&wire).is_some());
    }
}

#[test]
fn begin_request_registers_and_frames() {
    let mut table: PendingTable<u8> = PendingTable::new();
    let (id, line) = match begin_request(&mut table, RequestMessage::ResourcesList {}, 5) {
        Ok(v) => v,
        Err(_) => panic!("fresh identifier refused"),
    };
    assert_eq!(id.len(), 36);
    assert_eq!(line, format!("{{\"jsonrpc\":\"2.0\",\"id\":\"{}\",\"method\":\"resources/list\"}}", id));
    assert_eq!(table.take(&id), Some(5));
}

#[test]
fn gated_call_is_parked_and_never_handed_out() {
    let calls = vec![ProposedCall { tool_name: "delete_file".to_string(), arguments: "{\"path\":\"/tmp/x\"}".to_string() }];
    let mut turn = Turn::from_calls(calls);
    assert!(turn.next_call().is_none());
    assert!(turn.is_done());
    let results = turn.into_results();
    assert_eq!(results.len(), 1);
    assert_eq!(results[0].status, ToolCallStatus::PendingApproval);
    assert!(results[0].result.is_none());
    assert_eq!(results[0].error.as_deref(), Some("This action requires approval"));
    assert!(has_pending_approval(&results));
}

#[test]
fn single_call_turns() {
    let o = Orchestrator::new("k".to_string(), "b".to_string(), "m".to_string());
    let mut t = o.execute_tool_call("delete_file".to_string(), "{}".to_string());
    assert!(t.next_call().is_none());
    assert_eq!(t.into_results()[0].status, ToolCallStatus::PendingApproval);
    let mut t = o.execute_tool_call("read_file".to_string(), "{}".to_string());
    assert_eq!(t.next_call().unwrap().tool_name, "read_file");
    t.record(CallOutcome::Returned("1".to_string()));
    let r = t.into_results();
    assert_eq!(r[0].status, ToolCallStatus::Executed);
    assert_eq!(r[0].result.as_deref(), Some("1"));
}

#[test]
fn safe_call_is_executed_with_its_result() {
    let calls = vec![ProposedCall { tool_name: "read_file".to_string(), arguments: "{\"path\":\"/tmp/x\"}".to_string() }];
    let mut turn = Turn::from_calls(calls);
    let c = turn.next_call().unwrap();
    assert_eq!(c.tool_name, "read_file");
    turn.record(CallOutcome::Returned("{\"content\":\"hi\"}".to_string()));
    assert!(turn.next_call().is_none());
    let results = turn.into_results();
    assert_eq!(results.len(), 1);
    assert_eq!(results[0].status, ToolCallStatus::Executed);
    assert_eq!(results[0].result.as_deref(), Some("{\"content\":\"hi\"}"));
    assert!(!has_pending_approval(&results));
}

#[test]
fn failed_calls_are_recorded_not_fatal() {
    let calls = vec![
        ProposedCall { tool_name: "web_search".to_string(), arguments: "{}".to_string() },
        ProposedCall { tool_name: "move_file".to_string(), arguments: "{}".to_string() },
        ProposedCall { tool_name: "file_reader".to_string(), arguments: "{}".to_string() },
    ];
    let mut turn = Turn::from_calls(calls);
    assert_eq!(turn.next_call().unwrap().tool_name, "web_search");
    turn.record(CallOutcome::Failed("Timeout waiting for response".to_string()));
    assert_eq!(turn.next_call().unwrap().tool_name, "file_reader");
    turn.record(CallOutcome::NoClient);
    assert!(turn.next_call().is_none());
    let results = turn.into_results();
    let statuses: Vec<ToolCallStatus> = results.iter().map(|r| r.status).collect();
    assert_eq!(statuses, vec![ToolCallStatus::Failed, ToolCallStatus::PendingApproval, ToolCallStatus::Failed]);
    assert_eq!(results[0].error.as_deref(), Some("Timeout waiting for response"));
    assert_eq!(results[2].error.as_deref(), Some("MCP client not available"));
}

#[test]
fn approval_overrides_the_rule() {
    let o = Orchestrator::new("k".to_string(), "b".to_string(), "m".to_string());
    let r = o.approve_tool_call("delete_file".to_string(), "{}".to_string(), CallOutcome::Returned("true".to_string()));
    assert_eq!(r.status, ToolCallStatus::Approved);
    assert_eq!(r.result.as_deref(), Some("true"));
    let r = o.approve_tool_call("delete_file".to_string(), "{}".to_string(), CallOutcome::Failed("boom".to_string()));
    assert_eq!(r.status, ToolCallStatus::Failed);
    assert_eq!(r.error.as_deref(), Some("boom"));
}

#[test]
fn reply_to_executed_search_end_to_end() {
    let server = McpServer::new();
    let catalog = available_tools();
    assert!(catalog.iter().any(|t| t.name == "search_local_files"));
    let reply = "I will look. [TOOL_USE: search_local_files with args: {\"query\":\"report\"}]";
    let mut turn = Turn::from_reply(reply);
    let mut table: PendingTable<()> = PendingTable::new();
    while let Some(call) = turn.next_call() {
        let req = RequestMessage::ToolCall { name: call.tool_name, arguments: Some(call.arguments) };
        let (id, line) = match begin_request(&mut table, req, ()) {
            Ok(v) => v,
            Err(_) => panic!("fresh identifier refused"),
        };
        assert!(line.contains("search_local_files"));
        let wire = encode_request(
            RequestMessage::ToolCall { name: "search_local_files".to_string(), arguments: Some("{\"query\":\"report\"}".to_string()) },
            id.clone(),
        );
        let mut resp = answer(server.handle_request(decode_request(&wire).unwrap()));
        resp.id = Some(id.clone());
        let (_, resp) = table.route(Some(resp)).unwrap();
        let outcome = match finish_wait(&mut table, &id, WaitOutcome::Replied(resp)).and_then(take_result) {
            Ok(v) => CallOutcome::Returned(v),
            Err(_) => CallOutcome::Failed("call failed".to_string()),
        };
        turn.record(outcome);
    }
    let results = turn.into_results();
    assert_eq!(results.len(), 1);
    assert_eq!(results[0].tool_name, "search_local_files");
    assert_eq!(results[0].status, ToolCallStatus::Executed);
    assert_eq!(results[0].arguments, "{\"query\":\"report\"}");
    assert!(table.is_empty());
}

#[test]
fn every_marker_is_read() {
    let reply = "a [TOOL_USE: one with args: {\"x\":[1]}] then [TOOL_USE: two with args: [1,2]] and [TOOL_USE: three with args: {}] end\n[TOOL_USE: four with args: {\"y\":\"]\"}]";
    let calls = parse_tool_calls(reply);
    assert_eq!(calls.len(), 3);
    assert_eq!(calls[0].tool_name, "one");
    assert_eq!(calls[0].arguments, "{\"x\":[1]}");
    assert_eq!(calls[1].tool_name, "three");
    assert_eq!(calls[1].arguments, "{}");
    assert_eq!(calls[2].tool_name, "four");
    assert_eq!(calls[2].arguments, "{\"y\":\"]\"}");
    let calls = parse_tool_calls("[TOOL_USE: a with args: {}] ok");
    assert_eq!(calls.len(), 1);
    assert_eq!(calls[0].tool_name, "a");
    assert!(parse_tool_calls("").is_empty());
    assert!(parse_tool_calls("just prose").is_empty());
    assert!(parse_tool_calls("[TOOL_USE: bad with args: {not json}]").is_empty());
    assert!(parse_tool_calls("[TOOL_USE: open with args: {}").is_empty());
}

#[test]
fn turn_runs_one_call_per_marker() {
    let mut turn = Turn::from_reply("[TOOL_USE: a with args: {}] ok [TOOL_USE: write_x with args: {\"p\":1}] and more");
    assert_eq!(turn.next_call().unwrap().tool_name, "a");
    turn.record(CallOutcome::Returned("1".to_string()));
    assert!(turn.next_call().is_none());
    let results = turn.into_results();
    assert_eq!(results.len(), 2);
    assert_eq!(results[0].status, ToolCallStatus::Executed);
    assert_eq!(results[1].tool_name, "write_x");
    assert_eq!(results[1].arguments, "{\"p\":1}");
    assert_eq!(results[1].status, ToolCallStatus::PendingApproval);
}

#[test]
fn begin_request_refuses_bad_arguments() {
    let mut table: PendingTable<u8> = PendingTable::new();
    let req = RequestMessage::ToolCall { name: "t".to_string(), arguments: Some("[1]".to_string()) };
    match begin_request(&mut table, req, 4) {
        Err(BeginError::BadArguments(s)) => assert_eq!(s, 4),
        _ => panic!("expected a refusal"),
    }
    assert!(table.is_empty());
    let req = RequestMessage::ToolCall { name: "t".to_string(), arguments: Some("{\"a\":1}".to_string()) };
    let (id, line) = match begin_request(&mut table, req, 4) {
        Ok(v) => v,
        Err(_) => panic!("a well-formed request on an empty table must start"),
    };
    assert!(line.ends_with("\"params\":{\"name\":\"t\",\"arguments\":{\"a\":1}}}"));
    assert!(table.contains(&id));
}

#[test]
fn control_characters_are_escaped() {
    let req = RequestMessage::ResourceRead { uri: "a\n\t\u{1}\\".to_string() };
    let line = request_line(&encode_request(req, "7".to_string()));
    assert!(line.ends_with("\"params\":{\"uri\":\"a\\n\\t\\u0001\\\\\"}}"));
}

#[test]
fn structured_reply_becomes_marker_text() {
    let segs = vec![
        ReplySegment::Text("I will look. ".to_string()),
        ReplySegment::ToolUse { name: "web_search".to_string(), input: "{\"query\":\"x\"}".to_string() },
        ReplySegment::Other,
    ];
    let text = reply_text(&segs);
    assert_eq!(text, "I will look. [TOOL_USE: web_search with args: {\"query\":\"x\"}]");
    let calls = parse_tool_calls(&text);
    assert_eq!(calls.len(), 1);
    assert_eq!(calls[0].tool_name, "web_search");
}

#[test]
fn dispatcher_answers_every_request() {
    let server = McpServer::new();
    let r = answer(server.handle_request(RequestMessage::Ping {}));
    assert_eq!(r.result.as_deref(), Some("\"pong\""));
    assert!(r.error.is_none());
    let r = answer(server.handle_request(RequestMessage::ResourceSubscribe { uri: "local://a".to_string() }));
    assert_eq!(r.result.as_deref(), Some("{\"subscribed\":true,\"uri\":\"local://a\"}"));
    let r = answer(server.handle_request(RequestMessage::ResourceUnsubscribe { uri: "local://a".to_string() }));
    assert_eq!(r.result.as_deref(), Some("{\"unsubscribed\":true,\"uri\":\"local://a\"}"));
    let r = answer(server.handle_request(RequestMessage::ResourceRead { uri: "local://workspace".to_string() }));
    assert_eq!(r.result.as_deref(), Some("{\"content\":\"Content of resource: local://workspace\"}"));
    let r = answer(server.handle_request(RequestMessage::ResourceRead { uri: "http://x".to_string() }));
    assert!(r.result.is_none());
    let e = r.error.unwrap();
    assert_eq!(e.code, -1);
    assert_eq!(e.message, "Unsupported URI scheme");
    let r = answer(server.handle_request(RequestMessage::ResourcesList {}));
    assert!(r.result.unwrap().starts_with("[{\"uri\":\"local://workspace\",\"name\":"));
    let r = answer(server.handle_request(RequestMessage::ToolsList {}));
    let text = r.result.unwrap();
    assert!(text.starts_with("[{\"name\":\"file_reader\","));
    for name in ["file_reader", "shell_executor", "web_search", "search_local_files"] {
        assert!(text.contains(name));
    }
}

#[test]
fn dispatcher_tool_calls() {
    let server = McpServer::new();
    let r = answer(server.handle_request(RequestMessage::ToolCall { name: "nope".to_string(), arguments: None }));
    assert_eq!(r.error.unwrap().message, "Unknown tool: nope");
    let r = answer(server.handle_request(RequestMessage::ToolCall {
        name: "shell_executor".to_string(),
        arguments: Some("{\"command\":\"ls -l\"}".to_string()),
    }));
    assert_eq!(r.result.as_deref(), Some("{\"command\":\"ls -l\",\"output\":\"Command executed\",\"success\":true}"));
    let r = answer(server.handle_request(RequestMessage::ToolCall { name: "web_search".to_string(), arguments: None }));
    assert_eq!(r.result.as_deref(), Some("{\"query\":\"\",\"results\":[]}"));
    match server.handle_request(RequestMessage::ToolCall {
        name: "file_reader".to_string(),
        arguments: Some("{\"path\":\"/etc/hosts\"}".to_string()),
    }) {
        Dispatch::ReadFile(p) => assert_eq!(p, "/etc/hosts"),
        Dispatch::Respond(_) => panic!("expected a file read"),
    }
    let r = file_read_response("/a", Ok("x\ny".to_string()));
    assert_eq!(r.result.as_deref(), Some("{\"content\":\"x\\ny\",\"path\":\"/a\"}"));
    let r = file_read_response("/a", Err("No such file".to_string()));
    assert_eq!(r.error.unwrap().message, "No such file");
}

#[test]
fn system_prompt_lists_the_tools() {
    let o = Orchestrator::new("k".to_string(), "https://api.anthropic.com/v1".to_string(), "m".to_string());
    assert!(o.uses_structured_replies());
    assert_eq!(o.endpoint(), "https://api.anthropic.com/v1/messages");
    let other = Orchestrator::new("k".to_string(), "http://localhost:8080/chat".to_string(), "m".to_string());
    assert!(!other.uses_structured_replies());
    assert_eq!(other.endpoint(), "http://localhost:8080/chat");
    let tools = vec![
        Tool { name: "a".to_string(), description: "d1".to_string(), input_schema: "{}".to_string() },
        Tool { name: "b".to_string(), description: "d2".to_string(), input_schema: "{\"type\":\"object\"}".to_string() },
    ];
    let p = o.build_system_prompt(&tools);
    assert!(p.starts_with("You are an AI assistant"));
    assert!(p.contains("[\n{\"name\": \"a\", \"description\": \"d1\", \"input_schema\": {}},\n{\"name\": \"b\", \"description\": \"d2\", \"input_schema\": {\"type\":\"object\"}}\n]"));
    assert!(p.ends_with("5. Respond with plain text when providing explanations or summaries."));
    let empty = o.build_system_prompt(&Vec::new());
    assert!(empty.contains("Available tools:\n[\n\n]"));
}

#[test]
fn json_object_members() {
    assert!(is_json_object("{}"));
    assert!(is_json_object(" {\"a\": [1, 2]} "));
    assert!(!is_json_object("[1]"));
    assert!(!is_json_object("{not json}"));
    assert_eq!(str_field("{\"a\":\"x\",\"b\":1}", "a").as_deref(), Some("x"));
    assert_eq!(str_field("{\"a\":\"x\",\"b\":1}", "b"), None);
    assert_eq!(str_field("{\"a\":\"x\"}", "c"), None);
    assert_eq!(str_field("\"a\"", "a"), None);
}
