//! The method dispatcher: answers decoded requests with well-formed responses.

use vstd::prelude::*;
use crate::protocol::{RequestMessage, RequestView, ResponseMessage, ResponseError, Tool, Resource, opt_view};
use crate::json::{
    str_member, raw_member, array_text, texts_view, array_of, str_field, str_field_of, push_str_member,
    push_raw_member,
};
use crate::text::{occurs_at, starts_with, str_eq};

verus! {

/// The dispatcher. It holds no state: the tool catalog is fixed.
pub struct McpServer {}

/// What the dispatcher does with a request: answer it, or read a file first
/// (the one built-in tool that touches the file system) and then answer with
/// [`file_read_response`].
pub enum Dispatch {
    Respond(ResponseMessage),
    ReadFile(String),
}

/// The catalog of built-in tools: name, description and input schema text.
pub open spec fn catalog() -> Seq<(Seq<char>, Seq<char>, Seq<char>)> {
    seq![
        ("file_reader"@, "读取本地文件内容"@, "{\"properties\":{\"path\":{\"description\":\"文件路径\",\"type\":\"string\"}},\"required\":[\"path\"],\"type\":\"object\"}"@),
        ("shell_executor"@, "在本地执行shell命令"@, "{\"properties\":{\"command\":{\"description\":\"要执行的命令\",\"type\":\"string\"}},\"required\":[\"command\"],\"type\":\"object\"}"@),
        ("web_search"@, "执行网络搜索"@, "{\"properties\":{\"query\":{\"description\":\"搜索查询\",\"type\":\"string\"}},\"required\":[\"query\"],\"type\":\"object\"}"@),
        ("search_local_files"@, "在本地文件索引中搜索文件"@, "{\"properties\":{\"query\":{\"description\":\"搜索查询（文件名或部分名称）\",\"type\":\"string\"}},\"required\":[\"query\"],\"type\":\"object\"}"@),
    ]
}

/// The advertised resources: uri, name and description.
pub open spec fn resource_catalog() -> Seq<(Seq<char>, Seq<char>, Seq<char>)> {
    seq![
        ("local://workspace"@, "工作空间"@, "本地工作空间目录"@),
        ("local://documents"@, "文档"@, "用户文档目录"@),
    ]
}

/// A tool's name, description and input schema text.
pub open spec fn tool_view(t: Tool) -> (Seq<char>, Seq<char>, Seq<char>) {
    (t.name@, t.description@, t.input_schema@)
}

/// A resource's uri, name and description.
pub open spec fn resource_view(r: Resource) -> (Seq<char>, Seq<char>, Seq<char>) {
    (r.uri@, r.name@, r.description@)
}

/// The JSON text of a tool.
pub open spec fn tool_text(t: (Seq<char>, Seq<char>, Seq<char>)) -> Seq<char> {
    "{"@ + str_member("name"@, t.0) + ","@ + str_member("description"@, t.1) + ","@ + raw_member("input_schema"@, t.2) + "}"@
}

/// The JSON text of a resource.
pub open spec fn resource_text(r: (Seq<char>, Seq<char>, Seq<char>)) -> Seq<char> {
    "{"@ + str_member("uri"@, r.0) + ","@ + str_member("name"@, r.1) + ","@ + str_member("description"@, r.2) + "}"@
}

/// A string argument of a tool call, or the empty string where it is missing.
pub open spec fn arg_or_empty(arguments: Option<Seq<char>>, key: Seq<char>) -> Seq<char> {
    match arguments {
        Some(a) => match str_field_of(a, key) {
            Some(v) => v,
            None => Seq::empty(),
        },
        None => Seq::empty(),
    }
}

/// The fixed answer of the local file search.
pub open spec fn local_files_text() -> Seq<char> {
    "[{\"created\":\"2023-01-01T00:00:00Z\",\"extension\":\"pdf\",\"is_directory\":false,\"modified\":\"2023-01-01T00:00:00Z\",\"name\":\"example.pdf\",\"path\":\"/Users/example/Downloads/example.pdf\",\"size\":1024000}]"@
}

/// The answer of the shell tool.
pub open spec fn shell_text(command: Seq<char>) -> Seq<char> {
    "{"@ + str_member("command"@, command) + ",\"output\":\"Command executed\",\"success\":true}"@
}

/// The answer of the web search tool.
pub open spec fn search_text(query: Seq<char>) -> Seq<char> {
    "{"@ + str_member("query"@, query) + ",\"results\":[]}"@
}

/// The answer of the file reader.
pub open spec fn file_text(path: Seq<char>, content: Seq<char>) -> Seq<char> {
    "{"@ + str_member("content"@, content) + ","@ + str_member("path"@, path) + "}"@
}

/// The content of a local resource.
pub open spec fn resource_content_text(uri: Seq<char>) -> Seq<char> {
    "{"@ + str_member("content"@, "Content of resource: "@ + uri) + "}"@
}

/// The acknowledgement of a (un)subscription; `flag` names which.
pub open spec fn subscription_text(flag: Seq<char>, uri: Seq<char>) -> Seq<char> {
    "{"@ + raw_member(flag, "true"@) + ","@ + str_member("uri"@, uri) + "}"@
}

/// `d` answers with a success response that carries the JSON text `text`.
pub open spec fn answers_ok(d: Dispatch, text: Seq<char>) -> bool {
    match d {
        Dispatch::Respond(r) => r.id is None && opt_view(r.result) == Some(text) && r.error is None,
        Dispatch::ReadFile(_) => false,
    }
}

/// A response that carries the error `{code: -1, message}`.
pub open spec fn is_error_response(r: ResponseMessage, message: Seq<char>) -> bool {
    &&& r.id is None
    &&& r.result is None
    &&& r.error is Some
    &&& r.error->0.code == -1
    &&& r.error->0.message@ == message
    &&& r.error->0.data is None
}

/// `d` answers with the error `{code: -1, message}`.
pub open spec fn answers_error(d: Dispatch, message: Seq<char>) -> bool {
    match d {
        Dispatch::Respond(r) => is_error_response(r, message),
        Dispatch::ReadFile(_) => false,
    }
}

/// What the dispatcher does with a call of the named tool.
pub open spec fn tool_dispatch(d: Dispatch, name: Seq<char>, arguments: Option<Seq<char>>) -> bool {
    if name == "file_reader"@ {
        match d {
            Dispatch::ReadFile(path) => path@ == arg_or_empty(arguments, "path"@),
            Dispatch::Respond(_) => false,
        }
    } else if name == "shell_executor"@ {
        answers_ok(d, shell_text(arg_or_empty(arguments, "command"@)))
    } else if name == "web_search"@ {
        answers_ok(d, search_text(arg_or_empty(arguments, "query"@)))
    } else if name == "search_local_files"@ {
        answers_ok(d, local_files_text())
    } else {
        answers_error(d, "Unknown tool: "@ + name)
    }
}

/// What the dispatcher does with each request.
pub open spec fn dispatches(d: Dispatch, request: RequestView) -> bool {
    match request {
        RequestView::ToolsList => answers_ok(d, array_text(catalog().map_values(|t| tool_text(t)))),
        RequestView::ToolCall { name, arguments } => tool_dispatch(d, name, arguments),
        RequestView::ResourcesList => answers_ok(d, array_text(resource_catalog().map_values(|r| resource_text(r)))),
        RequestView::ResourceRead { uri } => if occurs_at(uri, "local://"@, 0) {
            answers_ok(d, resource_content_text(uri))
        } else {
            answers_error(d, "Unsupported URI scheme"@)
        },
        RequestView::ResourceSubscribe { uri } => answers_ok(d, subscription_text("subscribed"@, uri)),
        RequestView::ResourceUnsubscribe { uri } => answers_ok(d, subscription_text("unsubscribed"@, uri)),
        RequestView::Ping => answers_ok(d, "\"pong\""@),
    }
}

fn ok_response(text: String) -> (r: ResponseMessage)
    ensures
        r.id is None,
        opt_view(r.result) == Some(text@),
        r.error is None,
{
    ResponseMessage { id: None, result: Some(text), error: None }
}

fn error_response(message: String) -> (r: ResponseMessage)
    ensures
        is_error_response(r, message@),
{
    ResponseMessage { id: None, result: None, error: Some(ResponseError { code: -1, message, data: None }) }
}

fn tool(name: &str, description: &str, input_schema: &str) -> (r: Tool)
    ensures
        tool_view(r) == (name@, description@, input_schema@),
{
    Tool { name: name.to_owned(), description: description.to_owned(), input_schema: input_schema.to_owned() }
}

/// The catalog of built-in tools.
pub fn available_tools() -> (r: Vec<Tool>)
    ensures
        r@.map_values(|t: Tool| tool_view(t)) == catalog(),
{
    let mut v: Vec<Tool> = Vec::new();
    v.push(tool("file_reader", "读取本地文件内容", "{\"properties\":{\"path\":{\"description\":\"文件路径\",\"type\":\"string\"}},\"required\":[\"path\"],\"type\":\"object\"}"));
    v.push(tool("shell_executor", "在本地执行shell命令", "{\"properties\":{\"command\":{\"description\":\"要执行的命令\",\"type\":\"string\"}},\"required\":[\"command\"],\"type\":\"object\"}"));
    v.push(tool("web_search", "执行网络搜索", "{\"properties\":{\"query\":{\"description\":\"搜索查询\",\"type\":\"string\"}},\"required\":[\"query\"],\"type\":\"object\"}"));
    v.push(tool("search_local_files", "在本地文件索引中搜索文件", "{\"properties\":{\"query\":{\"description\":\"搜索查询（文件名或部分名称）\",\"type\":\"string\"}},\"required\":[\"query\"],\"type\":\"object\"}"));
    assert(v@.map_values(|t: Tool| tool_view(t)) =~= catalog());
    v
}

fn resource(uri: &str, name: &str, description: &str) -> (r: Resource)
    ensures
        resource_view(r) == (uri@, name@, description@),
{
    Resource { uri: uri.to_owned(), name: name.to_owned(), description: description.to_owned() }
}

/// The advertised resources.
pub fn available_resources() -> (r: Vec<Resource>)
    ensures
        r@.map_values(|x: Resource| resource_view(x)) == resource_catalog(),
{
    let mut v: Vec<Resource> = Vec::new();
    v.push(resource("local://workspace", "工作空间", "本地工作空间目录"));
    v.push(resource("local://documents", "文档", "用户文档目录"));
    assert(v@.map_values(|x: Resource| resource_view(x)) =~= resource_catalog());
    v
}

/// The JSON text of a tool.
pub fn tool_json(t: &Tool) -> (r: String)
    ensures
        r@ == tool_text(tool_view(*t)),
{
    let mut out = String::new();
    out.append("{");
    push_str_member(&mut out, "name", t.name.as_str());
    out.append(",");
    push_str_member(&mut out, "description", t.description.as_str());
    out.append(",");
    push_raw_member(&mut out, "input_schema", t.input_schema.as_str());
    out.append("}");
    assert(out@ =~= tool_text(tool_view(*t)));
    out
}

/// The JSON text of a resource.
pub fn resource_json(x: &Resource) -> (r: String)
    ensures
        r@ == resource_text(resource_view(*x)),
{
    let mut out = String::new();
    out.append("{");
    push_str_member(&mut out, "uri", x.uri.as_str());
    out.append(",");
    push_str_member(&mut out, "name", x.name.as_str());
    out.append(",");
    push_str_member(&mut out, "description", x.description.as_str());
    out.append("}");
    assert(out@ =~= resource_text(resource_view(*x)));
    out
}

/// The JSON array of a list of tools.
pub fn tools_json(tools: &Vec<Tool>) -> (r: String)
    ensures
        r@ == array_text(tools@.map_values(|t: Tool| tool_text(tool_view(t)))),
{
    let mut items: Vec<String> = Vec::new();
    let mut i: usize = 0;
    while i < tools.len()
        invariant
            i <= tools@.len(),
            texts_view(items@) =~= tools@.subrange(0, i as int).map_values(|t: Tool| tool_text(tool_view(t))),
        decreases tools@.len() - i,
    {
        let ghost prev = items@;
        items.push(tool_json(&tools[i]));
        assert(texts_view(items@) =~= texts_view(prev).push(items@[i as int]@));
        assert(tools@.subrange(0, i + 1).map_values(|t: Tool| tool_text(tool_view(t))) =~= tools@.subrange(
            0,
            i as int,
        ).map_values(|t: Tool| tool_text(tool_view(t))).push(tool_text(tool_view(tools@[i as int]))));
        i = i + 1;
    }
    assert(tools@.subrange(0, tools@.len() as int) =~= tools@);
    array_of(&items)
}

/// The JSON array of a list of resources.
pub fn resources_json(resources: &Vec<Resource>) -> (r: String)
    ensures
        r@ == array_text(resources@.map_values(|x: Resource| resource_text(resource_view(x)))),
{
    let mut items: Vec<String> = Vec::new();
    let mut i: usize = 0;
    while i < resources.len()
        invariant
            i <= resources@.len(),
            texts_view(items@) =~= resources@.subrange(0, i as int).map_values(|x: Resource| resource_text(resource_view(x))),
        decreases resources@.len() - i,
    {
        let ghost prev = items@;
        items.push(resource_json(&resources[i]));
        assert(texts_view(items@) =~= texts_view(prev).push(items@[i as int]@));
        assert(resources@.subrange(0, i + 1).map_values(|x: Resource| resource_text(resource_view(x))) =~= resources@.subrange(
            0,
            i as int,
        ).map_values(|x: Resource| resource_text(resource_view(x))).push(resource_text(resource_view(resources@[i as int]))));
        i = i + 1;
    }
    assert(resources@.subrange(0, resources@.len() as int) =~= resources@);
    array_of(&items)
}

/// A string argument of a tool call, or the empty string where it is missing.
fn arg_or_empty_exec(arguments: &Option<String>, key: &str) -> (r: String)
    ensures
        r@ == arg_or_empty(opt_view(*arguments), key@),
{
    match arguments {
        Some(a) => match str_field(a.as_str(), key) {
            Some(v) => v,
            None => String::new(),
        },
        None => String::new(),
    }
}

fn shell_json(command: &str) -> (r: String)
    ensures
        r@ == shell_text(command@),
{
    let mut out = String::new();
    out.append("{");
    push_str_member(&mut out, "command", command);
    out.append(",\"output\":\"Command executed\",\"success\":true}");
    assert(out@ =~= shell_text(command@));
    out
}

fn search_json(query: &str) -> (r: String)
    ensures
        r@ == search_text(query@),
{
    let mut out = String::new();
    out.append("{");
    push_str_member(&mut out, "query", query);
    out.append(",\"results\":[]}");
    assert(out@ =~= search_text(query@));
    out
}

fn subscription_json(flag: &str, uri: &str) -> (r: String)
    ensures
        r@ == subscription_text(flag@, uri@),
{
    let mut out = String::new();
    out.append("{");
    push_raw_member(&mut out, flag, "true");
    out.append(",");
    push_str_member(&mut out, "uri", uri);
    out.append("}");
    assert(out@ =~= subscription_text(flag@, uri@));
    out
}

fn resource_content_json(uri: &str) -> (r: String)
    ensures
        r@ == resource_content_text(uri@),
{
    let mut content = "Content of resource: ".to_owned();
    content.append(uri);
    let mut out = String::new();
    out.append("{");
    push_str_member(&mut out, "content", content.as_str());
    out.append("}");
    assert(out@ =~= resource_content_text(uri@));
    out
}

/// The answer to a read of the file at `path`: its content, or the error
/// message of a failed read.
pub fn file_read_response(path: &str, read: Result<String, String>) -> (r: ResponseMessage)
    ensures
        match read {
            Ok(content) => r.id is None && opt_view(r.result) == Some(file_text(path@, content@)) && r.error is None,
            Err(message) => is_error_response(r, message@),
        },
{
    match read {
        Ok(content) => {
            let mut out = String::new();
            out.append("{");
            push_str_member(&mut out, "content", content.as_str());
            out.append(",");
            push_str_member(&mut out, "path", path);
            out.append("}");
            assert(out@ =~= file_text(path@, content@));
            ok_response(out)
        },
        Err(message) => error_response(message),
    }
}

fn call_tool(name: String, arguments: Option<String>) -> (d: Dispatch)
    ensures
        tool_dispatch(d, name@, opt_view(arguments)),
{
    if str_eq(name.as_str(), "file_reader") {
        Dispatch::ReadFile(arg_or_empty_exec(&arguments, "path"))
    } else if str_eq(name.as_str(), "shell_executor") {
        let command = arg_or_empty_exec(&arguments, "command");
        Dispatch::Respond(ok_response(shell_json(command.as_str())))
    } else if str_eq(name.as_str(), "web_search") {
        let query = arg_or_empty_exec(&arguments, "query");
        Dispatch::Respond(ok_response(search_json(query.as_str())))
    } else if str_eq(name.as_str(), "search_local_files") {
        let text = "[{\"created\":\"2023-01-01T00:00:00Z\",\"extension\":\"pdf\",\"is_directory\":false,\"modified\":\"2023-01-01T00:00:00Z\",\"name\":\"example.pdf\",\"path\":\"/Users/example/Downloads/example.pdf\",\"size\":1024000}]";
        Dispatch::Respond(ok_response(text.to_owned()))
    } else {
        let mut message = "Unknown tool: ".to_owned();
        message.append(name.as_str());
        Dispatch::Respond(error_response(message))
    }
}

impl McpServer {
    /// A dispatcher.
    pub fn new() -> (r: Self) {
        McpServer {}
    }

    /// Routes a request to its handler. Every request gets a well-formed
    /// answer; a call of `file_reader` asks for the file to be read first.
    pub fn handle_request(&self, request: RequestMessage) -> (d: Dispatch)
        ensures
            dispatches(d, request@),
    {
        match request {
            RequestMessage::ToolsList {} => {
                let tools = available_tools();
                let text = tools_json(&tools);
                proof {
                    assert forall|i: int| 0 <= i < tools@.len() implies catalog()[i] == tool_view(#[trigger] tools@[i]) by {
                        assert(tools@.map_values(|t: Tool| tool_view(t))[i] == tool_view(tools@[i]));
                    }
                    assert(tools@.map_values(|t: Tool| tool_text(tool_view(t))) =~= catalog().map_values(|t| tool_text(t)));
                }
                Dispatch::Respond(ok_response(text))
            },
            RequestMessage::ToolCall { name, arguments } => call_tool(name, arguments),
            RequestMessage::ResourcesList {} => {
                let resources = available_resources();
                let text = resources_json(&resources);
                proof {
                    assert forall|i: int| 0 <= i < resources@.len() implies resource_catalog()[i] == resource_view(#[trigger] resources@[i]) by {
                        assert(resources@.map_values(|x: Resource| resource_view(x))[i] == resource_view(resources@[i]));
                    }
                    assert(resources@.map_values(|x: Resource| resource_text(resource_view(x))) =~= resource_catalog().map_values(|r| resource_text(r)));
                }
                Dispatch::Respond(ok_response(text))
            },
            RequestMessage::ResourceRead { uri } => {
                if starts_with(uri.as_str(), "local://") {
                    Dispatch::Respond(ok_response(resource_content_json(uri.as_str())))
                } else {
                    Dispatch::Respond(error_response("Unsupported URI scheme".to_owned()))
                }
            },
            RequestMessage::ResourceSubscribe { uri } => {
                Dispatch::Respond(ok_response(subscription_json("subscribed", uri.as_str())))
            },
            RequestMessage::ResourceUnsubscribe { uri } => {
                Dispatch::Respond(ok_response(subscription_json("unsubscribed", uri.as_str())))
            },
            RequestMessage::Ping {} => Dispatch::Respond(ok_response("\"pong\"".to_owned())),
        }
    }
}

} // verus!
