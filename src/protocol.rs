//! The message shapes of the tool-host protocol.
//!
//! JSON values that the engine only carries (tool arguments, results, input
//! schemas) are held as their JSON text.

use vstd::prelude::*;

verus! {

/// A request to the tool host. The variant names the wire method.
pub enum RequestMessage {
    ToolsList {},
    /// `arguments` is the JSON text of an object, when given.
    ToolCall { name: String, arguments: Option<String> },
    ResourcesList {},
    ResourceRead { uri: String },
    ResourceSubscribe { uri: String },
    ResourceUnsubscribe { uri: String },
    Ping {},
}

/// The mathematical content of a request.
pub enum RequestView {
    ToolsList,
    ToolCall { name: Seq<char>, arguments: Option<Seq<char>> },
    ResourcesList,
    ResourceRead { uri: Seq<char> },
    ResourceSubscribe { uri: Seq<char> },
    ResourceUnsubscribe { uri: Seq<char> },
    Ping,
}

/// The characters of an optional string.
pub open spec fn opt_view(o: Option<String>) -> Option<Seq<char>> {
    match o {
        Some(s) => Some(s@),
        None => None,
    }
}

impl View for RequestMessage {
    type V = RequestView;

    open spec fn view(&self) -> RequestView {
        match self {
            RequestMessage::ToolsList {} => RequestView::ToolsList,
            RequestMessage::ToolCall { name, arguments } => RequestView::ToolCall {
                name: name@,
                arguments: opt_view(*arguments),
            },
            RequestMessage::ResourcesList {} => RequestView::ResourcesList,
            RequestMessage::ResourceRead { uri } => RequestView::ResourceRead { uri: uri@ },
            RequestMessage::ResourceSubscribe { uri } => RequestView::ResourceSubscribe { uri: uri@ },
            RequestMessage::ResourceUnsubscribe { uri } => RequestView::ResourceUnsubscribe { uri: uri@ },
            RequestMessage::Ping {} => RequestView::Ping,
        }
    }
}

/// The value of one parameter of the envelope.
pub enum ParamValue {
    /// A JSON string with these characters.
    Str(String),
    /// A JSON value, given as its text.
    Raw(String),
}

/// The mathematical content of a parameter value.
pub enum ParamView {
    Str(Seq<char>),
    Raw(Seq<char>),
}

impl View for ParamValue {
    type V = ParamView;

    open spec fn view(&self) -> ParamView {
        match self {
            ParamValue::Str(s) => ParamView::Str(s@),
            ParamValue::Raw(s) => ParamView::Raw(s@),
        }
    }
}

/// One named parameter of the envelope.
pub struct WireParam {
    pub key: String,
    pub value: ParamValue,
}

/// The wire envelope of a request: `{jsonrpc: "2.0", id, method, params}`.
/// `params` is empty for the methods that carry none.
pub struct WireRequest {
    pub id: String,
    pub method: String,
    pub params: Vec<WireParam>,
}

/// The mathematical content of an envelope.
pub struct WireView {
    pub id: Seq<char>,
    pub method: Seq<char>,
    pub params: Seq<(Seq<char>, ParamView)>,
}

impl View for WireRequest {
    type V = WireView;

    open spec fn view(&self) -> WireView {
        WireView {
            id: self.id@,
            method: self.method@,
            params: self.params@.map_values(|p: WireParam| (p.key@, p.value@)),
        }
    }
}

/// The wire method name of each request variant.
pub open spec fn method_of(r: RequestView) -> Seq<char> {
    match r {
        RequestView::ToolsList => "tools/list"@,
        RequestView::ToolCall { .. } => "tools/call"@,
        RequestView::ResourcesList => "resources/list"@,
        RequestView::ResourceRead { .. } => "resources/read"@,
        RequestView::ResourceSubscribe { .. } => "resources/subscribe"@,
        RequestView::ResourceUnsubscribe { .. } => "resources/unsubscribe"@,
        RequestView::Ping => "ping"@,
    }
}

/// The parameters that each request variant carries.
pub open spec fn params_of(r: RequestView) -> Seq<(Seq<char>, ParamView)> {
    match r {
        RequestView::ToolCall { name, arguments } => match arguments {
            Some(a) => seq![("name"@, ParamView::Str(name)), ("arguments"@, ParamView::Raw(a))],
            None => seq![("name"@, ParamView::Str(name))],
        },
        RequestView::ResourceRead { uri } => seq![("uri"@, ParamView::Str(uri))],
        RequestView::ResourceSubscribe { uri } => seq![("uri"@, ParamView::Str(uri))],
        RequestView::ResourceUnsubscribe { uri } => seq![("uri"@, ParamView::Str(uri))],
        _ => seq![],
    }
}


/// The envelope of a request under an identifier.
pub open spec fn envelope_of(r: RequestView, id: Seq<char>) -> WireView {
    WireView { id, method: method_of(r), params: params_of(r) }
}

/// The single `uri` string parameter, if that is what the parameters are.
pub open spec fn uri_param(p: Seq<(Seq<char>, ParamView)>) -> Option<Seq<char>> {
    if p.len() == 1 && p[0].0 == "uri"@ {
        match p[0].1 {
            ParamView::Str(u) => Some(u),
            _ => None,
        }
    } else {
        None
    }
}

/// The request that an envelope encodes, if it encodes one.
pub open spec fn request_of(w: WireView) -> Option<RequestView> {
    let m = w.method;
    let p = w.params;
    if m == "tools/list"@ && p.len() == 0 {
        Some(RequestView::ToolsList)
    } else if m == "resources/list"@ && p.len() == 0 {
        Some(RequestView::ResourcesList)
    } else if m == "ping"@ && p.len() == 0 {
        Some(RequestView::Ping)
    } else if m == "tools/call"@ && 1 <= p.len() <= 2 && p[0].0 == "name"@ && p[0].1 is Str {
        let name = p[0].1->Str_0;
        if p.len() == 1 {
            Some(RequestView::ToolCall { name, arguments: None })
        } else if p[1].0 == "arguments"@ && p[1].1 is Raw {
            Some(RequestView::ToolCall { name, arguments: Some(p[1].1->Raw_0) })
        } else {
            None
        }
    } else if m == "resources/read"@ && uri_param(p) is Some {
        Some(RequestView::ResourceRead { uri: uri_param(p)->0 })
    } else if m == "resources/subscribe"@ && uri_param(p) is Some {
        Some(RequestView::ResourceSubscribe { uri: uri_param(p)->0 })
    } else if m == "resources/unsubscribe"@ && uri_param(p) is Some {
        Some(RequestView::ResourceUnsubscribe { uri: uri_param(p)->0 })
    } else {
        None
    }
}

/// The characters in which the method names differ from one another.
pub proof fn lemma_method_names_distinct()
    ensures
        "tools/list"@.len() == 10,
        "tools/call"@.len() == 10,
        "tools/call"@[6] != "tools/list"@[6],
        "resources/list"@.len() == 14,
        "resources/read"@.len() == 14,
        "resources/read"@[10] != "resources/list"@[10],
        "resources/subscribe"@.len() == 19,
        "resources/unsubscribe"@.len() == 21,
        "ping"@.len() == 4,
{
    reveal_strlit("tools/list");
    reveal_strlit("tools/call");
    reveal_strlit("resources/list");
    reveal_strlit("resources/read");
    reveal_strlit("resources/subscribe");
    reveal_strlit("resources/unsubscribe");
    reveal_strlit("ping");
}

/// Decoding the envelope of a request gives the request back, whatever the
/// identifier it was sent under.
pub proof fn lemma_envelope_round_trip(r: RequestView, id: Seq<char>)
    ensures
        envelope_of(r, id).id == id,
        request_of(envelope_of(r, id)) == Some(r),
{
    lemma_method_names_distinct();
    match r {
        RequestView::ToolCall { name, arguments } => {
            match arguments {
                Some(a) => {
                    let p = seq![("name"@, ParamView::Str(name)), ("arguments"@, ParamView::Raw(a))];
                    assert(params_of(r) == p);
                    assert(request_of(envelope_of(r, id)) == Some(r));
                },
                None => {
                    let p = seq![("name"@, ParamView::Str(name))];
                    assert(params_of(r) == p);
                    assert(request_of(envelope_of(r, id)) == Some(r));
                },
            }
        },
        RequestView::ResourceRead { uri } => {
            assert(uri_param(seq![("uri"@, ParamView::Str(uri))]) == Some(uri));
        },
        RequestView::ResourceSubscribe { uri } => {
            assert(uri_param(seq![("uri"@, ParamView::Str(uri))]) == Some(uri));
        },
        RequestView::ResourceUnsubscribe { uri } => {
            assert(uri_param(seq![("uri"@, ParamView::Str(uri))]) == Some(uri));
        },
        _ => {},
    }
}

/// A response line received from the tool host.
pub struct ResponseMessage {
    pub id: Option<String>,
    /// JSON text of the result, when the call succeeded.
    pub result: Option<String>,
    pub error: Option<ResponseError>,
}

/// The error part of a response.
pub struct ResponseError {
    pub code: i32,
    pub message: String,
    /// JSON text of extra data, if any.
    pub data: Option<String>,
}

/// A tool that the host advertises.
pub struct Tool {
    pub name: String,
    pub description: String,
    /// JSON text of the tool's input schema.
    pub input_schema: String,
}

/// A file entry as the local file search reports it.
pub struct FileInfo {
    pub path: String,
    pub name: String,
    pub extension: Option<String>,
    pub size: u64,
    pub modified: String,
    pub created: String,
    pub is_directory: bool,
}

/// A readable resource that the host advertises.
pub struct Resource {
    pub uri: String,
    pub name: String,
    pub description: String,
}

} // verus!
