//! Building and reading the wire envelope of a request.

use vstd::prelude::*;
use crate::protocol::{
    RequestMessage, RequestView, ParamValue, ParamView, WireParam, WireRequest, WireView, envelope_of,
    request_of, uri_param, opt_view, lemma_method_names_distinct,
};
use crate::text::str_eq;
use crate::json::{is_object_text, is_json_object};
use crate::json::{str_member, raw_member, push_quoted, push_str_member, push_raw_member, quoted_of};

verus! {

fn str_param(key: &str, value: String) -> (r: WireParam)
    ensures
        r.key@ == key@,
        r.value@ == ParamView::Str(value@),
{
    WireParam { key: key.to_owned(), value: ParamValue::Str(value) }
}

fn uri_params(uri: String) -> (r: Vec<WireParam>)
    ensures
        r@.map_values(|p: WireParam| (p.key@, p.value@)) =~= seq![("uri"@, ParamView::Str(uri@))],
{
    let mut p: Vec<WireParam> = Vec::new();
    p.push(str_param("uri", uri));
    p
}

/// The tool arguments of a request, where it has any, are a JSON object.
pub open spec fn well_formed_request(r: RequestView) -> bool {
    match r {
        RequestView::ToolCall { arguments: Some(a), .. } => is_object_text(a),
        _ => true,
    }
}

/// Every parameter given as JSON text is a JSON object.
pub open spec fn raw_params_are_objects(w: WireView) -> bool {
    forall|i: int| 0 <= i < w.params.len() ==> match #[trigger] w.params[i].1 {
        ParamView::Raw(t) => is_object_text(t),
        ParamView::Str(_) => true,
    }
}

/// Whether the tool arguments of a request, where it has any, are a JSON object.
pub fn is_well_formed_request(request: &RequestMessage) -> (r: bool)
    ensures
        r == well_formed_request(request@),
{
    match request {
        RequestMessage::ToolCall { arguments: Some(a), .. } => is_json_object(a.as_str()),
        _ => true,
    }
}

/// The envelope of a request under the identifier `id`.
pub fn encode_request(request: RequestMessage, id: String) -> (r: WireRequest)
    requires
        well_formed_request(request@),
    ensures
        r@ == envelope_of(request@, id@),
        raw_params_are_objects(r@),
{
    let ghost v = request@;
    let (method, params): (&str, Vec<WireParam>) = match request {
        RequestMessage::ToolsList {} => ("tools/list", Vec::new()),
        RequestMessage::ToolCall { name, arguments } => {
            let mut p: Vec<WireParam> = Vec::new();
            p.push(str_param("name", name));
            match arguments {
                Some(a) => p.push(WireParam { key: "arguments".to_owned(), value: ParamValue::Raw(a) }),
                None => {},
            }
            ("tools/call", p)
        },
        RequestMessage::ResourcesList {} => ("resources/list", Vec::new()),
        RequestMessage::ResourceRead { uri } => ("resources/read", uri_params(uri)),
        RequestMessage::ResourceSubscribe { uri } => ("resources/subscribe", uri_params(uri)),
        RequestMessage::ResourceUnsubscribe { uri } => ("resources/unsubscribe", uri_params(uri)),
        RequestMessage::Ping {} => ("ping", Vec::new()),
    };
    let r = WireRequest { id, method: method.to_owned(), params };
    assert(r@.params =~= envelope_of(v, id@).params);
    r
}

fn uri_of(params: &Vec<WireParam>) -> (r: Option<String>)
    ensures
        opt_view(r) == uri_param(params@.map_values(|p: WireParam| (p.key@, p.value@))),
{
    let ghost pv = params@.map_values(|p: WireParam| (p.key@, p.value@));
    if params.len() != 1 || !str_eq(params[0].key.as_str(), "uri") {
        return None;
    }
    assert(pv[0] == (params@[0].key@, params@[0].value@));
    match &params[0].value {
        ParamValue::Str(u) => Some(u.clone()),
        ParamValue::Raw(_) => None,
    }
}

/// The request that an envelope encodes, if it encodes one.
pub fn decode_request(w: &WireRequest) -> (r: Option<RequestMessage>)
    ensures
        match r {
            Some(q) => request_of(w@) == Some(q@),
            None => request_of(w@) is None,
        },
{
    let m = w.method.as_str();
    let p = &w.params;
    let ghost pv = w@.params;
    proof {
        lemma_method_names_distinct();
    }
    if str_eq(m, "tools/list") && p.len() == 0 {
        Some(RequestMessage::ToolsList {})
    } else if str_eq(m, "resources/list") && p.len() == 0 {
        Some(RequestMessage::ResourcesList {})
    } else if str_eq(m, "ping") && p.len() == 0 {
        Some(RequestMessage::Ping {})
    } else if str_eq(m, "tools/call") && 1 <= p.len() && p.len() <= 2 && str_eq(p[0].key.as_str(), "name") {
        assert(pv[0] == (p@[0].key@, p@[0].value@));
        match &p[0].value {
            ParamValue::Raw(_) => None,
            ParamValue::Str(n) => {
                let name = n.clone();
                if p.len() == 1 {
                    Some(RequestMessage::ToolCall { name, arguments: None })
                } else {
                    assert(pv[1] == (p@[1].key@, p@[1].value@));
                    if str_eq(p[1].key.as_str(), "arguments") {
                        match &p[1].value {
                            ParamValue::Raw(a) => Some(RequestMessage::ToolCall { name, arguments: Some(a.clone()) }),
                            ParamValue::Str(_) => None,
                        }
                    } else {
                        None
                    }
                }
            },
        }
    } else if str_eq(m, "resources/read") {
        match uri_of(p) {
            Some(uri) => Some(RequestMessage::ResourceRead { uri }),
            None => None,
        }
    } else if str_eq(m, "resources/subscribe") {
        match uri_of(p) {
            Some(uri) => Some(RequestMessage::ResourceSubscribe { uri }),
            None => None,
        }
    } else if str_eq(m, "resources/unsubscribe") {
        match uri_of(p) {
            Some(uri) => Some(RequestMessage::ResourceUnsubscribe { uri }),
            None => None,
        }
    } else {
        None
    }
}

} // verus!

verus! {

/// The JSON text of one parameter.
pub open spec fn param_text(p: (Seq<char>, ParamView)) -> Seq<char> {
    match p.1 {
        ParamView::Str(s) => str_member(p.0, s),
        ParamView::Raw(s) => raw_member(p.0, s),
    }
}

/// The parameters' JSON texts, separated by commas.
pub open spec fn params_text(ps: Seq<(Seq<char>, ParamView)>) -> Seq<char>
    decreases ps.len(),
{
    if ps.len() == 0 {
        Seq::empty()
    } else if ps.len() == 1 {
        param_text(ps[0])
    } else {
        params_text(ps.drop_last()) + ","@ + param_text(ps.last())
    }
}

/// The line that carries an envelope:
/// `{"jsonrpc":"2.0","id":<id>,"method":<method>,"params":{...}}`, where the
/// parameters object is left out when there are no parameters.
pub open spec fn line_of(w: WireView) -> Seq<char> {
    let head = "{"@ + str_member("jsonrpc"@, "2.0"@) + ","@ + str_member("id"@, w.id) + ","@
        + str_member("method"@, w.method);
    if w.params.len() == 0 {
        head + "}"@
    } else {
        head + ","@ + quoted_of("params"@) + ":{"@ + params_text(w.params) + "}}"@
    }
}

/// The text of an envelope as one line of JSON, without the line break.
pub fn request_line(w: &WireRequest) -> (r: String)
    requires
        raw_params_are_objects(w@),
    ensures
        r@ == line_of(w@),
{
    let mut out = String::new();
    out.append("{");
    push_str_member(&mut out, "jsonrpc", "2.0");
    out.append(",");
    push_str_member(&mut out, "id", w.id.as_str());
    out.append(",");
    push_str_member(&mut out, "method", w.method.as_str());
    let ghost head = out@;
    let n = w.params.len();
    if n == 0 {
        out.append("}");
        return out;
    }
    out.append(",");
    push_quoted(&mut out, "params");
    out.append(":{");
    let ghost start = out@;
    let ghost pv = w@.params;
    let mut i: usize = 0;
    while i < n
        invariant
            n == w.params@.len(),
            pv == w@.params,
            i <= n,
            out@ == start + params_text(pv.subrange(0, i as int)),
        decreases n - i,
    {
        if i > 0 {
            out.append(",");
        }
        let p = &w.params[i];
        match &p.value {
            ParamValue::Str(s) => push_str_member(&mut out, p.key.as_str(), s.as_str()),
            ParamValue::Raw(s) => push_raw_member(&mut out, p.key.as_str(), s.as_str()),
        }
        proof {
            let next = pv.subrange(0, i + 1);
            assert(next.drop_last() =~= pv.subrange(0, i as int));
            assert(next.last() == pv[i as int]);
            assert(pv[i as int] == (p.key@, p.value@));
            if i == 0 {
                assert(pv.subrange(0, 0).len() == 0);
            }
        }
        i = i + 1;
    }
    out.append("}}");
    assert(pv.subrange(0, n as int) =~= pv);
    out
}

} // verus!
