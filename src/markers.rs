//! Reading tool invocations out of a reasoning-service reply.
//!
//! An invocation is written `[TOOL_USE: <name> with args: <json>]` anywhere in
//! the reply.

use vstd::prelude::*;
use crate::text::{first_occurrence, find_first, occurs_at, occurs_at_pos};
use crate::json::{is_object_text, is_json_object};

verus! {

/// A tool call proposed by the reasoning service.
pub struct ProposedCall {
    pub tool_name: String,
    /// JSON text of the arguments object.
    pub arguments: String,
}

impl View for ProposedCall {
    type V = (Seq<char>, Seq<char>);

    open spec fn view(&self) -> (Seq<char>, Seq<char>) {
        (self.tool_name@, self.arguments@)
    }
}

/// The name and argument text of each call.
pub open spec fn calls_view(v: Seq<ProposedCall>) -> Seq<(Seq<char>, Seq<char>)> {
    v.map_values(|c: ProposedCall| c@)
}

/// The position of the `]` that closes arguments starting at `a`, searching
/// from `p`: the first `]` before which the arguments text is a JSON object.
pub open spec fn closing_from(t: Seq<char>, a: int, p: int) -> Option<int>
    decreases t.len() - p,
{
    if p < a || p >= t.len() {
        None
    } else if t[p] == ']' && is_object_text(t.subrange(a, p)) {
        Some(p)
    } else {
        closing_from(t, a, p + 1)
    }
}

/// The call written by the marker that opens at position `s`: the name runs
/// from the opening to the next ` with args: `, and the arguments from there
/// to the `]` that closes the marker, where they form a JSON object.
pub open spec fn call_at(t: Seq<char>, s: int) -> Option<(Seq<char>, Seq<char>)> {
    let ns = s + "[TOOL_USE: "@.len();
    match first_occurrence(t, " with args: "@, ns) {
        None => None,
        Some(e) => {
            let a = e + " with args: "@.len();
            match closing_from(t, a, a) {
                None => None,
                Some(p) => Some((t.subrange(ns, e), t.subrange(a, p))),
            }
        },
    }
}

/// The calls written by the markers that open at or after position `i`,
/// one for each opening `[TOOL_USE: ` in order.
pub open spec fn calls_from(t: Seq<char>, i: int) -> Seq<(Seq<char>, Seq<char>)>
    decreases t.len() - i,
{
    if i < 0 || i >= t.len() {
        seq![]
    } else {
        let here = if occurs_at(t, "[TOOL_USE: "@, i) {
            match call_at(t, i) {
                Some(c) => seq![c],
                None => seq![],
            }
        } else {
            seq![]
        };
        here + calls_from(t, i + 1)
    }
}

/// The calls proposed by a reply, in order.
pub open spec fn proposed_calls(t: Seq<char>) -> Seq<(Seq<char>, Seq<char>)> {
    calls_from(t, 0)
}

fn closing_bracket(t: &str, n: usize, a: usize) -> (r: Option<usize>)
    requires
        n == t@.len(),
        a <= n,
    ensures
        match r {
            Some(p) => closing_from(t@, a as int, a as int) == Some(p as int) && a <= p < n,
            None => closing_from(t@, a as int, a as int) is None,
        },
{
    let mut p: usize = a;
    while p < n
        invariant
            n == t@.len(),
            a <= p <= n,
            closing_from(t@, a as int, a as int) == closing_from(t@, a as int, p as int),
        decreases n - p,
    {
        if t.get_char(p) == ']' {
            let args = t.substring_char(a, p);
            if is_json_object(args) {
                return Some(p);
            }
        }
        p = p + 1;
    }
    None
}

fn call_of(t: &str, n: usize, s: usize) -> (r: Option<ProposedCall>)
    requires
        n == t@.len(),
        occurs_at(t@, "[TOOL_USE: "@, s as int),
    ensures
        match r {
            Some(c) => call_at(t@, s as int) == Some(c@),
            None => call_at(t@, s as int) is None,
        },
{
    proof {
        reveal_strlit("[TOOL_USE: ");
        reveal_strlit(" with args: ");
    }
    let ns = s + 11;
    let e = match find_first(t, " with args: ", ns) {
        None => return None,
        Some(e) => e,
    };
    let a = e + 12;
    match closing_bracket(t, n, a) {
        None => None,
        Some(p) => {
            let name = t.substring_char(ns, e);
            let args = t.substring_char(a, p);
            Some(ProposedCall { tool_name: name.to_owned(), arguments: args.to_owned() })
        },
    }
}

/// The tool calls that a reply proposes, in order: one for each marker
/// `[TOOL_USE: <name> with args: <json>]` whose arguments are a JSON object.
pub fn parse_tool_calls(reply: &str) -> (r: Vec<ProposedCall>)
    ensures
        calls_view(r@) == proposed_calls(reply@),
{
    let n = reply.unicode_len();
    let mut out: Vec<ProposedCall> = Vec::new();
    let mut i: usize = 0;
    while i < n
        invariant
            n == reply@.len(),
            i <= n,
            calls_view(out@) + calls_from(reply@, i as int) == proposed_calls(reply@),
        decreases n - i,
    {
        let ghost before = out@;
        if occurs_at_pos(reply, "[TOOL_USE: ", i) {
            match call_of(reply, n, i) {
                Some(c) => out.push(c),
                None => {},
            }
        }
        assert(calls_view(out@) + calls_from(reply@, i + 1) =~= calls_view(before) + calls_from(reply@, i as int));
        i = i + 1;
    }
    assert(calls_view(out@) =~= proposed_calls(reply@));
    out
}

} // verus!
