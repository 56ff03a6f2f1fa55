//! The approval rule: which tool names need a human decision before they run.

use vstd::prelude::*;
use crate::text::{contains, contains_str};

verus! {

/// The lower-case form of a string, as `str::to_lowercase` computes it.
pub uninterp spec fn lower_of(s: Seq<char>) -> Seq<char>;

/// The words whose presence in a tool name marks it as possibly destructive.
pub open spec fn unsafe_keywords() -> Seq<Seq<char>> {
    seq!["write"@, "delete"@, "move"@, "rm"@, "remove"@, "mv"@, "rename"@, "modify"@]
}

/// The (already lower-cased) name holds one of the unsafe keywords.
pub open spec fn mentions_unsafe_keyword(name: Seq<char>) -> bool {
    exists|k: int| 0 <= k < unsafe_keywords().len() && contains(name, unsafe_keywords()[k])
}

/// Relies on `str::to_lowercase`: the result depends on the characters alone.
#[verifier::external_body]
fn lowercase(s: &str) -> (r: String)
    ensures
        r@ == lower_of(s@),
{
    s.to_lowercase()
}

fn unsafe_keyword(k: usize) -> (r: &'static str)
    requires
        k < unsafe_keywords().len(),
    ensures
        r@ == unsafe_keywords()[k as int],
{
    match k {
        0 => "write",
        1 => "delete",
        2 => "move",
        3 => "rm",
        4 => "remove",
        5 => "mv",
        6 => "rename",
        _ => "modify",
    }
}

/// Whether a name that is already in lower case holds an unsafe keyword.
pub fn mentions_unsafe(lowered: &str) -> (r: bool)
    ensures
        r == mentions_unsafe_keyword(lowered@),
{
    let n: usize = 8;
    assert(unsafe_keywords().len() == 8);
    let mut k: usize = 0;
    while k < n
        invariant
            n == unsafe_keywords().len(),
            k <= n,
            forall|j: int| 0 <= j < k ==> !contains(lowered@, #[trigger] unsafe_keywords()[j]),
        decreases n - k,
    {
        if contains_str(lowered, unsafe_keyword(k)) {
            return true;
        }
        k = k + 1;
    }
    false
}

/// Whether a call of the named tool must wait for explicit approval: its name
/// holds, ignoring case, one of the unsafe keywords.
pub fn requires_approval(tool_name: &str) -> (r: bool)
    ensures
        r == mentions_unsafe_keyword(lower_of(tool_name@)),
{
    let lowered = lowercase(tool_name);
    mentions_unsafe(lowered.as_str())
}

} // verus!
