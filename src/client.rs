//! The protocol client's side of a request: registering it under a fresh
//! identifier, settling the wait for its response, and reading the result.
//!
//! The transport (the child process and its pipes) and the waiting itself are
//! driven by the host; these functions make every decision in between.

use vstd::prelude::*;
use crate::correlator::PendingTable;
use crate::envelope::{encode_request, request_line, line_of, well_formed_request, is_well_formed_request};
use crate::protocol::{RequestMessage, ResponseMessage, envelope_of};

verus! {

/// Why a request failed.
pub enum ClientError {
    /// The subprocess could not be started or a pipe broke.
    Transport(String),
    /// No matching response arrived before the deadline.
    Timeout,
    /// The reply slot was closed before a response arrived.
    Closed,
    /// The response lacked a result where one was required.
    Protocol(String),
}

/// How the wait for a response ended.
pub enum WaitOutcome {
    Replied(ResponseMessage),
    Closed,
    TimedOut,
}

/// The deadline of a request, in seconds.
pub const REQUEST_TIMEOUT_SECS: u64 = 30;

/// Relies on `uuid::Uuid::new_v4` and its `Display`: a random identifier.
/// Nothing is promised of its value.
#[verifier::external_body]
fn new_request_id() -> (r: String) {
    uuid::Uuid::new_v4().to_string()
}

/// Why a request could not be started; the slot is handed back.
pub enum BeginError<T> {
    /// The drawn identifier is already waiting.
    IdInUse { id: String, slot: T },
    /// The tool arguments are not a JSON object.
    BadArguments(T),
}

/// Registers `slot` under a fresh random identifier and frames the request
/// line to send under it. Refused when the tool arguments are not a JSON
/// object, or when the drawn identifier happens to be waiting already; the
/// table is then unchanged. On an empty table a well-formed request succeeds.
pub fn begin_request<T>(table: &mut PendingTable<T>, request: RequestMessage, slot: T) -> (r: Result<(String, String), BeginError<T>>)
    requires
        old(table).wf(),
    ensures
        final(table).wf(),
        !well_formed_request(request@) ==> r == Err::<(String, String), BeginError<T>>(BeginError::BadArguments(slot)),
        well_formed_request(request@) && old(table)@ == Map::<Seq<char>, T>::empty() ==> r is Ok,
        match r {
            Ok((id, line)) => {
                &&& well_formed_request(request@)
                &&& !old(table)@.contains_key(id@)
                &&& final(table)@ == old(table)@.insert(id@, slot)
                &&& line@ == line_of(envelope_of(request@, id@))
            },
            Err(BeginError::IdInUse { id, slot: s }) => {
                &&& well_formed_request(request@)
                &&& old(table)@.contains_key(id@)
                &&& s == slot
                &&& final(table)@ == old(table)@
            },
            Err(BeginError::BadArguments(s)) => s == slot && final(table)@ == old(table)@,
        },
{
    if !is_well_formed_request(&request) {
        return Err(BeginError::BadArguments(slot));
    }
    let id = new_request_id();
    let key = id.clone();
    match table.register(key, slot) {
        Err(s) => Err(BeginError::IdInUse { id, slot: s }),
        Ok(()) => {
            let wire = encode_request(request, id.clone());
            let line = request_line(&wire);
            Ok((id, line))
        },
    }
}

/// Settles the wait of request `id`. Its entry leaves the table whatever the
/// outcome, so an abandoned request leaves nothing behind.
pub fn finish_wait<T>(table: &mut PendingTable<T>, id: &str, outcome: WaitOutcome) -> (r: Result<ResponseMessage, ClientError>)
    requires
        old(table).wf(),
    ensures
        final(table).wf(),
        final(table)@ == old(table)@.remove(id@),
        match outcome {
            WaitOutcome::Replied(resp) => r == Ok::<ResponseMessage, ClientError>(resp),
            WaitOutcome::Closed => r is Err && r->Err_0 is Closed,
            WaitOutcome::TimedOut => r is Err && r->Err_0 is Timeout,
        },
{
    let _ = table.take(id);
    match outcome {
        WaitOutcome::Replied(resp) => Ok(resp),
        WaitOutcome::Closed => Err(ClientError::Closed),
        WaitOutcome::TimedOut => Err(ClientError::Timeout),
    }
}

/// The result of a response, or a protocol error where it has none.
pub fn take_result(resp: ResponseMessage) -> (r: Result<String, ClientError>)
    ensures
        match resp.result {
            Some(v) => r == Ok::<String, ClientError>(v),
            None => r is Err && r->Err_0 is Protocol && r->Err_0->Protocol_0@ == "No result in response"@,
        },
{
    match resp.result {
        Some(v) => Ok(v),
        None => Err(ClientError::Protocol("No result in response".to_owned())),
    }
}

/// A request's entry, registered and then settled, leaves the table as it was.
pub proof fn lemma_settled_request_leaves_no_entry<T>(m: Map<Seq<char>, T>, id: Seq<char>, slot: T)
    requires
        !m.contains_key(id),
    ensures
        m.insert(id, slot).remove(id) == m,
{
    assert(m.insert(id, slot).remove(id) =~= m);
}

/// Responses to distinct requests reach their own slots in either order: the
/// slot of `b` is unaffected by delivering to `a`, a second delivery to `a`
/// finds nothing, and both orders leave the same table.
pub proof fn lemma_deliveries_independent<T>(m: Map<Seq<char>, T>, a: Seq<char>, b: Seq<char>)
    requires
        a != b,
    ensures
        m.contains_key(b) ==> m.remove(a).contains_key(b) && m.remove(a)[b] == m[b],
        !m.remove(a).contains_key(a),
        m.remove(a).remove(b) == m.remove(b).remove(a),
{
    assert(m.remove(a).remove(b) =~= m.remove(b).remove(a));
}

} // verus!
