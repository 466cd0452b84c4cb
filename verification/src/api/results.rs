//! The request history: recording how a request ended and answering
//! queries for it.
use crate::json::{json_from_string, json_string};
use crate::structs::request_entry::RequestEntry;
use crate::text::str_eq;
use vstd::prelude::*;

verus! {

/// What a query of the request history answers.
#[derive(Debug, Clone, Copy, PartialEq, Eq, Structural)]
pub enum HistoryLookup {
    /// No id was given: the whole history.
    All,
    /// The entry at `index`, served with HTTP status `status` (200 for a
    /// request that succeeded, 500 for one that failed).
    Found { index: usize, status: u16 },
    /// No request has the id: served with status 200 and a body that
    /// names the id.
    Missing,
}

/// The HTTP status a history entry is served with.
pub open spec fn entry_status(e: RequestEntry) -> u16 {
    if e.success {
        200
    } else {
        500
    }
}

/// Whether `r` is the answer to a query for `id` on the history `h`: the
/// whole history for an empty id, else the first entry with that id, or
/// `Missing` when there is none.
pub open spec fn answers(h: Seq<RequestEntry>, id: Seq<char>, r: HistoryLookup) -> bool {
    if id.len() == 0 {
        r is All
    } else {
        match r {
            HistoryLookup::All => false,
            HistoryLookup::Found { index, status } => {
                &&& index < h.len()
                &&& h[index as int].request_id@ == id
                &&& forall|j: int| 0 <= j < index ==> #[trigger] h[j].request_id@ != id
                &&& status == entry_status(h[index as int])
            },
            HistoryLookup::Missing => forall|j: int| 0 <= j < h.len() ==> #[trigger] h[j].request_id@ != id,
        }
    }
}

/// Answers a query of the request history for the request `id`; an empty id
/// asks for the whole history.
pub fn request_history_list(history: &Vec<RequestEntry>, id: &str) -> (r: HistoryLookup)
    ensures
        answers(history@, id@, r),
{
    if id.is_empty() {
        return HistoryLookup::All;
    }
    let mut i: usize = 0;
    while i < history.len()
        invariant
            i <= history@.len(),
            id@.len() > 0,
            forall|j: int| 0 <= j < i ==> #[trigger] history@[j].request_id@ != id@,
        decreases history@.len() - i,
    {
        if str_eq(history[i].request_id.as_str(), id) {
            let status: u16 = if history[i].success {
                200
            } else {
                500
            };
            return HistoryLookup::Found { index: i, status };
        }
        i = i + 1;
    }
    HistoryLookup::Missing
}

/// The HTTP status a query of the history is answered with: 200 for the
/// whole history, the entry's own status for a request that is found, and
/// 200, with a body that names the unknown id, for one that is not.
pub open spec fn spec_lookup_status(r: HistoryLookup) -> u16 {
    match r {
        HistoryLookup::All => 200,
        HistoryLookup::Found { status, .. } => status,
        HistoryLookup::Missing => 200,
    }
}

/// The HTTP status that the answer `r` of [`request_history_list`] is served with.
pub fn lookup_status(r: HistoryLookup) -> (status: u16)
    ensures
        status == spec_lookup_status(r),
{
    match r {
        HistoryLookup::All => 200,
        HistoryLookup::Found { status, .. } => status,
        HistoryLookup::Missing => 200,
    }
}

/// Every query of the history is answered with 200, but a query for a
/// request that failed, which is answered with 500.
pub proof fn law_history_query_status(h: Seq<RequestEntry>, id: Seq<char>, r: HistoryLookup)
    requires
        answers(h, id, r),
    ensures
        spec_lookup_status(r) == 200 || spec_lookup_status(r) == 500,
        spec_lookup_status(r) == 500 <==> (r matches HistoryLookup::Found { index, .. } && !h[index as int].success),
{
}

/// How an entry reads once its execution ended with `outcome`: a success
/// keeps its result, a failure holds the error text as its result.
pub open spec fn settled(e: RequestEntry, outcome: Result<serde_json::Value, String>) -> RequestEntry {
    match outcome {
        Ok(_) => RequestEntry { success: true, ..e },
        Err(err) => RequestEntry { result: Some(json_string(err@)), success: false, ..e },
    }
}

/// Law: recording how a request ended changes only its success flag and, for
/// a failure, its result: a success keeps the result the run produced, a
/// failure holds the error text; every other field is kept.
pub proof fn law_settled_entry_keeps_the_request(e: RequestEntry, outcome: Result<serde_json::Value, String>)
    ensures
        settled(e, outcome).success == outcome is Ok,
        outcome is Ok ==> settled(e, outcome).result == e.result,
        outcome matches Err(err) ==> settled(e, outcome).result == Some(json_string(err@)),
        settled(e, outcome).request_id == e.request_id,
        settled(e, outcome).deployment_id == e.deployment_id,
        settled(e, outcome).module_name == e.module_name,
        settled(e, outcome).function_name == e.function_name,
        settled(e, outcome).method == e.method,
        settled(e, outcome).request_args == e.request_args,
        settled(e, outcome).request_files == e.request_files,
        settled(e, outcome).work_queued_at == e.work_queued_at,
        settled(e, outcome).outputs == e.outputs,
        settled(e, outcome).step_index == e.step_index,
{
}

/// Records the end of a request's execution: marks `entry` as succeeded or
/// failed by `outcome`, appends it to the history, and gives back the final
/// result of a success.
pub fn make_history(
    history: &mut Vec<RequestEntry>,
    entry: RequestEntry,
    outcome: Result<serde_json::Value, String>,
) -> (r: Option<serde_json::Value>)
    ensures
        final(history)@ == old(history)@.push(settled(entry, outcome)),
        final(history)@.len() == old(history)@.len() + 1,
        final(history)@.last().success == outcome is Ok,
        outcome is Ok ==> final(history)@.last().result == entry.result,
        outcome matches Err(err) ==> final(history)@.last().result == Some(json_string(err@)),
        final(history)@.last().request_id == entry.request_id,
        final(history)@.last().deployment_id == entry.deployment_id,
        final(history)@.last().module_name == entry.module_name,
        final(history)@.last().function_name == entry.function_name,
        final(history)@.last().method == entry.method,
        final(history)@.last().request_args == entry.request_args,
        final(history)@.last().request_files == entry.request_files,
        final(history)@.last().work_queued_at == entry.work_queued_at,
        final(history)@.last().outputs == entry.outputs,
        final(history)@.last().step_index == entry.step_index,
        r == match outcome {
            Ok(v) => Some(v),
            Err(_) => None,
        },
{
    let mut entry = entry;
    match outcome {
        Ok(v) => {
            entry.success = true;
            history.push(entry);
            Some(v)
        },
        Err(err) => {
            entry.result = Some(json_from_string(err));
            entry.success = false;
            history.push(entry);
            None
        },
    }
}

/// A request recorded in the history is found again by its id, with the
/// status of its outcome, provided no earlier request had the same id.
pub proof fn law_recorded_request_is_found(
    h: Seq<RequestEntry>,
    e: RequestEntry,
    outcome: Result<serde_json::Value, String>,
    r: HistoryLookup,
)
    requires
        e.request_id@.len() > 0,
        forall|j: int| 0 <= j < h.len() ==> #[trigger] h[j].request_id@ != e.request_id@,
        answers(h.push(settled(e, outcome)), e.request_id@, r),
    ensures
        r matches HistoryLookup::Found { index, status } && index == h.len() && status == (if outcome is Ok {
            200u16
        } else {
            500u16
        }),
{
    let h2 = h.push(settled(e, outcome));
    assert(h2[h.len() as int] == settled(e, outcome));
    match r {
        HistoryLookup::Found { index, status } => {
            if index < h.len() {
                assert(h2[index as int] == h[index as int]);
            }
        },
        HistoryLookup::Missing => {
            assert(h2[h.len() as int].request_id@ == e.request_id@);
        },
        HistoryLookup::All => {},
    }
}

} // verus!
