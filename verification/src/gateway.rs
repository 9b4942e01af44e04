//! Decision layer of the RPC-facing operations: each function takes what came
//! back from one daemon call (or `None` when the connection failed) and
//! computes the caller-visible outcome. The connection itself is made outside
//! the library; these functions are total over every possible outcome.

use vstd::prelude::*;

use crate::status::{err_of, normalize, raw_ok, spec_normalize, FormatError, NormalizedTask,
    RawTaskStatus};

verus! {

/// The sentinel the version probe yields when the daemon cannot be reached.
pub open spec fn no_response_text() -> Seq<char> {
    "did not respond"@
}

/// Caller-visible result of the version probe: the reported version, or the
/// sentinel when the daemon did not answer.
pub fn version_outcome(resp: Option<String>) -> (r: String)
    ensures
        resp matches Some(v) ==> r@ == v@,
        resp is None ==> r@ == no_response_text(),
{
    match resp {
        Some(v) => v,
        None => "did not respond".to_owned(),
    }
}

/// Caller-visible result of a pause or unpause request: a confirmation string
/// on success, nothing on failure.
pub fn pause_outcome(succeeded: bool) -> (r: Option<String>)
    ensures
        succeeded ==> (r matches Some(s) && s@ == "Ok"@),
        !succeeded ==> r is None,
{
    if succeeded {
        Some("Ok".to_owned())
    } else {
        None
    }
}

/// Caller-visible list of active task identifiers: what the daemon reported,
/// or an empty list when the connection failed.
pub fn active_gids_from(fetched: Option<Vec<String>>) -> (r: Vec<String>)
    ensures
        fetched matches Some(g) ==> r == g,
        fetched is None ==> r@.len() == 0,
{
    match fetched {
        Some(g) => g,
        None => Vec::new(),
    }
}

/// Converts the records of one task-list poll. `None` stands for a failed
/// connection and yields `(None, None)`, never a partial list; otherwise every
/// record is normalized, and the first malformed record fails the whole poll.
pub fn tell_active_from(fetched: Option<Vec<RawTaskStatus>>) -> (r: Result<
    (Option<Vec<String>>, Option<Vec<NormalizedTask>>),
    FormatError,
>)
    requires
        fetched matches Some(v) ==> forall|i: int|
            0 <= i < v@.len() ==> #[trigger] v@[i].completed_length <= v@[i].total_length,
    ensures
        fetched is None ==> (r matches Ok(p) && p.0 is None && p.1 is None),
        (fetched matches Some(v) && forall|i: int| 0 <= i < v@.len() ==> raw_ok(#[trigger] v@[i]@))
            <==> (fetched is Some && r is Ok && r->Ok_0.0 is Some),
        fetched matches Some(v) ==> (r matches Ok(p) ==> (p.0 matches Some(gids)
            && p.1 matches Some(tasks) && gids@.map_values(|s: String| s@) == v@.map_values(
            |x: RawTaskStatus| x@.gid,
        ) && tasks@.map_values(|t: NormalizedTask| t@) == v@.map_values(
            |x: RawTaskStatus| spec_normalize(x@),
        ))),
        r matches Err(e) ==> (fetched matches Some(v) && exists|k: int|
            {
                &&& 0 <= k < v@.len()
                &&& !raw_ok(v@[k]@)
                &&& e == err_of(v@[k]@)
                &&& forall|j: int| 0 <= j < k ==> raw_ok(#[trigger] v@[j]@)
            }),
{
    if fetched.is_none() {
        return Ok((None, None));
    }
    let records: Vec<RawTaskStatus> = fetched.unwrap();
    let mut gids: Vec<String> = Vec::new();
    let mut tasks: Vec<NormalizedTask> = Vec::new();
    let n = records.len();
    let mut i: usize = 0;
    while i < n
        invariant
            fetched == Some(records),
            n == records@.len(),
            0 <= i <= n,
            forall|j: int|
                0 <= j < records@.len() ==> #[trigger] records@[j].completed_length
                    <= records@[j].total_length,
            forall|j: int| 0 <= j < i ==> raw_ok(#[trigger] records@[j]@),
            gids@.len() == i,
            tasks@.len() == i,
            forall|j: int| 0 <= j < i ==> #[trigger] gids@[j]@ == records@[j]@.gid,
            forall|j: int| 0 <= j < i ==> #[trigger] tasks@[j]@ == spec_normalize(records@[j]@),
        decreases n - i,
    {
        let rec = &records[i];
        match normalize(rec) {
            Err(e) => {
                proof {
                    assert(fetched matches Some(v) && v == records);
                    assert(!raw_ok(records@[i as int]@));
                    assert(exists|k: int|
                        {
                            &&& 0 <= k < records@.len()
                            &&& !raw_ok(records@[k]@)
                            &&& e == err_of(records@[k]@)
                            &&& forall|j: int| 0 <= j < k ==> raw_ok(#[trigger] records@[j]@)
                        }) by {
                        let ii = i as int;
                        assert({
                            &&& 0 <= ii < records@.len()
                            &&& !raw_ok(records@[ii]@)
                            &&& e == err_of(records@[ii]@)
                            &&& forall|j: int| 0 <= j < ii ==> raw_ok(#[trigger] records@[j]@)
                        });
                    }
                }
                return Err(e);
            },
            Ok(t) => {
                gids.push(rec.gid.clone());
                tasks.push(t);
            },
        }
        i += 1;
    }
    proof {
        assert(gids@.map_values(|s: String| s@) =~= records@.map_values(
            |x: RawTaskStatus| x@.gid,
        ));
        assert(tasks@.map_values(|t: NormalizedTask| t@) =~= records@.map_values(
            |x: RawTaskStatus| spec_normalize(x@),
        ));
    }
    Ok((Some(gids), Some(tasks)))
}

} // verus!
