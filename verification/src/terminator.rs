//! Selecting, from one enumeration of the host's processes, those whose
//! identifier belongs to the requested set.
//!
//! The enumeration and the termination signals themselves are host I/O and
//! live in the surrounding binary; the selection rule — which processes are
//! attempted, and in which order — is decided here and verified.

use vstd::prelude::*;

verus! {

/// One enumerated process: its identifier, and, where resolution
/// succeeded, a human-readable name and command line for reporting.
#[derive(Debug)]
pub struct ProcessHandle {
    pub pid: u32,
    pub name: Option<String>,
    pub command: Option<String>,
}

/// `plan` is exactly the selection that a termination pass must attempt on
/// the enumeration `procs` for the identifier set `ids`: the indices, in
/// enumeration order, of every process whose identifier is in `ids`.
pub open spec fn is_target_plan(procs: Seq<ProcessHandle>, ids: Seq<u32>, plan: Seq<usize>) -> bool {
    &&& forall|k: int| 0 <= k < plan.len() ==> (plan[k] as int) < procs.len()
    &&& forall|k: int| 0 <= k < plan.len() ==> ids.contains(procs[plan[k] as int].pid)
    &&& forall|i: int| 0 <= i < procs.len() && ids.contains(procs[i].pid) ==> plan.contains(i as usize)
    &&& forall|k1: int, k2: int| 0 <= k1 < k2 < plan.len() ==> plan[k1] < plan[k2]
}

/// An empty identifier set selects no process: no termination is attempted
/// and no per-process report is owed.
pub proof fn lemma_empty_ids_no_targets(procs: Seq<ProcessHandle>, ids: Seq<u32>, plan: Seq<usize>)
    requires
        is_target_plan(procs, ids, plan),
        ids.len() == 0,
    ensures
        plan.len() == 0,
{
    if plan.len() > 0 {
        assert(ids.contains(procs[plan[0] as int].pid));
    }
}

/// An identifier set whose members are all absent from the enumeration
/// selects no process: asking for an identifier that no live process
/// carries is not an error, it is simply no work.
pub proof fn lemma_absent_ids_no_targets(procs: Seq<ProcessHandle>, ids: Seq<u32>, plan: Seq<usize>)
    requires
        is_target_plan(procs, ids, plan),
        forall|i: int| 0 <= i < procs.len() ==> !ids.contains(procs[i].pid),
    ensures
        plan.len() == 0,
{
    if plan.len() > 0 {
        let j = plan[0] as int;
        assert(0 <= j < procs.len());
        assert(ids.contains(procs[j].pid));
    }
}

/// Every enumerated process whose identifier is requested stands in the
/// plan: the plan is complete before any signal is sent, so a failure on
/// one attempted process can never remove another from it.
pub proof fn lemma_every_match_attempted(
    procs: Seq<ProcessHandle>,
    ids: Seq<u32>,
    plan: Seq<usize>,
    i: int,
)
    requires
        is_target_plan(procs, ids, plan),
        0 <= i < procs.len(),
        ids.contains(procs[i].pid),
    ensures
        plan.contains(i as usize),
{
}

fn contains_id(ids: &Vec<u32>, x: u32) -> (r: bool)
    ensures
        r == ids@.contains(x),
{
    let n = ids.len();
    let mut i: usize = 0;
    while i < n
        invariant
            0 <= i <= n == ids@.len(),
            forall|j: int| 0 <= j < i ==> ids@[j] != x,
        decreases n - i,
    {
        if ids[i] == x {
            return true;
        }
        i = i + 1;
    }
    false
}

/// Decide which of the enumerated processes a termination pass attempts:
/// the indices into `procs`, in enumeration order, of every process whose
/// identifier is in `ids`. Every match is selected — a failure on one
/// attempted process never removes another from the plan, because the plan
/// is fixed before any signal is sent.
pub fn select_targets(procs: &Vec<ProcessHandle>, ids: &Vec<u32>) -> (plan: Vec<usize>)
    ensures
        is_target_plan(procs@, ids@, plan@),
{
    let n = procs.len();
    let mut plan: Vec<usize> = Vec::new();
    let mut i: usize = 0;
    while i < n
        invariant
            0 <= i <= n == procs@.len(),
            forall|k: int| 0 <= k < plan@.len() ==> (plan@[k] as int) < i,
            forall|k: int| 0 <= k < plan@.len() ==> ids@.contains(procs@[plan@[k] as int].pid),
            forall|j: int| 0 <= j < i && ids@.contains(procs@[j].pid) ==> plan@.contains(j as usize),
            forall|k1: int, k2: int| 0 <= k1 < k2 < plan@.len() ==> plan@[k1] < plan@[k2],
        decreases n - i,
    {
        if contains_id(ids, procs[i].pid) {
            let ghost prior = plan@;
            plan.push(i);
            proof {
                assert(plan@[plan@.len() - 1] == i as usize);
                assert(plan@.contains(i as usize));
                assert forall|j: int|
                    0 <= j < i && ids@.contains(procs@[j].pid) implies plan@.contains(
                    j as usize,
                ) by {
                    assert(prior.contains(j as usize));
                    let k = choose|k: int| 0 <= k < prior.len() && prior[k] == j as usize;
                    assert(plan@[k] == j as usize);
                }
            }
        }
        i = i + 1;
    }
    plan
}

} // verus!
