//! The deletions of a retention sweep as a state machine: the expired logs
//! are deleted one by one, then the excess ones. A failed deletion ends the
//! sweep with its error, and only the logs that phase had deleted are
//! dropped from the metadata index; a sweep that completes drops every
//! deleted log and reports how many there were.

use crate::log_store::{string_views, SweepPlan, ToolLogStoreError};
use vstd::prelude::*;

verus! {

/// Where a sweep's deletions stand.
#[derive(Debug)]
pub enum SweepFlow {
    /// Deleting expired logs: the first `done` are deleted, the next is
    /// being deleted.
    DeletingExpired {
        /// The sweep's plan.
        plan: SweepPlan,
        /// How many expired logs are deleted.
        done: usize,
    },
    /// Deleting excess logs, every expired one being deleted: the first
    /// `done` excess logs are deleted, the next is being deleted.
    DeletingExcess {
        /// The sweep's plan.
        plan: SweepPlan,
        /// How many excess logs are deleted.
        done: usize,
    },
    /// The sweep has ended.
    Done,
}

/// The deletion to make next, or the end of the sweep.
#[derive(Debug)]
pub enum SweepStep {
    /// Delete the log blob at this path.
    DeleteBlob(String),
    /// The sweep ends: drop these paths from the metadata index, and answer
    /// with the number of deleted logs or the deletion's error.
    Finish {
        /// Paths to drop from the metadata index.
        purge: Vec<String>,
        /// The sweep's answer.
        outcome: Result<usize, ToolLogStoreError>,
    },
}

/// The flow is waiting on a deletion that its plan holds.
pub open spec fn sweep_pending(flow: SweepFlow) -> bool {
    match flow {
        SweepFlow::DeletingExpired { plan, done } => done < plan.expired@.len(),
        SweepFlow::DeletingExcess { plan, done } => done < plan.excess@.len(),
        SweepFlow::Done => false,
    }
}

/// Whether `flow` and `step` start the deletions of excess logs under
/// `plan`, all expired ones being deleted.
pub open spec fn excess_phase_starts(plan: SweepPlan, flow: SweepFlow, step: SweepStep) -> bool {
    if plan.excess@.len() > 0 {
        &&& flow == (SweepFlow::DeletingExcess { plan, done: 0 })
        &&& step matches SweepStep::DeleteBlob(p) && p@ == plan.excess@[0]@
    } else {
        &&& flow == SweepFlow::Done
        &&& step matches SweepStep::Finish { purge, outcome }
        &&& string_views(purge@) == string_views(plan.expired@)
        &&& outcome == Ok::<usize, ToolLogStoreError>(plan.expired@.len() as usize)
    }
}

fn copy_strings(v: &Vec<String>, n: usize) -> (r: Vec<String>)
    requires
        n <= v@.len(),
    ensures
        string_views(r@) == string_views(v@.take(n as int)),
{
    let mut out: Vec<String> = Vec::new();
    for i in 0..n
        invariant
            n <= v@.len(),
            out@.len() == i,
            forall|k: int| 0 <= k < i ==> (#[trigger] out@[k])@ == v@[k]@,
    {
        out.push(v[i].clone());
    }
    assert(string_views(out@) =~= string_views(v@.take(n as int)));
    out
}

fn start_excess(plan: SweepPlan) -> (r: (SweepFlow, SweepStep))
    ensures
        excess_phase_starts(plan, r.0, r.1),
{
    if plan.excess.len() > 0 {
        let path = plan.excess[0].clone();
        (SweepFlow::DeletingExcess { plan, done: 0 }, SweepStep::DeleteBlob(path))
    } else {
        let n = plan.expired.len();
        let purge = copy_strings(&plan.expired, n);
        assert(plan.expired@.take(n as int) =~= plan.expired@);
        (SweepFlow::Done, SweepStep::Finish { purge, outcome: Ok(n) })
    }
}

impl SweepFlow {
    /// The first deletion of a sweep with `plan`: the first expired log,
    /// else the first excess log; a plan with nothing to delete ends the
    /// sweep at once with nothing deleted.
    pub fn begin(plan: SweepPlan) -> (r: (SweepFlow, SweepStep))
        requires
            plan.expired@.len() + plan.excess@.len() <= usize::MAX,
        ensures
            plan.expired@.len() > 0 ==> r.0 == (SweepFlow::DeletingExpired { plan, done: 0 }) && (r.1 matches SweepStep::DeleteBlob(
                p,
            ) && p@ == plan.expired@[0]@),
            plan.expired@.len() == 0 ==> excess_phase_starts(plan, r.0, r.1),
            sweep_pending(r.0) || r.0 == SweepFlow::Done,
    {
        if plan.expired.len() > 0 {
            let path = plan.expired[0].clone();
            (SweepFlow::DeletingExpired { plan, done: 0 }, SweepStep::DeleteBlob(path))
        } else {
            start_excess(plan)
        }
    }

    /// Takes the answer of the pending deletion and gives the next state
    /// and deletion, or the end of the sweep.
    pub fn step(self, deleted: Result<(), ToolLogStoreError>) -> (r: (SweepFlow, SweepStep))
        requires
            sweep_pending(self),
            match self {
                SweepFlow::DeletingExpired { plan, .. } => plan.expired@.len() + plan.excess@.len() <= usize::MAX,
                SweepFlow::DeletingExcess { plan, .. } => plan.expired@.len() + plan.excess@.len() <= usize::MAX,
                SweepFlow::Done => true,
            },
        ensures
            sweep_pending(r.0) || r.0 == SweepFlow::Done,
            match (self, deleted) {
                (SweepFlow::DeletingExpired { plan, done }, Err(e)) => r.0 == SweepFlow::Done && (r.1 matches SweepStep::Finish {
                    purge,
                    outcome,
                } && string_views(purge@) == string_views(plan.expired@.take(done as int)) && outcome == Err::<
                    usize,
                    ToolLogStoreError,
                >(e)),
                (SweepFlow::DeletingExpired { plan, done }, Ok(())) => if done + 1 < plan.expired@.len() {
                    r.0 == (SweepFlow::DeletingExpired { plan, done: (done + 1) as usize }) && (r.1 matches SweepStep::DeleteBlob(
                        p,
                    ) && p@ == plan.expired@[done + 1]@)
                } else {
                    excess_phase_starts(plan, r.0, r.1)
                },
                (SweepFlow::DeletingExcess { plan, done }, Err(e)) => r.0 == SweepFlow::Done && (r.1 matches SweepStep::Finish {
                    purge,
                    outcome,
                } && string_views(purge@) == string_views(plan.excess@.take(done as int)) && outcome == Err::<
                    usize,
                    ToolLogStoreError,
                >(e)),
                (SweepFlow::DeletingExcess { plan, done }, Ok(())) => if done + 1 < plan.excess@.len() {
                    r.0 == (SweepFlow::DeletingExcess { plan, done: (done + 1) as usize }) && (r.1 matches SweepStep::DeleteBlob(
                        p,
                    ) && p@ == plan.excess@[done + 1]@)
                } else {
                    r.0 == SweepFlow::Done && (r.1 matches SweepStep::Finish { purge, outcome } && string_views(purge@)
                        == string_views(plan.expired@) + string_views(plan.excess@) && outcome == Ok::<
                        usize,
                        ToolLogStoreError,
                    >((plan.expired@.len() + plan.excess@.len()) as usize))
                },
                _ => false,
            },
    {
        match (self, deleted) {
            (SweepFlow::DeletingExpired { plan, done }, Err(e)) => {
                let purge = copy_strings(&plan.expired, done);
                (SweepFlow::Done, SweepStep::Finish { purge, outcome: Err(e) })
            },
            (SweepFlow::DeletingExpired { plan, done }, Ok(())) => {
                let next = done + 1;
                if next < plan.expired.len() {
                    let path = plan.expired[next].clone();
                    (SweepFlow::DeletingExpired { plan, done: next }, SweepStep::DeleteBlob(path))
                } else {
                    start_excess(plan)
                }
            },
            (SweepFlow::DeletingExcess { plan, done }, Err(e)) => {
                let purge = copy_strings(&plan.excess, done);
                (SweepFlow::Done, SweepStep::Finish { purge, outcome: Err(e) })
            },
            (SweepFlow::DeletingExcess { plan, done }, Ok(())) => {
                let next = done + 1;
                if next < plan.excess.len() {
                    let path = plan.excess[next].clone();
                    (SweepFlow::DeletingExcess { plan, done: next }, SweepStep::DeleteBlob(path))
                } else {
                    let ne = plan.expired.len();
                    let nx = plan.excess.len();
                    let mut purge = copy_strings(&plan.expired, ne);
                    let tail = copy_strings(&plan.excess, nx);
                    assert(plan.expired@.take(ne as int) =~= plan.expired@);
                    assert(plan.excess@.take(nx as int) =~= plan.excess@);
                    let ghost head = purge@;
                    let mut rest = tail;
                    purge.append(&mut rest);
                    assert(string_views(purge@) =~= string_views(head) + string_views(tail@));
                    (SweepFlow::Done, SweepStep::Finish { purge, outcome: Ok(ne + nx) })
                }
            },
            _ => {
                proof {
                    assert(false);
                }
                (SweepFlow::Done, SweepStep::Finish { purge: Vec::new(), outcome: Ok(0) })
            },
        }
    }
}

} // verus!
