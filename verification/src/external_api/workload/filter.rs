//! Paging and namespace filtering of workload listings.
use super::model::{Workload, WorkloadError, WorkloadView};
use vstd::prelude::*;

verus! {

/// The views of a list of workloads.
pub open spec fn views(ws: Seq<Workload>) -> Seq<WorkloadView> {
    ws.map_values(|w: Workload| w@)
}

/// Holds a workload when it lives in namespace `ns`.
pub open spec fn in_namespace(ns: Seq<char>) -> spec_fn(WorkloadView) -> bool {
    |w: WorkloadView| w.namespace == ns
}

/// Cuts and filters lists of workloads.
pub struct FilterService {}

impl FilterService {
    pub fn new() -> (r: FilterService) {
        FilterService {}
    }

    /// Drops the first `offset` workloads; `OutOfRange` when there are fewer
    /// than `offset` of them.
    pub fn offset(&self, workloads: &Vec<Workload>, offset: u32) -> (r: Result<
        Vec<Workload>,
        WorkloadError,
    >)
        ensures
            offset > workloads.len() ==> r == Err::<Vec<Workload>, WorkloadError>(
                WorkloadError::OutOfRange,
            ),
            offset <= workloads.len() ==> r is Ok && views(r->Ok_0@) == views(
                workloads@,
            ).skip(offset as int),
    {
        if offset as usize > workloads.len() {
            return Err(WorkloadError::OutOfRange);
        }
        let mut r: Vec<Workload> = Vec::new();
        let mut i: usize = offset as usize;
        while i < workloads.len()
            invariant
                offset <= i <= workloads.len(),
                views(r@) == views(workloads@).subrange(offset as int, i as int),
            decreases workloads.len() - i,
        {
            let w = workloads[i].clone();
            let ghost old_r = r@;
            r.push(w);
            assert(views(r@) =~= views(old_r).push(workloads@[i as int]@));
            i = i + 1;
            assert(views(r@) =~= views(workloads@).subrange(offset as int, i as int));
        }
        Ok(r)
    }

    /// Keeps the first `limit` workloads, or all of them when there are fewer.
    pub fn limit(&self, workloads: &Vec<Workload>, limit: u32) -> (r: Vec<Workload>)
        ensures
            limit < workloads.len() ==> views(r@) == views(workloads@).take(limit as int),
            limit >= workloads.len() ==> views(r@) == views(workloads@),
    {
        let mut r: Vec<Workload> = Vec::new();
        let mut i: usize = 0;
        while i < workloads.len() && i < limit as usize
            invariant
                i <= workloads.len(),
                i <= limit,
                views(r@) == views(workloads@).take(i as int),
            decreases workloads.len() - i,
        {
            let w = workloads[i].clone();
            let ghost old_r = r@;
            r.push(w);
            assert(views(r@) =~= views(old_r).push(workloads@[i as int]@));
            i = i + 1;
            assert(views(r@) =~= views(workloads@).take(i as int));
        }
        assert(limit >= workloads.len() ==> views(workloads@).take(i as int) =~= views(
            workloads@,
        ));
        r
    }

    /// Keeps the workloads of namespace `namespace`, in their order.
    pub fn filter_by_namespace(&self, workloads: &Vec<Workload>, namespace: &String) -> (r: Vec<
        Workload,
    >)
        ensures
            views(r@) == views(workloads@).filter(in_namespace(namespace@)),
    {
        let mut r: Vec<Workload> = Vec::new();
        let mut i: usize = 0;
        while i < workloads.len()
            invariant
                i <= workloads.len(),
                views(r@) == views(workloads@).take(i as int).filter(in_namespace(namespace@)),
            decreases workloads.len() - i,
        {
            let ghost before = views(workloads@).take(i as int);
            if workloads[i].namespace == *namespace {
                r.push(workloads[i].clone());
            }
            proof {
                before.lemma_filter_push(workloads@[i as int]@, in_namespace(namespace@));
                assert(views(workloads@).take(i + 1) =~= before.push(workloads@[i as int]@));
                assert(views(r@) =~= views(workloads@).take(i + 1).filter(
                    in_namespace(namespace@),
                ));
            }
            i = i + 1;
        }
        assert(views(workloads@).take(workloads.len() as int) =~= views(workloads@));
        r
    }
}

} // verus!
