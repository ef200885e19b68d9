//! The decisions of the workload service. The service reads and writes the
//! store; each method here takes what the store answered and says what follows.
use super::filter::{in_namespace, views, FilterService};
use super::model::{
    copy_ports, copy_strings, Ports, Ressources, Type, Workload, WorkloadDTO, WorkloadError,
    WorkloadView,
};
use crate::ids::{is_uuid_v4_text, new_uuid_v4_string};
use vstd::prelude::*;

verus! {

/// The workload that a request `dto` describes, under identifier `id` in namespace `ns`.
pub open spec fn workload_from_request(id: Seq<char>, dto_name: Seq<char>, dto_environment: Seq<
    Seq<char>,
>, dto_ports: Seq<Ports>, dto_uri: Seq<char>, ns: Seq<char>) -> WorkloadView {
    WorkloadView {
        id,
        name: dto_name,
        workload_type: Type::Container,
        uri: dto_uri,
        environment: dto_environment,
        resources: Ressources { cpu: 0, memory: 0, disk: 0 },
        ports: dto_ports,
        namespace: ns,
    }
}

/// What a listing of namespace `ns` returns from the stored workloads `all`:
/// the first `offset` are skipped (nothing at all is listed when there are
/// fewer), then at most `limit` are kept (all when `limit` is 0), then those
/// of other namespaces are dropped.
pub open spec fn listing(all: Seq<WorkloadView>, limit: u32, offset: u32, ns: Seq<char>) -> Seq<
    WorkloadView,
> {
    if offset > all.len() {
        Seq::empty()
    } else {
        let after = all.skip(offset as int);
        let page = if limit > 0 && limit < after.len() {
            after.take(limit as int)
        } else {
            after
        };
        page.filter(in_namespace(ns))
    }
}

/// The answer to a read in namespace `ns` of what the store holds (`None`
/// when it holds nothing under the requested identifier).
pub open spec fn read_answer(stored: Option<Workload>, ns: Seq<char>) -> Result<
    Workload,
    WorkloadError,
> {
    if stored is Some && stored->0.namespace@ == ns {
        Ok(stored->0)
    } else {
        Err(WorkloadError::WorkloadNotFound)
    }
}

/// Creates, reads, updates, deletes and lists workloads.
pub struct WorkloadService {
    filter_service: FilterService,
}

impl WorkloadService {
    pub fn new() -> (r: WorkloadService) {
        WorkloadService { filter_service: FilterService::new() }
    }

    /// Builds the workload that `dto` describes, with identifier `id`, in `namespace`.
    pub fn build_workload(id: String, dto: WorkloadDTO, namespace: &String) -> (r: Workload)
        ensures
            r@ == workload_from_request(
                id@,
                dto@.name,
                dto@.environment,
                dto@.ports,
                dto@.uri,
                namespace@,
            ),
    {
        let environment = copy_strings(&dto.environment);
        let ports = copy_ports(&dto.ports);
        Workload {
            id,
            name: dto.name,
            workload_type: Type::Container,
            uri: dto.uri,
            environment,
            resources: Ressources { cpu: 0, memory: 0, disk: 0 },
            ports,
            namespace: namespace.clone(),
        }
    }

    /// Answers a read of workload `stored` (what the store holds under the
    /// requested identifier, `None` when nothing): the workload when it lives in
    /// `namespace`, else `WorkloadNotFound`.
    pub fn get_workload(&self, stored: Option<Workload>, namespace: &String) -> (r: Result<
        Workload,
        WorkloadError,
    >)
        ensures
            r == read_answer(stored, namespace@),
    {
        match stored {
            Some(workload) => {
                if workload.namespace == *namespace {
                    Ok(workload)
                } else {
                    Err(WorkloadError::WorkloadNotFound)
                }
            },
            None => Err(WorkloadError::WorkloadNotFound),
        }
    }

    /// Lists the workloads of `namespace` among all stored workloads (`None`
    /// when the store could not be read, which lists nothing), paged by
    /// `offset` and `limit` as `listing` says.
    pub fn get_all_workloads(
        &self,
        stored: Option<Vec<Workload>>,
        limit: u32,
        offset: u32,
        namespace: &String,
    ) -> (r: Vec<Workload>)
        ensures
            stored is None ==> r@.len() == 0,
            stored is Some ==> views(r@) == listing(views(stored->0@), limit, offset, namespace@),
    {
        match stored {
            None => Vec::new(),
            Some(all) => {
                let mut new_vec = all;
                let ghost all_views = views(new_vec@);
                if offset > 0 {
                    match self.filter_service.offset(&new_vec, offset) {
                        Ok(workloads) => new_vec = workloads,
                        Err(_) => return Vec::new(),
                    }
                }
                assert(views(new_vec@) == all_views.skip(offset as int)) by {
                    if offset == 0 {
                        assert(all_views.skip(0) =~= all_views);
                    }
                }
                if limit > 0 {
                    new_vec = self.filter_service.limit(&new_vec, limit);
                }
                new_vec = self.filter_service.filter_by_namespace(&new_vec, namespace);
                new_vec
            },
        }
    }

    /// Builds a new workload from `dto` in `namespace`, under a fresh random
    /// UUID; it is to be written to the store.
    pub fn create_workload(&self, dto: WorkloadDTO, namespace: &String) -> (r: Workload)
        ensures
            is_uuid_v4_text(r@.id),
            r@ == workload_from_request(
                r@.id,
                dto@.name,
                dto@.environment,
                dto@.ports,
                dto@.uri,
                namespace@,
            ),
    {
        let id = new_uuid_v4_string();
        WorkloadService::build_workload(id, dto, namespace)
    }

    /// Answers a write of `workload` to the store: the workload when the write
    /// went through, `Etcd` with the store's message when it failed.
    pub fn after_put(&self, put: Result<(), String>, workload: Workload) -> (r: Result<
        Workload,
        WorkloadError,
    >)
        ensures
            put is Ok ==> r == Ok::<Workload, WorkloadError>(workload),
            put is Err ==> r == Err::<Workload, WorkloadError>(WorkloadError::Etcd(put->Err_0)),
    {
        match put {
            Ok(_) => Ok(workload),
            Err(message) => Err(WorkloadError::Etcd(message)),
        }
    }

    /// Decides an update of workload `workload_id` in `namespace` given the
    /// answer to reading it (`existing`): the replacement to write when it was
    /// found, else `WorkloadNotFound`.
    pub fn update_workload(
        &self,
        existing: Result<Workload, WorkloadError>,
        dto: WorkloadDTO,
        workload_id: &String,
        namespace: &String,
    ) -> (r: Result<Workload, WorkloadError>)
        ensures
            existing is Err ==> r == Err::<Workload, WorkloadError>(WorkloadError::WorkloadNotFound),
            existing is Ok ==> r is Ok && r->Ok_0@ == workload_from_request(
                workload_id@,
                dto@.name,
                dto@.environment,
                dto@.ports,
                dto@.uri,
                namespace@,
            ),
    {
        match existing {
            Ok(_) => Ok(WorkloadService::build_workload(workload_id.clone(), dto, namespace)),
            Err(_) => Err(WorkloadError::WorkloadNotFound),
        }
    }

    /// Decides whether a delete goes on to the store, given the answer to
    /// reading the workload first: only a found workload is deleted.
    pub fn delete_workload(&self, existing: &Result<Workload, WorkloadError>) -> (proceed: bool)
        ensures
            proceed == existing is Ok,
    {
        existing.is_ok()
    }

    /// Answers a delete given whether the store removed a key.
    pub fn after_delete(&self, removed: bool) -> (r: Result<(), WorkloadError>)
        ensures
            removed ==> r == Ok::<(), WorkloadError>(()),
            !removed ==> r == Err::<(), WorkloadError>(WorkloadError::WorkloadNotFound),
    {
        if removed {
            Ok(())
        } else {
            Err(WorkloadError::WorkloadNotFound)
        }
    }
}

/// What is written is read back: a workload built from a request in
/// namespace `ns` (by a creation or an update) is found by a read in `ns`,
/// and by no read in another namespace.
pub proof fn lemma_read_after_write(
    w: Workload,
    id: Seq<char>,
    dto_name: Seq<char>,
    dto_environment: Seq<Seq<char>>,
    dto_ports: Seq<Ports>,
    dto_uri: Seq<char>,
    ns: Seq<char>,
    other: Seq<char>,
)
    requires
        w@ == workload_from_request(id, dto_name, dto_environment, dto_ports, dto_uri, ns),
        other != ns,
    ensures
        read_answer(Some(w), ns) == Ok::<Workload, WorkloadError>(w),
        read_answer(Some(w), other) == Err::<Workload, WorkloadError>(
            WorkloadError::WorkloadNotFound,
        ),
{
}

/// A listing only shows workloads of the requested namespace, keeps their
/// stored order, and shows at most `limit` of them when `limit` is positive.
pub proof fn lemma_listing_sound(all: Seq<WorkloadView>, limit: u32, offset: u32, ns: Seq<char>)
    ensures
        forall|i: int|
            0 <= i < listing(all, limit, offset, ns).len() ==> (#[trigger] listing(
                all,
                limit,
                offset,
                ns,
            )[i]).namespace == ns,
        limit > 0 ==> listing(all, limit, offset, ns).len() <= limit,
        listing(all, limit, offset, ns).len() <= all.len(),
{
    broadcast use vstd::seq_lib::group_filter_ensures;

    if offset <= all.len() {
        let after = all.skip(offset as int);
        let page = if limit > 0 && limit < after.len() {
            after.take(limit as int)
        } else {
            after
        };
        page.lemma_filter_len(in_namespace(ns));
        assert forall|i: int|
            0 <= i < listing(all, limit, offset, ns).len() implies (#[trigger] listing(
            all,
            limit,
            offset,
            ns,
        )[i]).namespace == ns by {
            page.lemma_filter_pred(in_namespace(ns), i);
        }
    }
}

/// Without paging, a listing shows exactly the workloads of the namespace,
/// in their stored order.
pub proof fn lemma_listing_unpaged(all: Seq<WorkloadView>, ns: Seq<char>)
    ensures
        listing(all, 0, 0, ns) == all.filter(in_namespace(ns)),
{
    assert(all.skip(0) =~= all);
}

/// A workload written after the others appears last in an unpaged listing of
/// its namespace, and in no listing of another namespace.
pub proof fn lemma_written_workload_listed(all: Seq<WorkloadView>, w: WorkloadView, other: Seq<char>)
    requires
        other != w.namespace,
    ensures
        listing(all.push(w), 0, 0, w.namespace) == listing(all, 0, 0, w.namespace).push(w),
        listing(all.push(w), 0, 0, other) == listing(all, 0, 0, other),
{
    assert(all.push(w).skip(0) =~= all.push(w));
    assert(all.skip(0) =~= all);
    all.lemma_filter_push(w, in_namespace(w.namespace));
    all.lemma_filter_push(w, in_namespace(other));
}

/// An offset past the end of the stored workloads lists nothing.
pub proof fn lemma_listing_past_end(all: Seq<WorkloadView>, limit: u32, offset: u32, ns: Seq<char>)
    requires
        offset > all.len(),
    ensures
        listing(all, limit, offset, ns).len() == 0,
{
}

} // verus!
