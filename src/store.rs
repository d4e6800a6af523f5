//! An in-memory store that carries out the service's statements on the three
//! tables, with the handlers of every operation on top of it.
use vstd::prelude::*;
use crate::lifecycle::{
    active_helpers, active_helpers_of, active_requests, active_requests_of, check_helper_id,
    conclude_fetch, conclude_write, new_request_of, prepare_create, validation_error_of, ApiError,
    NewRequest,
};
use crate::record::{HelperRecord, HelperRequestRecord, RequestRecord, Status, StorageError};
use crate::validate::{create_violations, CreateRequestInput, Field};

verus! {

/// Ids are handed out from the two counters, as a serial column does.
pub struct MemoryStore {
    pub helpers: Vec<HelperRecord>,
    pub requests: Vec<RequestRecord>,
    pub proposals: Vec<HelperRequestRecord>,
    pub next_request_id: i32,
    pub next_proposal_id: i32,
}

/// The contents of a [`MemoryStore`].
pub struct StoreView {
    pub helpers: Seq<HelperRecord>,
    pub requests: Seq<RequestRecord>,
    pub proposals: Seq<HelperRequestRecord>,
    pub next_request_id: i32,
    pub next_proposal_id: i32,
}

impl StoreView {
    /// Both counters are at least 1 and above every id already stored, so the
    /// next id handed out is taken by no row: ids stay a primary key.
    pub open spec fn wf(self) -> bool {
        &&& self.next_request_id >= 1
        &&& self.next_proposal_id >= 1
        &&& forall|i: int|
            0 <= i < self.requests.len() ==> #[trigger] self.requests[i].id < self.next_request_id
        &&& forall|i: int|
            0 <= i < self.proposals.len() ==> #[trigger] self.proposals[i].id
                < self.next_proposal_id
    }
}

impl View for MemoryStore {
    type V = StoreView;

    open spec fn view(&self) -> StoreView {
        StoreView {
            helpers: self.helpers@,
            requests: self.requests@,
            proposals: self.proposals@,
            next_request_id: self.next_request_id,
            next_proposal_id: self.next_proposal_id,
        }
    }
}

/// The row that an insertion of `row` stores under `id`.
pub open spec fn stored_request(row: NewRequest, id: i32) -> RequestRecord {
    RequestRecord {
        id,
        title: Some(row.title),
        description: Some(row.description),
        price: Some(row.price),
        requester_id: Some(row.requester_id),
        helper_id: Some(row.helper_id),
        status: row.status,
        deleted_at: None,
    }
}

/// A row after `set helper_id = helper_id, status = in_progress where id = request_id`.
pub open spec fn with_helper(r: RequestRecord, request_id: i32, helper_id: i32) -> RequestRecord {
    if r.id == request_id {
        RequestRecord { helper_id: Some(helper_id), status: Status::InProgress, ..r }
    } else {
        r
    }
}

/// A row after `set status = done where id = request_id`.
pub open spec fn with_done(r: RequestRecord, request_id: i32) -> RequestRecord {
    if r.id == request_id {
        RequestRecord { status: Status::Done, ..r }
    } else {
        r
    }
}

/// How many rows carry the id `id`.
pub open spec fn count_id(rows: Seq<RequestRecord>, id: i32) -> nat
    decreases rows.len(),
{
    if rows.len() == 0 {
        0
    } else {
        count_id(rows.drop_last(), id) + if rows.last().id == id {
            1nat
        } else {
            0nat
        }
    }
}

/// The store after a binding proposal of `helper_id` for `request_id`.
pub open spec fn binding_effect(v: StoreView, request_id: i32, helper_id: i32) -> StoreView {
    if helper_id >= 1 && v.next_proposal_id < i32::MAX {
        StoreView {
            proposals: v.proposals.push(
                HelperRequestRecord {
                    id: v.next_proposal_id,
                    request_id: Some(request_id),
                    helper_id: Some(helper_id),
                },
            ),
            next_proposal_id: (v.next_proposal_id + 1) as i32,
            ..v
        }
    } else {
        v
    }
}

/// The store after `helper_id` was accepted for `request_id`.
pub open spec fn accept_effect(v: StoreView, request_id: i32, helper_id: i32) -> StoreView {
    if helper_id >= 1 {
        StoreView {
            requests: v.requests.map_values(|r: RequestRecord| with_helper(r, request_id, helper_id)),
            ..v
        }
    } else {
        v
    }
}

/// The store after `request_id` was marked done.
pub open spec fn done_effect(v: StoreView, request_id: i32) -> StoreView {
    StoreView { requests: v.requests.map_values(|r: RequestRecord| with_done(r, request_id)), ..v }
}

proof fn lemma_count_step(rows: Seq<RequestRecord>, i: int, id: i32)
    requires
        0 <= i < rows.len(),
    ensures
        count_id(rows.subrange(0, i + 1), id) == count_id(rows.subrange(0, i), id) + if rows[i].id
            == id {
            1nat
        } else {
            0nat
        },
{
    assert(rows.subrange(0, i + 1).drop_last() =~= rows.subrange(0, i));
}

impl MemoryStore {
    pub open spec fn wf(&self) -> bool {
        self@.wf()
    }

    pub fn new() -> (r: MemoryStore)
        ensures
            r.wf(),
            r@.helpers.len() == 0,
            r@.requests.len() == 0,
            r@.proposals.len() == 0,
            r@.next_request_id == 1,
            r@.next_proposal_id == 1,
    {
        MemoryStore {
            helpers: Vec::new(),
            requests: Vec::new(),
            proposals: Vec::new(),
            next_request_id: 1,
            next_proposal_id: 1,
        }
    }

    /// Inserts a request and returns the stored row. Fails, writing nothing,
    /// once the id counter is spent.
    pub fn insert_request(&mut self, row: NewRequest) -> (r: Result<RequestRecord, StorageError>)
        requires
            old(self).wf(),
        ensures
            final(self).wf(),
            old(self).next_request_id < i32::MAX ==> r == Ok::<RequestRecord, StorageError>(
                stored_request(row, old(self).next_request_id),
            ) && final(self)@ == (StoreView {
                requests: old(self)@.requests.push(stored_request(row, old(self).next_request_id)),
                next_request_id: (old(self).next_request_id + 1) as i32,
                ..old(self)@
            }),
            old(self).next_request_id == i32::MAX ==> r is Err && final(self)@ == old(self)@,
            r is Ok ==> forall|i: int|
                0 <= i < old(self)@.requests.len() ==> #[trigger] old(self)@.requests[i].id
                    != r->Ok_0.id,
    {
        if self.next_request_id == i32::MAX {
            return Err(StorageError);
        }
        let id = self.next_request_id;
        let stored = RequestRecord {
            id,
            title: Some(row.title),
            description: Some(row.description),
            price: Some(row.price),
            requester_id: Some(row.requester_id),
            helper_id: Some(row.helper_id),
            status: row.status,
            deleted_at: None,
        };
        let answer = stored.duplicate();
        self.requests.push(stored);
        self.next_request_id = id + 1;
        Ok(answer)
    }

    /// Inserts a binding proposal; the request row is not touched.
    pub fn insert_proposal(&mut self, request_id: i32, helper_id: i32) -> (r: Result<
        u64,
        StorageError,
    >)
        requires
            old(self).wf(),
            helper_id >= 1,
        ensures
            final(self).wf(),
            final(self)@ == binding_effect(old(self)@, request_id, helper_id),
            r is Ok <==> old(self).next_proposal_id < i32::MAX,
            r is Ok ==> r == Ok::<u64, StorageError>(1),
            r is Ok ==> forall|i: int|
                0 <= i < old(self)@.proposals.len() ==> #[trigger] old(self)@.proposals[i].id
                    != old(self).next_proposal_id,
    {
        if self.next_proposal_id == i32::MAX {
            return Err(StorageError);
        }
        let id = self.next_proposal_id;
        self.proposals.push(
            HelperRequestRecord { id, request_id: Some(request_id), helper_id: Some(helper_id) },
        );
        self.next_proposal_id = id + 1;
        Ok(1)
    }

    /// Binds `helper_id` to every row with id `request_id` and moves it to
    /// `in_progress`, whatever its status was. Returns the number of rows touched.
    pub fn assign_helper(&mut self, request_id: i32, helper_id: i32) -> (r: u64)
        requires
            old(self).wf(),
            helper_id >= 1,
        ensures
            final(self).wf(),
            final(self)@ == accept_effect(old(self)@, request_id, helper_id),
            r == count_id(old(self)@.requests, request_id),
    {
        let ghost before = self.requests@;
        let mut count: u64 = 0;
        let mut i: usize = 0;
        while i < self.requests.len()
            invariant
                self.requests@.len() == before.len(),
                i <= before.len(),
                forall|j: int|
                    0 <= j < i ==> #[trigger] self.requests@[j] == with_helper(
                        before[j],
                        request_id,
                        helper_id,
                    ),
                forall|j: int| i <= j < before.len() ==> #[trigger] self.requests@[j] == before[j],
                count == count_id(before.subrange(0, i as int), request_id),
                count <= i,
                self.helpers == old(self).helpers,
                self.proposals == old(self).proposals,
                self.next_request_id == old(self).next_request_id,
                self.next_proposal_id == old(self).next_proposal_id,
            decreases before.len() - i,
        {
            proof {
                lemma_count_step(before, i as int, request_id);
            }
            if self.requests[i].id == request_id {
                let mut row = self.requests[i].duplicate();
                row.helper_id = Some(helper_id);
                row.status = Status::InProgress;
                self.requests.set(i, row);
                count = count + 1;
            }
            i = i + 1;
        }
        assert(before.subrange(0, before.len() as int) =~= before);
        assert(self.requests@ =~= before.map_values(
            |r: RequestRecord| with_helper(r, request_id, helper_id),
        ));
        count
    }

    /// Sets every row with id `request_id` to `done`, whatever its status was.
    /// Returns the number of rows touched.
    pub fn set_done(&mut self, request_id: i32) -> (r: u64)
        requires
            old(self).wf(),
        ensures
            final(self).wf(),
            final(self)@ == done_effect(old(self)@, request_id),
            r == count_id(old(self)@.requests, request_id),
    {
        let ghost before = self.requests@;
        let mut count: u64 = 0;
        let mut i: usize = 0;
        while i < self.requests.len()
            invariant
                self.requests@.len() == before.len(),
                i <= before.len(),
                forall|j: int|
                    0 <= j < i ==> #[trigger] self.requests@[j] == with_done(before[j], request_id),
                forall|j: int| i <= j < before.len() ==> #[trigger] self.requests@[j] == before[j],
                count == count_id(before.subrange(0, i as int), request_id),
                count <= i,
                self.helpers == old(self).helpers,
                self.proposals == old(self).proposals,
                self.next_request_id == old(self).next_request_id,
                self.next_proposal_id == old(self).next_proposal_id,
            decreases before.len() - i,
        {
            proof {
                lemma_count_step(before, i as int, request_id);
            }
            if self.requests[i].id == request_id {
                let mut row = self.requests[i].duplicate();
                row.status = Status::Done;
                self.requests.set(i, row);
                count = count + 1;
            }
            i = i + 1;
        }
        assert(before.subrange(0, before.len() as int) =~= before);
        assert(self.requests@ =~= before.map_values(|r: RequestRecord| with_done(r, request_id)));
        count
    }

    /// Creates a request. A body that fails any check is refused with every
    /// failing field listed, and nothing is written; otherwise the row is
    /// stored with its initial status and returned with its new id.
    pub fn create_request(&mut self, input: CreateRequestInput) -> (r: Result<
        RequestRecord,
        ApiError,
    >)
        requires
            old(self).wf(),
        ensures
            final(self).wf(),
            create_violations(input).len() > 0 ==> (r matches Err(e) && validation_error_of(
                create_violations(input),
                e,
            )) && final(self)@ == old(self)@,
            create_violations(input).len() == 0 && old(self).next_request_id < i32::MAX ==> r
                == Ok::<RequestRecord, ApiError>(
                stored_request(new_request_of(input), old(self).next_request_id),
            ) && final(self)@ == (StoreView {
                requests: old(self)@.requests.push(
                    stored_request(new_request_of(input), old(self).next_request_id),
                ),
                next_request_id: (old(self).next_request_id + 1) as i32,
                ..old(self)@
            }),
            create_violations(input).len() == 0 && old(self).next_request_id == i32::MAX ==> r
                == Err::<RequestRecord, ApiError>(ApiError::Storage) && final(self)@ == old(
                self,
            )@,
            r matches Ok(created) ==> forall|i: int|
                0 <= i < old(self)@.requests.len() ==> #[trigger] old(self)@.requests[i].id
                    != created.id,
    {
        let row = match prepare_create(input) {
            Ok(row) => row,
            Err(e) => return Err(e),
        };
        conclude_fetch(self.insert_request(row))
    }

    /// Every request whose soft-delete marker is unset, in stored order.
    pub fn list_requests(&self) -> (r: Vec<RequestRecord>)
        ensures
            r@ == active_requests_of(self@.requests),
    {
        active_requests(&self.requests)
    }

    /// Every helper whose soft-delete marker is unset, in stored order.
    pub fn list_helpers(&self) -> (r: Vec<HelperRecord>)
        ensures
            r@ == active_helpers_of(self@.helpers),
    {
        active_helpers(&self.helpers)
    }

    /// Records a proposal pairing `request_id` with `helper_id`; the request
    /// row itself is left as it is.
    pub fn binding_request(&mut self, request_id: i32, helper_id: i32) -> (r: Result<(), ApiError>)
        requires
            old(self).wf(),
        ensures
            final(self).wf(),
            final(self)@ == binding_effect(old(self)@, request_id, helper_id),
            helper_id < 1 ==> (r matches Err(e) && validation_error_of(seq![Field::HelperId], e)),
            helper_id >= 1 ==> (r is Ok <==> old(self).next_proposal_id < i32::MAX),
            helper_id >= 1 && r is Err ==> r == Err::<(), ApiError>(ApiError::Storage),
            r is Ok ==> final(self)@.proposals == old(self)@.proposals.push(
                HelperRequestRecord {
                    id: old(self).next_proposal_id,
                    request_id: Some(request_id),
                    helper_id: Some(helper_id),
                },
            ),
            r is Ok ==> forall|i: int|
                0 <= i < old(self)@.proposals.len() ==> #[trigger] old(self)@.proposals[i].id
                    != old(self).next_proposal_id,
    {
        match check_helper_id(helper_id) {
            Ok(()) => {},
            Err(e) => return Err(e),
        }
        conclude_write(self.insert_proposal(request_id, helper_id))
    }

    /// Accepts `helper_id` for `request_id`: the row gets that helper and
    /// status `in_progress`. An unknown request id touches no row and still
    /// succeeds.
    pub fn accept_helper(&mut self, request_id: i32, helper_id: i32) -> (r: Result<(), ApiError>)
        requires
            old(self).wf(),
        ensures
            final(self).wf(),
            final(self)@ == accept_effect(old(self)@, request_id, helper_id),
            helper_id < 1 ==> (r matches Err(e) && validation_error_of(seq![Field::HelperId], e)),
            helper_id >= 1 ==> r is Ok,
    {
        match check_helper_id(helper_id) {
            Ok(()) => {},
            Err(e) => return Err(e),
        }
        let touched = self.assign_helper(request_id, helper_id);
        conclude_write(Ok(touched))
    }

    /// Marks `request_id` done, whatever its status. An unknown request id
    /// touches no row and still succeeds.
    pub fn mark_done(&mut self, request_id: i32) -> (r: Result<(), ApiError>)
        requires
            old(self).wf(),
        ensures
            final(self).wf(),
            final(self)@ == done_effect(old(self)@, request_id),
            r is Ok,
    {
        let touched = self.set_done(request_id);
        conclude_write(Ok(touched))
    }
}

/// A proposal followed by an acceptance for the same request leaves the
/// request row with the accepted helper and status `in_progress`, and leaves
/// the proposal rows as the proposal wrote them.
pub proof fn lemma_binding_then_accept(v: StoreView, request_id: i32, proposed: i32, accepted: i32)
    requires
        proposed >= 1,
        accepted >= 1,
    ensures
        ({
            let bound = binding_effect(v, request_id, proposed);
            let after = accept_effect(bound, request_id, accepted);
            &&& after.proposals == bound.proposals
            &&& v.next_proposal_id < i32::MAX ==> after.proposals.last() == HelperRequestRecord {
                id: v.next_proposal_id,
                request_id: Some(request_id),
                helper_id: Some(proposed),
            }
            &&& after.requests.len() == v.requests.len()
            &&& forall|i: int|
                0 <= i < v.requests.len() && v.requests[i].id == request_id ==> {
                    &&& #[trigger] after.requests[i].helper_id == Some(accepted)
                    &&& after.requests[i].status == Status::InProgress
                }
            &&& forall|i: int|
                0 <= i < v.requests.len() && v.requests[i].id != request_id
                    ==> #[trigger] after.requests[i] == v.requests[i]
        }),
{
}

/// Marking a request done twice leaves the same rows as marking it once, and
/// each of its rows is `done` after either call.
pub proof fn lemma_mark_done_idempotent(v: StoreView, request_id: i32)
    ensures
        done_effect(done_effect(v, request_id), request_id) == done_effect(v, request_id),
        forall|i: int|
            0 <= i < v.requests.len() && v.requests[i].id == request_id
                ==> #[trigger] done_effect(v, request_id).requests[i].status == Status::Done,
{
    let once = done_effect(v, request_id);
    let twice = done_effect(once, request_id);
    assert(twice.requests =~= once.requests);
}

/// Where no row has the id, accepting a helper for it or marking it done
/// changes nothing.
pub proof fn lemma_unknown_id_changes_nothing(v: StoreView, request_id: i32, helper_id: i32)
    requires
        forall|i: int| 0 <= i < v.requests.len() ==> #[trigger] v.requests[i].id != request_id,
    ensures
        accept_effect(v, request_id, helper_id) == v,
        done_effect(v, request_id) == v,
        count_id(v.requests, request_id) == 0,
    decreases v.requests.len(),
{
    assert(accept_effect(v, request_id, helper_id).requests =~= v.requests);
    assert(done_effect(v, request_id).requests =~= v.requests);
    if v.requests.len() > 0 {
        let shorter = StoreView { requests: v.requests.drop_last(), ..v };
        lemma_unknown_id_changes_nothing(shorter, request_id, helper_id);
    }
}

} // verus!
