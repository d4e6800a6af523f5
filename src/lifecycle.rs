//! The decisions of each operation, apart from the store that carries them out:
//! what a body must satisfy, which row a creation writes, and how a store's
//! outcome becomes the caller's answer.
use vstd::prelude::*;
use crate::record::{HelperRecord, RequestRecord, Status, StorageError};
use crate::validate::{
    create_violations, helper_violations, validate_create, validate_helper_id, CreateRequestInput,
    Field,
};

verus! {

/// Why an operation was refused.
#[derive(Clone, Debug, PartialEq, Eq)]
pub enum ApiError {
    /// Some fields failed their checks; every one of them is listed. Nothing was written.
    Validation(Vec<Field>),
    /// The store failed; the cause is not passed on.
    Storage,
}

pub const STATUS_OK: u16 = 200;

pub const STATUS_NO_CONTENT: u16 = 204;

pub const STATUS_BAD_REQUEST: u16 = 400;

pub const STATUS_SERVER_ERROR: u16 = 500;

impl ApiError {
    /// The HTTP status of the answer: a client error for a refused body, a
    /// server error for a failed store.
    pub fn http_status(&self) -> (r: u16)
        ensures
            *self is Validation ==> r == STATUS_BAD_REQUEST,
            *self is Storage ==> r == STATUS_SERVER_ERROR,
    {
        match self {
            ApiError::Validation(_) => STATUS_BAD_REQUEST,
            ApiError::Storage => STATUS_SERVER_ERROR,
        }
    }
}

/// The row a creation inserts, before the store gives it an id.
#[derive(Clone, Debug, PartialEq, Eq)]
pub struct NewRequest {
    pub title: String,
    pub description: String,
    pub price: i64,
    pub requester_id: i32,
    pub helper_id: i32,
    pub status: Status,
}

/// A request created with a helper starts in `binding`, one without in `new`.
pub open spec fn initial_status_of(helper_id: i32) -> Status {
    if helper_id > 0 {
        Status::Binding
    } else {
        Status::New
    }
}

pub open spec fn new_request_of(input: CreateRequestInput) -> NewRequest {
    NewRequest {
        title: input.title,
        description: input.description,
        price: input.price,
        requester_id: input.requester_id,
        helper_id: input.helper_id,
        status: initial_status_of(input.helper_id),
    }
}

pub open spec fn validation_error_of(fields: Seq<Field>, e: ApiError) -> bool {
    e matches ApiError::Validation(listed) && listed@ == fields
}

pub fn initial_status(helper_id: i32) -> (r: Status)
    ensures
        r == initial_status_of(helper_id),
{
    if helper_id > 0 {
        Status::Binding
    } else {
        Status::New
    }
}

/// Checks a creation body and, when it passes, gives the row to insert.
pub fn prepare_create(input: CreateRequestInput) -> (r: Result<NewRequest, ApiError>)
    ensures
        create_violations(input).len() == 0 ==> r == Ok::<NewRequest, ApiError>(
            new_request_of(input),
        ),
        create_violations(input).len() > 0 ==> (r matches Err(e) && validation_error_of(
            create_violations(input),
            e,
        )),
{
    let fields = validate_create(&input);
    if fields.len() > 0 {
        return Err(ApiError::Validation(fields));
    }
    let status = initial_status(input.helper_id);
    Ok(
        NewRequest {
            title: input.title,
            description: input.description,
            price: input.price,
            requester_id: input.requester_id,
            helper_id: input.helper_id,
            status,
        },
    )
}

/// Checks the helper id of a binding or acceptance body.
pub fn check_helper_id(helper_id: i32) -> (r: Result<(), ApiError>)
    ensures
        helper_id >= 1 ==> r is Ok,
        helper_id < 1 ==> (r matches Err(e) && validation_error_of(seq![Field::HelperId], e)),
{
    let fields = validate_helper_id(helper_id);
    if fields.len() > 0 {
        assert(fields@ =~= seq![Field::HelperId]);
        return Err(ApiError::Validation(fields));
    }
    Ok(())
}

/// The answer to a write, given the number of rows the store touched. A write
/// that touched no row (an unknown request id) still succeeds.
pub fn conclude_write(outcome: Result<u64, StorageError>) -> (r: Result<(), ApiError>)
    ensures
        outcome is Ok <==> r is Ok,
        outcome is Err ==> r == Err::<(), ApiError>(ApiError::Storage),
{
    match outcome {
        Ok(_) => Ok(()),
        Err(_) => Err(ApiError::Storage),
    }
}

/// The answer to a read or to a creation, given what the store returned.
pub fn conclude_fetch<T>(outcome: Result<T, StorageError>) -> (r: Result<T, ApiError>)
    ensures
        outcome matches Ok(v) ==> r == Ok::<T, ApiError>(v),
        outcome is Err ==> r == Err::<T, ApiError>(ApiError::Storage),
{
    match outcome {
        Ok(v) => Ok(v),
        Err(_) => Err(ApiError::Storage),
    }
}

/// The rows a listing shows: those whose soft-delete marker is unset, in
/// the order given.
pub open spec fn active_requests_of(rows: Seq<RequestRecord>) -> Seq<RequestRecord> {
    rows.filter(|r: RequestRecord| r.is_active())
}

pub open spec fn active_helpers_of(rows: Seq<HelperRecord>) -> Seq<HelperRecord> {
    rows.filter(|h: HelperRecord| h.is_active())
}

pub fn active_requests(rows: &Vec<RequestRecord>) -> (r: Vec<RequestRecord>)
    ensures
        r@ == active_requests_of(rows@),
{
    let mut out: Vec<RequestRecord> = Vec::new();
    let mut i: usize = 0;
    while i < rows.len()
        invariant
            i <= rows@.len(),
            out@ == active_requests_of(rows@.subrange(0, i as int)),
        decreases rows@.len() - i,
    {
        proof {
            let pred = |r: RequestRecord| r.is_active();
            rows@.subrange(0, i as int).lemma_filter_push(rows@[i as int], pred);
            assert(rows@.subrange(0, i + 1) =~= rows@.subrange(0, i as int).push(rows@[i as int]));
        }
        if rows[i].deleted_at.is_none() {
            out.push(rows[i].duplicate());
        }
        i = i + 1;
    }
    assert(rows@.subrange(0, rows@.len() as int) =~= rows@);
    out
}

pub fn active_helpers(rows: &Vec<HelperRecord>) -> (r: Vec<HelperRecord>)
    ensures
        r@ == active_helpers_of(rows@),
{
    let mut out: Vec<HelperRecord> = Vec::new();
    let mut i: usize = 0;
    while i < rows.len()
        invariant
            i <= rows@.len(),
            out@ == active_helpers_of(rows@.subrange(0, i as int)),
        decreases rows@.len() - i,
    {
        proof {
            let pred = |h: HelperRecord| h.is_active();
            rows@.subrange(0, i as int).lemma_filter_push(rows@[i as int], pred);
            assert(rows@.subrange(0, i + 1) =~= rows@.subrange(0, i as int).push(rows@[i as int]));
        }
        if rows[i].deleted_at.is_none() {
            out.push(rows[i].duplicate());
        }
        i = i + 1;
    }
    assert(rows@.subrange(0, rows@.len() as int) =~= rows@);
    out
}

/// No row that a listing returns carries a soft-delete marker, however many
/// of the stored rows do.
pub proof fn lemma_listings_hide_deleted(requests: Seq<RequestRecord>, helpers: Seq<HelperRecord>)
    ensures
        forall|i: int|
            0 <= i < active_requests_of(requests).len() ==> (#[trigger] active_requests_of(
                requests,
            )[i]).deleted_at is None,
        forall|i: int|
            0 <= i < active_helpers_of(helpers).len() ==> (#[trigger] active_helpers_of(
                helpers,
            )[i]).deleted_at is None,
        forall|r: RequestRecord|
            requests.contains(r) && r.deleted_at is None ==> active_requests_of(
                requests,
            ).contains(r),
{
    let pr = |r: RequestRecord| r.is_active();
    let ph = |h: HelperRecord| h.is_active();
    assert forall|i: int| 0 <= i < active_requests_of(requests).len() implies (
    #[trigger] active_requests_of(requests)[i]).deleted_at is None by {
        requests.lemma_filter_pred(pr, i);
    }
    assert forall|i: int| 0 <= i < active_helpers_of(helpers).len() implies (
    #[trigger] active_helpers_of(helpers)[i]).deleted_at is None by {
        helpers.lemma_filter_pred(ph, i);
    }
    assert forall|r: RequestRecord|
        requests.contains(r) && r.deleted_at is None implies active_requests_of(
        requests,
    ).contains(r) by {
        requests.lemma_filter_contains_rev(pr, r);
    }
}

/// Soft-deleted rows are invisible wherever they stand: putting any number of
/// them at any place among the rows leaves both listings as they were (rows
/// scattered over several places are handled one place at a time), and a
/// table of deleted rows alone lists nothing.
pub proof fn lemma_deleted_rows_are_invisible(
    front: Seq<RequestRecord>,
    deleted: Seq<RequestRecord>,
    back: Seq<RequestRecord>,
    helpers_front: Seq<HelperRecord>,
    deleted_helpers: Seq<HelperRecord>,
    helpers_back: Seq<HelperRecord>,
)
    requires
        forall|i: int| 0 <= i < deleted.len() ==> (#[trigger] deleted[i]).deleted_at is Some,
        forall|i: int|
            0 <= i < deleted_helpers.len() ==> (#[trigger] deleted_helpers[i]).deleted_at is Some,
    ensures
        active_requests_of(front + deleted + back) == active_requests_of(front + back),
        active_requests_of(deleted).len() == 0,
        active_helpers_of(helpers_front + deleted_helpers + helpers_back) == active_helpers_of(
            helpers_front + helpers_back,
        ),
        active_helpers_of(deleted_helpers).len() == 0,
{
    let pr = |r: RequestRecord| r.is_active();
    let ph = |h: HelperRecord| h.is_active();
    lemma_none_active_requests(deleted);
    lemma_none_active_helpers(deleted_helpers);
    Seq::filter_distributes_over_add(front + deleted, back, pr);
    Seq::filter_distributes_over_add(front, deleted, pr);
    Seq::filter_distributes_over_add(front, back, pr);
    assert(active_requests_of(front) + active_requests_of(deleted) =~= active_requests_of(front));
    Seq::filter_distributes_over_add(helpers_front + deleted_helpers, helpers_back, ph);
    Seq::filter_distributes_over_add(helpers_front, deleted_helpers, ph);
    Seq::filter_distributes_over_add(helpers_front, helpers_back, ph);
    assert(active_helpers_of(helpers_front) + active_helpers_of(deleted_helpers)
        =~= active_helpers_of(helpers_front));
}

proof fn lemma_none_active_requests(rows: Seq<RequestRecord>)
    requires
        forall|i: int| 0 <= i < rows.len() ==> (#[trigger] rows[i]).deleted_at is Some,
    ensures
        active_requests_of(rows).len() == 0,
    decreases rows.len(),
{
    if rows.len() > 0 {
        let pr = |r: RequestRecord| r.is_active();
        lemma_none_active_requests(rows.drop_last());
        rows.drop_last().lemma_filter_push(rows.last(), pr);
        assert(rows.drop_last().push(rows.last()) =~= rows);
    }
}

proof fn lemma_none_active_helpers(rows: Seq<HelperRecord>)
    requires
        forall|i: int| 0 <= i < rows.len() ==> (#[trigger] rows[i]).deleted_at is Some,
    ensures
        active_helpers_of(rows).len() == 0,
    decreases rows.len(),
{
    if rows.len() > 0 {
        let ph = |h: HelperRecord| h.is_active();
        lemma_none_active_helpers(rows.drop_last());
        rows.drop_last().lemma_filter_push(rows.last(), ph);
        assert(rows.drop_last().push(rows.last()) =~= rows);
    }
}

} // verus!
