use help_desk::lifecycle::{
    check_helper_id, conclude_fetch, conclude_write, initial_status, prepare_create, ApiError,
    STATUS_BAD_REQUEST, STATUS_SERVER_ERROR,
};
use help_desk::record::{HelperRecord, RequestRecord, Status, StorageError};
use help_desk::store::MemoryStore;
use help_desk::validate::{validate_create, validate_helper_id, CreateRequestInput, Field};

fn input(title: &str, description: &str, price: i64, requester_id: i32, helper_id: i32) -> CreateRequestInput {
    CreateRequestInput {
        title: title.to_string(),
        description: description.to_string(),
        price,
        requester_id,
        helper_id,
    }
}

fn sink(helper_id: i32) -> CreateRequestInput {
    input("Fix sink", "Need a plumber urgently", 500, 3, helper_id)
}

fn request_row(id: i32, deleted_at: Option<i64>) -> RequestRecord {
    RequestRecord {
        id,
        title: Some(format!("request {}", id)),
        description: Some("some description".to_string()),
        price: Some(100),
        requester_id: Some(1),
        helper_id: None,
        status: Status::New,
        deleted_at,
    }
}

fn helper_row(id: i32, deleted_at: Option<i64>) -> HelperRecord {
    HelperRecord {
        id,
        name: Some(format!("helper {}", id)),
        phone_number: None,
        email: Some("h@example.com".to_string()),
        deleted_at,
    }
}

#[test]
fn create_without_helper_starts_new() {
    let mut store = MemoryStore::new();
    let created = store.create_request(sink(0)).unwrap();
    assert_eq!(created.status, Status::New);
    assert_eq!(created.id, 1);
    assert_eq!(created.title, Some("Fix sink".to_string()));
    assert_eq!(created.description, Some("Need a plumber urgently".to_string()));
    assert_eq!(created.price, Some(500));
    assert_eq!(created.requester_id, Some(3));
    assert_eq!(created.helper_id, Some(0));
    assert_eq!(created.deleted_at, None);
    assert_eq!(store.list_requests(), vec![created]);
}

#[test]
fn create_with_helper_starts_binding() {
    let mut store = MemoryStore::new();
    let created = store.create_request(sink(7)).unwrap();
    assert_eq!(created.status, Status::Binding);
    assert_eq!(created.helper_id, Some(7));
    let second = store.create_request(sink(0)).unwrap();
    assert_eq!(second.id, 2);
    assert_eq!(second.status, Status::New);
}

#[test]
fn initial_status_follows_helper_id() {
    assert_eq!(initial_status(0), Status::New);
    assert_eq!(initial_status(-4), Status::New);
    assert_eq!(initial_status(1), Status::Binding);
    assert_eq!(prepare_create(sink(7)).unwrap().status, Status::Binding);
    assert_eq!(prepare_create(sink(0)).unwrap().status, Status::New);
}

fn assert_refused_with(body: CreateRequestInput, fields: Vec<Field>) {
    let mut store = MemoryStore::new();
    let result = store.create_request(body);
    assert_eq!(result, Err(ApiError::Validation(fields)));
    assert!(store.requests.is_empty());
    assert_eq!(store.next_request_id, 1);
}

#[test]
fn empty_title_is_refused() {
    assert_refused_with(input("", "Need a plumber urgently", 500, 3, 0), vec![Field::Title]);
}

#[test]
fn short_description_is_refused() {
    assert_refused_with(input("Fix sink", "123456789", 500, 3, 0), vec![Field::Description]);
}

#[test]
fn ten_character_description_is_accepted() {
    let mut store = MemoryStore::new();
    assert!(store.create_request(input("Fix sink", "1234567890", 500, 3, 0)).is_ok());
}

#[test]
fn description_length_counts_characters() {
    // nine characters, eighteen bytes
    assert_refused_with(input("Fix sink", "ééééééééé", 500, 3, 0), vec![Field::Description]);
    assert_eq!(validate_create(&input("Fix sink", "éééééééééé", 500, 3, 0)), vec![]);
}

#[test]
fn zero_price_is_refused() {
    assert_refused_with(input("Fix sink", "Need a plumber urgently", 0, 3, 0), vec![Field::Price]);
    assert_refused_with(input("Fix sink", "Need a plumber urgently", -5, 3, 0), vec![Field::Price]);
}

#[test]
fn zero_requester_is_refused() {
    assert_refused_with(input("Fix sink", "Need a plumber urgently", 500, 0, 0), vec![Field::RequesterId]);
}

#[test]
fn every_failing_field_is_listed() {
    assert_refused_with(
        input("", "short", 0, -1, 0),
        vec![Field::Title, Field::Description, Field::Price, Field::RequesterId],
    );
}

#[test]
fn negative_helper_id_is_allowed_on_create() {
    assert_eq!(validate_create(&sink(-3)), vec![]);
}

#[test]
fn listings_hide_soft_deleted_rows() {
    let mut store = MemoryStore::new();
    store.requests = vec![
        request_row(1, None),
        request_row(2, Some(1_700_000_000)),
        request_row(3, Some(1_700_000_100)),
        request_row(4, None),
    ];
    store.next_request_id = 5;
    store.helpers = vec![helper_row(1, Some(5)), helper_row(2, None), helper_row(3, Some(6))];
    let listed: Vec<i32> = store.list_requests().iter().map(|r| r.id).collect();
    assert_eq!(listed, vec![1, 4]);
    let helpers: Vec<i32> = store.list_helpers().iter().map(|h| h.id).collect();
    assert_eq!(helpers, vec![2]);
}

#[test]
fn listings_of_only_deleted_rows_are_empty() {
    let mut store = MemoryStore::new();
    store.requests = (1..50).map(|i| request_row(i, Some(i as i64))).collect();
    store.next_request_id = 50;
    store.helpers = (1..50).map(|i| helper_row(i, Some(i as i64))).collect();
    assert!(store.list_requests().is_empty());
    assert!(store.list_helpers().is_empty());
}

#[test]
fn binding_then_accept_sets_helper_and_keeps_proposal() {
    let mut store = MemoryStore::new();
    let created = store.create_request(sink(0)).unwrap();
    assert_eq!(store.binding_request(created.id, 7), Ok(()));
    assert_eq!(store.requests[0], created);
    assert_eq!(store.proposals.len(), 1);
    let proposal = store.proposals[0];
    assert_eq!(proposal.id, 1);
    assert_eq!(proposal.request_id, Some(created.id));
    assert_eq!(proposal.helper_id, Some(7));

    assert_eq!(store.accept_helper(created.id, 9), Ok(()));
    let listed = store.list_requests();
    assert_eq!(listed[0].helper_id, Some(9));
    assert_eq!(listed[0].status, Status::InProgress);
    assert_eq!(listed[0].status.as_str(), "in_progress");
    assert_eq!(store.proposals, vec![proposal]);
}

#[test]
fn binding_refuses_a_zero_helper() {
    let mut store = MemoryStore::new();
    assert_eq!(store.binding_request(1, 0), Err(ApiError::Validation(vec![Field::HelperId])));
    assert!(store.proposals.is_empty());
}

#[test]
fn accept_refuses_a_zero_helper() {
    let mut store = MemoryStore::new();
    let created = store.create_request(sink(0)).unwrap();
    assert_eq!(store.accept_helper(created.id, 0), Err(ApiError::Validation(vec![Field::HelperId])));
    assert_eq!(store.requests, vec![created]);
}

#[test]
fn accept_leaves_other_requests_alone() {
    let mut store = MemoryStore::new();
    let first = store.create_request(sink(0)).unwrap();
    let second = store.create_request(sink(2)).unwrap();
    assert_eq!(store.accept_helper(first.id, 4), Ok(()));
    assert_eq!(store.requests[1], second);
    assert_eq!(store.requests[0].status, Status::InProgress);
}

#[test]
fn mark_done_twice_stays_done() {
    let mut store = MemoryStore::new();
    let created = store.create_request(sink(7)).unwrap();
    assert_eq!(store.mark_done(created.id), Ok(()));
    assert_eq!(store.requests[0].status, Status::Done);
    let after_once = store.requests.clone();
    assert_eq!(store.mark_done(created.id), Ok(()));
    assert_eq!(store.requests[0].status, Status::Done);
    assert_eq!(store.requests, after_once);
}

#[test]
fn mark_done_applies_from_any_status() {
    let mut store = MemoryStore::new();
    let created = store.create_request(sink(0)).unwrap();
    assert_eq!(created.status, Status::New);
    assert_eq!(store.mark_done(created.id), Ok(()));
    assert_eq!(store.requests[0].status, Status::Done);
}

#[test]
fn unknown_request_id_still_succeeds() {
    let mut store = MemoryStore::new();
    let created = store.create_request(sink(0)).unwrap();
    assert_eq!(store.accept_helper(42, 5), Ok(()));
    assert_eq!(store.mark_done(42), Ok(()));
    assert_eq!(store.requests, vec![created.clone()]);
    assert_eq!(store.assign_helper(42, 5), 0);
    assert_eq!(store.set_done(42), 0);
    assert_eq!(store.set_done(created.id), 1);
}

#[test]
fn spent_id_counter_is_a_storage_failure() {
    let mut store = MemoryStore::new();
    store.next_request_id = i32::MAX;
    assert_eq!(store.create_request(sink(0)), Err(ApiError::Storage));
    assert!(store.requests.is_empty());
    store.next_proposal_id = i32::MAX;
    assert_eq!(store.binding_request(1, 3), Err(ApiError::Storage));
    assert!(store.proposals.is_empty());
}

#[test]
fn helper_id_check() {
    assert_eq!(validate_helper_id(1), vec![]);
    assert_eq!(validate_helper_id(0), vec![Field::HelperId]);
    assert_eq!(check_helper_id(5), Ok(()));
    assert_eq!(check_helper_id(-2), Err(ApiError::Validation(vec![Field::HelperId])));
}

#[test]
fn store_outcomes_map_to_answers() {
    assert_eq!(conclude_write(Ok(0)), Ok(()));
    assert_eq!(conclude_write(Ok(3)), Ok(()));
    assert_eq!(conclude_write(Err(StorageError)), Err(ApiError::Storage));
    assert_eq!(conclude_fetch(Ok(7)), Ok(7));
    assert_eq!(conclude_fetch::<i32>(Err(StorageError)), Err(ApiError::Storage));
    assert_eq!(ApiError::Storage.http_status(), STATUS_SERVER_ERROR);
    assert_eq!(ApiError::Validation(vec![Field::Title]).http_status(), STATUS_BAD_REQUEST);
}

#[test]
fn status_literals_round_trip() {
    for st in [Status::New, Status::Binding, Status::InProgress, Status::Done] {
        assert_eq!(Status::from_wire(st.as_str()), Some(st));
    }
    assert_eq!(Status::Done.as_str(), "done");
    assert_eq!(Status::from_wire("in_progres"), Some(Status::InProgress));
    assert_eq!(Status::from_wire("in_progresss"), None);
    assert_eq!(Status::from_wire(""), None);
    assert_eq!(Field::RequesterId.as_str(), "requesterId");
}

#[test]
fn deleted_rows_anywhere_leave_the_listing_unchanged() {
    let mut plain = MemoryStore::new();
    plain.requests = vec![request_row(2, None), request_row(5, None), request_row(7, None)];
    plain.helpers = vec![helper_row(2, None), helper_row(5, None)];
    plain.next_request_id = 8;
    let mut mixed = MemoryStore::new();
    mixed.requests = vec![
        request_row(1, Some(10)),
        request_row(2, None),
        request_row(3, Some(11)),
        request_row(4, Some(12)),
        request_row(5, None),
        request_row(6, Some(13)),
        request_row(7, None),
    ];
    mixed.helpers = vec![helper_row(1, Some(1)), helper_row(2, None), helper_row(3, Some(2)), helper_row(5, None)];
    mixed.next_request_id = 8;
    assert_eq!(mixed.list_requests(), plain.list_requests());
    assert_eq!(mixed.list_helpers(), plain.list_helpers());
}

#[test]
fn created_ids_are_fresh() {
    let mut store = MemoryStore::new();
    store.requests = vec![request_row(1, None), request_row(2, Some(3)), request_row(3, None)];
    store.next_request_id = 4;
    let created = store.create_request(sink(0)).unwrap();
    assert_eq!(created.id, 4);
    assert_eq!(store.requests.iter().filter(|r| r.id == 4).count(), 1);
    assert_eq!(store.binding_request(created.id, 2), Ok(()));
    assert_eq!(store.binding_request(created.id, 3), Ok(()));
    let ids: Vec<i32> = store.proposals.iter().map(|p| p.id).collect();
    assert_eq!(ids, vec![1, 2]);
}

#[test]
fn legacy_in_progress_rows_are_listed() {
    let mut store = MemoryStore::new();
    let mut row = request_row(1, None);
    row.status = Status::from_wire("in_progres").unwrap();
    store.requests = vec![row];
    store.next_request_id = 2;
    assert_eq!(store.list_requests()[0].status, Status::InProgress);
    assert_eq!(store.list_requests()[0].status.as_str(), "in_progress");
}
