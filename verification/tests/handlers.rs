use todo_items::document::{id_filter, set_update};
use todo_items::handler::{
    create_request, create_response, decode_body, delete_request, delete_response,
    failure_response, item_response, list_response, prepare_delete, prepare_update, status_of,
    update_request, update_response, Body, Draft, Response, BAD_REQUEST, INTERNAL_SERVER_ERROR,
    NOT_FOUND, OK,
};
use todo_items::failure::Failure;
use todo_items::item::{Item, PayloadItem};
use todo_items::repository::{DeleteReply, InsertReply, UpdateReply};

const KNOWN: &str = "936DA01F-9ABD-4D9D-80C7-02AF85C822A8";
const KNOWN_ID: u128 = 0x936DA01F9ABD4D9D80C702AF85C822A8;

fn item(id: u128, text: &str, complete: bool) -> Item {
    Item { id, text: text.to_string(), complete }
}

fn payload(text: &str, complete: bool) -> PayloadItem {
    PayloadItem { text: text.to_string(), complete }
}

fn draft(text: &str, complete: bool) -> Option<Draft> {
    Some(Draft { text: Some(text.to_string()), complete: Some(complete) })
}

fn empty(status: u16) -> Response {
    Response { status, body: Body::Empty }
}

#[test]
fn the_status_codes_are_the_usual_ones() {
    assert_eq!(OK, 200);
    assert_eq!(BAD_REQUEST, 400);
    assert_eq!(NOT_FOUND, 404);
    assert_eq!(INTERNAL_SERVER_ERROR, 500);
}

#[test]
fn each_failure_has_one_status() {
    assert_eq!(status_of(Failure::InvalidInput), 400);
    assert_eq!(status_of(Failure::NotFound), 404);
    assert_eq!(status_of(Failure::StorageUnavailable), 500);
}

#[test]
fn a_failure_is_answered_with_its_status_and_no_body() {
    assert_eq!(failure_response(Failure::InvalidInput), empty(400));
    assert_eq!(failure_response(Failure::NotFound), empty(404));
    assert_eq!(failure_response(Failure::StorageUnavailable), empty(500));
}

#[test]
fn an_item_is_answered_without_its_identifier() {
    assert_eq!(
        item_response(item(77, "mow the lawn", true)),
        Response { status: 200, body: Body::One(payload("mow the lawn", true)) }
    );
}

#[test]
fn a_complete_body_is_a_payload() {
    assert_eq!(decode_body(draft("read", false)), Ok(payload("read", false)));
    assert_eq!(decode_body(draft("", true)), Ok(payload("", true)));
}

#[test]
fn a_body_without_text_is_invalid_input() {
    let body = Some(Draft { text: None, complete: Some(true) });
    assert_eq!(decode_body(body), Err(Failure::InvalidInput));
}

#[test]
fn a_body_without_complete_is_invalid_input() {
    let body = Some(Draft { text: Some("read".to_string()), complete: None });
    assert_eq!(decode_body(body), Err(Failure::InvalidInput));
}

#[test]
fn a_body_that_could_not_be_decoded_is_invalid_input() {
    assert_eq!(decode_body(None), Err(Failure::InvalidInput));
    assert_eq!(decode_body(Some(Draft { text: None, complete: None })), Err(Failure::InvalidInput));
}

#[test]
fn a_listing_shows_every_item_without_its_identifier() {
    let items = vec![item(2, "b", true), item(1, "a", false), item(3, "", false)];
    assert_eq!(
        list_response(Ok(items)),
        Response {
            status: 200,
            body: Body::Many(vec![payload("b", true), payload("a", false), payload("", false)]),
        }
    );
}

#[test]
fn a_listing_of_an_empty_collection_is_an_empty_array() {
    assert_eq!(list_response(Ok(vec![])), Response { status: 200, body: Body::Many(vec![]) });
}

#[test]
fn a_listing_that_failed_is_answered_with_500() {
    assert_eq!(list_response(Err(Failure::StorageUnavailable)), empty(500));
}

#[test]
fn a_creation_starts_with_an_item_that_holds_the_payload() {
    let stored = create_request(draft("buy milk", false)).unwrap();
    assert_eq!(PayloadItem::from(stored), payload("buy milk", false));
}

#[test]
fn a_creation_from_a_body_without_text_yields_400() {
    let body = Some(Draft { text: None, complete: Some(false) });
    assert_eq!(create_request(body), Err(empty(400)));
}

#[test]
fn a_creation_from_an_undecodable_body_yields_400() {
    assert_eq!(create_request(None), Err(empty(400)));
}

#[test]
fn a_creation_is_answered_with_what_was_stored() {
    assert_eq!(
        create_response(item(5, "buy milk", false), InsertReply::Acknowledged),
        Response { status: 200, body: Body::One(payload("buy milk", false)) }
    );
}

#[test]
fn a_creation_that_the_store_refused_is_answered_with_500() {
    assert_eq!(create_response(item(5, "buy milk", false), InsertReply::Failed), empty(500));
}

#[test]
fn an_update_starts_with_the_call_for_the_identifier() {
    let call = update_request(Some(KNOWN), draft("new", true)).unwrap();
    assert_eq!(call.filter, id_filter(KNOWN_ID));
    assert_eq!(call.update, set_update(&payload("new", true)));
}

#[test]
fn an_update_with_a_malformed_identifier_yields_400_and_no_call() {
    assert_eq!(update_request(Some("not-a-uuid"), draft("new", true)), Err(empty(400)));
}

#[test]
fn an_update_without_identifier_yields_400_and_no_call() {
    assert_eq!(update_request(None, draft("new", true)), Err(empty(400)));
}

#[test]
fn an_update_from_a_body_without_text_yields_400() {
    let body = Some(Draft { text: None, complete: Some(true) });
    assert_eq!(update_request(Some(KNOWN), body), Err(empty(400)));
}

#[test]
fn an_update_reports_a_bad_body_before_a_fault_of_the_identifier() {
    assert_eq!(update_request(None, None), Err(empty(400)));
    assert_eq!(prepare_update(Err(Failure::NotFound), None), Err(empty(400)));
    assert_eq!(prepare_update(Err(Failure::StorageUnavailable), None), Err(empty(400)));
}

#[test]
fn an_update_is_prepared_for_a_known_identifier() {
    let call = prepare_update(Ok(12), draft("t", false)).unwrap();
    assert_eq!(call.filter, id_filter(12));
    assert_eq!(call.update, set_update(&payload("t", false)));
    assert_eq!(prepare_update(Err(Failure::InvalidInput), draft("t", false)), Err(empty(400)));
    assert_eq!(prepare_update(Err(Failure::NotFound), draft("t", false)), Err(empty(404)));
}

#[test]
fn an_update_is_answered_with_the_item_as_it_was_before() {
    assert_eq!(
        update_response(UpdateReply::Found(item(KNOWN_ID, "old", false))),
        Response { status: 200, body: Body::One(payload("old", false)) }
    );
}

#[test]
fn an_update_of_an_unknown_identifier_is_answered_with_404() {
    assert_eq!(update_response(UpdateReply::Missing), empty(404));
}

#[test]
fn an_update_that_the_store_refused_is_answered_with_500() {
    assert_eq!(update_response(UpdateReply::Failed), empty(500));
}

#[test]
fn a_deletion_starts_with_the_call_for_the_identifier() {
    let call = delete_request(Some(KNOWN)).unwrap();
    assert_eq!(call.filter, id_filter(KNOWN_ID));
}

#[test]
fn a_deletion_with_a_malformed_identifier_yields_400_and_no_call() {
    assert_eq!(delete_request(Some("not-a-uuid")), Err(empty(400)));
}

#[test]
fn a_deletion_without_identifier_yields_400_and_no_call() {
    assert_eq!(delete_request(None), Err(empty(400)));
}

#[test]
fn a_deletion_is_prepared_for_a_known_identifier() {
    assert_eq!(prepare_delete(Ok(1)).unwrap().filter, id_filter(1));
    assert_eq!(prepare_delete(Err(Failure::InvalidInput)), Err(empty(400)));
    assert_eq!(prepare_delete(Err(Failure::NotFound)), Err(empty(404)));
}

#[test]
fn a_deletion_that_removed_the_item_is_answered_with_200() {
    assert_eq!(delete_response(DeleteReply::Deleted(1)), empty(200));
}

#[test]
fn a_deletion_that_removed_nothing_is_answered_with_404() {
    assert_eq!(delete_response(DeleteReply::Deleted(0)), empty(404));
}

#[test]
fn a_deletion_that_the_store_refused_is_answered_with_500() {
    assert_eq!(delete_response(DeleteReply::Failed), empty(500));
}
