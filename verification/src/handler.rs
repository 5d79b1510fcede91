//! The request handlers: one per operation of the service.
//!
//! A handler works in two steps. The first reads what the request carries,
//! its identifier and its body, and either prepares the repository's call or
//! answers at once, without any call to the store. The second turns the
//! store's reply into the answer. Each failure has one status.

use crate::document::{document_fields, id_filter_fields, set_update_fields};
use crate::failure::Failure;
use crate::ident::{is_random_uuid, parse_uuid, uuid_parse_str};
use crate::item::{Item, ItemView, PayloadItem, PayloadItemView};
use crate::repository::{
    create, create_outcome, created, delete_by_id, delete_outcome, deleted, item_views,
    update_by_id, update_outcome, updated, DeleteCall, DeleteReply, InsertReply, UpdateCall,
    UpdateReply,
};
use vstd::prelude::*;

verus! {

/// The status of an answer that carries what was asked for.
pub const OK: u16 = 200;

/// The status of an answer to a request that could not be read.
pub const BAD_REQUEST: u16 = 400;

/// The status of an answer to a request for an item that is not stored.
pub const NOT_FOUND: u16 = 404;

/// The status of an answer to a request that the store did not serve.
pub const INTERNAL_SERVER_ERROR: u16 = 500;

/// What an answer carries.
#[derive(Debug, Clone, PartialEq, Eq)]
pub enum Body {
    Empty,
    One(PayloadItem),
    Many(Vec<PayloadItem>),
}

/// An answer to a request.
#[derive(Debug, Clone, PartialEq, Eq)]
pub struct Response {
    pub status: u16,
    pub body: Body,
}

/// A request body as it was decoded: each field of an item, where the body
/// held it with a value of the right type.
#[derive(Debug, Clone, PartialEq, Eq)]
pub struct Draft {
    pub text: Option<String>,
    pub complete: Option<bool>,
}

/// What a [`Body`] holds.
pub enum BodyView {
    Empty,
    One(PayloadItemView),
    Many(Seq<PayloadItemView>),
}

/// What a [`Response`] holds.
pub struct ResponseView {
    pub status: u16,
    pub body: BodyView,
}

impl View for Body {
    type V = BodyView;

    open spec fn view(&self) -> BodyView {
        match self {
            Body::Empty => BodyView::Empty,
            Body::One(payload) => BodyView::One(payload@),
            Body::Many(payloads) => BodyView::Many(
                payloads@.map_values(|payload: PayloadItem| payload@),
            ),
        }
    }
}

impl View for Response {
    type V = ResponseView;

    open spec fn view(&self) -> ResponseView {
        ResponseView { status: self.status, body: self.body@ }
    }
}

/// The status that reports `failure`.
pub open spec fn failure_status(failure: Failure) -> u16 {
    match failure {
        Failure::InvalidInput => BAD_REQUEST,
        Failure::NotFound => NOT_FOUND,
        Failure::StorageUnavailable => INTERNAL_SERVER_ERROR,
    }
}

/// The answer that reports `failure`: its status, and nothing else.
pub open spec fn failure_answer(failure: Failure) -> ResponseView {
    ResponseView { status: failure_status(failure), body: BodyView::Empty }
}

/// The answer that carries one stored item: the item without its identifier.
pub open spec fn item_answer(item: ItemView) -> ResponseView {
    ResponseView { status: OK, body: BodyView::One(item.payload()) }
}

/// The items of a listing as clients see them: each without its identifier,
/// in the same order.
pub open spec fn payloads_of(items: Seq<ItemView>) -> Seq<PayloadItemView> {
    items.map_values(|item: ItemView| item.payload())
}

/// Gives the status that reports `failure`.
pub fn status_of(failure: Failure) -> (status: u16)
    ensures
        status == failure_status(failure),
{
    match failure {
        Failure::InvalidInput => BAD_REQUEST,
        Failure::NotFound => NOT_FOUND,
        Failure::StorageUnavailable => INTERNAL_SERVER_ERROR,
    }
}

/// Builds the answer that reports `failure`.
pub fn failure_response(failure: Failure) -> (response: Response)
    ensures
        response@ == failure_answer(failure),
{
    Response { status: status_of(failure), body: Body::Empty }
}

/// Builds the answer that carries `item` without its identifier.
pub fn item_response(item: Item) -> (response: Response)
    ensures
        response@ == item_answer(item@),
{
    Response { status: OK, body: Body::One(PayloadItem::from(item)) }
}

/// The payload that a decoded body stands for. A body that could not be
/// decoded at all, or that lacks one of the two fields, stands for none.
pub open spec fn payload_of(body: Option<Draft>) -> Result<PayloadItemView, Failure> {
    match body {
        Some(Draft { text: Some(text), complete: Some(complete) }) => Ok(
            PayloadItemView { text: text@, complete },
        ),
        _ => Err(Failure::InvalidInput),
    }
}

/// Reads the payload of a request from its decoded body: `None` where the
/// body could not be decoded at all.
pub fn decode_body(body: Option<Draft>) -> (decoded: Result<PayloadItem, Failure>)
    ensures
        match decoded {
            Ok(payload) => payload_of(body) == Ok::<PayloadItemView, Failure>(payload@),
            Err(failure) => payload_of(body) == Err::<PayloadItemView, Failure>(failure),
        },
{
    match body {
        Some(Draft { text: Some(text), complete: Some(complete) }) => Ok(
            PayloadItem { text, complete },
        ),
        _ => Err(Failure::InvalidInput),
    }
}

/// The identifier that a request names, given what the parser made of the
/// identifier's text: a text that is no UUID is invalid input.
pub open spec fn identifier_of(parsed: Option<u128>) -> Result<u128, Failure> {
    match parsed {
        Some(id) => Ok(id),
        None => Err(Failure::InvalidInput),
    }
}

/// The identifier that a request names, given its `id` parameter. A request
/// without the parameter is invalid input, as one is whose parameter is no
/// UUID.
pub open spec fn identifier_named(param: Option<&str>) -> Result<u128, Failure> {
    match param {
        Some(text) => identifier_of(uuid_parse_str(text@)),
        None => Err(Failure::InvalidInput),
    }
}

/// Judges the identifier of a request by what the parser made of its text.
pub fn identifier_from(parsed: Option<u128>) -> (id: Result<u128, Failure>)
    ensures
        id == identifier_of(parsed),
{
    match parsed {
        Some(id) => Ok(id),
        None => Err(Failure::InvalidInput),
    }
}

/// Reads the identifier of a request from its `id` parameter.
pub fn identifier(param: Option<&str>) -> (id: Result<u128, Failure>)
    ensures
        id == identifier_named(param),
{
    match param {
        Some(text) => identifier_from(parse_uuid(text)),
        None => Err(Failure::InvalidInput),
    }
}

/// The answer to a listing, given the outcome of the scan: every stored item
/// without its identifier, in the order of the scan.
pub open spec fn list_answer(outcome: Result<Vec<Item>, Failure>) -> ResponseView {
    match outcome {
        Ok(items) => ResponseView {
            status: OK,
            body: BodyView::Many(payloads_of(item_views(items@))),
        },
        Err(failure) => failure_answer(failure),
    }
}

/// Answers a listing.
pub fn list_response(outcome: Result<Vec<Item>, Failure>) -> (response: Response)
    ensures
        response@ == list_answer(outcome),
{
    match outcome {
        Ok(items) => {
            let ghost listed = items@;
            let mut payloads: Vec<PayloadItem> = Vec::new();
            for item in it: items
                invariant
                    it.seq() == listed,
                    payloads@.len() == it.index(),
                    forall|k: int|
                        0 <= k < payloads@.len() ==> (#[trigger] payloads@[k])@
                            == listed[k]@.payload(),
            {
                payloads.push(PayloadItem::from(item));
            }
            let body = Body::Many(payloads);
            proof {
                assert(body@ == BodyView::Many(payloads_of(item_views(listed)))) by {
                    assert(payloads@.map_values(|payload: PayloadItem| payload@) =~= payloads_of(
                        item_views(listed),
                    ));
                }
            }
            Response { status: OK, body }
        },
        Err(failure) => failure_response(failure),
    }
}

/// Whether `plan` is what the creation of an item from `body` starts with:
/// an item to insert that holds the body's payload under a random
/// identifier, or, where the body holds no payload, the answer that says so.
pub open spec fn creation_planned(body: Option<Draft>, plan: Result<Item, Response>) -> bool {
    match payload_of(body) {
        Ok(payload) => plan matches Ok(item) && item@.payload() == payload && is_random_uuid(
            item@.id,
        ),
        Err(failure) => plan matches Err(response) && response@ == failure_answer(failure),
    }
}

/// Starts the creation of an item.
pub fn create_request(body: Option<Draft>) -> (plan: Result<Item, Response>)
    ensures
        creation_planned(body, plan),
{
    match decode_body(body) {
        Ok(payload) => Ok(create(payload)),
        Err(failure) => Err(failure_response(failure)),
    }
}

/// The answer to a creation, given the store's reply to the insertion of
/// `item`: the item as it was stored, without its identifier.
pub open spec fn create_answer(item: Item, reply: InsertReply) -> ResponseView {
    match create_outcome(item, reply) {
        Ok(stored) => item_answer(stored@),
        Err(failure) => failure_answer(failure),
    }
}

/// Answers a creation.
pub fn create_response(item: Item, reply: InsertReply) -> (response: Response)
    ensures
        response@ == create_answer(item, reply),
{
    match created(item, reply) {
        Ok(stored) => item_response(stored),
        Err(failure) => failure_response(failure),
    }
}

/// Whether `plan` is what the update of an item starts with, given the
/// identifier that the request names and its body: the repository's call for
/// that identifier and the body's payload, or the answer that reports what
/// is wrong with the request. A body without a payload is reported before a
/// fault of the identifier.
pub open spec fn update_planned(
    id: Result<u128, Failure>,
    body: Option<Draft>,
    plan: Result<UpdateCall, Response>,
) -> bool {
    match (payload_of(body), id) {
        (Ok(payload), Ok(id)) => plan matches Ok(call) && document_fields(call.filter)
            == id_filter_fields(id) && document_fields(call.update) == set_update_fields(payload),
        (Ok(_), Err(failure)) => plan matches Err(response) && response@ == failure_answer(
            failure,
        ),
        (Err(failure), _) => plan matches Err(response) && response@ == failure_answer(failure),
    }
}

/// Starts the update of an item, given the identifier that the request
/// names.
pub fn prepare_update(id: Result<u128, Failure>, body: Option<Draft>) -> (plan: Result<
    UpdateCall,
    Response,
>)
    ensures
        update_planned(id, body, plan),
{
    let payload = match decode_body(body) {
        Ok(payload) => payload,
        Err(failure) => {
            return Err(failure_response(failure));
        },
    };
    match id {
        Ok(id) => Ok(update_by_id(id, &payload)),
        Err(failure) => Err(failure_response(failure)),
    }
}

/// Starts the update of an item from the request's `id` parameter and its
/// decoded body.
pub fn update_request(id: Option<&str>, body: Option<Draft>) -> (plan: Result<
    UpdateCall,
    Response,
>)
    ensures
        update_planned(identifier_named(id), body, plan),
{
    prepare_update(identifier(id), body)
}

/// The answer to an update, given the store's reply: the item as it was
/// before the update, without its identifier.
pub open spec fn update_answer(reply: UpdateReply) -> ResponseView {
    match update_outcome(reply) {
        Ok(before) => item_answer(before@),
        Err(failure) => failure_answer(failure),
    }
}

/// Answers an update.
pub fn update_response(reply: UpdateReply) -> (response: Response)
    ensures
        response@ == update_answer(reply),
{
    match updated(reply) {
        Ok(before) => item_response(before),
        Err(failure) => failure_response(failure),
    }
}

/// Whether `plan` is what the deletion of an item starts with, given the
/// identifier that the request names: the repository's call for that
/// identifier, or the answer that reports what is wrong with the request.
pub open spec fn deletion_planned(
    id: Result<u128, Failure>,
    plan: Result<DeleteCall, Response>,
) -> bool {
    match id {
        Ok(id) => plan matches Ok(call) && document_fields(call.filter) == id_filter_fields(id),
        Err(failure) => plan matches Err(response) && response@ == failure_answer(failure),
    }
}

/// Starts the deletion of an item, given the identifier that the request
/// names.
pub fn prepare_delete(id: Result<u128, Failure>) -> (plan: Result<DeleteCall, Response>)
    ensures
        deletion_planned(id, plan),
{
    match id {
        Ok(id) => Ok(delete_by_id(id)),
        Err(failure) => Err(failure_response(failure)),
    }
}

/// Starts the deletion of an item from the request's `id` parameter.
pub fn delete_request(id: Option<&str>) -> (plan: Result<DeleteCall, Response>)
    ensures
        deletion_planned(identifier_named(id), plan),
{
    prepare_delete(identifier(id))
}

/// The answer to a deletion, given the store's reply: success where exactly
/// one item was removed, not found where none was.
pub open spec fn delete_answer(reply: DeleteReply) -> ResponseView {
    match delete_outcome(reply) {
        Ok(removed) => if removed {
            ResponseView { status: OK, body: BodyView::Empty }
        } else {
            failure_answer(Failure::NotFound)
        },
        Err(failure) => failure_answer(failure),
    }
}

/// Answers a deletion.
pub fn delete_response(reply: DeleteReply) -> (response: Response)
    ensures
        response@ == delete_answer(reply),
{
    match deleted(reply) {
        Ok(true) => Response { status: OK, body: Body::Empty },
        Ok(false) => failure_response(Failure::NotFound),
        Err(failure) => failure_response(failure),
    }
}

} // verus!
