//! The item repository: the four operations on the stored collection.
//!
//! The repository does not reach the store itself. For each operation one
//! function prepares what is handed to the store, and a second one turns the
//! store's reply into the operation's outcome. Whoever holds the connection
//! performs the call in between.

use crate::document::{document_fields, id_filter, id_filter_fields, set_update, set_update_fields};
use crate::failure::Failure;
use crate::ident::is_random_uuid;
use crate::item::{Item, ItemView, PayloadItem};
use vstd::prelude::*;

verus! {

/// The store's reply to the insertion of one item.
#[derive(Debug, Clone, Copy, PartialEq, Eq, Structural)]
pub enum InsertReply {
    Acknowledged,
    Failed,
}

/// What a scan of the collection yields next.
#[derive(Debug, Clone, PartialEq, Eq)]
pub enum ScanEvent {
    /// The next stored item.
    Document(Item),
    /// The scan has reached the end of the collection.
    End,
    /// The store failed in the middle of the scan.
    Failed,
}

/// The store's reply to an update of one item.
#[derive(Debug, Clone, PartialEq, Eq)]
pub enum UpdateReply {
    /// An item matched; this is the item as it was before the update.
    Found(Item),
    /// No item matched.
    Missing,
    Failed,
}

/// The store's reply to a deletion.
#[derive(Debug, Clone, Copy, PartialEq, Eq, Structural)]
pub enum DeleteReply {
    /// The call went through and removed this many items.
    Deleted(u64),
    Failed,
}

/// The update of one item, as it is handed to the store.
#[derive(Debug, PartialEq)]
pub struct UpdateCall {
    /// Selects the item.
    pub filter: bson::Document,
    /// Says what changes in it.
    pub update: bson::Document,
}

/// The deletion of one item, as it is handed to the store.
#[derive(Debug, PartialEq)]
pub struct DeleteCall {
    /// Selects the item.
    pub filter: bson::Document,
}

/// What each of `items` holds, in the same order.
pub open spec fn item_views(items: Seq<Item>) -> Seq<ItemView> {
    items.map_values(|item: Item| item@)
}

/// Prepares the creation of an item: `payload` under an identifier drawn for
/// it. The item returned is the one to insert.
pub fn create(payload: PayloadItem) -> (item: Item)
    ensures
        item@.payload() == payload@,
        is_random_uuid(item@.id),
{
    Item::from(payload)
}

/// The outcome of a creation, given the store's reply to the insertion of
/// `item`.
pub open spec fn create_outcome(item: Item, reply: InsertReply) -> Result<Item, Failure> {
    match reply {
        InsertReply::Acknowledged => Ok(item),
        InsertReply::Failed => Err(Failure::StorageUnavailable),
    }
}

/// Concludes a creation: the item as it was inserted, or
/// `StorageUnavailable` where the store did not acknowledge the insertion.
pub fn created(item: Item, reply: InsertReply) -> (outcome: Result<Item, Failure>)
    ensures
        outcome == create_outcome(item, reply),
{
    match reply {
        InsertReply::Acknowledged => Ok(item),
        InsertReply::Failed => Err(Failure::StorageUnavailable),
    }
}

/// Prepares the update of the item stored under `id`: the filter selects by
/// the identifier alone, and the update replaces the text and the completion
/// flag and nothing else.
pub fn update_by_id(id: u128, payload: &PayloadItem) -> (call: UpdateCall)
    ensures
        document_fields(call.filter) == id_filter_fields(id),
        document_fields(call.update) == set_update_fields(payload@),
{
    UpdateCall { filter: id_filter(id), update: set_update(payload) }
}

/// The outcome of an update, given the store's reply.
pub open spec fn update_outcome(reply: UpdateReply) -> Result<Item, Failure> {
    match reply {
        UpdateReply::Found(before) => Ok(before),
        UpdateReply::Missing => Err(Failure::NotFound),
        UpdateReply::Failed => Err(Failure::StorageUnavailable),
    }
}

/// Concludes an update. Where an item matched, the outcome is that item as
/// the store held it before the update: the two fields just written are not
/// read back. Where none matched, the outcome is `NotFound`.
pub fn updated(reply: UpdateReply) -> (outcome: Result<Item, Failure>)
    ensures
        outcome == update_outcome(reply),
{
    match reply {
        UpdateReply::Found(before) => Ok(before),
        UpdateReply::Missing => Err(Failure::NotFound),
        UpdateReply::Failed => Err(Failure::StorageUnavailable),
    }
}

/// Prepares the deletion of the item stored under `id`.
pub fn delete_by_id(id: u128) -> (call: DeleteCall)
    ensures
        document_fields(call.filter) == id_filter_fields(id),
{
    DeleteCall { filter: id_filter(id) }
}

/// The outcome of a deletion, given the store's reply: whether exactly one
/// item was removed.
pub open spec fn delete_outcome(reply: DeleteReply) -> Result<bool, Failure> {
    match reply {
        DeleteReply::Deleted(count) => Ok(count == 1),
        DeleteReply::Failed => Err(Failure::StorageUnavailable),
    }
}

/// Concludes a deletion. That nothing was removed is an ordinary outcome,
/// `Ok(false)`, and no failure.
pub fn deleted(reply: DeleteReply) -> (outcome: Result<bool, Failure>)
    ensures
        outcome == delete_outcome(reply),
{
    match reply {
        DeleteReply::Deleted(count) => Ok(count == 1),
        DeleteReply::Failed => Err(Failure::StorageUnavailable),
    }
}

/// A scan of the whole collection that is under way. It holds the items read
/// so far, in the order in which the store yielded them, and hands them out
/// only once the store has reported the end of the collection.
#[derive(Debug)]
pub struct Scan {
    items: Vec<Item>,
}

/// Where a scan stands after an event.
#[derive(Debug)]
pub enum ScanStep {
    /// The scan goes on: ask the store for the next event.
    Continue(Scan),
    /// The scan is over, with this outcome.
    Done(Result<Vec<Item>, Failure>),
}

impl View for Scan {
    type V = Seq<ItemView>;

    /// The items read so far.
    closed spec fn view(&self) -> Seq<ItemView> {
        item_views(self.items@)
    }
}

/// Whether `step` is where a scan that has read `read` stands after `event`.
/// An item is added behind those read before it. The end of the collection
/// delivers all that was read, in order. A failure of the store delivers
/// nothing of it.
pub open spec fn scan_step(read: Seq<ItemView>, event: ScanEvent, step: ScanStep) -> bool {
    match event {
        ScanEvent::Document(item) => step matches ScanStep::Continue(next) && next@ == read.push(
            item@,
        ),
        ScanEvent::End => step matches ScanStep::Done(Ok(items)) && item_views(items@) == read,
        ScanEvent::Failed => step == ScanStep::Done(Err(Failure::StorageUnavailable)),
    }
}

/// What an outcome of a scan delivers: the items by what they hold.
pub open spec fn delivered(outcome: Result<Vec<Item>, Failure>) -> Result<Seq<ItemView>, Failure> {
    match outcome {
        Ok(items) => Ok(item_views(items@)),
        Err(failure) => Err(failure),
    }
}

/// How a scan that has read `read` ends once `events` have followed. The
/// items add up until the store reports the end of the collection, which
/// delivers them all, or fails, which delivers none. What follows the end
/// or the failure plays no part. As long as neither has come, the scan has
/// no outcome.
pub open spec fn scan_outcome(read: Seq<ItemView>, events: Seq<ScanEvent>) -> Option<
    Result<Seq<ItemView>, Failure>,
>
    decreases events.len(),
{
    if events.len() == 0 {
        None
    } else {
        match events.first() {
            ScanEvent::Document(item) => scan_outcome(read.push(item@), events.drop_first()),
            ScanEvent::End => Some(Ok(read)),
            ScanEvent::Failed => Some(Err(Failure::StorageUnavailable)),
        }
    }
}

/// Runs a scan over the events of a store, from the first one on, and gives
/// its outcome: `None` where the events stop before the scan is over.
pub fn scan_all(events: Vec<ScanEvent>) -> (outcome: Option<Result<Vec<Item>, Failure>>)
    ensures
        match outcome {
            Some(ended) => scan_outcome(Seq::empty(), events@) == Some(delivered(ended)),
            None => scan_outcome(Seq::empty(), events@) is None,
        },
{
    let ghost all = events@;
    let mut scan = Scan::new();
    proof {
        assert(all.skip(0) =~= all);
    }
    for event in it: events
        invariant
            it.seq() == all,
            scan_outcome(Seq::empty(), all) == scan_outcome(scan@, all.skip(it.index() as int)),
    {
        proof {
            let rest = all.skip(it.index() as int);
            assert(rest.first() == event);
            assert(rest.drop_first() =~= all.skip(it.index() + 1));
        }
        match scan.advance(event) {
            ScanStep::Continue(next) => {
                scan = next;
            },
            ScanStep::Done(ended) => {
                return Some(ended);
            },
        }
    }
    proof {
        assert(all.skip(all.len() as int).len() == 0);
    }
    None
}

impl Scan {
    /// Starts the unfiltered scan of the collection: nothing is read yet.
    pub fn new() -> (scan: Scan)
        ensures
            scan@ == Seq::<ItemView>::empty(),
    {
        Scan { items: Vec::new() }
    }

    /// Takes the next event of the scan.
    pub fn advance(self, event: ScanEvent) -> (step: ScanStep)
        ensures
            scan_step(self@, event, step),
    {
        match event {
            ScanEvent::Document(item) => {
                let mut items = self.items;
                items.push(item);
                proof {
                    assert(item_views(items@) =~= item_views(self.items@).push(item@));
                }
                ScanStep::Continue(Scan { items })
            },
            ScanEvent::End => ScanStep::Done(Ok(self.items)),
            ScanEvent::Failed => ScanStep::Done(Err(Failure::StorageUnavailable)),
        }
    }
}

} // verus!
