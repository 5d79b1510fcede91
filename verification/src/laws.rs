//! What the library's functions achieve together.
//!
//! Most of these statements follow a request through the store. They hold
//! of a store that keeps the collection as the module `collection` says: each
//! takes the store's replies and the states of the collection as they come,
//! and says what then holds of the outcomes and of the answers.

use crate::collection::{
    after_update, delete_one, field_of, find_all, find_one_and_update, identifiers_unique,
    insert_one, selects, stored_after, stored_at_most_once, Collection,
};
use crate::document::{id_filter_fields, set_update_fields, Value};
use crate::failure::Failure;
use crate::handler::{
    create_answer, creation_planned, delete_answer, deletion_planned, failure_answer,
    identifier_named, payload_of, payloads_of, update_answer, update_planned, BodyView, Draft,
    Response, ResponseView, OK,
};
use crate::ident::uuid_parse_str;
use crate::item::{Item, ItemView, PayloadItemView};
use crate::repository::{
    delete_outcome, item_views, scan_outcome, update_outcome, DeleteCall, DeleteReply,
    InsertReply, ScanEvent, UpdateCall, UpdateReply,
};
use vstd::multiset::Multiset;
use vstd::prelude::*;
use vstd::seq_lib::group_to_multiset_ensures;

verus! {

/// The filter built for an identifier selects exactly the items stored
/// under it.
pub proof fn id_filter_selects_by_id(id: u128, item: ItemView)
    ensures
        selects(id_filter_fields(id), item) <==> item.id == id,
{
    let filter = id_filter_fields(id);
    assert(filter.dom().contains("id"@));
    assert(filter["id"@] == Value::Uuid(id));
    if item.id == id {
        assert forall|key: Seq<char>| #[trigger] filter.dom().contains(key) implies field_of(
            item,
            key,
        ) == Some(filter[key]) by {
            assert(key == "id"@);
        }
    }
}

/// The update built for a payload replaces an item's text and completion
/// flag by the payload's, and keeps its identifier.
pub proof fn set_update_replaces_payload(payload: PayloadItemView, item: ItemView)
    ensures
        after_update(set_update_fields(payload), item) == payload.with_id(item.id),
{
    reveal_strlit("id");
    reveal_strlit("text");
    reveal_strlit("complete");
    assert("id"@.len() == 2 && "text"@.len() == 4 && "complete"@.len() == 8);
    let update = set_update_fields(payload);
    assert(update.dom().contains("$set"@));
    assert(update["$set"@] is Document);
    let fields = update["$set"@]->Document_0;
    assert(!fields.dom().contains("id"@));
    assert(fields.dom().contains("text"@) && fields["text"@] == Value::Text(payload.text));
    assert(fields.dom().contains("complete"@) && fields["complete"@] == Value::Flag(
        payload.complete,
    ));
}

/// A payload that is stored under any identifier and then stripped of it is
/// the payload again.
pub proof fn round_trip(payload: PayloadItemView, id: u128)
    ensures
        payload.with_id(id).payload() == payload,
        payload.with_id(id).id == id,
{
}

/// The events of a scan in which the store yields `documents` in turn and
/// then `last`.
pub open spec fn scan_events(documents: Seq<Item>, last: ScanEvent) -> Seq<ScanEvent> {
    documents.map_values(|item: Item| ScanEvent::Document(item)).push(last)
}

/// What a scan delivers once the store has yielded `documents` and then
/// ended it.
pub open spec fn scan_end(read: Seq<ItemView>, documents: Seq<Item>, last: ScanEvent) -> Result<
    Seq<ItemView>,
    Failure,
> {
    if last is End {
        Ok(read + item_views(documents))
    } else {
        Err(Failure::StorageUnavailable)
    }
}

/// A scan delivers all or nothing: every item that the store yielded, in
/// the store's order, where the store reports the end of the collection, and
/// `StorageUnavailable` alone where the store fails, however many items it
/// had yielded before.
pub proof fn scan_delivers_all_or_nothing(
    read: Seq<ItemView>,
    documents: Seq<Item>,
    last: ScanEvent,
)
    requires
        !(last is Document),
    ensures
        scan_outcome(read, scan_events(documents, last)) == Some(scan_end(read, documents, last)),
    decreases documents.len(),
{
    let events = scan_events(documents, last);
    if documents.len() == 0 {
        assert(events.first() == last);
        assert(read + item_views(documents) =~= read);
    } else {
        let first = documents.first();
        let rest = documents.drop_first();
        assert(events.first() == ScanEvent::Document(first));
        assert(events.drop_first() =~= scan_events(rest, last));
        scan_delivers_all_or_nothing(read.push(first@), rest, last);
        assert(read.push(first@) + item_views(rest) =~= read + item_views(documents));
    }
}

/// Two listings that hold the same items, in whatever order, show the same
/// payloads.
proof fn same_items_same_payloads(first: Seq<ItemView>, second: Seq<ItemView>)
    requires
        first.to_multiset() == second.to_multiset(),
    ensures
        payloads_of(first).to_multiset() == payloads_of(second).to_multiset(),
    decreases first.len(),
{
    broadcast use group_to_multiset_ensures;

    if first.len() == 0 {
        assert(second.len() == 0) by {
            vstd::seq_lib::to_multiset_len(first);
            vstd::seq_lib::to_multiset_len(second);
        }
        assert(payloads_of(first) =~= payloads_of(second));
    } else {
        let item = first.last();
        let rest = first.drop_last();
        assert(first =~= rest.push(item));
        assert(first.contains(item));
        assert(second.contains(item)) by {
            assert(first.to_multiset().count(item) > 0);
            assert(second.to_multiset().count(item) > 0);
        }
        let at = choose|at: int| 0 <= at < second.len() && second[at] == item;
        let others = second.remove(at);
        assert(rest.to_multiset() =~= others.to_multiset());
        same_items_same_payloads(rest, others);
        assert(payloads_of(first) =~= payloads_of(rest).push(item.payload()));
        assert(payloads_of(others) =~= payloads_of(second).remove(at));
        assert(payloads_of(second)[at] == item.payload());
        assert(payloads_of(second).to_multiset() =~= payloads_of(others).to_multiset().insert(
            item.payload(),
        ));
    }
}

/// The collection that a listing shows, after more items were inserted, is
/// the one that the listing followed by those items shows.
proof fn stored_after_listing(earlier: Seq<ItemView>, created: Seq<ItemView>)
    ensures
        stored_after(earlier.to_multiset(), created) == (earlier + created).to_multiset(),
    decreases created.len(),
{
    broadcast use group_to_multiset_ensures;

    if created.len() == 0 {
        assert(earlier + created =~= earlier);
    } else {
        stored_after_listing(earlier, created.drop_last());
        assert(earlier + created =~= (earlier + created.drop_last()).push(created.last()));
    }
}

/// Each step of `stored_after` is one acknowledged insertion.
pub proof fn stored_after_inserts(before: Collection, created: Seq<ItemView>)
    requires
        created.len() > 0,
    ensures
        insert_one(
            stored_after(before, created.drop_last()),
            created.last(),
            InsertReply::Acknowledged,
            stored_after(before, created),
        ),
{
}

/// Once the items `created` were inserted into an empty collection, a
/// listing shows exactly their payloads: each as often as it was created,
/// and nothing else. The order is the store's.
pub proof fn list_completeness(created: Seq<ItemView>, found: Seq<ItemView>)
    requires
        find_all(stored_after(Multiset::empty(), created), found),
    ensures
        payloads_of(found).to_multiset() == payloads_of(created).to_multiset(),
        found.len() == created.len(),
{
    let nothing = Seq::<ItemView>::empty();
    assert(nothing.to_multiset() =~= Multiset::<ItemView>::empty()) by {
        vstd::seq_lib::to_multiset_len(nothing);
        vstd::multiset::lemma_multiset_empty_len(nothing.to_multiset());
    }
    assert(nothing + created =~= created);
    list_growth(nothing, created, found);
}

/// Where a listing showed `earlier` and the items `created` were inserted
/// since, a new listing shows the payloads of both, each as often as it is
/// stored, and nothing else.
pub proof fn list_growth(earlier: Seq<ItemView>, created: Seq<ItemView>, found: Seq<ItemView>)
    requires
        find_all(stored_after(earlier.to_multiset(), created), found),
    ensures
        payloads_of(found).to_multiset() == payloads_of(earlier + created).to_multiset(),
        found.len() == earlier.len() + created.len(),
{
    broadcast use group_to_multiset_ensures;

    stored_after_listing(earlier, created);
    same_items_same_payloads(found, earlier + created);
    assert(found.to_multiset().len() == (earlier + created).to_multiset().len());
}

/// After an update that found an item under `id`, the collection holds an
/// item with that identifier and the payload that was sent, in place of the
/// one found, and every listing shows it. Nothing else has changed.
pub proof fn update_isolation(
    before: Collection,
    id: u128,
    payload: PayloadItemView,
    found: Item,
    after: Collection,
    listing: Seq<ItemView>,
)
    requires
        find_one_and_update(
            before,
            id_filter_fields(id),
            set_update_fields(payload),
            UpdateReply::Found(found),
            after,
        ),
        find_all(after, listing),
    ensures
        found@.id == id,
        after == before.remove(found@).insert(payload.with_id(id)),
        listing.contains(payload.with_id(id)),
        payloads_of(listing).contains(payload),
{
    broadcast use group_to_multiset_ensures;

    id_filter_selects_by_id(id, found@);
    set_update_replaces_payload(payload, found@);
    let updated = payload.with_id(id);
    assert(after.count(updated) > 0);
    assert(listing.contains(updated));
    let at = choose|at: int| 0 <= at < listing.len() && listing[at] == updated;
    assert(payloads_of(listing)[at] == payload);
}

/// Where one item is stored under `id`, every item that a listing shows
/// under `id` after an update has the payload that was sent.
pub proof fn update_of_single_item(
    before: Collection,
    id: u128,
    payload: PayloadItemView,
    found: Item,
    after: Collection,
    listing: Seq<ItemView>,
)
    requires
        stored_at_most_once(before, id),
        find_one_and_update(
            before,
            id_filter_fields(id),
            set_update_fields(payload),
            UpdateReply::Found(found),
            after,
        ),
        find_all(after, listing),
    ensures
        stored_at_most_once(after, id),
        forall|k: int|
            0 <= k < listing.len() && (#[trigger] listing[k]).id == id ==> listing[k]
                == payload.with_id(id),
{
    broadcast use group_to_multiset_ensures;

    id_filter_selects_by_id(id, found@);
    set_update_replaces_payload(payload, found@);
    let updated = payload.with_id(id);
    assert(before.contains(found@));
    assert(before.count(found@) == 1);
    assert forall|shown: ItemView| #[trigger] after.contains(shown) && shown.id == id implies shown
        == updated && after.count(shown) == 1 by {
        if shown != updated {
            assert(before.remove(found@).count(shown) > 0);
            assert(before.contains(shown));
        }
        if before.contains(updated) {
            assert(updated == found@);
        }
    }
    assert forall|k: int| 0 <= k < listing.len() && (#[trigger] listing[k]).id
        == id implies listing[k] == updated by {
        assert(listing.contains(listing[k]));
        assert(after.contains(listing[k]));
    }
}

/// An update never makes two items share an identifier: it keeps the
/// identifier of the item that it changes.
pub proof fn update_keeps_identifiers_unique(
    before: Collection,
    id: u128,
    payload: PayloadItemView,
    reply: UpdateReply,
    after: Collection,
)
    requires
        identifiers_unique(before),
        find_one_and_update(before, id_filter_fields(id), set_update_fields(payload), reply, after),
        !(reply is Failed),
    ensures
        identifiers_unique(after),
{
    assert forall|other: u128| #[trigger] stored_at_most_once(after, other) by {
        assert(stored_at_most_once(before, other));
        if let UpdateReply::Found(found) = reply {
            id_filter_selects_by_id(id, found@);
            set_update_replaces_payload(payload, found@);
            assert(stored_at_most_once(before, id));
            assert(before.contains(found@));
            let updated = payload.with_id(id);
            assert forall|shown: ItemView| #[trigger] after.contains(shown) implies (if shown.id
                == id {
                shown == updated && after.count(shown) == 1
            } else {
                before.contains(shown) && after.count(shown) == before.count(shown)
            }) by {
                if shown != updated {
                    assert(before.remove(found@).count(shown) > 0);
                    assert(before.contains(shown));
                }
                if before.contains(updated) {
                    assert(updated == found@);
                }
            }
        }
    }
}

/// A deletion never makes two items share an identifier: it only removes.
pub proof fn delete_keeps_identifiers_unique(
    before: Collection,
    id: u128,
    reply: DeleteReply,
    after: Collection,
)
    requires
        identifiers_unique(before),
        delete_one(before, id_filter_fields(id), reply, after),
        !(reply is Failed),
    ensures
        identifiers_unique(after),
{
    assert forall|other: u128| #[trigger] stored_at_most_once(after, other) by {
        assert(stored_at_most_once(before, other));
        if let DeleteReply::Deleted(count) = reply {
            if count != 0 {
                let removed = choose|removed: ItemView| #[trigger]
                    before.contains(removed) && selects(id_filter_fields(id), removed) && after
                        == before.remove(removed);
                assert forall|shown: ItemView| #[trigger]
                    after.contains(shown) implies before.contains(shown) && after.count(shown)
                    <= before.count(shown) by {}
            }
        }
    }
}

/// An insertion keeps the identifiers unique as long as the identifier of
/// the new item is unused.
pub proof fn insert_keeps_identifiers_unique(before: Collection, created: ItemView)
    requires
        identifiers_unique(before),
        forall|item: ItemView| before.contains(item) ==> item.id != created.id,
    ensures
        identifiers_unique(before.insert(created)),
{
    let grown = before.insert(created);
    assert forall|other: u128| #[trigger] stored_at_most_once(grown, other) by {
        assert(stored_at_most_once(before, other));
        assert forall|shown: ItemView| #[trigger] grown.contains(shown) implies (if shown
            == created {
            grown.count(shown) == 1
        } else {
            before.contains(shown) && grown.count(shown) == before.count(shown)
        }) by {
            if shown == created {
                assert(!before.contains(created));
            }
        }
    }
}

/// Where no stored item has the identifier, an update that the store served
/// reports `NotFound`, is answered with that status, and leaves the
/// collection as it was.
pub proof fn update_of_unknown_id(
    before: Collection,
    id: u128,
    payload: PayloadItemView,
    reply: UpdateReply,
    after: Collection,
)
    requires
        forall|item: ItemView| before.contains(item) ==> item.id != id,
        find_one_and_update(before, id_filter_fields(id), set_update_fields(payload), reply, after),
        !(reply is Failed),
    ensures
        update_outcome(reply) == Err::<Item, Failure>(Failure::NotFound),
        update_answer(reply) == failure_answer(Failure::NotFound),
        after == before,
{
    if let UpdateReply::Found(found) = reply {
        id_filter_selects_by_id(id, found@);
    }
}

/// Where no stored item has the identifier, a deletion that the store served
/// reports that nothing was removed, which is no failure of the repository,
/// is answered as not found, and leaves the collection as it was.
pub proof fn delete_of_unknown_id(
    before: Collection,
    id: u128,
    reply: DeleteReply,
    after: Collection,
)
    requires
        forall|item: ItemView| before.contains(item) ==> item.id != id,
        delete_one(before, id_filter_fields(id), reply, after),
        !(reply is Failed),
    ensures
        delete_outcome(reply) == Ok::<bool, Failure>(false),
        delete_answer(reply) == failure_answer(Failure::NotFound),
        after == before,
{
    if let DeleteReply::Deleted(count) = reply {
        if count != 0 {
            let item = choose|item: ItemView| #[trigger]
                before.contains(item) && selects(id_filter_fields(id), item) && after
                    == before.remove(item);
            id_filter_selects_by_id(id, item);
        }
    }
}

/// Once an item is stored, a deletion by its identifier that the store
/// served reports that one item was removed and is answered with success.
/// The collection then holds one item under that identifier less.
pub proof fn delete_after_create(
    before: Collection,
    item: ItemView,
    reply: DeleteReply,
    after: Collection,
)
    requires
        delete_one(before.insert(item), id_filter_fields(item.id), reply, after),
        !(reply is Failed),
    ensures
        delete_outcome(reply) == Ok::<bool, Failure>(true),
        delete_answer(reply) == (ResponseView { status: OK, body: BodyView::Empty }),
        after.len() == before.len(),
        exists|removed: ItemView|
            removed.id == item.id && #[trigger] before.insert(item).contains(removed) && after
                == before.insert(item).remove(removed),
{
    let stored = before.insert(item);
    id_filter_selects_by_id(item.id, item);
    assert(stored.contains(item));
    let count = reply->Deleted_0;
    assert(count != 0);
    let removed = choose|removed: ItemView| #[trigger]
        stored.contains(removed) && selects(id_filter_fields(item.id), removed) && after
            == stored.remove(removed);
    id_filter_selects_by_id(item.id, removed);
}

/// Where an item was created under an identifier that no other stored item
/// has, and then deleted by it, the collection is what it was before the
/// creation, and a later update by that identifier reports `NotFound`.
pub proof fn update_after_delete(
    before: Collection,
    item: ItemView,
    deletion: DeleteReply,
    between: Collection,
    payload: PayloadItemView,
    update: UpdateReply,
    after: Collection,
)
    requires
        forall|other: ItemView| before.contains(other) ==> other.id != item.id,
        delete_one(before.insert(item), id_filter_fields(item.id), deletion, between),
        !(deletion is Failed),
        find_one_and_update(
            between,
            id_filter_fields(item.id),
            set_update_fields(payload),
            update,
            after,
        ),
        !(update is Failed),
    ensures
        delete_outcome(deletion) == Ok::<bool, Failure>(true),
        between == before,
        update_outcome(update) == Err::<Item, Failure>(Failure::NotFound),
        update_answer(update) == failure_answer(Failure::NotFound),
        after == before,
{
    let stored = before.insert(item);
    delete_after_create(before, item, deletion, between);
    let removed = choose|removed: ItemView|
        removed.id == item.id && #[trigger] stored.contains(removed) && between == stored.remove(
            removed,
        );
    assert(removed == item) by {
        if removed != item {
            assert(before.contains(removed));
        }
    }
    assert(between =~= before);
    update_of_unknown_id(before, item.id, payload, update, after);
}

/// A creation that the store acknowledged is answered with the payload that
/// was sent.
pub proof fn creation_echoes_payload(body: Option<Draft>, plan: Result<Item, Response>)
    requires
        payload_of(body) is Ok,
        creation_planned(body, plan),
    ensures
        plan is Ok,
        create_answer(plan->Ok_0, InsertReply::Acknowledged) == (ResponseView {
            status: OK,
            body: BodyView::One(payload_of(body)->Ok_0),
        }),
{
}

/// An update whose identifier is no UUID is answered as invalid input, and
/// no call is prepared for it, whatever its body holds.
pub proof fn update_with_malformed_identifier(
    id: &str,
    body: Option<Draft>,
    plan: Result<UpdateCall, Response>,
)
    requires
        update_planned(identifier_named(Some(id)), body, plan),
    ensures
        uuid_parse_str(id@) is None ==> plan is Err && plan->Err_0@ == failure_answer(
            Failure::InvalidInput,
        ),
{
}

/// A deletion whose identifier is no UUID is answered as invalid input, and
/// no call is prepared for it.
pub proof fn delete_with_malformed_identifier(id: &str, plan: Result<DeleteCall, Response>)
    requires
        deletion_planned(identifier_named(Some(id)), plan),
    ensures
        uuid_parse_str(id@) is None ==> plan is Err && plan->Err_0@ == failure_answer(
            Failure::InvalidInput,
        ),
{
}

/// A creation or an update whose body lacks its text or its completion flag
/// is answered as invalid input, and no call is prepared for it, whatever
/// its identifier is.
pub proof fn body_without_field(
    body: Draft,
    id: Result<u128, Failure>,
    creation: Result<Item, Response>,
    update: Result<UpdateCall, Response>,
)
    requires
        body.text is None || body.complete is None,
        creation_planned(Some(body), creation),
        update_planned(id, Some(body), update),
    ensures
        payload_of(Some(body)) == Err::<PayloadItemView, Failure>(Failure::InvalidInput),
        creation is Err,
        creation->Err_0@ == failure_answer(Failure::InvalidInput),
        update is Err,
        update->Err_0@ == failure_answer(Failure::InvalidInput),
{
}

} // verus!
