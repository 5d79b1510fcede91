//! The stored collection, as the store is taken to keep it.
//!
//! The collection lives in the store, out of this library's sight. What is
//! written here is the behaviour that the repository counts on: which items a
//! filter selects, what an update does to an item, and how each call changes
//! the collection and is replied to. Nothing in this module runs. It gives the
//! repository's calls a meaning, so that what they achieve together can be
//! stated and proved.

use crate::document::Value;
use crate::item::ItemView;
use crate::repository::{DeleteReply, InsertReply, UpdateReply};
use vstd::multiset::Multiset;
use vstd::prelude::*;

verus! {

/// The items of the collection. An item may be stored more than once, and
/// the items have no order.
pub type Collection = Multiset<ItemView>;

/// The value that `item` holds in its field `key`, as it is laid out in the
/// store: `id`, `text` and `complete`.
pub open spec fn field_of(item: ItemView, key: Seq<char>) -> Option<Value> {
    if key == "id"@ {
        Some(Value::Uuid(item.id))
    } else if key == "text"@ {
        Some(Value::Text(item.text))
    } else if key == "complete"@ {
        Some(Value::Flag(item.complete))
    } else {
        None
    }
}

/// Whether `filter` selects `item`: the item has each field of the filter,
/// with the filter's value.
pub open spec fn selects(filter: Map<Seq<char>, Value>, item: ItemView) -> bool {
    forall|key: Seq<char>| #[trigger]
        filter.dom().contains(key) ==> field_of(item, key) == Some(filter[key])
}

/// The item with each of its three fields replaced by the value that
/// `fields` holds for it, where `fields` holds one of the field's type.
pub open spec fn with_fields(item: ItemView, fields: Map<Seq<char>, Value>) -> ItemView {
    ItemView {
        id: if fields.dom().contains("id"@) && fields["id"@] is Uuid {
            fields["id"@]->Uuid_0
        } else {
            item.id
        },
        text: if fields.dom().contains("text"@) && fields["text"@] is Text {
            fields["text"@]->Text_0
        } else {
            item.text
        },
        complete: if fields.dom().contains("complete"@) && fields["complete"@] is Flag {
            fields["complete"@]->Flag_0
        } else {
            item.complete
        },
    }
}

/// The item after `update` is applied to it: the fields that the update
/// names under `$set` are replaced, and the others stay.
pub open spec fn after_update(update: Map<Seq<char>, Value>, item: ItemView) -> ItemView {
    if update.dom().contains("$set"@) && update["$set"@] is Document {
        with_fields(item, update["$set"@]->Document_0)
    } else {
        item
    }
}

/// Whether `stored` holds at most one item under `id`.
pub open spec fn stored_at_most_once(stored: Collection, id: u128) -> bool {
    forall|first: ItemView, second: ItemView|
        #![trigger stored.contains(first), stored.contains(second)]
        stored.contains(first) && stored.contains(second) && first.id == id && second.id == id
            ==> first == second && stored.count(first) == 1
}

/// Whether no two items of `stored` share an identifier.
pub open spec fn identifiers_unique(stored: Collection) -> bool {
    forall|id: u128| #[trigger] stored_at_most_once(stored, id)
}

/// Whether no item of `stored` is selected by `filter`.
pub open spec fn selects_none(filter: Map<Seq<char>, Value>, stored: Collection) -> bool {
    forall|item: ItemView| #[trigger] stored.contains(item) ==> !selects(filter, item)
}

/// The insertion of `item`: once the store has acknowledged it, the
/// collection holds the item once more than before. Of a call that failed
/// nothing is known.
pub open spec fn insert_one(
    before: Collection,
    item: ItemView,
    reply: InsertReply,
    after: Collection,
) -> bool {
    reply is Acknowledged ==> after == before.insert(item)
}

/// The collection after each of `created` was inserted in turn, and each
/// insertion acknowledged.
pub open spec fn stored_after(before: Collection, created: Seq<ItemView>) -> Collection
    decreases created.len(),
{
    if created.len() == 0 {
        before
    } else {
        stored_after(before, created.drop_last()).insert(created.last())
    }
}

/// An unfiltered scan: it yields every stored item, each as often as it is
/// stored, in an order of the store's choosing.
pub open spec fn find_all(stored: Collection, found: Seq<ItemView>) -> bool {
    found.to_multiset() == stored
}

/// An update of one item: the store picks an item that the filter selects,
/// replaces it by the item that the update makes of it, and replies with the
/// item as it was. Where the filter selects none, the collection stays as it
/// is. Of a call that failed nothing is known.
pub open spec fn find_one_and_update(
    before: Collection,
    filter: Map<Seq<char>, Value>,
    update: Map<Seq<char>, Value>,
    reply: UpdateReply,
    after: Collection,
) -> bool {
    match reply {
        UpdateReply::Found(found) => {
            &&& before.contains(found@)
            &&& selects(filter, found@)
            &&& after == before.remove(found@).insert(after_update(update, found@))
        },
        UpdateReply::Missing => selects_none(filter, before) && after == before,
        UpdateReply::Failed => true,
    }
}

/// A deletion of one item: the store removes one item that the filter
/// selects and counts it, or removes nothing where the filter selects none.
/// Of a call that failed nothing is known.
pub open spec fn delete_one(
    before: Collection,
    filter: Map<Seq<char>, Value>,
    reply: DeleteReply,
    after: Collection,
) -> bool {
    match reply {
        DeleteReply::Deleted(count) => if count == 0 {
            selects_none(filter, before) && after == before
        } else {
            &&& count == 1
            &&& exists|item: ItemView| #[trigger]
                before.contains(item) && selects(filter, item) && after == before.remove(item)
        },
        DeleteReply::Failed => true,
    }
}

} // verus!
