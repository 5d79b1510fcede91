//! The two shapes of a to-do item.
//!
//! Clients see a [`PayloadItem`]: a text and a completion flag. The store keeps
//! an [`Item`]: the same two fields under an identifier that the service
//! draws when the item is created and never changes afterwards.

use crate::ident::{is_random_uuid, random_uuid};
use vstd::prelude::*;

verus! {

/// A to-do item as clients send and receive it. It carries no identifier.
#[derive(Debug, Clone, PartialEq, Eq)]
pub struct PayloadItem {
    pub text: String,
    pub complete: bool,
}

/// A to-do item as the store keeps it.
#[derive(Debug, Clone, PartialEq, Eq)]
pub struct Item {
    /// The 128 bits of the item's UUID, first byte most significant.
    pub id: u128,
    pub text: String,
    pub complete: bool,
}

/// What a [`PayloadItem`] holds.
pub struct PayloadItemView {
    pub text: Seq<char>,
    pub complete: bool,
}

/// What an [`Item`] holds.
pub struct ItemView {
    pub id: u128,
    pub text: Seq<char>,
    pub complete: bool,
}

impl ItemView {
    /// The item as clients see it: the identifier is dropped.
    pub open spec fn payload(self) -> PayloadItemView {
        PayloadItemView { text: self.text, complete: self.complete }
    }
}

impl PayloadItemView {
    /// The stored item that holds this payload under `id`.
    pub open spec fn with_id(self, id: u128) -> ItemView {
        ItemView { id, text: self.text, complete: self.complete }
    }
}

impl View for PayloadItem {
    type V = PayloadItemView;

    open spec fn view(&self) -> PayloadItemView {
        PayloadItemView { text: self.text@, complete: self.complete }
    }
}

impl View for Item {
    type V = ItemView;

    open spec fn view(&self) -> ItemView {
        ItemView { id: self.id, text: self.text@, complete: self.complete }
    }
}

impl Item {
    /// Builds the stored item that holds `payload` under `id`.
    pub fn with_id(id: u128, payload: PayloadItem) -> (item: Item)
        ensures
            item@ == payload@.with_id(id),
    {
        Item { id, text: payload.text, complete: payload.complete }
    }
}

impl From<Item> for PayloadItem {
    /// Drops the identifier of a stored item.
    fn from(item: Item) -> (payload: PayloadItem)
        ensures
            payload@ == item@.payload(),
    {
        PayloadItem { text: item.text, complete: item.complete }
    }
}

impl vstd::std_specs::convert::FromSpecImpl<Item> for PayloadItem {
    open spec fn obeys_from_spec() -> bool {
        true
    }

    open spec fn from_spec(item: Item) -> PayloadItem {
        PayloadItem { text: item.text, complete: item.complete }
    }
}

impl From<PayloadItem> for Item {
    /// Stores a payload under a freshly drawn identifier.
    fn from(payload: PayloadItem) -> (item: Item)
        ensures
            item@.payload() == payload@,
            is_random_uuid(item@.id),
    {
        let id: u128 = random_uuid();
        Item::with_id(id, payload)
    }
}

/// The identifier is drawn at random, so the stored item is no function of
/// the payload, and no `from_spec` is obeyed: what `from` returns is stated
/// on `from` itself.
impl vstd::std_specs::convert::FromSpecImpl<PayloadItem> for Item {
    open spec fn obeys_from_spec() -> bool {
        false
    }

    open spec fn from_spec(payload: PayloadItem) -> Item {
        Item { id: arbitrary(), text: payload.text, complete: payload.complete }
    }
}

} // verus!
