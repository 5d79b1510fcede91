use todo_items::item::{Item, PayloadItem};
use todo_items::repository::create;

fn payload(text: &str, complete: bool) -> PayloadItem {
    PayloadItem { text: text.to_string(), complete }
}

#[test]
fn with_id_keeps_the_payload_under_the_identifier() {
    let item = Item::with_id(7, payload("water the plants", false));
    assert_eq!(item, Item { id: 7, text: "water the plants".to_string(), complete: false });
}

#[test]
fn stripping_drops_only_the_identifier() {
    let item = Item { id: u128::MAX, text: "file the report".to_string(), complete: true };
    assert_eq!(PayloadItem::from(item), payload("file the report", true));
}

#[test]
fn round_trip_returns_the_payload() {
    let sent = payload("call the plumber", true);
    let stored = Item::from(sent.clone());
    assert_eq!(PayloadItem::from(stored), sent);
}

#[test]
fn round_trip_through_create_returns_the_payload() {
    let sent = payload("buy milk", false);
    let stored = create(sent.clone());
    assert_eq!(stored.text, "buy milk");
    assert!(!stored.complete);
    assert_eq!(PayloadItem::from(stored), sent);
}

#[test]
fn empty_text_is_a_legal_payload() {
    let stored = create(payload("", false));
    assert_eq!(PayloadItem::from(stored), payload("", false));
}

#[test]
fn a_created_item_has_a_random_uuid() {
    let stored = Item::from(payload("a", false));
    assert_eq!((stored.id >> 76) & 0xf, 4);
    assert_eq!((stored.id >> 62) & 0x3, 2);
    let uuid = uuid::Uuid::from_u128(stored.id);
    assert_eq!(uuid.get_version_num(), 4);
    assert_eq!(uuid.get_variant(), Some(uuid::Variant::RFC4122));
}

#[test]
fn two_creations_draw_two_identifiers() {
    let first = create(payload("same", true));
    let second = create(payload("same", true));
    assert_ne!(first.id, second.id);
    assert_eq!(PayloadItem::from(first), PayloadItem::from(second));
}
