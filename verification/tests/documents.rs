use bson::spec::BinarySubtype;
use bson::{Binary, Bson, Document};
use todo_items::document::{id_filter, set_update};
use todo_items::item::PayloadItem;
use todo_items::repository::{delete_by_id, update_by_id};

fn uuid_value(bytes: [u8; 16]) -> Bson {
    Bson::Binary(Binary { subtype: BinarySubtype::Uuid, bytes: bytes.to_vec() })
}

#[test]
fn the_filter_holds_the_identifier_and_nothing_else() {
    let filter = id_filter(0x0102030405060708090a0b0c0d0e0f10);
    assert_eq!(filter.len(), 1);
    assert_eq!(
        filter.get("id"),
        Some(&uuid_value([1, 2, 3, 4, 5, 6, 7, 8, 9, 10, 11, 12, 13, 14, 15, 16]))
    );
}

#[test]
fn the_filter_of_the_nil_uuid_holds_sixteen_zero_bytes() {
    let filter = id_filter(0);
    let mut expected = Document::new();
    expected.insert("id", uuid_value([0; 16]));
    assert_eq!(filter, expected);
}

#[test]
fn the_filter_is_the_one_that_a_uuid_makes() {
    let uuid = uuid::Uuid::parse_str("936DA01F-9ABD-4D9D-80C7-02AF85C822A8").unwrap();
    let mut expected = Document::new();
    expected.insert("id", uuid);
    assert_eq!(id_filter(uuid.as_u128()), expected);
}

#[test]
fn the_update_sets_text_and_complete_and_nothing_else() {
    let payload = PayloadItem { text: "sweep the yard".to_string(), complete: true };
    let update = set_update(&payload);
    assert_eq!(update.len(), 1);
    let fields = update.get_document("$set").unwrap();
    assert_eq!(fields.len(), 2);
    assert_eq!(fields.get("text"), Some(&Bson::String("sweep the yard".to_string())));
    assert_eq!(fields.get("complete"), Some(&Bson::Boolean(true)));
    assert_eq!(fields.get("id"), None);
}

#[test]
fn the_update_lists_text_before_complete() {
    let payload = PayloadItem { text: "".to_string(), complete: false };
    let update = set_update(&payload);
    let mut fields = Document::new();
    fields.insert("text", "");
    fields.insert("complete", false);
    let mut expected = Document::new();
    expected.insert("$set", fields);
    assert_eq!(update, expected);
    let keys: Vec<&String> = update.get_document("$set").unwrap().keys().collect();
    assert_eq!(keys, vec!["text", "complete"]);
}

#[test]
fn the_update_call_pairs_filter_and_update() {
    let payload = PayloadItem { text: "x".to_string(), complete: false };
    let call = update_by_id(5, &payload);
    assert_eq!(call.filter, id_filter(5));
    assert_eq!(call.update, set_update(&payload));
    assert_ne!(call.filter, id_filter(6));
}

#[test]
fn the_delete_call_holds_the_filter() {
    let call = delete_by_id(u128::MAX);
    assert_eq!(call.filter.len(), 1);
    assert_eq!(call.filter.get("id"), Some(&uuid_value([255; 16])));
}
