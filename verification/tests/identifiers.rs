use todo_items::handler::{identifier, identifier_from};
use todo_items::failure::Failure;

#[test]
fn a_hyphenated_uuid_is_read_as_its_number() {
    assert_eq!(
        identifier(Some("936DA01F-9ABD-4D9D-80C7-02AF85C822A8")),
        Ok(0x936DA01F9ABD4D9D80C702AF85C822A8)
    );
}

#[test]
fn a_lower_case_uuid_is_read_as_the_same_number() {
    assert_eq!(
        identifier(Some("936da01f-9abd-4d9d-80c7-02af85c822a8")),
        Ok(0x936DA01F9ABD4D9D80C702AF85C822A8)
    );
}

#[test]
fn a_uuid_without_hyphens_is_read() {
    assert_eq!(
        identifier(Some("936DA01F9ABD4D9D80C702AF85C822A8")),
        Ok(0x936DA01F9ABD4D9D80C702AF85C822A8)
    );
}

#[test]
fn a_uuid_in_urn_form_is_read() {
    assert_eq!(
        identifier(Some("urn:uuid:936da01f-9abd-4d9d-80c7-02af85c822a8")),
        Ok(0x936DA01F9ABD4D9D80C702AF85C822A8)
    );
}

#[test]
fn the_nil_uuid_is_zero() {
    assert_eq!(identifier(Some("00000000-0000-0000-0000-000000000000")), Ok(0));
}

#[test]
fn the_first_byte_is_the_most_significant() {
    assert_eq!(identifier(Some("01000000-0000-0000-0000-000000000002")), Ok((1u128 << 120) + 2));
}

#[test]
fn a_text_that_is_no_uuid_is_invalid_input() {
    assert_eq!(identifier(Some("not-a-uuid")), Err(Failure::InvalidInput));
}

#[test]
fn an_empty_text_is_invalid_input() {
    assert_eq!(identifier(Some("")), Err(Failure::InvalidInput));
}

#[test]
fn a_uuid_with_a_wrong_digit_is_invalid_input() {
    assert_eq!(
        identifier(Some("936DA01F-9ABD-4D9D-80C7-02AF85C822AG")),
        Err(Failure::InvalidInput)
    );
}

#[test]
fn a_uuid_that_is_too_long_is_invalid_input() {
    assert_eq!(
        identifier(Some("936DA01F-9ABD-4D9D-80C7-02AF85C822A8A")),
        Err(Failure::InvalidInput)
    );
}

#[test]
fn a_text_with_wide_characters_is_invalid_input() {
    assert_eq!(identifier(Some("936DA01F-9ABD-4D9D-80C7-02AF85C822\u{e9}")), Err(Failure::InvalidInput));
}

#[test]
fn a_request_without_identifier_is_invalid_input() {
    assert_eq!(identifier(None), Err(Failure::InvalidInput));
}

#[test]
fn the_parsed_identifier_decides() {
    assert_eq!(identifier_from(Some(42)), Ok(42));
    assert_eq!(identifier_from(Some(u128::MAX)), Ok(u128::MAX));
    assert_eq!(identifier_from(None), Err(Failure::InvalidInput));
}

#[test]
fn identifier_agrees_with_the_uuid_crate() {
    let uuid = uuid::Uuid::new_v4();
    let text = uuid.to_hyphenated().to_string();
    assert_eq!(identifier(Some(text.as_str())), Ok(uuid.as_u128()));
}
