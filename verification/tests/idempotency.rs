use newsletter::idempotency::key::ValidationError;
use newsletter::idempotency::{
    get_saved_response, save_response, HeaderPair, IdempotencyKey, Response, ResponseStore,
    SavedResponse, StoreError, UserId,
};

fn key(text: &str) -> IdempotencyKey {
    IdempotencyKey::parse(text.to_string()).unwrap()
}

fn sample_response() -> Response {
    let headers = vec![
        HeaderPair { name: "set-cookie".into(), value: b"a=1".to_vec() },
        HeaderPair { name: "location".into(), value: b"/admin/newsletters".to_vec() },
        HeaderPair { name: "set-cookie".into(), value: vec![0xff, 0x00, 0x80] },
    ];
    Response::new(303, headers, b"body bytes".to_vec()).unwrap()
}

fn parts(r: &Response) -> (u16, Vec<(String, Vec<u8>)>, Vec<u8>) {
    (
        r.status(),
        r.headers().iter().map(|h| (h.name.clone(), h.value.clone())).collect(),
        r.body().clone(),
    )
}

#[test]
fn an_empty_key_is_rejected() {
    assert_eq!(IdempotencyKey::parse("".into()).unwrap_err(), ValidationError::EmptyKey);
}

#[test]
fn a_key_of_50_characters_is_accepted() {
    let text = "k".repeat(50);
    assert_eq!(IdempotencyKey::parse(text.clone()).unwrap().as_ref(), text);
}

#[test]
fn a_key_of_51_characters_is_rejected() {
    assert_eq!(
        IdempotencyKey::parse("k".repeat(51)).unwrap_err(),
        ValidationError::KeyTooLong
    );
}

#[test]
fn a_key_of_one_character_is_accepted() {
    assert_eq!(key("x").as_ref(), "x");
}

#[test]
fn key_length_is_counted_in_characters() {
    // 50 characters of two bytes each.
    let text = "é".repeat(50);
    assert_eq!(text.len(), 100);
    assert!(IdempotencyKey::parse(text).is_ok());
    assert!(IdempotencyKey::parse("é".repeat(51)).is_err());
}

#[test]
fn key_errors_in_words() {
    assert_eq!(ValidationError::EmptyKey.message(), "The idempotency key cannot be empty");
    assert_eq!(
        ValidationError::KeyTooLong.message(),
        "The idempotency key must not be longer than 50 characters"
    );
}

#[test]
fn a_cloned_key_is_the_same_text() {
    let k = key("3f0c9a52-7a5e-4d0e-9d0a-0f3f2b1c4d5e");
    assert_eq!(k.clone().as_ref(), k.as_ref());
}

#[test]
fn response_status_must_be_a_status_code() {
    assert!(Response::new(99, vec![], vec![]).is_none());
    assert!(Response::new(100, vec![], vec![]).is_some());
    assert!(Response::new(999, vec![], vec![]).is_some());
    assert!(Response::new(1000, vec![], vec![]).is_none());
    assert!(Response::new(0, vec![], vec![]).is_none());
}

#[test]
fn see_other_is_a_303_with_a_location() {
    let r = Response::see_other("/admin/newsletters");
    assert_eq!(
        parts(&r),
        (303, vec![("location".to_string(), b"/admin/newsletters".to_vec())], vec![])
    );
}

#[test]
fn see_other_encodes_the_location_as_utf8() {
    let r = Response::see_other("/é");
    assert_eq!(r.headers()[0].value, vec![b'/', 0xc3, 0xa9]);
}

#[test]
fn a_record_keeps_status_headers_and_body() {
    let saved = SavedResponse::record(&sample_response(), 1_700_000_000);
    assert_eq!(saved.status_code, 303);
    assert_eq!(saved.created_at, 1_700_000_000);
    assert_eq!(saved.body, b"body bytes".to_vec());
    let names: Vec<&str> = saved.headers.iter().map(|h| h.name.as_str()).collect();
    assert_eq!(names, vec!["set-cookie", "location", "set-cookie"]);
    assert_eq!(saved.headers[2].value, vec![0xff, 0x00, 0x80]);
}

#[test]
fn a_replayed_record_is_the_response_byte_for_byte() {
    let response = sample_response();
    let replayed = SavedResponse::record(&response, 7).replay().unwrap();
    assert_eq!(parts(&replayed), parts(&response));
    assert_eq!(parts(&SavedResponse::record(&response, 7).clone().replay().unwrap()), parts(&response));
}

#[test]
fn a_record_with_an_invalid_status_does_not_replay() {
    for status_code in [-1, 0, 99, 1000, i16::MAX, i16::MIN] {
        let saved = SavedResponse { status_code, headers: vec![], body: vec![], created_at: 0 };
        assert_eq!(saved.replay().unwrap_err(), StoreError::InvalidStatusCode);
    }
    let saved = SavedResponse { status_code: 100, headers: vec![], body: vec![], created_at: 0 };
    assert_eq!(saved.replay().unwrap().status(), 100);
}

#[test]
fn nothing_is_found_in_an_empty_store() {
    let store = ResponseStore::new();
    assert!(get_saved_response(UserId(1), &key("k"), &store).unwrap().is_none());
}

#[test]
fn a_saved_response_is_found_again_unchanged() {
    let mut store = ResponseStore::new();
    let response = sample_response();
    let expected = parts(&response);
    let returned = save_response(UserId(1), &key("k"), &mut store, response, 42).unwrap();
    assert_eq!(parts(&returned), expected);
    let found = get_saved_response(UserId(1), &key("k"), &store).unwrap().unwrap();
    assert_eq!(parts(&found), expected);
    // Reading does not consume: a second lookup finds the same.
    let again = get_saved_response(UserId(1), &key("k"), &store).unwrap().unwrap();
    assert_eq!(parts(&again), expected);
}

#[test]
fn callers_do_not_share_a_key() {
    let mut store = ResponseStore::new();
    save_response(UserId(1), &key("k"), &mut store, sample_response(), 0).unwrap();
    assert!(get_saved_response(UserId(2), &key("k"), &store).unwrap().is_none());
    assert!(get_saved_response(UserId(1), &key("other"), &store).unwrap().is_none());
    let other = Response::new(200, vec![], b"two".to_vec()).unwrap();
    save_response(UserId(2), &key("k"), &mut store, other, 0).unwrap();
    assert_eq!(get_saved_response(UserId(2), &key("k"), &store).unwrap().unwrap().status(), 200);
    assert_eq!(get_saved_response(UserId(1), &key("k"), &store).unwrap().unwrap().status(), 303);
}

#[test]
fn a_second_save_under_one_key_fails_and_changes_nothing() {
    let mut store = ResponseStore::new();
    save_response(UserId(1), &key("k"), &mut store, sample_response(), 0).unwrap();
    let other = Response::new(200, vec![], b"two".to_vec()).unwrap();
    assert_eq!(
        save_response(UserId(1), &key("k"), &mut store, other, 1).unwrap_err(),
        StoreError::DuplicateKey
    );
    let found = get_saved_response(UserId(1), &key("k"), &store).unwrap().unwrap();
    assert_eq!(parts(&found), parts(&sample_response()));
}

#[test]
fn store_errors_in_words() {
    assert_eq!(
        StoreError::InvalidStatusCode.message(),
        "The saved response has an invalid status code"
    );
    assert_eq!(
        StoreError::DuplicateKey.message(),
        "A response is already saved for this idempotency key"
    );
}
