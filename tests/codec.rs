use meal_review::codec::{decode, encode, CallbackAction, DecodeError, Domain, EncodeError};

fn action(domain: Domain, subject_id: i64, verb: &str) -> CallbackAction {
    CallbackAction { domain, subject_id, verb: verb.to_string() }
}

#[test]
fn encode_joins_three_fields() {
    let t = encode(&action(Domain::RestaurantMenu, 7, "new_dishes")).unwrap();
    assert_eq!(t, "RestaurantMenu-7-new_dishes");
    let t = encode(&action(Domain::RestaurantFieldPicker, 0, "address")).unwrap();
    assert_eq!(t, "RestaurantFieldPicker-0-address");
}

#[test]
fn decode_reads_pressed_button() {
    let a = decode("RestaurantMenu-7-new_dishes").unwrap();
    assert_eq!(a, action(Domain::RestaurantMenu, 7, "new_dishes"));
}

#[test]
fn round_trip_on_samples() {
    let samples = [
        action(Domain::RestaurantMenu, 0, "update"),
        action(Domain::RestaurantMenu, i64::MAX, "list_dishes"),
        action(Domain::RestaurantFieldPicker, 42, "name"),
        action(Domain::RestaurantFieldPicker, 9, ""),
        action(Domain::RestaurantMenu, 123456, "some_future_verb"),
    ];
    for a in samples.iter() {
        let t = encode(a).unwrap();
        assert_eq!(decode(&t).unwrap(), *a);
    }
}

#[test]
fn unknown_verb_passes_through() {
    let a = decode("RestaurantFieldPicker-3-colour").unwrap();
    assert_eq!(a.verb, "colour");
}

#[test]
fn decode_rejects_wrong_field_count() {
    assert_eq!(decode("RestaurantMenu-7"), Err(DecodeError::MalformedToken));
    assert_eq!(decode("RestaurantMenu-7-a-b"), Err(DecodeError::MalformedToken));
    assert_eq!(decode(""), Err(DecodeError::MalformedToken));
    assert_eq!(decode("RestaurantMenu--7-update"), Err(DecodeError::MalformedToken));
}

#[test]
fn decode_rejects_unknown_domain() {
    assert_eq!(decode("RSTBTN-7-update"), Err(DecodeError::UnknownDomain));
    assert_eq!(decode("restaurantmenu-7-update"), Err(DecodeError::UnknownDomain));
}

#[test]
fn decode_rejects_bad_subject_id() {
    assert_eq!(decode("RestaurantMenu-x7-update"), Err(DecodeError::InvalidSubjectId));
    assert_eq!(decode("RestaurantMenu--update"), Err(DecodeError::InvalidSubjectId));
    assert_eq!(
        decode("RestaurantMenu-9223372036854775808-update"),
        Err(DecodeError::InvalidSubjectId)
    );
}

#[test]
fn encode_rejects_delimiter_and_negative_id() {
    assert_eq!(encode(&action(Domain::RestaurantMenu, 1, "a-b")), Err(EncodeError::InvalidField));
    assert_eq!(encode(&action(Domain::RestaurantMenu, -1, "update")), Err(EncodeError::InvalidField));
    assert_eq!(encode(&action(Domain::RestaurantMenu, 1, "caf\u{e9}")), Err(EncodeError::InvalidField));
}

#[test]
fn encode_enforces_length_ceiling() {
    // "RestaurantMenu-1-" is 17 bytes: a 47-byte verb fills 64 exactly.
    let fits = "v".repeat(47);
    let t = encode(&action(Domain::RestaurantMenu, 1, &fits)).unwrap();
    assert_eq!(t.len(), 64);
    let long = "v".repeat(48);
    assert_eq!(encode(&action(Domain::RestaurantMenu, 1, &long)), Err(EncodeError::TokenTooLong));
}
