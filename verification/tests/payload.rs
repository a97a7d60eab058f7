use tip_settlement::payload::{parse_routing, routing_from_members, PayloadError};

#[test]
fn payload_with_receiver_and_burner_is_read() {
    let routing = parse_routing(r#"{"receiver": "alice.testnet", "burner": "burn.testnet"}"#).unwrap();
    assert_eq!(routing.receiver, "alice.testnet");
    assert_eq!(routing.burner, "burn.testnet");
}

#[test]
fn members_beside_the_two_are_ignored() {
    let routing =
        parse_routing(r#"{"memo": 7, "burner": "b.near", "receiver": "r.near", "x": [1, 2]}"#)
            .unwrap();
    assert_eq!(routing.receiver, "r.near");
    assert_eq!(routing.burner, "b.near");
}

#[test]
fn escapes_in_members_are_resolved() {
    let routing = parse_routing(r#"{"receiver": "abc", "burner": "x\"y"}"#).unwrap();
    assert_eq!(routing.receiver, "abc");
    assert_eq!(routing.burner, "x\"y");
}

#[test]
fn malformed_payload_missing_receiver_is_refused() {
    assert_eq!(parse_routing(r#"{"burner": "burn.testnet"}"#).err(), Some(PayloadError::MissingReceiver));
    assert_eq!(parse_routing("{}").err(), Some(PayloadError::MissingReceiver));
}

#[test]
fn receiver_that_is_no_string_is_refused() {
    assert_eq!(
        parse_routing(r#"{"receiver": 5, "burner": "burn.testnet"}"#).err(),
        Some(PayloadError::MissingReceiver)
    );
    assert_eq!(
        parse_routing(r#"{"receiver": null, "burner": "burn.testnet"}"#).err(),
        Some(PayloadError::MissingReceiver)
    );
}

#[test]
fn payload_that_is_no_object_has_no_receiver() {
    assert_eq!(parse_routing("[1, 2]").err(), Some(PayloadError::MissingReceiver));
    assert_eq!(parse_routing("\"receiver\"").err(), Some(PayloadError::MissingReceiver));
    assert_eq!(parse_routing("null").err(), Some(PayloadError::MissingReceiver));
}

#[test]
fn payload_missing_burner_is_refused() {
    assert_eq!(
        parse_routing(r#"{"receiver": "alice.testnet"}"#).err(),
        Some(PayloadError::MissingBurner)
    );
    assert_eq!(
        parse_routing(r#"{"receiver": "alice.testnet", "burner": false}"#).err(),
        Some(PayloadError::MissingBurner)
    );
}

#[test]
fn text_that_is_no_json_is_refused() {
    assert_eq!(parse_routing("").err(), Some(PayloadError::Unparsed));
    assert_eq!(parse_routing("receiver=alice").err(), Some(PayloadError::Unparsed));
    assert_eq!(parse_routing(r#"{"receiver": "alice.testnet""#).err(), Some(PayloadError::Unparsed));
    assert_eq!(
        parse_routing(r#"{"receiver": "a", "burner": "b"} trailing"#).err(),
        Some(PayloadError::Unparsed)
    );
}

#[test]
fn routing_needs_both_members() {
    let both = routing_from_members(Some("r".to_string()), Some("b".to_string())).unwrap();
    assert_eq!(both.receiver, "r");
    assert_eq!(both.burner, "b");
    assert_eq!(
        routing_from_members(None, Some("b".to_string())).err(),
        Some(PayloadError::MissingReceiver)
    );
    assert_eq!(routing_from_members(None, None).err(), Some(PayloadError::MissingReceiver));
    assert_eq!(
        routing_from_members(Some("r".to_string()), None).err(),
        Some(PayloadError::MissingBurner)
    );
}
