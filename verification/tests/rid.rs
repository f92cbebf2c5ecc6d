use arcadedb_rs::{RecordID, RecordIDError};

#[test]
fn should_deserialize_valid_rid() {
    let rid_str = "#1:10";
    let rid = RecordID::new(1, 10);
    assert_eq!(rid_str, rid.encode());
    assert_eq!(Ok(rid), RecordID::decode(rid_str));
}

#[test]
fn should_deserialize_null_rid() {
    let rid_str = "#-1:-1";
    let rid = RecordID::new(-1, -1);
    assert_eq!(rid_str, rid.encode());
    assert_eq!(Ok(rid), RecordID::decode(rid_str));
}

#[test]
fn should_fail_to_deserialize_rid_with_missing_pound() {
    assert_decode_error(
        "1:10",
        "Invalid RecordID, expected format #<bucket-identifier>:<record-position>",
    );
}

#[test]
fn should_fail_to_deserialize_rid_with_invalid_rid() {
    assert_decode_error("#hello:32", "invalid digit found in string");
    assert_decode_error("#32:hello", "invalid digit found in string");
    assert_decode_error(
        "#1:",
        "Invalid RecordID, expected format #<bucket-identifier>:<record-position>",
    );
    assert_decode_error(
        "#1",
        "Invalid RecordID, expected format #<bucket-identifier>:<record-position>",
    );
}

#[test]
fn should_deserialize_json_with_rid() {
    let json: serde_json::Value = serde_json::from_str("{ \"id\" : \"#10:10\" }").unwrap();
    let id_text = json.get("id").unwrap().as_str().unwrap();

    assert_eq!(Ok(RecordID::new(10, 10)), RecordID::decode(id_text));
}

fn assert_decode_error(rid: &str, error: &str) {
    let err = RecordID::decode(rid).unwrap_err();
    assert_eq!(error, err.message(), "decoding {:?}", rid);
}

#[test]
fn round_trip_holds_at_the_extremes() {
    let cases = [
        (0i32, 0i64),
        (1, 1),
        (-1, -1),
        (i32::MAX, i64::MAX),
        (i32::MIN, i64::MIN),
        (42, -7),
        (-2048, 1_000_000_000_000),
    ];
    for (bucket, position) in cases {
        let id = RecordID::new(bucket, position);
        assert_eq!(Ok(id), RecordID::decode(&id.encode()));
    }
}

#[test]
fn encode_is_canonical_text() {
    assert_eq!("#0:0", RecordID::new(0, 0).encode());
    assert_eq!(
        "#-2147483648:-9223372036854775808",
        RecordID::new(i32::MIN, i64::MIN).encode()
    );
    assert_eq!(
        "#2147483647:9223372036854775807",
        RecordID::new(i32::MAX, i64::MAX).encode()
    );
}

#[test]
fn decode_accepts_explicit_signs_and_leading_zeros() {
    assert_eq!(Ok(RecordID::new(5, 7)), RecordID::decode("#+5:+7"));
    assert_eq!(Ok(RecordID::new(1, 10)), RecordID::decode("#01:010"));
    assert_eq!(Ok(RecordID::new(0, 0)), RecordID::decode("#-0:+0"));
}

#[test]
fn decode_rejects_malformed_shapes() {
    for text in [
        "", "#", "##", "1:10", ":1:10", "#1", "#1:", "#:10", "#1:2:3", "#1:2:", "##1:2",
        "#1#2", "#1:2#3",
    ] {
        assert_eq!(
            Err(RecordIDError::InvalidFormat),
            RecordID::decode(text),
            "decoding {:?}",
            text
        );
    }
}

#[test]
fn decode_rejects_non_numeric_halves() {
    for text in ["#a:1", "#1:a", "#+:1", "#1:-", "#1.5:2", "# 1:2", "#1: 2"] {
        assert_eq!(
            Err(RecordIDError::InvalidDigit),
            RecordID::decode(text),
            "decoding {:?}",
            text
        );
    }
}

#[test]
fn decode_rejects_out_of_range_halves() {
    assert_eq!(Err(RecordIDError::TooLarge), RecordID::decode("#2147483648:0"));
    assert_eq!(Err(RecordIDError::TooSmall), RecordID::decode("#-2147483649:0"));
    assert_eq!(
        Err(RecordIDError::TooLarge),
        RecordID::decode("#0:9223372036854775808")
    );
    assert_eq!(
        Err(RecordIDError::TooSmall),
        RecordID::decode("#0:-9223372036854775809")
    );
    assert_eq!(
        Err(RecordIDError::TooLarge),
        RecordID::decode("#99999999999999999999999999:0")
    );
    assert_eq!(
        "number too large to fit in target type",
        RecordID::decode("#2147483648:0").unwrap_err().message()
    );
    assert_eq!(
        "number too small to fit in target type",
        RecordID::decode("#-2147483649:0").unwrap_err().message()
    );
}

#[test]
fn in_range_halves_decode_even_at_the_bounds() {
    assert_eq!(Ok(RecordID::new(i32::MAX, 0)), RecordID::decode("#2147483647:0"));
    assert_eq!(Ok(RecordID::new(i32::MIN, 0)), RecordID::decode("#-2147483648:0"));
    assert_eq!(
        Ok(RecordID::new(0, i64::MAX)),
        RecordID::decode("#0:9223372036854775807")
    );
    assert_eq!(
        Ok(RecordID::new(0, i64::MIN)),
        RecordID::decode("#0:-9223372036854775808")
    );
}
