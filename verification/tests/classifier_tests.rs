use ximea_camera::classifier::{
    decode_trigger_fields, parse_message, strip_topic, DecodeError, EstimateProbe, FieldProbe,
    MessageType,
};
use ximea_camera::frame::KalmanEstimateRow;

#[test]
fn empty_and_whitespace_are_empty() {
    assert!(matches!(parse_message(""), MessageType::Empty));
    assert!(matches!(parse_message("   \t\r\n"), MessageType::Empty));
    // All of Unicode's whitespace counts as blank, as str::trim sees it.
    assert!(matches!(parse_message("\u{A0}\u{2003}\u{3000}"), MessageType::Empty));
    assert!("\u{A0}\u{2003}\u{3000}".trim().is_empty());
    assert!(!matches!(parse_message(" x "), MessageType::Empty));
}

#[test]
fn bare_control_word_is_plain_text() {
    match parse_message("kill") {
        MessageType::Text(t) => assert_eq!(t, "kill"),
        other => panic!("expected Text, got {:?}", other),
    }
}

#[test]
fn broken_syntax_is_plain_text() {
    match parse_message("{oops") {
        MessageType::Text(t) => assert_eq!(t, "{oops"),
        other => panic!("expected Text, got {:?}", other),
    }
}

#[test]
fn full_trigger_payload_decodes() {
    let raw = r#"{"obj_id": 3, "frame": 77, "timestamp": 1.25, "x": 0.5, "y": -1.0, "z": 2,
                  "xvel": 0.0, "yvel": 0.1, "zvel": -0.1,
                  "P00": 1, "P01": 0, "P02": 0, "P11": 1, "P12": 0, "P22": 1,
                  "P33": 1, "P44": 1, "P55": 1}"#;
    match parse_message(raw) {
        MessageType::JsonData(row) => {
            assert_eq!(row, KalmanEstimateRow { obj_id: 3, frame: 77 });
        },
        other => panic!("expected JsonData, got {:?}", other),
    }
}

#[test]
fn missing_fields_default_to_zero() {
    match parse_message("{}") {
        MessageType::JsonData(row) => {
            assert_eq!(row, KalmanEstimateRow { obj_id: 0, frame: 0 });
        },
        other => panic!("expected JsonData, got {:?}", other),
    }
}

#[test]
fn unknown_fields_do_not_error() {
    match parse_message(r#"{"obj_id": 1, "someday": "maybe"}"#) {
        MessageType::JsonData(row) => {
            assert_eq!(row, KalmanEstimateRow { obj_id: 1, frame: 0 });
        },
        other => panic!("expected JsonData, got {:?}", other),
    }
}

#[test]
fn non_object_json_is_invalid() {
    match parse_message("[1, 2, 3]") {
        MessageType::InvalidJson(raw, e) => {
            assert_eq!(raw, "[1, 2, 3]");
            assert_eq!(e, DecodeError::NotObject);
        },
        other => panic!("expected InvalidJson, got {:?}", other),
    }
    assert!(matches!(
        parse_message("5"),
        MessageType::InvalidJson(_, DecodeError::NotObject)
    ));
    assert!(matches!(
        parse_message("\"kill\""),
        MessageType::InvalidJson(_, DecodeError::NotObject)
    ));
}

#[test]
fn wrong_obj_id_is_invalid() {
    assert!(matches!(
        parse_message(r#"{"obj_id": "abc"}"#),
        MessageType::InvalidJson(_, DecodeError::BadObjId)
    ));
    assert!(matches!(
        parse_message(r#"{"obj_id": -1}"#),
        MessageType::InvalidJson(_, DecodeError::BadObjId)
    ));
    assert!(matches!(
        parse_message(r#"{"obj_id": 4294967296}"#),
        MessageType::InvalidJson(_, DecodeError::BadObjId)
    ));
    // The largest value that still fits.
    match parse_message(r#"{"obj_id": 4294967295}"#) {
        MessageType::JsonData(row) => assert_eq!(row.obj_id, u32::MAX),
        other => panic!("expected JsonData, got {:?}", other),
    }
}

#[test]
fn wrong_frame_is_invalid() {
    assert!(matches!(
        parse_message(r#"{"frame": 1.5}"#),
        MessageType::InvalidJson(_, DecodeError::BadFrame)
    ));
}

#[test]
fn non_numeric_estimate_is_invalid() {
    assert!(matches!(
        parse_message(r#"{"timestamp": "yesterday"}"#),
        MessageType::InvalidJson(_, DecodeError::BadEstimateField(0))
    ));
    assert!(matches!(
        parse_message(r#"{"x": []}"#),
        MessageType::InvalidJson(_, DecodeError::BadEstimateField(1))
    ));
}

#[test]
fn decode_fields_exact_outcomes() {
    let no_estimates: Vec<EstimateProbe> = Vec::new();
    assert_eq!(
        decode_trigger_fields(false, FieldProbe::Missing, FieldProbe::Missing, &no_estimates),
        Err(DecodeError::NotObject)
    );
    assert_eq!(
        decode_trigger_fields(true, FieldProbe::Uint(7), FieldProbe::Uint(9), &no_estimates),
        Ok(KalmanEstimateRow { obj_id: 7, frame: 9 })
    );
    assert_eq!(
        decode_trigger_fields(
            true,
            FieldProbe::Uint(u32::MAX as u64 + 1),
            FieldProbe::Missing,
            &no_estimates
        ),
        Err(DecodeError::BadObjId)
    );
    assert_eq!(
        decode_trigger_fields(true, FieldProbe::Missing, FieldProbe::WrongType, &no_estimates),
        Err(DecodeError::BadFrame)
    );
    let estimates = vec![
        EstimateProbe::Numeric,
        EstimateProbe::Absent,
        EstimateProbe::NotNumeric,
        EstimateProbe::NotNumeric,
    ];
    assert_eq!(
        decode_trigger_fields(true, FieldProbe::Missing, FieldProbe::Missing, &estimates),
        Err(DecodeError::BadEstimateField(2))
    );
}

#[test]
fn topic_prefix_is_stripped() {
    assert_eq!(strip_topic("trigger {\"obj_id\":1}"), "{\"obj_id\":1}");
    assert_eq!(strip_topic("nospacehere"), "nospacehere");
    assert_eq!(strip_topic("a b c"), "b c");
    assert_eq!(strip_topic(""), "");
}
