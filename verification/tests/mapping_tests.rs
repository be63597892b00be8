use hl7_send_receive::location::Location;
use hl7_send_receive::mapping::{
    apply_maps, apply_maps_text, MapError, ValueMap, ValueMapFrom, ValueMapTo,
};
use hl7_send_receive::output::OutputMode;

fn explicit(segment: &str, field: usize, value: &str) -> ValueMap {
    ValueMap {
        from: ValueMapFrom(Location::new_field_repeat(segment, field, 1).unwrap()),
        to: ValueMapTo::Explicit(value.to_string()),
    }
}

#[test]
fn can_map() {
    let input = "MSH|^~\\&|AccMgr|1|||20050110045504||ADT^A01|599102|P|2.3|||\rPID|1|2|3|4|5|6|7|8|9|10|11|12|13|14|15|16\r";
    let maps = vec![explicit("MSH", 10, "XXX"), explicit("MSH", 7, "123")];
    let out = apply_maps_text(input, &maps).unwrap();
    assert_eq!(
        out,
        "MSH|^~\\&|AccMgr|1|||123||ADT^A01|XXX|P|2.3|||\rPID|1|2|3|4|5|6|7|8|9|10|11|12|13|14|15|16\r"
    );
}

#[test]
fn absent_segment_is_skipped() {
    let input = "MSH|^~\\&|AccMgr|1|||20050110045504||ADT^A01|599102|P|2.3\rPID|1";
    let maps = vec![explicit("OBX", 3, "nope")];
    let out = apply_maps_text(input, &maps).unwrap();
    assert_eq!(out, input);
}

#[test]
fn mapping_unparseable_input_fails() {
    let maps = vec![explicit("MSH", 10, "X")];
    assert!(matches!(apply_maps_text("junk", &maps), Err(MapError::Parse(_))));
}

#[test]
fn substitution_that_breaks_the_message_fails() {
    let input = "MSH|^~\\&|AccMgr|1|||20050110045504||ADT^A01|599102|P|2.3\rPID|1";
    let whole_header_segment = Location {
        segment: "MSH".to_string(),
        field: None,
        repeat: None,
        component: None,
        sub_component: None,
    };
    let maps = vec![ValueMap {
        from: ValueMapFrom(whole_header_segment),
        to: ValueMapTo::Explicit("x".to_string()),
    }];
    assert!(matches!(apply_maps_text(input, &maps), Err(MapError::Reparse(_))));
}

#[test]
fn non_ascii_message_is_rejected_for_mapping() {
    let input = "MSH|^~\\&|Aéc|1|||20050110045504||ADT^A01|599102|P|2.3\rPID|1";
    let maps = vec![explicit("MSH", 10, "X")];
    assert!(matches!(apply_maps_text(input, &maps), Err(MapError::NotAscii)));
}

#[test]
fn apply_maps_keeps_parsed_message_in_step() {
    let input = "MSH|^~\\&|AccMgr|1|||20050110045504||ADT^A01|599102|P|2.3\rPID|1";
    let message = hl7_parser::ParsedMessageOwned::parse(input, false).unwrap();
    let maps = vec![explicit("MSH", 10, "ABC")];
    let mapped = apply_maps(message, &maps).unwrap();
    assert_eq!(
        mapped.source,
        "MSH|^~\\&|AccMgr|1|||20050110045504||ADT^A01|ABC|P|2.3\rPID|1"
    );
}

#[test]
fn auto_value_for_control_id_is_fresh() {
    let loc = Location::new_field_repeat("MSH", 10, 1).unwrap();
    let value = ValueMapTo::Auto.reify(&loc);
    assert_eq!(value.len(), 20);
    assert!(value.chars().all(|c| c.is_ascii_alphanumeric()));
    let other = ValueMapTo::Auto.reify(&loc);
    assert_ne!(value, other);
}

#[test]
fn auto_value_for_message_time_is_timestamp() {
    let loc = Location::new_field_repeat("MSH", 7, 1).unwrap();
    let value = ValueMapTo::Auto.reify(&loc);
    assert_eq!(value.len(), 14);
    assert!(value.chars().all(|c| c.is_ascii_digit()));
}

#[test]
fn auto_value_elsewhere_is_short() {
    let loc = Location::new_field_repeat("PID", 3, 1).unwrap();
    let value = ValueMapTo::Auto.reify(&loc);
    assert_eq!(value.len(), 8);
    assert!(value.chars().all(|c| c.is_ascii_alphanumeric()));
}

#[test]
fn now_value_is_timestamp() {
    let loc = Location::new_field_repeat("PID", 3, 1).unwrap();
    let value = ValueMapTo::Now.reify(&loc);
    assert_eq!(value.len(), 14);
    assert!(value.chars().all(|c| c.is_ascii_digit()));
}

#[test]
fn value_map_parses_location_and_value() {
    let vm = ValueMap::from_str("MSH.10=<auto>").unwrap();
    assert_eq!(vm.from.0.segment, "MSH");
    assert_eq!(vm.from.0.field, Some(10));
    assert_eq!(vm.from.0.repeat, Some(1));
    assert_eq!(vm.from.0.component, None);
    assert!(matches!(vm.to, ValueMapTo::Auto));
    assert!(matches!(ValueMap::from_str("MSH.7=<now>").unwrap().to, ValueMapTo::Now));
    match ValueMap::from_str("MSH.10=1234").unwrap().to {
        ValueMapTo::Explicit(v) => assert_eq!(v, "1234"),
        _ => panic!("explicit value expected"),
    }
}

#[test]
fn value_map_without_separator_is_rejected() {
    match ValueMap::from_str("MSH.10") {
        Err(e) => assert_eq!(e, "missing to"),
        Ok(_) => panic!("missing separator must be rejected"),
    }
    assert!(ValueMap::from_str("???=x").is_err());
}

#[test]
fn location_indices_must_be_positive() {
    assert!(Location::new_field_repeat("MSH", 0, 1).is_none());
    assert!(Location::new_field_repeat("MSH", 10, 0).is_none());
    assert!(Location::new_field_repeat("MSH", 10, 1).is_some());
}

#[test]
fn output_modes_parse_case_insensitively() {
    assert_eq!(OutputMode::from_str("hl7").unwrap(), OutputMode::HL7);
    assert_eq!(OutputMode::from_str("HL7").unwrap(), OutputMode::HL7);
    assert_eq!(OutputMode::from_str("Json").unwrap(), OutputMode::Json);
    assert_eq!(OutputMode::from_str("TABLE").unwrap(), OutputMode::Table);
    match OutputMode::from_str("bogus") {
        Err(e) => assert_eq!(e, "invalid output mode: bogus"),
        Ok(_) => panic!("bogus mode must be rejected"),
    }
    assert_eq!(OutputMode::default(), OutputMode::HL7);
    assert_eq!(OutputMode::Json.label(), "json");
}
