use hl7_send_receive::ack::{compose_ack, compose_ack_with, generate_ack, AckError, AckMode, AckRequest};

const INBOUND: &str =
    "MSH|^~\\&|AccMgr|1|SendApp|SendFac|20050110045504||ADT^A01|599102|P|2.3\rPID|1";

fn parse(text: &str) -> hl7_parser::ParsedMessageOwned {
    hl7_parser::ParsedMessageOwned::parse(text, false).expect("test message parses")
}

#[test]
fn composes_exact_basic_ack() {
    let m = parse(INBOUND);
    let ack = compose_ack_with(&m, true, "CTRLID9012345678901X", "20240101120000").unwrap();
    assert_eq!(
        ack,
        "MSH|^~\\&|SendApp|SendFac|AccMgr|1|20240101120000||ACK^A01^ACK|CTRLID9012345678901X|P|2.3\rMSA|AA|599102|Message accepted"
    );
}

#[test]
fn basic_success_ack_code_is_aa() {
    let m = parse(INBOUND);
    let ack = compose_ack_with(&m, true, "id", "ts").unwrap();
    let segments: Vec<&str> = ack.split('\r').collect();
    assert_eq!(segments.len(), 2);
    let msa: Vec<&str> = segments[1].split('|').collect();
    assert_eq!(msa[1], "AA");
}

#[test]
fn error_ack_carries_rejection() {
    let m = parse(INBOUND);
    let ack = compose_ack_with(&m, false, "id", "ts").unwrap();
    let segments: Vec<&str> = ack.split('\r').collect();
    assert_eq!(segments[1], "MSA|AE|599102|Message rejected");
}

#[test]
fn enhanced_mode_from_accept_ack_field() {
    let text =
        "MSH|^~\\&|AccMgr|1|||20050110045504||ADT^A01|599102|P|2.3|||AL\rPID|1";
    let m = parse(text);
    let ack = compose_ack_with(&m, true, "id", "ts").unwrap();
    let segments: Vec<&str> = ack.split('\r').collect();
    let msa: Vec<&str> = segments[1].split('|').collect();
    assert_eq!(msa[1], "CA");
    let ack_err = compose_ack_with(&m, false, "id", "ts").unwrap();
    let segments_err: Vec<&str> = ack_err.split('\r').collect();
    let msa_err: Vec<&str> = segments_err[1].split('|').collect();
    assert_eq!(msa_err[1], "CE");
}

#[test]
fn enhanced_mode_from_application_ack_field() {
    let text =
        "MSH|^~\\&|AccMgr|1|||20050110045504||ADT^A01|599102|P|2.3||||NE\rPID|1";
    let m = parse(text);
    let ack = compose_ack_with(&m, true, "id", "ts").unwrap();
    let segments: Vec<&str> = ack.split('\r').collect();
    let msa: Vec<&str> = segments[1].split('|').collect();
    assert_eq!(msa[1], "CA");
}

#[test]
fn ack_message_type_holds_trigger() {
    let m = parse(INBOUND);
    let ack = compose_ack_with(&m, true, "id", "ts").unwrap();
    let segments: Vec<&str> = ack.split('\r').collect();
    let msh: Vec<&str> = segments[0].split('|').collect();
    assert_eq!(msh[8], "ACK^A01^ACK");
}

#[test]
fn ack_swaps_sender_and_receiver() {
    let m = parse(INBOUND);
    let ack = compose_ack_with(&m, true, "id", "ts").unwrap();
    let segments: Vec<&str> = ack.split('\r').collect();
    let msh: Vec<&str> = segments[0].split('|').collect();
    assert_eq!(msh[2], "SendApp");
    assert_eq!(msh[3], "SendFac");
    assert_eq!(msh[4], "AccMgr");
    assert_eq!(msh[5], "1");
}

#[test]
fn invalid_ack_request_is_protocol_error() {
    let text =
        "MSH|^~\\&|AccMgr|1|||20050110045504||ADT^A01|599102|P|2.3|||XX\rPID|1";
    let m = parse(text);
    assert!(matches!(compose_ack_with(&m, true, "id", "ts"), Err(AckError::Protocol)));
}

#[test]
fn compose_ack_generates_fresh_control_id() {
    let m = parse(INBOUND);
    let ack = compose_ack(&m, true).unwrap();
    let segments: Vec<&str> = ack.split('\r').collect();
    let msh: Vec<&str> = segments[0].split('|').collect();
    let id = msh[9];
    assert_eq!(id.len(), 20);
    assert!(id.chars().all(|c| c.is_ascii_alphanumeric()));
    let ts = msh[6];
    assert_eq!(ts.len(), 14);
    assert!(ts.chars().all(|c| c.is_ascii_digit()));
    let ack2 = compose_ack(&m, true).unwrap();
    let segments2: Vec<&str> = ack2.split('\r').collect();
    let msh2: Vec<&str> = segments2[0].split('|').collect();
    assert_ne!(id, msh2[9]);
}

#[test]
fn generate_ack_refuses_ignore_mode() {
    assert!(matches!(generate_ack(INBOUND, AckMode::Ignore), Err(AckError::Ignore)));
}

#[test]
fn generate_ack_rejects_unparseable_input() {
    assert!(matches!(generate_ack("Hello world", AckMode::Success), Err(AckError::Parse(_))));
}

#[test]
fn generate_ack_returns_parsed_message() {
    let (ack, parsed) = generate_ack(INBOUND, AckMode::Success).unwrap();
    assert!(ack.starts_with("MSH|^~\\&|SendApp|SendFac|AccMgr|1|"));
    assert_eq!(parsed.source, INBOUND);
}

#[test]
fn ack_request_codes_parse() {
    assert!(matches!(AckRequest::from_str(""), Ok(None)));
    assert!(matches!(AckRequest::from_str("AL"), Ok(Some(AckRequest::Always))));
    assert!(matches!(AckRequest::from_str("NE"), Ok(Some(AckRequest::Never))));
    assert!(matches!(AckRequest::from_str("SU"), Ok(Some(AckRequest::Success))));
    assert!(matches!(AckRequest::from_str("ER"), Ok(Some(AckRequest::Error))));
    assert!(matches!(AckRequest::from_str("al"), Err(AckError::Protocol)));
    assert!(matches!(AckRequest::from_str("ALX"), Err(AckError::Protocol)));
}

#[test]
fn ack_mode_labels() {
    assert_eq!(AckMode::Ignore.label(), "ignore");
    assert_eq!(AckMode::Success.label(), "success");
    assert_eq!(AckMode::Error.label(), "error");
    assert_eq!(AckMode::default(), AckMode::Success);
}
