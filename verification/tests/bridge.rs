use phonics_bridge::{
    handle_native_event, nul_terminate, on_start_signal, parse_start_payload, start, BridgeError,
    Registry, StartDecision,
};

fn seeded_registry() -> Registry<u32> {
    let mut registry: Registry<u32> = Registry::new();
    assert!(registry.initialize(7));
    registry
}

#[test]
fn registry_starts_empty() {
    let registry: Registry<u32> = Registry::new();
    assert_eq!(*registry.current(), None);
}

#[test]
fn registry_retains_first_context() {
    let mut registry: Registry<u32> = Registry::new();
    assert!(registry.initialize(7));
    assert!(!registry.initialize(9));
    assert_eq!(*registry.current(), Some(7));
}

#[test]
fn start_round_trips_utterances() {
    let utterances = vec!["red".to_string(), "blue".to_string()];
    let buffer = start(utterances.clone()).unwrap();
    assert_eq!(*buffer.last().unwrap(), 0u8);
    assert!(buffer[..buffer.len() - 1].iter().all(|b| *b != 0));
    let decoded: Vec<String> = serde_json::from_slice(&buffer[..buffer.len() - 1]).unwrap();
    assert_eq!(decoded, utterances);
}

#[test]
fn start_succeeds_with_escaped_and_wide_characters() {
    let utterances = vec!["a\"b\\c\nd".to_string(), "h\u{e9}llo \u{2192}".to_string()];
    let buffer = start(utterances.clone()).unwrap();
    assert_eq!(*buffer.last().unwrap(), 0u8);
    assert!(buffer[..buffer.len() - 1].iter().all(|b| *b != 0));
    let decoded: Vec<String> = serde_json::from_slice(&buffer[..buffer.len() - 1]).unwrap();
    assert_eq!(decoded, utterances);
}

#[test]
fn start_empty_fails_invalid_argument() {
    assert_eq!(start(Vec::new()), Err(BridgeError::InvalidArgument));
}

#[test]
fn start_with_embedded_terminator_fails_encoding() {
    let utterances = vec!["re\0d".to_string()];
    assert_eq!(start(utterances), Err(BridgeError::EncodingError));
}

#[test]
fn start_with_terminator_only_utterance_fails_encoding() {
    let utterances = vec!["red".to_string(), "\0".to_string()];
    assert_eq!(start(utterances), Err(BridgeError::EncodingError));
}

#[test]
fn invalid_argument_message() {
    assert_eq!(
        BridgeError::InvalidArgument.message(),
        "No utterances provided for recognizer."
    );
}

#[test]
fn encoding_error_message() {
    assert_eq!(
        BridgeError::EncodingError.message(),
        "Failed to encode utterances for the recognizer."
    );
}

#[test]
fn nul_terminate_appends_terminator() {
    assert_eq!(nul_terminate(vec![1, 2, 3]), Ok(vec![1, 2, 3, 0]));
}

#[test]
fn nul_terminate_rejects_interior_terminator() {
    assert_eq!(nul_terminate(vec![1, 0, 3]), Err(BridgeError::EncodingError));
}

#[test]
fn callback_null_pointer_publishes_nothing() {
    let registry = seeded_registry();
    assert!(handle_native_event(None, &registry).is_none());
}

#[test]
fn callback_invalid_json_publishes_nothing() {
    let registry = seeded_registry();
    assert!(handle_native_event(Some(b"not json".as_slice()), &registry).is_none());
}

#[test]
fn callback_invalid_text_publishes_nothing() {
    let registry = seeded_registry();
    assert!(handle_native_event(Some([0xff, 0xfe, 0x22].as_slice()), &registry).is_none());
}

#[test]
fn callback_without_context_publishes_nothing() {
    let registry: Registry<u32> = Registry::new();
    assert!(handle_native_event(Some(b"{\"word\":\"red\"}".as_slice()), &registry).is_none());
}

#[test]
fn callback_valid_payload_published_unchanged() {
    let registry = seeded_registry();
    let published = handle_native_event(Some(b"{\"word\":\"red\"}".as_slice()), &registry).unwrap();
    let expected: serde_json::Value = serde_json::from_str("{\"word\":\"red\"}").unwrap();
    assert_eq!(published, expected);
}

#[test]
fn parse_start_payload_reads_utterances() {
    let parsed = parse_start_payload("{\"expectedUtterances\":[\"red\",\"blue\"]}").unwrap();
    assert_eq!(parsed, vec!["red".to_string(), "blue".to_string()]);
}

#[test]
fn parse_start_payload_ignores_other_fields() {
    let parsed =
        parse_start_payload("{\"expectedUtterances\":[\"red\"],\"other\":5}").unwrap();
    assert_eq!(parsed, vec!["red".to_string()]);
}

#[test]
fn parse_start_payload_rejects_wrong_shapes() {
    assert!(parse_start_payload("garbage").is_none());
    assert!(parse_start_payload("{}").is_none());
    assert!(parse_start_payload("{\"expectedUtterances\":\"red\"}").is_none());
    assert!(parse_start_payload("{\"expectedUtterances\":[\"red\",3]}").is_none());
}

#[test]
fn start_signal_scenario_runs_engine_then_bus() {
    let decision = on_start_signal("{\"expectedUtterances\":[\"red\",\"blue\"]}");
    let buffer = match decision {
        StartDecision::StartListening(buffer) => buffer,
        StartDecision::PublishError(message) => panic!("unexpected error: {message}"),
    };
    let transmitted: Vec<String> =
        serde_json::from_slice(&buffer[..buffer.len() - 1]).unwrap();
    assert_eq!(transmitted, vec!["red".to_string(), "blue".to_string()]);

    let registry = seeded_registry();
    let published = handle_native_event(Some(b"{\"word\":\"red\"}".as_slice()), &registry).unwrap();
    let expected: serde_json::Value = serde_json::from_str("{\"word\":\"red\"}").unwrap();
    assert_eq!(published, expected);
}

#[test]
fn start_signal_scenario_empty_list_reports_error() {
    let decision = on_start_signal("{\"expectedUtterances\":[]}");
    match decision {
        StartDecision::StartListening(_) => panic!("engine must not be invoked"),
        StartDecision::PublishError(message) => {
            assert_eq!(message, "No utterances provided for recognizer.");
        }
    }
}

#[test]
fn start_signal_invalid_payload_reports_error() {
    let decision = on_start_signal("garbage");
    match decision {
        StartDecision::StartListening(_) => panic!("engine must not be invoked"),
        StartDecision::PublishError(message) => {
            assert_eq!(message, "Invalid speech payload");
        }
    }
}
