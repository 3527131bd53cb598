use fs_commands::loader::{decode_response, Action, LoadError, Payload, StoreResponse};
use fs_commands::session::State;

fn session(store: Option<&str>) -> State {
    State {
        name: None,
        child_id: Some("child".to_string()),
        store_id: store.map(|s| s.to_string()),
        base_path: ".".to_string(),
        permissions: vec![],
    }
}

fn store_error(result: Result<Vec<u8>, LoadError>) -> String {
    match result {
        Err(LoadError::StoreError(text)) => text,
        Err(LoadError::NotConfigured) => panic!("not configured"),
        Ok(_) => panic!("no error"),
    }
}

#[test]
fn load_without_a_store_is_not_configured() {
    let result = session(None).load_message("abc");
    assert!(matches!(result, Err(LoadError::NotConfigured)));
    assert_eq!(LoadError::NotConfigured.message(), "Store ID not set");
}

#[test]
fn load_asks_the_bound_store_for_the_entry() {
    let call = session(Some("store-1")).load_message("entry-7").unwrap();
    assert_eq!(call.store_id, "store-1");
    assert_eq!(call.request._type, "request");
    let Action::Get(id) = call.request.data;
    assert_eq!(id, "entry-7");
}

#[test]
fn later_envelope_shape_is_opened() {
    let response = br#"{"status":"ok","data":{"Get":{"value":[123,34,97,34,58,49,125]}}}"#;
    assert_eq!(decode_response(response).unwrap(), b"{\"a\":1}".to_vec());
}

#[test]
fn earlier_envelope_shape_is_opened() {
    let response = br#"{"status":"ok","value":[104,105]}"#;
    assert_eq!(decode_response(response).unwrap(), b"hi".to_vec());
}

#[test]
fn later_shape_is_preferred_where_both_are_there() {
    let response = br#"{"status":"ok","value":[1],"data":{"Get":{"value":[2]}}}"#;
    assert_eq!(decode_response(response).unwrap(), vec![2u8]);
}

#[test]
fn status_error_is_a_store_error() {
    let response = br#"{"status":"error","data":{"Get":{"value":[1,2,3]}}}"#;
    assert_eq!(store_error(decode_response(response)), "Failed to load message from store");
}

#[test]
fn missing_status_or_payload_is_a_store_error() {
    let cases: [&[u8]; 5] = [
        br#"{"data":{"Get":{"value":[1]}}}"#,
        br#"{"status":"ok"}"#,
        br#"{"status":"ok","data":{"Get":{}}}"#,
        br#"{"status":"ok","data":{"Put":{"value":[1]}}}"#,
        br#"{"status":7,"value":[1]}"#,
    ];
    for response in cases {
        assert_eq!(store_error(decode_response(response)), "Failed to load message from store");
    }
}

#[test]
fn payload_that_is_no_array_is_a_store_error() {
    let response = br#"{"status":"ok","data":{"Get":{"value":"aGk="}}}"#;
    assert_eq!(store_error(decode_response(response)), "Expected byte array");
    let direct = br#"{"status":"ok","value":{"0":1}}"#;
    assert_eq!(store_error(decode_response(direct)), "Expected byte array");
}

#[test]
fn answer_that_is_no_json_is_a_store_error() {
    let text = store_error(decode_response(b"<html>busy</html>"));
    assert!(!text.is_empty());
    assert!(matches!(decode_response(b""), Err(LoadError::StoreError(_))));
    assert!(matches!(decode_response(b"{\"status\":\"ok\"} trailing"), Err(LoadError::StoreError(_))));
}

#[test]
fn array_with_an_item_that_is_no_byte_value_is_a_store_error() {
    let cases: [&[u8]; 8] = [
        br#"{"status":"ok","value":[256]}"#,
        br#"{"status":"ok","value":[72,300,105]}"#,
        br#"{"status":"ok","value":[-1]}"#,
        br#"{"status":"ok","value":[1.5]}"#,
        br#"{"status":"ok","value":["7"]}"#,
        br#"{"status":"ok","value":[104,null]}"#,
        br#"{"status":"ok","value":[[104]]}"#,
        br#"{"status":"ok","data":{"Get":{"value":[379,290,353]}}}"#,
    ];
    for response in cases {
        assert_eq!(store_error(decode_response(response)), "Expected byte array");
    }
}

#[test]
fn every_byte_value_is_taken_as_it_is() {
    let response = br#"{"status":"ok","value":[0,1,127,128,254,255,65]}"#;
    assert_eq!(decode_response(response).unwrap(), vec![0, 1, 127, 128, 254, 255, 65]);
}

#[test]
fn empty_payload_is_empty() {
    assert_eq!(decode_response(br#"{"status":"ok","value":[]}"#).unwrap(), Vec::<u8>::new());
}

#[test]
fn response_read_by_hand_gives_the_same_answers() {
    let ok = StoreResponse {
        status: Some("ok".to_string()),
        nested: Some(Payload::Items(vec![Some(72), Some(0), Some(255)])),
        direct: Some(Payload::Other),
    };
    assert_eq!(ok.payload().unwrap(), vec![72, 0, 255]);
    for item in [None, Some(256), Some(513), Some(u64::MAX)] {
        let mixed = StoreResponse {
            status: Some("ok".to_string()),
            nested: Some(Payload::Items(vec![Some(72), item, Some(1)])),
            direct: Some(Payload::Items(vec![Some(1)])),
        };
        assert_eq!(store_error(mixed.payload()), "Expected byte array");
    }
    let fallback = StoreResponse {
        status: Some("ok".to_string()),
        nested: None,
        direct: Some(Payload::Items(vec![Some(1)])),
    };
    assert_eq!(fallback.payload().unwrap(), vec![1]);
    let other = StoreResponse {
        status: Some("ok".to_string()),
        nested: Some(Payload::Other),
        direct: Some(Payload::Items(vec![Some(1)])),
    };
    assert_eq!(store_error(other.payload()), "Expected byte array");
    let failed = StoreResponse {
        status: Some("OK".to_string()),
        nested: Some(Payload::Items(vec![Some(1)])),
        direct: None,
    };
    assert_eq!(store_error(failed.payload()), "Failed to load message from store");
    let silent = StoreResponse { status: None, nested: None, direct: None };
    assert_eq!(store_error(silent.payload()), "Failed to load message from store");
}

#[test]
fn store_error_message_is_its_text() {
    assert_eq!(LoadError::StoreError("connection reset".to_string()).message(), "connection reset");
}
