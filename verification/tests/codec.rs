use agenter_runner::codec::{
    frame_text, native_ref_for_decoded_frame, native_ref_for_frame, CodexCodec, CodexDecodedFrame,
    CODEX_APP_SERVER_PROTOCOL,
};
use agenter_runner::id_map::CodexIdMap;
use agenter_runner::json::JsonValue;
use agenter_runner::model::SessionId;

#[allow(dead_code)]
fn conv(v: &serde_json::Value) -> JsonValue {
    match v {
        serde_json::Value::Null => JsonValue::Null,
        serde_json::Value::Bool(b) => JsonValue::Bool(*b),
        serde_json::Value::Number(n) => {
            if let Some(i) = n.as_i64() {
                JsonValue::Int(i)
            } else if let Some(u) = n.as_u64() {
                JsonValue::UInt(u)
            } else {
                JsonValue::Float(n.to_string())
            }
        }
        serde_json::Value::String(s) => JsonValue::Str(s.clone()),
        serde_json::Value::Array(a) => JsonValue::Array(a.iter().map(conv).collect()),
        serde_json::Value::Object(o) => {
            JsonValue::Object(o.iter().map(|(k, v)| (k.clone(), conv(v))).collect())
        }
    }
}

#[allow(dead_code)]
fn back(v: &JsonValue) -> serde_json::Value {
    match v {
        JsonValue::Null => serde_json::Value::Null,
        JsonValue::Bool(b) => serde_json::Value::Bool(*b),
        JsonValue::Int(i) => serde_json::Value::from(*i),
        JsonValue::UInt(u) => serde_json::Value::from(*u),
        JsonValue::Float(t) => serde_json::from_str(t).unwrap(),
        JsonValue::Str(s) => serde_json::Value::String(s.clone()),
        JsonValue::Array(a) => serde_json::Value::Array(a.iter().map(back).collect()),
        JsonValue::Object(o) => {
            serde_json::Value::Object(o.iter().map(|(k, v)| (k.clone(), back(v))).collect())
        }
    }
}

#[allow(dead_code)]
fn j(text: &str) -> JsonValue {
    conv(&serde_json::from_str::<serde_json::Value>(text).unwrap())
}

#[allow(dead_code)]
fn sj(text: &str) -> serde_json::Value {
    serde_json::from_str(text).unwrap()
}

/// Reads one line the way the runner does: the frame text parsed as JSON, then
/// classified by the codec.
fn decode_line(codec: &mut CodexCodec, line: &str) -> CodexDecodedFrame {
    let text = frame_text(line);
    match serde_json::from_str::<serde_json::Value>(&text) {
        Ok(v) => codec.decode_parsed(line, Ok(conv(&v))),
        Err(e) => codec.decode_parsed(line, Err(e.to_string())),
    }
}

#[test]
fn codex_codec_correlates_client_response_with_pending_request_method_and_raw_payload() {
    let mut codec = CodexCodec::new();
    let (request_id, request) = codec.encode_request("model/list", j(r#"{"onlyAvailable": false}"#));

    assert_eq!(back(&request)["method"], "model/list");

    let mut response = serde_json::Map::new();
    response.insert("id".to_owned(), back(&request_id.to_json()));
    response.insert("result".to_owned(), sj(r#"{"models": []}"#));
    let line = serde_json::Value::Object(response).to_string();
    let frame = decode_line(&mut codec, &line);

    let CodexDecodedFrame::ClientResponse(response) = &frame else {
        panic!("expected client response frame");
    };
    assert_eq!(response.method.as_deref(), Some("model/list"));
    assert_eq!(back(&response.raw_payload)["result"]["models"], sj("[]"));
    assert_eq!(response.decoded.as_ref().map(|decoded| decoded.method.as_str()), Some("model/list"));

    let native = native_ref_for_decoded_frame(&frame);
    assert_eq!(native.protocol, CODEX_APP_SERVER_PROTOCOL);
    assert_eq!(native.method.as_deref(), Some("model/list"));
    assert_eq!(native.kind.as_deref(), Some("client_response"));
    assert_eq!(native.native_id.as_deref(), Some("1"));
    assert_eq!(native.raw_payload.as_ref(), Some(&response.raw_payload));
}

#[test]
fn codex_codec_decodes_server_request_and_preserves_native_id() {
    let mut codec = CodexCodec::new();
    let line = sj(r#"{
        "id": "approval-1",
        "method": "item/tool/call",
        "params": {
            "threadId": "thread-1",
            "turnId": "turn-1",
            "itemId": "item-1",
            "toolName": "client_tool",
            "arguments": {}
        }
    }"#)
    .to_string();

    let frame = decode_line(&mut codec, &line);
    let CodexDecodedFrame::ServerRequest(request) = &frame else {
        panic!("expected server request frame");
    };

    assert_eq!(request.method, "item/tool/call");
    assert_eq!(request.request_id.to_text(), "approval-1");
    assert!(request.decoded.is_some());
    assert_eq!(back(&request.raw_payload)["params"]["itemId"], "item-1");
    assert_eq!(native_ref_for_frame(&frame).native_id.as_deref(), Some("approval-1"));
}

#[test]
fn codex_codec_decodes_notification_without_request_id() {
    let mut codec = CodexCodec::new();
    let line = sj(r#"{"method": "serverRequest/resolved", "params": {"requestId": 7}}"#).to_string();

    let frame = decode_line(&mut codec, &line);
    let CodexDecodedFrame::ServerNotification(notification) = &frame else {
        panic!("expected server notification frame");
    };

    assert_eq!(notification.method, "serverRequest/resolved");
    assert!(notification.decoded.is_some());
    let native = native_ref_for_frame(&frame);
    assert_eq!(native.method.as_deref(), Some("serverRequest/resolved"));
    assert_eq!(native.kind.as_deref(), Some("server_notification"));
    assert_eq!(native.native_id, None);
    assert_eq!(native.raw_payload.as_ref(), Some(&notification.raw_payload));
}

#[test]
fn codex_codec_keeps_undecoded_native_frame_raw_payload() {
    let mut codec = CodexCodec::new();
    let line = sj(r#"{"id": 42, "method": "codex/new-native-method", "params": {"shape": "future"}}"#).to_string();

    let frame = decode_line(&mut codec, &line);
    let CodexDecodedFrame::ServerRequest(request) = &frame else {
        panic!("expected undecoded server request frame");
    };

    assert_eq!(request.method, "codex/new-native-method");
    assert!(request.decoded.is_none());
    assert_eq!(back(&request.raw_payload)["params"]["shape"], "future");
    assert_eq!(native_ref_for_frame(&frame).raw_payload.as_ref(), Some(&request.raw_payload));
}

#[test]
fn codex_codec_reports_malformed_json_without_panicking() {
    let mut codec = CodexCodec::new();
    let frame = decode_line(&mut codec, "{ not json\n");

    let CodexDecodedFrame::Malformed(malformed) = frame else {
        panic!("expected malformed frame");
    };
    assert!(!malformed.error.is_empty());
    assert_eq!(malformed.line, "{ not json\n");

    let frame = CodexDecodedFrame::Malformed(malformed);
    let native = native_ref_for_decoded_frame(&frame);
    assert_eq!(native.kind.as_deref(), Some("malformed"));
    assert_eq!(back(&native.raw_payload.unwrap())["line"], "{ not json\n");
}

#[test]
fn codex_id_map_reuses_ids_and_is_stable_for_repeated_imports() {
    let session_id = SessionId(0x0123_4567_89ab_cdef_0123_4567_89ab_cdef);
    let mut first = CodexIdMap::for_session(session_id);
    let mut second = CodexIdMap::for_session(session_id);

    let first_turn = first.turn_id("thread-a", "turn-1");
    assert_eq!(first.turn_id("thread-a", "turn-1"), first_turn);
    assert_eq!(second.turn_id("thread-a", "turn-1"), first_turn);
    assert_ne!(first.turn_id("thread-b", "turn-1"), first_turn);

    let first_item = first.item_id("thread-a", "item-1");
    assert_eq!(first.item_id("thread-a", "item-1"), first_item);
    assert_eq!(second.item_id("thread-a", "item-1"), first_item);
    assert_ne!(first.item_id("thread-a", "item-2"), first_item);
}
