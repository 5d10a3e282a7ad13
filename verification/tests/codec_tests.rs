use namefix_bridge::codec::{blank, classify, decode_line, encode_request, white_space, InboundMessage};
use namefix_bridge::events::BridgeEvent;
use serde_json::Value;

fn json(text: &str) -> Value {
    serde_json::from_str(text).unwrap()
}

#[test]
fn empty_line_is_blank() {
    assert_eq!(decode_line(""), InboundMessage::Blank);
}

#[test]
fn white_space_line_is_blank() {
    assert_eq!(decode_line("  \t \r"), InboundMessage::Blank);
    assert_eq!(decode_line("\u{a0}\u{2003}\u{3000}"), InboundMessage::Blank);
}

#[test]
fn blank_agrees_with_trim() {
    for line in ["", " ", "\t\n", "\u{85}", "\u{1680}\u{2028}\u{2029}\u{202f}\u{205f}", " x ", "{}", "\u{200b}"] {
        assert_eq!(blank(line), line.trim().is_empty(), "line {:?}", line);
    }
}

#[test]
fn white_space_agrees_with_std_on_every_char() {
    let mut code: u32 = 0;
    while code <= 0x10ffff {
        if let Some(c) = char::from_u32(code) {
            assert_eq!(white_space(c), c.is_whitespace(), "U+{:04X}", code);
        }
        code += 1;
    }
}

#[test]
fn event_with_payload() {
    let message = decode_line(r#"{"event":"status","payload":{"running":true}}"#);
    assert_eq!(
        message,
        InboundMessage::Event(BridgeEvent {
            name: "status".to_string(),
            payload: json(r#"{"running":true}"#),
        })
    );
}

#[test]
fn event_without_payload_has_null() {
    let message = decode_line(r#"{"event":"tick"}"#);
    assert_eq!(
        message,
        InboundMessage::Event(BridgeEvent { name: "tick".to_string(), payload: Value::Null })
    );
}

#[test]
fn event_wins_over_id() {
    let message = decode_line(r#"{"id":4,"event":"file","payload":[1,2]}"#);
    assert_eq!(
        message,
        InboundMessage::Event(BridgeEvent { name: "file".to_string(), payload: json("[1,2]") })
    );
}

#[test]
fn event_that_is_no_string_falls_back_to_id() {
    let message = decode_line(r#"{"id":4,"event":7,"result":true}"#);
    assert_eq!(message, InboundMessage::Response { id: 4, outcome: Ok(Value::Bool(true)) });
}

#[test]
fn response_with_result() {
    let message = decode_line(r#"{"id":1,"result":{"ok":true}}"#);
    assert_eq!(message, InboundMessage::Response { id: 1, outcome: Ok(json(r#"{"ok":true}"#)) });
}

#[test]
fn response_without_result_is_null() {
    let message = decode_line(r#"{"id":9}"#);
    assert_eq!(message, InboundMessage::Response { id: 9, outcome: Ok(Value::Null) });
}

#[test]
fn response_with_error_text() {
    let message = decode_line(r#"{"id":2,"error":"disk full"}"#);
    assert_eq!(message, InboundMessage::Response { id: 2, outcome: Err("disk full".to_string()) });
}

#[test]
fn error_wins_over_result() {
    let message = decode_line(r#"{"id":2,"error":"no","result":1}"#);
    assert_eq!(message, InboundMessage::Response { id: 2, outcome: Err("no".to_string()) });
}

#[test]
fn error_that_is_no_string_degrades() {
    for line in [r#"{"id":3,"error":{"code":5}}"#, r#"{"id":3,"error":null}"#, r#"{"id":3,"error":17}"#] {
        assert_eq!(
            decode_line(line),
            InboundMessage::Response { id: 3, outcome: Err("unknown bridge error".to_string()) }
        );
    }
}

#[test]
fn largest_id_is_taken() {
    let message = decode_line(r#"{"id":18446744073709551615,"result":0}"#);
    assert_eq!(message, InboundMessage::Response { id: u64::MAX, outcome: Ok(json("0")) });
}

#[test]
fn ids_that_are_no_unsigned_integer_are_not_recognized() {
    for line in [
        r#"{"id":-1,"result":0}"#,
        r#"{"id":1.5,"result":0}"#,
        r#"{"id":1.0,"result":0}"#,
        r#"{"id":"1","result":0}"#,
        r#"{"id":null}"#,
        r#"{"id":18446744073709551616}"#,
    ] {
        assert_eq!(decode_line(line), InboundMessage::Unrecognized, "line {}", line);
    }
}

#[test]
fn documents_that_are_no_message_are_not_recognized() {
    for line in ["{}", "[]", "null", "17", r#""text""#, r#"[{"id":1}]"#, r#"{"result":1}"#] {
        assert_eq!(decode_line(line), InboundMessage::Unrecognized, "line {}", line);
    }
}

#[test]
fn line_that_is_no_json_is_unparsable() {
    let line = "{not json";
    let expected = serde_json::from_str::<Value>(line).unwrap_err().to_string();
    assert_eq!(
        decode_line(line),
        InboundMessage::Unparsable { raw: line.to_string(), reason: expected }
    );
}

#[test]
fn trailing_text_is_unparsable() {
    match decode_line(r#"{"id":1} {"id":2}"#) {
        InboundMessage::Unparsable { raw, reason } => {
            assert_eq!(raw, r#"{"id":1} {"id":2}"#);
            assert!(reason.starts_with("trailing characters"));
        },
        other => panic!("unexpected {:?}", other),
    }
}

#[test]
fn white_space_around_a_document_is_accepted() {
    let message = decode_line("  {\"id\": 5, \"result\": [ ]}\r");
    assert_eq!(message, InboundMessage::Response { id: 5, outcome: Ok(json("[]")) });
}

#[test]
fn classify_reads_a_value() {
    let doc = json(r#"{"id":7,"result":"done"}"#);
    assert_eq!(
        classify(&doc),
        InboundMessage::Response { id: 7, outcome: Ok(Value::String("done".to_string())) }
    );
    assert_eq!(doc, json(r#"{"id":7,"result":"done"}"#));
}

#[test]
fn request_line_with_null_params() {
    assert_eq!(
        encode_request(1, "getStatus", Value::Null),
        "{\"id\":1,\"method\":\"getStatus\",\"params\":null}\n"
    );
}

#[test]
fn request_line_with_object_params() {
    assert_eq!(
        encode_request(42, "setDryRun", json(r#"{"enabled":false}"#)),
        "{\"id\":42,\"method\":\"setDryRun\",\"params\":{\"enabled\":false}}\n"
    );
}

#[test]
fn request_line_has_one_line_feed_at_its_end() {
    let line = encode_request(3, "add\nWatch", json("{\"directory\":\"a\\nb\\r\\n\"}"));
    assert!(line.ends_with('\n'));
    assert_eq!(line.matches('\n').count(), 1);
    let back: Value = serde_json::from_str(line.trim_end()).unwrap();
    assert_eq!(back["method"], Value::String("add\nWatch".to_string()));
    assert_eq!(back["params"]["directory"], Value::String("a\nb\r\n".to_string()));
    assert_eq!(back["id"], json("3"));
}

#[test]
fn request_line_is_read_back_by_the_decoder_as_a_reply_shape() {
    let line = encode_request(u64::MAX, "undo", Value::Null);
    assert_eq!(
        decode_line(&line),
        InboundMessage::Response { id: u64::MAX, outcome: Ok(Value::Null) }
    );
}

#[test]
fn members_are_written_in_the_order_of_their_keys() {
    let params = namefix_bridge::events::toast_payload("m", "l");
    assert_eq!(
        encode_request(7, "notify", params),
        "{\"id\":7,\"method\":\"notify\",\"params\":{\"level\":\"l\",\"message\":\"m\"}}\n"
    );
}
