use clialogs::json::{json_string, push_escaped};
use clialogs::response::{Response, ResponseBody, ResponseType};

#[test]
fn cancel_has_no_entries() {
    let response = Response::cancel();
    assert_eq!(response.response_type(), ResponseType::Cancelled);
    assert!(response.body().is_empty());
    assert_eq!(response.encode(), "{\"type\":\"cancel\",\"body\":[]}");
}

#[test]
fn ok_without_entries() {
    let response = Response::ok(Vec::new());
    assert_eq!(response.response_type(), ResponseType::Confirmed);
    assert_eq!(response.encode(), "{\"type\":\"ok\",\"body\":[]}");
}

#[test]
fn ok_writes_entries_in_order() {
    let body = vec![
        ResponseBody { id: "name".to_string(), value: "Ada".to_string() },
        ResponseBody { id: "age".to_string(), value: "36".to_string() },
        ResponseBody { id: "name".to_string(), value: "again".to_string() },
    ];
    let response = Response::ok(body);
    assert_eq!(response.body().len(), 3);
    assert_eq!(response.body()[1].id, "age");
    assert_eq!(
        response.encode(),
        "{\"type\":\"ok\",\"body\":[{\"id\":\"name\",\"value\":\"Ada\"},{\"id\":\"age\",\"value\":\"36\"},{\"id\":\"name\",\"value\":\"again\"}]}"
    );
}

#[test]
fn entry_is_written_as_json_strings() {
    let entry = ResponseBody { id: "quote".to_string(), value: "say \"hi\"\n\\ \u{1}".to_string() };
    assert_eq!(
        entry.encode(),
        "{\"id\":\"quote\",\"value\":\"say \\\"hi\\\"\\n\\\\ \\u0001\"}"
    );
}

#[test]
fn entry_keeps_text_beyond_ascii() {
    let entry = ResponseBody { id: "città".to_string(), value: "Zürich".to_string() };
    assert_eq!(entry.encode(), "{\"id\":\"città\",\"value\":\"Zürich\"}");
}

#[test]
fn empty_strings_are_written_as_empty_literals() {
    let entry = ResponseBody { id: String::new(), value: String::new() };
    assert_eq!(entry.encode(), "{\"id\":\"\",\"value\":\"\"}");
}

#[test]
fn every_character_is_written_as_serde_json_writes_it() {
    for code in 0..=0x10FFFFu32 {
        if let Some(c) = char::from_u32(code) {
            let text = format!("a{}b", c);
            assert_eq!(json_string(&text), serde_json::to_string(&text).unwrap(), "{:#x}", code);
            let alone = c.to_string();
            assert_eq!(json_string(&alone), serde_json::to_string(&alone).unwrap(), "{:#x}", code);
        }
    }
    assert_eq!(json_string(""), "\"\"");
    assert_eq!(json_string("\u{1f}\u{10}\u{a}"), "\"\\u001f\\u0010\\n\"");
}

#[test]
fn characters_are_escaped_one_by_one() {
    let mut written = String::from(">");
    for c in ['a', '"', '\\', '\u{8}', '\t', '\n', '\u{c}', '\r', '\u{0}', '\u{1b}', ' ', 'é'] {
        push_escaped(&mut written, c);
    }
    assert_eq!(written, ">a\\\"\\\\\\b\\t\\n\\f\\r\\u0000\\u001b é");
}

#[test]
fn control_characters_are_escaped() {
    let entry = ResponseBody {
        id: "\u{0}\u{1}\u{7}\u{8}\t\n\u{b}\u{c}\r\u{e}\u{1f}".to_string(),
        value: " \u{7f}\u{80}/'".to_string(),
    };
    assert_eq!(
        entry.encode(),
        "{\"id\":\"\\u0000\\u0001\\u0007\\b\\t\\n\\u000b\\f\\r\\u000e\\u001f\",\"value\":\" \u{7f}\u{80}/'\"}"
    );
}

#[test]
fn written_response_is_read_back_by_a_json_reader() {
    let body = vec![
        ResponseBody { id: "na\"me".to_string(), value: "A\\d\na\u{1}".to_string() },
        ResponseBody { id: "città".to_string(), value: String::new() },
    ];
    let line = Response::ok(body).encode();
    assert!(!line.contains('\n'));
    let read: serde_json::Value = serde_json::from_str(&line).unwrap();
    assert_eq!(read["type"], "ok");
    assert_eq!(read["body"][0]["id"], "na\"me");
    assert_eq!(read["body"][0]["value"], "A\\d\na\u{1}");
    assert_eq!(read["body"][1]["id"], "città");
    assert_eq!(read["body"][1]["value"], "");
    assert_eq!(read["body"].as_array().unwrap().len(), 2);
}
