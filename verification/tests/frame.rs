use ollie_rs::frame::{event_data, is_whitespace, payload, read_document, read_frame, Parsed};
use ollie_rs::{FrameReader, Framing, Pulled};
use serde_json::Value;

fn json(text: &str) -> Value {
    serde_json::from_str(text).unwrap()
}

#[test]
fn a_line_is_one_document() {
    assert_eq!(
        read_frame(Framing::JsonLines, br#"{"response":"The ","done":false}"#),
        Some(json(r#"{"response": "The ", "done": false}"#))
    );
    assert_eq!(read_frame(Framing::JsonLines, b"  [1, 2]\n"), Some(json("[1, 2]")));
}

#[test]
fn a_line_that_is_no_document_gives_no_frame() {
    assert_eq!(read_frame(Framing::JsonLines, b""), None);
    assert_eq!(read_frame(Framing::JsonLines, br#"{"response":"#), None);
    assert_eq!(read_frame(Framing::JsonLines, b"{} {}"), None);
    assert_eq!(read_frame(Framing::JsonLines, b"data: {}"), None);
}

#[test]
fn a_line_is_read_with_replacement_characters() {
    assert_eq!(
        read_frame(Framing::JsonLines, b"\"a\xFFb\""),
        Some(Value::String("a\u{FFFD}b".to_string()))
    );
    assert_eq!(payload(Framing::JsonLines, b"\xC3\xA9"), Some("é".to_string()));
    assert_eq!(payload(Framing::JsonLines, b"\xC3"), Some("\u{FFFD}".to_string()));
}

#[test]
fn an_event_carries_its_document_behind_the_marker() {
    assert_eq!(
        read_frame(Framing::ServerSentEvents, b"data: {\"candidates\": []}\r\n\r\n"),
        Some(json(r#"{"candidates": []}"#))
    );
    assert_eq!(read_frame(Framing::ServerSentEvents, b"event: x\ndata:7"), Some(json("7")));
    assert_eq!(
        payload(Framing::ServerSentEvents, b"id: 1\ndata: \t {\"a\": 1} \n\n"),
        Some("{\"a\": 1}".to_string())
    );
}

#[test]
fn an_event_without_the_marker_gives_no_frame() {
    assert_eq!(read_frame(Framing::ServerSentEvents, b"{\"candidates\": []}"), None);
    assert_eq!(read_frame(Framing::ServerSentEvents, b""), None);
    assert_eq!(read_frame(Framing::ServerSentEvents, b"dat: {}"), None);
    assert_eq!(read_frame(Framing::ServerSentEvents, b"Data: {}"), None);
    assert_eq!(payload(Framing::ServerSentEvents, b": keep-alive\n\n"), None);
}

#[test]
fn an_event_that_carries_no_document_gives_no_frame() {
    assert_eq!(read_frame(Framing::ServerSentEvents, b"data: {\"a\":"), None);
    assert_eq!(read_frame(Framing::ServerSentEvents, b"data:"), None);
    assert_eq!(read_frame(Framing::ServerSentEvents, b"data: {}\n\ndata: {}"), None);
    assert_eq!(read_frame(Framing::ServerSentEvents, b"data: \xFF{}"), None);
    assert_eq!(payload(Framing::ServerSentEvents, b"data: \xFF{}"), None);
}

#[test]
fn the_data_of_an_event_is_trimmed() {
    assert_eq!(event_data("data:  x y \n"), Some("x y".to_string()));
    assert_eq!(event_data("data:"), Some(String::new()));
    assert_eq!(event_data("data: \u{A0}\u{3000} \t"), Some(String::new()));
    assert_eq!(event_data("data:\u{2003}é\u{85}"), Some("é".to_string()));
    assert_eq!(event_data("xdata:data:1"), Some("data:1".to_string()));
    assert_eq!(event_data("no marker"), None);
    assert_eq!(event_data(""), None);
}

#[test]
fn white_space_is_what_unicode_says() {
    for code in 0u32..0x3100 {
        if let Some(c) = char::from_u32(code) {
            assert_eq!(is_whitespace(c), c.is_whitespace(), "U+{:04X}", code);
        }
    }
    assert!(!is_whitespace('\u{200B}'));
    assert!(!is_whitespace('\u{FEFF}'));
}

#[test]
fn the_end_of_the_body_ends_the_stream() {
    let mut lines = FrameReader::new(Framing::JsonLines);
    let mut events = FrameReader::new(Framing::ServerSentEvents);
    assert!(matches!(lines.next(None), Pulled::EndOfStream));
    assert!(matches!(events.next(None), Pulled::EndOfStream));
    assert!(matches!(lines.next(Some(b"")), Pulled::NoFrame));
    assert!(matches!(events.next(Some(b"{}")), Pulled::NoFrame));
    match events.next(Some(b"data: true")) {
        Pulled::Frame(doc) => assert_eq!(doc, Value::Bool(true)),
        other => panic!("no frame: {:?}", other),
    }
    match lines.next(Some(b"{\"done\": true}")) {
        Pulled::Frame(doc) => assert_eq!(doc, json(r#"{"done": true}"#)),
        other => panic!("no frame: {:?}", other),
    }
}

#[test]
fn an_empty_body_gives_no_frame_at_all() {
    let body: Vec<&[u8]> = Vec::new();
    let mut reader = FrameReader::new(Framing::ServerSentEvents);
    let mut frames = 0;
    let mut chunks = body.into_iter();
    loop {
        match reader.next(chunks.next()) {
            Pulled::Frame(_) => frames += 1,
            Pulled::NoFrame => {}
            Pulled::EndOfStream => break,
        }
    }
    assert_eq!(frames, 0);
}

#[test]
fn a_text_is_a_document_or_the_beginning_of_one_or_neither() {
    assert!(matches!(read_document("{\"a\": [1, 2]}"), Parsed::Document(doc)
        if doc == json(r#"{"a": [1, 2]}"#)));
    assert!(matches!(read_document(" null "), Parsed::Document(Value::Null)));
    for cut in ["", " ", "{", "{\"a\"", "{\"a\":", "[1,", "\"abc", "tru", "[{\"a\": \"b"] {
        assert!(matches!(read_document(cut), Parsed::Incomplete), "{:?}", cut);
    }
    for bad in ["}", "{]", "{\"a\" 1}", "[1 2]", "nul!", "{} {}", "data: {}", "'a'", "[1,]"] {
        assert!(matches!(read_document(bad), Parsed::Invalid), "{:?}", bad);
    }
}

#[test]
fn a_reader_joins_a_document_that_was_cut() {
    let mut reader = FrameReader::new(Framing::JsonLines);
    assert_eq!(reader.framing(), Framing::JsonLines);
    assert!(reader.pending().is_empty());
    assert_eq!(reader.pull(br#"{"response":"The "#), None);
    assert_eq!(reader.pending(), br#"{"response":"The "#);
    assert_eq!(reader.pull(br#"sky","done":"#), None);
    assert_eq!(reader.pending(), br#"{"response":"The sky","done":"#);
    assert_eq!(reader.pull(b"false}\n"), Some(json(r#"{"response": "The sky", "done": false}"#)));
    assert!(reader.pending().is_empty());
    assert_eq!(reader.pull(b"{}"), Some(json("{}")));
    assert!(reader.pending().is_empty());
}

#[test]
fn a_reader_joins_before_it_reads_a_chunk_by_itself() {
    let mut reader = FrameReader::new(Framing::JsonLines);
    assert_eq!(reader.pull(br#"{"n": 1"#), None);
    assert_eq!(reader.pull(b"2}"), Some(json(r#"{"n": 12}"#)));
    assert_eq!(reader.pull(br#"["a", "#), None);
    assert_eq!(reader.pull(b"5"), None);
    assert_eq!(reader.pending(), br#"["a", 5"#);
    assert_eq!(reader.pull(b"]"), Some(json(r#"["a", 5]"#)));
    assert_eq!(reader.pull(b"7"), Some(json("7")));
}

#[test]
fn a_reader_holds_only_the_beginning_of_a_document() {
    let mut reader = FrameReader::new(Framing::JsonLines);
    assert_eq!(reader.pull(b"garbage "), None);
    assert!(reader.pending().is_empty());
    assert_eq!(reader.pull(b"{} {}"), None);
    assert!(reader.pending().is_empty());
    assert_eq!(reader.pull(b""), None);
    assert!(reader.pending().is_empty());
    assert_eq!(reader.pull(b"  "), None);
    assert_eq!(reader.pending(), b"  ");
    assert_eq!(reader.pull(br#"{"ok": true}"#), Some(json(r#"{"ok": true}"#)));
    assert!(reader.pending().is_empty());
}

#[test]
fn a_reader_drops_what_it_held_when_it_cannot_go_on() {
    let mut reader = FrameReader::new(Framing::JsonLines);
    assert_eq!(reader.pull(br#"{"a": "#), None);
    assert_eq!(reader.pending(), br#"{"a": "#);
    assert_eq!(reader.pull(b"}garbage"), None);
    assert!(reader.pending().is_empty());

    assert_eq!(reader.pull(br#"{"a": "#), None);
    assert_eq!(reader.pull(br#"] {"b": "#), None);
    assert!(reader.pending().is_empty());

    assert_eq!(reader.pull(br#"{"a": 1 "#), None);
    assert_eq!(reader.pull(br#"{"b": 2}"#), Some(json(r#"{"b": 2}"#)));
    assert!(reader.pending().is_empty());

    assert_eq!(reader.pull(br#"{"a": 1 "#), None);
    assert_eq!(reader.pull(br#"{"c": "#), None);
    assert_eq!(reader.pending(), br#"{"c": "#);
    assert_eq!(reader.pull(b"3}"), Some(json(r#"{"c": 3}"#)));
}

#[test]
fn a_reader_joins_a_character_that_was_cut() {
    let mut reader = FrameReader::new(Framing::JsonLines);
    assert_eq!(reader.pull(b"\"caf\xC3"), None);
    assert_eq!(reader.pull(b"\xA9\""), Some(Value::String("café".to_string())));
}

#[test]
fn a_reader_of_events_holds_nothing_back() {
    let mut reader = FrameReader::new(Framing::ServerSentEvents);
    assert_eq!(reader.pull(b"data: {\"a\":"), None);
    assert!(reader.pending().is_empty());
    assert_eq!(reader.pull(b"1}"), None);
    assert_eq!(reader.pull(b"no marker"), None);
    assert_eq!(reader.pull(b"data: [1]"), Some(json("[1]")));
    assert!(reader.pending().is_empty());
    assert!(matches!(reader.next(None), Pulled::EndOfStream));
    assert!(matches!(reader.next(Some(b"x")), Pulled::NoFrame));
    assert!(matches!(reader.next(Some(b"data:0")), Pulled::Frame(_)));
}

#[test]
fn a_reader_tells_the_end_of_the_body() {
    let mut reader = FrameReader::new(Framing::JsonLines);
    assert!(matches!(reader.next(Some(b"[1,")), Pulled::NoFrame));
    assert!(matches!(reader.next(None), Pulled::EndOfStream));
    assert_eq!(reader.pending(), b"[1,");
    match reader.next(Some(b"2]")) {
        Pulled::Frame(doc) => assert_eq!(doc, json("[1, 2]")),
        other => panic!("no frame: {:?}", other),
    }
}
