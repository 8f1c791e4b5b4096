use feed_viewer::buffer::EventBuffer;
use feed_viewer::event::{Event, Message};
use feed_viewer::query::{is_supported_path, MAX_PATH_LEN};
use feed_viewer::render::{
    evaluate, render_document, render_event, render_events, render_fallback, render_matches,
    render_selection, render_text, render_value,
};
use feed_viewer::text::{format_byte, format_bytes, join};
use jsonpath_lib::JsonPathError;
use serde_json::Value;

fn text(payload: &str) -> Event {
    Event::Message(Message::Text(payload.to_string()))
}

fn document(payload: &str) -> Value {
    serde_json::from_str(payload).unwrap()
}

#[test]
fn field_filter_renders_each_event_in_order() {
    let mut buffer = EventBuffer::new();
    buffer.push(text("{\"a\":1}"));
    buffer.push(text("{\"a\":2}"));
    buffer.push(text("{\"a\":3}"));
    assert_eq!(render_events(&buffer, "$.a"), vec!["1", "2", "3"]);
}

#[test]
fn missing_field_renders_empty_line() {
    assert_eq!(render_text("{\"a\":1}", "$.missing"), "");
    assert_eq!(render_document(&document("{\"a\":1}"), "$.missing"), "");
}

#[test]
fn root_filter_renders_whole_document() {
    for payload in ["{\"a\":1}", "[1,2,3]", "\"x\"", "null", "{\"b\":{\"c\":[true,1.5]},\"a\":\"z\"}"] {
        assert_eq!(render_text(payload, "$"), payload);
        let value = document(payload);
        assert_eq!(render_document(&value, "$"), render_value(&value));
    }
}

#[test]
fn root_filter_drops_source_whitespace() {
    assert_eq!(render_text(" { \"a\" : [ 1 , 2 ] } ", "$"), "{\"a\":[1,2]}");
}

#[test]
fn several_matches_are_joined_with_comma_and_space() {
    assert_eq!(render_text("{\"a\":1,\"b\":\"x\",\"c\":[2]}", "$.*"), "1, \"x\", [2]");
    assert_eq!(render_text("{\"a\":[10,20,30]}", "$.a[*]"), "10, 20, 30");
    assert_eq!(render_text("{\"a\":[10,20,30]}", "$.a[1]"), "20");
    assert_eq!(render_text("{\"a\":{\"b\":{\"a\":7}}}", "$..a"), "{\"b\":{\"a\":7}}, 7");
}

#[test]
fn render_matches_joins_compact_texts() {
    assert_eq!(render_matches(&Vec::new()), "");
    assert_eq!(render_matches(&vec![Value::from(1)]), "1");
    let matches = vec![Value::from(1), Value::from("a b"), Value::Null, Value::from(true)];
    assert_eq!(render_matches(&matches), "1, \"a b\", null, true");
}

#[test]
fn render_value_writes_compact_json() {
    assert_eq!(render_value(&document("{ \"k\" : [ 1, { \"z\" : null } ] }")), "{\"k\":[1,{\"z\":null}]}");
    assert_eq!(render_value(&Value::from("q\"uote")), "\"q\\\"uote\"");
}

#[test]
fn render_selection_shows_matches_or_error() {
    assert_eq!(render_selection(&Ok(vec![Value::from(1), Value::from(2)])), "1, 2");
    assert_eq!(render_selection(&Err(JsonPathError::EmptyPath)), "path not set");
    assert_eq!(render_selection(&Err(JsonPathError::EmptyValue)), "json value not set");
    assert_eq!(
        render_selection(&Err(JsonPathError::Path("here".to_string()))),
        "path error: \nhere\n"
    );
}

#[test]
fn rendering_twice_gives_the_same_lines() {
    let mut buffer = EventBuffer::new();
    buffer.push(Event::Opened);
    buffer.push(text("{\"a\":[1,2]}"));
    buffer.push(text("not json"));
    buffer.push(Event::Message(Message::Binary(vec![1, 2])));
    for filter in ["$", "$.a", "$.a[*]", "$.a[0:1]", "oops", "$[?(@.a)]", "$[::0]"] {
        let first = render_events(&buffer, filter);
        let second = render_events(&buffer, filter);
        assert_eq!(first, second);
        assert_eq!(first.len(), 4);
        assert_eq!(buffer.len(), 4);
    }
}

#[test]
fn malformed_filter_gives_error_line_for_text_events_only() {
    let mut buffer = EventBuffer::new();
    buffer.push(Event::Opened);
    buffer.push(text("{\"a\":1}"));
    buffer.push(Event::Closed);
    buffer.push(text("{\"a\":2}"));
    let good = render_events(&buffer, "$.a");
    let bad = render_events(&buffer, "a.b");
    assert_eq!(good, vec!["non_msg Opened", "1", "non_msg Closed", "2"]);
    assert_eq!(bad.len(), 4);
    assert_eq!(bad[0], "non_msg Opened");
    assert_eq!(bad[2], "non_msg Closed");
    assert!(!bad[1].is_empty());
    assert!(bad[1].starts_with("path error"));
    assert_eq!(bad[1], bad[3]);
    assert_eq!(render_events(&buffer, "$.a"), good);
}

#[test]
fn empty_filter_gives_error_line() {
    let line = render_text("{\"a\":1}", "");
    assert!(line.starts_with("path error"));
}

#[test]
fn invalid_payload_gives_error_line_for_that_event_only() {
    let mut buffer = EventBuffer::new();
    buffer.push(text("{\"a\":1}"));
    buffer.push(text("{\"a\":"));
    buffer.push(text("{\"a\":3}"));
    let lines = render_events(&buffer, "$.a");
    assert_eq!(lines.len(), 3);
    assert_eq!(lines[0], "1");
    assert!(lines[1].starts_with("invalid JSON: "));
    assert!(lines[1].len() > "invalid JSON: ".len());
    assert_eq!(lines[2], "3");
    assert_eq!(buffer.len(), 3);
    assert_eq!(buffer.get(1), Some(&text("{\"a\":")));
}

#[test]
fn invalid_payload_line_carries_the_decoder_message() {
    let error = serde_json::from_str::<Value>("nope").unwrap_err();
    assert_eq!(render_text("nope", "$"), format!("invalid JSON: {}", error));
}

#[test]
fn filter_predicates_and_zero_steps_are_not_evaluated() {
    assert!(is_supported_path("$"));
    assert!(is_supported_path("$.a.b[0]['k']"));
    assert!(is_supported_path(""));
    assert!(is_supported_path("$.a[0:2]"));
    assert!(is_supported_path("$.a[::2]"));
    assert!(is_supported_path("$.a[-2:]"));
    assert!(is_supported_path("$.a[1:3:1]"));
    assert!(!is_supported_path("$.a[?(@.b > 1)]"));
    assert!(!is_supported_path("$[::0]"));
    assert!(!is_supported_path("$[0:2:0]"));
    assert!(!is_supported_path("$[0:2:+0]"));
    assert!(!is_supported_path("$[0: 2]"));
    assert!(!is_supported_path("$[1:0]"));
    assert!(!is_supported_path("$.a:"));
    assert_eq!(render_text("{\"a\":[1,2]}", "$.a[::0]"), "unsupported filter expression");
    assert_eq!(render_text("{\"a\":[1,2]}", "$.a[0:2:0]"), "unsupported filter expression");
    assert_eq!(render_text("[{\"b\":2}]", "$[?(@.b > 1)]"), "unsupported filter expression");
    assert_eq!(render_document(&document("[1]"), "$[0:1:00]"), "unsupported filter expression");
}

#[test]
fn slices_with_a_step_other_than_zero_are_evaluated() {
    let payload = "{\"a\":[10,20,30,40]}";
    assert_eq!(render_text(payload, "$.a[0:2]"), "10, 20");
    assert_eq!(render_text(payload, "$.a[1:]"), "20, 30, 40");
    assert_eq!(render_text(payload, "$.a[:2]"), "10, 20");
    assert_eq!(render_text(payload, "$.a[-2:]"), "30, 40");
    assert_eq!(render_text(payload, "$.a[::2]"), "10, 30");
    assert_eq!(render_text(payload, "$.a[1:4:2]"), "20, 40");
    assert_eq!(render_text(payload, "$.a[2:1]"), "");
}

#[test]
fn refused_filter_renders_the_engine_error() {
    let payload = "{\"a\":[1,2]}";
    let value = document(payload);
    for filter in ["", "a", "a:b", "?", "$.a[?(", "$.a[", "$[1:x]", "$.a[0:2:-1]", "$$", ".a", "$.a[?(@.b >"] {
        let mut engine = jsonpath_lib::selector(&value);
        let expected = engine(filter).unwrap_err().to_string();
        assert!(expected.starts_with("path error"));
        assert_eq!(render_text(payload, filter), expected);
        assert_eq!(render_document(&value, filter), expected);
        let outcome = evaluate(&value, filter).unwrap();
        assert_eq!(outcome.unwrap_err().to_string(), expected);
    }
}

#[test]
fn overlong_filter_is_not_evaluated() {
    assert_eq!(MAX_PATH_LEN, 1024);
    let mut longest = String::from("$");
    while longest.chars().count() < 1024 {
        longest.push_str(".a");
    }
    longest.truncate(1024);
    assert!(is_supported_path(&longest));
    let too_long = format!("{}a", longest);
    assert!(!is_supported_path(&too_long));
    assert_eq!(render_text("{}", &too_long), "unsupported filter expression");
    let wide: String = std::iter::repeat('\u{e9}').take(1024).collect();
    assert!(is_supported_path(&wide));
}

#[test]
fn invalid_payload_wins_over_unsupported_filter() {
    assert!(render_text("nope", "$[?(@.a)]").starts_with("invalid JSON: "));
}

#[test]
fn events_without_text_are_shown_as_they_are() {
    assert_eq!(render_fallback(&Event::Opened), "non_msg Opened");
    assert_eq!(render_fallback(&Event::Closed), "non_msg Closed");
    assert_eq!(render_fallback(&Event::Error("bo\"om".to_string())), "non_msg Error(\"bo\\\"om\")");
    assert_eq!(
        render_fallback(&Event::Message(Message::Binary(vec![0, 7, 42, 100, 255]))),
        "non_text Binary([0, 7, 42, 100, 255])"
    );
    assert_eq!(render_fallback(&Event::Message(Message::Binary(vec![]))), "non_text Binary([])");
    assert_eq!(
        render_fallback(&Event::Message(Message::Unknown("a\nb".to_string()))),
        "non_text Unknown(\"a\\nb\")"
    );
    assert_eq!(render_fallback(&Event::Message(Message::Ping(vec![9]))), "non_text Ping([9])");
    assert_eq!(render_fallback(&Event::Message(Message::Pong(vec![1, 2]))), "non_text Pong([1, 2])");
}

#[test]
fn fallback_matches_debug_form() {
    let events = vec![
        Event::Opened,
        Event::Closed,
        Event::Error("x \\ y".to_string()),
        Event::Message(Message::Binary(vec![3, 30, 200])),
        Event::Message(Message::Unknown("\u{1}t\t".to_string())),
        Event::Message(Message::Ping(vec![])),
        Event::Message(Message::Pong(vec![10])),
    ];
    for event in events {
        let expected = match &event {
            Event::Message(message) => format!("non_text {:?}", message),
            other => format!("non_msg {:?}", other),
        };
        assert_eq!(render_fallback(&event), expected);
        assert_eq!(render_event(&event, "$.a"), expected);
        assert_eq!(render_event(&event, "not a path"), expected);
    }
}

#[test]
fn describe_writes_kind_and_payload() {
    assert_eq!(Event::Opened.describe(), "Opened");
    assert_eq!(text("hi").describe(), "Message(Text(\"hi\"))");
    assert_eq!(Message::Text("hi".to_string()).describe(), "Text(\"hi\")");
    assert_eq!(Message::Binary(vec![1]).describe(), "Binary([1])");
}

#[test]
fn as_text_gives_payload_of_text_messages_only() {
    assert_eq!(text("abc").as_text(), Some(&"abc".to_string()));
    assert_eq!(Event::Opened.as_text(), None);
    assert_eq!(Event::Error("abc".to_string()).as_text(), None);
    assert_eq!(Event::Message(Message::Unknown("abc".to_string())).as_text(), None);
}

#[test]
fn text_event_goes_through_the_filter() {
    assert_eq!(render_event(&text("{\"a\":{\"b\":5}}"), "$.a.b"), "5");
    assert_eq!(render_event(&text("{\"a\":{\"b\":5}}"), "$.a"), "{\"b\":5}");
}

#[test]
fn join_puts_separator_between_parts() {
    let none: Vec<String> = Vec::new();
    assert_eq!(join(&none, ", "), "");
    assert_eq!(join(&vec!["a".to_string()], ", "), "a");
    assert_eq!(join(&vec!["a".to_string(), "".to_string(), "c".to_string()], ", "), "a, , c");
    assert_eq!(join(&vec!["x".to_string(), "y".to_string()], ""), "xy");
}

#[test]
fn bytes_are_written_in_decimal() {
    for byte in 0..=255u8 {
        assert_eq!(format_byte(byte), byte.to_string());
    }
    assert_eq!(format_byte(0), "0");
    assert_eq!(format_byte(9), "9");
    assert_eq!(format_byte(10), "10");
    assert_eq!(format_byte(105), "105");
    assert_eq!(format_bytes(&vec![]), "[]");
    assert_eq!(format_bytes(&vec![5]), "[5]");
    assert_eq!(format_bytes(&vec![1, 20, 255]), "[1, 20, 255]");
}

#[test]
fn evaluate_gives_matches_error_or_nothing() {
    let value = document("{\"a\":[1,2],\"b\":null}");
    assert_eq!(evaluate(&value, "$").unwrap().unwrap(), vec![value.clone()]);
    assert_eq!(
        evaluate(&value, "$.a[*]").unwrap().unwrap(),
        vec![Value::from(1), Value::from(2)]
    );
    assert_eq!(evaluate(&value, "$.b").unwrap().unwrap(), vec![Value::Null]);
    assert!(evaluate(&value, "$.c").unwrap().unwrap().is_empty());
    assert!(evaluate(&value, "a").unwrap().is_err());
    assert!(evaluate(&value, "$.a[?(@ > 1)]").is_none());
    assert!(evaluate(&value, "$.a[0:1:0]").is_none());
    assert_eq!(evaluate(&value, "$.a[0:1]").unwrap().unwrap(), vec![Value::from(1)]);
}

fn each_string(alphabet: &[char], longest: usize, visit: &mut dyn FnMut(&str)) {
    let mut current: Vec<usize> = Vec::new();
    loop {
        let word: String = current.iter().map(|&i| alphabet[i]).collect();
        visit(&word);
        let mut position = current.len();
        loop {
            if position == 0 {
                if current.len() == longest {
                    return;
                }
                current = vec![0; current.len() + 1];
                break;
            }
            position -= 1;
            if current[position] + 1 < alphabet.len() {
                current[position] += 1;
                for later in current.iter_mut().skip(position + 1) {
                    *later = 0;
                }
                break;
            }
        }
    }
}

fn agrees_with_engine(value: &Value, filter: &str) {
    let line = render_document(value, filter);
    match evaluate(value, filter) {
        None => assert_eq!(line, "unsupported filter expression"),
        Some(outcome) => {
            let mut engine = jsonpath_lib::selector(value);
            let direct = engine(filter);
            match (outcome, direct) {
                (Ok(matches), Ok(found)) => {
                    let found: Vec<Value> = found.into_iter().cloned().collect();
                    assert_eq!(matches, found);
                    assert_eq!(line, render_matches(&matches));
                }
                (Err(error), Err(expected)) => {
                    assert_eq!(error.to_string(), expected.to_string());
                    assert_eq!(line, expected.to_string());
                    assert!(!line.is_empty());
                }
                _ => panic!("outcome differs from the engine's for {:?}", filter),
            }
        }
    }
}

#[test]
fn short_filters_never_stop_the_pass() {
    let value = document("{\"a\":[10,{\"a\":[1,2,3],\"0\":5},[7,8]],\"1\":{\"a\":null},\"-\":2}");
    let alphabet = ['.', 'a', '[', ']', ':', '0', '1', '-', '*', ',', '\'', ' ', '?', '@', '+', '$'];
    let mut count = 0usize;
    each_string(&alphabet, 4, &mut |tail| {
        agrees_with_engine(&value, &format!("${}", tail));
        count += 1;
    });
    assert_eq!(count, 1 + 16 + 256 + 4096 + 65536);
}

#[test]
fn slice_bounds_never_stop_the_pass() {
    let value = document("{\"a\":[10,20,30,40,50]}");
    let alphabet = [':', '0', '1', '2', '-', '+', ' ', ']'];
    each_string(&alphabet, 5, &mut |inner| {
        agrees_with_engine(&value, &format!("$.a[{}]", inner));
        agrees_with_engine(&value, &format!("$..[{}", inner));
    });
}
