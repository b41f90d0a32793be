use chimera_tui::json::{event_detail_lines, highlight_json, json_lines, related_ids, JsonSpan, JsonValue};
use chimera_tui::popup::{EventEncoding, PopupKind};
use chimera_tui::text::LineTone;

fn s(x: &str) -> JsonValue {
    JsonValue::Str(x.to_string())
}

fn obj(members: Vec<(&str, JsonValue)>) -> JsonValue {
    JsonValue::Object(members.into_iter().map(|(k, v)| (k.to_string(), v)).collect())
}

fn sample() -> JsonValue {
    obj(vec![
        ("a_id", s("x")),
        ("list", JsonValue::Array(vec![JsonValue::Number("1".into()), JsonValue::Null])),
        ("n", obj(vec![("b_id", s("x")), ("c", JsonValue::Bool(true))])),
    ])
}

fn texts(lines: &[Vec<JsonSpan>]) -> Vec<String> {
    lines.iter().map(|l| l.iter().map(|p| p.text.as_str()).collect::<String>()).collect()
}

#[test]
fn related_ids_keep_order_and_drop_repeats() {
    let v = obj(vec![
        ("event_id", s("e1")),
        ("payload", obj(vec![("quest_id", s("q1")), ("other", s("zzz")), ("proposal_id", s("q1"))])),
        ("items", JsonValue::Array(vec![obj(vec![("checkpoint_id", s("c9"))]), s("loose_id")])),
        ("count_id", JsonValue::Number("5".into())),
    ]);
    assert_eq!(related_ids(&v), vec!["e1", "q1", "c9"]);
    assert_eq!(related_ids(&sample()), vec!["x"]);
    assert!(related_ids(&JsonValue::Null).is_empty());
}

#[test]
fn related_ids_non_adjacent_repeats_stay() {
    let v = obj(vec![("a_id", s("1")), ("b_id", s("2")), ("c_id", s("1"))]);
    assert_eq!(related_ids(&v), vec!["1", "2", "1"]);
}

#[test]
fn json_lines_layout() {
    let lines = json_lines(&sample(), &String::new());
    assert_eq!(
        texts(&lines),
        vec![
            "{",
            "  \"a_id\": \"x\",",
            "  \"list\": ",
            "[",
            "1,",
            "null",
            "  }],",
            "  \"n\": ",
            "{",
            "    \"b_id\": \"x\",",
            "    \"c\": true",
            "  }",
            "}",
        ]
    );
    assert_eq!(lines[1][1].tone, LineTone::Good);
    assert_eq!(lines[4][0].tone, LineTone::Info);
    assert_eq!(lines[5][0].tone, LineTone::Muted);
    assert_eq!(lines[10][1].tone, LineTone::Warning);
}

#[test]
fn json_lines_empty_containers() {
    assert_eq!(texts(&json_lines(&JsonValue::Array(vec![]), &String::new())), vec!["[]"]);
    assert_eq!(texts(&json_lines(&JsonValue::Object(vec![]), &String::new())), vec!["{}"]);
}

#[test]
fn highlight_falls_back_to_raw_text() {
    let lines = highlight_json(None, "de ad be ef");
    assert_eq!(texts(&lines), vec!["de ad be ef"]);
    assert_eq!(lines[0][0].tone, LineTone::Plain);
    let v = JsonValue::Bool(false);
    assert_eq!(texts(&highlight_json(Some(&v), "false")), vec!["false"]);
}

#[test]
fn event_detail_body_lines() {
    let v = obj(vec![("quest_id", s("q-1"))]);
    let related = related_ids(&v);
    let lines = event_detail_lines("QuestCreated", Some(&v), "{}", &related);
    assert_eq!(
        texts(&lines),
        vec!["Type: QuestCreated", "", "{", "  \"quest_id\": \"q-1\"", "}", "", "Related IDs:", "  • q-1"]
    );
    assert_eq!(lines[0][1].tone, LineTone::Info);
    assert_eq!(lines[6][0].tone, LineTone::Emphasis);
    let lines = event_detail_lines("X", None, "00", &Vec::new());
    assert_eq!(texts(&lines), vec!["Type: X", "", "00", "", "Related IDs:", "  (none)"]);
}

#[test]
fn event_detail_popup_for_each_encoding() {
    match PopupKind::event_detail("QuestCreated", EventEncoding::Failed) {
        PopupKind::EventDetail { title, event_type, payload_decoded, payload_raw, related_event_ids, scroll } => {
            assert_eq!(title, "QuestCreated Detail (raw hex)");
            assert_eq!(event_type, "QuestCreated");
            assert_eq!(payload_decoded, "(encoding failed)");
            assert!(payload_raw.is_empty());
            assert!(related_event_ids.is_empty());
            assert_eq!(scroll, 0);
        }
        other => panic!("unexpected {other:?}"),
    }
    let enc = EventEncoding::Decoded {
        raw: vec![0x81, 0xa1],
        value: obj(vec![("event_id", s("e-7"))]),
        pretty: Some("{\n  \"event_id\": \"e-7\"\n}".to_string()),
    };
    match PopupKind::event_detail("Ping", enc) {
        PopupKind::EventDetail { title, payload_decoded, payload_raw, related_event_ids, .. } => {
            assert_eq!(title, "Ping Detail");
            assert_eq!(payload_decoded, "{\n  \"event_id\": \"e-7\"\n}");
            assert_eq!(payload_raw, vec![0x81, 0xa1]);
            assert_eq!(related_event_ids, vec!["e-7"]);
        }
        other => panic!("unexpected {other:?}"),
    }
    let enc = EventEncoding::Decoded { raw: vec![0x0f, 0xa0], value: JsonValue::Null, pretty: None };
    match PopupKind::event_detail("Ping", enc) {
        PopupKind::EventDetail { title, payload_decoded, .. } => {
            assert_eq!(title, "Ping Detail");
            assert_eq!(payload_decoded, "0f a0");
        }
        other => panic!("unexpected {other:?}"),
    }
    match PopupKind::event_detail("Ping", EventEncoding::Undecodable { raw: vec![0xc1] }) {
        PopupKind::EventDetail { title, payload_decoded, payload_raw, related_event_ids, .. } => {
            assert_eq!(title, "Ping Detail (raw hex)");
            assert_eq!(payload_decoded, "c1");
            assert_eq!(payload_raw, vec![0xc1]);
            assert!(related_event_ids.is_empty());
        }
        other => panic!("unexpected {other:?}"),
    }
}
