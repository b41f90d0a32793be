use chimera_tui::events::{EventKind, EventView};
use chimera_tui::panels::overwindow::{OverWindowLabels, OverWindowPanel};
use chimera_tui::text::ToneLine;

fn labels() -> OverWindowLabels {
    OverWindowLabels {
        body_title: "超窗兜底".into(),
        empty: "尚未触发超窗兜底".into(),
        hint: "语料超过有效窗口时自动触发".into(),
        corpus: "语料".into(),
        window: "窗口".into(),
        candidates: "候选".into(),
        loaded: "装窗".into(),
        more: "条更早记录".into(),
    }
}

fn trigger(corpus_tokens: u64, effective_window: u64, candidate_count: u32, loaded_count: u32) -> EventView {
    EventView {
        kind: EventKind::OverWindowFallbackTriggered { corpus_tokens, effective_window, candidate_count, loaded_count },
        variant: "OverWindowFallbackTriggered".into(),
        source: "test".into(),
        timestamp_ms: 0,
        critical: false,
        json: None,
    }
}

fn joined(lines: &[ToneLine]) -> String {
    lines.iter().map(|l| l.text.clone()).collect::<String>()
}

#[test]
fn empty_state_shows_awaiting_hint() {
    let text = joined(&OverWindowPanel::content(&vec![], &labels()));
    assert!(text.contains("尚未触发超窗兜底"));
}

#[test]
fn renders_trigger_details_latest_first() {
    let events = vec![trigger(100_000, 131_072, 0, 0), trigger(600_000, 131_072, 42, 128)];
    let lines = OverWindowPanel::content(&events, &labels());
    let text = joined(&lines);
    assert!(text.contains("语料=600000 tok"));
    assert!(text.contains("候选=42"));
    assert!(text.contains("装窗=128"));
    assert!(text.find("#1").unwrap() < text.find("#2").unwrap());
    assert_eq!(lines[2].text, "#1 语料=600000 tok, 窗口=131072 tok");
}

#[test]
fn overwindow_caps_list_and_counts_rest() {
    let events: Vec<EventView> = (0..11).map(|i| trigger(i, 10, 0, 0)).collect();
    let lines = OverWindowPanel::content(&events, &labels());
    assert_eq!(lines.len(), 2 + 8 * 2 + 1);
    assert_eq!(lines.last().unwrap().text, "... 3 条更早记录");
    assert!(lines[2].text.starts_with("#1 语料=10 tok"));
}
