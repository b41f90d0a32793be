use chimera_tui::input::{KeyCode, KeyEvent};
use chimera_tui::panels::decay::{DecayPanel, DecayView};
use chimera_tui::render::FOOTER_TEXT;
use chimera_tui::text::{LineTone, ToneLine};

#[test]
fn test_decay_panel_handle_key_returns_none() {
    let mut panel = DecayPanel::new();
    assert!(panel.handle_key(KeyEvent::new(KeyCode::Enter)).is_none());
}

#[test]
fn test_decay_panel_handle_key_question_mark_returns_none() {
    let mut panel = DecayPanel::new();
    assert_eq!(panel.handle_key(KeyEvent::new(KeyCode::Char('?'))), None);
}

fn text(lines: &[ToneLine]) -> String {
    lines.iter().map(|l| l.text.clone()).collect::<Vec<_>>().join("\n")
}

// The coefficient is drawn as the panel draws it (a percentage with one
// decimal) and judged against the critical threshold of 0.3.
fn view(coefficient: f32, events: &[&str], cycle_start_ms: Option<i64>) -> DecayView {
    DecayView {
        coefficient: format!("{:.1}", coefficient * 100.0),
        high_decay: coefficient < 0.3,
        cycle_start_ms,
        recent_events: events.iter().map(|e| e.to_string()).collect(),
    }
}

fn now_ms() -> i64 {
    chrono::Utc::now().timestamp_millis()
}

#[test]
fn test_decay_panel_content_normal() {
    let content = text(&DecayPanel::content(&view(0.85, &["capability_frozen:cap-1"], Some(now_ms()))));
    assert!(content.contains("85.0%"), "normal coefficient should display");
    assert!(!content.contains("HIGH DECAY"), "normal decay should not show HIGH DECAY marker");
    assert!(content.contains("capability_frozen:cap-1"), "recent event should be listed");
    assert!(content.contains("Cycle Start"), "cycle start label should be present");
}

#[test]
fn test_decay_panel_content_high_decay() {
    let content = text(&DecayPanel::content(&view(0.25, &["critical_decay_event"], Some(now_ms()))));
    assert!(content.contains("25.0%"), "high decay coefficient should display");
    assert!(content.contains("HIGH DECAY"), "high decay should show HIGH DECAY marker");
}

#[test]
fn test_decay_panel_content_default_state() {
    let content = text(&DecayPanel::content(&view(1.0, &[], None)));
    assert!(content.contains("100.0%"), "default coefficient 1.0 should display as 100.0%");
    assert!(!content.contains("HIGH DECAY"), "default state (1.0) should not show HIGH DECAY");
    assert!(content.contains("no recent decay events"), "empty events should show placeholder");
    assert!(content.contains("no cycle active"), "None cycle_start should show placeholder");
}

#[test]
fn test_decay_panel_content_empty_events() {
    let content = text(&DecayPanel::content(&view(0.5, &[], Some(now_ms()))));
    assert!(content.contains("no recent decay events"), "empty events list should show placeholder");
}

#[test]
fn decay_lines_exact() {
    let lines = DecayPanel::content(&view(0.2, &["a", "b"], Some(0)));
    let texts: Vec<&str> = lines.iter().map(|l| l.text.as_str()).collect();
    assert_eq!(
        texts,
        vec![
            "Coefficient:  20.0%  [HIGH DECAY]",
            "Cycle Start:  1970-01-01 00:00:00 UTC",
            "",
            "Recent Events:",
            "  a",
            "  b",
            "",
            FOOTER_TEXT,
        ]
    );
    assert_eq!(lines[0].tone, LineTone::Alert);
    assert_eq!(lines[3].tone, LineTone::Emphasis);
}

#[test]
fn decay_cycle_start_outside_calendar_range_is_blank() {
    let lines = DecayPanel::content(&view(0.9, &[], Some(i64::MAX)));
    assert_eq!(lines[1].text, "Cycle Start:  ");
}
