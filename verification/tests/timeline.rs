use chimera_tui::input::{KeyCode, KeyEvent};
use chimera_tui::panels::timeline::TimelinePanel;
use chimera_tui::popup::PopupKind;
use chimera_tui::types::TuiCommand;

fn detail_of(event_count: u64, event_rate: u64) -> String {
    format!(
        "Event Count: {}\nEvent Rate: {}/s\nBudget Utilization: 35.0%\nHealth Score: 90/100\nDecay Coefficient: 0.850",
        event_count, event_rate
    )
}

#[test]
fn test_timeline_panel_navigation_j_k() {
    let mut panel = TimelinePanel::new();
    let none = String::new();
    panel.handle_key(KeyEvent::new(KeyCode::Char('j')), 3, &none);
    assert_eq!(panel.selected(), 1);
    panel.handle_key(KeyEvent::new(KeyCode::Char('k')), 3, &none);
    assert_eq!(panel.selected(), 0);
}

#[test]
fn test_timeline_panel_enter_returns_detail() {
    let mut panel = TimelinePanel::new();
    let detail = detail_of(42, 10);
    let cmd = panel.handle_key(KeyEvent::new(KeyCode::Enter), 1, &detail);
    match cmd {
        Some(TuiCommand::OpenPopup(PopupKind::Detail { title, content, .. })) => {
            assert!(title.contains("Timeline"));
            assert_eq!(title, "Timeline Snapshot #1");
            assert!(content.contains("42"));
        }
        other => panic!("expected OpenPopup(Detail), got {:?}", other),
    }
}

#[test]
fn test_timeline_panel_enter_empty_returns_none() {
    let mut panel = TimelinePanel::new();
    let cmd = panel.handle_key(KeyEvent::new(KeyCode::Enter), 0, &String::new());
    assert!(cmd.is_none());
}

#[test]
fn test_timeline_panel_scroll_to_top_bottom() {
    let mut panel = TimelinePanel::new();
    panel.scroll_to_bottom(5);
    assert_eq!(panel.selected(), 4);
    panel.scroll_to_top();
    assert_eq!(panel.selected(), 0);
}

#[test]
fn test_timeline_panel_clamp_selected() {
    let mut panel = TimelinePanel::new();
    assert_eq!(panel.selected(), 0);
    panel.handle_key(KeyEvent::new(KeyCode::Down), 0, &String::new());
    assert_eq!(panel.selected(), 0);
}

#[test]
fn test_timeline_panel_help_key_returns_none() {
    let mut panel = TimelinePanel::new();
    assert_eq!(panel.handle_key(KeyEvent::new(KeyCode::Char('?')), 0, &String::new()), None);
}
