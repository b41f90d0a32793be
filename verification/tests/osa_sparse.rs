use chimera_tui::input::{KeyCode, KeyEvent};
use chimera_tui::panels::osa_sparse::OsaSparsePanel;

#[test]
fn test_osa_sparse_panel_empty_state() {
    let mut panel = OsaSparsePanel::new();
    let result = panel.handle_key(KeyEvent::new(KeyCode::Down), 0);
    assert!(result.is_none());
    assert_eq!(panel.selected(), 0);
}

#[test]
fn test_osa_sparse_panel_navigation() {
    let mut panel = OsaSparsePanel::new();
    panel.handle_key(KeyEvent::new(KeyCode::Char('j')), 3);
    assert_eq!(panel.selected(), 1);
    panel.handle_key(KeyEvent::new(KeyCode::Char('j')), 3);
    assert_eq!(panel.selected(), 2);
    panel.handle_key(KeyEvent::new(KeyCode::Char('k')), 3);
    assert_eq!(panel.selected(), 1);
}

#[test]
fn test_osa_sparse_panel_clamp_selected() {
    let mut panel = OsaSparsePanel::new();
    assert_eq!(panel.selected(), 0);
    panel.handle_key(KeyEvent::new(KeyCode::Down), 0);
    assert_eq!(panel.selected(), 0);
    for _ in 0..10 {
        panel.handle_key(KeyEvent::new(KeyCode::Char('j')), 3);
    }
    assert_eq!(panel.selected(), 2);
}

#[test]
fn test_osa_sparse_panel_render_window_empty() {
    let text = OsaSparsePanel::render_window(&vec![], 0, 0, 20).join("\n");
    assert!(text.contains("No active context files"));
}

#[test]
fn test_osa_sparse_panel_render_window_with_data() {
    let files = vec!["main.rs".to_string(), "lib.rs".to_string()];
    let lines = OsaSparsePanel::render_window(&files, 0, 0, 20);
    let text = lines.join("\n");
    assert!(text.contains("main.rs"));
    assert!(text.contains("lib.rs"));
    assert_eq!(lines, vec![">   1. main.rs".to_string(), "    2. lib.rs".to_string()]);
}

#[test]
fn osa_render_window_counts_when_longer_than_viewport() {
    let files: Vec<String> = (0..30).map(|i| format!("f{i}")).collect();
    let lines = OsaSparsePanel::render_window(&files, 12, 12, 4);
    assert_eq!(lines.first().unwrap(), "    8. f7");
    assert!(lines.iter().any(|l| l == ">  13. f12"));
    assert_eq!(lines.last().unwrap(), "... showing 14 of 30 files");
}

#[test]
fn osa_sync_view_clamps_and_scrolls() {
    let mut panel = OsaSparsePanel::new();
    panel.scroll_to_bottom(50);
    panel.sync_view(10, 5);
    assert_eq!(panel.selected(), 9);
    assert_eq!(panel.scroll_offset(), 9);
}
