use chimera_tui::input::{KeyCode, KeyEvent};
use chimera_tui::panels::clv_vector::ClvVectorPanel;

#[test]
fn test_clv_vector_panel_scroll_to_top_bottom() {
    let mut panel = ClvVectorPanel::new();
    panel.scroll_to_bottom(5);
    assert_eq!(panel.selected(), 4);
    panel.scroll_to_top();
    assert_eq!(panel.selected(), 0);
}

#[test]
fn test_clv_vector_panel_help_key_returns_none() {
    let mut panel = ClvVectorPanel::new();
    assert_eq!(panel.handle_key(KeyEvent::new(KeyCode::Char('?')), 0), None);
}

#[test]
fn test_clv_vector_panel_navigation_clamp_at_bottom() {
    let mut panel = ClvVectorPanel::new();
    for _ in 0..10 {
        panel.handle_key(KeyEvent::new(KeyCode::Char('j')), 3);
    }
    assert_eq!(panel.selected(), 2);
}

#[test]
fn clv_sync_view_and_footer() {
    let mut panel = ClvVectorPanel::new();
    panel.scroll_to_bottom(10);
    panel.sync_view(3, 2);
    assert_eq!(panel.selected(), 2);
    assert_eq!(panel.scroll_offset(), 2);
    assert_eq!(ClvVectorPanel::dims_footer(8, 0, 8), None);
    assert_eq!(ClvVectorPanel::dims_footer(8, 0, 3), Some("... showing 8 of 8 dimensions".to_string()));
    assert_eq!(ClvVectorPanel::dims_footer(20, 12, 3), Some("... showing 13 of 20 dimensions".to_string()));
}
