use chimera_tui::input::{KeyCode, KeyEvent};
use chimera_tui::panels::budget::BudgetPanel;
use chimera_tui::panels::clv_vector::ClvVectorPanel;
use chimera_tui::panels::dag_viz::DagVizPanel;
use chimera_tui::panels::decay::DecayPanel;
use chimera_tui::panels::event_stream::EventStreamPanel;
use chimera_tui::panels::health::HealthPanel;
use chimera_tui::panels::help::HelpPanel;
use chimera_tui::panels::log::LogPanel;
use chimera_tui::panels::mcp_nodes::McpNodesPanel;
use chimera_tui::panels::memory::MemoryPanel;
use chimera_tui::panels::osa_sparse::OsaSparsePanel;
use chimera_tui::panels::overwindow::OverWindowPanel;
use chimera_tui::panels::resource_monitor::ResourceMonitorPanel;
use chimera_tui::panels::security::SecurityPanel;
use chimera_tui::panels::self_assessment::SelfAssessmentPanel;
use chimera_tui::panels::timeline::TimelinePanel;
use chimera_tui::popup::PopupKind;
use chimera_tui::types::{PanelId, TuiCommand};

#[test]
fn test_budget_panel_id() {
    let panel = BudgetPanel::new();
    assert_eq!(panel.id(), PanelId::Budget);
}

#[test]
fn handle_key_r_returns_request_refresh() {
    let mut panel = BudgetPanel::new();
    assert_eq!(panel.handle_key(KeyEvent::new(KeyCode::Char('R'))), Some(TuiCommand::RequestRefresh));
    assert_eq!(panel.handle_key(KeyEvent::new(KeyCode::Char('r'))), None);
}

#[test]
fn test_clv_vector_panel_id() {
    let panel = ClvVectorPanel::new();
    assert_eq!(panel.id(), PanelId::ClvVector);
}

#[test]
fn test_clv_vector_panel_default() {
    let panel = ClvVectorPanel::default();
    assert_eq!(panel, ClvVectorPanel::new());
    assert_eq!(panel.id(), PanelId::ClvVector);
    assert_eq!(panel.selected(), 0);
    assert_eq!(panel.scroll_offset(), 0);
}

#[test]
fn test_clv_vector_panel_scroll_to_bottom_empty() {
    let mut panel = ClvVectorPanel::new();
    panel.scroll_to_bottom(0);
    assert_eq!(panel.selected(), 0);
}

#[test]
fn test_clv_vector_panel_navigation() {
    let mut panel = ClvVectorPanel::new();
    panel.handle_key(KeyEvent::new(KeyCode::Char('j')), 3);
    assert_eq!(panel.selected(), 1);
    panel.handle_key(KeyEvent::new(KeyCode::Char('k')), 3);
    assert_eq!(panel.selected(), 0);
}

#[test]
fn test_clv_vector_panel_empty_state() {
    let mut panel = ClvVectorPanel::new();
    assert!(panel.handle_key(KeyEvent::new(KeyCode::Down), 0).is_none());
    assert_eq!(panel.selected(), 0);
}

#[test]
fn test_dag_viz_panel_id() {
    assert_eq!(DagVizPanel::new().id(), PanelId::DagViz);
}

#[test]
fn test_decay_panel_id() {
    let panel = DecayPanel::new();
    assert_eq!(panel.id(), PanelId::Decay);
}

#[test]
fn test_event_stream_panel_id() {
    let panel = EventStreamPanel::new();
    assert_eq!(panel.id(), PanelId::EventStream);
}

#[test]
fn test_health_panel_id() {
    let panel = HealthPanel::new();
    assert_eq!(panel.id(), PanelId::Health);
}

#[test]
fn test_help_panel_id() {
    let panel = HelpPanel::new();
    assert_eq!(panel.id(), PanelId::Help);
}

#[test]
fn test_help_panel_new_has_no_context() {
    let panel = HelpPanel::new();
    assert!(panel.context().is_none());
}

#[test]
fn test_help_panel_with_context() {
    let panel = HelpPanel::with_context(PanelId::Quest);
    assert_eq!(panel.context(), Some(PanelId::Quest));
}

#[test]
fn test_help_panel_shortcuts() {
    let panel = HelpPanel::new();
    let shortcuts = panel.shortcuts();
    assert_eq!(shortcuts.len(), 1);
    assert_eq!(shortcuts[0].0, "?");
    assert_eq!(shortcuts[0].1, "显示帮助");
}

#[test]
fn test_log_panel_id() {
    let panel = LogPanel::new();
    assert_eq!(panel.id(), PanelId::Log);
}

#[test]
fn test_mcp_nodes_panel_id() {
    let panel = McpNodesPanel::new();
    assert_eq!(panel.id(), PanelId::McpNodes);
}

#[test]
fn test_memory_panel_id() {
    let panel = MemoryPanel::new();
    assert_eq!(panel.id(), PanelId::Memory);
}

#[test]
fn test_osa_sparse_panel_id() {
    let panel = OsaSparsePanel::new();
    assert_eq!(panel.id(), PanelId::OsaSparse);
}

#[test]
fn test_osa_sparse_panel_scroll_to_top_bottom() {
    let mut panel = OsaSparsePanel::new();
    panel.scroll_to_bottom(3);
    assert_eq!(panel.selected(), 2);
    panel.scroll_to_top();
    assert_eq!(panel.selected(), 0);
}

#[test]
fn test_osa_sparse_panel_help_key_returns_none() {
    let mut panel = OsaSparsePanel::new();
    assert!(panel.handle_key(KeyEvent::new(KeyCode::Char('?')), 2).is_none());
    assert!(panel.handle_key(KeyEvent::new(KeyCode::Enter), 2).is_none());
}

#[test]
fn panel_id_is_overwindow() {
    assert_eq!(OverWindowPanel::new().id(), PanelId::OverWindow);
}

#[test]
fn test_resource_monitor_panel_id() {
    let panel = ResourceMonitorPanel::new();
    assert_eq!(panel.id(), PanelId::ResourceMonitor);
}

#[test]
fn test_focus_is_noop() {
    let mut panel = ResourceMonitorPanel::new();
    panel.focus(true);
    panel.focus(false);
    assert_eq!(panel.selected(), 0);
    assert!((0..4).all(|i| !panel.is_collapsed(i)));
}

#[test]
fn test_handle_key_navigation() {
    let mut panel = ResourceMonitorPanel::new();
    panel.handle_key(KeyEvent::new(KeyCode::Up));
    assert_eq!(panel.selected(), 0);
    for _ in 0..5 {
        panel.handle_key(KeyEvent::new(KeyCode::Char('j')));
    }
    assert_eq!(panel.selected(), 3);
}

#[test]
fn test_handle_key_toggle_collapse() {
    let mut panel = ResourceMonitorPanel::with_trends(true);
    assert!(panel.trends_enabled());
    panel.handle_key(KeyEvent::new(KeyCode::Down));
    panel.handle_key(KeyEvent::new(KeyCode::Enter));
    assert!(panel.is_collapsed(1));
    assert!(!panel.is_collapsed(0));
    panel.handle_key(KeyEvent::new(KeyCode::Enter));
    assert!(!panel.is_collapsed(1));
}

#[test]
fn test_security_panel_id() {
    let panel = SecurityPanel::new();
    assert_eq!(panel.id(), PanelId::Security);
}

#[test]
fn test_security_panel_clamps_selection_when_empty() {
    let mut panel = SecurityPanel::at_row(5);
    panel.clamp_selected(SecurityPanel::event_count(0, 0, 0));
    assert_eq!(panel.selected(), 0);
}

#[test]
fn test_security_panel_navigation() {
    let mut panel = SecurityPanel::new();
    let count = SecurityPanel::event_count(1, 1, 1);
    panel.handle_key(KeyEvent::new(KeyCode::Down), count, None);
    assert_eq!(panel.selected(), 1);
    panel.handle_key(KeyEvent::new(KeyCode::Down), count, None);
    assert_eq!(panel.selected(), 2);
    panel.handle_key(KeyEvent::new(KeyCode::Down), count, None);
    assert_eq!(panel.selected(), 2);
    panel.handle_key(KeyEvent::new(KeyCode::Up), count, None);
    assert_eq!(panel.selected(), 1);
}

#[test]
fn test_self_assessment_panel_id() {
    let panel = SelfAssessmentPanel::new();
    assert_eq!(panel.id(), PanelId::SelfAssessment);
}

#[test]
fn test_timeline_panel_id() {
    let panel = TimelinePanel::new();
    assert_eq!(panel.id(), PanelId::Timeline);
}

#[test]
fn timeline_enter_opens_numbered_detail() {
    let mut panel = TimelinePanel::new();
    panel.handle_key(KeyEvent::new(KeyCode::Down), 3, &String::new());
    match panel.handle_key(KeyEvent::new(KeyCode::Enter), 3, &"body".to_string()) {
        Some(TuiCommand::OpenPopup(PopupKind::Detail { title, content, scroll })) => {
            assert_eq!(title, "Timeline Snapshot #2");
            assert_eq!(content, "body");
            assert_eq!(scroll, 0);
        }
        other => panic!("expected detail, got {other:?}"),
    }
    assert!(panel.handle_key(KeyEvent::new(KeyCode::Enter), 0, &String::new()).is_none());
}
