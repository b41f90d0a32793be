use chimera_tui::input::{KeyCode, KeyEvent};
use chimera_tui::panels::chtc::{ChtcAdapterInfo, ChtcPanel};
use chimera_tui::panels::event_stream;
use chimera_tui::panels::log;
use chimera_tui::panels::mcp_nodes::{McpNodeStatus, McpNodesPanel, NodeStatus, HEARTBEAT_TIMEOUT_SECS};
use chimera_tui::popup::PopupKind;
use chimera_tui::types::{PanelId, TuiCommand};

fn sample_adapter(id: &str, score: u8, online: bool) -> ChtcAdapterInfo {
    ChtcAdapterInfo {
        adapter_id: id.into(),
        adapter_type: "vscode".into(),
        compatibility_score: score,
        recent_requests: vec![("tool_call".into(), 5u32)],
        is_online: online,
    }
}

#[test]
fn test_chtc_panel_id() {
    let panel = ChtcPanel::new();
    assert_eq!(panel.id(), PanelId::Chtc);
}

#[test]
fn test_detail_content_contains_all_fields() {
    let adapter = sample_adapter("vscode-ext", 95, true);
    let content = ChtcPanel::detail_content(&adapter);
    assert!(content.contains("vscode-ext"));
    assert!(content.contains("vscode"));
    assert!(content.contains("95/100"));
    assert!(content.contains("online"));
    assert!(content.contains("tool_call"));
    assert!(!content.contains("Warning"));
}

#[test]
fn test_detail_content_low_score_includes_warning() {
    let adapter = sample_adapter("vim-plugin", 45, false);
    let content = ChtcPanel::detail_content(&adapter);
    assert!(content.contains("Warning"));
    assert!(content.contains("offline"));
}

#[test]
fn chtc_detail_exact_text_without_requests() {
    let mut adapter = sample_adapter("a", 60, true);
    adapter.recent_requests.clear();
    assert_eq!(
        ChtcPanel::detail_content(&adapter),
        "Adapter ID: a\nType: vscode\nCompatibility Score: 60/100\nStatus: online\n\nRecent Requests: (none)"
    );
}

#[test]
fn chtc_enter_opens_adapter_detail() {
    let adapters = vec![sample_adapter("x", 90, true), sample_adapter("y", 10, false)];
    let mut panel = ChtcPanel::new();
    panel.handle_key(KeyEvent::new(KeyCode::Down), &adapters);
    match panel.handle_key(KeyEvent::new(KeyCode::Enter), &adapters) {
        Some(TuiCommand::OpenPopup(PopupKind::Detail { title, content, .. })) => {
            assert_eq!(title, "CHTC Adapter: y");
            assert!(content.contains("Warning: score below 60"));
        }
        other => panic!("expected detail, got {other:?}"),
    }
    panel.handle_key(KeyEvent::new(KeyCode::Char('g')), &adapters);
    assert_eq!(panel.selected(), 0);
}

#[test]
fn test_event_stream_panel_title_with_filters() {
    let title = event_stream::build_filter_title(Some("foo"), Some("security"), None, "Event Stream");
    assert!(title.contains("keyword:foo"));
    assert!(title.contains("topic:security"));
}

#[test]
fn event_stream_title_exact_forms() {
    assert_eq!(event_stream::build_filter_title(None, None, None, "Event Stream"), " Event Stream ");
    assert_eq!(
        event_stream::build_filter_title(Some("a"), None, Some("warn"), "Event Stream"),
        " Event Stream [keyword:a level:warn] "
    );
}

#[test]
fn test_log_panel_title_with_filters() {
    let title = log::build_filter_title(Some("foo"), Some("security"), None, "System Log", ("关键字", "主题", "级别"));
    assert!(title.contains("关键字:foo"));
    assert!(title.contains("主题:security"));
}

#[test]
fn test_mcp_nodes_status_symbol_mapping() {
    assert_eq!(McpNodesPanel::status_symbol(NodeStatus::Online), "●");
    assert_eq!(McpNodesPanel::status_symbol(NodeStatus::Degraded), "▲");
    assert_eq!(McpNodesPanel::status_symbol(NodeStatus::Offline), "✗");
}

#[test]
fn test_mcp_nodes_heartbeat_timeout_constant_value() {
    assert_eq!(HEARTBEAT_TIMEOUT_SECS, 5);
}

#[test]
fn test_mcp_nodes_format_last_seen_seconds() {
    let now = 1_700_000_000_000i64;
    assert_eq!(McpNodesPanel::format_last_seen(Some(now - 5_000), now), "5s ago");
}

#[test]
fn test_mcp_nodes_format_last_seen_minutes() {
    let now = 1_700_000_000_000i64;
    assert_eq!(McpNodesPanel::format_last_seen(Some(now - 125_000), now), "2m ago");
}

#[test]
fn test_mcp_nodes_format_last_seen_never() {
    assert_eq!(McpNodesPanel::format_last_seen(None, 0), "never");
}

#[test]
fn mcp_format_last_seen_hours_days_and_future() {
    let now = 10_000_000_000i64;
    assert_eq!(McpNodesPanel::format_last_seen(Some(now - 7_200_000), now), "2h ago");
    assert_eq!(McpNodesPanel::format_last_seen(Some(now - 3 * 86_400_000), now), "3d ago");
    assert_eq!(McpNodesPanel::format_last_seen(Some(now + 5_000), now), "0s ago");
}

#[test]
fn mcp_timeout_and_detail() {
    let now = 1_700_000_000_000i64;
    let fresh = McpNodeStatus { node_id: "n1".into(), status: NodeStatus::Online, throughput: 12, last_seen_ms: Some(now - 5_999) };
    let stale = McpNodeStatus { node_id: "n2".into(), status: NodeStatus::Online, throughput: 0, last_seen_ms: Some(now - 6_000) };
    let never = McpNodeStatus { node_id: "n3".into(), status: NodeStatus::Degraded, throughput: 0, last_seen_ms: None };
    assert!(!McpNodesPanel::is_timed_out(&fresh, now));
    assert!(McpNodesPanel::is_timed_out(&stale, now));
    assert!(McpNodesPanel::is_timed_out(&never, now));
    assert!(McpNodesPanel::is_offline(&never, now));
    let detail = McpNodesPanel::detail_content(&stale, now);
    assert!(detail.starts_with("Node ID: n2\nStatus: Online\nThroughput: 0 msg/s\nLast Seen: 2023-11-14 22:13:14 UTC\nHeartbeat Age: 6s"));
    assert!(detail.ends_with("Warning: Heartbeat timed out (>5s threshold)"));
    assert_eq!(
        McpNodesPanel::detail_content(&never, now),
        "Node ID: n3\nStatus: Degraded\nThroughput: 0 msg/s\nLast Seen: (never)\nWarning: No heartbeat received"
    );
}
