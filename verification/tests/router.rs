use chimera_tui::input::{KeyCode, KeyEvent};
use chimera_tui::panels::router::{hot_capability_lines, merge_hot_capabilities, top_k_capabilities, RouterPanel};
use chimera_tui::types::{PanelId, TuiCommand};

#[test]
fn test_router_panel_id() {
    let panel = RouterPanel::new();
    assert_eq!(panel.id(), PanelId::Router);
}

#[test]
fn test_router_panel_handle_key_returns_none() {
    let mut panel = RouterPanel::new();
    assert!(panel.handle_key(KeyEvent::new(KeyCode::Enter)).is_none());
}

#[test]
fn test_router_panel_handle_key_question_mark() {
    let mut panel = RouterPanel::new();
    assert_eq!(panel.handle_key(KeyEvent::new(KeyCode::Char('?'))), Some(TuiCommand::ShowHelp));
}

#[test]
fn test_top_k_capabilities_empty() {
    let empty: Vec<(String, u64)> = vec![];
    let result = top_k_capabilities(&empty, 10);
    assert!(result.is_empty());
}

#[test]
fn test_top_k_capabilities_fewer_than_k() {
    let input: Vec<(String, u64)> = vec![("a".into(), 10), ("b".into(), 30), ("c".into(), 20)];
    let result = top_k_capabilities(&input, 10);
    assert_eq!(result.len(), 3);
    assert_eq!(result[0].1, 30);
    assert_eq!(result[1].1, 20);
    assert_eq!(result[2].1, 10);
}

#[test]
fn test_top_k_capabilities_more_than_k() {
    let input: Vec<(String, u64)> = (0..15).map(|i| (format!("cap-{:02}", i), (15 - i) as u64 * 10)).collect();
    let result = top_k_capabilities(&input, 10);
    assert_eq!(result.len(), 10);
    assert_eq!(result[0].0, "cap-00");
    assert_eq!(result[0].1, 150);
    assert_eq!(result[9].0, "cap-09");
    assert_eq!(result[9].1, 60);
}

#[test]
fn test_top_k_capabilities_k_zero() {
    let input: Vec<(String, u64)> = vec![("a".into(), 10)];
    let result = top_k_capabilities(&input, 0);
    assert!(result.is_empty());
}

#[test]
fn test_merge_hot_capabilities_dedup() {
    let kvbsr: Vec<(String, u64)> = vec![("search".into(), 42), ("common".into(), 10)];
    let sesa: Vec<(String, u64)> = vec![("common".into(), 5)];
    let faae: Vec<(String, u64)> = vec![("tool_call".into(), 88)];
    let merged = merge_hot_capabilities(&kvbsr, &sesa, &faae);
    let common = merged.iter().find(|(c, _)| c == "common");
    assert!(common.is_some());
    assert_eq!(common.unwrap().1, 15);
    assert_eq!(merged.len(), 3);
}

#[test]
fn merge_keeps_first_occurrence_order_and_total_hits() {
    let a: Vec<(String, u64)> = vec![("x".into(), 1), ("y".into(), 2)];
    let b: Vec<(String, u64)> = vec![("y".into(), 3), ("z".into(), 4)];
    let c: Vec<(String, u64)> = vec![("x".into(), 5)];
    let merged = merge_hot_capabilities(&a, &b, &c);
    assert_eq!(merged, vec![("x".to_string(), 6), ("y".to_string(), 5), ("z".to_string(), 4)]);
    let total: u64 = merged.iter().map(|(_, h)| *h).sum();
    assert_eq!(total, 15);
}

#[test]
fn top_k_takes_the_largest_from_distinct_positions() {
    let input: Vec<(String, u64)> = vec![("a".into(), 5), ("b".into(), 9), ("c".into(), 1), ("d".into(), 7)];
    let result = top_k_capabilities(&input, 2);
    assert_eq!(result, vec![("b".to_string(), 9), ("d".to_string(), 7)]);
}

#[test]
fn test_router_panel_content_empty_hot_capabilities() {
    let merged = merge_hot_capabilities(&vec![], &vec![], &vec![]);
    let top = top_k_capabilities(&merged, 10);
    let lines = hot_capability_lines(&top);
    assert!(lines.join("\n").contains("no hot capabilities"));
}

#[test]
fn hot_capability_section_ranks_and_numbers() {
    let merged = merge_hot_capabilities(
        &vec![("a".to_string(), 3), ("common".to_string(), 10)],
        &vec![("common".to_string(), 5)],
        &vec![("b".to_string(), 7)],
    );
    let top = top_k_capabilities(&merged, 10);
    let lines = hot_capability_lines(&top);
    assert_eq!(lines[0], "Hot Capabilities (Top-10):");
    assert_eq!(lines[1], "  1. common (15 hits)");
    assert_eq!(lines[2], "  2. b (7 hits)");
    assert_eq!(lines[3], "  3. a (3 hits)");
}
