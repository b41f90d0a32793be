use chimera_tui::text::LineTone;
use chimera_tui::input::{KeyCode, KeyEvent};
use chimera_tui::panels::agent_tree::{build_tree_lines, AgentNodeView, AgentTreePanel, AgentTreeSnapshot};
use chimera_tui::popup::PopupKind;
use chimera_tui::types::{PanelId, TuiCommand};

fn node(id: &str, delegated: u64, completed: u64, failed: u64, last: Option<&str>) -> AgentNodeView {
    AgentNodeView {
        agent_id: id.into(),
        delegated_out: delegated,
        completed,
        failed,
        last_task: last.map(|s| s.to_string()),
    }
}

fn snapshot_with_chain() -> AgentTreeSnapshot {
    AgentTreeSnapshot {
        edges: vec![
            ("orchestrator".into(), "worker-1".into()),
            ("worker-1".into(), "worker-2".into()),
        ],
        nodes: vec![
            node("orchestrator", 1, 0, 0, None),
            node("worker-1", 1, 1, 0, Some("t-1")),
            node("worker-2", 0, 0, 1, Some("t-2")),
        ],
    }
}

#[test]
fn tree_lines_dfs_from_roots() {
    let lines = build_tree_lines(&snapshot_with_chain());
    assert_eq!(lines.len(), 3);
    assert_eq!(lines[0].depth, 0);
    assert_eq!(lines[1].depth, 1);
    assert_eq!(lines[2].depth, 2);
    assert_eq!(lines[0].node_index, 0);
}

#[test]
fn tree_lines_cycle_safe() {
    let snap = AgentTreeSnapshot {
        edges: vec![("a".into(), "b".into()), ("b".into(), "a".into())],
        nodes: vec![node("a", 1, 0, 0, None), node("b", 1, 0, 0, None)],
    };
    let lines = build_tree_lines(&snap);
    assert_eq!(lines.len(), 2);
}

#[test]
fn empty_snapshot_yields_no_lines() {
    assert!(build_tree_lines(&AgentTreeSnapshot::default()).is_empty());
}

#[test]
fn node_detail_contains_stats_and_lineage() {
    let snap = snapshot_with_chain();
    let detail = AgentTreePanel::node_detail_content(&snap, 1);
    assert!(detail.contains("worker-1"));
    assert!(detail.contains("parent: orchestrator"));
    assert!(detail.contains("children: worker-2"));
    assert!(detail.contains("last_task: t-1"));
}

#[test]
fn root_node_detail_marks_orchestrator() {
    let snap = snapshot_with_chain();
    let detail = AgentTreePanel::node_detail_content(&snap, 0);
    assert!(detail.contains("(orchestrator root)"));
}

#[test]
fn node_detail_exact_text() {
    let snap = snapshot_with_chain();
    assert_eq!(
        AgentTreePanel::node_detail_content(&snap, 1),
        "Agent: worker-1\nparent: orchestrator\ndelegated: 1\ncompleted: 1\nfailed: 0\nlast_task: t-1\nchildren: worker-2"
    );
    assert_eq!(AgentTreePanel::node_detail_content(&snap, 7), "");
}

#[test]
fn tree_lines_list_every_node_once_with_orphans_after_roots() {
    let snap = AgentTreeSnapshot {
        edges: vec![("a".into(), "b".into()), ("c".into(), "a".into())],
        nodes: vec![node("a", 0, 0, 0, None), node("b", 0, 0, 0, None), node("c", 0, 0, 0, None)],
    };
    let lines = build_tree_lines(&snap);
    let order: Vec<(usize, usize)> = lines.iter().map(|l| (l.depth, l.node_index)).collect();
    assert_eq!(order, vec![(0, 2), (1, 0), (2, 1)]);
}

#[test]
fn agent_tree_keys_and_drill_down() {
    let snap = snapshot_with_chain();
    let mut panel = AgentTreePanel::new();
    assert_eq!(panel.id(), PanelId::AgentTree);
    assert!(panel.handle_key(KeyEvent::new(KeyCode::Down), &snap).is_none());
    assert_eq!(panel.selected(), 1);
    match panel.handle_key(KeyEvent::new(KeyCode::Enter), &snap) {
        Some(TuiCommand::OpenPopup(PopupKind::Detail { title, content, scroll })) => {
            assert_eq!(title, "worker-1");
            assert!(content.starts_with("Agent: worker-1"));
            assert_eq!(scroll, 0);
        }
        other => panic!("expected detail popup, got {other:?}"),
    }
    panel.scroll_to_bottom(&snap);
    assert_eq!(panel.selected(), 2);
    panel.handle_key(KeyEvent::new(KeyCode::Down), &snap);
    assert_eq!(panel.selected(), 2);
    panel.scroll_to_top();
    assert_eq!(panel.selected(), 0);
}

#[test]
fn agent_tree_render_rows_and_tones() {
    let mut panel = AgentTreePanel::new();
    let rows = panel.render(&snapshot_with_chain(), 10, "no agents");
    assert_eq!(rows.len(), 3);
    assert_eq!(rows[0].text, "orchestrator [✓0 ✗0 ⇢1]");
    assert_eq!(rows[0].tone, LineTone::Highlight);
    assert_eq!(rows[1].text, "  └─ worker-1 [✓1 ✗0 ⇢1]");
    assert_eq!(rows[1].tone, LineTone::Good);
    assert_eq!(rows[2].text, "    └─ worker-2 [✓0 ✗1 ⇢0]");
    assert_eq!(rows[2].tone, LineTone::Alert);
    let empty = panel.render(&AgentTreeSnapshot::default(), 10, "no agents");
    assert_eq!(empty[0].text, "no agents");
    assert!(panel.render(&snapshot_with_chain(), 0, "x").is_empty());
}

#[test]
fn agent_tree_render_scrolls_to_selection() {
    let mut panel = AgentTreePanel::new();
    let snap = snapshot_with_chain();
    panel.handle_key(KeyEvent::new(KeyCode::Down), &snap);
    panel.handle_key(KeyEvent::new(KeyCode::Down), &snap);
    let rows = panel.render(&snap, 1, "x");
    assert_eq!(panel.scroll(), 2);
    assert_eq!(rows.len(), 1);
    assert!(rows[0].text.contains("worker-2"));
}
