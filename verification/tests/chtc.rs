use chimera_tui::panels::chtc::{ChtcAdapterInfo, ChtcPanel, ScoreTone};

#[test]
fn test_score_color_thresholds() {
    assert_eq!(ChtcPanel::score_tone(80), ScoreTone::Good);
    assert_eq!(ChtcPanel::score_tone(100), ScoreTone::Good);
    assert_eq!(ChtcPanel::score_tone(79), ScoreTone::Normal);
    assert_eq!(ChtcPanel::score_tone(60), ScoreTone::Normal);
    assert_eq!(ChtcPanel::score_tone(59), ScoreTone::AtRisk);
    assert_eq!(ChtcPanel::score_tone(0), ScoreTone::AtRisk);
}

#[test]
fn test_build_recent_requests_line_empty() {
    let text = ChtcPanel::recent_requests_line(&vec![]);
    assert!(text.contains("(none)"));
    assert!(text.contains("Requests"));
}

#[test]
fn test_build_recent_requests_line_with_data() {
    let text = ChtcPanel::recent_requests_line(&vec![("tool_call".into(), 42), ("hover".into(), 18)]);
    assert!(text.contains("Requests"));
    assert!(text.contains("tool_call(42)"));
    assert!(text.contains("hover(18)"));
    assert!(text.contains("/"));
    assert_eq!(text, "  Requests: tool_call(42) / hover(18)");
}

#[test]
fn test_build_score_bar_line_format() {
    let text = ChtcPanel::score_bar_line(95);
    assert!(text.contains('['));
    assert!(text.contains(']'));
    assert!(text.contains('='));
    assert!(text.contains("95/100"));
}

#[test]
fn chtc_score_bar_exact_cells() {
    assert_eq!(ChtcPanel::score_bar_line(0), format!("  [{}] 0/100", "-".repeat(30)));
    assert_eq!(ChtcPanel::score_bar_line(100), format!("  [{}] 100/100", "=".repeat(30)));
    assert_eq!(ChtcPanel::score_bar_line(50), format!("  [{}{}] 50/100", "=".repeat(15), "-".repeat(15)));
}

#[test]
fn chtc_content_empty_and_filled() {
    let empty = ChtcPanel::content_lines(&vec![]);
    assert!(empty.iter().any(|l| l == "No CHTC adapters connected"));
    let adapters = vec![
        ChtcAdapterInfo {
            adapter_id: "vscode-ext".into(),
            adapter_type: "vscode".into(),
            compatibility_score: 90,
            recent_requests: vec![],
            is_online: true,
        },
        ChtcAdapterInfo {
            adapter_id: "vim".into(),
            adapter_type: "vim".into(),
            compatibility_score: 40,
            recent_requests: vec![("hover".into(), 2)],
            is_online: false,
        },
    ];
    let lines = ChtcPanel::content_lines(&adapters);
    let text = lines.join("\n");
    assert!(text.contains("vscode-ext [vscode]  online"));
    assert!(text.contains("vim [vim]  offline"));
    assert!(text.contains("  Requests: hover(2)"));
}
