use chimera_tui::panels::help::{global_shortcut_keys, HelpLabels, HelpPanel};

fn labels() -> HelpLabels {
    let descriptions = [
        "Next panel", "Previous panel", "Jump to panel", "Command mode", "Search", "Submit", "Cancel",
        "Grow ratio", "Shrink ratio", "Quit", "Help", "Switch theme", "Switch layout", "Panel actions",
        "Go to panel", "Top", "Bottom", "Function keys",
    ];
    HelpLabels {
        header: "Help".into(),
        section_global: "Global Shortcuts".into(),
        section_panel: "Panel Shortcuts".into(),
        descriptions: descriptions.iter().map(|d| d.to_string()).collect(),
    }
}

#[test]
fn test_help_panel_content_no_context() {
    let content = HelpPanel::content(None, &vec![], &labels()).join("\n");
    assert!(content.contains("Help"));
    assert!(content.contains("Global Shortcuts"));
    assert!(content.contains("Tab"));
    assert!(content.contains("Shift+Tab"));
    assert!(content.contains("q / Esc"));
    assert!(content.contains("F1-F8"));
    assert!(content.contains("Switch theme"));
    assert!(content.contains("Switch layout"));
    assert!(content.contains("Chimera CLI NEXUS-OMEGA"));
    assert!(!content.contains("Panel Shortcuts"));
}

#[test]
fn test_help_panel_content_with_context() {
    let panel_shortcuts = vec![("↑/↓", "Navigate"), ("Enter", "Detail"), ("/", "Search")];
    let content = HelpPanel::content(Some("Quest"), &panel_shortcuts, &labels()).join("\n");
    assert!(content.contains("Help"));
    assert!(content.contains("Global Shortcuts"));
    assert!(content.contains("Panel Shortcuts"));
    assert!(content.contains("Quest"));
    assert!(content.contains("Navigate"));
    assert!(content.contains("Detail"));
    assert!(content.contains("Search"));
}

#[test]
fn test_help_panel_content_with_context_empty_shortcuts() {
    let content = HelpPanel::content(Some("Budget"), &vec![], &labels()).join("\n");
    assert!(content.contains("Global Shortcuts"));
    assert!(!content.contains("Panel Shortcuts"));
}

#[test]
fn help_lines_are_column_aligned() {
    let lines = HelpPanel::content(Some("Quest"), &vec![("↑/↓", "Navigate")], &labels());
    assert_eq!(lines[5], "  Tab              - Next panel");
    assert_eq!(lines.len(), 5 + 18 + 4 + 3 + 1 + 2);
    assert_eq!(lines[5 + 18 + 4 + 1], "Panel Shortcuts — Quest");
    assert_eq!(lines[5 + 18 + 4 + 3], "  ↑/↓              - Navigate");
    assert_eq!(global_shortcut_keys().len(), 18);
}
