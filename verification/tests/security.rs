use chimera_tui::panels::security::{AuditRowView, InterventionRowView};
use chimera_tui::text::LineTone;
use chimera_tui::panels::security::SecurityEntryKind;
use chimera_tui::input::{KeyCode, KeyEvent};
use chimera_tui::panels::security::SecurityPanel;
use chimera_tui::popup::PopupKind;
use chimera_tui::types::TuiCommand;

#[test]
fn test_security_panel_detail_popup() {
    let mut panel = SecurityPanel::new();
    let detail = Some((
        "Skeptic Veto Detail".to_string(),
        "Type: Skeptic Veto\nQuest: q1\nReason: unsafe\nFrozen capabilities: cap1".to_string(),
    ));
    let cmd = panel.handle_key(KeyEvent::new(KeyCode::Enter), 3, detail);
    match cmd {
        Some(TuiCommand::OpenPopup(PopupKind::Detail { title, content, .. })) => {
            assert!(title.contains("Veto"));
            assert!(content.contains("q1"));
        }
        _ => panic!("expected Detail popup command, got {:?}", cmd),
    }
}

#[test]
fn security_entries_located_in_list_order() {
    assert_eq!(SecurityPanel::locate_entry(0, 1, 1, 1), Some((SecurityEntryKind::Veto, 0)));
    assert_eq!(SecurityPanel::locate_entry(1, 1, 1, 1), Some((SecurityEntryKind::Audit, 0)));
    assert_eq!(SecurityPanel::locate_entry(2, 1, 1, 1), Some((SecurityEntryKind::Intervention, 0)));
    assert_eq!(SecurityPanel::locate_entry(3, 1, 1, 1), None);
    assert_eq!(SecurityPanel::locate_entry(2, 0, 0, 5), Some((SecurityEntryKind::Intervention, 2)));
}

#[test]
fn security_frozen_column_and_action_tones() {
    let lines = SecurityPanel::frozen_lines(&vec!["cap1".to_string()]);
    assert_eq!(lines[2].text, "• cap1");
    assert_eq!(SecurityPanel::frozen_lines(&vec![])[2].text, "None");
    assert_eq!(SecurityPanel::intervention_tone("Block"), LineTone::Alert);
    assert_eq!(SecurityPanel::intervention_tone("Warn"), LineTone::Warning);
    assert_eq!(SecurityPanel::intervention_tone("Allow"), LineTone::Good);
}

#[test]
fn security_rows_in_list_order_with_cursor() {
    let vetoes = vec![("q-1".to_string(), "unsafe plan".to_string())];
    let audits = vec![
        AuditRowView { vulnerability_type: "injection".into(), risk: "40".into(), detected: true },
        AuditRowView { vulnerability_type: "leak".into(), risk: "0".into(), detected: false },
    ];
    let interventions = vec![InterventionRowView { operation_id: "op-9".into(), action: "Warn".into(), score: "0.55".into() }];
    let rows = SecurityPanel::build_rows(&vetoes, &audits, &interventions, 2);
    assert_eq!(rows.len(), 4);
    assert_eq!(rows[0].prefix, "  ");
    assert_eq!(rows[0].tag, "[VETO]");
    assert_eq!(rows[0].tag_tone, LineTone::Alert);
    assert_eq!(rows[0].detail, " q-1 | unsafe plan");
    assert_eq!(rows[1].tag_tone, LineTone::Alert);
    assert_eq!(rows[1].detail, " injection | risk=40%");
    assert_eq!(rows[2].prefix, "> ");
    assert_eq!(rows[2].tag, "[AUDIT]");
    assert_eq!(rows[2].tag_tone, LineTone::Warning);
    assert_eq!(rows[3].tag, "[ASA]");
    assert_eq!(rows[3].tag_tone, LineTone::Warning);
    assert_eq!(rows[3].detail, " op-9 | Warn | score=0.55");
    let rows = SecurityPanel::build_rows(&vetoes, &audits, &interventions, 3);
    assert_eq!(rows[3].prefix, "> ");
    assert_eq!(rows[2].prefix, "  ");
}
