use chimera_tui::events::{EventKind, EventView};
use chimera_tui::panels::self_assessment::SelfAssessmentPanel;
use chimera_tui::text::{LineTone, ToneLine};

fn ev(kind: EventKind) -> EventView {
    EventView { kind, variant: String::new(), source: "test".into(), timestamp_ms: 0, critical: false, json: None }
}

fn finding(severity: &str, message: &str, evidence: &str) -> EventView {
    ev(EventKind::AuditFindingRaised {
        finding_severity: severity.into(),
        message: message.into(),
        evidence_kind: evidence.into(),
    })
}

fn text(lines: &[ToneLine]) -> String {
    lines.iter().map(|l| l.text.clone()).collect::<Vec<_>>().join("\n")
}

fn dim(text: &str) -> ToneLine {
    ToneLine { text: text.into(), tone: LineTone::Plain }
}

#[test]
fn test_content_awaiting_when_no_report() {
    let events: Vec<EventView> = vec![];
    let content = text(&SelfAssessmentPanel::content(&events, &vec![]));
    assert!(content.contains("Awaiting first HarnessReportGenerated"));
    assert!(content.contains("No findings yet."));
    assert_eq!(SelfAssessmentPanel::latest_report(&events), None);
}

#[test]
fn content_lays_out_heading_report_and_findings() {
    let events = vec![
        ev(EventKind::HarnessReportGenerated { findings_count: 0 }),
        ev(EventKind::HarnessReportGenerated { findings_count: 2 }),
        finding("medium", "能力 'x' 已配置但运行时从未使用", "static_only"),
    ];
    let dims = vec![dim("Comprehension [################    ] 80%"), dim("Execution [############        ] 60%")];
    let lines = SelfAssessmentPanel::content(&events, &dims);
    let texts: Vec<&str> = lines.iter().map(|l| l.text.as_str()).collect();
    assert_eq!(
        texts,
        vec![
            "Harness Self Assessment (Qoder 5-Dim)",
            "──────────────────────────────────────",
            "Comprehension [################    ] 80%",
            "Execution [############        ] 60%",
            "Findings in report: 2",
            "",
            "Recent Findings",
            "──────────────────────────────────────",
            "[medium] 能力 'x' 已配置但运行时从未使用",
        ]
    );
    assert_eq!(lines[8].tone, LineTone::Warning);
    let t = text(&lines);
    assert!(t.contains("80%"));
    assert!(!t.contains("Awaiting"));
}

#[test]
fn content_without_report_shows_waiting_line_muted() {
    let events = vec![finding("high", "boom", "static_only")];
    let lines = SelfAssessmentPanel::content(&events, &vec![dim("ignored")]);
    assert_eq!(lines.len(), 2 + 1 + 3 + 1);
    assert_eq!(lines[2].text, "Awaiting first HarnessReportGenerated...");
    assert_eq!(lines[2].tone, LineTone::Muted);
    assert_eq!(lines[6].text, "[high] boom");
    assert!(!text(&lines).contains("ignored"));
}

#[test]
fn test_content_renders_latest_report_and_findings() {
    let events = vec![
        ev(EventKind::HarnessReportGenerated { findings_count: 0 }),
        ev(EventKind::HarnessReportGenerated { findings_count: 2 }),
        finding("medium", "能力 'x' 已配置但运行时从未使用", "static_only"),
    ];
    let latest = SelfAssessmentPanel::latest_report(&events).unwrap();
    assert_eq!(latest, 1);
    match &events[latest].kind {
        EventKind::HarnessReportGenerated { findings_count } => {
            assert_eq!(SelfAssessmentPanel::report_findings_line(*findings_count), "Findings in report: 2");
        }
        _ => panic!("expected a report"),
    }
    let section = SelfAssessmentPanel::findings_section(&events);
    let t = text(&section);
    assert!(t.contains("[medium]"));
    assert!(t.contains("已配置但运行时从未使用"));
    assert_eq!(section[3].tone, LineTone::Warning);
}

#[test]
fn findings_newest_first_capped_and_toned() {
    let mut events: Vec<EventView> = (0..7).map(|i| finding("low", &format!("m{i}"), "static_only")).collect();
    events.push(finding("high", "boom", "static_only"));
    events.push(finding("low", "seen", "runtime_events"));
    let section = SelfAssessmentPanel::findings_section(&events);
    assert_eq!(section.len(), 3 + 5);
    assert_eq!(section[3].text, "[low] seen");
    assert_eq!(section[3].tone, LineTone::Good);
    assert_eq!(section[4].text, "[high] boom");
    assert_eq!(section[4].tone, LineTone::Alert);
    assert_eq!(section[7].text, "[low] m4");
    assert_eq!(section[7].tone, LineTone::Plain);
}
