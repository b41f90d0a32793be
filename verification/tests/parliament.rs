use chimera_tui::events::{EventKind, EventView};
use chimera_tui::input::{KeyCode, KeyEvent};
use chimera_tui::panels::parliament::{parliament_events, ParliamentLabels, ParliamentPanel};
use chimera_tui::text::{LineTone, ToneLine};
use chimera_tui::types::{PanelId, TuiCommand};

fn labels() -> ParliamentLabels {
    ParliamentLabels {
        body_title: "议会事件".into(),
        no_events: "暂无近期议会事件".into(),
        detection: "检出率".into(),
        vote_for: "赞成".into(),
        vote_against: "反对".into(),
        failed: "失败".into(),
        governance: "治理态势".into(),
        no_data: "无数据".into(),
        coordination: "协调成本".into(),
        gain: "推理增益".into(),
        cap: "策略封顶".into(),
    }
}

fn vote(i: usize) -> EventView {
    EventView {
        kind: EventKind::VoteCast { proposal_id: format!("p{i}"), voter: "alice".into(), vote: i % 2 == 0 },
        variant: "VoteCast".into(),
        source: "test".into(),
        timestamp_ms: 1_700_000_000_000,
        critical: false,
        json: None,
    }
}

fn votes(n: usize) -> Vec<EventView> {
    (0..n).map(vote).collect()
}

fn text(lines: &[ToneLine]) -> String {
    lines.iter().map(|l| l.text.clone()).collect::<Vec<_>>().join("\n")
}

fn sentinel() -> Vec<ToneLine> {
    vec![ToneLine { text: "SENTINEL-CACHE-HIT".into(), tone: LineTone::Plain }]
}

#[test]
fn test_parliament_panel_id() {
    assert_eq!(ParliamentPanel::new().id(), PanelId::Parliament);
}

#[test]
fn test_parliament_panel_empty_state() {
    let c = text(&ParliamentPanel::content(&vec![], &vec![], &labels(), 0, (0, 50)));
    assert!(c.contains("议会"));
    assert!(c.contains("暂无近期议会事件"));
}

#[test]
fn test_parliament_panel_no_panic_on_unknown_event() {
    let events = vec![
        EventView {
            kind: EventKind::CacheHit { cache_key: "k1".into() },
            variant: "CacheHit".into(),
            source: "test".into(),
            timestamp_ms: 0,
            critical: false,
            json: None,
        },
        vote(0),
    ];
    let order = parliament_events(&events);
    assert_eq!(order, vec![1]);
    let c = text(&ParliamentPanel::content(&events, &order, &labels(), 0, (0, 50)));
    assert!(c.contains("ParliamentVoteCast"));
    assert!(!c.contains("CacheHit"));
    assert!(c.contains("> [ParliamentVoteCast] p0 | alice: 赞成"));
}

#[test]
fn test_parliament_panel_navigation() {
    let mut panel = ParliamentPanel::new();
    panel.handle_key(KeyEvent::new(KeyCode::Down), 2);
    assert_eq!(panel.selected(), 1);
    panel.handle_key(KeyEvent::new(KeyCode::Up), 2);
    assert_eq!(panel.selected(), 0);
}

#[test]
fn test_parliament_panel_detail_popup() {
    let mut panel = ParliamentPanel::new();
    let cmd = panel.handle_key(KeyEvent::new(KeyCode::Enter), 1);
    assert_eq!(cmd, Some(TuiCommand::OpenEventDetail { index: 0 }));
    let mut empty = ParliamentPanel::new();
    assert_eq!(empty.handle_key(KeyEvent::new(KeyCode::Enter), 0), None);
}

#[test]
fn parliament_render_reuses_cached_text_when_key_unchanged() {
    let events = votes(2);
    let mut panel = ParliamentPanel::new();
    panel.render(&events, &labels(), 1, 0, 20);
    panel.set_cached_text(sentinel());
    let second = panel.render(&events, &labels(), 1, 0, 20);
    assert!(text(&second).contains("SENTINEL-CACHE-HIT"));
}

#[test]
fn parliament_render_invalidates_on_revision_change() {
    let events = votes(2);
    let mut panel = ParliamentPanel::new();
    panel.render(&events, &labels(), 1, 0, 20);
    panel.set_cached_text(sentinel());
    let second = text(&panel.render(&events, &labels(), 2, 0, 20));
    assert!(!second.contains("SENTINEL-CACHE-HIT") && second.contains("ParliamentVoteCast"));
}

#[test]
fn parliament_render_invalidates_on_selection_change() {
    let events = votes(2);
    let mut panel = ParliamentPanel::new();
    panel.render(&events, &labels(), 1, 0, 20);
    panel.set_cached_text(sentinel());
    panel.handle_key(KeyEvent::new(KeyCode::Down), 2);
    let second = text(&panel.render(&events, &labels(), 1, 0, 20));
    assert!(!second.contains("SENTINEL-CACHE-HIT"));
}

#[test]
fn parliament_render_invalidates_on_window_change() {
    let events = votes(20);
    let mut panel = ParliamentPanel::new();
    panel.render(&events, &labels(), 1, 0, 20);
    panel.set_cached_text(sentinel());
    let second = text(&panel.render(&events, &labels(), 1, 0, 6));
    assert!(!second.contains("SENTINEL-CACHE-HIT"));
}

#[test]
fn parliament_render_invalidates_on_locale_change() {
    let events = votes(2);
    let mut panel = ParliamentPanel::new();
    panel.render(&events, &labels(), 1, 0, 20);
    panel.set_cached_text(sentinel());
    if let Some(mut simulated) = panel.cached_key() {
        simulated.locale ^= 1;
        panel.set_cached_key(Some(simulated));
    }
    let second = text(&panel.render(&events, &labels(), 1, 0, 20));
    assert!(!second.contains("SENTINEL-CACHE-HIT"));
}

#[test]
fn parliament_render_disables_cache_at_revision_zero() {
    let events = votes(1);
    let mut panel = ParliamentPanel::new();
    panel.render(&events, &labels(), 0, 0, 20);
    panel.set_cached_text(sentinel());
    let second = text(&panel.render(&events, &labels(), 0, 0, 20));
    assert!(!second.contains("SENTINEL-CACHE-HIT"));
}

#[test]
fn governance_line_shows_real_coordination_and_cap() {
    let spans = ParliamentPanel::governance_line(
        &Some(("12.3".to_string(), "78.0%".to_string())),
        &Some("full".to_string()),
        &labels(),
    );
    let t = text(&spans);
    assert!(t.contains("12.3"));
    assert!(t.contains("78"));
    assert!(t.contains("full"));
    assert_eq!(spans.last().unwrap().tone, LineTone::Good);
}

#[test]
fn governance_line_shows_no_data_when_events_absent() {
    let t = text(&ParliamentPanel::governance_line(&None, &None, &labels()));
    assert!(!t.contains("0.0ms"));
    assert!(!t.contains("full") && !t.contains("simplified"));
    assert!(t.contains("无数据"));
}

#[test]
fn partial_arrival_renders_only_present_section() {
    let spans = ParliamentPanel::governance_line(&None, &Some("simplified".to_string()), &labels());
    let t = text(&spans);
    assert!(t.contains("simplified"));
    assert!(!t.contains("ms"));
    assert_eq!(spans.last().unwrap().tone, LineTone::Warning);
}

#[test]
fn immune_probe_is_marked_unwired_not_faked() {
    let t = text(&ParliamentPanel::governance_line(&None, &None, &labels()));
    assert!(!t.contains("Mem=") && !t.contains("Cascade="));
}

#[test]
fn parliament_rows_per_kind() {
    let ev = |kind: EventKind| EventView {
        kind,
        variant: String::new(),
        source: "s".into(),
        timestamp_ms: 0,
        critical: false,
        json: None,
    };
    let events = vec![
        ev(EventKind::AsaIntervention { operation_id: "op1".into(), action: "Block".into(), block_reason: Some(String::new()) }),
        ev(EventKind::AhirtProbeCompleted { probe_type: "jailbreak".into(), total: 10, failed: 3 }),
        ev(EventKind::SkepticVeto { quest_id: "q1".into(), veto_reason: "unsafe".into() }),
    ];
    let order = parliament_events(&events);
    assert_eq!(order, vec![2, 1, 0]);
    let lines = ParliamentPanel::content(&events, &order, &labels(), 0, (0, 3));
    assert_eq!(lines[2].text, "> [SkepticVeto] q1 | unsafe");
    assert_eq!(lines[2].tone, LineTone::Highlight);
    assert_eq!(lines[3].text, "  [AhirtProbeCompleted] jailbreak | 失败=3/10");
    assert_eq!(lines[4].text, "  [AsaIntervention] op1 | Block");
    assert_eq!(lines[4].tone, LineTone::Warning);
}
