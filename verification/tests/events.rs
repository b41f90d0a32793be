use chimera_tui::events::{
    event_keyword_hit_fast, event_matches_level, event_matches_topic, event_search_text, event_severity_rank,
    EventFilter, EventKind, EventView,
};
use chimera_tui::input::{KeyCode, KeyEvent};
use chimera_tui::panels::event_stream::EventStreamPanel;
use chimera_tui::panels::filter_cache::FilterCache;
use chimera_tui::panels::log::{LogLabels, LogPanel};
use chimera_tui::panels::parliament::{ParliamentLabels, ParliamentPanel};
use chimera_tui::text::{LineTone, ToneLine};
use chimera_tui::types::TuiCommand;

fn cache_hit(key: &str) -> EventView {
    EventView {
        kind: EventKind::CacheHit { cache_key: key.into() },
        variant: "CacheHit".into(),
        source: "scc-cache".into(),
        timestamp_ms: 1_700_000_000_000,
        critical: false,
        json: Some(format!("{{\"CacheHit\":{{\"metadata\":{{\"source\":\"scc-cache\"}},\"cache_key\":\"{key}\"}}}}")),
    }
}

fn cache_miss(key: &str) -> EventView {
    EventView {
        kind: EventKind::CacheMiss { cache_key: key.into() },
        variant: "CacheMiss".into(),
        ..cache_hit(key)
    }
}

fn budget_exceeded() -> EventView {
    EventView {
        kind: EventKind::BudgetExceeded,
        variant: "BudgetExceeded".into(),
        source: "decb-governor".into(),
        timestamp_ms: 1_700_000_001_000,
        critical: true,
        json: Some("{\"BudgetExceeded\":{\"budget_type\":\"token\",\"current\":9500,\"limit\":10000}}".into()),
    }
}

fn skeptic_veto() -> EventView {
    EventView {
        kind: EventKind::SkepticVeto { quest_id: "q1".into(), veto_reason: "unsafe".into() },
        variant: "SkepticVeto".into(),
        source: "parliament".into(),
        timestamp_ms: 1_700_000_002_000,
        critical: false,
        json: None,
    }
}

fn no_filter() -> EventFilter {
    EventFilter { keyword: None, topic: None, level: None }
}

fn text(lines: &[ToneLine]) -> String {
    lines.iter().map(|l| l.text.clone()).collect::<Vec<_>>().join("\n")
}

fn log_labels() -> LogLabels {
    LogLabels {
        body_title: "系统日志".into(),
        no_matching: "暂无匹配事件".into(),
        showing: "显示".into(),
        of: "/".into(),
        events: "条事件".into(),
    }
}

#[test]
fn test_event_stream_panel_handle_key_returns_none_for_unmapped() {
    let mut panel = EventStreamPanel::new();
    let mut auto = true;
    assert!(panel.handle_key(KeyEvent::new(KeyCode::Tab), 0, &mut auto).is_none());
}

#[test]
fn test_event_stream_panel_empty_state() {
    let c = text(&EventStreamPanel::content(&vec![], &no_filter(), true, 0));
    assert!(c.contains("No events"));
}

#[test]
fn test_event_stream_panel_renders_events() {
    let events = vec![cache_hit("k1"), budget_exceeded()];
    let c = text(&EventStreamPanel::content(&events, &no_filter(), true, 0));
    assert!(c.contains("CacheHit"));
    assert!(c.contains("BudgetExceeded"));
}

#[test]
fn test_event_stream_panel_filter_keyword() {
    let events = vec![cache_hit("alpha"), cache_miss("beta")];
    let f = EventFilter { keyword: Some("alpha".into()), ..no_filter() };
    let filtered = EventStreamPanel::filtered_events(&events, &f);
    assert_eq!(filtered.len(), 1);
    assert_eq!(events[filtered[0]].variant, "CacheHit");
}

#[test]
fn test_event_stream_panel_filter_topic() {
    let events = vec![cache_hit("k1"), skeptic_veto()];
    let f = EventFilter { topic: Some("security".into()), ..no_filter() };
    let filtered = EventStreamPanel::filtered_events(&events, &f);
    assert_eq!(filtered.len(), 1);
    assert_eq!(events[filtered[0]].variant, "SkepticVeto");
}

#[test]
fn test_event_stream_panel_filter_level_critical() {
    let events = vec![cache_hit("k1"), budget_exceeded()];
    let f = EventFilter { level: Some("critical".into()), ..no_filter() };
    let filtered = EventStreamPanel::filtered_events(&events, &f);
    assert_eq!(filtered.len(), 1);
    assert_eq!(events[filtered[0]].variant, "BudgetExceeded");
}

#[test]
fn test_event_stream_panel_navigation_disables_auto_scroll() {
    let mut panel = EventStreamPanel::new();
    let mut auto = true;
    panel.handle_key(KeyEvent::new(KeyCode::Down), 2, &mut auto);
    assert!(!auto);
    assert_eq!(panel.selected(), 1);
}

#[test]
fn test_event_stream_panel_shift_g_restores_auto_scroll() {
    let mut panel = EventStreamPanel::new();
    let mut auto = false;
    panel.handle_key(KeyEvent::new(KeyCode::Char('G')), 3, &mut auto);
    assert!(auto);
    assert_eq!(panel.selected(), 2);
}

#[test]
fn test_event_stream_panel_detail_popup() {
    let mut panel = EventStreamPanel::new();
    let mut auto = true;
    let cmd = panel.handle_key(KeyEvent::new(KeyCode::Enter), 1, &mut auto);
    assert_eq!(cmd, Some(TuiCommand::OpenEventDetail { index: 0 }));
}

#[test]
fn test_event_stream_panel_help_key_returns_none() {
    let mut panel = EventStreamPanel::new();
    let mut auto = true;
    assert_eq!(panel.handle_key(KeyEvent::new(KeyCode::Char('?')), 0, &mut auto), None);
}

#[test]
fn test_event_stream_panel_new_events_indicator() {
    let events = vec![cache_hit("k1"), cache_miss("k2"), cache_hit("k3")];
    let lines = EventStreamPanel::content(&events, &no_filter(), false, 0);
    assert!(text(&lines).contains("新事件"));
    assert_eq!(lines[2].text, "[新事件 2 条] 按 G 跟随");
    assert_eq!(lines[2].tone, LineTone::Notice);
}

#[test]
fn event_stream_rows_exact_text_and_tones() {
    let events = vec![cache_hit("k1"), budget_exceeded()];
    let lines = EventStreamPanel::content(&events, &no_filter(), true, 0);
    assert_eq!(lines[0].text, "Event Stream");
    assert_eq!(lines[2].text, "> 22:13:20 [scc-cache] CacheHit");
    assert_eq!(lines[2].tone, LineTone::Highlight);
    assert_eq!(lines[3].text, "  22:13:21 [decb-governor] BudgetExceeded");
    assert_eq!(lines[3].tone, LineTone::Alert);
    assert_eq!(lines.len(), 5);
}

#[test]
fn test_log_panel_empty_state() {
    let c = text(&LogPanel::content(&vec![], &no_filter(), &log_labels(), 0));
    assert!(c.contains("系统日志"));
    assert!(c.contains("暂无匹配事件"));
}

#[test]
fn test_log_panel_renders_events() {
    let events = vec![cache_hit("k1"), budget_exceeded()];
    let c = text(&LogPanel::content(&events, &no_filter(), &log_labels(), 0));
    assert!(c.contains("CacheHit"));
    assert!(c.contains("BudgetExceeded"));
}

#[test]
fn test_log_panel_filter_keyword() {
    let events = vec![cache_hit("alpha"), cache_miss("beta")];
    let f = EventFilter { keyword: Some("alpha".into()), ..no_filter() };
    let filtered = LogPanel::filtered_events(&events, &f);
    assert_eq!(filtered.len(), 1);
    assert_eq!(events[filtered[0]].variant, "CacheHit");
}

#[test]
fn test_log_panel_filter_topic() {
    let events = vec![cache_hit("k1"), skeptic_veto()];
    let f = EventFilter { topic: Some("security".into()), ..no_filter() };
    let filtered = LogPanel::filtered_events(&events, &f);
    assert_eq!(filtered.len(), 1);
    assert_eq!(events[filtered[0]].variant, "SkepticVeto");
}

#[test]
fn test_log_panel_filter_level() {
    let events = vec![cache_hit("k1"), budget_exceeded()];
    let f = EventFilter { level: Some("critical".into()), ..no_filter() };
    let filtered = LogPanel::filtered_events(&events, &f);
    assert_eq!(filtered.len(), 1);
    assert_eq!(events[filtered[0]].variant, "BudgetExceeded");
}

#[test]
fn test_log_panel_navigation() {
    let mut panel = LogPanel::new();
    panel.handle_key(KeyEvent::new(KeyCode::Down), 2);
    assert_eq!(panel.selected(), 1);
    panel.handle_key(KeyEvent::new(KeyCode::Up), 2);
    assert_eq!(panel.selected(), 0);
}

#[test]
fn test_log_panel_detail_popup() {
    let mut panel = LogPanel::new();
    let cmd = panel.handle_key(KeyEvent::new(KeyCode::Enter), 1);
    assert_eq!(cmd, Some(TuiCommand::OpenEventDetail { index: 0 }));
}

#[test]
fn test_log_panel_windowed_content_skips_out_of_window_events() {
    let events: Vec<EventView> = (0..200).map(|i| cache_hit(&format!("key-{i}"))).collect();
    let lines = LogPanel::content(&events, &no_filter(), &log_labels(), 0);
    let c = text(&lines);
    assert!(!c.contains("key-50"));
    assert!(c.contains("显示"));
    assert!(c.contains("200"));
    assert_eq!(lines.len(), 2 + 25 + 1 + 2);
}

#[test]
fn test_log_filter_cache_hits_and_invalidates() {
    let mut panel = LogPanel::new();
    let mut events = vec![cache_hit("alpha-1"), cache_hit("beta-2"), cache_hit("alpha-3")];
    let mut f = EventFilter { keyword: Some("alpha".into()), ..no_filter() };
    let first = panel.filtered_events_cached(&events, 1, 1, &f);
    assert_eq!(first.len(), 2);
    match &events[first[0]].kind {
        EventKind::CacheHit { cache_key } => assert_eq!(cache_key, "alpha-3"),
        other => panic!("expected CacheHit, got {other:?}"),
    }
    let second = panel.filtered_events_cached(&events, 1, 1, &f);
    assert_eq!(second.len(), 2);
    f.keyword = Some("beta".into());
    let third = panel.filtered_events_cached(&events, 1, 1, &f);
    assert_eq!(third.len(), 1);
    f.keyword = Some("alpha".into());
    events.push(cache_hit("alpha-4"));
    let fourth = panel.filtered_events_cached(&events, 2, 2, &f);
    assert_eq!(fourth.len(), 3);
}

#[test]
fn log_cache_is_off_before_first_snapshot() {
    let mut panel = LogPanel::new();
    let events = vec![cache_hit("alpha-1")];
    let f = EventFilter { keyword: Some("alpha".into()), ..no_filter() };
    assert_eq!(panel.filtered_events_cached(&events, 7, 0, &f), vec![0]);
    assert!(panel.filter_cache().indices().is_empty());
}

#[test]
fn cache_hit_matches_key_value_case_insensitive() {
    assert_eq!(event_keyword_hit_fast(&cache_hit("alpha-key"), "ALPHA"), Some(true));
    assert_eq!(event_keyword_hit_fast(&cache_hit("alpha-key"), "alpha"), Some(true));
}

#[test]
fn cache_hit_matches_source_or_type_name() {
    assert_eq!(event_keyword_hit_fast(&cache_hit("k1"), "scc"), Some(true));
    assert_eq!(event_keyword_hit_fast(&cache_hit("k1"), "cachehit"), Some(true));
}

#[test]
fn cache_hit_miss_is_fast_false() {
    assert_eq!(event_keyword_hit_fast(&cache_hit("k1"), "nonexistent"), Some(false));
}

#[test]
fn unknown_variant_falls_back_to_none() {
    assert_eq!(event_keyword_hit_fast(&budget_exceeded(), "token"), None);
}

#[test]
fn fast_hit_implies_slow_hit_equivalence() {
    let event = cache_hit("alpha-key");
    if let Some(true) = event_keyword_hit_fast(&event, "alpha") {
        assert!(event_search_text(&event).to_lowercase().contains("alpha"));
    }
}

#[test]
fn topic_level_and_rank_tables() {
    assert!(event_matches_topic(&EventKind::CacheHit { cache_key: "k".into() }, "MEMORY"));
    assert!(!event_matches_topic(&EventKind::CacheHit { cache_key: "k".into() }, "quest"));
    assert!(event_matches_topic(&EventKind::SlowConsumerDropped, "health"));
    assert!(event_matches_topic(&EventKind::SlowConsumerDropped, "system"));
    assert!(event_matches_topic(&EventKind::Other, "anything-else"));
    let asa = |action: &str| EventView {
        kind: EventKind::AsaIntervention { operation_id: "op".into(), action: action.into(), block_reason: None },
        variant: "AsaIntervention".into(),
        ..skeptic_veto()
    };
    assert_eq!(event_severity_rank(&asa("Warn")), 1);
    assert_eq!(event_severity_rank(&asa("Block")), 0);
    assert_eq!(event_severity_rank(&budget_exceeded()), 3);
    assert!(event_matches_level(&asa("Warn"), "WARN"));
    assert!(!event_matches_level(&asa("Warn"), "error"));
    assert!(event_matches_level(&cache_hit("k"), "info"));
}

#[test]
fn keyed_on_events_identity_not_revision() {
    let mut cache = FilterCache::new();
    let kw = Some("alpha".to_string());
    cache.update(10, &kw, &None, &None, vec![2, 0]);
    assert!(FilterCache::enabled(2));
    assert!(cache.matches(10, &kw, &None, &None));
    assert_eq!(cache.indices(), &vec![2, 0]);
}

#[test]
fn invalidates_on_event_set_replacement() {
    let mut cache = FilterCache::new();
    let kw = Some("alpha".to_string());
    cache.update(10, &kw, &None, &None, vec![0]);
    assert!(cache.matches(10, &kw, &None, &None));
    assert!(!cache.matches(11, &kw, &None, &None));
}

#[test]
fn invalidates_on_filter_change() {
    let mut cache = FilterCache::new();
    let kw = Some("alpha".to_string());
    cache.update(10, &kw, &None, &None, vec![0]);
    assert!(cache.matches(10, &kw, &None, &None));
    assert!(!cache.matches(10, &Some("beta".to_string()), &None, &None));
}

#[test]
fn indices_map_into_replaced_container() {
    let events = vec![cache_hit("alpha-1"), cache_hit("beta-2"), cache_hit("alpha-3")];
    let mut cache = FilterCache::new();
    cache.update(10, &Some("alpha".to_string()), &None, &None, vec![0, 2]);
    let got: Vec<String> = cache
        .indices()
        .iter()
        .map(|&i| match &events[i].kind {
            EventKind::CacheHit { cache_key } => cache_key.clone(),
            _ => String::new(),
        })
        .collect();
    assert_eq!(got, vec!["alpha-1".to_string(), "alpha-3".to_string()]);
}

#[test]
fn log_lists_stream_events_newest_first_without_keyword() {
    let events = vec![cache_hit("a"), skeptic_veto(), budget_exceeded(), cache_miss("b")];
    let f = EventFilter { topic: Some("memory".into()), ..no_filter() };
    let mut stream = EventStreamPanel::filtered_events(&events, &f);
    stream.reverse();
    assert_eq!(LogPanel::filtered_events(&events, &f), stream);
    assert_eq!(stream, vec![3, 0]);
}

#[test]
fn repeated_frames_are_served_from_cache() {
    let labels = ParliamentLabels {
        body_title: "t".into(),
        no_events: "n".into(),
        detection: "d".into(),
        vote_for: "y".into(),
        vote_against: "n".into(),
        failed: "f".into(),
        governance: "g".into(),
        no_data: "-".into(),
        coordination: "c".into(),
        gain: "g".into(),
        cap: "k".into(),
    };
    let events = vec![skeptic_veto(), cache_hit("x")];
    let mut panel = ParliamentPanel::new();
    let first = panel.render(&events, &labels, 3, 1, 12);
    let key = panel.cached_key();
    let second = panel.render(&events, &labels, 3, 1, 12);
    assert_eq!(first, second);
    assert_eq!(panel.cached_key(), key);
}

#[test]
fn event_rows_floor_the_instant_to_whole_seconds_of_the_day() {
    let mut before_epoch = cache_hit("k");
    before_epoch.timestamp_ms = -1;
    let mut late = cache_hit("k");
    late.timestamp_ms = 86_399_999;
    let lines = EventStreamPanel::content(&vec![before_epoch, late], &no_filter(), true, 0);
    assert_eq!(lines[2].text, "> 23:59:59 [scc-cache] CacheHit");
    assert_eq!(lines[3].text, "  23:59:59 [scc-cache] CacheHit");
}

#[test]
fn new_event_stream_equals_default() {
    let p = EventStreamPanel::new();
    assert_eq!(p, EventStreamPanel::default());
    assert_eq!(p.selected(), 0);
    assert_eq!(p.scroll_offset(), 0);
}
