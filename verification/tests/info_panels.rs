use chimera_tui::panels::health::HealthPanel;
use chimera_tui::panels::memory::MemoryPanel;
use chimera_tui::panels::mcp_nodes::{McpNodesPanel, NodeStatus};
use chimera_tui::popup::Severity;
use chimera_tui::render::FOOTER_TEXT;
use chimera_tui::text::{LineTone, ToneLine};
use chimera_tui::types::PanelId;

fn text(lines: &[ToneLine]) -> String {
    lines.iter().map(|l| l.text.clone()).collect::<Vec<_>>().join("\n")
}

#[test]
fn test_health_panel_renders_metrics() {
    let events_per_second = 42.0f64;
    let average_latency_ms = 15.5f64;
    let lines = HealthPanel::info_lines(
        &format!("{:.1}", events_per_second),
        1,
        &format!("{:.1}", average_latency_ms),
        0,
        0,
        90,
    );
    let content = text(&lines);
    assert!(content.contains("42.0"));
    assert!(content.contains("1"));
    assert!(content.contains("15.5 ms"));
    assert!(content.contains("90"));
}

#[test]
fn test_health_panel_score_colors() {
    let lines = HealthPanel::info_lines("0.0", 0, "0.0", 0, 0, 30);
    let content = text(&lines);
    assert!(content.contains("30"));
}

#[test]
fn health_info_lines_exact() {
    let lines = HealthPanel::info_lines("3.5", 2, "7.0", 4, 1, 65);
    let texts: Vec<&str> = lines.iter().map(|l| l.text.as_str()).collect();
    assert_eq!(
        texts,
        vec![
            "Events/sec: 3.5",
            "Slow Consumers: 2",
            "Avg Latency: 7.0 ms",
            "Active Quests: 4",
            "Paused Quests: 1",
            "Health Score: 65",
            "",
            FOOTER_TEXT,
        ]
    );
    assert_eq!(lines[5].tone, LineTone::Warning);
}

#[test]
fn health_score_tone_thresholds() {
    assert_eq!(HealthPanel::health_score_tone(100), LineTone::Good);
    assert_eq!(HealthPanel::health_score_tone(80), LineTone::Good);
    assert_eq!(HealthPanel::health_score_tone(79), LineTone::Warning);
    assert_eq!(HealthPanel::health_score_tone(50), LineTone::Warning);
    assert_eq!(HealthPanel::health_score_tone(49), LineTone::Alert);
    assert_eq!(HealthPanel::health_score_tone(0), LineTone::Alert);
}

#[test]
fn test_memory_panel_renders_metrics() {
    let hit_rate_percent = 87.5f64;
    let compressed_ratio = 0.72f64;
    let panel = MemoryPanel::new();
    let lines = MemoryPanel::info_lines(
        &format!("{:.1}", hit_rate_percent),
        12,
        4096,
        &format!("{:.1}", compressed_ratio * 100.0),
        120,
        18,
        "L1",
    );
    let content = text(&lines);
    assert!(content.contains("87.5%"));
    assert!(content.contains("4096 bytes"));
    assert!(content.contains("72.0%"));
    assert!(content.contains("L1"));
    assert_eq!(panel.id(), PanelId::Memory);
}

#[test]
fn memory_info_lines_exact() {
    let lines = MemoryPanel::info_lines("50.0", 3, 10, "25.0", 7, 9, "L2");
    let texts: Vec<&str> = lines.iter().map(|l| l.text.as_str()).collect();
    assert_eq!(
        texts,
        vec![
            "Cache Hit Rate: 50.0%",
            "Evictions: 3",
            "Context Window: 10 bytes",
            "Compressed Ratio: 25.0%",
            "Cache Hits: 7",
            "Cache Misses: 9",
            "Tier: L2",
            "",
            FOOTER_TEXT,
        ]
    );
    assert!(lines.iter().all(|l| l.tone == LineTone::Plain));
}

#[test]
fn mcp_status_tones() {
    assert_eq!(McpNodesPanel::status_tone(NodeStatus::Online), LineTone::Good);
    assert_eq!(McpNodesPanel::status_tone(NodeStatus::Degraded), LineTone::Warning);
    assert_eq!(McpNodesPanel::status_tone(NodeStatus::Offline), LineTone::Alert);
}

#[test]
fn severity_tones() {
    assert_eq!(Severity::Info.tone(), LineTone::Info);
    assert_eq!(Severity::Warning.tone(), LineTone::Warning);
    assert_eq!(Severity::Error.tone(), LineTone::Alert);
}
