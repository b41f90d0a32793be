use chimera_tui::panels::injection_strategy::{InjectionCardView, InjectionSnapshot, InjectionStrategyPanel};
use chimera_tui::text::{LineTone, ToneLine};
use chimera_tui::types::PanelId;

fn text(lines: &[ToneLine]) -> String {
    lines.iter().map(|l| l.text.clone()).collect::<Vec<_>>().join("\n")
}

fn card(scene: &str, content: &str) -> InjectionCardView {
    InjectionCardView { card_type: "Preference".to_string(), scene: scene.to_string(), content: content.to_string() }
}

fn hit_rate_text(rate: f32) -> String {
    format!("{:.1}", rate.clamp(0.0, 1.0) * 100.0)
}

#[test]
fn injection_strategy_panel_id_semantics() {
    let panel = InjectionStrategyPanel::new();
    assert_eq!(panel.id(), PanelId::InjectionStrategy);
}

#[test]
fn injection_strategy_content_awaiting_when_no_provider() {
    let content = text(&InjectionStrategyPanel::content(None, ""));
    assert!(content.contains("Awaiting injection snapshot provider..."));
}

#[test]
fn content_renders_three_sections() {
    let snap = InjectionSnapshot {
        dynamic_cards: vec![card("coding", "prefer rust")],
        persona_summary: Some("Senior Rust engineer".to_string()),
        token_savings: 1234,
    };
    let content = text(&InjectionStrategyPanel::content(Some(&snap), &hit_rate_text(0.75)));
    assert!(content.contains("[Preference] coding: prefer rust"));
    assert!(content.contains("Senior Rust engineer"));
    assert!(content.contains("Cache hit rate: 75.0%"));
    assert!(content.contains("Token savings: 1234"));
}

#[test]
fn persona_none_honest_message() {
    let snap = InjectionSnapshot::default();
    let content = text(&InjectionStrategyPanel::content(Some(&snap), &hit_rate_text(0.0)));
    assert!(content.contains("No dynamic cards."));
    assert!(content.contains("None"));
}

#[test]
fn at_most_six_cards_and_tones() {
    let cards: Vec<InjectionCardView> = (0..9).map(|i| card(&format!("s{i}"), "c")).collect();
    let snap = InjectionSnapshot { dynamic_cards: cards, persona_summary: None, token_savings: 7 };
    let lines = InjectionStrategyPanel::content(Some(&snap), "12.5");
    let texts: Vec<&str> = lines.iter().map(|l| l.text.as_str()).collect();
    assert_eq!(texts[2], "Dynamic cards (before user msg):");
    assert_eq!(lines[2].tone, LineTone::Emphasis);
    assert_eq!(texts[3], "  [Preference] s0: c");
    assert_eq!(texts[8], "  [Preference] s5: c");
    assert_eq!(texts[9], "");
    assert_eq!(texts[11], "  None");
    assert_eq!(lines[11].tone, LineTone::Muted);
    assert_eq!(texts[14], "  Cache hit rate: 12.5% | Token savings: 7");
    assert_eq!(lines.len(), 16);
}
