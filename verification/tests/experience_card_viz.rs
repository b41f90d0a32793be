use chimera_tui::panels::experience_card_viz::{ExperienceCardVizPanel, ExperienceCardVizStats};
use chimera_tui::text::{LineTone, ToneLine};
use chimera_tui::types::PanelId;

fn text(lines: &[ToneLine]) -> String {
    lines.iter().map(|l| l.text.clone()).collect::<Vec<_>>().join("\n")
}

fn dist(items: &[(&str, u32)]) -> Vec<(String, u32)> {
    items.iter().map(|(m, c)| (m.to_string(), *c)).collect()
}

fn scores(best: f32, average: f32) -> (String, String) {
    (format!("{best:.2}"), format!("{average:.2}"))
}

#[test]
fn experience_card_viz_panel_id_semantics() {
    let panel = ExperienceCardVizPanel::new();
    assert_eq!(panel.id(), PanelId::ExperienceCardViz);
}

#[test]
fn experience_card_viz_content_awaiting_when_no_provider() {
    let content = text(&ExperienceCardVizPanel::content(None, "", ""));
    assert!(content.contains("Awaiting stats provider..."));
}

#[test]
fn content_renders_stats_with_provider() {
    let stats = ExperienceCardVizStats {
        total_cards: 42,
        evaluated: 30,
        unique_errors: 5,
        method_distribution: dist(&[("Improve", 20), ("Draft", 15), ("Debug", 7)]),
    };
    let (best, average) = scores(0.92, 0.65);
    let content = text(&ExperienceCardVizPanel::content(Some(&stats), &best, &average));
    assert!(content.contains("Total: 42"));
    assert!(content.contains("Evaluated: 30"));
    assert!(content.contains("Unique errors: 5"));
    assert!(content.contains("Best score: 0.92"));
    assert!(content.contains("Average score: 0.65"));
}

#[test]
fn method_distribution_sorted_desc() {
    let stats = ExperienceCardVizStats {
        method_distribution: dist(&[("Draft", 5), ("Improve", 20)]),
        ..Default::default()
    };
    let (best, average) = scores(0.0, 0.0);
    let content = text(&ExperienceCardVizPanel::content(Some(&stats), &best, &average));
    let improve_pos = content.find("Improve").expect("Improve 存在");
    let draft_pos = content.find("Draft").expect("Draft 存在");
    assert!(improve_pos < draft_pos, "计数降序排列");
}

#[test]
fn empty_distribution_honest_message() {
    let stats = ExperienceCardVizStats::default();
    let (best, average) = scores(0.0, 0.0);
    let content = text(&ExperienceCardVizPanel::content(Some(&stats), &best, &average));
    assert!(content.contains("No cards recorded yet."));
}

#[test]
fn method_lines_exact_and_ties_keep_order() {
    let stats = ExperienceCardVizStats {
        total_cards: 3,
        evaluated: 2,
        unique_errors: 1,
        method_distribution: dist(&[("A", 1), ("B", 4), ("C", 1), ("D", 4)]),
    };
    let lines = ExperienceCardVizPanel::content(Some(&stats), "0.50", "0.25");
    let texts: Vec<&str> = lines.iter().map(|l| l.text.as_str()).collect();
    assert_eq!(texts[2], "Total: 3 | Evaluated: 2 | Unique errors: 1");
    assert_eq!(texts[3], "Best score: 0.50 | Average score: 0.25");
    assert_eq!(texts[4], "");
    assert_eq!(lines[5].tone, LineTone::Emphasis);
    assert_eq!(
        &texts[6..],
        &[
            "  B                    4",
            "  D                    4",
            "  A                    1",
            "  C                    1",
        ]
    );
}

#[test]
fn at_most_eight_methods_listed() {
    let items: Vec<(String, u32)> = (0..12u32).map(|i| (format!("m{i}"), i)).collect();
    let stats = ExperienceCardVizStats { method_distribution: items, ..Default::default() };
    let lines = ExperienceCardVizPanel::content(Some(&stats), "0.00", "0.00");
    assert_eq!(lines.len(), 6 + 8);
    assert!(lines[6].text.starts_with("  m11"));
    assert!(lines[13].text.starts_with("  m4 "));
}
