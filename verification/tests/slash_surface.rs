use chimera_tui::slash_surface::{candidate_rows, clamp_selected, tier_label_key, SlashCandidate, SlashTier, SlashTierLabels};

#[test]
fn clamp_selected_bounds() {
    assert_eq!(clamp_selected(5, 0), 0);
    assert_eq!(clamp_selected(5, 3), 2);
    assert_eq!(clamp_selected(1, 3), 1);
}

#[test]
fn clamp_selected_always_in_range_samples() {
    for selected in [0usize, 1, 7, 999] {
        for count in [0usize, 1, 2, 99] {
            let c = clamp_selected(selected, count);
            if count == 0 {
                assert_eq!(c, 0);
            } else {
                assert!(c < count);
            }
        }
    }
}

#[test]
fn tier_keys_name_each_tier() {
    assert_eq!(tier_label_key(SlashTier::Instant), "slash.tier.instant");
    assert_eq!(tier_label_key(SlashTier::Orchestrated), "slash.tier.orchestrated");
    assert_eq!(tier_label_key(SlashTier::Agent), "slash.tier.agent");
}

fn tier_labels() -> SlashTierLabels {
    SlashTierLabels { instant: "即时".into(), orchestrated: "编排".into(), agent: "Agent".into() }
}

fn cand(name: &'static str, tier: SlashTier) -> SlashCandidate {
    SlashCandidate { name, title: format!("{name} title"), tier }
}

#[test]
fn candidate_rows_page_follows_selection() {
    let cands: Vec<SlashCandidate> = ["a", "b", "c", "d", "e"].iter().map(|n| cand(n, SlashTier::Instant)).collect();
    let rows = candidate_rows(&cands, 0, 3, &tier_labels());
    assert_eq!(rows.len(), 3);
    assert_eq!(rows[0].command, format!("/{:<20} ", "a"));
    assert!(rows[0].selected);
    let rows = candidate_rows(&cands, 4, 3, &tier_labels());
    let names: Vec<&str> = rows.iter().map(|r| r.command.trim()).collect();
    assert_eq!(names, vec!["/c", "/d", "/e"]);
    assert!(rows[2].selected && !rows[0].selected);
    assert!(candidate_rows(&cands, 0, 0, &tier_labels()).is_empty());
    assert!(candidate_rows(&Vec::new(), 0, 5, &tier_labels()).is_empty());
}

#[test]
fn candidate_row_parts_exact() {
    let cands = vec![cand("quest pause", SlashTier::Orchestrated)];
    let rows = candidate_rows(&cands, 0, 20, &tier_labels());
    assert_eq!(rows[0].marker, format!("{:<12} ", "[编排]"));
    assert_eq!(rows[0].command, "/quest pause          ");
    assert_eq!(rows[0].title, "quest pause title");
}

#[test]
fn candidate_rows_at_most_ten() {
    let names: Vec<&'static str> = vec!["a", "b", "c", "d", "e", "f", "g", "h", "i", "j", "k", "l"];
    let cands: Vec<SlashCandidate> = names.iter().map(|n| cand(n, SlashTier::Agent)).collect();
    let rows = candidate_rows(&cands, 11, 40, &tier_labels());
    assert_eq!(rows.len(), 10);
    assert_eq!(rows[0].command.trim(), "/c");
    assert!(rows[9].selected);
}
