use chimera_tui::input::{KeyCode, KeyEvent};
use chimera_tui::panels::metrics_dashboard::{MetricsDashboardPanel, VizChartKind, GRID_SIZE};
use chimera_tui::panels::pvl_score::PvlScorePanel;
use chimera_tui::types::PanelId;

#[test]
fn gg_g_reach_first_and_last_grid_cell() {
    let mut panel: MetricsDashboardPanel<u32> = MetricsDashboardPanel::new();
    panel.handle_key(KeyEvent::new(KeyCode::Down));
    panel.handle_key(KeyEvent::new(KeyCode::Down));
    panel.handle_key(KeyEvent::new(KeyCode::Right));
    assert_eq!(panel.selected(), 5);
    panel.scroll_to_top();
    assert_eq!(panel.selected(), 0);
    panel.scroll_to_bottom();
    assert_eq!(panel.selected(), GRID_SIZE - 1);
}

#[test]
fn dashboard_bind_unbind_and_edges() {
    let mut panel: MetricsDashboardPanel<&'static str> = MetricsDashboardPanel::new();
    assert_eq!(panel.id(), PanelId::MetricsDashboard);
    assert_eq!(panel.cell_count(), 0);
    panel.bind("cpu", VizChartKind::Gauge, (0, 0));
    panel.bind("mem", VizChartKind::LineChart, (4, 1));
    panel.bind("bad", VizChartKind::Heatmap, (5, 0));
    assert_eq!(panel.cell_count(), 2);
    assert_eq!(panel.position_to_index((4, 1)), Some(9));
    assert_eq!(panel.position_to_index((0, 2)), None);
    assert_eq!(panel.selected_binding(), &Some(("cpu", VizChartKind::Gauge)));
    panel.unbind((0, 0));
    assert_eq!(panel.cell_count(), 1);
    panel.handle_key(KeyEvent::new(KeyCode::Left));
    panel.handle_key(KeyEvent::new(KeyCode::Up));
    assert_eq!(panel.selected(), 0);
    panel.handle_key(KeyEvent::new(KeyCode::Right));
    panel.handle_key(KeyEvent::new(KeyCode::Right));
    assert_eq!(panel.selected(), 1);
}

#[test]
fn gg_g_reach_first_and_last_dimension() {
    let mut panel = PvlScorePanel::new();
    for _ in 0..4 {
        panel.handle_key(KeyEvent::new(KeyCode::Down));
    }
    assert_eq!(panel.selected(), 4);
    panel.scroll_to_top();
    assert_eq!(panel.selected(), 0);
    panel.scroll_to_bottom();
    assert_eq!(panel.selected(), 8);
}

#[test]
fn pvl_selection_stays_within_nine_dimensions() {
    let mut panel = PvlScorePanel::new();
    assert_eq!(panel.id(), PanelId::PvlScore);
    for _ in 0..20 {
        panel.handle_key(KeyEvent::new(KeyCode::Char('j')));
    }
    assert_eq!(panel.selected(), 8);
    panel.handle_key(KeyEvent::new(KeyCode::Char('k')));
    assert_eq!(panel.selected(), 7);
}

#[test]
fn dashboard_unbind_is_idempotent() {
    let mut panel: MetricsDashboardPanel<&'static str> = MetricsDashboardPanel::new();
    panel.bind("cpu", VizChartKind::Gauge, (1, 1));
    panel.unbind((1, 1));
    assert_eq!(panel.cell_count(), 0);
    panel.unbind((1, 1));
    assert_eq!(panel.cell_count(), 0);
    panel.unbind((3, 0));
    assert_eq!(panel.cell_count(), 0);
}

#[test]
fn dashboard_gqep_summary_line() {
    assert_eq!(
        MetricsDashboardPanel::<u32>::gqep_summary(3, 1, 0, "coverage: unreported"),
        "GQEP Timeout: per_op=3  global=1  orphan=0  coverage: unreported"
    );
}

fn summary(per_op: u64, global: u64, orphan: u64) -> String {
    MetricsDashboardPanel::<u32>::gqep_summary(per_op, global, orphan, "(coverage unreported)")
}

#[test]
fn summary_shows_event_derived_counters() {
    let rendered = summary(7, 3, 2);
    assert!(rendered.contains("per_op=7"), "got: {rendered}");
    assert!(rendered.contains("global=3"), "got: {rendered}");
    assert!(rendered.contains("orphan=2"), "got: {rendered}");
}

#[test]
fn zero_counters_are_shown_as_real_zero() {
    let rendered = summary(0, 0, 0);
    assert!(rendered.contains("per_op=0"), "got: {rendered}");
}

#[test]
fn coverage_is_marked_unreported_not_fabricated() {
    let rendered = summary(0, 0, 0);
    assert!(!rendered.contains("coverage="), "got: {rendered}");
}

#[test]
fn dashboard_count_after_a_run_of_calls() {
    let mut panel: MetricsDashboardPanel<&'static str> = MetricsDashboardPanel::new();
    panel.bind("cpu", VizChartKind::Gauge, (0, 0));
    panel.bind("mem", VizChartKind::Gauge, (4, 1));
    panel.bind("net", VizChartKind::Gauge, (5, 0));
    panel.handle_key(KeyEvent::new(KeyCode::Char('j')));
    panel.bind("disk", VizChartKind::Gauge, (2, 1));
    panel.unbind((0, 0));
    panel.scroll_to_bottom();
    panel.bind("cpu", VizChartKind::Gauge, (0, 0));
    panel.unbind((2, 1));
    panel.scroll_to_top();
    panel.unbind((9, 9));
    assert_eq!(panel.cell_count(), 2);
}
