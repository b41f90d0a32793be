use chimera_tui::input::{KeyCode, KeyEvent};
use chimera_tui::panels::quest::{
    build_filter_title, QuestContentLabels, QuestLabels, QuestPanel, QuestView, TaskStatus, TaskView,
};
use chimera_tui::popup::PopupKind;
use chimera_tui::text::{LineTone, ToneLine};
use chimera_tui::types::{PanelId, TuiCommand};

fn task(id: &str, description: &str, status: TaskStatus) -> TaskView {
    TaskView { task_id: id.into(), description: description.into(), status, dependencies: vec![] }
}

fn sample_quest(id: &str, title: &str) -> QuestView {
    QuestView {
        quest_id: id.into(),
        title: title.into(),
        priority: 128,
        tasks: vec![task(&format!("{id}-t1"), "test task", TaskStatus::Pending)],
        thinking_mode: "Standard".into(),
        checkpoint_id: None,
    }
}

fn labels() -> QuestLabels {
    QuestLabels {
        batch_pause: "批量暂停".into(),
        batch_cancel: "批量取消".into(),
        quests: "个任务".into(),
        detail_title: "标题:".into(),
        detail_id: "ID:".into(),
        detail_mode: "模式:".into(),
        detail_checkpoint: "检查点:".into(),
        detail_tasks: "任务数:".into(),
        detail_task_list: "任务列表:".into(),
        none: "无".into(),
    }
}

fn content_labels() -> QuestContentLabels {
    QuestContentLabels {
        body_title: "任务列表".into(),
        no_active: "暂无进行中的任务".into(),
        mode: "模式".into(),
        priority: "优先级".into(),
        no_tasks: "    (无子任务)".into(),
        tasks_label: "    子任务:".into(),
        total: "总计".into(),
        done: "完成".into(),
        running: "进行中".into(),
        pending: "待处理".into(),
    }
}

fn gauges(n: usize) -> Vec<String> {
    vec![" [▱▱▱▱] 0/1 (0%)".to_string(); n]
}

fn text(lines: &[ToneLine]) -> String {
    lines.iter().map(|l| l.text.clone()).collect::<Vec<_>>().join("\n")
}

fn two_quests() -> Vec<QuestView> {
    vec![sample_quest("q1", "First Quest"), sample_quest("q2", "Second Quest")]
}

fn sentinel() -> Vec<ToneLine> {
    vec![ToneLine { text: "SENTINEL-CACHE-HIT".into(), tone: LineTone::Plain }]
}

#[test]
fn test_quest_panel_id() {
    assert_eq!(QuestPanel::new().id(), PanelId::Quest);
}

#[test]
fn test_quest_panel_empty_state() {
    let c = text(&QuestPanel::content(&vec![], &None, 0, &vec![], &vec![], &content_labels()));
    assert!(c.contains("任务列表"));
    assert!(c.contains("暂无进行中的任务"));
}

#[test]
fn test_quest_panel_with_quests() {
    let quests = two_quests();
    let lines = QuestPanel::content(&quests, &None, 0, &vec![], &gauges(2), &content_labels());
    let c = text(&lines);
    assert!(c.contains("First Quest"));
    assert!(c.contains("Second Quest"));
    assert!(c.contains("[1]"));
    assert!(c.contains("[2]"));
    assert_eq!(lines[2].text, "> [1] First Quest [▱▱▱▱] 0/1 (0%)");
    assert_eq!(lines[2].tone, LineTone::Highlight);
    assert_eq!(lines[3].text, "    ID: q1 | 模式: Standard | 优先级: 128");
    assert_eq!(lines[4].text, "    子任务: 1 总计, 0 完成, 0 进行中, 1 待处理");
    assert_eq!(lines[5].text, "");
    assert_eq!(lines[6].text, "  [2] Second Quest [▱▱▱▱] 0/1 (0%)");
}

#[test]
fn quest_content_marks_and_cursor_prefixes() {
    let quests = two_quests();
    let lines = QuestPanel::content(&quests, &None, 1, &vec![0, 1], &gauges(2), &content_labels());
    assert!(lines[2].text.starts_with("● [1]"));
    assert_eq!(lines[2].tone, LineTone::Warning);
    assert!(lines[6].text.starts_with("●>[2]"));
}

#[test]
fn test_quest_panel_filter_keyword_title() {
    let quests = vec![sample_quest("q1", "Alpha Quest"), sample_quest("q2", "Beta Quest")];
    let filtered = QuestPanel::filtered_quests(&quests, &Some("alpha".into()));
    assert_eq!(filtered.len(), 1);
    assert_eq!(filtered[0].quest_id, "q1");
}

#[test]
fn test_quest_panel_filter_keyword_task() {
    let mut q1 = sample_quest("q1", "First");
    q1.tasks = vec![task("t1", "special task", TaskStatus::Pending)];
    let mut q2 = sample_quest("q2", "Second");
    q2.tasks = vec![task("t2", "other task", TaskStatus::Pending)];
    let quests = vec![q1, q2];
    let filtered = QuestPanel::filtered_quests(&quests, &Some("special".into()));
    assert_eq!(filtered.len(), 1);
    assert_eq!(filtered[0].quest_id, "q1");
}

#[test]
fn test_quest_panel_title_with_filter() {
    let title = build_filter_title(&Some("foo".into()), "Quest Tasks");
    assert!(title.contains("keyword:foo"));
    assert_eq!(title, " Quest Tasks [keyword:foo] ");
    assert_eq!(build_filter_title(&None, "Quest Tasks"), " Quest Tasks ");
}

#[test]
fn test_quest_panel_navigation() {
    let mut panel = QuestPanel::new();
    let quests = two_quests();
    panel.handle_key(KeyEvent::new(KeyCode::Down), &quests, &None, &labels());
    assert_eq!(panel.selected(), 1);
    panel.handle_key(KeyEvent::new(KeyCode::Up), &quests, &None, &labels());
    assert_eq!(panel.selected(), 0);
}

#[test]
fn test_quest_panel_detail_popup() {
    let mut panel = QuestPanel::new();
    let quests = vec![sample_quest("q1", "Detail Quest")];
    let cmd = panel.handle_key(KeyEvent::new(KeyCode::Char('v')), &quests, &None, &labels());
    match cmd {
        Some(TuiCommand::OpenPopup(PopupKind::Detail { title, content, .. })) => {
            assert_eq!(title, "Detail Quest");
            assert!(content.contains("q1"));
            assert!(content.contains("test task"));
        }
        _ => panic!("expected Detail popup command, got {:?}", cmd),
    }
}

#[test]
fn selected_context_id_returns_selected_quest_id() {
    let panel = QuestPanel::new();
    assert_eq!(panel.selected_context_id(&vec![], &None), None);
    let quests = vec![sample_quest("q1", "First"), sample_quest("q2", "Second")];
    assert_eq!(panel.selected_context_id(&quests, &None).as_deref(), Some("q1"));
}

#[test]
fn test_quest_panel_enter_jumps_to_event_stream() {
    let mut panel = QuestPanel::new();
    let quests = vec![sample_quest("q1", "Jump Quest")];
    let cmd = panel.handle_key(KeyEvent::new(KeyCode::Enter), &quests, &None, &labels());
    match cmd {
        Some(TuiCommand::JumpToEventStream { quest_id }) => assert_eq!(quest_id, "q1"),
        _ => panic!("expected JumpToEventStream command, got {:?}", cmd),
    }
}

#[test]
fn test_quest_panel_enter_no_quest_returns_none() {
    let mut panel = QuestPanel::new();
    let cmd = panel.handle_key(KeyEvent::new(KeyCode::Enter), &vec![], &None, &labels());
    assert!(cmd.is_none());
}

#[test]
fn test_quest_panel_handle_key_help_returns_none() {
    let mut panel = QuestPanel::new();
    assert_eq!(panel.handle_key(KeyEvent::new(KeyCode::Char('?')), &vec![], &None, &labels()), None);
}

#[test]
fn quest_render_reuses_cached_text_when_key_unchanged() {
    let quests = vec![sample_quest("q1", "Cached Quest")];
    let mut panel = QuestPanel::new();
    panel.render(&quests, &None, &gauges(1), &content_labels(), 1, 0, 22);
    panel.set_cached_text(sentinel());
    let second = text(&panel.render(&quests, &None, &gauges(1), &content_labels(), 1, 0, 22));
    assert!(second.contains("SENTINEL-CACHE-HIT"));
}

#[test]
fn quest_render_invalidates_on_revision_change() {
    let quests = vec![sample_quest("q1", "Cached Quest")];
    let mut panel = QuestPanel::new();
    panel.render(&quests, &None, &gauges(1), &content_labels(), 1, 0, 22);
    panel.set_cached_text(sentinel());
    let second = text(&panel.render(&quests, &None, &gauges(1), &content_labels(), 2, 0, 22));
    assert!(!second.contains("SENTINEL-CACHE-HIT") && second.contains("Cached Quest"));
}

#[test]
fn quest_render_invalidates_on_selection_change() {
    let quests = two_quests();
    let mut panel = QuestPanel::new();
    panel.render(&quests, &None, &gauges(2), &content_labels(), 1, 0, 22);
    panel.set_cached_text(sentinel());
    panel.handle_key(KeyEvent::new(KeyCode::Down), &quests, &None, &labels());
    let second = text(&panel.render(&quests, &None, &gauges(2), &content_labels(), 1, 0, 22));
    assert!(!second.contains("SENTINEL-CACHE-HIT") && second.contains("Second Quest"));
}

#[test]
fn quest_render_invalidates_on_filter_change() {
    let quests = vec![sample_quest("q1", "Alpha Quest"), sample_quest("q2", "Beta Quest")];
    let mut panel = QuestPanel::new();
    panel.render(&quests, &None, &gauges(2), &content_labels(), 1, 0, 22);
    panel.set_cached_text(sentinel());
    let kw = Some("alpha".to_string());
    let second = text(&panel.render(&quests, &kw, &gauges(2), &content_labels(), 1, 0, 22));
    assert!(!second.contains("SENTINEL-CACHE-HIT") && second.contains("Alpha Quest") && !second.contains("Beta Quest"));
}

#[test]
fn quest_render_invalidates_on_locale_change() {
    let quests = vec![sample_quest("q1", "Cached Quest")];
    let mut panel = QuestPanel::new();
    panel.render(&quests, &None, &gauges(1), &content_labels(), 1, 0, 22);
    panel.set_cached_text(sentinel());
    if let Some(mut simulated) = panel.cached_key() {
        simulated.locale ^= 1;
        panel.set_cached_key(Some(simulated));
    }
    let second = text(&panel.render(&quests, &None, &gauges(1), &content_labels(), 1, 0, 22));
    assert!(!second.contains("SENTINEL-CACHE-HIT"));
}

#[test]
fn quest_render_disables_cache_at_revision_zero() {
    let quests = vec![sample_quest("q1", "Cached Quest")];
    let mut panel = QuestPanel::new();
    panel.render(&quests, &None, &gauges(1), &content_labels(), 0, 0, 22);
    panel.set_cached_text(sentinel());
    let second = text(&panel.render(&quests, &None, &gauges(1), &content_labels(), 0, 0, 22));
    assert!(!second.contains("SENTINEL-CACHE-HIT"));
}

#[test]
fn quest_render_key_ignores_mark_insertion_order() {
    let quests = two_quests();
    let mut a = QuestPanel::new();
    let mut b = QuestPanel::new();
    a.handle_key(KeyEvent::new(KeyCode::Char(' ')), &quests, &None, &labels());
    a.handle_key(KeyEvent::new(KeyCode::Down), &quests, &None, &labels());
    a.handle_key(KeyEvent::new(KeyCode::Char(' ')), &quests, &None, &labels());
    b.handle_key(KeyEvent::new(KeyCode::Down), &quests, &None, &labels());
    b.handle_key(KeyEvent::new(KeyCode::Char(' ')), &quests, &None, &labels());
    b.handle_key(KeyEvent::new(KeyCode::Up), &quests, &None, &labels());
    b.handle_key(KeyEvent::new(KeyCode::Char(' ')), &quests, &None, &labels());
    b.handle_key(KeyEvent::new(KeyCode::Down), &quests, &None, &labels());
    a.render(&quests, &None, &gauges(2), &content_labels(), 7, 0, 22);
    b.render(&quests, &None, &gauges(2), &content_labels(), 7, 0, 22);
    assert_eq!(a.cached_key(), b.cached_key());
}
