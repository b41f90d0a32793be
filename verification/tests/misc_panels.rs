use chimera_tui::input::{KeyCode, KeyEvent, MouseEventKind};
use chimera_tui::panels::chat::{ChatMessage, ChatPanel, ChatRole, ChatStatus, ChatStatusLabels};
use chimera_tui::panels::dag_viz::{DagVizPanel, MAX_DEPTH};
use chimera_tui::panels::event_stream::EventStreamPanel;
use chimera_tui::panels::filter_cache::FilterCache;
use chimera_tui::panels::log::LogPanel;
use chimera_tui::panels::quest::{TaskStatus, TaskView};
use chimera_tui::types::{PanelId, TuiCommand};

fn task(id: &str, deps: &[&str]) -> TaskView {
    TaskView {
        task_id: id.into(),
        description: "d".into(),
        status: TaskStatus::Pending,
        dependencies: deps.iter().map(|d| d.to_string()).collect(),
    }
}

#[test]
fn test_task_depths_linear_chain() {
    let tasks = vec![task("a", &[]), task("b", &["a"]), task("c", &["b"])];
    assert_eq!(DagVizPanel::task_depths(&tasks), vec![0, 1, 2]);
}

#[test]
fn test_task_depths_diamond() {
    let tasks = vec![task("a", &[]), task("b", &["a"]), task("c", &["a"]), task("d", &["b", "c"])];
    assert_eq!(DagVizPanel::task_depths(&tasks)[3], 2);
}

#[test]
fn test_task_depths_cycle_terminates() {
    let tasks = vec![task("a", &["b"]), task("b", &["a"])];
    let depths = DagVizPanel::task_depths(&tasks);
    assert!(depths[0] <= MAX_DEPTH);
    assert!(depths[1] <= MAX_DEPTH);
}

#[test]
fn task_depths_ignore_unknown_dependencies() {
    let tasks = vec![task("a", &["zzz"]), task("b", &["a", "zzz"])];
    assert_eq!(DagVizPanel::task_depths(&tasks), vec![0, 1]);
}

#[test]
fn chat_lines_split_on_newlines() {
    let messages = vec![
        ChatMessage { role: ChatRole::User, content: "hi\nthere".into() },
        ChatMessage { role: ChatRole::Assistant, content: "ok".into() },
    ];
    let lines = ChatPanel::content_lines(&messages);
    assert_eq!(lines, vec!["▸ You  hi".to_string(), "       there".to_string(), "◂ AI   ok".to_string()]);
}

#[test]
fn chat_scroll_follow_and_keys() {
    let mut panel = ChatPanel::new();
    assert_eq!(panel.id(), PanelId::Chat);
    panel.fit_scroll(30, 10);
    assert_eq!(panel.scroll_offset(), 20);
    panel.handle_key(KeyEvent::new(KeyCode::Up));
    assert_eq!(panel.scroll_offset(), 19);
    panel.fit_scroll(12, 10);
    assert_eq!(panel.scroll_offset(), 2);
    panel.scroll_to_top();
    assert_eq!(panel.scroll_offset(), 0);
    panel.scroll_to_bottom();
    panel.fit_scroll(5, 10);
    assert_eq!(panel.scroll_offset(), 0);
}

#[test]
fn event_stream_auto_scroll_rules() {
    let mut panel = EventStreamPanel::new();
    let mut auto = true;
    panel.handle_key(KeyEvent::new(KeyCode::Down), 3, &mut auto);
    assert_eq!(panel.selected(), 1);
    assert!(!auto);
    panel.handle_key(KeyEvent::new(KeyCode::Char('j')), 3, &mut auto);
    panel.handle_key(KeyEvent::new(KeyCode::Char('j')), 3, &mut auto);
    assert_eq!(panel.selected(), 2);
    assert!(auto);
    panel.handle_key(KeyEvent::new(KeyCode::Up), 3, &mut auto);
    assert!(!auto);
    panel.handle_key(KeyEvent::new(KeyCode::Char('G')), 3, &mut auto);
    assert!(auto);
    assert_eq!(panel.selected(), 2);
    assert_eq!(
        panel.handle_key(KeyEvent::new(KeyCode::Enter), 3, &mut auto),
        Some(TuiCommand::OpenEventDetail { index: 2 })
    );
    panel.handle_mouse(MouseEventKind::ScrollUp, 3, &mut auto);
    assert!(!auto);
    panel.sync_view(10, true, false, 4);
    assert_eq!(panel.selected(), 9);
    assert_eq!(panel.scroll_offset(), 6);
}

#[test]
fn log_page_navigation_and_detail() {
    let mut panel = LogPanel::new();
    panel.handle_key(KeyEvent::new(KeyCode::PageDown), 25);
    assert_eq!(panel.selected(), 10);
    panel.handle_key(KeyEvent::new(KeyCode::PageDown), 25);
    panel.handle_key(KeyEvent::new(KeyCode::PageDown), 25);
    assert_eq!(panel.selected(), 24);
    assert_eq!(panel.handle_key(KeyEvent::new(KeyCode::Enter), 25), Some(TuiCommand::OpenEventDetail { index: 24 }));
    assert_eq!(panel.handle_key(KeyEvent::new(KeyCode::Enter), 3), None);
    assert_eq!(panel.shortcuts().len(), 5);
}

#[test]
fn filter_cache_hit_after_update() {
    let mut cache = FilterCache::new();
    assert!(!FilterCache::enabled(0));
    assert!(FilterCache::enabled(1));
    let kw = Some("alpha".to_string());
    cache.update(FilterCache::events_id(7), &kw, &None, &None, vec![2, 0]);
    assert!(cache.matches(7, &kw, &None, &None));
    assert_eq!(cache.indices(), &vec![2, 0]);
    assert!(!cache.matches(8, &kw, &None, &None));
    assert!(!cache.matches(7, &Some("beta".to_string()), &None, &None));
}

#[test]
fn chat_border_title_shows_status() {
    let labels = ChatStatusLabels { thinking: "思考中".into(), tool: "工具执行中".into(), idle: "Idle".into() };
    assert_eq!(ChatPanel::border_title(" Chat ", ChatStatus::Idle, &labels), " Chat  [Idle]");
    assert_eq!(ChatPanel::status_label(ChatStatus::Thinking, &labels), "思考中");
    assert_eq!(ChatPanel::status_label(ChatStatus::ToolExecuting, &labels), "工具执行中");
    let panel = ChatPanel::default();
    assert_eq!(panel.scroll_offset(), 0);
    assert_eq!(panel, ChatPanel::new());
}
