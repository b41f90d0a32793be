use chimera_tui::input::{KeyCode, KeyEvent};
use chimera_tui::panels::quest::{QuestView, TaskStatus, TaskView};
use chimera_tui::panels::task_manager::{
    compute_status_counts, user_priority_from_internal, SortMode, TaskManagerPanel,
};
use chimera_tui::popup::PopupKind;
use chimera_tui::types::{PanelId, QuestAction, TuiCommand};

fn make_task(id: &str, status: TaskStatus) -> TaskView {
    TaskView { task_id: id.into(), description: "test task".into(), status, dependencies: vec![] }
}

fn quest_with_tasks(id: &str, title: &str, priority: u8, tasks: Vec<TaskView>) -> QuestView {
    QuestView {
        quest_id: id.into(),
        title: title.into(),
        priority,
        tasks,
        thinking_mode: "Standard".into(),
        checkpoint_id: None,
    }
}

fn sample_quest(id: &str, title: &str, priority: u8) -> QuestView {
    quest_with_tasks(id, title, priority, vec![make_task(&format!("{id}-t1"), TaskStatus::Pending)])
}

fn key(c: char) -> KeyEvent {
    KeyEvent::new(KeyCode::Char(c))
}

#[test]
fn test_priority_mapping_roundtrip() {
    for level in 0..=10u8 {
        let internal = (level as u16 * 25) as u8;
        let back = user_priority_from_internal(internal);
        assert_eq!(back, level, "level {level}");
    }
}

#[test]
fn test_user_priority_clamps_high_input() {
    assert_eq!(user_priority_from_internal(250), 10);
    assert_eq!(user_priority_from_internal(255), 10);
    assert_eq!(user_priority_from_internal(0), 0);
}

#[test]
fn test_sort_priority_descending() {
    let quests = vec![sample_quest("q-low", "Low", 2), sample_quest("q-high", "High", 8), sample_quest("q-mid", "Mid", 5)];
    let sorted: Vec<String> = TaskManagerPanel::sorted(&quests).iter().map(|q| q.quest_id.clone()).collect();
    assert_eq!(sorted, vec!["q-high", "q-mid", "q-low"]);
}

#[test]
fn test_sort_stable_by_quest_id() {
    let quests = vec![sample_quest("q-z", "Z", 5), sample_quest("q-a", "A", 5), sample_quest("q-m", "M", 5)];
    let sorted: Vec<String> = TaskManagerPanel::sorted(&quests).iter().map(|q| q.quest_id.clone()).collect();
    assert_eq!(sorted, vec!["q-a", "q-m", "q-z"]);
}

#[test]
fn test_top_bottom_helpers() {
    let quests = vec![sample_quest("q-low", "Low", 2), sample_quest("q-high", "High", 8)];
    let panel = TaskManagerPanel::new();
    assert_eq!(panel.id(), PanelId::Quest);
    assert_eq!(panel.top_quest_id(&quests), Some("q-high".to_string()));
    assert_eq!(panel.bottom_quest_id(&quests), Some("q-low".to_string()));
    assert_eq!(TaskManagerPanel::sorted_quest_count(&quests), 2);
}

#[test]
fn sort_by_status_and_created_at() {
    let quests = vec![
        quest_with_tasks("q-done", "D", 1, vec![make_task("t", TaskStatus::Completed)]),
        quest_with_tasks("q-run", "R", 1, vec![make_task("t", TaskStatus::Running)]),
        quest_with_tasks("q-new", "N", 1, vec![]),
    ];
    let mut panel = TaskManagerPanel::with_sort_mode(SortMode::Status);
    assert_eq!(panel.sort_mode(), SortMode::Status);
    let ids: Vec<String> = panel.sorted_with_mode(&quests, SortMode::Status).iter().map(|q| q.quest_id.clone()).collect();
    assert_eq!(ids, vec!["q-run", "q-new", "q-done"]);
    panel.note_first_observation("q-done", 100);
    panel.note_first_observation("q-run", 300);
    panel.note_first_observation("q-done", 200);
    let ids: Vec<String> = panel.sorted_with_mode(&quests, SortMode::CreatedAt).iter().map(|q| q.quest_id.clone()).collect();
    assert_eq!(ids, vec!["q-run", "q-done", "q-new"]);
}

#[test]
fn test_pause_key_emits_quest_control_pause() {
    let mut panel = TaskManagerPanel::new();
    let quests = vec![sample_quest("q-1", "T1", 5)];
    match panel.handle_key(key('P'), &quests) {
        Some(TuiCommand::QuestControl { id, action }) => {
            assert_eq!(id, "q-1");
            assert_eq!(action, QuestAction::Pause);
        }
        other => panic!("expected pause, got {other:?}"),
    }
}

#[test]
fn test_priority_increment_at_max_returns_none() {
    let mut panel = TaskManagerPanel::new();
    let quests = vec![sample_quest("q-max", "Max", 250)];
    assert!(panel.handle_key(key('+'), &quests).is_none());
}

#[test]
fn test_priority_decrement_at_min_returns_none() {
    let mut panel = TaskManagerPanel::new();
    let quests = vec![sample_quest("q-min", "Min", 0)];
    assert!(panel.handle_key(key('-'), &quests).is_none());
}

#[test]
fn priority_keys_step_one_level() {
    let mut panel = TaskManagerPanel::new();
    let quests = vec![sample_quest("q", "Q", 130)];
    assert_eq!(
        panel.handle_key(key('+'), &quests),
        Some(TuiCommand::QuestControl { id: "q".into(), action: QuestAction::SetPriority(6) })
    );
    assert_eq!(
        panel.handle_key(key('-'), &quests),
        Some(TuiCommand::QuestControl { id: "q".into(), action: QuestAction::SetPriority(4) })
    );
}

#[test]
fn test_terminate_key_emits_quest_control_terminate() {
    let mut panel = TaskManagerPanel::new();
    let quests = vec![sample_quest("q-1", "T1", 5)];
    match panel.handle_key(key('T'), &quests) {
        Some(TuiCommand::QuestControl { id, action }) => {
            assert_eq!(id, "q-1");
            assert_eq!(action, QuestAction::Terminate);
        }
        other => panic!("expected terminate, got {other:?}"),
    }
}

#[test]
fn test_space_toggles_selection() {
    let mut panel = TaskManagerPanel::new();
    let quests = vec![sample_quest("q-1", "Alpha", 5), sample_quest("q-2", "Beta", 3)];
    panel.handle_key(key(' '), &quests);
    assert_eq!(panel.selected_indices(), vec![0]);
    panel.handle_key(key(' '), &quests);
    assert!(panel.selected_indices().is_empty());
}

#[test]
fn test_ctrl_a_selects_all() {
    let mut panel = TaskManagerPanel::new();
    let quests = vec![sample_quest("q-apple", "Apple", 5), sample_quest("q-banana", "Banana", 5), sample_quest("q-cherry", "Cherry", 5)];
    panel.handle_key(key('/'), &quests);
    panel.handle_key(key('a'), &quests);
    panel.handle_key(KeyEvent::new(KeyCode::Enter), &quests);
    assert_eq!(panel.filter_keyword(), "a");
    panel.handle_key(KeyEvent::with_ctrl(KeyCode::Char('a')), &quests);
    assert_eq!(panel.selected_indices(), vec![0, 1]);
}

#[test]
fn test_esc_clears_selection() {
    let mut panel = TaskManagerPanel::new();
    let quests = vec![sample_quest("q-1", "A", 5), sample_quest("q-2", "B", 5), sample_quest("q-3", "C", 5)];
    panel.handle_key(KeyEvent::with_ctrl(KeyCode::Char('a')), &quests);
    assert_eq!(panel.selected_indices().len(), 3);
    panel.handle_key(KeyEvent::new(KeyCode::Esc), &quests);
    assert!(panel.selected_indices().is_empty());
}

fn confirm_parts(cmd: Option<TuiCommand>) -> (String, String) {
    match cmd {
        Some(TuiCommand::OpenPopup(PopupKind::Confirm { prompt, on_confirm, .. })) => (prompt, on_confirm),
        other => panic!("expected confirm popup, got {other:?}"),
    }
}

#[test]
fn test_batch_pause_generates_confirm_popup() {
    let mut panel = TaskManagerPanel::new();
    let quests = vec![sample_quest("q-1", "Alpha", 5), sample_quest("q-2", "Beta", 3)];
    panel.handle_key(key(' '), &quests);
    let (prompt, on_confirm) = confirm_parts(panel.handle_key(key('B'), &quests));
    assert!(prompt.contains("Batch pause"));
    assert!(on_confirm.contains("batch_pause:"));
    assert_eq!(prompt, "Batch pause 1 quests q-1?");
    assert_eq!(on_confirm, "batch_pause:q-1");
}

#[test]
fn test_batch_terminate_generates_confirm_popup() {
    let mut panel = TaskManagerPanel::new();
    let quests = vec![sample_quest("q-1", "Alpha", 5), sample_quest("q-2", "Beta", 3)];
    panel.handle_key(key(' '), &quests);
    let (prompt, on_confirm) = confirm_parts(panel.handle_key(key('T'), &quests));
    assert!(prompt.contains("Batch terminate"));
    assert!(on_confirm.contains("batch_terminate:"));
}

#[test]
fn test_batch_resume_generates_confirm_popup() {
    let mut panel = TaskManagerPanel::new();
    let quests = vec![sample_quest("q-1", "Alpha", 5), sample_quest("q-2", "Beta", 3)];
    panel.handle_key(KeyEvent::with_ctrl(KeyCode::Char('a')), &quests);
    let (prompt, on_confirm) = confirm_parts(panel.handle_key(key('R'), &quests));
    assert!(prompt.contains("Batch resume"));
    assert_eq!(on_confirm, "batch_resume:q-1,q-2");
}

#[test]
fn test_empty_selection_batch_does_nothing() {
    let mut panel = TaskManagerPanel::new();
    let quests = vec![sample_quest("q-1", "Alpha", 5)];
    match panel.handle_key(key('B'), &quests) {
        Some(TuiCommand::QuestControl { id, action }) => {
            assert_eq!(id, "q-1");
            assert_eq!(action, QuestAction::Pause);
        }
        other => panic!("expected single pause, got {other:?}"),
    }
}

#[test]
fn test_empty_selection_r_falls_back_to_single_resume() {
    let mut panel = TaskManagerPanel::new();
    let quests = vec![sample_quest("q-1", "Alpha", 5)];
    assert_eq!(
        panel.handle_key(key('R'), &quests),
        Some(TuiCommand::QuestControl { id: "q-1".into(), action: QuestAction::Resume })
    );
}

#[test]
fn test_empty_selection_t_falls_back_to_single_terminate() {
    let mut panel = TaskManagerPanel::new();
    let quests = vec![sample_quest("q-1", "Alpha", 5)];
    assert_eq!(
        panel.handle_key(key('T'), &quests),
        Some(TuiCommand::QuestControl { id: "q-1".into(), action: QuestAction::Terminate })
    );
}

fn with_keyword(kw: &str) -> TaskManagerPanel {
    let mut panel = TaskManagerPanel::new();
    let none: Vec<QuestView> = vec![];
    panel.handle_key(key('/'), &none);
    for c in kw.chars() {
        panel.handle_key(key(c), &none);
    }
    panel.handle_key(KeyEvent::new(KeyCode::Enter), &none);
    panel
}

#[test]
fn test_filter_search_matches_quest_id() {
    let panel = with_keyword("bet");
    let quests = vec![sample_quest("alpha", "A", 5), sample_quest("beta", "B", 3), sample_quest("gamma", "C", 4)];
    let filtered = panel.filtered_quests(&quests);
    assert_eq!(filtered.len(), 1);
    assert_eq!(filtered[0].quest_id, "beta");
}

#[test]
fn test_filter_search_case_insensitive() {
    let panel = with_keyword("ALPHA");
    let quests = vec![sample_quest("alpha", "A", 5), sample_quest("beta", "B", 3)];
    let filtered = panel.filtered_quests(&quests);
    assert_eq!(filtered.len(), 1);
    assert_eq!(filtered[0].quest_id, "alpha");
}

#[test]
fn test_filter_search_no_match() {
    let panel = with_keyword("xyz");
    let quests = vec![sample_quest("alpha", "A", 5), sample_quest("beta", "B", 3)];
    assert!(panel.filtered_quests(&quests).is_empty());
}

#[test]
fn test_filter_search_matches_title() {
    let panel = with_keyword("Deploy");
    let quests = vec![sample_quest("q-1", "Deploy Production", 5), sample_quest("q-2", "Run Tests", 3), sample_quest("q-3", "Deploy Backup", 4)];
    let ids: Vec<String> = panel.filtered_quests(&quests).iter().map(|q| q.quest_id.clone()).collect();
    assert_eq!(ids.len(), 2);
    assert!(ids.contains(&"q-1".to_string()));
    assert!(ids.contains(&"q-3".to_string()));
}

#[test]
fn test_status_counts_correct() {
    let quests = vec![
        quest_with_tasks("q-pending-empty", "PE", 5, vec![]),
        quest_with_tasks("q-running", "R", 5, vec![make_task("t1", TaskStatus::Running), make_task("t2", TaskStatus::Pending)]),
        quest_with_tasks("q-completed", "C", 5, vec![make_task("t1", TaskStatus::Completed), make_task("t2", TaskStatus::Completed)]),
        sample_quest("q-pending", "P", 5),
    ];
    assert_eq!(compute_status_counts(&quests, 0), (2, 1, 0, 1));
}

#[test]
fn test_status_counts_with_paused() {
    let quests: Vec<QuestView> = vec![];
    assert_eq!(compute_status_counts(&quests, 3), (0, 0, 3, 0));
}

#[test]
fn test_status_counts_empty() {
    let quests: Vec<QuestView> = vec![];
    assert_eq!(compute_status_counts(&quests, 0), (0, 0, 0, 0));
}

#[test]
fn test_multiselect_visual_prefix() {
    let mut panel = TaskManagerPanel::new();
    let quests = vec![sample_quest("q-1", "Alpha", 5), sample_quest("q-2", "Beta", 3)];
    panel.handle_key(key(' '), &quests);
    let text = panel.render_text(&quests, 0);
    assert!(text.contains("[*]"));
    assert_eq!(text.matches("[*]").count(), 1);
}

#[test]
fn test_status_counts_selected_display() {
    let mut panel = TaskManagerPanel::new();
    let quests = vec![sample_quest("q-1", "Alpha", 5), sample_quest("q-2", "Beta", 3)];
    assert!(!panel.render_text(&quests, 0).contains("Selected:"));
    panel.handle_key(key(' '), &quests);
    assert!(panel.render_text(&quests, 0).contains("Selected:1"));
    panel.handle_key(KeyEvent::new(KeyCode::Down), &quests);
    panel.handle_key(key(' '), &quests);
    assert!(panel.render_text(&quests, 0).contains("Selected:2"));
}

#[test]
fn render_text_exact_lines() {
    let panel = TaskManagerPanel::new();
    let quests = vec![sample_quest("q-1", "Alpha", 5)];
    let text = panel.render_text(&quests, 2);
    let lines: Vec<&str> = text.split('\n').collect();
    assert_eq!(lines[0], "Task Manager [Priority]");
    assert_eq!(lines[2], "> q-1              | Alpha | P5 ");
    assert_eq!(lines[4], "Pending:1 | Running:0 | Paused:2 | Completed:0");
    let empty: Vec<QuestView> = vec![];
    assert!(panel.render_text(&empty, 0).contains("No matching quests"));
}

#[test]
fn test_filter_search_slash_enters_mode() {
    let mut panel = TaskManagerPanel::new();
    let quests: Vec<QuestView> = vec![];
    assert!(panel.handle_key(key('/'), &quests).is_none());
    assert!(panel.is_searching());
}

#[test]
fn test_filter_search_backspace() {
    let mut panel = TaskManagerPanel::new();
    let quests: Vec<QuestView> = vec![];
    panel.handle_key(key('/'), &quests);
    for c in "test".chars() {
        panel.handle_key(key(c), &quests);
    }
    assert!(panel.handle_key(KeyEvent::new(KeyCode::Backspace), &quests).is_none());
    assert_eq!(panel.filter_keyword(), "tes");
}

#[test]
fn test_filter_search_esc_clears() {
    let mut panel = TaskManagerPanel::new();
    let quests: Vec<QuestView> = vec![];
    panel.handle_key(key('/'), &quests);
    for c in "test".chars() {
        panel.handle_key(key(c), &quests);
    }
    assert!(panel.handle_key(KeyEvent::new(KeyCode::Esc), &quests).is_none());
    assert!(!panel.is_searching());
    assert!(panel.filter_keyword().is_empty());
}

#[test]
fn test_filter_search_enter_exits_mode_keeps_keyword() {
    let mut panel = TaskManagerPanel::new();
    let quests: Vec<QuestView> = vec![];
    panel.handle_key(key('/'), &quests);
    for c in "alpha".chars() {
        panel.handle_key(key(c), &quests);
    }
    assert!(panel.handle_key(KeyEvent::new(KeyCode::Enter), &quests).is_none());
    assert!(!panel.is_searching());
    assert_eq!(panel.filter_keyword(), "alpha");
}

#[test]
fn test_filter_search_char_append() {
    let mut panel = TaskManagerPanel::new();
    let quests: Vec<QuestView> = vec![];
    panel.handle_key(key('/'), &quests);
    panel.handle_key(key('a'), &quests);
    panel.handle_key(key('b'), &quests);
    panel.handle_key(key('c'), &quests);
    assert_eq!(panel.filter_keyword(), "abc");
}

#[test]
fn sort_key_cycles_modes_and_export() {
    let mut panel = TaskManagerPanel::new();
    let quests: Vec<QuestView> = vec![];
    panel.handle_key(key('S'), &quests);
    assert_eq!(panel.sort_mode(), SortMode::Status);
    panel.handle_key(key('S'), &quests);
    panel.handle_key(key('S'), &quests);
    assert_eq!(panel.sort_mode(), SortMode::Priority);
    assert_eq!(panel.handle_key(key('E'), &quests), Some(TuiCommand::Export));
    assert!(panel.handle_key(key('C'), &quests).is_none());
}

#[test]
fn enter_opens_quest_detail() {
    let mut panel = TaskManagerPanel::new();
    let quests = vec![sample_quest("q-1", "Alpha", 5)];
    match panel.handle_key(KeyEvent::new(KeyCode::Enter), &quests) {
        Some(TuiCommand::OpenPopup(PopupKind::Detail { title, content, scroll })) => {
            assert_eq!(title, "Task: Alpha");
            assert_eq!(content, "Title: Alpha\nID: q-1\nPriority: 5\nTasks: 1\nMode: Standard");
            assert_eq!(scroll, 0);
        }
        other => panic!("expected detail, got {other:?}"),
    }
}

#[test]
fn equals_key_raises_priority_like_plus() {
    let quests = vec![quest_with_tasks("q-low", "L", 25, vec![]), quest_with_tasks("q-high", "H", 125, vec![])];
    let mut panel = TaskManagerPanel::new();
    assert_eq!(
        panel.handle_key(key('='), &quests),
        Some(TuiCommand::QuestControl { id: "q-high".into(), action: QuestAction::SetPriority(6) })
    );
    assert_eq!(panel.handle_key(key('='), &quests), panel.handle_key(key('+'), &quests));
    let top = vec![sample_quest("q-max", "Max", 250)];
    assert!(panel.handle_key(key('='), &top).is_none());
}
