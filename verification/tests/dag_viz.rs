use chimera_tui::panels::dag_viz::DagVizPanel;
use chimera_tui::panels::quest::{QuestView, TaskStatus, TaskView};
use chimera_tui::text::{LineTone, ToneLine};

fn task(id: &str, desc: &str, status: TaskStatus, deps: &[&str]) -> TaskView {
    TaskView {
        task_id: id.to_string(),
        description: desc.to_string(),
        status,
        dependencies: deps.iter().map(|d| d.to_string()).collect(),
    }
}

fn quest_with_tasks(tasks: Vec<TaskView>) -> QuestView {
    QuestView {
        quest_id: "q1".to_string(),
        title: "demo quest".to_string(),
        priority: 128,
        tasks,
        thinking_mode: "Standard".to_string(),
        checkpoint_id: None,
    }
}

fn text(lines: &[ToneLine]) -> String {
    lines.iter().map(|l| l.text.clone()).collect::<Vec<_>>().join("\n")
}

#[test]
fn test_content_awaiting_when_no_quests() {
    let c = text(&DagVizPanel::content(&vec![], 0, 0));
    assert!(c.contains("Awaiting QuestListUpdated"));
}

#[test]
fn test_content_renders_quest_tree_with_deps() {
    let quests = vec![quest_with_tasks(vec![
        task("t1", "setup env", TaskStatus::Completed, &[]),
        task("t2", "run tests", TaskStatus::Running, &["t1"]),
    ])];
    let lines = DagVizPanel::content(&quests, 4, 3);
    let c = text(&lines);
    assert!(c.contains("demo quest [1/2]"));
    assert!(c.contains("setup env"));
    assert!(c.contains("run tests ← t1"));
    assert_eq!(lines[2].text, "Spec DAG: 4 nodes, 3 edges");
    assert_eq!(lines[4].text, "▶ demo quest [1/2]");
    assert_eq!(lines[5].text, "  ● setup env");
    assert_eq!(lines[5].tone, LineTone::Good);
    assert_eq!(lines[6].text, "    ◐ run tests ← t1");
    assert_eq!(lines[6].tone, LineTone::Warning);
}

#[test]
fn test_content_truncates_quest_list() {
    let quests: Vec<QuestView> = (0..5)
        .map(|i| {
            let mut q = quest_with_tasks(vec![]);
            q.quest_id = format!("q{i}");
            q.title = format!("quest {i}");
            q
        })
        .collect();
    let c = text(&DagVizPanel::content(&quests, 0, 0));
    assert!(c.contains("2 more quests"));
}
