//! Identifiers and commands shared by the panels and the application loop.
use vstd::prelude::*;
use crate::popup::PopupKind;

verus! {

/// Identity of a dashboard panel.
#[derive(Debug, Clone, Copy, PartialEq, Eq, Hash)]
pub enum PanelId {
    AgentTree,
    Budget,
    Chat,
    Chtc,
    ClvVector,
    DagViz,
    Decay,
    EventStream,
    ExperienceCardViz,
    Health,
    Help,
    InjectionStrategy,
    Log,
    McpNodes,
    Memory,
    MetricsDashboard,
    OsaSparse,
    OverWindow,
    Parliament,
    PvlScore,
    Quest,
    ResourceMonitor,
    Router,
    Security,
    SelfAssessment,
    Sysinfo,
    TaskManager,
    Timeline,
}

/// Control action on a quest.
#[derive(Debug, Clone, Copy, PartialEq, Eq)]
pub enum QuestAction {
    Pause,
    Resume,
    Terminate,
    /// New user-facing priority level.
    SetPriority(u8),
}

/// What a panel asks the application to do after handling input.
#[derive(Debug, Clone, PartialEq)]
pub enum TuiCommand {
    /// Open a popup on top of the stack.
    OpenPopup(PopupKind),
    /// Show the help overlay.
    ShowHelp,
    /// Open the detail popup of the event at this index of the panel's filtered list.
    OpenEventDetail { index: usize },
    /// Apply a control action to a quest.
    QuestControl { id: String, action: QuestAction },
    /// Ask to pause a quest.
    RequestQuestPause(String),
    /// Ask to cancel a quest (the application confirms first).
    RequestQuestCancel(String),
    /// Ask to change a quest's internal priority.
    RequestQuestPriorityChange { quest_id: String, new_priority: u8 },
    /// Switch to the event stream filtered on this quest.
    JumpToEventStream { quest_id: String },
    /// Export the task list.
    Export,
    /// Reload the data shown by the panels.
    RequestRefresh,
}

} // verus!
