//! Timeline panel: periodic snapshots of the system metrics, with a detail per snapshot.
use vstd::prelude::*;
use crate::input::{KeyCode, KeyEvent, MouseEventKind};
use crate::panels::list_state::clamp_spec;
use crate::popup::PopupKind;
use crate::text::{dec, push_u64, string_of};
use crate::types::{PanelId, TuiCommand};

verus! {

/// List panel state: the selected row and the scroll offset.
#[derive(Debug, Clone, PartialEq, Eq)]
pub struct TimelinePanel {
    selected: usize,
    scroll_offset: usize,
}

impl Default for TimelinePanel {
    /// The same as [`TimelinePanel::new`].
    fn default() -> (r: Self)
        ensures
            r.sel() == 0,
            r.offset() == 0,
    {
        TimelinePanel::new()
    }
}

impl TimelinePanel {
    /// The selected row.
    pub closed spec fn sel(&self) -> usize {
        self.selected
    }

    /// The scroll offset.
    pub closed spec fn offset(&self) -> usize {
        self.scroll_offset
    }

    /// A panel at the first row.
    pub fn new() -> (r: Self)
        ensures
            r.sel() == 0,
            r.offset() == 0,
    {
        TimelinePanel { selected: 0, scroll_offset: 0 }
    }

    /// This panel's identity.
    pub fn id(&self) -> (r: PanelId)
        ensures
            r == PanelId::Timeline,
    {
        PanelId::Timeline
    }

    /// The selected row.
    pub fn selected(&self) -> (r: usize)
        ensures
            r == self.sel(),
    {
        self.selected
    }

    /// The scroll offset.
    pub fn scroll_offset(&self) -> (r: usize)
        ensures
            r == self.offset(),
    {
        self.scroll_offset
    }

    /// Up/Down and `j`/`k` move within the snapshots, Enter opens the detail of the selected entry, `g`/`G` jump to the first/last row; other keys are ignored.
    /// `count` is the number of snapshots.
    pub fn handle_key(&mut self, key: KeyEvent, count: usize, detail: &String) -> (r: Option<TuiCommand>)
        ensures
            ({
                let n = count as int;
                let s = old(self).sel() as int;
                if key.code == KeyCode::Up {
                    r is None && final(self).sel() == clamp_spec(s - 1, n) && final(self).offset()
                        == old(self).offset()
                } else if key.code == KeyCode::Down {
                    r is None && final(self).sel() == clamp_spec(s + 1, n) && final(self).offset()
                        == old(self).offset()
                } else if key.code == KeyCode::Char('j') {
                    r is None && final(self).sel() == clamp_spec(s + 1, n) && final(self).offset()
                        == old(self).offset()
                } else if key.code == KeyCode::Char('k') {
                    r is None && final(self).sel() == clamp_spec(s - 1, n) && final(self).offset()
                        == old(self).offset()
                } else if key.code == KeyCode::Enter {
                    *final(self) == *old(self) && if s < n {
                        r matches Some(TuiCommand::OpenPopup(PopupKind::Detail { title, content, scroll }))
                            && title@ == "Timeline Snapshot #"@ + dec((s + 1) as nat) && content@ == detail@
                            && scroll == 0
                    } else {
                        r is None
                    }
                } else if key.code == KeyCode::Char('g') {
                    r is None && final(self).sel() == 0 && final(self).offset() == 0
                } else if key.code == KeyCode::Char('G') {
                    r is None && final(self).sel() == (if n == 0 { 0 } else { n - 1 })
                        && final(self).offset() == final(self).sel()
                } else {
                    r is None && *final(self) == *old(self)
                }
            }),
    {
        match crate::panels::list_state::handle_key_navigation(key.code, self.selected, count) {
            Some(ns) => {
                self.selected = ns;
                return None;
            },
            None => {},
        }
        match key.code {
            KeyCode::Char('j') => {
                self.selected = crate::panels::list_state::move_selection(self.selected, 1, count);
                None
            },
            KeyCode::Char('k') => {
                self.selected = crate::panels::list_state::move_selection(self.selected, -1, count);
                None
            },
            KeyCode::Enter => {
                if self.selected < count {
                    let mut title = string_of("Timeline Snapshot #");
                    push_u64(&mut title, self.selected as u64 + 1);
                    Some(TuiCommand::OpenPopup(PopupKind::Detail { title, content: detail.clone(), scroll: 0 }))
                } else {
                    None
                }
            },
            KeyCode::Char('g') => {
                self.scroll_to_top();
                None
            },
            KeyCode::Char('G') => {
                self.scroll_to_bottom(count);
                None
            },
            _ => None,
        }
    }

    /// Jumps to the first row.
    pub fn scroll_to_top(&mut self)
        ensures
            final(self).sel() == 0,
            final(self).offset() == 0,
    {
        self.selected = 0;
        self.scroll_offset = 0;
    }

    /// Jumps to the last of `count` rows.
    pub fn scroll_to_bottom(&mut self, count: usize)
        ensures
            final(self).sel() == (if count == 0 { 0 } else { count - 1 }),
            final(self).offset() == final(self).sel(),
    {
        self.selected = if count == 0 { 0 } else { count - 1 };
        self.scroll_offset = self.selected;
    }

    /// The wheel moves the selection among `count` rows.
    pub fn handle_mouse(&mut self, kind: MouseEventKind, count: usize) -> (r: Option<TuiCommand>)
        ensures
            r is None,
            final(self).offset() == old(self).offset(),
            final(self).sel() == (if kind == MouseEventKind::ScrollUp {
                clamp_spec(old(self).sel() - 1, count as int)
            } else if kind == MouseEventKind::ScrollDown {
                clamp_spec(old(self).sel() + 1, count as int)
            } else {
                old(self).sel() as int
            }),
    {
        match crate::panels::list_state::handle_mouse_scroll(kind, self.selected, count) {
            Some(ns) => {
                self.selected = ns;
            },
            None => {},
        }
        None
    }
}

} // verus!
