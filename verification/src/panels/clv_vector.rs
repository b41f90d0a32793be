//! CLV vector panel: block means and the top dimensions of the context latent vector.
use vstd::prelude::*;
use crate::input::{KeyCode, KeyEvent, MouseEventKind};
use crate::panels::list_state::{adjust_scroll_spec, clamp_spec};
use crate::render::{scroll_window_spec, virtual_scroll_window};
use crate::text::{dec, push_str, push_u64, string_of};
use crate::types::{PanelId, TuiCommand};

verus! {

/// List panel state: the selected row and the scroll offset.
#[derive(Debug, Clone, PartialEq, Eq)]
pub struct ClvVectorPanel {
    selected: usize,
    scroll_offset: usize,
}

impl Default for ClvVectorPanel {
    /// The same as [`ClvVectorPanel::new`].
    fn default() -> (r: Self)
        ensures
            r.sel() == 0,
            r.offset() == 0,
    {
        ClvVectorPanel::new()
    }
}

impl ClvVectorPanel {
    /// The selected row.
    pub closed spec fn sel(&self) -> usize {
        self.selected
    }

    /// The scroll offset.
    pub closed spec fn offset(&self) -> usize {
        self.scroll_offset
    }

    /// A panel at the first row.
    pub fn new() -> (r: Self)
        ensures
            r.sel() == 0,
            r.offset() == 0,
    {
        ClvVectorPanel { selected: 0, scroll_offset: 0 }
    }

    /// This panel's identity.
    pub fn id(&self) -> (r: PanelId)
        ensures
            r == PanelId::ClvVector,
    {
        PanelId::ClvVector
    }

    /// The selected row.
    pub fn selected(&self) -> (r: usize)
        ensures
            r == self.sel(),
    {
        self.selected
    }

    /// The scroll offset.
    pub fn scroll_offset(&self) -> (r: usize)
        ensures
            r == self.offset(),
    {
        self.scroll_offset
    }

    /// Up/Down and `j`/`k` move within the top dimensions, `g`/`G` jump to the first/last row; other keys are ignored.
    /// `count` is the number of top dimensions.
    pub fn handle_key(&mut self, key: KeyEvent, count: usize) -> (r: Option<TuiCommand>)
        ensures
            ({
                let n = count as int;
                let s = old(self).sel() as int;
                if key.code == KeyCode::Up {
                    r is None && final(self).sel() == clamp_spec(s - 1, n) && final(self).offset()
                        == old(self).offset()
                } else if key.code == KeyCode::Down {
                    r is None && final(self).sel() == clamp_spec(s + 1, n) && final(self).offset()
                        == old(self).offset()
                } else if key.code == KeyCode::Char('j') {
                    r is None && final(self).sel() == clamp_spec(s + 1, n) && final(self).offset()
                        == old(self).offset()
                } else if key.code == KeyCode::Char('k') {
                    r is None && final(self).sel() == clamp_spec(s - 1, n) && final(self).offset()
                        == old(self).offset()
                } else if key.code == KeyCode::Char('g') {
                    r is None && final(self).sel() == 0 && final(self).offset() == 0
                } else if key.code == KeyCode::Char('G') {
                    r is None && final(self).sel() == (if n == 0 { 0 } else { n - 1 })
                        && final(self).offset() == final(self).sel()
                } else {
                    r is None && *final(self) == *old(self)
                }
            }),
    {
        match crate::panels::list_state::handle_key_navigation(key.code, self.selected, count) {
            Some(ns) => {
                self.selected = ns;
                return None;
            },
            None => {},
        }
        match key.code {
            KeyCode::Char('j') => {
                self.selected = crate::panels::list_state::move_selection(self.selected, 1, count);
                None
            },
            KeyCode::Char('k') => {
                self.selected = crate::panels::list_state::move_selection(self.selected, -1, count);
                None
            },
            KeyCode::Char('g') => {
                self.scroll_to_top();
                None
            },
            KeyCode::Char('G') => {
                self.scroll_to_bottom(count);
                None
            },
            _ => None,
        }
    }

    /// Jumps to the first row.
    pub fn scroll_to_top(&mut self)
        ensures
            final(self).sel() == 0,
            final(self).offset() == 0,
    {
        self.selected = 0;
        self.scroll_offset = 0;
    }

    /// Jumps to the last of `count` rows.
    pub fn scroll_to_bottom(&mut self, count: usize)
        ensures
            final(self).sel() == (if count == 0 { 0 } else { count - 1 }),
            final(self).offset() == final(self).sel(),
    {
        self.selected = if count == 0 { 0 } else { count - 1 };
        self.scroll_offset = self.selected;
    }

    /// Brings the state in line with a list of `count` dimensions shown in
    /// `visible_rows` rows: the selection is clamped and the offset keeps it in view.
    pub fn sync_view(&mut self, count: usize, visible_rows: usize)
        ensures
            final(self).sel() == clamp_spec(old(self).sel() as int, count as int),
            final(self).offset() == adjust_scroll_spec(
                final(self).sel() as int,
                old(self).offset() as int,
                visible_rows as int,
            ),
    {
        self.selected = crate::panels::list_state::clamp_selected(self.selected, count);
        self.scroll_offset = crate::panels::list_state::adjust_scroll(
            self.selected,
            self.scroll_offset,
            visible_rows,
        );
    }

    /// The line under the dimension list when it has more dimensions than
    /// rows: how many of the `count` the rendered window holds.
    pub fn dims_footer(count: usize, scroll_offset: usize, visible_rows: usize) -> (r: Option<String>)
        ensures
            count <= visible_rows ==> r is None,
            count > visible_rows ==> (r matches Some(s) && s@ == "... showing "@ + dec(
                (scroll_window_spec(count as int, scroll_offset as int, visible_rows as int).1
                    - scroll_window_spec(count as int, scroll_offset as int, visible_rows as int).0) as nat,
            ) + " of "@ + dec(count as nat) + " dimensions"@),
    {
        if count <= visible_rows {
            return None;
        }
        let (start, end) = virtual_scroll_window(count, scroll_offset, visible_rows);
        let mut s = string_of("... showing ");
        push_u64(&mut s, (end - start) as u64);
        push_str(&mut s, " of ");
        push_u64(&mut s, count as u64);
        push_str(&mut s, " dimensions");
        Some(s)
    }

    /// The wheel moves the selection among `count` rows.
    pub fn handle_mouse(&mut self, kind: MouseEventKind, count: usize) -> (r: Option<TuiCommand>)
        ensures
            r is None,
            final(self).offset() == old(self).offset(),
            final(self).sel() == (if kind == MouseEventKind::ScrollUp {
                clamp_spec(old(self).sel() - 1, count as int)
            } else if kind == MouseEventKind::ScrollDown {
                clamp_spec(old(self).sel() + 1, count as int)
            } else {
                old(self).sel() as int
            }),
    {
        match crate::panels::list_state::handle_mouse_scroll(kind, self.selected, count) {
            Some(ns) => {
                self.selected = ns;
            },
            None => {},
        }
        None
    }
}

} // verus!
