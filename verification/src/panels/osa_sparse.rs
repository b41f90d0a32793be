//! OSA sparse panel: the files of the sparse attention context mask.
use vstd::prelude::*;
use crate::input::{KeyCode, KeyEvent, MouseEventKind};
use crate::panels::list_state::{adjust_scroll_spec, clamp_spec};
use crate::render::scroll_window_spec;
use crate::text::{dec, pad_left, push_str, push_u64, push_u64_right, string_of, views};
use crate::types::{PanelId, TuiCommand};

verus! {

/// The list row of a context file: cursor mark, 1-based number right-aligned to
/// three columns, and the file id.
pub open spec fn file_line(file: Seq<char>, index: int, selected: bool) -> Seq<char> {
    (if selected { "> "@ } else { "  "@ }) + pad_left(dec((index + 1) as nat), 3) + ". "@ + file
}

/// The rows of the context file list the panel draws for the given cursor,
/// scroll offset and viewport height: the rows of the virtual-scroll window,
/// and a count line when the list is longer than the viewport.
pub open spec fn osa_window_lines(files: Seq<String>, selected: int, scroll_offset: int, visible_rows: int) -> Seq<
    Seq<char>,
> {
    if files.len() == 0 {
        seq!["No active context files. Waiting for OSA coordinator..."@]
    } else {
        let w = scroll_window_spec(files.len() as int, scroll_offset, visible_rows);
        let rows = Seq::new(
            (w.1 - w.0) as nat,
            |k: int| file_line(files[w.0 + k]@, w.0 + k, w.0 + k == selected),
        );
        if files.len() > visible_rows {
            rows.push("... showing "@ + dec((w.1 - w.0) as nat) + " of "@ + dec(files.len()) + " files"@)
        } else {
            rows
        }
    }
}

/// List panel state: the selected row and the scroll offset.
#[derive(Debug, Clone, PartialEq, Eq)]
pub struct OsaSparsePanel {
    selected: usize,
    scroll_offset: usize,
}

impl Default for OsaSparsePanel {
    /// The same as [`OsaSparsePanel::new`].
    fn default() -> (r: Self)
        ensures
            r.sel() == 0,
            r.offset() == 0,
    {
        OsaSparsePanel::new()
    }
}

impl OsaSparsePanel {
    /// The selected row.
    pub closed spec fn sel(&self) -> usize {
        self.selected
    }

    /// The scroll offset.
    pub closed spec fn offset(&self) -> usize {
        self.scroll_offset
    }

    /// A panel at the first row.
    pub fn new() -> (r: Self)
        ensures
            r.sel() == 0,
            r.offset() == 0,
    {
        OsaSparsePanel { selected: 0, scroll_offset: 0 }
    }

    /// This panel's identity.
    pub fn id(&self) -> (r: PanelId)
        ensures
            r == PanelId::OsaSparse,
    {
        PanelId::OsaSparse
    }

    /// The selected row.
    pub fn selected(&self) -> (r: usize)
        ensures
            r == self.sel(),
    {
        self.selected
    }

    /// The scroll offset.
    pub fn scroll_offset(&self) -> (r: usize)
        ensures
            r == self.offset(),
    {
        self.scroll_offset
    }

    /// Up/Down and `j`/`k` move within the context files, `g`/`G` jump to the first/last row; other keys are ignored.
    /// `count` is the number of context files.
    pub fn handle_key(&mut self, key: KeyEvent, count: usize) -> (r: Option<TuiCommand>)
        ensures
            ({
                let n = count as int;
                let s = old(self).sel() as int;
                if key.code == KeyCode::Up {
                    r is None && final(self).sel() == clamp_spec(s - 1, n) && final(self).offset()
                        == old(self).offset()
                } else if key.code == KeyCode::Down {
                    r is None && final(self).sel() == clamp_spec(s + 1, n) && final(self).offset()
                        == old(self).offset()
                } else if key.code == KeyCode::Char('j') {
                    r is None && final(self).sel() == clamp_spec(s + 1, n) && final(self).offset()
                        == old(self).offset()
                } else if key.code == KeyCode::Char('k') {
                    r is None && final(self).sel() == clamp_spec(s - 1, n) && final(self).offset()
                        == old(self).offset()
                } else if key.code == KeyCode::Char('g') {
                    r is None && final(self).sel() == 0 && final(self).offset() == 0
                } else if key.code == KeyCode::Char('G') {
                    r is None && final(self).sel() == (if n == 0 { 0 } else { n - 1 })
                        && final(self).offset() == final(self).sel()
                } else {
                    r is None && *final(self) == *old(self)
                }
            }),
    {
        match crate::panels::list_state::handle_key_navigation(key.code, self.selected, count) {
            Some(ns) => {
                self.selected = ns;
                return None;
            },
            None => {},
        }
        match key.code {
            KeyCode::Char('j') => {
                self.selected = crate::panels::list_state::move_selection(self.selected, 1, count);
                None
            },
            KeyCode::Char('k') => {
                self.selected = crate::panels::list_state::move_selection(self.selected, -1, count);
                None
            },
            KeyCode::Char('g') => {
                self.scroll_to_top();
                None
            },
            KeyCode::Char('G') => {
                self.scroll_to_bottom(count);
                None
            },
            _ => None,
        }
    }

    /// Jumps to the first row.
    pub fn scroll_to_top(&mut self)
        ensures
            final(self).sel() == 0,
            final(self).offset() == 0,
    {
        self.selected = 0;
        self.scroll_offset = 0;
    }

    /// Jumps to the last of `count` rows.
    pub fn scroll_to_bottom(&mut self, count: usize)
        ensures
            final(self).sel() == (if count == 0 { 0 } else { count - 1 }),
            final(self).offset() == final(self).sel(),
    {
        self.selected = if count == 0 { 0 } else { count - 1 };
        self.scroll_offset = self.selected;
    }

    /// The wheel moves the selection among `count` rows.
    pub fn handle_mouse(&mut self, kind: MouseEventKind, count: usize) -> (r: Option<TuiCommand>)
        ensures
            r is None,
            final(self).offset() == old(self).offset(),
            final(self).sel() == (if kind == MouseEventKind::ScrollUp {
                clamp_spec(old(self).sel() - 1, count as int)
            } else if kind == MouseEventKind::ScrollDown {
                clamp_spec(old(self).sel() + 1, count as int)
            } else {
                old(self).sel() as int
            }),
    {
        match crate::panels::list_state::handle_mouse_scroll(kind, self.selected, count) {
            Some(ns) => {
                self.selected = ns;
            },
            None => {},
        }
        None
    }

    /// Brings the cursor back into a list of `count` files and scrolls so that
    /// it shows in a viewport of `visible_rows` rows.
    pub fn sync_view(&mut self, count: usize, visible_rows: usize)
        ensures
            final(self).sel() == clamp_spec(old(self).sel() as int, count as int),
            final(self).offset() == adjust_scroll_spec(
                final(self).sel() as int,
                old(self).offset() as int,
                visible_rows as int,
            ),
    {
        self.selected = crate::panels::list_state::clamp_selected(self.selected, count);
        self.scroll_offset = crate::panels::list_state::adjust_scroll(
            self.selected,
            self.scroll_offset,
            visible_rows,
        );
    }

    /// The rows of the context file list for the cursor `selected`, the scroll
    /// offset and the viewport height.
    pub fn render_window(files: &Vec<String>, selected: usize, scroll_offset: usize, visible_rows: usize) -> (r: Vec<
        String,
    >)
        ensures
            views(r@) == osa_window_lines(files@, selected as int, scroll_offset as int, visible_rows as int),
    {
        let mut lines: Vec<String> = Vec::new();
        let total = files.len();
        if total == 0 {
            lines.push(string_of("No active context files. Waiting for OSA coordinator..."));
            proof {
                assert(views(lines@) =~= osa_window_lines(
                    files@,
                    selected as int,
                    scroll_offset as int,
                    visible_rows as int,
                ));
            }
            return lines;
        }
        let (start, end) = crate::render::virtual_scroll_window(total, scroll_offset, visible_rows);
        let ghost rows = Seq::new(
            (end - start) as nat,
            |k: int| file_line(files@[start + k]@, start + k, start + k == selected),
        );
        let mut idx: usize = start;
        while idx < end
            invariant
                start <= idx <= end,
                end <= files@.len(),
                rows == Seq::new(
                    (end - start) as nat,
                    |k: int| file_line(files@[start + k]@, start + k, start + k == selected),
                ),
                views(lines@) == rows.take(idx - start),
            decreases end - idx,
        {
            let mut l = if idx == selected {
                string_of("> ")
            } else {
                string_of("  ")
            };
            push_u64_right(&mut l, idx as u64 + 1, 3);
            push_str(&mut l, ". ");
            push_str(&mut l, files[idx].as_str());
            let ghost before = lines@;
            lines.push(l);
            proof {
                assert(rows[idx - start] == l@);
                assert(rows.take(idx - start + 1) =~= rows.take(idx - start).push(l@));
                assert(views(lines@) =~= views(before).push(l@));
            }
            idx = idx + 1;
        }
        proof {
            assert(rows.take(end - start) =~= rows);
        }
        if total > visible_rows {
            let mut l = string_of("... showing ");
            push_u64(&mut l, (end - start) as u64);
            push_str(&mut l, " of ");
            push_u64(&mut l, total as u64);
            push_str(&mut l, " files");
            let ghost before = lines@;
            lines.push(l);
            proof {
                assert(views(lines@) =~= views(before).push(l@));
            }
        }
        lines
    }

    /// The shortcuts this panel declares.
    pub fn shortcuts(&self) -> (r: Vec<(&'static str, &'static str)>)
        ensures
            r@.len() == 1,
            r@[0].0@ == "R"@ && r@[0].1@ == "刷新"@,
    {
        vec![("R", "刷新")]
    }
}

} // verus!
