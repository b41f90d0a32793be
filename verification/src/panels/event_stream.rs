//! Event stream panel: the whole event stream, filtered by keyword, topic and
//! level, following the newest event while auto-scroll is on.
use vstd::prelude::*;
use crate::input::{KeyCode, KeyEvent, MouseEventKind};
use crate::panels::filter_cache::{filter_parts, filter_title_spec, opt_view};
use crate::panels::list_state::{adjust_scroll_spec, clamp_spec};
use crate::events::{event_rows, push_event_rows, stream_filtered, stream_positions, EventFilter, EventView};
use crate::panels::task_manager::positions;
use crate::render::{scroll_window_spec, FOOTER_TEXT};
use crate::text::{dec, push_line, push_str, push_u64, string_of, tone_views, LineTone, ToneLine};
use crate::types::{PanelId, TuiCommand};

verus! {

/// Rows the event stream text shows when no viewport height is given.
pub const CONTENT_DEFAULT_VISIBLE_ROWS: usize = 20;

/// The event stream text for the listed events `order` (positions in `events`):
/// title and rule; while auto-scroll is off and the cursor is above the last
/// event, a count of the newer events; the rows of the virtual-scroll window (or
/// a no-events line) with a count line when the list is longer than the
/// viewport; and the footer.
pub open spec fn stream_window_spec(
    events: Seq<EventView>,
    order: Seq<int>,
    auto_scroll: bool,
    selected: int,
    scroll_offset: int,
    visible_rows: int,
) -> Seq<(Seq<char>, LineTone)> {
    let total = order.len() as int;
    let head = seq![("Event Stream"@, LineTone::Plain), ("─────────────"@, LineTone::Plain)];
    let notice = if !auto_scroll && total > 0 && selected < total - 1 {
        seq![("[新事件 "@ + dec((total - 1 - selected) as nat) + " 条] 按 G 跟随"@, LineTone::Notice)]
    } else {
        Seq::empty()
    };
    let body = if total == 0 {
        seq![("[INFO]  No events"@, LineTone::Plain)]
    } else {
        let w = scroll_window_spec(total, scroll_offset, visible_rows);
        let rows = event_rows(events, order, selected, w.0, w.1);
        if total > visible_rows {
            rows.push(
                ("... showing "@ + dec((w.1 - w.0) as nat) + " of "@ + dec(total as nat) + " events"@, LineTone::Plain),
            )
        } else {
            rows
        }
    };
    head + notice + body + seq![(FOOTER_TEXT@, LineTone::Plain)]
}

/// The panel title ` base `, with ` [keyword:.. topic:.. level:..] ` for the active filters.
pub fn build_filter_title(keyword: Option<&str>, topic: Option<&str>, level: Option<&str>, base: &str) -> (r:
    String)
    ensures
        r@ == filter_title_spec(
            base@,
            filter_parts(("keyword"@, "topic"@, "level"@), opt_view(keyword), opt_view(topic), opt_view(level)),
        ),
{
    crate::panels::filter_cache::filter_title(base, ("keyword", "topic", "level"), keyword, topic, level)
}

/// Event stream state: the selected event (in the filtered list) and the scroll offset.
#[derive(Debug, Clone, PartialEq, Eq)]
pub struct EventStreamPanel {
    selected: usize,
    scroll_offset: usize,
}

impl Default for EventStreamPanel {
    /// The same as [`EventStreamPanel::new`].
    fn default() -> (r: Self)
        ensures
            r.sel() == 0,
            r.offset() == 0,
    {
        EventStreamPanel::new()
    }
}

impl EventStreamPanel {
    /// The selected event.
    pub closed spec fn sel(&self) -> usize {
        self.selected
    }

    /// The scroll offset.
    pub closed spec fn offset(&self) -> usize {
        self.scroll_offset
    }

    /// A panel at the first event.
    pub fn new() -> (r: Self)
        ensures
            r.sel() == 0,
            r.offset() == 0,
    {
        EventStreamPanel { selected: 0, scroll_offset: 0 }
    }

    /// This panel's identity.
    pub fn id(&self) -> (r: PanelId)
        ensures
            r == PanelId::EventStream,
    {
        PanelId::EventStream
    }

    /// The selected event.
    pub fn selected(&self) -> (r: usize)
        ensures
            r == self.sel(),
    {
        self.selected
    }

    /// The scroll offset.
    pub fn scroll_offset(&self) -> (r: usize)
        ensures
            r == self.offset(),
    {
        self.scroll_offset
    }

    /// The positions, oldest first, of the events that pass the filters.
    pub fn filtered_events(events: &Vec<EventView>, filter: &EventFilter) -> (r: Vec<usize>)
        ensures
            positions(r@) == stream_positions(events@, *filter),
            forall|i: int| 0 <= i < r@.len() ==> (#[trigger] r@[i]) < events@.len(),
    {
        stream_filtered(events, filter)
    }

    /// The text of the filtered event stream for the cursor `selected`, the
    /// scroll offset and a viewport of `visible_rows` rows.
    pub fn render_window(
        events: &Vec<EventView>,
        filter: &EventFilter,
        auto_scroll: bool,
        selected: usize,
        scroll_offset: usize,
        visible_rows: usize,
    ) -> (r: Vec<ToneLine>)
        ensures
            tone_views(r@) == stream_window_spec(
                events@,
                stream_positions(events@, *filter),
                auto_scroll,
                selected as int,
                scroll_offset as int,
                visible_rows as int,
            ),
    {
        let order = stream_filtered(events, filter);
        let total = order.len();
        let mut lines: Vec<ToneLine> = Vec::new();
        push_line(&mut lines, string_of("Event Stream"), LineTone::Plain);
        push_line(&mut lines, string_of("─────────────"), LineTone::Plain);
        if !auto_scroll && total > 0 && selected < total - 1 {
            let mut l = string_of("[新事件 ");
            push_u64(&mut l, (total - 1 - selected) as u64);
            push_str(&mut l, " 条] 按 G 跟随");
            push_line(&mut lines, l, LineTone::Notice);
        }
        let ghost upto_notice = tone_views(lines@);
        if total == 0 {
            push_line(&mut lines, string_of("[INFO]  No events"), LineTone::Plain);
        } else {
            let (start, end) = crate::render::virtual_scroll_window(total, scroll_offset, visible_rows);
            push_event_rows(&mut lines, events, &order, selected, start, end);
            if total > visible_rows {
                let mut l = string_of("... showing ");
                push_u64(&mut l, (end - start) as u64);
                push_str(&mut l, " of ");
                push_u64(&mut l, total as u64);
                push_str(&mut l, " events");
                push_line(&mut lines, l, LineTone::Plain);
            }
        }
        push_line(&mut lines, string_of(FOOTER_TEXT), LineTone::Plain);
        proof {
            let spec = stream_window_spec(
                events@,
                positions(order@),
                auto_scroll,
                selected as int,
                scroll_offset as int,
                visible_rows as int,
            );
            assert(tone_views(lines@) =~= spec);
        }
        lines
    }

    /// The filtered event stream text around the cursor `selected`, in a
    /// viewport of [`CONTENT_DEFAULT_VISIBLE_ROWS`] rows scrolled from the top.
    pub fn content(events: &Vec<EventView>, filter: &EventFilter, auto_scroll: bool, selected: usize) -> (r: Vec<
        ToneLine,
    >)
        ensures
            tone_views(r@) == stream_window_spec(
                events@,
                stream_positions(events@, *filter),
                auto_scroll,
                selected as int,
                adjust_scroll_spec(selected as int, 0, CONTENT_DEFAULT_VISIBLE_ROWS as int),
                CONTENT_DEFAULT_VISIBLE_ROWS as int,
            ),
    {
        let scroll_offset = crate::panels::list_state::adjust_scroll(selected, 0, CONTENT_DEFAULT_VISIBLE_ROWS);
        Self::render_window(events, filter, auto_scroll, selected, scroll_offset, CONTENT_DEFAULT_VISIBLE_ROWS)
    }

    /// Handles a key over `count` filtered events. Down/`j` moves down and turns
    /// auto-scroll off, or, on the last event, turns it back on; Up/`k` moves up
    /// and turns auto-scroll off; `g` jumps to the top; `G` jumps to the bottom
    /// and turns auto-scroll on; Enter asks for the detail of the selected event.
    pub fn handle_key(&mut self, key: KeyEvent, count: usize, auto_scroll: &mut bool) -> (r: Option<
        TuiCommand,
    >)
        requires
            old(self).sel() < usize::MAX,
        ensures
            ({
                let s = old(self).sel() as int;
                let n = count as int;
                if key.code == KeyCode::Down || key.code == KeyCode::Char('j') {
                    r is None && final(self).offset() == old(self).offset() && if n == 0 {
                        final(self).sel() == s && *final(auto_scroll) == *old(auto_scroll)
                    } else if s == n - 1 {
                        final(self).sel() == s && *final(auto_scroll)
                    } else {
                        final(self).sel() == s + 1 && !*final(auto_scroll)
                    }
                } else if key.code == KeyCode::Up || key.code == KeyCode::Char('k') {
                    r is None && final(self).offset() == old(self).offset() && final(self).sel() == (
                    if s > 0 {
                        s - 1
                    } else {
                        0
                    }) && !*final(auto_scroll)
                } else if key.code == KeyCode::Char('g') {
                    r is None && final(self).sel() == 0 && final(self).offset() == 0
                        && *final(auto_scroll) == *old(auto_scroll)
                } else if key.code == KeyCode::Char('G') {
                    r is None && *final(auto_scroll) && if n > 0 {
                        final(self).sel() == n - 1 && final(self).offset() == n - 1
                    } else {
                        *final(self) == *old(self)
                    }
                } else if key.code == KeyCode::Enter {
                    *final(self) == *old(self) && *final(auto_scroll) == *old(auto_scroll) && r == (if s
                        < n {
                        Some(TuiCommand::OpenEventDetail { index: s as usize })
                    } else {
                        None
                    })
                } else {
                    r is None && *final(self) == *old(self) && *final(auto_scroll) == *old(auto_scroll)
                }
            }),
    {
        match key.code {
            KeyCode::Down | KeyCode::Char('j') => {
                if count > 0 {
                    if self.selected == count - 1 {
                        *auto_scroll = true;
                    } else {
                        *auto_scroll = false;
                        self.selected = self.selected + 1;
                    }
                }
                None
            },
            KeyCode::Up | KeyCode::Char('k') => {
                if self.selected > 0 {
                    self.selected = self.selected - 1;
                }
                *auto_scroll = false;
                None
            },
            KeyCode::Char('g') => {
                self.scroll_to_top();
                None
            },
            KeyCode::Char('G') => {
                self.scroll_to_bottom(count, auto_scroll);
                None
            },
            KeyCode::Enter => {
                if self.selected < count {
                    Some(TuiCommand::OpenEventDetail { index: self.selected })
                } else {
                    None
                }
            },
            _ => None,
        }
    }

    /// Jumps to the first event, leaving auto-scroll as it is.
    pub fn scroll_to_top(&mut self)
        ensures
            final(self).sel() == 0,
            final(self).offset() == 0,
    {
        self.selected = 0;
        self.scroll_offset = 0;
    }

    /// Jumps to the last of `count` events and turns auto-scroll on.
    pub fn scroll_to_bottom(&mut self, count: usize, auto_scroll: &mut bool)
        ensures
            *final(auto_scroll),
            count > 0 ==> final(self).sel() == count - 1 && final(self).offset() == count - 1,
            count == 0 ==> *final(self) == *old(self),
    {
        if count > 0 {
            self.selected = count - 1;
            self.scroll_offset = self.selected;
        }
        *auto_scroll = true;
    }

    /// The wheel moves the selection among `count` events and turns auto-scroll off.
    pub fn handle_mouse(&mut self, kind: MouseEventKind, count: usize, auto_scroll: &mut bool) -> (r: Option<
        TuiCommand,
    >)
        ensures
            r is None,
            final(self).offset() == old(self).offset(),
            kind == MouseEventKind::ScrollUp ==> final(self).sel() == clamp_spec(old(self).sel() - 1, count as int)
                && !*final(auto_scroll),
            kind == MouseEventKind::ScrollDown ==> final(self).sel() == clamp_spec(old(self).sel() + 1, count as int)
                && !*final(auto_scroll),
            kind == MouseEventKind::Other ==> final(self).sel() == old(self).sel() && *final(auto_scroll)
                == *old(auto_scroll),
    {
        match crate::panels::list_state::handle_mouse_scroll(kind, self.selected, count) {
            Some(ns) => {
                self.selected = ns;
                *auto_scroll = false;
            },
            None => {},
        }
        None
    }

    /// Before a frame over `count` events shown `visible_rows` at a time: follow
    /// the newest event when auto-scroll is on and no popup is open, clamp the
    /// selection, and scroll so that it shows.
    pub fn sync_view(&mut self, count: usize, auto_scroll: bool, popup_open: bool, visible_rows: usize)
        ensures
            final(self).sel() == clamp_spec(
                if !popup_open && auto_scroll && count > 0 {
                    count - 1
                } else {
                    old(self).sel() as int
                },
                count as int,
            ),
            final(self).offset() == adjust_scroll_spec(
                final(self).sel() as int,
                old(self).offset() as int,
                visible_rows as int,
            ),
    {
        if !popup_open && auto_scroll && count > 0 {
            self.selected = count - 1;
        }
        self.selected = crate::panels::list_state::clamp_selected(self.selected, count);
        self.scroll_offset = crate::panels::list_state::adjust_scroll(
            self.selected,
            self.scroll_offset,
            visible_rows,
        );
    }
}

} // verus!
