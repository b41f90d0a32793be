//! System log panel: the event log filtered by keyword, topic and level, with
//! page navigation and a detail popup per event.
use vstd::prelude::*;
use crate::input::{KeyCode, KeyEvent, MouseEventKind};
use crate::panels::filter_cache::{filter_parts, filter_title_spec, opt_view, FilterCache};
use crate::panels::list_state::{clamp_spec, PAGE_SIZE};
use crate::events::{event_rows, log_filtered, log_positions, push_event_rows, EventFilter, EventView};
use crate::panels::filter_cache::string_opt_view;
use crate::panels::task_manager::positions;
use crate::render::{scroll_window_spec, FOOTER_TEXT};
use crate::text::{dec, push_line, push_str, push_u64, string_of, tone_views, LineTone, ToneLine};
use crate::types::{PanelId, TuiCommand};

verus! {

/// Rows the log text shows when no viewport height is given.
pub const LOG_CONTENT_DEFAULT_VISIBLE_ROWS: usize = 20;

/// Translated words of the log text.
#[derive(Debug, Clone, PartialEq, Eq)]
pub struct LogLabels {
    pub body_title: String,
    /// Shown when no event passes the filters.
    pub no_matching: String,
    /// The words of the count line `... showing N of M events`.
    pub showing: String,
    pub of: String,
    pub events: String,
}

/// The log text for the listed events `order` (positions in `events`): title
/// and rule; the rows of the virtual-scroll window (or the no-match line) with
/// a count line when the list is longer than the viewport; an empty line and the footer.
pub open spec fn log_window_spec(
    events: Seq<EventView>,
    order: Seq<int>,
    labels: LogLabels,
    selected: int,
    scroll_offset: int,
    visible_rows: int,
) -> Seq<(Seq<char>, LineTone)> {
    let total = order.len() as int;
    let head = seq![(labels.body_title@, LineTone::Plain), ("─────────────"@, LineTone::Plain)];
    let body = if total == 0 {
        seq![(labels.no_matching@, LineTone::Plain)]
    } else {
        let w = scroll_window_spec(total, scroll_offset, visible_rows);
        let rows = event_rows(events, order, selected, w.0, w.1);
        if total > visible_rows {
            rows.push(
                (
                    "... "@ + labels.showing@ + " "@ + dec((w.1 - w.0) as nat) + " "@ + labels.of@ + " "@ + dec(
                        total as nat,
                    ) + " "@ + labels.events@,
                    LineTone::Plain,
                ),
            )
        } else {
            rows
        }
    };
    head + body + seq![(Seq::empty(), LineTone::Plain), (FOOTER_TEXT@, LineTone::Plain)]
}

/// The panel title ` base `, with ` [k:.. t:.. l:..] ` for the active filters,
/// each labelled with the given (translated) label.
pub fn build_filter_title(
    keyword: Option<&str>,
    topic: Option<&str>,
    level: Option<&str>,
    base: &str,
    labels: (&str, &str, &str),
) -> (r: String)
    ensures
        r@ == filter_title_spec(
            base@,
            filter_parts((labels.0@, labels.1@, labels.2@), opt_view(keyword), opt_view(topic), opt_view(level)),
        ),
{
    crate::panels::filter_cache::filter_title(base, labels, keyword, topic, level)
}

/// Log panel state: the selected event, the scroll offset and the cache of
/// filtered indices.
#[derive(Debug, Clone)]
pub struct LogPanel {
    selected: usize,
    scroll_offset: usize,
    filter_cache: FilterCache,
}

impl Default for LogPanel {
    /// The same as [`LogPanel::new`].
    fn default() -> (r: Self)
        ensures
            r.sel() == 0,
            r.offset() == 0,
    {
        LogPanel::new()
    }
}

impl LogPanel {
    /// The selected event.
    pub closed spec fn sel(&self) -> usize {
        self.selected
    }

    /// The scroll offset.
    pub closed spec fn offset(&self) -> usize {
        self.scroll_offset
    }

    /// A panel at the first event, with an empty cache.
    pub fn new() -> (r: Self)
        ensures
            r.sel() == 0,
            r.offset() == 0,
    {
        LogPanel { selected: 0, scroll_offset: 0, filter_cache: FilterCache::new() }
    }

    /// This panel's identity.
    pub fn id(&self) -> (r: PanelId)
        ensures
            r == PanelId::Log,
    {
        PanelId::Log
    }

    /// The selected event.
    pub fn selected(&self) -> (r: usize)
        ensures
            r == self.sel(),
    {
        self.selected
    }

    /// The scroll offset.
    pub fn scroll_offset(&self) -> (r: usize)
        ensures
            r == self.offset(),
    {
        self.scroll_offset
    }

    /// The cache of filtered indices.
    pub closed spec fn cache(&self) -> FilterCache {
        self.filter_cache
    }

    /// The cache of filtered indices.
    pub fn filter_cache(&self) -> (r: &FilterCache)
        ensures
            *r == self.cache(),
    {
        &self.filter_cache
    }

    /// The positions, newest first, of the events that pass the filters.
    pub fn filtered_events(events: &Vec<EventView>, filter: &EventFilter) -> (r: Vec<usize>)
        ensures
            positions(r@) == log_positions(events@, *filter),
            forall|i: int| 0 <= i < r@.len() ==> (#[trigger] r@[i]) < events@.len(),
    {
        log_filtered(events, filter)
    }

    /// The filtered positions through the cache. Once a snapshot has been taken
    /// (`revision` not 0), the cached positions are returned when they were
    /// computed for the event set `events_id` and these filters; otherwise they
    /// are computed afresh and, with a snapshot, remembered.
    pub fn filtered_events_cached(
        &mut self,
        events: &Vec<EventView>,
        events_id: usize,
        revision: u64,
        filter: &EventFilter,
    ) -> (r: Vec<usize>)
        ensures
            final(self).sel() == old(self).sel(),
            final(self).offset() == old(self).offset(),
            ({
                let key = (
                    events_id,
                    string_opt_view(filter.keyword),
                    string_opt_view(filter.topic),
                    string_opt_view(filter.level),
                );
                if revision != 0 && old(self).cache().key() == key {
                    r@ == old(self).cache().cached() && final(self).cache() == old(self).cache()
                } else {
                    &&& positions(r@) == log_positions(events@, *filter)
                    &&& revision != 0 ==> final(self).cache().key() == key && final(self).cache().cached() == r@
                    &&& revision == 0 ==> final(self).cache() == old(self).cache()
                }
            }),
    {
        let enabled = FilterCache::enabled(revision);
        if enabled && self.filter_cache.matches(events_id, &filter.keyword, &filter.topic, &filter.level) {
            return self.filter_cache.indices().clone();
        }
        let indices = log_filtered(events, filter);
        if enabled {
            self.filter_cache.update(events_id, &filter.keyword, &filter.topic, &filter.level, indices.clone());
        }
        indices
    }

    /// The text of the filtered log for the cursor `selected`, the scroll
    /// offset and a viewport of `visible_rows` rows.
    pub fn render_window(
        events: &Vec<EventView>,
        order: &Vec<usize>,
        labels: &LogLabels,
        selected: usize,
        scroll_offset: usize,
        visible_rows: usize,
    ) -> (r: Vec<ToneLine>)
        requires
            forall|i: int| 0 <= i < order@.len() ==> (#[trigger] order@[i]) < events@.len(),
        ensures
            tone_views(r@) == log_window_spec(
                events@,
                positions(order@),
                *labels,
                selected as int,
                scroll_offset as int,
                visible_rows as int,
            ),
    {
        let total = order.len();
        let mut lines: Vec<ToneLine> = Vec::new();
        push_line(&mut lines, labels.body_title.clone(), LineTone::Plain);
        push_line(&mut lines, string_of("─────────────"), LineTone::Plain);
        if total == 0 {
            push_line(&mut lines, labels.no_matching.clone(), LineTone::Plain);
        } else {
            let (start, end) = crate::render::virtual_scroll_window(total, scroll_offset, visible_rows);
            push_event_rows(&mut lines, events, order, selected, start, end);
            if total > visible_rows {
                let mut l = string_of("... ");
                push_str(&mut l, labels.showing.as_str());
                push_str(&mut l, " ");
                push_u64(&mut l, (end - start) as u64);
                push_str(&mut l, " ");
                push_str(&mut l, labels.of.as_str());
                push_str(&mut l, " ");
                push_u64(&mut l, total as u64);
                push_str(&mut l, " ");
                push_str(&mut l, labels.events.as_str());
                push_line(&mut lines, l, LineTone::Plain);
            }
        }
        push_line(&mut lines, String::new(), LineTone::Plain);
        push_line(&mut lines, string_of(FOOTER_TEXT), LineTone::Plain);
        proof {
            let spec = log_window_spec(
                events@,
                positions(order@),
                *labels,
                selected as int,
                scroll_offset as int,
                visible_rows as int,
            );
            assert(tone_views(lines@) =~= spec);
        }
        lines
    }

    /// The filtered log text around the cursor `selected`, in a viewport of
    /// [`LOG_CONTENT_DEFAULT_VISIBLE_ROWS`] rows scrolled from the top.
    pub fn content(events: &Vec<EventView>, filter: &EventFilter, labels: &LogLabels, selected: usize) -> (r: Vec<
        ToneLine,
    >)
        ensures
            tone_views(r@) == log_window_spec(
                events@,
                log_positions(events@, *filter),
                *labels,
                selected as int,
                crate::panels::list_state::adjust_scroll_spec(
                    selected as int,
                    0,
                    LOG_CONTENT_DEFAULT_VISIBLE_ROWS as int,
                ),
                LOG_CONTENT_DEFAULT_VISIBLE_ROWS as int,
            ),
    {
        let order = log_filtered(events, filter);
        let scroll_offset = crate::panels::list_state::adjust_scroll(selected, 0, LOG_CONTENT_DEFAULT_VISIBLE_ROWS);
        Self::render_window(events, &order, labels, selected, scroll_offset, LOG_CONTENT_DEFAULT_VISIBLE_ROWS)
    }

    /// Up/Down move by one event and PageUp/PageDown by a page among `count`
    /// filtered events, Enter asks for the detail of the selected event, `g`/`G`
    /// jump to the first/last event; other keys are ignored.
    pub fn handle_key(&mut self, key: KeyEvent, count: usize) -> (r: Option<TuiCommand>)
        ensures
            ({
                let n = count as int;
                let s = old(self).sel() as int;
                if key.code == KeyCode::Up {
                    r is None && final(self).sel() == clamp_spec(s - 1, n) && final(self).offset()
                        == old(self).offset()
                } else if key.code == KeyCode::Down {
                    r is None && final(self).sel() == clamp_spec(s + 1, n) && final(self).offset()
                        == old(self).offset()
                } else if key.code == KeyCode::PageUp {
                    r is None && final(self).sel() == clamp_spec(s - PAGE_SIZE, n) && final(self).offset()
                        == old(self).offset()
                } else if key.code == KeyCode::PageDown {
                    r is None && final(self).sel() == clamp_spec(s + PAGE_SIZE, n) && final(self).offset()
                        == old(self).offset()
                } else if key.code == KeyCode::Enter {
                    final(self).sel() == old(self).sel() && final(self).offset() == old(self).offset() && r
                        == (if s < n {
                        Some(TuiCommand::OpenEventDetail { index: s as usize })
                    } else {
                        None
                    })
                } else if key.code == KeyCode::Char('g') {
                    r is None && final(self).sel() == 0 && final(self).offset() == 0
                } else if key.code == KeyCode::Char('G') {
                    r is None && final(self).sel() == (if n == 0 { 0 } else { n - 1 })
                        && final(self).offset() == final(self).sel()
                } else {
                    r is None && final(self).sel() == old(self).sel() && final(self).offset()
                        == old(self).offset()
                }
            }),
    {
        match crate::panels::list_state::handle_key_navigation(key.code, self.selected, count) {
            Some(ns) => {
                self.selected = ns;
                return None;
            },
            None => {},
        }
        match crate::panels::list_state::handle_key_page_navigation(key.code, self.selected, count) {
            Some(ns) => {
                self.selected = ns;
                return None;
            },
            None => {},
        }
        match key.code {
            KeyCode::Enter => {
                if self.selected < count {
                    Some(TuiCommand::OpenEventDetail { index: self.selected })
                } else {
                    None
                }
            },
            KeyCode::Char('g') => {
                self.scroll_to_top();
                None
            },
            KeyCode::Char('G') => {
                self.scroll_to_bottom(count);
                None
            },
            _ => None,
        }
    }

    /// Jumps to the first event.
    pub fn scroll_to_top(&mut self)
        ensures
            final(self).sel() == 0,
            final(self).offset() == 0,
    {
        self.selected = 0;
        self.scroll_offset = 0;
    }

    /// Jumps to the last of `count` events.
    pub fn scroll_to_bottom(&mut self, count: usize)
        ensures
            final(self).sel() == (if count == 0 { 0 } else { count - 1 }),
            final(self).offset() == final(self).sel(),
    {
        self.selected = if count == 0 { 0 } else { count - 1 };
        self.scroll_offset = self.selected;
    }

    /// The wheel moves the selection among `count` events.
    pub fn handle_mouse(&mut self, kind: MouseEventKind, count: usize) -> (r: Option<TuiCommand>)
        ensures
            r is None,
            final(self).offset() == old(self).offset(),
            final(self).sel() == (if kind == MouseEventKind::ScrollUp {
                clamp_spec(old(self).sel() - 1, count as int)
            } else if kind == MouseEventKind::ScrollDown {
                clamp_spec(old(self).sel() + 1, count as int)
            } else {
                old(self).sel() as int
            }),
    {
        match crate::panels::list_state::handle_mouse_scroll(kind, self.selected, count) {
            Some(ns) => {
                self.selected = ns;
            },
            None => {},
        }
        None
    }

    /// The shortcuts this panel declares.
    pub fn shortcuts(&self) -> (r: Vec<(&'static str, &'static str)>)
        ensures
            r@.len() == 5,
            r@[0].0@ == "↑/↓"@ && r@[0].1@ == "导航"@,
            r@[1].0@ == "PgUp/PgDn"@ && r@[1].1@ == "翻页"@,
            r@[2].0@ == "g g"@ && r@[2].1@ == "跳顶"@,
            r@[3].0@ == "G"@ && r@[3].1@ == "跳底"@,
            r@[4].0@ == "/"@ && r@[4].1@ == "过滤"@,
    {
        vec![("↑/↓", "导航"), ("PgUp/PgDn", "翻页"), ("g g", "跳顶"), ("G", "跳底"), ("/", "过滤")]
    }
}

} // verus!
