//! MCP nodes panel: the nodes of the MCP mesh, their status, throughput and
//! heartbeat age, with a detail popup per node.
use vstd::prelude::*;
use crate::input::{KeyCode, KeyEvent, MouseEventKind};
use crate::panels::list_state::clamp_spec;
use crate::popup::PopupKind;
use crate::text::{dec, join, push_str, push_u64, string_of, views, LineTone};
use crate::types::{PanelId, TuiCommand};

verus! {

/// Seconds without a heartbeat after which a node counts as timed out.
pub const HEARTBEAT_TIMEOUT_SECS: i64 = 5;

/// Reported status of a node.
#[derive(Debug, Clone, Copy, PartialEq, Eq, Structural)]
pub enum NodeStatus {
    Online,
    Degraded,
    Offline,
}

/// One node of the mesh.
#[derive(Debug, Clone, PartialEq, Eq)]
pub struct McpNodeStatus {
    pub node_id: String,
    pub status: NodeStatus,
    /// Messages per second.
    pub throughput: u64,
    /// Time of the last heartbeat, in milliseconds since the epoch; `None` if
    /// none was received.
    pub last_seen_ms: Option<i64>,
}

/// The calendar text `YYYY-MM-DD HH:MM:SS UTC` of an instant given in
/// milliseconds since the epoch, as chrono formats it; `None` outside chrono's range.
pub uninterp spec fn utc_time_text(millis: i64) -> Option<Seq<char>>;

/// Calls chrono's `DateTime::<Utc>::from_timestamp_millis` and formats the
/// instant with `%Y-%m-%d %H:%M:%S UTC`; the result is named [`utc_time_text`].
#[verifier::external_body]
fn format_utc_time(millis: i64) -> (r: Option<String>)
    ensures
        crate::panels::filter_cache::string_opt_view(r) == utc_time_text(millis),
{
    match chrono::DateTime::<chrono::Utc>::from_timestamp_millis(millis) {
        Some(t) => Some(t.format("%Y-%m-%d %H:%M:%S UTC").to_string()),
        None => None,
    }
}

/// The calendar text of an instant, empty outside chrono's range.
pub open spec fn utc_or_empty(millis: i64) -> Seq<char> {
    match utc_time_text(millis) {
        Some(t) => t,
        None => Seq::empty(),
    }
}

/// Appends the calendar text of an instant to `out`, nothing outside chrono's range.
pub(crate) fn push_utc_time(out: &mut String, millis: i64)
    ensures
        final(out)@ == old(out)@ + utc_or_empty(millis),
{
    match format_utc_time(millis) {
        Some(t) => push_str(out, t.as_str()),
        None => {},
    }
}

/// Whole seconds from `seen` to `now` (milliseconds), 0 when `now` is not later.
pub open spec fn age_secs(seen: i64, now: i64) -> int {
    if now - seen > 0 {
        (now - seen) / 1000
    } else {
        0
    }
}

/// Whether the heartbeat is older than the timeout, or missing.
pub open spec fn timed_out_spec(last_seen: Option<i64>, now: i64) -> bool {
    match last_seen {
        Some(t) => age_secs(t, now) > HEARTBEAT_TIMEOUT_SECS,
        None => true,
    }
}

/// `Ns ago`, `Nm ago`, `Nh ago` or `Nd ago` by the largest unit that fits, or `never`.
pub open spec fn last_seen_text(last_seen: Option<i64>, now: i64) -> Seq<char> {
    match last_seen {
        Some(t) => {
            let a = age_secs(t, now);
            if a < 60 {
                dec(a as nat) + "s ago"@
            } else if a < 3600 {
                dec((a / 60) as nat) + "m ago"@
            } else if a < 86400 {
                dec((a / 3600) as nat) + "h ago"@
            } else {
                dec((a / 86400) as nat) + "d ago"@
            }
        },
        None => "never"@,
    }
}

/// Name of a status as the detail shows it.
pub open spec fn status_name(s: NodeStatus) -> Seq<char> {
    match s {
        NodeStatus::Online => "Online"@,
        NodeStatus::Degraded => "Degraded"@,
        NodeStatus::Offline => "Offline"@,
    }
}

/// Symbol of a status.
pub open spec fn status_symbol_spec(s: NodeStatus) -> Seq<char> {
    match s {
        NodeStatus::Online => "●"@,
        NodeStatus::Degraded => "▲"@,
        NodeStatus::Offline => "✗"@,
    }
}

/// Lines of the detail popup of a node at time `now`.
pub open spec fn node_detail_lines(n: McpNodeStatus, now: i64) -> Seq<Seq<char>> {
    seq![
        "Node ID: "@ + n.node_id@,
        "Status: "@ + status_name(n.status),
        "Throughput: "@ + dec(n.throughput as nat) + " msg/s"@,
    ] + match n.last_seen_ms {
        Some(t) => seq![
            "Last Seen: "@ + utc_or_empty(t),
            "Heartbeat Age: "@ + dec(age_secs(t, now) as nat) + "s"@,
        ] + if age_secs(t, now) > HEARTBEAT_TIMEOUT_SECS {
            seq!["Warning: Heartbeat timed out (>5s threshold)"@]
        } else {
            Seq::empty()
        },
        None => seq!["Last Seen: (never)"@, "Warning: No heartbeat received"@],
    }
}

/// Nodes listed by the panel at most.
pub const MAX_NODES_SHOWN: usize = 50;

/// Alert lines for the offline (or timed out) nodes among the first `n`.
pub open spec fn alert_lines(nodes: Seq<McpNodeStatus>, now: i64, n: int) -> Seq<Seq<char>>
    decreases n,
{
    if n <= 0 {
        Seq::empty()
    } else {
        let r = alert_lines(nodes, now, n - 1);
        let node = nodes[n - 1];
        if node.status == NodeStatus::Offline || timed_out_spec(node.last_seen_ms, now) {
            r.push("[ALERT] Node "@ + node.node_id@ + " offline"@)
        } else {
            r
        }
    }
}

/// One node row.
pub open spec fn node_row(node: McpNodeStatus, selected: bool, now: i64) -> Seq<char> {
    (if selected { "> "@ } else { "  "@ }) + "["@ + status_symbol_spec(node.status) + "] "@ + node.node_id@
        + "  "@ + dec(node.throughput as nat) + " msg/s  last_seen: "@ + last_seen_text(node.last_seen_ms, now)
}

/// The panel's lines at time `now`: alerts (and a blank line) if any node is
/// offline, then the first 50 nodes (or a note that there are none), a blank
/// line and the footer.
pub open spec fn mcp_content_lines(nodes: Seq<McpNodeStatus>, selected: int, now: i64) -> Seq<Seq<char>> {
    let alerts = alert_lines(nodes, now, nodes.len() as int);
    let shown = if nodes.len() > MAX_NODES_SHOWN { MAX_NODES_SHOWN as int } else { nodes.len() as int };
    (if alerts.len() > 0 { alerts.push(Seq::empty()) } else { Seq::empty() }) + (if nodes.len() == 0 {
        seq!["No MCP nodes connected"@]
    } else {
        Seq::new(shown as nat, |i: int| node_row(nodes[i], i == selected, now))
    }) + seq![Seq::<char>::empty(), crate::render::FOOTER_TEXT@]
}

/// Heartbeat age in whole seconds.
fn age_of(seen: i64, now: i64) -> (r: u64)
    ensures
        r == age_secs(seen, now),
{
    let diff: i128 = now as i128 - seen as i128;
    if diff > 0 {
        (diff / 1000) as u64
    } else {
        0
    }
}

/// MCP nodes panel state: the selected node and the scroll offset.
#[derive(Debug, Clone, PartialEq, Eq)]
pub struct McpNodesPanel {
    selected: usize,
    scroll_offset: usize,
}

impl Default for McpNodesPanel {
    /// The same as [`McpNodesPanel::new`].
    fn default() -> (r: Self)
        ensures
            r.sel() == 0,
            r.offset() == 0,
    {
        McpNodesPanel::new()
    }
}

impl McpNodesPanel {
    /// The selected node.
    pub closed spec fn sel(&self) -> usize {
        self.selected
    }

    /// The scroll offset.
    pub closed spec fn offset(&self) -> usize {
        self.scroll_offset
    }

    /// A panel at the first node.
    pub fn new() -> (r: Self)
        ensures
            r.sel() == 0,
            r.offset() == 0,
    {
        McpNodesPanel { selected: 0, scroll_offset: 0 }
    }

    /// This panel's identity.
    pub fn id(&self) -> (r: PanelId)
        ensures
            r == PanelId::McpNodes,
    {
        PanelId::McpNodes
    }

    /// The selected node.
    pub fn selected(&self) -> (r: usize)
        ensures
            r == self.sel(),
    {
        self.selected
    }

    /// Symbol of a status: `●` online, `▲` degraded, `✗` offline.
    pub fn status_symbol(status: NodeStatus) -> (r: &'static str)
        ensures
            r@ == status_symbol_spec(status),
    {
        match status {
            NodeStatus::Online => "●",
            NodeStatus::Degraded => "▲",
            NodeStatus::Offline => "✗",
        }
    }

    /// Tone of a status: good online, a warning degraded, an alert offline.
    pub fn status_tone(status: NodeStatus) -> (r: LineTone)
        ensures
            r == match status {
                NodeStatus::Online => LineTone::Good,
                NodeStatus::Degraded => LineTone::Warning,
                NodeStatus::Offline => LineTone::Alert,
            },
    {
        match status {
            NodeStatus::Online => LineTone::Good,
            NodeStatus::Degraded => LineTone::Warning,
            NodeStatus::Offline => LineTone::Alert,
        }
    }

    /// Whether the node's heartbeat, at time `now_ms`, is missing or older than
    /// [`HEARTBEAT_TIMEOUT_SECS`].
    pub fn is_timed_out(node: &McpNodeStatus, now_ms: i64) -> (r: bool)
        ensures
            r == timed_out_spec(node.last_seen_ms, now_ms),
    {
        match node.last_seen_ms {
            Some(t) => age_of(t, now_ms) > HEARTBEAT_TIMEOUT_SECS as u64,
            None => true,
        }
    }

    /// Whether the node reports offline or has timed out.
    pub fn is_offline(node: &McpNodeStatus, now_ms: i64) -> (r: bool)
        ensures
            r == (node.status == NodeStatus::Offline || timed_out_spec(node.last_seen_ms, now_ms)),
    {
        node.status == NodeStatus::Offline || Self::is_timed_out(node, now_ms)
    }

    /// The text lines of the panel at time `now_ms`, row `selected` marked
    /// (colours are applied by the renderer).
    pub fn content_lines(nodes: &Vec<McpNodeStatus>, selected: usize, now_ms: i64) -> (r: Vec<String>)
        ensures
            views(r@) == mcp_content_lines(nodes@, selected as int, now_ms),
    {
        let mut lines: Vec<String> = Vec::new();
        let mut k: usize = 0;
        while k < nodes.len()
            invariant
                k <= nodes@.len(),
                views(lines@) == alert_lines(nodes@, now_ms, k as int),
            decreases nodes@.len() - k,
        {
            if Self::is_offline(&nodes[k], now_ms) {
                let mut l = string_of("[ALERT] Node ");
                push_str(&mut l, nodes[k].node_id.as_str());
                push_str(&mut l, " offline");
                let ghost before = lines@;
                lines.push(l);
                proof {
                    assert(views(lines@) =~= views(before).push(l@));
                }
            }
            k = k + 1;
        }
        let ghost alerts = views(lines@);
        if lines.len() > 0 {
            lines.push(String::new());
        }
        let ghost head = views(lines@);
        proof {
            assert(head =~= (if alerts.len() > 0 { alerts.push(Seq::empty()) } else { Seq::empty() }));
        }
        if nodes.len() == 0 {
            lines.push(string_of("No MCP nodes connected"));
        } else {
            let shown = if nodes.len() > MAX_NODES_SHOWN { MAX_NODES_SHOWN } else { nodes.len() };
            let ghost rows = Seq::new(shown as nat, |i: int| node_row(nodes@[i], i == selected, now_ms));
            let mut i: usize = 0;
            while i < shown
                invariant
                    i <= shown,
                    shown <= nodes@.len(),
                    rows == Seq::new(shown as nat, |i: int| node_row(nodes@[i], i == selected, now_ms)),
                    views(lines@) == head + rows.take(i as int),
                decreases shown - i,
            {
                let node = &nodes[i];
                let mut l = if i == selected {
                    string_of("> ")
                } else {
                    string_of("  ")
                };
                push_str(&mut l, "[");
                push_str(&mut l, Self::status_symbol(node.status));
                push_str(&mut l, "] ");
                push_str(&mut l, node.node_id.as_str());
                push_str(&mut l, "  ");
                push_u64(&mut l, node.throughput);
                push_str(&mut l, " msg/s  last_seen: ");
                let seen = Self::format_last_seen(node.last_seen_ms, now_ms);
                push_str(&mut l, seen.as_str());
                let ghost before = lines@;
                lines.push(l);
                proof {
                    assert(rows[i as int] == l@);
                    assert(rows.take(i + 1) =~= rows.take(i as int).push(l@));
                    assert(views(lines@) =~= views(before).push(l@));
                }
                i = i + 1;
            }
            proof {
                assert(rows.take(shown as int) =~= rows);
            }
        }
        let ghost body = views(lines@);
        lines.push(String::new());
        lines.push(string_of(crate::render::FOOTER_TEXT));
        proof {
            assert(views(lines@) =~= body + seq![Seq::<char>::empty(), crate::render::FOOTER_TEXT@]);
            assert(views(lines@) =~= mcp_content_lines(nodes@, selected as int, now_ms));
        }
        lines
    }

    /// Age of the last heartbeat in the largest unit that fits, or `never`.
    pub fn format_last_seen(last_seen_ms: Option<i64>, now_ms: i64) -> (r: String)
        ensures
            r@ == last_seen_text(last_seen_ms, now_ms),
    {
        match last_seen_ms {
            Some(t) => {
                let secs = age_of(t, now_ms);
                let mut out = String::new();
                if secs < 60 {
                    push_u64(&mut out, secs);
                    push_str(&mut out, "s ago");
                } else if secs < 3600 {
                    push_u64(&mut out, secs / 60);
                    push_str(&mut out, "m ago");
                } else if secs < 86400 {
                    push_u64(&mut out, secs / 3600);
                    push_str(&mut out, "h ago");
                } else {
                    push_u64(&mut out, secs / 86400);
                    push_str(&mut out, "d ago");
                }
                out
            },
            None => string_of("never"),
        }
    }

    /// The detail popup text of a node at time `now_ms`, lines joined by newlines.
    pub fn detail_content(node: &McpNodeStatus, now_ms: i64) -> (r: String)
        ensures
            r@ == join(node_detail_lines(*node, now_ms), "\n"@),
    {
        let mut lines: Vec<String> = Vec::new();
        let mut l0 = string_of("Node ID: ");
        push_str(&mut l0, node.node_id.as_str());
        lines.push(l0);
        let mut l1 = string_of("Status: ");
        push_str(
            &mut l1,
            match node.status {
                NodeStatus::Online => "Online",
                NodeStatus::Degraded => "Degraded",
                NodeStatus::Offline => "Offline",
            },
        );
        lines.push(l1);
        let mut l2 = string_of("Throughput: ");
        push_u64(&mut l2, node.throughput);
        push_str(&mut l2, " msg/s");
        lines.push(l2);
        match node.last_seen_ms {
            Some(t) => {
                let age = age_of(t, now_ms);
                let mut l3 = string_of("Last Seen: ");
                push_utc_time(&mut l3, t);
                lines.push(l3);
                let mut l4 = string_of("Heartbeat Age: ");
                push_u64(&mut l4, age);
                push_str(&mut l4, "s");
                lines.push(l4);
                if age > HEARTBEAT_TIMEOUT_SECS as u64 {
                    lines.push(string_of("Warning: Heartbeat timed out (>5s threshold)"));
                }
            },
            None => {
                lines.push(string_of("Last Seen: (never)"));
                lines.push(string_of("Warning: No heartbeat received"));
            },
        }
        proof {
            assert(views(lines@) =~= node_detail_lines(*node, now_ms));
        }
        crate::text::join_strings(&lines, "\n")
    }

    /// Up/Down move among the `nodes`, Enter opens the detail of the selected
    /// node as of `now_ms`, `g`/`G` jump to the first/last node; other keys are ignored.
    pub fn handle_key(&mut self, key: KeyEvent, nodes: &Vec<McpNodeStatus>, now_ms: i64) -> (r: Option<
        TuiCommand,
    >)
        ensures
            ({
                let n = nodes@.len() as int;
                let s = old(self).sel() as int;
                if key.code == KeyCode::Up {
                    r is None && final(self).sel() == clamp_spec(s - 1, n) && final(self).offset()
                        == old(self).offset()
                } else if key.code == KeyCode::Down {
                    r is None && final(self).sel() == clamp_spec(s + 1, n) && final(self).offset()
                        == old(self).offset()
                } else if key.code == KeyCode::Enter {
                    *final(self) == *old(self) && if 0 <= s < n {
                        r matches Some(TuiCommand::OpenPopup(PopupKind::Detail { title, content, scroll }))
                            && title@ == "Node "@ + nodes@[s].node_id@ + " Detail"@ && content@ == join(
                            node_detail_lines(nodes@[s], now_ms),
                            "\n"@,
                        ) && scroll == 0
                    } else {
                        r is None
                    }
                } else if key.code == KeyCode::Char('g') {
                    r is None && final(self).sel() == 0 && final(self).offset() == 0
                } else if key.code == KeyCode::Char('G') {
                    r is None && final(self).sel() == (if n == 0 { 0 } else { n - 1 })
                        && final(self).offset() == final(self).sel()
                } else {
                    r is None && *final(self) == *old(self)
                }
            }),
    {
        let count = nodes.len();
        match crate::panels::list_state::handle_key_navigation(key.code, self.selected, count) {
            Some(ns) => {
                self.selected = ns;
                return None;
            },
            None => {},
        }
        match key.code {
            KeyCode::Enter => {
                if self.selected < count {
                    let node = &nodes[self.selected];
                    let content = Self::detail_content(node, now_ms);
                    let mut title = string_of("Node ");
                    push_str(&mut title, node.node_id.as_str());
                    push_str(&mut title, " Detail");
                    Some(TuiCommand::OpenPopup(PopupKind::Detail { title, content, scroll: 0 }))
                } else {
                    None
                }
            },
            KeyCode::Char('g') => {
                self.scroll_to_top();
                None
            },
            KeyCode::Char('G') => {
                self.scroll_to_bottom(count);
                None
            },
            _ => None,
        }
    }

    /// Jumps to the first node.
    pub fn scroll_to_top(&mut self)
        ensures
            final(self).sel() == 0,
            final(self).offset() == 0,
    {
        self.selected = 0;
        self.scroll_offset = 0;
    }

    /// Jumps to the last of `count` nodes.
    pub fn scroll_to_bottom(&mut self, count: usize)
        ensures
            final(self).sel() == (if count == 0 { 0 } else { count - 1 }),
            final(self).offset() == final(self).sel(),
    {
        self.selected = if count == 0 { 0 } else { count - 1 };
        self.scroll_offset = self.selected;
    }

    /// The wheel moves the selection among `count` nodes.
    pub fn handle_mouse(&mut self, kind: MouseEventKind, count: usize) -> (r: Option<TuiCommand>)
        ensures
            r is None,
            final(self).offset() == old(self).offset(),
            final(self).sel() == (if kind == MouseEventKind::ScrollUp {
                clamp_spec(old(self).sel() - 1, count as int)
            } else if kind == MouseEventKind::ScrollDown {
                clamp_spec(old(self).sel() + 1, count as int)
            } else {
                old(self).sel() as int
            }),
    {
        match crate::panels::list_state::handle_mouse_scroll(kind, self.selected, count) {
            Some(ns) => {
                self.selected = ns;
            },
            None => {},
        }
        None
    }
}

} // verus!
