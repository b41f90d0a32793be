//! Parliament panel: votes, consensus, vetoes, audits, interventions, debates
//! and probes, newest first, with a render cache keyed on everything the text
//! depends on, and the governance header line.
use vstd::prelude::*;
use crate::events::{EventKind, EventView};
use crate::input::{KeyCode, KeyEvent, MouseEventKind};
use crate::panels::filter_cache::string_opt_view;
use crate::panels::list_state::{adjust_scroll_spec, clamp_spec};
use crate::panels::task_manager::positions;
use crate::render::{scroll_window_spec, FOOTER_TEXT};
use crate::text::{clone_lines, dec, push_line, push_str, push_u64, string_of, tone_views, LineTone, ToneLine};
use crate::types::{PanelId, TuiCommand};

verus! {

/// Translated words of the parliament panel.
#[derive(Debug, Clone, PartialEq, Eq)]
pub struct ParliamentLabels {
    pub body_title: String,
    /// Shown when there is no parliament event.
    pub no_events: String,
    /// Label of an audit's detection rate.
    pub detection: String,
    /// A vote for.
    pub vote_for: String,
    /// A vote against.
    pub vote_against: String,
    /// Label of a probe's failures.
    pub failed: String,
    /// Label of the governance line.
    pub governance: String,
    /// Shown on the governance line when no governance data arrived.
    pub no_data: String,
    pub coordination: String,
    pub gain: String,
    pub cap: String,
}

/// Whether an event of kind `k` is a parliament event.
pub open spec fn is_parliament(k: EventKind) -> bool {
    k is VoteCast || k is ConsensusReached || k is SkepticVeto || k is RedTeamAudit || k is AsaIntervention
        || k is VetoOverridden || k is DebateStarted || k is AhirtProbeCompleted
}

/// Positions, newest first, of the parliament events among the first `n`.
pub open spec fn parliament_upto(events: Seq<EventView>, n: int) -> Seq<int>
    decreases n,
{
    if n <= 0 {
        Seq::empty()
    } else {
        let rest = parliament_upto(events, n - 1);
        if is_parliament(events[n - 1].kind) {
            seq![n - 1] + rest
        } else {
            rest
        }
    }
}

/// Positions, newest first, of the parliament events.
pub open spec fn parliament_positions(events: Seq<EventView>) -> Seq<int> {
    parliament_upto(events, events.len() as int)
}

/// The positions below `n` listed among the first `n` events are exactly
/// those of the parliament events, in decreasing order.
proof fn lemma_parliament_upto_members(events: Seq<EventView>, n: int)
    ensures
        forall|x: int| #[trigger] parliament_upto(events, n).contains(x) <==> (0 <= x < n && is_parliament(events[x].kind)),
        forall|a: int, b: int|
            0 <= a < b < parliament_upto(events, n).len() ==> parliament_upto(events, n)[a] > parliament_upto(events, n)[b],
        forall|a: int| 0 <= a < parliament_upto(events, n).len() ==> parliament_upto(events, n)[a] < n,
    decreases n,
{
    if n > 0 {
        lemma_parliament_upto_members(events, n - 1);
        let r = parliament_upto(events, n - 1);
        if is_parliament(events[n - 1].kind) {
            let q = seq![n - 1] + r;
            assert forall|x: int| #[trigger] q.contains(x) <==> (0 <= x < n && is_parliament(events[x].kind)) by {
                if x == n - 1 {
                    assert(q[0] == x);
                }
                if q.contains(x) && x != n - 1 {
                    let w = choose|w: int| 0 <= w < q.len() && #[trigger] q[w] == x;
                    assert(r[w - 1] == x);
                    assert(r.contains(x));
                }
                if r.contains(x) {
                    let w = choose|w: int| 0 <= w < r.len() && #[trigger] r[w] == x;
                    assert(q[w + 1] == x);
                }
            }
            assert forall|a: int, b: int| 0 <= a < b < q.len() implies q[a] > q[b] by {
                if a > 0 {
                    assert(q[a] == r[a - 1]);
                }
                assert(q[b] == r[b - 1]);
            }
        }
    }
}

/// The parliament panel lists exactly the events that are a vote, a
/// consensus, a skeptic veto, a red-team audit, a safety intervention, an
/// overridden veto, a debate start or an adversarial probe, newest first.
pub proof fn lemma_parliament_events_listed(events: Seq<EventView>)
    ensures
        forall|i: int|
            #[trigger] parliament_positions(events).contains(i) <==> (0 <= i < events.len() && (events[i].kind is VoteCast
                || events[i].kind is ConsensusReached || events[i].kind is SkepticVeto || events[i].kind is RedTeamAudit
                || events[i].kind is AsaIntervention || events[i].kind is VetoOverridden
                || events[i].kind is DebateStarted || events[i].kind is AhirtProbeCompleted)),
        forall|a: int, b: int|
            0 <= a < b < parliament_positions(events).len() ==> parliament_positions(events)[a] > parliament_positions(
                events,
            )[b],
{
    lemma_parliament_upto_members(events, events.len() as int);
}

/// The label, summary and tone of a parliament event (for any other event, empty pieces).
pub open spec fn parliament_row_parts(k: EventKind, labels: ParliamentLabels) -> (Seq<char>, Seq<char>, LineTone) {
    match k {
        EventKind::SkepticVeto { quest_id, veto_reason } => (
            "SkepticVeto"@,
            quest_id@ + " | "@ + veto_reason@,
            LineTone::Alert,
        ),
        EventKind::VetoOverridden { quest_id, proposal_id, override_reason } => (
            "VetoOverridden"@,
            quest_id@ + " | "@ + proposal_id@ + " | "@ + override_reason@,
            LineTone::Alert,
        ),
        EventKind::AsaIntervention { operation_id, action, block_reason } => (
            "AsaIntervention"@,
            operation_id@ + " | "@ + match block_reason {
                Some(r) => if r@.len() > 0 {
                    r@
                } else {
                    action@
                },
                None => action@,
            },
            LineTone::Warning,
        ),
        EventKind::RedTeamAudit { vulnerability_type, detection, remediation_suggestion } => (
            "RedTeamAudit"@,
            vulnerability_type@ + " | "@ + labels.detection@ + "="@ + detection@ + " | "@ + remediation_suggestion@,
            LineTone::Caution,
        ),
        EventKind::ConsensusReached { quest_id, decision_hash } => (
            "ParliamentConsensusReached"@,
            quest_id@ + " | "@ + decision_hash@,
            LineTone::Good,
        ),
        EventKind::VoteCast { proposal_id, voter, vote } => (
            "ParliamentVoteCast"@,
            proposal_id@ + " | "@ + voter@ + ": "@ + if vote {
                labels.vote_for@
            } else {
                labels.vote_against@
            },
            LineTone::Plain,
        ),
        EventKind::DebateStarted { quest_id, proposal_id } => (
            "DebateStarted"@,
            quest_id@ + " | "@ + proposal_id@,
            LineTone::Info,
        ),
        EventKind::AhirtProbeCompleted { probe_type, total, failed } => (
            "AhirtProbeCompleted"@,
            probe_type@ + " | "@ + labels.failed@ + "="@ + dec(failed as nat) + "/"@ + dec(total as nat),
            LineTone::Warning,
        ),
        _ => (Seq::empty(), Seq::empty(), LineTone::Plain),
    }
}

/// The row of a parliament event: cursor mark, `[label] ` and summary; the
/// cursor row is highlighted, the others take their kind's tone.
pub open spec fn parliament_row(e: EventView, labels: ParliamentLabels, selected: bool) -> (Seq<char>, LineTone) {
    let p = parliament_row_parts(e.kind, labels);
    (
        (if selected { "> "@ } else { "  "@ }) + "["@ + p.0 + "] "@ + p.1,
        if selected { LineTone::Highlight } else { p.2 },
    )
}

/// The rows of the listed events `order` in the window `window` (cut to the
/// list), or the no-events line when nothing is listed.
pub open spec fn parliament_body(
    events: Seq<EventView>,
    order: Seq<int>,
    labels: ParliamentLabels,
    selected: int,
    window: (int, int),
) -> Seq<(Seq<char>, LineTone)> {
    if order.len() == 0 {
        seq![(labels.no_events@, LineTone::Plain)]
    } else {
        let start = if window.0 < order.len() { window.0 } else { order.len() as int };
        let end = if window.1 < order.len() { window.1 } else { order.len() as int };
        Seq::new(
            (if start <= end { end - start } else { 0 }) as nat,
            |k: int| parliament_row(events[order[start + k]], labels, start + k == selected),
        )
    }
}

/// The parliament text for the listed events `order` and the window
/// `window` of rows: title and rule, the rows of the window (or the no-events
/// line), an empty line and the footer.
pub open spec fn parliament_content(
    events: Seq<EventView>,
    order: Seq<int>,
    labels: ParliamentLabels,
    selected: int,
    window: (int, int),
) -> Seq<(Seq<char>, LineTone)> {
    seq![(labels.body_title@, LineTone::Plain), ("─────────────"@, LineTone::Plain)] + parliament_body(
        events,
        order,
        labels,
        selected,
        window,
    ) + seq![(Seq::empty(), LineTone::Plain), (FOOTER_TEXT@, LineTone::Plain)]
}

/// The view of an optional pair of strings.
pub open spec fn pair_opt_view(o: Option<(String, String)>) -> Option<(Seq<char>, Seq<char>)> {
    match o {
        Some(c) => Some((c.0@, c.1@)),
        None => None,
    }
}

/// Tone of a strategy cap level: full is good, simplified a warning, any other level an alert.
pub open spec fn cap_tone(cap: Seq<char>) -> LineTone {
    if cap == "full"@ {
        LineTone::Good
    } else if cap == "simplified"@ {
        LineTone::Warning
    } else {
        LineTone::Alert
    }
}

/// The pieces of the governance line: its label, then either a no-data piece
/// or the coordination piece (cost in ms and gain, as already formatted) and
/// the strategy cap piece, each only when its data arrived.
pub open spec fn governance_spec(
    coordination: Option<(Seq<char>, Seq<char>)>,
    cap: Option<Seq<char>>,
    labels: ParliamentLabels,
) -> Seq<(Seq<char>, LineTone)> {
    let head = seq![(labels.governance@, LineTone::Plain)];
    if coordination is None && cap is None {
        head.push((" "@ + labels.no_data@, LineTone::Muted))
    } else {
        head + match coordination {
            Some(c) => seq![
                (
                    " "@ + labels.coordination@ + "="@ + c.0 + "ms "@ + labels.gain@ + "="@ + c.1,
                    LineTone::Info,
                ),
            ],
            None => Seq::empty(),
        } + match cap {
            Some(k) => seq![(" "@ + labels.cap@ + "="@ + k, cap_tone(k))],
            None => Seq::empty(),
        }
    }
}

/// The key of the cached parliament text: snapshot revision, cursor, window and locale.
#[derive(Debug, Clone, Copy, PartialEq, Eq, Structural)]
pub struct ParliamentRenderKey {
    pub revision: u64,
    pub selected: usize,
    /// Start of the row window.
    pub window_start: usize,
    /// End (exclusive) of the row window.
    pub window_end: usize,
    pub locale: u8,
}

/// Parliament panel state: cursor, scroll offset and the cached text with the
/// key, event count and window it was built for.
#[derive(Debug, Clone)]
pub struct ParliamentPanel {
    selected: usize,
    scroll_offset: usize,
    cached_key: Option<ParliamentRenderKey>,
    cached_lines: Vec<ToneLine>,
    cached_count: usize,
    cached_window: Option<(usize, usize)>,
}

/// The positions, newest first, of the parliament events.
pub fn parliament_events(events: &Vec<EventView>) -> (r: Vec<usize>)
    ensures
        positions(r@) == parliament_positions(events@),
        forall|i: int| 0 <= i < r@.len() ==> (#[trigger] r@[i]) < events@.len(),
{
    let mut r: Vec<usize> = Vec::new();
    let mut k: usize = events.len();
    while k > 0
        invariant
            k <= events@.len(),
            positions(r@) + parliament_upto(events@, k as int) == parliament_positions(events@),
            forall|i: int| 0 <= i < r@.len() ==> (#[trigger] r@[i]) < events@.len(),
        decreases k,
    {
        let ghost before = r@;
        let ghost rest = parliament_upto(events@, k - 1);
        let keep = match &events[k - 1].kind {
            EventKind::VoteCast { .. } | EventKind::ConsensusReached { .. } | EventKind::SkepticVeto { .. }
            | EventKind::RedTeamAudit { .. } | EventKind::AsaIntervention { .. } | EventKind::VetoOverridden { .. }
            | EventKind::DebateStarted { .. } | EventKind::AhirtProbeCompleted { .. } => true,
            _ => false,
        };
        if keep {
            r.push(k - 1);
            proof {
                assert(positions(r@) =~= positions(before).push((k - 1) as int));
                assert(positions(r@) + rest =~= positions(before) + (seq![(k - 1) as int] + rest));
            }
        }
        k = k - 1;
    }
    proof {
        assert(positions(r@) + Seq::<int>::empty() =~= positions(r@));
    }
    r
}

/// Whether `a` equals the literal `lit`.
fn str_eq(a: &str, lit: &str) -> (r: bool)
    ensures
        r == (a@ == lit@),
{
    let x = string_of(a);
    let y = string_of(lit);
    x == y
}

/// The label, summary and tone of a parliament event.
fn row_parts(k: &EventKind, labels: &ParliamentLabels) -> (r: (&'static str, String, LineTone))
    ensures
        (r.0@, r.1@, r.2) == parliament_row_parts(*k, *labels),
{
    match k {
        EventKind::SkepticVeto { quest_id, veto_reason } => {
            let mut s = quest_id.clone();
            push_str(&mut s, " | ");
            push_str(&mut s, veto_reason.as_str());
            ("SkepticVeto", s, LineTone::Alert)
        },
        EventKind::VetoOverridden { quest_id, proposal_id, override_reason } => {
            let mut s = quest_id.clone();
            push_str(&mut s, " | ");
            push_str(&mut s, proposal_id.as_str());
            push_str(&mut s, " | ");
            push_str(&mut s, override_reason.as_str());
            ("VetoOverridden", s, LineTone::Alert)
        },
        EventKind::AsaIntervention { operation_id, action, block_reason } => {
            let mut s = operation_id.clone();
            push_str(&mut s, " | ");
            match block_reason {
                Some(reason) => {
                    if reason.as_str().unicode_len() > 0 {
                        push_str(&mut s, reason.as_str());
                    } else {
                        push_str(&mut s, action.as_str());
                    }
                },
                None => push_str(&mut s, action.as_str()),
            }
            ("AsaIntervention", s, LineTone::Warning)
        },
        EventKind::RedTeamAudit { vulnerability_type, detection, remediation_suggestion } => {
            let mut s = vulnerability_type.clone();
            push_str(&mut s, " | ");
            push_str(&mut s, labels.detection.as_str());
            push_str(&mut s, "=");
            push_str(&mut s, detection.as_str());
            push_str(&mut s, " | ");
            push_str(&mut s, remediation_suggestion.as_str());
            ("RedTeamAudit", s, LineTone::Caution)
        },
        EventKind::ConsensusReached { quest_id, decision_hash } => {
            let mut s = quest_id.clone();
            push_str(&mut s, " | ");
            push_str(&mut s, decision_hash.as_str());
            ("ParliamentConsensusReached", s, LineTone::Good)
        },
        EventKind::VoteCast { proposal_id, voter, vote } => {
            let mut s = proposal_id.clone();
            push_str(&mut s, " | ");
            push_str(&mut s, voter.as_str());
            push_str(&mut s, ": ");
            if *vote {
                push_str(&mut s, labels.vote_for.as_str());
            } else {
                push_str(&mut s, labels.vote_against.as_str());
            }
            ("ParliamentVoteCast", s, LineTone::Plain)
        },
        EventKind::DebateStarted { quest_id, proposal_id } => {
            let mut s = quest_id.clone();
            push_str(&mut s, " | ");
            push_str(&mut s, proposal_id.as_str());
            ("DebateStarted", s, LineTone::Info)
        },
        EventKind::AhirtProbeCompleted { probe_type, total, failed } => {
            let mut s = probe_type.clone();
            push_str(&mut s, " | ");
            push_str(&mut s, labels.failed.as_str());
            push_str(&mut s, "=");
            push_u64(&mut s, *failed);
            push_str(&mut s, "/");
            push_u64(&mut s, *total);
            ("AhirtProbeCompleted", s, LineTone::Warning)
        },
        _ => {
            proof {
                reveal_strlit("");
            }
            ("", String::new(), LineTone::Plain)
        },
    }
}

/// What drawing a frame does: from `pre` to `post`, answering the text `r`;
/// see [`ParliamentPanel::render`].
pub open spec fn parliament_render_effect(
    pre: ParliamentPanel,
    post: ParliamentPanel,
    r: Seq<(Seq<char>, LineTone)>,
    events: Seq<EventView>,
    labels: ParliamentLabels,
    revision: u64,
    locale: u8,
    list_height: usize,
) -> bool {
    let content_height = if list_height >= 3 { list_height - 3 } else { 0 };
    let old_w = match pre.cached_window() {
        Some(w) => w,
        None => (0usize, 0usize),
    };
    let probe = ParliamentRenderKey {
        revision,
        selected: pre.sel(),
        window_start: old_w.0,
        window_end: old_w.1,
        locale,
    };
    let hit = revision != 0 && pre.cache_key() == Some(probe);
    let count = if hit {
        pre.cached_count() as int
    } else {
        parliament_positions(events).len() as int
    };
    let sel = clamp_spec(pre.sel() as int, count);
    let off = adjust_scroll_spec(sel, pre.offset() as int, content_height as int);
    let w = scroll_window_spec(count, off, content_height as int);
    let key = ParliamentRenderKey {
        revision,
        selected: sel as usize,
        window_start: w.0 as usize,
        window_end: w.1 as usize,
        locale,
    };
    &&& post.sel() == sel
    &&& post.offset() == off
    &&& if hit && probe == key {
        &&& r == pre.cached_text()
        &&& post.cache_key() == pre.cache_key()
        &&& post.cached_text() == pre.cached_text()
        &&& post.cached_count() == pre.cached_count()
        &&& post.cached_window() == pre.cached_window()
    } else {
        &&& r == parliament_content(events, parliament_positions(events), labels, sel, w)
        &&& post.cached_text() == r
        &&& post.cached_count() == count
        &&& post.cached_window() == Some((w.0 as usize, w.1 as usize))
        &&& post.cache_key() == (if revision != 0 {
            Some(key)
        } else {
            None
        })
    }
}

/// Once a snapshot has been taken, a second frame drawn with the same events,
/// words, revision, locale and height is served from the cache: it shows the
/// text of the first frame and leaves the panel as the first frame left it.
pub proof fn lemma_parliament_render_repeat(
    p0: ParliamentPanel,
    p1: ParliamentPanel,
    p2: ParliamentPanel,
    r1: Seq<(Seq<char>, LineTone)>,
    r2: Seq<(Seq<char>, LineTone)>,
    events: Seq<EventView>,
    labels: ParliamentLabels,
    revision: u64,
    locale: u8,
    list_height: usize,
)
    requires
        revision != 0,
        parliament_render_effect(p0, p1, r1, events, labels, revision, locale, list_height),
        parliament_render_effect(p1, p2, r2, events, labels, revision, locale, list_height),
    ensures
        r2 == r1,
        p2.sel() == p1.sel(),
        p2.offset() == p1.offset(),
        p2.cache_key() == p1.cache_key(),
        p2.cached_text() == p1.cached_text(),
        p2.cached_count() == p1.cached_count(),
        p2.cached_window() == p1.cached_window(),
{
}

impl ParliamentPanel {
    /// The cursor row.
    pub closed spec fn sel(&self) -> usize {
        self.selected
    }

    /// The scroll offset.
    pub closed spec fn offset(&self) -> usize {
        self.scroll_offset
    }

    /// The key of the cached text, if any.
    pub closed spec fn cache_key(&self) -> Option<ParliamentRenderKey> {
        self.cached_key
    }

    /// The cached text.
    pub closed spec fn cached_text(&self) -> Seq<(Seq<char>, LineTone)> {
        tone_views(self.cached_lines@)
    }

    /// The event count the cached text was built for.
    pub closed spec fn cached_count(&self) -> usize {
        self.cached_count
    }

    /// The window the cached text was built for, if any.
    pub closed spec fn cached_window(&self) -> Option<(usize, usize)> {
        self.cached_window
    }

    /// A panel at the first row with nothing cached.
    pub fn new() -> (r: Self)
        ensures
            r.sel() == 0,
            r.offset() == 0,
            r.cache_key() is None,
            r.cached_window() is None,
            r.cached_text().len() == 0,
            r.cached_count() == 0,
    {
        ParliamentPanel {
            selected: 0,
            scroll_offset: 0,
            cached_key: None,
            cached_lines: Vec::new(),
            cached_count: 0,
            cached_window: None,
        }
    }

    /// This panel's identity.
    pub fn id(&self) -> (r: PanelId)
        ensures
            r == PanelId::Parliament,
    {
        PanelId::Parliament
    }

    /// The cursor row.
    pub fn selected(&self) -> (r: usize)
        ensures
            r == self.sel(),
    {
        self.selected
    }

    /// The scroll offset.
    pub fn scroll_offset(&self) -> (r: usize)
        ensures
            r == self.offset(),
    {
        self.scroll_offset
    }

    /// The key of the cached text, if any.
    pub fn cached_key(&self) -> (r: Option<ParliamentRenderKey>)
        ensures
            r == self.cache_key(),
    {
        self.cached_key
    }

    /// Replaces the key of the cached text.
    pub fn set_cached_key(&mut self, key: Option<ParliamentRenderKey>)
        ensures
            final(self).cache_key() == key,
            final(self).sel() == old(self).sel(),
            final(self).offset() == old(self).offset(),
            final(self).cached_text() == old(self).cached_text(),
            final(self).cached_count() == old(self).cached_count(),
            final(self).cached_window() == old(self).cached_window(),
    {
        self.cached_key = key;
    }

    /// Replaces the cached text.
    pub fn set_cached_text(&mut self, lines: Vec<ToneLine>)
        ensures
            final(self).cached_text() == tone_views(lines@),
            final(self).cache_key() == old(self).cache_key(),
            final(self).sel() == old(self).sel(),
            final(self).offset() == old(self).offset(),
            final(self).cached_count() == old(self).cached_count(),
            final(self).cached_window() == old(self).cached_window(),
    {
        self.cached_lines = lines;
    }

    /// Up/Down move among `count` listed events, Enter asks for the detail of
    /// the selected one; other keys are ignored.
    pub fn handle_key(&mut self, key: KeyEvent, count: usize) -> (r: Option<TuiCommand>)
        ensures
            ({
                let n = count as int;
                let s = old(self).sel() as int;
                if key.code == KeyCode::Up {
                    r is None && final(self).sel() == clamp_spec(s - 1, n) && final(self).offset()
                        == old(self).offset()
                } else if key.code == KeyCode::Down {
                    r is None && final(self).sel() == clamp_spec(s + 1, n) && final(self).offset()
                        == old(self).offset()
                } else if key.code == KeyCode::Enter {
                    final(self).sel() == old(self).sel() && final(self).offset() == old(self).offset() && r == (if s
                        < n {
                        Some(TuiCommand::OpenEventDetail { index: s as usize })
                    } else {
                        None
                    })
                } else {
                    r is None && final(self).sel() == old(self).sel() && final(self).offset() == old(self).offset()
                }
            }),
            final(self).cache_key() == old(self).cache_key(),
            final(self).cached_text() == old(self).cached_text(),
            final(self).cached_count() == old(self).cached_count(),
            final(self).cached_window() == old(self).cached_window(),
    {
        match crate::panels::list_state::handle_key_navigation(key.code, self.selected, count) {
            Some(ns) => {
                self.selected = ns;
                return None;
            },
            None => {},
        }
        match key.code {
            KeyCode::Enter => {
                if self.selected < count {
                    Some(TuiCommand::OpenEventDetail { index: self.selected })
                } else {
                    None
                }
            },
            _ => None,
        }
    }

    /// Jumps to the first row.
    pub fn scroll_to_top(&mut self)
        ensures
            final(self).sel() == 0,
            final(self).offset() == 0,
            final(self).cache_key() == old(self).cache_key(),
            final(self).cached_text() == old(self).cached_text(),
            final(self).cached_count() == old(self).cached_count(),
            final(self).cached_window() == old(self).cached_window(),
    {
        self.selected = 0;
        self.scroll_offset = 0;
    }

    /// Jumps to the last of `count` rows.
    pub fn scroll_to_bottom(&mut self, count: usize)
        ensures
            final(self).sel() == (if count == 0 { 0 } else { count - 1 }),
            final(self).offset() == final(self).sel(),
            final(self).cache_key() == old(self).cache_key(),
            final(self).cached_text() == old(self).cached_text(),
            final(self).cached_count() == old(self).cached_count(),
            final(self).cached_window() == old(self).cached_window(),
    {
        self.selected = if count == 0 { 0 } else { count - 1 };
        self.scroll_offset = self.selected;
    }

    /// The wheel moves the selection among `count` rows.
    pub fn handle_mouse(&mut self, kind: MouseEventKind, count: usize) -> (r: Option<TuiCommand>)
        ensures
            r is None,
            final(self).offset() == old(self).offset(),
            final(self).sel() == (if kind == MouseEventKind::ScrollUp {
                clamp_spec(old(self).sel() - 1, count as int)
            } else if kind == MouseEventKind::ScrollDown {
                clamp_spec(old(self).sel() + 1, count as int)
            } else {
                old(self).sel() as int
            }),
            final(self).cache_key() == old(self).cache_key(),
            final(self).cached_text() == old(self).cached_text(),
            final(self).cached_count() == old(self).cached_count(),
            final(self).cached_window() == old(self).cached_window(),
    {
        match crate::panels::list_state::handle_mouse_scroll(kind, self.selected, count) {
            Some(ns) => {
                self.selected = ns;
            },
            None => {},
        }
        None
    }

    /// The shortcuts this panel declares, with the given (translated) descriptions.
    pub fn shortcuts<'a>(&self, navigate: &'a str, details: &'a str) -> (r: Vec<(&'static str, &'a str)>)
        ensures
            r@.len() == 2,
            r@[0].0@ == "↑/↓"@ && r@[0].1 == navigate,
            r@[1].0@ == "Enter"@ && r@[1].1 == details,
    {
        vec![("↑/↓", navigate), ("Enter", details)]
    }

    /// The governance line: see [`governance_spec`].
    pub fn governance_line(
        coordination: &Option<(String, String)>,
        cap: &Option<String>,
        labels: &ParliamentLabels,
    ) -> (r: Vec<ToneLine>)
        ensures
            tone_views(r@) == governance_spec(pair_opt_view(*coordination), string_opt_view(*cap), *labels),
    {
        let mut spans: Vec<ToneLine> = Vec::new();
        push_line(&mut spans, labels.governance.clone(), LineTone::Plain);
        let ghost head = tone_views(spans@);
        if coordination.is_none() && cap.is_none() {
            let mut s = string_of(" ");
            push_str(&mut s, labels.no_data.as_str());
            push_line(&mut spans, s, LineTone::Muted);
            return spans;
        }
        match coordination {
            Some((cost, gain)) => {
                let mut s = string_of(" ");
                push_str(&mut s, labels.coordination.as_str());
                push_str(&mut s, "=");
                push_str(&mut s, cost.as_str());
                push_str(&mut s, "ms ");
                push_str(&mut s, labels.gain.as_str());
                push_str(&mut s, "=");
                push_str(&mut s, gain.as_str());
                push_line(&mut spans, s, LineTone::Info);
            },
            None => {},
        }
        let ghost mid = tone_views(spans@);
        match cap {
            Some(k) => {
                let mut s = string_of(" ");
                push_str(&mut s, labels.cap.as_str());
                push_str(&mut s, "=");
                push_str(&mut s, k.as_str());
                let tone = if str_eq(k.as_str(), "full") {
                    LineTone::Good
                } else if str_eq(k.as_str(), "simplified") {
                    LineTone::Warning
                } else {
                    LineTone::Alert
                };
                push_line(&mut spans, s, tone);
            },
            None => {},
        }
        proof {
            assert(tone_views(spans@) =~= governance_spec(
                pair_opt_view(*coordination),
                string_opt_view(*cap),
                *labels,
            ));
        }
        spans
    }

    /// Draws a frame: probes the cache with the previous window, clamps the
    /// cursor to the event count (the cached count on a hit), scrolls it into
    /// a list of `list_height` rows (three of them taken by chrome), and
    /// returns the text for the window, rebuilt unless the cache holds it for
    /// exactly this key. Caching is off before the first snapshot (`revision` 0).
    pub fn render(
        &mut self,
        events: &Vec<EventView>,
        labels: &ParliamentLabels,
        revision: u64,
        locale: u8,
        list_height: usize,
    ) -> (r: Vec<ToneLine>)
        ensures
            parliament_render_effect(
                *old(self),
                *final(self),
                tone_views(r@),
                events@,
                *labels,
                revision,
                locale,
                list_height,
            ),
    {
        let content_height = if list_height >= 3 { list_height - 3 } else { 0 };
        let (ws, we) = match self.cached_window {
            Some(w) => w,
            None => (0usize, 0usize),
        };
        let probe = ParliamentRenderKey { revision, selected: self.selected, window_start: ws, window_end: we, locale };
        let enable = revision != 0;
        let hit = enable && match self.cached_key {
            Some(k) => k == probe,
            None => false,
        };
        let count = if hit {
            self.cached_count
        } else {
            parliament_events(events).len()
        };
        self.selected = crate::panels::list_state::clamp_selected(self.selected, count);
        self.scroll_offset = crate::panels::list_state::adjust_scroll(
            self.selected,
            self.scroll_offset,
            content_height,
        );
        let (start, end) = crate::render::virtual_scroll_window(count, self.scroll_offset, content_height);
        let key = ParliamentRenderKey {
            revision,
            selected: self.selected,
            window_start: start,
            window_end: end,
            locale,
        };
        if hit && probe == key {
            return clone_lines(&self.cached_lines);
        }
        let order = parliament_events(events);
        let lines = Self::content(events, &order, labels, self.selected, (start, end));
        self.cached_lines = clone_lines(&lines);
        self.cached_count = count;
        self.cached_window = Some((start, end));
        self.cached_key = if enable {
            Some(key)
        } else {
            None
        };
        lines
    }

    /// The parliament text for the listed events `order` (positions in
    /// `events`), the cursor `selected` and the row window `window`.
    pub fn content(
        events: &Vec<EventView>,
        order: &Vec<usize>,
        labels: &ParliamentLabels,
        selected: usize,
        window: (usize, usize),
    ) -> (r: Vec<ToneLine>)
        requires
            forall|i: int| 0 <= i < order@.len() ==> (#[trigger] order@[i]) < events@.len(),
        ensures
            tone_views(r@) == parliament_content(
                events@,
                positions(order@),
                *labels,
                selected as int,
                (window.0 as int, window.1 as int),
            ),
    {
        let mut lines: Vec<ToneLine> = Vec::new();
        push_line(&mut lines, labels.body_title.clone(), LineTone::Plain);
        push_line(&mut lines, string_of("─────────────"), LineTone::Plain);
        let ghost head = tone_views(lines@);
        let n = order.len();
        if n == 0 {
            push_line(&mut lines, labels.no_events.clone(), LineTone::Plain);
            proof {
                assert(tone_views(lines@) =~= head + parliament_body(
                    events@,
                    positions(order@),
                    *labels,
                    selected as int,
                    (window.0 as int, window.1 as int),
                ));
            }
        } else {
            let start = if window.0 < n { window.0 } else { n };
            let end = if window.1 < n { window.1 } else { n };
            let ghost rows = Seq::new(
                (if start <= end { end - start } else { 0 }) as nat,
                |k: int| parliament_row(events@[positions(order@)[start + k]], *labels, start + k == selected),
            );
            let mut idx: usize = start;
            while idx < end
                invariant
                    start <= idx <= (if start <= end { end } else { start }),
                    end <= order@.len(),
                    forall|i: int| 0 <= i < order@.len() ==> (#[trigger] order@[i]) < events@.len(),
                    rows == Seq::new(
                        (if start <= end { end - start } else { 0 }) as nat,
                        |k: int| parliament_row(events@[positions(order@)[start + k]], *labels, start + k == selected),
                    ),
                    tone_views(lines@) == head + rows.take(idx - start),
                decreases end - idx,
            {
                let e = &events[order[idx]];
                let (label, summary, tone) = row_parts(&e.kind, labels);
                let mut l = if idx == selected {
                    string_of("> ")
                } else {
                    string_of("  ")
                };
                push_str(&mut l, "[");
                push_str(&mut l, label);
                push_str(&mut l, "] ");
                push_str(&mut l, summary.as_str());
                let t = if idx == selected {
                    LineTone::Highlight
                } else {
                    tone
                };
                proof {
                    assert(positions(order@)[idx as int] == order@[idx as int] as int);
                    assert(rows[idx - start] == (l@, t));
                    assert(rows.take(idx - start + 1) =~= rows.take(idx - start).push((l@, t)));
                }
                push_line(&mut lines, l, t);
                idx = idx + 1;
            }
            proof {
                if start <= end {
                    assert(rows.take(end - start) =~= rows);
                } else {
                    assert(rows.take(0) =~= rows);
                }
                assert(rows =~= parliament_body(
                    events@,
                    positions(order@),
                    *labels,
                    selected as int,
                    (window.0 as int, window.1 as int),
                ));
                assert(tone_views(lines@) =~= head + parliament_body(
                    events@,
                    positions(order@),
                    *labels,
                    selected as int,
                    (window.0 as int, window.1 as int),
                ));
            }
        }
        let ghost body = tone_views(lines@);
        proof {
            assert(body =~= head + parliament_body(
                events@,
                positions(order@),
                *labels,
                selected as int,
                (window.0 as int, window.1 as int),
            ));
        }
        push_line(&mut lines, String::new(), LineTone::Plain);
        push_line(&mut lines, string_of(FOOTER_TEXT), LineTone::Plain);
        proof {
            assert(tone_views(lines@) =~= parliament_content(
                events@,
                positions(order@),
                *labels,
                selected as int,
                (window.0 as int, window.1 as int),
            ));
        }
        lines
    }
}

} // verus!
