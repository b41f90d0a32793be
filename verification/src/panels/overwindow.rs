//! Over-window panel: context window overflow fallbacks (corpus size,
//! effective window, candidates and loaded items), newest first.
use vstd::prelude::*;
use crate::events::{EventKind, EventView};
use crate::input::KeyEvent;
use crate::panels::task_manager::positions;
use crate::text::{dec, push_line, push_str, push_u64, string_of, tone_views, LineTone, ToneLine};
use crate::types::{PanelId, TuiCommand};

verus! {

/// Most fallback triggers the panel lists.
pub const MAX_TRIGGERS_SHOWN: usize = 8;

/// Translated words of the over-window panel.
#[derive(Debug, Clone, PartialEq, Eq)]
pub struct OverWindowLabels {
    pub body_title: String,
    /// Shown when no fallback was triggered yet.
    pub empty: String,
    /// Shown under the empty line.
    pub hint: String,
    pub corpus: String,
    pub window: String,
    pub candidates: String,
    pub loaded: String,
    /// After the count of triggers left out.
    pub more: String,
}

/// Positions, newest first, of the fallback triggers among the first `n` events.
pub open spec fn triggers_upto(events: Seq<EventView>, n: int) -> Seq<int>
    decreases n,
{
    if n <= 0 {
        Seq::empty()
    } else {
        let rest = triggers_upto(events, n - 1);
        if events[n - 1].kind is OverWindowFallbackTriggered {
            seq![n - 1] + rest
        } else {
            rest
        }
    }
}

/// Positions, newest first, of the fallback triggers.
pub open spec fn trigger_positions(events: Seq<EventView>) -> Seq<int> {
    triggers_upto(events, events.len() as int)
}

/// The two lines of the trigger shown as number `i + 1`.
pub open spec fn trigger_lines(k: EventKind, i: int, l: OverWindowLabels) -> Seq<(Seq<char>, LineTone)> {
    match k {
        EventKind::OverWindowFallbackTriggered { corpus_tokens, effective_window, candidate_count, loaded_count } =>
            seq![
            (
                "#"@ + dec((i + 1) as nat) + " "@ + l.corpus@ + "="@ + dec(corpus_tokens as nat) + " tok, "@ + l.window@
                    + "="@ + dec(effective_window as nat) + " tok"@,
                LineTone::Info,
            ),
            (
                "  "@ + l.candidates@ + "="@ + dec(candidate_count as nat) + ", "@ + l.loaded@ + "="@ + dec(
                    loaded_count as nat,
                ),
                LineTone::Warning,
            ),
        ],
        _ => Seq::empty(),
    }
}

/// The lines of the first `n` listed triggers.
pub open spec fn trigger_blocks(events: Seq<EventView>, order: Seq<int>, l: OverWindowLabels, n: int) -> Seq<
    (Seq<char>, LineTone),
>
    decreases n,
{
    if n <= 0 {
        Seq::empty()
    } else {
        trigger_blocks(events, order, l, n - 1) + trigger_lines(events[order[n - 1]].kind, n - 1, l)
    }
}

/// The panel text: title and rule; with no trigger, the empty and hint lines;
/// otherwise the newest triggers (at most [`MAX_TRIGGERS_SHOWN`]) and a count
/// of the ones left out.
pub open spec fn overwindow_content(events: Seq<EventView>, l: OverWindowLabels) -> Seq<(Seq<char>, LineTone)> {
    let order = trigger_positions(events);
    let n = order.len() as int;
    let head = seq![
        (l.body_title@, LineTone::Plain),
        ("────────────────────────────────────────"@, LineTone::Plain),
    ];
    if n == 0 {
        head + seq![(l.empty@, LineTone::Muted), (l.hint@, LineTone::Muted)]
    } else {
        let shown = if n > MAX_TRIGGERS_SHOWN { MAX_TRIGGERS_SHOWN as int } else { n };
        head + trigger_blocks(events, order, l, shown) + if n > MAX_TRIGGERS_SHOWN {
            seq![("... "@ + dec((n - MAX_TRIGGERS_SHOWN) as nat) + " "@ + l.more@, LineTone::Muted)]
        } else {
            Seq::empty()
        }
    }
}

/// The positions, newest first, of the fallback triggers.
pub fn trigger_events(events: &Vec<EventView>) -> (r: Vec<usize>)
    ensures
        positions(r@) == trigger_positions(events@),
        forall|i: int| 0 <= i < r@.len() ==> (#[trigger] r@[i]) < events@.len(),
{
    let mut r: Vec<usize> = Vec::new();
    let mut k: usize = events.len();
    while k > 0
        invariant
            k <= events@.len(),
            positions(r@) + triggers_upto(events@, k as int) == trigger_positions(events@),
            forall|i: int| 0 <= i < r@.len() ==> (#[trigger] r@[i]) < events@.len(),
        decreases k,
    {
        let ghost before = r@;
        let ghost rest = triggers_upto(events@, k - 1);
        let keep = match &events[k - 1].kind {
            EventKind::OverWindowFallbackTriggered { .. } => true,
            _ => false,
        };
        if keep {
            r.push(k - 1);
            proof {
                assert(positions(r@) =~= positions(before).push((k - 1) as int));
                assert(positions(r@) + rest =~= positions(before) + (seq![(k - 1) as int] + rest));
            }
        }
        k = k - 1;
    }
    proof {
        assert(positions(r@) + Seq::<int>::empty() =~= positions(r@));
    }
    r
}

/// OverWindowPanel has no state of its own: it shows what the application hands it.
#[derive(Debug, Default, Clone, Copy, PartialEq, Eq)]
pub struct OverWindowPanel;

impl OverWindowPanel {
    /// A new panel.
    pub fn new() -> (r: Self)
        ensures
            r == OverWindowPanel,
    {
        OverWindowPanel
    }

    /// This panel's identity.
    pub fn id(&self) -> (r: PanelId)
        ensures
            r == PanelId::OverWindow,
    {
        PanelId::OverWindow
    }

    /// The panel text for the event list `events`.
    pub fn content(events: &Vec<EventView>, labels: &OverWindowLabels) -> (r: Vec<ToneLine>)
        ensures
            tone_views(r@) == overwindow_content(events@, *labels),
    {
        let order = trigger_events(events);
        let ghost ord = positions(order@);
        let mut lines: Vec<ToneLine> = Vec::new();
        push_line(&mut lines, labels.body_title.clone(), LineTone::Plain);
        push_line(&mut lines, string_of("────────────────────────────────────────"), LineTone::Plain);
        let ghost head = tone_views(lines@);
        let n = order.len();
        if n == 0 {
            push_line(&mut lines, labels.empty.clone(), LineTone::Muted);
            push_line(&mut lines, labels.hint.clone(), LineTone::Muted);
            proof {
                assert(tone_views(lines@) =~= overwindow_content(events@, *labels));
            }
            return lines;
        }
        let shown = if n > MAX_TRIGGERS_SHOWN { MAX_TRIGGERS_SHOWN } else { n };
        let mut i: usize = 0;
        while i < shown
            invariant
                i <= shown,
                shown <= n,
                n == order@.len(),
                ord == positions(order@),
                forall|q: int| 0 <= q < order@.len() ==> (#[trigger] order@[q]) < events@.len(),
                tone_views(lines@) == head + trigger_blocks(events@, ord, *labels, i as int),
            decreases shown - i,
        {
            let e = &events[order[i]];
            proof {
                assert(ord[i as int] == order@[i as int] as int);
            }
            let ghost before = tone_views(lines@);
            match &e.kind {
                EventKind::OverWindowFallbackTriggered { corpus_tokens, effective_window, candidate_count, loaded_count } => {
                    let mut a = string_of("#");
                    push_u64(&mut a, i as u64 + 1);
                    push_str(&mut a, " ");
                    push_str(&mut a, labels.corpus.as_str());
                    push_str(&mut a, "=");
                    push_u64(&mut a, *corpus_tokens);
                    push_str(&mut a, " tok, ");
                    push_str(&mut a, labels.window.as_str());
                    push_str(&mut a, "=");
                    push_u64(&mut a, *effective_window);
                    push_str(&mut a, " tok");
                    push_line(&mut lines, a, LineTone::Info);
                    let mut b = string_of("  ");
                    push_str(&mut b, labels.candidates.as_str());
                    push_str(&mut b, "=");
                    push_u64(&mut b, *candidate_count as u64);
                    push_str(&mut b, ", ");
                    push_str(&mut b, labels.loaded.as_str());
                    push_str(&mut b, "=");
                    push_u64(&mut b, *loaded_count as u64);
                    push_line(&mut lines, b, LineTone::Warning);
                },
                _ => {},
            }
            proof {
                assert(tone_views(lines@) =~= before + trigger_lines(events@[ord[i as int]].kind, i as int, *labels));
                assert(tone_views(lines@) =~= head + trigger_blocks(events@, ord, *labels, i + 1));
            }
            i = i + 1;
        }
        let ghost body = tone_views(lines@);
        if n > MAX_TRIGGERS_SHOWN {
            let mut m = string_of("... ");
            push_u64(&mut m, (n - MAX_TRIGGERS_SHOWN) as u64);
            push_str(&mut m, " ");
            push_str(&mut m, labels.more.as_str());
            push_line(&mut lines, m, LineTone::Muted);
        }
        proof {
            assert(tone_views(lines@) =~= overwindow_content(events@, *labels));
        }
        lines
    }

    /// Display-only: every key is ignored.
    pub fn handle_key(&mut self, key: KeyEvent) -> (r: Option<TuiCommand>)
        ensures
            r is None,
    {
        None
    }

    /// The shortcuts this panel declares.
    pub fn shortcuts(&self) -> (r: Vec<(&'static str, &'static str)>)
        ensures
            r@.len() == 1,
            r@[0].0@ == "Tab"@ && r@[0].1@ == "切换面板"@,
    {
        vec![("Tab", "切换面板")]
    }
}

} // verus!
