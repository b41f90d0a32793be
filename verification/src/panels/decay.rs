//! Decay panel: the knowledge decay coefficient and its events.
use vstd::prelude::*;
use crate::input::KeyEvent;
use crate::panels::mcp_nodes::{push_utc_time, utc_or_empty};
use crate::render::FOOTER_TEXT;
use crate::text::{push_line, push_str, string_of, tone_views, views, LineTone, ToneLine};
use crate::types::{PanelId, TuiCommand};

verus! {

/// The decay figures as the panel prints them: the coefficient comes drawn as
/// a percentage (one decimal, without the sign), and whether it is below the
/// critical threshold comes decided.
#[derive(Debug, Clone, PartialEq, Eq)]
pub struct DecayView {
    pub coefficient: String,
    pub high_decay: bool,
    /// Start of the decay cycle in milliseconds since the epoch, if one is active.
    pub cycle_start_ms: Option<i64>,
    pub recent_events: Vec<String>,
}

/// The panel text: the coefficient (an alert, marked `[HIGH DECAY]`, when the
/// decay is high), the start of the cycle, the recent events and the footer.
pub open spec fn decay_lines(v: DecayView) -> Seq<(Seq<char>, LineTone)> {
    let events = views(v.recent_events@);
    seq![
        if v.high_decay {
            ("Coefficient:  "@ + v.coefficient@ + "%  [HIGH DECAY]"@, LineTone::Alert)
        } else {
            ("Coefficient:  "@ + v.coefficient@ + "%"@, LineTone::Plain)
        },
        (
            "Cycle Start:  "@ + match v.cycle_start_ms {
                Some(ms) => utc_or_empty(ms),
                None => "(no cycle active)"@,
            },
            LineTone::Plain,
        ),
        (Seq::empty(), LineTone::Plain),
        ("Recent Events:"@, LineTone::Emphasis),
    ] + if events.len() == 0 {
        seq![("  (no recent decay events)"@, LineTone::Plain)]
    } else {
        events.map_values(|e: Seq<char>| ("  "@ + e, LineTone::Plain))
    } + seq![(Seq::empty(), LineTone::Plain), (FOOTER_TEXT@, LineTone::Plain)]
}

/// DecayPanel has no state of its own: it shows what the application hands it.
#[derive(Debug, Default, Clone, Copy, PartialEq, Eq)]
pub struct DecayPanel;

impl DecayPanel {
    /// The panel text: see [`decay_lines`].
    pub fn content(v: &DecayView) -> (r: Vec<ToneLine>)
        ensures
            tone_views(r@) == decay_lines(*v),
    {
        let mut lines: Vec<ToneLine> = Vec::new();
        let mut c = string_of("Coefficient:  ");
        push_str(&mut c, v.coefficient.as_str());
        if v.high_decay {
            push_str(&mut c, "%  [HIGH DECAY]");
            push_line(&mut lines, c, LineTone::Alert);
        } else {
            push_str(&mut c, "%");
            push_line(&mut lines, c, LineTone::Plain);
        }
        let mut cycle = string_of("Cycle Start:  ");
        match v.cycle_start_ms {
            Some(ms) => push_utc_time(&mut cycle, ms),
            None => push_str(&mut cycle, "(no cycle active)"),
        }
        push_line(&mut lines, cycle, LineTone::Plain);
        push_line(&mut lines, String::new(), LineTone::Plain);
        push_line(&mut lines, string_of("Recent Events:"), LineTone::Emphasis);
        let ghost head = tone_views(lines@);
        let ghost events = views(v.recent_events@);
        if v.recent_events.len() == 0 {
            push_line(&mut lines, string_of("  (no recent decay events)"), LineTone::Plain);
        } else {
            let mut i: usize = 0;
            while i < v.recent_events.len()
                invariant
                    i <= v.recent_events@.len(),
                    events == views(v.recent_events@),
                    tone_views(lines@) == head + events.take(i as int).map_values(
                        |e: Seq<char>| ("  "@ + e, LineTone::Plain),
                    ),
                decreases v.recent_events@.len() - i,
            {
                let mut l = string_of("  ");
                push_str(&mut l, v.recent_events[i].as_str());
                push_line(&mut lines, l, LineTone::Plain);
                proof {
                    assert(events.take(i + 1) =~= events.take(i as int).push(events[i as int]));
                    assert(tone_views(lines@) =~= head + events.take(i + 1).map_values(
                        |e: Seq<char>| ("  "@ + e, LineTone::Plain),
                    ));
                }
                i = i + 1;
            }
            proof {
                assert(events.take(v.recent_events@.len() as int) =~= events);
            }
        }
        push_line(&mut lines, String::new(), LineTone::Plain);
        push_line(&mut lines, string_of(FOOTER_TEXT), LineTone::Plain);
        proof {
            assert(tone_views(lines@) =~= decay_lines(*v));
        }
        lines
    }

    /// A new panel.
    pub fn new() -> (r: Self)
        ensures
            r == DecayPanel,
    {
        DecayPanel
    }

    /// This panel's identity.
    pub fn id(&self) -> (r: PanelId)
        ensures
            r == PanelId::Decay,
    {
        PanelId::Decay
    }

    /// Display-only: every key is ignored.
    pub fn handle_key(&mut self, key: KeyEvent) -> (r: Option<TuiCommand>)
        ensures
            r is None,
    {
        None
    }
}

} // verus!
