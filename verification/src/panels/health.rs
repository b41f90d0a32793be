//! Health panel: the health score and the system metrics with their trends.
use vstd::prelude::*;
use crate::input::KeyEvent;
use crate::render::FOOTER_TEXT;
use crate::text::{dec, push_line, push_str, push_u64, string_of, tone_views, LineTone, ToneLine};
use crate::types::{PanelId, TuiCommand};

verus! {

/// Tone of a health score: good from 80, a warning from 50, an alert below.
pub open spec fn health_tone_spec(score: u8) -> LineTone {
    if score >= 80 {
        LineTone::Good
    } else if score >= 50 {
        LineTone::Warning
    } else {
        LineTone::Alert
    }
}

/// The metrics text of the panel; the event rate and the latency come drawn.
pub open spec fn health_info_spec(
    events_per_second: Seq<char>,
    slow_consumers: u64,
    average_latency: Seq<char>,
    active_quests: usize,
    paused_quests: usize,
    health_score: u8,
) -> Seq<(Seq<char>, LineTone)> {
    seq![
        ("Events/sec: "@ + events_per_second, LineTone::Plain),
        ("Slow Consumers: "@ + dec(slow_consumers as nat), LineTone::Plain),
        ("Avg Latency: "@ + average_latency + " ms"@, LineTone::Plain),
        ("Active Quests: "@ + dec(active_quests as nat), LineTone::Plain),
        ("Paused Quests: "@ + dec(paused_quests as nat), LineTone::Plain),
        ("Health Score: "@ + dec(health_score as nat), health_tone_spec(health_score)),
        (Seq::empty(), LineTone::Plain),
        (FOOTER_TEXT@, LineTone::Plain),
    ]
}

/// Health panel; the previous metrics sample that the trend arrows compare
/// against is kept by the renderer.
#[derive(Debug, Default, Clone, Copy, PartialEq, Eq)]
pub struct HealthPanel;

impl HealthPanel {
    /// A new panel.
    pub fn new() -> (r: Self)
        ensures
            r == HealthPanel,
    {
        HealthPanel
    }

    /// This panel's identity.
    pub fn id(&self) -> (r: PanelId)
        ensures
            r == PanelId::Health,
    {
        PanelId::Health
    }

    /// Tone of a health score: see [`health_tone_spec`].
    pub fn health_score_tone(score: u8) -> (r: LineTone)
        ensures
            r == health_tone_spec(score),
    {
        if score >= 80 {
            LineTone::Good
        } else if score >= 50 {
            LineTone::Warning
        } else {
            LineTone::Alert
        }
    }

    /// The metrics text of the panel: see [`health_info_spec`].
    pub fn info_lines(
        events_per_second: &str,
        slow_consumers: u64,
        average_latency: &str,
        active_quests: usize,
        paused_quests: usize,
        health_score: u8,
    ) -> (r: Vec<ToneLine>)
        ensures
            tone_views(r@) == health_info_spec(
                events_per_second@,
                slow_consumers,
                average_latency@,
                active_quests,
                paused_quests,
                health_score,
            ),
    {
        let mut lines: Vec<ToneLine> = Vec::new();
        let mut s = string_of("Events/sec: ");
        push_str(&mut s, events_per_second);
        push_line(&mut lines, s, LineTone::Plain);
        let mut s = string_of("Slow Consumers: ");
        push_u64(&mut s, slow_consumers);
        push_line(&mut lines, s, LineTone::Plain);
        let mut s = string_of("Avg Latency: ");
        push_str(&mut s, average_latency);
        push_str(&mut s, " ms");
        push_line(&mut lines, s, LineTone::Plain);
        let mut s = string_of("Active Quests: ");
        push_u64(&mut s, active_quests as u64);
        push_line(&mut lines, s, LineTone::Plain);
        let mut s = string_of("Paused Quests: ");
        push_u64(&mut s, paused_quests as u64);
        push_line(&mut lines, s, LineTone::Plain);
        let mut s = string_of("Health Score: ");
        push_u64(&mut s, health_score as u64);
        push_line(&mut lines, s, Self::health_score_tone(health_score));
        push_line(&mut lines, String::new(), LineTone::Plain);
        push_line(&mut lines, string_of(FOOTER_TEXT), LineTone::Plain);
        proof {
            assert(tone_views(lines@) =~= health_info_spec(
                events_per_second@,
                slow_consumers,
                average_latency@,
                active_quests,
                paused_quests,
                health_score,
            ));
        }
        lines
    }

    /// Every key is ignored.
    pub fn handle_key(&mut self, key: KeyEvent) -> (r: Option<TuiCommand>)
        ensures
            r is None,
    {
        None
    }

    /// The shortcut this panel declares: `R` refreshes.
    pub fn shortcuts(&self) -> (r: Vec<(&'static str, &'static str)>)
        ensures
            r@.len() == 1,
            r@[0].0@ == "R"@,
            r@[0].1@ == "刷新"@,
    {
        vec![("R", "刷新")]
    }
}

} // verus!
