//! Injection-strategy panel: the memory cards injected before the user
//! message, the persona summary at the tail of the system prompt, and the
//! cache statistics of the injection.
use vstd::prelude::*;
use crate::input::KeyEvent;
use crate::text::{dec, push_line, push_str, push_u64, string_of, tone_views, LineTone, ToneLine};
use crate::types::{PanelId, TuiCommand};

verus! {

/// Most dynamic cards the panel lists.
pub const MAX_CARDS_SHOWN: usize = 6;

/// A memory card as the panel shows it: the name of its type, its scene and content.
#[derive(Debug, Clone, Default, PartialEq, Eq)]
pub struct InjectionCardView {
    pub card_type: String,
    pub scene: String,
    pub content: String,
}

/// What the panel shows of the injection. The cache hit rate is drawn by the
/// caller, which hands its text to [`InjectionStrategyPanel::content`].
#[derive(Debug, Clone, Default, PartialEq, Eq)]
pub struct InjectionSnapshot {
    /// Cards refreshed every turn, injected before the user message.
    pub dynamic_cards: Vec<InjectionCardView>,
    /// Summary injected at the tail of the system prompt, if any.
    pub persona_summary: Option<String>,
    pub token_savings: u32,
}

/// The line of a dynamic card: `  [type] scene: content`.
pub open spec fn card_line(c: InjectionCardView) -> Seq<char> {
    "  ["@ + c.card_type@ + "] "@ + c.scene@ + ": "@ + c.content@
}

/// The heading lines of the panel.
pub open spec fn injection_head() -> Seq<(Seq<char>, LineTone)> {
    seq![
        ("Injection Strategy (TencentDB)"@, LineTone::Plain),
        ("──────────────────────────────────────"@, LineTone::Plain),
    ]
}

/// The dynamic-cards section: heading, then the first cards (at most
/// [`MAX_CARDS_SHOWN`]) or a no-cards line.
pub open spec fn cards_section(cards: Seq<InjectionCardView>) -> Seq<(Seq<char>, LineTone)> {
    let shown = if cards.len() > MAX_CARDS_SHOWN { MAX_CARDS_SHOWN as int } else { cards.len() as int };
    seq![("Dynamic cards (before user msg):"@, LineTone::Emphasis)] + if cards.len() == 0 {
        seq![("  No dynamic cards."@, LineTone::Muted)]
    } else {
        cards.take(shown).map_values(|c: InjectionCardView| (card_line(c), LineTone::Plain))
    }
}

/// The panel text: the heading, then either a waiting line when no snapshot
/// is at hand, or the three sections (cards, persona summary, cache statistics
/// with the hit rate `hit_rate`).
pub open spec fn injection_lines(snap: Option<InjectionSnapshot>, hit_rate: Seq<char>) -> Seq<(Seq<char>, LineTone)> {
    match snap {
        None => injection_head().push(("Awaiting injection snapshot provider..."@, LineTone::Muted)),
        Some(s) => injection_head() + cards_section(s.dynamic_cards@) + seq![
            (Seq::empty(), LineTone::Plain),
            ("Persona summary (system prompt tail):"@, LineTone::Emphasis),
            match s.persona_summary {
                Some(p) => ("  "@ + p@, LineTone::Plain),
                None => ("  None"@, LineTone::Muted),
            },
            (Seq::empty(), LineTone::Plain),
            ("Cache stats:"@, LineTone::Emphasis),
            ("  Cache hit rate: "@ + hit_rate + "% | Token savings: "@ + dec(s.token_savings as nat), LineTone::Plain),
            ("  Strategy: dynamic cards refresh every turn | persona reuses cache"@, LineTone::Muted),
        ],
    }
}

/// The panel shows only what the application hands it.
#[derive(Debug, Default, Clone, Copy, PartialEq, Eq)]
pub struct InjectionStrategyPanel;

impl InjectionStrategyPanel {
    /// A new panel.
    pub fn new() -> (r: Self)
        ensures
            r == InjectionStrategyPanel,
    {
        InjectionStrategyPanel
    }

    /// This panel's identity.
    pub fn id(&self) -> (r: PanelId)
        ensures
            r == PanelId::InjectionStrategy,
    {
        PanelId::InjectionStrategy
    }

    /// The panel text for the snapshot at hand (`None` when no source of
    /// snapshots is wired), with the cache hit rate already drawn: see
    /// [`injection_lines`].
    pub fn content(snap: Option<&InjectionSnapshot>, hit_rate: &str) -> (r: Vec<ToneLine>)
        ensures
            tone_views(r@) == injection_lines(
                match snap {
                    Some(s) => Some(*s),
                    None => None,
                },
                hit_rate@,
            ),
    {
        let mut lines: Vec<ToneLine> = Vec::new();
        push_line(&mut lines, string_of("Injection Strategy (TencentDB)"), LineTone::Plain);
        push_line(&mut lines, string_of("──────────────────────────────────────"), LineTone::Plain);
        let ghost head = tone_views(lines@);
        proof {
            assert(head =~= injection_head());
        }
        let s = match snap {
            None => {
                push_line(&mut lines, string_of("Awaiting injection snapshot provider..."), LineTone::Muted);
                return lines;
            },
            Some(s) => s,
        };
        let ghost cards = s.dynamic_cards@;
        push_line(&mut lines, string_of("Dynamic cards (before user msg):"), LineTone::Emphasis);
        let ghost head2 = tone_views(lines@);
        if s.dynamic_cards.len() == 0 {
            push_line(&mut lines, string_of("  No dynamic cards."), LineTone::Muted);
        } else {
            let n = if s.dynamic_cards.len() > MAX_CARDS_SHOWN { MAX_CARDS_SHOWN } else { s.dynamic_cards.len() };
            let mut k: usize = 0;
            while k < n
                invariant
                    n <= cards.len(),
                    cards == s.dynamic_cards@,
                    k <= n,
                    tone_views(lines@) == head2 + cards.take(k as int).map_values(
                        |c: InjectionCardView| (card_line(c), LineTone::Plain),
                    ),
                decreases n - k,
            {
                let c = &s.dynamic_cards[k];
                let mut line = string_of("  [");
                push_str(&mut line, c.card_type.as_str());
                push_str(&mut line, "] ");
                push_str(&mut line, c.scene.as_str());
                push_str(&mut line, ": ");
                push_str(&mut line, c.content.as_str());
                push_line(&mut lines, line, LineTone::Plain);
                proof {
                    assert(cards.take(k + 1) =~= cards.take(k as int).push(cards[k as int]));
                    assert(tone_views(lines@) =~= head2 + cards.take(k + 1).map_values(
                        |c: InjectionCardView| (card_line(c), LineTone::Plain),
                    ));
                }
                k = k + 1;
            }
        }
        proof {
            assert(tone_views(lines@) =~= head + cards_section(cards));
        }
        let ghost mid = tone_views(lines@);
        push_line(&mut lines, String::new(), LineTone::Plain);
        push_line(&mut lines, string_of("Persona summary (system prompt tail):"), LineTone::Emphasis);
        match &s.persona_summary {
            Some(p) => {
                let mut line = string_of("  ");
                push_str(&mut line, p.as_str());
                push_line(&mut lines, line, LineTone::Plain);
            },
            None => {
                push_line(&mut lines, string_of("  None"), LineTone::Muted);
            },
        }
        push_line(&mut lines, String::new(), LineTone::Plain);
        push_line(&mut lines, string_of("Cache stats:"), LineTone::Emphasis);
        let mut stats = string_of("  Cache hit rate: ");
        push_str(&mut stats, hit_rate);
        push_str(&mut stats, "% | Token savings: ");
        push_u64(&mut stats, s.token_savings as u64);
        push_line(&mut lines, stats, LineTone::Plain);
        push_line(
            &mut lines,
            string_of("  Strategy: dynamic cards refresh every turn | persona reuses cache"),
            LineTone::Muted,
        );
        proof {
            assert(tone_views(lines@) =~= injection_lines(Some(*s), hit_rate@));
        }
        lines
    }

    /// Display-only: every key is ignored.
    pub fn handle_key(&mut self, key: KeyEvent) -> (r: Option<TuiCommand>)
        ensures
            r is None,
    {
        None
    }

    /// The panel's shortcut hints.
    pub fn shortcuts(&self) -> (r: Vec<(&'static str, &'static str)>)
        ensures
            r@.len() == 1,
            r@[0].0@ == "Tab"@ && r@[0].1@ == "切换面板"@,
    {
        vec![("Tab", "切换面板")]
    }
}

} // verus!
