//! Experience-card panel: global statistics of the experience cards and the
//! distribution of their methods, largest first.
use vstd::prelude::*;
use crate::input::KeyEvent;
use crate::panels::task_manager::{key_views, lemma_sort_spec_range, sort_order, sort_spec, SortKey};
use crate::text::{dec, pad_right, push_left, push_line, push_str, push_u64, string_of, tone_views, LineTone, ToneLine};
use crate::types::{PanelId, TuiCommand};

verus! {

/// Most methods the distribution lists.
pub const MAX_METHODS_SHOWN: usize = 8;

/// Counts of the experience cards. The best and average scores are drawn by
/// the caller, which hands their text to [`ExperienceCardVizPanel::content`].
#[derive(Debug, Clone, Default, PartialEq, Eq)]
pub struct ExperienceCardVizStats {
    pub total_cards: usize,
    pub evaluated: usize,
    pub unique_errors: usize,
    /// Method family and number of cards.
    pub method_distribution: Vec<(String, u32)>,
}

/// Sort keys of the distribution: larger counts first, no further key, so that
/// equal counts keep their order.
pub open spec fn method_keys(d: Seq<(String, u32)>) -> Seq<(int, int, Seq<char>)> {
    Seq::new(d.len(), |i: int| (-(d[i].1 as int), 0int, Seq::<char>::empty()))
}

/// Positions of the methods shown: by count, largest first, equal counts in
/// their given order, at most [`MAX_METHODS_SHOWN`].
pub open spec fn shown_methods(d: Seq<(String, u32)>) -> Seq<int> {
    let order = sort_spec(method_keys(d), d.len());
    if order.len() > MAX_METHODS_SHOWN {
        order.take(MAX_METHODS_SHOWN as int)
    } else {
        order
    }
}

/// The line of a method: indented name in a field of twenty, then its count.
pub open spec fn method_line(method: Seq<char>, count: u32) -> Seq<char> {
    "  "@ + pad_right(method, 20) + " "@ + dec(count as nat)
}

/// The heading lines of the panel.
pub open spec fn experience_head() -> Seq<(Seq<char>, LineTone)> {
    seq![
        ("Experience Card Viz (OpenMLE)"@, LineTone::Plain),
        ("──────────────────────────────────────"@, LineTone::Plain),
    ]
}

/// The panel text: the heading, then either a waiting line when no statistics
/// are at hand, or the counts, the scores `best` and `average`, and the method
/// distribution.
pub open spec fn experience_lines(
    stats: Option<ExperienceCardVizStats>,
    best: Seq<char>,
    average: Seq<char>,
) -> Seq<(Seq<char>, LineTone)> {
    match stats {
        None => experience_head().push(("Awaiting stats provider..."@, LineTone::Muted)),
        Some(s) => {
            let d = s.method_distribution@;
            experience_head() + seq![
                (
                    "Total: "@ + dec(s.total_cards as nat) + " | Evaluated: "@ + dec(s.evaluated as nat)
                        + " | Unique errors: "@ + dec(s.unique_errors as nat),
                    LineTone::Plain,
                ),
                ("Best score: "@ + best + " | Average score: "@ + average, LineTone::Plain),
                (Seq::empty(), LineTone::Plain),
                ("Method distribution:"@, LineTone::Emphasis),
            ] + if d.len() == 0 {
                seq![("No cards recorded yet."@, LineTone::Muted)]
            } else {
                shown_methods(d).map_values(|p: int| (method_line(d[p].0@, d[p].1), LineTone::Plain))
            }
        },
    }
}

/// The sort keys of the distribution in executable form.
fn method_sort_keys(d: &Vec<(String, u32)>) -> (r: Vec<SortKey>)
    ensures
        key_views(r@) == method_keys(d@),
{
    let mut r: Vec<SortKey> = Vec::new();
    let mut i: usize = 0;
    while i < d.len()
        invariant
            i <= d@.len(),
            key_views(r@) == method_keys(d@).take(i as int),
        decreases d@.len() - i,
    {
        let k = SortKey { major: -(d[i].1 as i64), minor: 0, id: Vec::new() };
        proof {
            assert(k.id@ =~= Seq::<char>::empty());
        }
        let ghost before = r@;
        r.push(k);
        proof {
            assert(key_views(r@) =~= key_views(before).push((-(d@[i as int].1 as int), 0int, Seq::<char>::empty())));
            assert(method_keys(d@).take(i + 1) =~= method_keys(d@).take(i as int).push(method_keys(d@)[i as int]));
        }
        i = i + 1;
    }
    proof {
        assert(method_keys(d@).take(d@.len() as int) =~= method_keys(d@));
    }
    r
}

/// The panel shows only what the application hands it.
#[derive(Debug, Default, Clone, Copy, PartialEq, Eq)]
pub struct ExperienceCardVizPanel;

impl ExperienceCardVizPanel {
    /// A new panel.
    pub fn new() -> (r: Self)
        ensures
            r == ExperienceCardVizPanel,
    {
        ExperienceCardVizPanel
    }

    /// This panel's identity.
    pub fn id(&self) -> (r: PanelId)
        ensures
            r == PanelId::ExperienceCardViz,
    {
        PanelId::ExperienceCardViz
    }

    /// The panel text for the statistics at hand (`None` when no source of
    /// statistics is wired), with the best and average scores already drawn:
    /// see [`experience_lines`].
    pub fn content(stats: Option<&ExperienceCardVizStats>, best: &str, average: &str) -> (r: Vec<ToneLine>)
        ensures
            tone_views(r@) == experience_lines(
                match stats {
                    Some(s) => Some(*s),
                    None => None,
                },
                best@,
                average@,
            ),
    {
        let mut lines: Vec<ToneLine> = Vec::new();
        push_line(&mut lines, string_of("Experience Card Viz (OpenMLE)"), LineTone::Plain);
        push_line(&mut lines, string_of("──────────────────────────────────────"), LineTone::Plain);
        proof {
            assert(tone_views(lines@) =~= experience_head());
        }
        let s = match stats {
            None => {
                push_line(&mut lines, string_of("Awaiting stats provider..."), LineTone::Muted);
                return lines;
            },
            Some(s) => s,
        };
        let ghost d = s.method_distribution@;
        let mut counts = string_of("Total: ");
        push_u64(&mut counts, s.total_cards as u64);
        push_str(&mut counts, " | Evaluated: ");
        push_u64(&mut counts, s.evaluated as u64);
        push_str(&mut counts, " | Unique errors: ");
        push_u64(&mut counts, s.unique_errors as u64);
        push_line(&mut lines, counts, LineTone::Plain);
        let mut scores = string_of("Best score: ");
        push_str(&mut scores, best);
        push_str(&mut scores, " | Average score: ");
        push_str(&mut scores, average);
        push_line(&mut lines, scores, LineTone::Plain);
        push_line(&mut lines, String::new(), LineTone::Plain);
        push_line(&mut lines, string_of("Method distribution:"), LineTone::Emphasis);
        let ghost head = tone_views(lines@);
        if s.method_distribution.len() == 0 {
            push_line(&mut lines, string_of("No cards recorded yet."), LineTone::Muted);
            proof {
                assert(tone_views(lines@) =~= experience_lines(Some(*s), best@, average@));
            }
            return lines;
        }
        let keys = method_sort_keys(&s.method_distribution);
        let order = sort_order(&keys);
        let ghost shown = shown_methods(d);
        let n = if order.len() > MAX_METHODS_SHOWN { MAX_METHODS_SHOWN } else { order.len() };
        proof {
            lemma_sort_spec_range(method_keys(d), d.len());
            assert(key_views(keys@).len() == keys@.len());
            assert(order@.len() == d.len());
            assert(shown.len() == n);
            assert forall|q: int| 0 <= q < n implies (#[trigger] order@[q]) as int == shown[q] by {}
        }
        let mut k: usize = 0;
        while k < n
            invariant
                n <= order@.len(),
                order@.len() == d.len(),
                d == s.method_distribution@,
                shown.len() == n,
                shown == shown_methods(d),
                forall|q: int| 0 <= q < n ==> (#[trigger] order@[q]) as int == shown[q],
                forall|q: int| 0 <= q < n ==> 0 <= #[trigger] shown[q] < d.len(),
                k <= n,
                tone_views(lines@) == head + shown.take(k as int).map_values(
                    |p: int| (method_line(d[p].0@, d[p].1), LineTone::Plain),
                ),
            decreases n - k,
        {
            let p = order[k];
            let mut line = string_of("  ");
            push_left(&mut line, s.method_distribution[p].0.as_str(), 20);
            push_str(&mut line, " ");
            push_u64(&mut line, s.method_distribution[p].1 as u64);
            let ghost before = tone_views(lines@);
            push_line(&mut lines, line, LineTone::Plain);
            proof {
                assert(shown.take(k + 1) =~= shown.take(k as int).push(shown[k as int]));
                assert(line@ == method_line(d[p as int].0@, d[p as int].1));
                assert(tone_views(lines@) =~= head + shown.take(k + 1).map_values(
                    |p: int| (method_line(d[p].0@, d[p].1), LineTone::Plain),
                ));
            }
            k = k + 1;
        }
        proof {
            assert(shown.take(n as int) =~= shown);
            assert(tone_views(lines@) =~= experience_lines(Some(*s), best@, average@));
        }
        lines
    }

    /// Display-only: every key is ignored.
    pub fn handle_key(&mut self, key: KeyEvent) -> (r: Option<TuiCommand>)
        ensures
            r is None,
    {
        None
    }

    /// The panel's shortcut hints.
    pub fn shortcuts(&self) -> (r: Vec<(&'static str, &'static str)>)
        ensures
            r@.len() == 1,
            r@[0].0@ == "Tab"@ && r@[0].1@ == "切换面板"@,
    {
        vec![("Tab", "切换面板")]
    }
}

} // verus!
