//! Budget panel: token and cost budgets against their limits.
use vstd::prelude::*;
use crate::input::{KeyCode, KeyEvent};
use crate::panels::chtc::{push_repeat, repeat_char};
use crate::text::{push_line, push_str, string_of, tone_views, LineTone, ToneLine};
use crate::types::{PanelId, TuiCommand};

verus! {

/// Cells of the utilization bar.
pub const BUDGET_BAR_WIDTH: usize = 30;

/// Translated words of the budget panel.
#[derive(Debug, Clone, PartialEq, Eq)]
pub struct BudgetLabels {
    pub title: String,
    pub tier: String,
    pub coefficient: String,
    pub consumption: String,
    pub remaining: String,
    pub utilization: String,
    pub status: String,
    pub alert: String,
    pub hint: String,
    /// Said when the figures are out of date.
    pub stale: String,
}

/// The budget as the panel prints it; the float quantities come drawn (one
/// decimal), and `bar_used` is the number of filled cells of the bar.
#[derive(Debug, Clone, PartialEq, Eq)]
pub struct BudgetView {
    pub current_tier: String,
    pub coefficient: String,
    pub consumption: String,
    /// Consumption plus remaining budget.
    pub total: String,
    pub remaining: String,
    /// Utilization in percent, without the sign.
    pub utilization: String,
    pub bar_used: usize,
    pub is_exceeded: bool,
    pub alert: Option<String>,
    /// Whether the figures are out of date.
    pub stale: bool,
}

/// Filled cells of the bar: `bar_used`, at most the width.
pub open spec fn bar_cells(v: BudgetView) -> nat {
    if v.bar_used > BUDGET_BAR_WIDTH { BUDGET_BAR_WIDTH as nat } else { v.bar_used as nat }
}

/// The panel text while the figures are current: heading, tier, coefficient,
/// consumption of the total, remaining, utilization, status (an alert when
/// exceeded), the bar, the alert if any (an alert when exceeded), and the hint.
pub open spec fn budget_fresh_lines(v: BudgetView, l: BudgetLabels) -> Seq<(Seq<char>, LineTone)> {
    let flagged = if v.is_exceeded { LineTone::Alert } else { LineTone::Plain };
    seq![
        (l.title@, LineTone::Plain),
        ("─────────────"@, LineTone::Plain),
        (l.tier@ + ": "@ + v.current_tier@, LineTone::Plain),
        (l.coefficient@ + ":  "@ + v.coefficient@, LineTone::Plain),
        (l.consumption@ + ":  "@ + v.consumption@ + " / "@ + v.total@, LineTone::Plain),
        (l.remaining@ + ":    "@ + v.remaining@, LineTone::Plain),
        (l.utilization@ + ":  "@ + v.utilization@ + "%"@, LineTone::Plain),
        (l.status@ + ":       "@ + if v.is_exceeded { "EXCEEDED"@ } else { "OK"@ }, flagged),
        (
            "["@ + repeat_char('=', bar_cells(v)) + repeat_char('-', (BUDGET_BAR_WIDTH - bar_cells(v)) as nat) + "] "@
                + v.utilization@ + "%"@,
            LineTone::Plain,
        ),
    ] + match v.alert {
        Some(a) => seq![(l.alert@ + ":        "@ + a@, flagged)],
        None => Seq::empty(),
    } + seq![(Seq::empty(), LineTone::Plain), (l.hint@, LineTone::Plain)]
}

/// The panel text: while the figures are out of date every line is muted and
/// a warning goes under the heading.
pub open spec fn budget_lines(v: BudgetView, l: BudgetLabels) -> Seq<(Seq<char>, LineTone)> {
    let fresh = budget_fresh_lines(v, l);
    if v.stale {
        fresh.map_values(|p: (Seq<char>, LineTone)| (p.0, LineTone::Muted)).insert(
            2,
            ("⚠ "@ + l.stale@, LineTone::Muted),
        )
    } else {
        fresh
    }
}

/// BudgetPanel has no state of its own: it shows what the application hands it.
#[derive(Debug, Default, Clone, Copy, PartialEq, Eq)]
pub struct BudgetPanel;

impl BudgetPanel {
    /// A new panel.
    pub fn new() -> (r: Self)
        ensures
            r == BudgetPanel,
    {
        BudgetPanel
    }

    /// This panel's identity.
    pub fn id(&self) -> (r: PanelId)
        ensures
            r == PanelId::Budget,
    {
        PanelId::Budget
    }

    /// The panel text: see [`budget_lines`].
    pub fn content(v: &BudgetView, l: &BudgetLabels) -> (r: Vec<ToneLine>)
        ensures
            tone_views(r@) == budget_lines(*v, *l),
    {
        let flagged = if v.is_exceeded { LineTone::Alert } else { LineTone::Plain };
        let mut lines: Vec<ToneLine> = Vec::new();
        push_line(&mut lines, l.title.clone(), LineTone::Plain);
        push_line(&mut lines, string_of("─────────────"), LineTone::Plain);
        let mut s = string_of(l.tier.as_str());
        push_str(&mut s, ": ");
        push_str(&mut s, v.current_tier.as_str());
        push_line(&mut lines, s, LineTone::Plain);
        let mut s = string_of(l.coefficient.as_str());
        push_str(&mut s, ":  ");
        push_str(&mut s, v.coefficient.as_str());
        push_line(&mut lines, s, LineTone::Plain);
        let mut s = string_of(l.consumption.as_str());
        push_str(&mut s, ":  ");
        push_str(&mut s, v.consumption.as_str());
        push_str(&mut s, " / ");
        push_str(&mut s, v.total.as_str());
        push_line(&mut lines, s, LineTone::Plain);
        let mut s = string_of(l.remaining.as_str());
        push_str(&mut s, ":    ");
        push_str(&mut s, v.remaining.as_str());
        push_line(&mut lines, s, LineTone::Plain);
        let mut s = string_of(l.utilization.as_str());
        push_str(&mut s, ":  ");
        push_str(&mut s, v.utilization.as_str());
        push_str(&mut s, "%");
        push_line(&mut lines, s, LineTone::Plain);
        let mut s = string_of(l.status.as_str());
        push_str(&mut s, ":       ");
        push_str(&mut s, if v.is_exceeded { "EXCEEDED" } else { "OK" });
        push_line(&mut lines, s, flagged);
        let used = if v.bar_used > BUDGET_BAR_WIDTH { BUDGET_BAR_WIDTH } else { v.bar_used };
        let mut s = string_of("[");
        proof {
            reveal_strlit("=");
            reveal_strlit("-");
        }
        push_repeat(&mut s, "=", used);
        push_repeat(&mut s, "-", BUDGET_BAR_WIDTH - used);
        push_str(&mut s, "] ");
        push_str(&mut s, v.utilization.as_str());
        push_str(&mut s, "%");
        push_line(&mut lines, s, LineTone::Plain);
        match &v.alert {
            Some(a) => {
                let mut s = string_of(l.alert.as_str());
                push_str(&mut s, ":        ");
                push_str(&mut s, a.as_str());
                push_line(&mut lines, s, flagged);
            },
            None => {},
        }
        push_line(&mut lines, String::new(), LineTone::Plain);
        push_line(&mut lines, l.hint.clone(), LineTone::Plain);
        proof {
            assert(tone_views(lines@) =~= budget_fresh_lines(*v, *l));
        }
        if !v.stale {
            return lines;
        }
        let ghost fresh = tone_views(lines@);
        let ghost warn = ("⚠ "@ + l.stale@, LineTone::Muted);
        let mut muted: Vec<ToneLine> = Vec::new();
        let mut i: usize = 0;
        while i < lines.len()
            invariant
                i <= lines@.len(),
                lines@.len() >= 3,
                fresh == tone_views(lines@),
                warn == ("⚠ "@ + l.stale@, LineTone::Muted),
                tone_views(muted@) == if i <= 2 {
                    fresh.take(i as int).map_values(|p: (Seq<char>, LineTone)| (p.0, LineTone::Muted))
                } else {
                    fresh.take(i as int).map_values(|p: (Seq<char>, LineTone)| (p.0, LineTone::Muted)).insert(2, warn)
                },
            decreases lines@.len() - i,
        {
            let ghost before = tone_views(muted@);
            if i == 2 {
                let mut w = string_of("⚠ ");
                push_str(&mut w, l.stale.as_str());
                push_line(&mut muted, w, LineTone::Muted);
            }
            push_line(&mut muted, lines[i].text.clone(), LineTone::Muted);
            proof {
                let m = |p: (Seq<char>, LineTone)| (p.0, LineTone::Muted);
                assert(fresh.take(i + 1) =~= fresh.take(i as int).push(fresh[i as int]));
                assert(fresh.take(i + 1).map_values(m) =~= fresh.take(i as int).map_values(m).push(m(fresh[i as int])));
                if i == 2 {
                    assert(tone_views(muted@) =~= before.push(warn).push(m(fresh[i as int])));
                    assert(fresh.take(i + 1).map_values(m).insert(2, warn) =~= fresh.take(i as int).map_values(m).push(
                        warn,
                    ).push(m(fresh[i as int])));
                } else if i > 2 {
                    assert(fresh.take(i + 1).map_values(m).insert(2, warn) =~= fresh.take(i as int).map_values(m).insert(
                        2,
                        warn,
                    ).push(m(fresh[i as int])));
                }
            }
            i = i + 1;
        }
        proof {
            assert(fresh.take(lines@.len() as int) =~= fresh);
        }
        muted
    }

    /// `R` asks for a refresh; every other key is ignored.
    pub fn handle_key(&mut self, key: KeyEvent) -> (r: Option<TuiCommand>)
        ensures
            r == (if key.code == KeyCode::Char('R') {
                Some(TuiCommand::RequestRefresh)
            } else {
                None
            }),
    {
        if key.code == KeyCode::Char('R') {
            return Some(TuiCommand::RequestRefresh);
        }
        None
    }
}

} // verus!
