//! Security panel: skeptic vetoes, audits and safety interventions in one
//! list, with a detail popup per entry.
use vstd::prelude::*;
use crate::input::{KeyCode, KeyEvent};
use crate::panels::list_state::{adjust_scroll_spec, clamp_spec};
use crate::popup::PopupKind;
use crate::text::{push_line, push_str, string_of, tone_views, LineTone, ToneLine};
use crate::types::{PanelId, TuiCommand};

verus! {

/// The three lists the security entries come from, in list order.
#[derive(Debug, Clone, Copy, PartialEq, Eq, Structural)]
pub enum SecurityEntryKind {
    Veto,
    Audit,
    Intervention,
}

/// Where entry `row` of the combined list lies: the vetoes come first, then
/// the audits, then the interventions; `None` past the end.
pub open spec fn locate_spec(row: int, vetoes: int, audits: int, interventions: int) -> Option<(SecurityEntryKind, int)> {
    if row < vetoes {
        Some((SecurityEntryKind::Veto, row))
    } else if row < vetoes + audits {
        Some((SecurityEntryKind::Audit, row - vetoes))
    } else if row < vetoes + audits + interventions {
        Some((SecurityEntryKind::Intervention, row - vetoes - audits))
    } else {
        None
    }
}

/// The tone of an intervention's action: a block is an alert, a warning a warning, anything else good.
pub open spec fn action_tone(action: Seq<char>) -> LineTone {
    if action == "Block"@ {
        LineTone::Alert
    } else if action == "Warn"@ {
        LineTone::Warning
    } else {
        LineTone::Good
    }
}

/// The frozen capabilities column: heading and rule, then one bulleted line
/// per capability, or `None`.
pub open spec fn frozen_spec(caps: Seq<String>) -> Seq<(Seq<char>, LineTone)> {
    seq![("Frozen Capabilities"@, LineTone::Emphasis), ("─────────────"@, LineTone::Plain)] + if caps.len() == 0 {
        seq![("None"@, LineTone::Plain)]
    } else {
        Seq::new(caps.len(), |i: int| ("• "@ + caps[i]@, LineTone::Alert))
    }
}

/// An audit as its row shows it; the risk comes drawn as a percentage.
#[derive(Debug, Clone, Default, PartialEq, Eq)]
pub struct AuditRowView {
    pub vulnerability_type: String,
    pub risk: String,
    /// Whether the audit detected anything (a detection rate above zero).
    pub detected: bool,
}

/// An intervention as its row shows it; the safety score comes drawn.
#[derive(Debug, Clone, Default, PartialEq, Eq)]
pub struct InterventionRowView {
    pub operation_id: String,
    pub action: String,
    pub score: String,
}

/// A row of the entry list: cursor mark, coloured tag, and the entry's text.
#[derive(Debug, Clone, PartialEq, Eq)]
pub struct SecurityRow {
    pub prefix: String,
    pub tag: String,
    pub tag_tone: LineTone,
    pub detail: String,
}

/// The parts of a row.
pub open spec fn row_view(r: SecurityRow) -> (Seq<char>, Seq<char>, LineTone, Seq<char>) {
    (r.prefix@, r.tag@, r.tag_tone, r.detail@)
}

/// The parts of each row.
pub open spec fn row_views(v: Seq<SecurityRow>) -> Seq<(Seq<char>, Seq<char>, LineTone, Seq<char>)> {
    v.map_values(|r: SecurityRow| row_view(r))
}

/// The cursor mark of row `i`.
pub open spec fn cursor_mark(i: int, selected: int) -> Seq<char> {
    if i == selected {
        "> "@
    } else {
        "  "@
    }
}

/// Row `i` for the veto of quest `v.0` with reason `v.1`.
pub open spec fn veto_row(v: (String, String), i: int, selected: int) -> (Seq<char>, Seq<char>, LineTone, Seq<char>) {
    (cursor_mark(i, selected), "[VETO]"@, LineTone::Alert, " "@ + v.0@ + " | "@ + v.1@)
}

/// Row `i` for an audit: an alert when it detected anything, else a warning.
pub open spec fn audit_row(a: AuditRowView, i: int, selected: int) -> (Seq<char>, Seq<char>, LineTone, Seq<char>) {
    (
        cursor_mark(i, selected),
        "[AUDIT]"@,
        if a.detected {
            LineTone::Alert
        } else {
            LineTone::Warning
        },
        " "@ + a.vulnerability_type@ + " | risk="@ + a.risk@ + "%"@,
    )
}

/// Row `i` for an intervention, toned by its action.
pub open spec fn intervention_row(x: InterventionRowView, i: int, selected: int) -> (
    Seq<char>,
    Seq<char>,
    LineTone,
    Seq<char>,
) {
    (cursor_mark(i, selected), "[ASA]"@, action_tone(x.action@), " "@ + x.operation_id@ + " | "@ + x.action@ + " | score="@ + x.score@)
}

/// All rows: vetoes, then audits, then interventions, the row at `selected` marked.
pub open spec fn security_rows_spec(
    vetoes: Seq<(String, String)>,
    audits: Seq<AuditRowView>,
    interventions: Seq<InterventionRowView>,
    selected: int,
) -> Seq<(Seq<char>, Seq<char>, LineTone, Seq<char>)> {
    Seq::new(vetoes.len(), |i: int| veto_row(vetoes[i], i, selected)) + Seq::new(
        audits.len(),
        |i: int| audit_row(audits[i], vetoes.len() + i, selected),
    ) + Seq::new(
        interventions.len(),
        |i: int| intervention_row(interventions[i], vetoes.len() + audits.len() + i, selected),
    )
}

/// Appends a row.
fn push_row(rows: &mut Vec<SecurityRow>, marked: bool, tag: &str, tag_tone: LineTone, detail: String)
    ensures
        row_views(final(rows)@) == row_views(old(rows)@).push(
            (if marked { "> "@ } else { "  "@ }, tag@, tag_tone, detail@),
        ),
{
    let ghost before = rows@;
    let prefix = if marked { string_of("> ") } else { string_of("  ") };
    let r = SecurityRow { prefix, tag: string_of(tag), tag_tone, detail };
    let ghost rv = row_view(r);
    rows.push(r);
    proof {
        assert(row_views(rows@) =~= row_views(before).push(rv));
    }
}

/// Security panel state: the selected entry and the scroll offset.
#[derive(Debug, Clone, PartialEq, Eq)]
pub struct SecurityPanel {
    selected: usize,
    scroll_offset: usize,
}

impl Default for SecurityPanel {
    /// The same as [`SecurityPanel::new`].
    fn default() -> (r: Self)
        ensures
            r.sel() == 0,
            r.offset() == 0,
    {
        SecurityPanel::new()
    }
}

impl SecurityPanel {
    /// The selected entry.
    pub closed spec fn sel(&self) -> usize {
        self.selected
    }

    /// The scroll offset.
    pub closed spec fn offset(&self) -> usize {
        self.scroll_offset
    }

    /// A panel at the first entry.
    pub fn new() -> (r: Self)
        ensures
            r.sel() == 0,
            r.offset() == 0,
    {
        SecurityPanel { selected: 0, scroll_offset: 0 }
    }

    /// A panel with entry `row` selected.
    pub fn at_row(row: usize) -> (r: Self)
        ensures
            r.sel() == row,
            r.offset() == 0,
    {
        SecurityPanel { selected: row, scroll_offset: 0 }
    }

    /// This panel's identity.
    pub fn id(&self) -> (r: PanelId)
        ensures
            r == PanelId::Security,
    {
        PanelId::Security
    }

    /// The selected entry.
    pub fn selected(&self) -> (r: usize)
        ensures
            r == self.sel(),
    {
        self.selected
    }

    /// The scroll offset.
    pub fn scroll_offset(&self) -> (r: usize)
        ensures
            r == self.offset(),
    {
        self.scroll_offset
    }

    /// Number of entries: vetoes, then audits, then interventions.
    pub fn event_count(vetoes: usize, audits: usize, interventions: usize) -> (r: usize)
        requires
            vetoes + audits + interventions <= usize::MAX,
        ensures
            r == vetoes + audits + interventions,
    {
        vetoes + audits + interventions
    }

    /// Which list entry `row` of the combined list comes from, and its position there.
    pub fn locate_entry(row: usize, vetoes: usize, audits: usize, interventions: usize) -> (r: Option<
        (SecurityEntryKind, usize),
    >)
        ensures
            match locate_spec(row as int, vetoes as int, audits as int, interventions as int) {
                Some((k, i)) => r == Some((k, i as usize)),
                None => r is None,
            },
    {
        if row < vetoes {
            Some((SecurityEntryKind::Veto, row))
        } else if row - vetoes < audits {
            Some((SecurityEntryKind::Audit, row - vetoes))
        } else if row - vetoes - audits < interventions {
            Some((SecurityEntryKind::Intervention, row - vetoes - audits))
        } else {
            None
        }
    }

    /// The tone of an intervention's action.
    pub fn intervention_tone(action: &str) -> (r: LineTone)
        ensures
            r == action_tone(action@),
    {
        let a = string_of(action);
        if a == string_of("Block") {
            LineTone::Alert
        } else if a == string_of("Warn") {
            LineTone::Warning
        } else {
            LineTone::Good
        }
    }

    /// The rows of the entry list, the one at `selected` marked: see
    /// [`security_rows_spec`].
    pub fn build_rows(
        vetoes: &Vec<(String, String)>,
        audits: &Vec<AuditRowView>,
        interventions: &Vec<InterventionRowView>,
        selected: usize,
    ) -> (r: Vec<SecurityRow>)
        ensures
            row_views(r@) == security_rows_spec(vetoes@, audits@, interventions@, selected as int),
    {
        let ghost sel = selected as int;
        let ghost vs = Seq::new(vetoes@.len(), |i: int| veto_row(vetoes@[i], i, sel));
        let ghost aus = Seq::new(audits@.len(), |i: int| audit_row(audits@[i], vetoes@.len() + i, sel));
        let ghost xs = Seq::new(
            interventions@.len(),
            |i: int| intervention_row(interventions@[i], vetoes@.len() + audits@.len() + i, sel),
        );
        let mut rows: Vec<SecurityRow> = Vec::new();
        let mut i: usize = 0;
        while i < vetoes.len()
            invariant
                i <= vetoes@.len(),
                sel == selected as int,
                vs == Seq::new(vetoes@.len(), |i: int| veto_row(vetoes@[i], i, sel)),
                row_views(rows@) == vs.take(i as int),
            decreases vetoes@.len() - i,
        {
            let mut d = string_of(" ");
            push_str(&mut d, vetoes[i].0.as_str());
            push_str(&mut d, " | ");
            push_str(&mut d, vetoes[i].1.as_str());
            push_row(&mut rows, i == selected, "[VETO]", LineTone::Alert, d);
            proof {
                reveal_strlit("[VETO]");
                assert(vs.take(i + 1) =~= vs.take(i as int).push(vs[i as int]));
            }
            i = i + 1;
        }
        proof {
            assert(vs.take(vetoes@.len() as int) =~= vs);
        }
        let mut j: usize = 0;
        while j < audits.len()
            invariant
                j <= audits@.len(),
                sel == selected as int,
                aus == Seq::new(audits@.len(), |i: int| audit_row(audits@[i], vetoes@.len() + i, sel)),
                row_views(rows@) == vs + aus.take(j as int),
            decreases audits@.len() - j,
        {
            let a = &audits[j];
            let mut d = string_of(" ");
            push_str(&mut d, a.vulnerability_type.as_str());
            push_str(&mut d, " | risk=");
            push_str(&mut d, a.risk.as_str());
            push_str(&mut d, "%");
            let tone = if a.detected { LineTone::Alert } else { LineTone::Warning };
            let marked = selected >= vetoes.len() && selected - vetoes.len() == j;
            push_row(&mut rows, marked, "[AUDIT]", tone, d);
            proof {
                reveal_strlit("[AUDIT]");
                assert(aus.take(j + 1) =~= aus.take(j as int).push(aus[j as int]));
            }
            j = j + 1;
        }
        proof {
            assert(aus.take(audits@.len() as int) =~= aus);
        }
        let mut k: usize = 0;
        while k < interventions.len()
            invariant
                k <= interventions@.len(),
                sel == selected as int,
                xs == Seq::new(
                    interventions@.len(),
                    |i: int| intervention_row(interventions@[i], vetoes@.len() + audits@.len() + i, sel),
                ),
                row_views(rows@) == vs + aus + xs.take(k as int),
            decreases interventions@.len() - k,
        {
            let x = &interventions[k];
            let mut d = string_of(" ");
            push_str(&mut d, x.operation_id.as_str());
            push_str(&mut d, " | ");
            push_str(&mut d, x.action.as_str());
            push_str(&mut d, " | score=");
            push_str(&mut d, x.score.as_str());
            let tone = Self::intervention_tone(x.action.as_str());
            let marked = selected >= vetoes.len() && selected - vetoes.len() >= audits.len()
                && selected - vetoes.len() - audits.len() == k;
            push_row(&mut rows, marked, "[ASA]", tone, d);
            proof {
                reveal_strlit("[ASA]");
                assert(xs.take(k + 1) =~= xs.take(k as int).push(xs[k as int]));
            }
            k = k + 1;
        }
        proof {
            assert(xs.take(interventions@.len() as int) =~= xs);
        }
        rows
    }

    /// The frozen capabilities column.
    pub fn frozen_lines(caps: &Vec<String>) -> (r: Vec<ToneLine>)
        ensures
            tone_views(r@) == frozen_spec(caps@),
    {
        let mut lines: Vec<ToneLine> = Vec::new();
        push_line(&mut lines, string_of("Frozen Capabilities"), LineTone::Emphasis);
        push_line(&mut lines, string_of("─────────────"), LineTone::Plain);
        let ghost head = tone_views(lines@);
        if caps.len() == 0 {
            push_line(&mut lines, string_of("None"), LineTone::Plain);
        } else {
            let ghost rows = Seq::new(caps@.len(), |i: int| ("• "@ + caps@[i]@, LineTone::Alert));
            let mut i: usize = 0;
            while i < caps.len()
                invariant
                    i <= caps@.len(),
                    rows == Seq::new(caps@.len(), |i: int| ("• "@ + caps@[i]@, LineTone::Alert)),
                    tone_views(lines@) == head + rows.take(i as int),
                decreases caps@.len() - i,
            {
                let mut l = string_of("• ");
                push_str(&mut l, caps[i].as_str());
                proof {
                    assert(rows.take(i + 1) =~= rows.take(i as int).push((l@, LineTone::Alert)));
                }
                push_line(&mut lines, l, LineTone::Alert);
                i = i + 1;
            }
            proof {
                assert(rows.take(caps@.len() as int) =~= rows);
            }
        }
        proof {
            assert(tone_views(lines@) =~= frozen_spec(caps@));
        }
        lines
    }

    /// Clamps the selection to `count` entries.
    pub fn clamp_selected(&mut self, count: usize)
        ensures
            final(self).sel() == clamp_spec(old(self).sel() as int, count as int),
            final(self).offset() == old(self).offset(),
    {
        if count == 0 {
            self.selected = 0;
        } else if self.selected >= count {
            self.selected = count - 1;
        }
    }

    /// The scroll offset that keeps `selected` inside `visible_rows` rows.
    pub fn adjust_scroll(selected: usize, scroll_offset: usize, visible_rows: usize) -> (r: usize)
        ensures
            r == adjust_scroll_spec(selected as int, scroll_offset as int, visible_rows as int),
            visible_rows > 0 ==> r <= selected < r + visible_rows,
    {
        crate::panels::list_state::adjust_scroll(selected, scroll_offset, visible_rows)
    }

    /// Up/Down move among `count` entries (not past either end), Enter opens
    /// `detail` — the `(title, content)` of the selected entry, when it exists —
    /// and `g`/`G` jump to the first/last entry; other keys are ignored.
    pub fn handle_key(&mut self, key: KeyEvent, count: usize, detail: Option<(String, String)>) -> (r:
        Option<TuiCommand>)
        ensures
            ({
                let s = old(self).sel() as int;
                let n = count as int;
                if key.code == KeyCode::Up {
                    r is None && final(self).offset() == old(self).offset() && final(self).sel() == (if n
                        > 0 && s > 0 {
                        s - 1
                    } else {
                        s
                    })
                } else if key.code == KeyCode::Down {
                    r is None && final(self).offset() == old(self).offset() && final(self).sel() == (if n
                        > 0 && s + 1 < n {
                        s + 1
                    } else {
                        s
                    })
                } else if key.code == KeyCode::Enter {
                    *final(self) == *old(self) && match detail {
                        Some((t, c)) => r matches Some(
                            TuiCommand::OpenPopup(PopupKind::Detail { title, content, scroll }),
                        ) && title == t && content == c && scroll == 0,
                        None => r is None,
                    }
                } else if key.code == KeyCode::Char('g') {
                    r is None && final(self).sel() == 0 && final(self).offset() == 0
                } else if key.code == KeyCode::Char('G') {
                    r is None && final(self).sel() == (if n == 0 { 0 } else { n - 1 })
                        && final(self).offset() == final(self).sel()
                } else {
                    r is None && *final(self) == *old(self)
                }
            }),
    {
        match key.code {
            KeyCode::Up => {
                if count > 0 && self.selected > 0 {
                    self.selected = self.selected - 1;
                }
                None
            },
            KeyCode::Down => {
                if count > 0 && self.selected < count - 1 {
                    self.selected = self.selected + 1;
                }
                None
            },
            KeyCode::Enter => match detail {
                Some((title, content)) => Some(
                    TuiCommand::OpenPopup(PopupKind::Detail { title, content, scroll: 0 }),
                ),
                None => None,
            },
            KeyCode::Char('g') => {
                self.scroll_to_top();
                None
            },
            KeyCode::Char('G') => {
                self.scroll_to_bottom(count);
                None
            },
            _ => None,
        }
    }

    /// Jumps to the first entry.
    pub fn scroll_to_top(&mut self)
        ensures
            final(self).sel() == 0,
            final(self).offset() == 0,
    {
        self.selected = 0;
        self.scroll_offset = 0;
    }

    /// Jumps to the last of `count` entries.
    pub fn scroll_to_bottom(&mut self, count: usize)
        ensures
            final(self).sel() == (if count == 0 { 0 } else { count - 1 }),
            final(self).offset() == final(self).sel(),
    {
        self.selected = if count == 0 { 0 } else { count - 1 };
        self.scroll_offset = self.selected;
    }

    /// Clamps the selection to `count` entries and scrolls so that it shows in
    /// `visible_rows` rows, as a frame does before drawing.
    pub fn sync_view(&mut self, count: usize, visible_rows: usize)
        ensures
            final(self).sel() == clamp_spec(old(self).sel() as int, count as int),
            final(self).offset() == adjust_scroll_spec(
                final(self).sel() as int,
                old(self).offset() as int,
                visible_rows as int,
            ),
    {
        self.clamp_selected(count);
        self.scroll_offset = Self::adjust_scroll(self.selected, self.scroll_offset, visible_rows);
    }
}

} // verus!
