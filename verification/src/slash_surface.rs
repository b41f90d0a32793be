//! Slash-command completion list: the candidate model and its selection clamp.
use vstd::prelude::*;
use crate::text::{pad_right, push_left, push_str, string_of};

verus! {

/// Execution tier of a slash command.
#[derive(Debug, Clone, Copy, PartialEq, Eq)]
pub enum SlashTier {
    /// Runs at once in the interface.
    Instant,
    /// Runs through the orchestrator.
    Orchestrated,
    /// Runs as an agent turn.
    Agent,
}

/// One row of the completion list.
#[derive(Debug, Clone, PartialEq, Eq)]
pub struct SlashCandidate {
    /// Command words without the leading `/`.
    pub name: &'static str,
    /// Command title in the current locale.
    pub title: String,
    /// Execution tier shown as a marker.
    pub tier: SlashTier,
}

/// Most rows the completion list shows at once.
pub const MAX_VISIBLE_ROWS: usize = 10;

/// The localisation key of a tier's marker.
pub fn tier_label_key(tier: SlashTier) -> (r: &'static str)
    ensures
        tier == SlashTier::Instant ==> r@ == "slash.tier.instant"@,
        tier == SlashTier::Orchestrated ==> r@ == "slash.tier.orchestrated"@,
        tier == SlashTier::Agent ==> r@ == "slash.tier.agent"@,
{
    match tier {
        SlashTier::Instant => "slash.tier.instant",
        SlashTier::Orchestrated => "slash.tier.orchestrated",
        SlashTier::Agent => "slash.tier.agent",
    }
}

/// Clamps the selection when the list shrinks; an empty list gives 0.
pub fn clamp_selected(selected: usize, count: usize) -> (r: usize)
    ensures
        count == 0 ==> r == 0,
        count > 0 ==> r == (if selected < count { selected } else { (count - 1) as usize }),
        count > 0 ==> r < count,
{
    if count == 0 {
        0
    } else if selected < count - 1 {
        selected
    } else {
        count - 1
    }
}

/// Translated names of the tiers, as their markers show them.
#[derive(Debug, Clone, PartialEq, Eq)]
pub struct SlashTierLabels {
    pub instant: String,
    pub orchestrated: String,
    pub agent: String,
}

/// One drawn row of the completion list: tier marker, command and title, and
/// whether it is the selected row.
#[derive(Debug, Clone, PartialEq, Eq)]
pub struct CandidateRow {
    pub marker: String,
    pub command: String,
    pub title: String,
    pub selected: bool,
}

/// The translated name of a tier.
pub open spec fn tier_label(tier: SlashTier, l: SlashTierLabels) -> Seq<char> {
    match tier {
        SlashTier::Instant => l.instant@,
        SlashTier::Orchestrated => l.orchestrated@,
        SlashTier::Agent => l.agent@,
    }
}

/// Rows the list shows in a viewport of `height` rows.
pub open spec fn page_rows(height: int) -> int {
    if height < MAX_VISIBLE_ROWS { height } else { MAX_VISIBLE_ROWS as int }
}

/// The first row shown: the window moves down only as far as it must to keep
/// the selected row on its last line.
pub open spec fn first_row(selected: int, page: int) -> int {
    if selected >= page - 1 { selected - (page - 1) } else { 0 }
}

/// The parts of a drawn row: `[tier]` in a field of twelve and a space, `/`
/// and the command in a field of twenty and a space, the title.
pub open spec fn candidate_row_spec(c: SlashCandidate, l: SlashTierLabels, selected: bool) -> (
    Seq<char>,
    Seq<char>,
    Seq<char>,
    bool,
) {
    (pad_right("["@ + tier_label(c.tier, l) + "]"@, 12) + " "@, "/"@ + pad_right(c.name@, 20) + " "@, c.title@, selected)
}

/// The rows drawn for `cands` with `selected` chosen in a viewport of
/// `height` rows: none when there is nothing to show, else the page starting
/// at [`first_row`].
pub open spec fn candidate_rows_spec(cands: Seq<SlashCandidate>, selected: int, height: int, l: SlashTierLabels) -> Seq<
    (Seq<char>, Seq<char>, Seq<char>, bool),
> {
    if cands.len() == 0 || height <= 0 {
        Seq::empty()
    } else {
        let page = page_rows(height);
        let off = first_row(selected, page);
        let end = if off + page < cands.len() { off + page } else { cands.len() as int };
        if off >= end {
            Seq::empty()
        } else {
            Seq::new((end - off) as nat, |k: int| candidate_row_spec(cands[off + k], l, off + k == selected))
        }
    }
}

/// The parts of each drawn row.
pub open spec fn row_parts(v: Seq<CandidateRow>) -> Seq<(Seq<char>, Seq<char>, Seq<char>, bool)> {
    v.map_values(|r: CandidateRow| (r.marker@, r.command@, r.title@, r.selected))
}

/// The rows of the completion list to draw: see [`candidate_rows_spec`].
pub fn candidate_rows(cands: &Vec<SlashCandidate>, selected: usize, height: usize, labels: &SlashTierLabels) -> (r: Vec<
    CandidateRow,
>)
    ensures
        row_parts(r@) == candidate_rows_spec(cands@, selected as int, height as int, *labels),
{
    let mut rows: Vec<CandidateRow> = Vec::new();
    if cands.len() == 0 || height == 0 {
        return rows;
    }
    let page = if height < MAX_VISIBLE_ROWS { height } else { MAX_VISIBLE_ROWS };
    let off = if selected >= page - 1 { selected - (page - 1) } else { 0 };
    let end = if off < cands.len() && cands.len() - off > page { off + page } else { cands.len() };
    let ghost want = candidate_rows_spec(cands@, selected as int, height as int, *labels);
    if off >= end {
        return rows;
    }
    let mut i: usize = off;
    while i < end
        invariant
            off <= i <= end,
            end <= cands@.len(),
            off < end,
            want == Seq::new((end - off) as nat, |k: int| candidate_row_spec(cands@[off + k], *labels, off + k == selected)),
            row_parts(rows@) == want.take(i - off),
        decreases end - i,
    {
        let c = &cands[i];
        let label = match c.tier {
            SlashTier::Instant => &labels.instant,
            SlashTier::Orchestrated => &labels.orchestrated,
            SlashTier::Agent => &labels.agent,
        };
        let mut tag = string_of("[");
        push_str(&mut tag, label.as_str());
        push_str(&mut tag, "]");
        let mut marker = String::new();
        push_left(&mut marker, tag.as_str(), 12);
        push_str(&mut marker, " ");
        let mut command = string_of("/");
        push_left(&mut command, c.name, 20);
        push_str(&mut command, " ");
        let row = CandidateRow { marker, command, title: c.title.clone(), selected: i == selected };
        proof {
            assert(marker@ =~= pad_right("["@ + tier_label(c.tier, *labels) + "]"@, 12) + " "@);
        }
        let ghost before = rows@;
        rows.push(row);
        proof {
            assert(want.take(i + 1 - off) =~= want.take(i - off).push(want[i - off]));
            assert(row_parts(rows@) =~= row_parts(before).push((row.marker@, row.command@, row.title@, row.selected)));
        }
        i = i + 1;
    }
    proof {
        assert(want.take(end - off) =~= want);
    }
    rows
}

} // verus!
