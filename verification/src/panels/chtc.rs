//! CHTC panel: the connected editor adapters, their compatibility scores and
//! recent requests, with a detail popup per adapter.
use vstd::prelude::*;
use crate::input::{KeyCode, KeyEvent, MouseEventKind};
use crate::panels::list_state::clamp_spec;
use crate::popup::PopupKind;
use crate::text::{dec, join, push_str, push_u64, string_of, views};
use crate::types::{PanelId, TuiCommand};

verus! {

/// Scores below this are flagged as a compatibility risk.
pub const COMPATIBILITY_SCORE_WARNING_THRESHOLD: u8 = 60;

/// Scores from this up are shown as good.
pub const COMPATIBILITY_SCORE_GOOD_THRESHOLD: u8 = 80;

/// One editor adapter as the bridge reports it.
#[derive(Debug, Clone, PartialEq, Eq)]
pub struct ChtcAdapterInfo {
    pub adapter_id: String,
    pub adapter_type: String,
    /// Compatibility score out of 100.
    pub compatibility_score: u8,
    /// Recent requests by type, with their counts.
    pub recent_requests: Vec<(String, u32)>,
    pub is_online: bool,
}

/// `online` or `offline`.
pub open spec fn online_text(online: bool) -> Seq<char> {
    if online {
        "online"@
    } else {
        "offline"@
    }
}

/// Lines of the recent requests section.
pub open spec fn request_lines(reqs: Seq<(String, u32)>) -> Seq<Seq<char>> {
    Seq::new(reqs.len(), |i: int| "  - "@ + reqs[i].0@ + ": "@ + dec(reqs[i].1 as nat))
}

/// Lines of the detail popup of an adapter.
pub open spec fn chtc_detail_lines(a: ChtcAdapterInfo) -> Seq<Seq<char>> {
    seq![
        "Adapter ID: "@ + a.adapter_id@,
        "Type: "@ + a.adapter_type@,
        "Compatibility Score: "@ + dec(a.compatibility_score as nat) + "/100"@,
        "Status: "@ + online_text(a.is_online),
    ] + (if a.compatibility_score < COMPATIBILITY_SCORE_WARNING_THRESHOLD {
        seq!["Warning: score below 60 (compatibility risk)"@]
    } else {
        Seq::empty()
    }) + (if a.recent_requests@.len() == 0 {
        seq![Seq::empty(), "Recent Requests: (none)"@]
    } else {
        seq![Seq::empty(), "Recent Requests:"@] + request_lines(a.recent_requests@)
    })
}

/// Width of the score bar in characters.
pub const PROGRESS_BAR_WIDTH: usize = 30;

/// How a score is shown: good, normal or at risk.
#[derive(Debug, Clone, Copy, PartialEq, Eq, Structural)]
pub enum ScoreTone {
    Good,
    Normal,
    AtRisk,
}

/// `n` copies of `c`.
pub open spec fn repeat_char(c: char, n: nat) -> Seq<char> {
    Seq::new(n, |i: int| c)
}

/// Filled cells of the score bar.
pub open spec fn bar_filled(score: u8) -> nat {
    let f = (score as int) * (PROGRESS_BAR_WIDTH as int) / 100;
    if f > PROGRESS_BAR_WIDTH { PROGRESS_BAR_WIDTH as nat } else { f as nat }
}

/// The score bar line: `  [===---] score/100`.
pub open spec fn score_bar_text(score: u8) -> Seq<char> {
    "  ["@ + repeat_char('=', bar_filled(score)) + repeat_char('-', (PROGRESS_BAR_WIDTH - bar_filled(score)) as nat)
        + "] "@ + dec(score as nat) + "/100"@
}

/// The `type(count)` pieces of the recent requests.
pub open spec fn request_pieces(reqs: Seq<(String, u32)>) -> Seq<Seq<char>> {
    Seq::new(reqs.len(), |i: int| reqs[i].0@ + "("@ + dec(reqs[i].1 as nat) + ")"@)
}

/// The recent requests line.
pub open spec fn requests_text(reqs: Seq<(String, u32)>) -> Seq<char> {
    if reqs.len() == 0 {
        "  Requests: (none)"@
    } else {
        "  Requests: "@ + join(request_pieces(reqs), " / "@)
    }
}

/// The three lines of one adapter.
pub open spec fn adapter_lines(a: ChtcAdapterInfo) -> Seq<Seq<char>> {
    seq![
        a.adapter_id@ + " ["@ + a.adapter_type@ + "]  "@ + online_text(a.is_online),
        score_bar_text(a.compatibility_score),
        requests_text(a.recent_requests@),
    ]
}

/// Lines of all adapters, a blank line between two adapters.
pub open spec fn adapters_lines(adapters: Seq<ChtcAdapterInfo>) -> Seq<Seq<char>>
    decreases adapters.len(),
{
    if adapters.len() == 0 {
        Seq::empty()
    } else if adapters.len() == 1 {
        adapter_lines(adapters[0])
    } else {
        adapters_lines(adapters.drop_last()) + seq![Seq::<char>::empty()] + adapter_lines(adapters.last())
    }
}

/// The panel's lines: header, the adapters (or a waiting note), a blank line and the footer.
pub open spec fn chtc_content_lines(adapters: Seq<ChtcAdapterInfo>) -> Seq<Seq<char>> {
    seq!["CHTC Adapters"@, "─────────────────────────────"@] + (if adapters.len() == 0 {
        seq![
            "No CHTC adapters connected"@,
            Seq::<char>::empty(),
            "Waiting for ChtcAdapterStatus events from chtc-bridge..."@,
        ]
    } else {
        adapters_lines(adapters)
    }) + seq![Seq::<char>::empty(), crate::render::FOOTER_TEXT@]
}

/// Appends `n` copies of the one-character string `c`.
pub(crate) fn push_repeat(out: &mut String, c: &str, n: usize)
    requires
        c@.len() == 1,
    ensures
        final(out)@ == old(out)@ + repeat_char(c@[0], n as nat),
{
    let mut k: usize = 0;
    while k < n
        invariant
            k <= n,
            c@.len() == 1,
            out@ == old(out)@ + repeat_char(c@[0], k as nat),
        decreases n - k,
    {
        push_str(out, c);
        proof {
            assert(repeat_char(c@[0], (k + 1) as nat) =~= repeat_char(c@[0], k as nat) + c@);
            assert(old(out)@ + repeat_char(c@[0], k as nat) + c@ =~= old(out)@ + (repeat_char(c@[0], k as nat) + c@));
        }
        k = k + 1;
    }
}

/// Adapter list panel: the selected row and the scroll offset.
#[derive(Debug, Clone, PartialEq, Eq)]
pub struct ChtcPanel {
    selected: usize,
    scroll_offset: usize,
}

impl Default for ChtcPanel {
    /// The same as [`ChtcPanel::new`].
    fn default() -> (r: Self)
        ensures
            r.sel() == 0,
            r.offset() == 0,
    {
        ChtcPanel::new()
    }
}

impl ChtcPanel {
    /// The selected row.
    pub closed spec fn sel(&self) -> usize {
        self.selected
    }

    /// The scroll offset.
    pub closed spec fn offset(&self) -> usize {
        self.scroll_offset
    }

    /// A panel at the first row.
    pub fn new() -> (r: Self)
        ensures
            r.sel() == 0,
            r.offset() == 0,
    {
        ChtcPanel { selected: 0, scroll_offset: 0 }
    }

    /// This panel's identity.
    pub fn id(&self) -> (r: PanelId)
        ensures
            r == PanelId::Chtc,
    {
        PanelId::Chtc
    }

    /// The selected row.
    pub fn selected(&self) -> (r: usize)
        ensures
            r == self.sel(),
    {
        self.selected
    }

    /// The scroll offset.
    pub fn scroll_offset(&self) -> (r: usize)
        ensures
            r == self.offset(),
    {
        self.scroll_offset
    }

    /// Tone of a score: good from 80, normal from 60, at risk below.
    pub fn score_tone(score: u8) -> (r: ScoreTone)
        ensures
            r == (if score >= COMPATIBILITY_SCORE_GOOD_THRESHOLD {
                ScoreTone::Good
            } else if score >= COMPATIBILITY_SCORE_WARNING_THRESHOLD {
                ScoreTone::Normal
            } else {
                ScoreTone::AtRisk
            }),
    {
        if score >= COMPATIBILITY_SCORE_GOOD_THRESHOLD {
            ScoreTone::Good
        } else if score >= COMPATIBILITY_SCORE_WARNING_THRESHOLD {
            ScoreTone::Normal
        } else {
            ScoreTone::AtRisk
        }
    }

    /// The score bar line of a score.
    pub fn score_bar_line(score: u8) -> (r: String)
        ensures
            r@ == score_bar_text(score),
    {
        let f = score as usize * PROGRESS_BAR_WIDTH / 100;
        let filled = if f > PROGRESS_BAR_WIDTH { PROGRESS_BAR_WIDTH } else { f };
        let mut line = string_of("  [");
        proof {
            reveal_strlit("=");
            reveal_strlit("-");
        }
        push_repeat(&mut line, "=", filled);
        push_repeat(&mut line, "-", PROGRESS_BAR_WIDTH - filled);
        push_str(&mut line, "] ");
        push_u64(&mut line, score as u64);
        push_str(&mut line, "/100");
        line
    }

    /// The recent requests line.
    pub fn recent_requests_line(recent: &Vec<(String, u32)>) -> (r: String)
        ensures
            r@ == requests_text(recent@),
    {
        if recent.len() == 0 {
            return string_of("  Requests: (none)");
        }
        let mut pieces: Vec<String> = Vec::new();
        let mut k: usize = 0;
        while k < recent.len()
            invariant
                k <= recent@.len(),
                views(pieces@) == request_pieces(recent@).take(k as int),
            decreases recent@.len() - k,
        {
            let mut p = recent[k].0.clone();
            push_str(&mut p, "(");
            push_u64(&mut p, recent[k].1 as u64);
            push_str(&mut p, ")");
            let ghost before = pieces@;
            pieces.push(p);
            proof {
                let rp = request_pieces(recent@);
                assert(rp.take(k + 1) =~= rp.take(k as int).push(p@));
                assert(views(pieces@) =~= views(before).push(p@));
            }
            k = k + 1;
        }
        proof {
            let rp = request_pieces(recent@);
            assert(rp.take(rp.len() as int) =~= rp);
        }
        let mut line = string_of("  Requests: ");
        let joined = crate::text::join_strings(&pieces, " / ");
        push_str(&mut line, joined.as_str());
        line
    }

    /// The text lines of the panel for `adapters` (colours are applied by the renderer).
    pub fn content_lines(adapters: &Vec<ChtcAdapterInfo>) -> (r: Vec<String>)
        ensures
            views(r@) == chtc_content_lines(adapters@),
    {
        let mut lines: Vec<String> = Vec::new();
        lines.push(string_of("CHTC Adapters"));
        lines.push(string_of("─────────────────────────────"));
        let ghost head = views(lines@);
        if adapters.len() == 0 {
            lines.push(string_of("No CHTC adapters connected"));
            lines.push(String::new());
            lines.push(string_of("Waiting for ChtcAdapterStatus events from chtc-bridge..."));
        } else {
            let mut k: usize = 0;
            while k < adapters.len()
                invariant
                    k <= adapters@.len(),
                    head.len() == 2,
                    views(lines@) == head + adapters_lines(adapters@.take(k as int)),
                decreases adapters@.len() - k,
            {
                let a = &adapters[k];
                let ghost start = views(lines@);
                if k > 0 {
                    lines.push(String::new());
                }
                let ghost mid = views(lines@);
                proof {
                    assert(mid == if k > 0 { start.push(Seq::<char>::empty()) } else { start }) by {
                        if k > 0 {
                            assert(mid =~= start.push(Seq::<char>::empty()));
                        }
                    }
                }
                let mut l0 = a.adapter_id.clone();
                push_str(&mut l0, " [");
                push_str(&mut l0, a.adapter_type.as_str());
                push_str(&mut l0, "]  ");
                push_str(&mut l0, if a.is_online { "online" } else { "offline" });
                let ghost l0v = l0@;
                lines.push(l0);
                let l1 = Self::score_bar_line(a.compatibility_score);
                let ghost l1v = l1@;
                lines.push(l1);
                let l2 = Self::recent_requests_line(&a.recent_requests);
                let ghost l2v = l2@;
                lines.push(l2);
                proof {
                    let t = adapters@.take(k + 1);
                    assert(t.drop_last() =~= adapters@.take(k as int));
                    assert(t.last() == *a);
                    assert(adapter_lines(*a) =~= seq![l0v, l1v, l2v]);
                    assert(views(lines@) =~= mid + seq![l0v, l1v, l2v]);
                    if k == 0 {
                        assert(t =~= seq![*a]);
                        assert(adapters_lines(adapters@.take(0)) =~= Seq::<Seq<char>>::empty());
                        assert(views(lines@) =~= head + adapters_lines(t));
                    } else {
                        assert(views(lines@) =~= head + adapters_lines(t));
                    }
                }
                k = k + 1;
            }
            proof {
                assert(adapters@.take(adapters@.len() as int) =~= adapters@);
            }
        }
        let ghost body = views(lines@);
        lines.push(String::new());
        lines.push(string_of(crate::render::FOOTER_TEXT));
        proof {
            assert(views(lines@) =~= body + seq![Seq::<char>::empty(), crate::render::FOOTER_TEXT@]);
            assert(views(lines@) =~= chtc_content_lines(adapters@));
        }
        lines
    }

    /// The detail popup text of an adapter, lines joined by newlines.
    pub fn detail_content(adapter: &ChtcAdapterInfo) -> (r: String)
        ensures
            r@ == join(chtc_detail_lines(*adapter), "\n"@),
    {
        let mut lines: Vec<String> = Vec::new();
        let mut l0 = string_of("Adapter ID: ");
        push_str(&mut l0, adapter.adapter_id.as_str());
        lines.push(l0);
        let mut l1 = string_of("Type: ");
        push_str(&mut l1, adapter.adapter_type.as_str());
        lines.push(l1);
        let mut l2 = string_of("Compatibility Score: ");
        push_u64(&mut l2, adapter.compatibility_score as u64);
        push_str(&mut l2, "/100");
        lines.push(l2);
        let mut l3 = string_of("Status: ");
        push_str(&mut l3, if adapter.is_online { "online" } else { "offline" });
        lines.push(l3);
        if adapter.compatibility_score < COMPATIBILITY_SCORE_WARNING_THRESHOLD {
            lines.push(string_of("Warning: score below 60 (compatibility risk)"));
        }
        lines.push(String::new());
        let ghost head = views(lines@);
        if adapter.recent_requests.len() == 0 {
            lines.push(string_of("Recent Requests: (none)"));
        } else {
            lines.push(string_of("Recent Requests:"));
            let ghost head2 = views(lines@);
            let mut k: usize = 0;
            while k < adapter.recent_requests.len()
                invariant
                    k <= adapter.recent_requests@.len(),
                    views(lines@) == head2 + request_lines(adapter.recent_requests@).take(k as int),
                decreases adapter.recent_requests@.len() - k,
            {
                let mut line = string_of("  - ");
                push_str(&mut line, adapter.recent_requests[k].0.as_str());
                push_str(&mut line, ": ");
                push_u64(&mut line, adapter.recent_requests[k].1 as u64);
                let ghost before = lines@;
                lines.push(line);
                proof {
                    let rl = request_lines(adapter.recent_requests@);
                    assert(rl.take(k + 1) =~= rl.take(k as int).push(line@));
                    assert(views(lines@) =~= views(before).push(line@));
                }
                k = k + 1;
            }
            proof {
                let rl = request_lines(adapter.recent_requests@);
                assert(rl.take(rl.len() as int) =~= rl);
            }
        }
        proof {
            assert(views(lines@) =~= chtc_detail_lines(*adapter));
        }
        crate::text::join_strings(&lines, "\n")
    }

    /// Up/Down move within the `adapters`, Enter opens the detail of the selected
    /// adapter, `g`/`G` jump to the first/last row; other keys are ignored.
    pub fn handle_key(&mut self, key: KeyEvent, adapters: &Vec<ChtcAdapterInfo>) -> (r: Option<TuiCommand>)
        ensures
            ({
                let n = adapters@.len() as int;
                let s = old(self).sel() as int;
                if key.code == KeyCode::Up {
                    r is None && final(self).sel() == clamp_spec(s - 1, n) && final(self).offset()
                        == old(self).offset()
                } else if key.code == KeyCode::Down {
                    r is None && final(self).sel() == clamp_spec(s + 1, n) && final(self).offset()
                        == old(self).offset()
                } else if key.code == KeyCode::Enter {
                    *final(self) == *old(self) && if 0 <= s < n {
                        r matches Some(TuiCommand::OpenPopup(PopupKind::Detail { title, content, scroll }))
                            && title@ == "CHTC Adapter: "@ + adapters@[s].adapter_id@ && content@ == join(
                            chtc_detail_lines(adapters@[s]),
                            "\n"@,
                        ) && scroll == 0
                    } else {
                        r is None
                    }
                } else if key.code == KeyCode::Char('g') {
                    r is None && final(self).sel() == 0 && final(self).offset() == 0
                } else if key.code == KeyCode::Char('G') {
                    r is None && final(self).sel() == (if n == 0 { 0 } else { n - 1 })
                        && final(self).offset() == final(self).sel()
                } else {
                    r is None && *final(self) == *old(self)
                }
            }),
    {
        let count = adapters.len();
        match crate::panels::list_state::handle_key_navigation(key.code, self.selected, count) {
            Some(ns) => {
                self.selected = ns;
                return None;
            },
            None => {},
        }
        match key.code {
            KeyCode::Enter => {
                if self.selected < count {
                    let adapter = &adapters[self.selected];
                    let content = Self::detail_content(adapter);
                    let mut title = string_of("CHTC Adapter: ");
                    push_str(&mut title, adapter.adapter_id.as_str());
                    Some(TuiCommand::OpenPopup(PopupKind::Detail { title, content, scroll: 0 }))
                } else {
                    None
                }
            },
            KeyCode::Char('g') => {
                self.scroll_to_top();
                None
            },
            KeyCode::Char('G') => {
                self.scroll_to_bottom(count);
                None
            },
            _ => None,
        }
    }

    /// Jumps to the first row.
    pub fn scroll_to_top(&mut self)
        ensures
            final(self).sel() == 0,
            final(self).offset() == 0,
    {
        self.selected = 0;
        self.scroll_offset = 0;
    }

    /// Jumps to the last of `count` rows.
    pub fn scroll_to_bottom(&mut self, count: usize)
        ensures
            final(self).sel() == (if count == 0 { 0 } else { count - 1 }),
            final(self).offset() == final(self).sel(),
    {
        self.selected = if count == 0 { 0 } else { count - 1 };
        self.scroll_offset = self.selected;
    }

    /// The wheel moves the selection among `count` rows.
    pub fn handle_mouse(&mut self, kind: MouseEventKind, count: usize) -> (r: Option<TuiCommand>)
        ensures
            r is None,
            final(self).offset() == old(self).offset(),
            final(self).sel() == (if kind == MouseEventKind::ScrollUp {
                clamp_spec(old(self).sel() - 1, count as int)
            } else if kind == MouseEventKind::ScrollDown {
                clamp_spec(old(self).sel() + 1, count as int)
            } else {
                old(self).sel() as int
            }),
    {
        match crate::panels::list_state::handle_mouse_scroll(kind, self.selected, count) {
            Some(ns) => {
                self.selected = ns;
            },
            None => {},
        }
        None
    }

    /// The shortcuts this panel declares.
    pub fn shortcuts(&self) -> (r: Vec<(&'static str, &'static str)>)
        ensures
            r@.len() == 2,
            r@[0].0@ == "↑/↓"@ && r@[0].1@ == "导航"@,
            r@[1].0@ == "R"@ && r@[1].1@ == "刷新"@,
    {
        vec![("↑/↓", "导航"), ("R", "刷新")]
    }
}

} // verus!
