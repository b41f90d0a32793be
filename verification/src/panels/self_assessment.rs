//! Self-assessment panel: the latest self-assessment report and the newest
//! audit findings.
use vstd::prelude::*;
use crate::events::{EventKind, EventView};
use crate::input::KeyEvent;
use crate::panels::task_manager::positions;
use crate::text::{clone_lines, dec, push_line, push_str, push_u64, string_of, tone_views, LineTone, ToneLine};
use crate::types::{PanelId, TuiCommand};

verus! {

/// Most findings the panel lists.
pub const MAX_FINDINGS_SHOWN: usize = 5;

/// The position of the newest report among the first `n` events, if any.
pub open spec fn newest_report_upto(events: Seq<EventView>, n: int) -> Option<int>
    decreases n,
{
    if n <= 0 {
        None
    } else if events[n - 1].kind is HarnessReportGenerated {
        Some(n - 1)
    } else {
        newest_report_upto(events, n - 1)
    }
}

/// The newest report lies among the first `n` events.
proof fn lemma_newest_report_range(events: Seq<EventView>, n: int)
    ensures
        newest_report_upto(events, n) matches Some(j) ==> 0 <= j < n,
    decreases n,
{
    if n > 0 {
        lemma_newest_report_range(events, n - 1);
    }
}

/// Positions, newest first, of the audit findings among the first `n` events.
pub open spec fn findings_upto(events: Seq<EventView>, n: int) -> Seq<int>
    decreases n,
{
    if n <= 0 {
        Seq::empty()
    } else {
        let rest = findings_upto(events, n - 1);
        if events[n - 1].kind is AuditFindingRaised {
            seq![n - 1] + rest
        } else {
            rest
        }
    }
}

/// Tone of a finding: high severity is an alert, medium a warning, another
/// finding backed by runtime events is good.
pub open spec fn finding_tone(severity: Seq<char>, evidence: Seq<char>) -> LineTone {
    if severity == "high"@ {
        LineTone::Alert
    } else if severity == "medium"@ {
        LineTone::Warning
    } else if evidence == "runtime_events"@ {
        LineTone::Good
    } else {
        LineTone::Plain
    }
}

/// The line of a finding: `[severity] message`.
pub open spec fn finding_line(k: EventKind) -> (Seq<char>, LineTone) {
    match k {
        EventKind::AuditFindingRaised { finding_severity, message, evidence_kind } => (
            "["@ + finding_severity@ + "] "@ + message@,
            finding_tone(finding_severity@, evidence_kind@),
        ),
        _ => (Seq::empty(), LineTone::Plain),
    }
}

/// The findings section: an empty line, its heading and rule, then the newest
/// findings (at most [`MAX_FINDINGS_SHOWN`]) or a no-findings line.
pub open spec fn findings_section_spec(events: Seq<EventView>) -> Seq<(Seq<char>, LineTone)> {
    let order = findings_upto(events, events.len() as int);
    let shown = if order.len() > MAX_FINDINGS_SHOWN { MAX_FINDINGS_SHOWN as nat } else { order.len() };
    seq![
        (Seq::empty(), LineTone::Plain),
        ("Recent Findings"@, LineTone::Plain),
        ("──────────────────────────────────────"@, LineTone::Plain),
    ] + if order.len() == 0 {
        seq![("No findings yet."@, LineTone::Muted)]
    } else {
        Seq::new(shown, |i: int| finding_line(events[order[i]].kind))
    }
}

/// The panel text: the heading; for the newest report its dimension lines
/// `dims` (drawn by the caller) and its findings count, or a waiting line when
/// there is no report; then the findings section.
pub open spec fn self_assessment_lines(events: Seq<EventView>, dims: Seq<(Seq<char>, LineTone)>) -> Seq<
    (Seq<char>, LineTone),
> {
    seq![
        ("Harness Self Assessment (Qoder 5-Dim)"@, LineTone::Plain),
        ("──────────────────────────────────────"@, LineTone::Plain),
    ] + match newest_report_upto(events, events.len() as int) {
        Some(i) => dims + seq![
            (
                "Findings in report: "@ + dec(
                    match events[i].kind {
                        EventKind::HarnessReportGenerated { findings_count } => findings_count as nat,
                        _ => 0nat,
                    },
                ),
                LineTone::Plain,
            ),
        ],
        None => seq![("Awaiting first HarnessReportGenerated..."@, LineTone::Muted)],
    } + findings_section_spec(events)
}

/// Whether `a` equals the literal `lit`.
fn str_eq(a: &str, lit: &str) -> (r: bool)
    ensures
        r == (a@ == lit@),
{
    let x = string_of(a);
    let y = string_of(lit);
    x == y
}

/// SelfAssessmentPanel has no state of its own: it shows what the application hands it.
#[derive(Debug, Default, Clone, Copy, PartialEq, Eq)]
pub struct SelfAssessmentPanel;

impl SelfAssessmentPanel {
    /// A new panel.
    pub fn new() -> (r: Self)
        ensures
            r == SelfAssessmentPanel,
    {
        SelfAssessmentPanel
    }

    /// This panel's identity.
    pub fn id(&self) -> (r: PanelId)
        ensures
            r == PanelId::SelfAssessment,
    {
        PanelId::SelfAssessment
    }

    /// The position of the newest self-assessment report, if any.
    pub fn latest_report(events: &Vec<EventView>) -> (r: Option<usize>)
        ensures
            r matches Some(i) ==> newest_report_upto(events@, events@.len() as int) == Some(i as int),
            r is None ==> newest_report_upto(events@, events@.len() as int) is None,
            r matches Some(i) ==> i < events@.len(),
    {
        let mut k: usize = events.len();
        while k > 0
            invariant
                k <= events@.len(),
                newest_report_upto(events@, events@.len() as int) == newest_report_upto(events@, k as int),
            decreases k,
        {
            match &events[k - 1].kind {
                EventKind::HarnessReportGenerated { .. } => {
                    return Some(k - 1);
                },
                _ => {},
            }
            k = k - 1;
        }
        None
    }

    /// The line counting the findings of a report.
    pub fn report_findings_line(findings_count: u64) -> (r: String)
        ensures
            r@ == "Findings in report: "@ + dec(findings_count as nat),
    {
        let mut s = string_of("Findings in report: ");
        push_u64(&mut s, findings_count);
        s
    }

    /// The panel text, with `dims` the dimension lines of the newest report:
    /// see [`self_assessment_lines`].
    pub fn content(events: &Vec<EventView>, dims: &Vec<ToneLine>) -> (r: Vec<ToneLine>)
        ensures
            tone_views(r@) == self_assessment_lines(events@, tone_views(dims@)),
    {
        let mut lines: Vec<ToneLine> = Vec::new();
        push_line(&mut lines, string_of("Harness Self Assessment (Qoder 5-Dim)"), LineTone::Plain);
        push_line(&mut lines, string_of("──────────────────────────────────────"), LineTone::Plain);
        let ghost head = tone_views(lines@);
        let ghost part = match newest_report_upto(events@, events@.len() as int) {
            Some(i) => tone_views(dims@) + seq![
                (
                    "Findings in report: "@ + dec(
                        match events@[i].kind {
                            EventKind::HarnessReportGenerated { findings_count } => findings_count as nat,
                            _ => 0nat,
                        },
                    ),
                    LineTone::Plain,
                ),
            ],
            None => seq![("Awaiting first HarnessReportGenerated..."@, LineTone::Muted)],
        };
        proof {
            lemma_newest_report_range(events@, events@.len() as int);
        }
        match Self::latest_report(events) {
            Some(i) => {
                let mut d = clone_lines(dims);
                let ghost dv = tone_views(d@);
                let ghost before = lines@;
                lines.append(&mut d);
                proof {
                    assert(tone_views(lines@) =~= tone_views(before) + dv);
                }
                let count: u64 = match &events[i].kind {
                    EventKind::HarnessReportGenerated { findings_count } => *findings_count,
                    _ => 0,
                };
                push_line(&mut lines, Self::report_findings_line(count), LineTone::Plain);
                proof {
                    assert(count as nat == match events@[i as int].kind {
                        EventKind::HarnessReportGenerated { findings_count } => findings_count as nat,
                        _ => 0nat,
                    });
                    assert(tone_views(lines@) =~= head + dv + seq![
                        ("Findings in report: "@ + dec(count as nat), LineTone::Plain),
                    ]);
                    assert(newest_report_upto(events@, events@.len() as int) == Some(i as int));
                    assert(dv == tone_views(dims@));
                    assert(tone_views(lines@) =~= head + part);
                }
            },
            None => {
                push_line(&mut lines, string_of("Awaiting first HarnessReportGenerated..."), LineTone::Muted);
                proof {
                    assert(tone_views(lines@) =~= head + part);
                }
            },
        }
        let ghost mid = tone_views(lines@);
        proof {
            assert(mid =~= head + part);
        }
        let mut rest = Self::findings_section(events);
        let ghost rv = tone_views(rest@);
        let ghost before = lines@;
        lines.append(&mut rest);
        proof {
            assert(tone_views(lines@) =~= tone_views(before) + rv);
            assert(tone_views(lines@) =~= self_assessment_lines(events@, tone_views(dims@)));
        }
        lines
    }

    /// The findings section of the panel: see [`findings_section_spec`].
    pub fn findings_section(events: &Vec<EventView>) -> (r: Vec<ToneLine>)
        ensures
            tone_views(r@) == findings_section_spec(events@),
    {
        let ghost order = findings_upto(events@, events@.len() as int);
        let mut lines: Vec<ToneLine> = Vec::new();
        push_line(&mut lines, String::new(), LineTone::Plain);
        push_line(&mut lines, string_of("Recent Findings"), LineTone::Plain);
        push_line(&mut lines, string_of("──────────────────────────────────────"), LineTone::Plain);
        let ghost head = tone_views(lines@);
        let mut found: usize = 0;
        let mut k: usize = events.len();
        while k > 0 && found < MAX_FINDINGS_SHOWN
            invariant
                k <= events@.len(),
                found <= MAX_FINDINGS_SHOWN,
                order == findings_upto(events@, events@.len() as int),
                order == Seq::new(found as nat, |i: int| order[i]) + findings_upto(events@, k as int),
                tone_views(lines@) == head + Seq::new(found as nat, |i: int| finding_line(events@[order[i]].kind)),
            decreases k,
        {
            let ghost rest = findings_upto(events@, k - 1);
            match &events[k - 1].kind {
                EventKind::AuditFindingRaised { finding_severity, message, evidence_kind } => {
                    let mut s = string_of("[");
                    push_str(&mut s, finding_severity.as_str());
                    push_str(&mut s, "] ");
                    push_str(&mut s, message.as_str());
                    let tone = if str_eq(finding_severity.as_str(), "high") {
                        LineTone::Alert
                    } else if str_eq(finding_severity.as_str(), "medium") {
                        LineTone::Warning
                    } else if str_eq(evidence_kind.as_str(), "runtime_events") {
                        LineTone::Good
                    } else {
                        LineTone::Plain
                    };
                    proof {
                        assert(order[found as int] == k - 1);
                        assert(finding_line(events@[order[found as int]].kind) == (s@, tone));
                    }
                    push_line(&mut lines, s, tone);
                    proof {
                        assert(Seq::new((found + 1) as nat, |i: int| finding_line(events@[order[i]].kind))
                            =~= Seq::new(found as nat, |i: int| finding_line(events@[order[i]].kind)).push(
                            finding_line(events@[order[found as int]].kind),
                        ));
                        assert(order =~= Seq::new((found + 1) as nat, |i: int| order[i]) + rest);
                    }
                    found = found + 1;
                },
                _ => {},
            }
            k = k - 1;
        }
        proof {
            let shown = if order.len() > MAX_FINDINGS_SHOWN { MAX_FINDINGS_SHOWN as nat } else { order.len() };
            if found < MAX_FINDINGS_SHOWN {
                assert(k == 0);
                assert(findings_upto(events@, 0) =~= Seq::<int>::empty());
                assert(order.len() == found);
            } else {
                assert(order.len() >= found);
            }
            assert(shown == found);
        }
        if found == 0 {
            push_line(&mut lines, string_of("No findings yet."), LineTone::Muted);
        }
        proof {
            assert(tone_views(lines@) =~= findings_section_spec(events@));
        }
        lines
    }

    /// Display-only: every key is ignored.
    pub fn handle_key(&mut self, key: KeyEvent) -> (r: Option<TuiCommand>)
        ensures
            r is None,
    {
        None
    }
}

} // verus!
