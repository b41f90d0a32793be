//! Help panel: the global shortcut table, with the shortcuts of the panel it
//! was opened from.
use vstd::prelude::*;
use crate::input::KeyEvent;
use crate::text::{pad_right, push_left, push_str, string_of, views};
use crate::types::{PanelId, TuiCommand};

verus! {

/// Number of global shortcuts.
pub const GLOBAL_SHORTCUT_COUNT: usize = 18;

/// The keys of the global shortcuts, in display order.
pub open spec fn global_keys() -> Seq<Seq<char>> {
    seq![
        "Tab"@,
        "Shift+Tab"@,
        "1-8"@,
        ":"@,
        "/"@,
        "Enter"@,
        "Esc"@,
        "Ctrl+Up"@,
        "Ctrl+Down"@,
        "q / Esc"@,
        "?"@,
        "t"@,
        "l"@,
        "a"@,
        "g+1-6"@,
        "g g"@,
        "G"@,
        "F1-F8"@,
    ]
}

/// The keys of the global shortcuts, in display order.
pub fn global_shortcut_keys() -> (r: Vec<&'static str>)
    ensures
        r@.len() == GLOBAL_SHORTCUT_COUNT,
        forall|i: int| 0 <= i < r@.len() ==> (#[trigger] r@[i])@ == global_keys()[i],
{
    let r = vec![
        "Tab",
        "Shift+Tab",
        "1-8",
        ":",
        "/",
        "Enter",
        "Esc",
        "Ctrl+Up",
        "Ctrl+Down",
        "q / Esc",
        "?",
        "t",
        "l",
        "a",
        "g+1-6",
        "g g",
        "G",
        "F1-F8",
    ];
    r
}

/// Translated words of the help text.
#[derive(Debug, Clone, PartialEq, Eq)]
pub struct HelpLabels {
    pub header: String,
    pub section_global: String,
    pub section_panel: String,
    /// Descriptions of the global shortcuts, in the order of their keys.
    pub descriptions: Vec<String>,
}

/// A shortcut line: the key left-aligned in sixteen columns, a dash and the description.
pub open spec fn shortcut_line(key: Seq<char>, desc: Seq<char>) -> Seq<char> {
    "  "@ + pad_right(key, 16) + " - "@ + desc
}

/// The panel section of the help text: with a panel name and a non-empty
/// list, a blank line, the section heading with the name, a rule and the shortcuts.
pub open spec fn panel_section(context: Option<Seq<char>>, panel: Seq<(Seq<char>, Seq<char>)>, l: HelpLabels) -> Seq<
    Seq<char>,
> {
    match context {
        Some(name) => if panel.len() > 0 {
            seq![Seq::empty(), l.section_panel@ + " — "@ + name, "─────────────"@] + Seq::new(
                panel.len(),
                |i: int| shortcut_line(panel[i].0, panel[i].1),
            )
        } else {
            Seq::empty()
        },
        None => Seq::empty(),
    }
}

/// The help text up to the command summary.
pub open spec fn help_prefix(l: HelpLabels) -> Seq<Seq<char>> {
    seq![l.header@, "────────────────────────────────────────"@, Seq::empty(), l.section_global@, "─────────────"@]
        + Seq::new(
        GLOBAL_SHORTCUT_COUNT as nat,
        |i: int| shortcut_line(global_keys()[i], l.descriptions@[i]@),
    ) + seq![
        Seq::empty(),
        "Commands: find <k>, filter <topic>, level <severity>,"@,
        "          pause <quest>, resume <quest>,"@,
        "          vote <yes|no|abstain> <proposal>, refresh, quit"@,
    ]
}

/// The help text: header, the global shortcuts, the command summary; with a
/// panel name and a non-empty list, the panel's shortcuts; and the product name.
pub open spec fn help_content(
    context: Option<Seq<char>>,
    panel: Seq<(Seq<char>, Seq<char>)>,
    l: HelpLabels,
) -> Seq<Seq<char>> {
    help_prefix(l) + panel_section(context, panel, l) + seq![Seq::empty(), "Chimera CLI NEXUS-OMEGA"@]
}

/// The views of a list of shortcut pairs.
pub open spec fn pair_views(v: Seq<(&str, &str)>) -> Seq<(Seq<char>, Seq<char>)> {
    v.map_values(|p: (&str, &str)| (p.0@, p.1@))
}

/// A shortcut line.
fn shortcut_text(key: &str, desc: &str) -> (r: String)
    ensures
        r@ == shortcut_line(key@, desc@),
{
    let mut s = string_of("  ");
    push_left(&mut s, key, 16);
    push_str(&mut s, " - ");
    push_str(&mut s, desc);
    s
}

/// Help panel, optionally tied to the panel it describes.
#[derive(Debug, Default, Clone, Copy, PartialEq, Eq)]
pub struct HelpPanel {
    context_panel_id: Option<PanelId>,
}

impl HelpPanel {
    /// The panel it describes, if any.
    pub closed spec fn context_spec(&self) -> Option<PanelId> {
        self.context_panel_id
    }

    /// A help panel tied to no panel.
    pub fn new() -> (r: Self)
        ensures
            r.context_spec() is None,
    {
        HelpPanel { context_panel_id: None }
    }

    /// A help panel describing `panel_id`.
    pub fn with_context(panel_id: PanelId) -> (r: Self)
        ensures
            r.context_spec() == Some(panel_id),
    {
        HelpPanel { context_panel_id: Some(panel_id) }
    }

    /// The panel it describes, if any.
    pub fn context(&self) -> (r: Option<PanelId>)
        ensures
            r == self.context_spec(),
    {
        self.context_panel_id
    }

    /// The help text, with the shortcuts of the panel named `context`: see [`help_content`].
    pub fn content(context: Option<&str>, panel_shortcuts: &Vec<(&str, &str)>, labels: &HelpLabels) -> (r: Vec<
        String,
    >)
        requires
            labels.descriptions@.len() == GLOBAL_SHORTCUT_COUNT,
        ensures
            views(r@) == help_content(
                match context {
                    Some(c) => Some(c@),
                    None => None,
                },
                pair_views(panel_shortcuts@),
                *labels,
            ),
    {
        let mut lines: Vec<String> = Vec::new();
        lines.push(labels.header.clone());
        lines.push(string_of("────────────────────────────────────────"));
        lines.push(String::new());
        lines.push(labels.section_global.clone());
        lines.push(string_of("─────────────"));
        let ghost head = views(lines@);
        let keys = global_shortcut_keys();
        let ghost rows = Seq::new(
            GLOBAL_SHORTCUT_COUNT as nat,
            |i: int| shortcut_line(global_keys()[i], labels.descriptions@[i]@),
        );
        let mut i: usize = 0;
        while i < GLOBAL_SHORTCUT_COUNT
            invariant
                i <= GLOBAL_SHORTCUT_COUNT,
                keys@.len() == GLOBAL_SHORTCUT_COUNT,
                labels.descriptions@.len() == GLOBAL_SHORTCUT_COUNT,
                forall|k: int| 0 <= k < keys@.len() ==> (#[trigger] keys@[k])@ == global_keys()[k],
                rows == Seq::new(
                    GLOBAL_SHORTCUT_COUNT as nat,
                    |i: int| shortcut_line(global_keys()[i], labels.descriptions@[i]@),
                ),
                views(lines@) == head + rows.take(i as int),
            decreases GLOBAL_SHORTCUT_COUNT - i,
        {
            let l = shortcut_text(keys[i], labels.descriptions[i].as_str());
            let ghost before = lines@;
            lines.push(l);
            proof {
                assert(rows.take(i + 1) =~= rows.take(i as int).push(l@));
                assert(views(lines@) =~= views(before).push(l@));
            }
            i = i + 1;
        }
        proof {
            assert(rows.take(GLOBAL_SHORTCUT_COUNT as int) =~= rows);
        }
        let ghost g = lines@;
        let c0 = String::new();
        let c1 = string_of("Commands: find <k>, filter <topic>, level <severity>,");
        let c2 = string_of("          pause <quest>, resume <quest>,");
        let c3 = string_of("          vote <yes|no|abstain> <proposal>, refresh, quit");
        let ghost tail = seq![c0@, c1@, c2@, c3@];
        lines.push(c0);
        lines.push(c1);
        lines.push(c2);
        lines.push(c3);
        let ghost mid = views(lines@);
        proof {
            assert(lines@ =~= g + seq![c0, c1, c2, c3]);
            assert(views(g + seq![c0, c1, c2, c3]) =~= views(g) + tail);
            assert(views(g) =~= head + rows);
        }
        proof {
            assert(mid =~= help_prefix(*labels));
        }
        let ghost pv = pair_views(panel_shortcuts@);
        let ghost cv = match context {
            Some(c) => Some(c@),
            None => None,
        };
        match context {
            Some(name) => {
                if panel_shortcuts.len() > 0 {
                    lines.push(String::new());
                    let mut t = labels.section_panel.clone();
                    push_str(&mut t, " — ");
                    push_str(&mut t, name);
                    lines.push(t);
                    lines.push(string_of("─────────────"));
                    let ghost mid2 = views(lines@);
                    let ghost prow = Seq::new(pv.len(), |i: int| shortcut_line(pv[i].0, pv[i].1));
                    let mut k: usize = 0;
                    while k < panel_shortcuts.len()
                        invariant
                            k <= panel_shortcuts@.len(),
                            pv == pair_views(panel_shortcuts@),
                            prow == Seq::new(pv.len(), |i: int| shortcut_line(pv[i].0, pv[i].1)),
                            views(lines@) == mid2 + prow.take(k as int),
                        decreases panel_shortcuts@.len() - k,
                    {
                        let (key, desc) = panel_shortcuts[k];
                        let l = shortcut_text(key, desc);
                        let ghost before = lines@;
                        lines.push(l);
                        proof {
                            assert(prow.take(k + 1) =~= prow.take(k as int).push(l@));
                            assert(views(lines@) =~= views(before).push(l@));
                        }
                        k = k + 1;
                    }
                    proof {
                        assert(prow.take(pv.len() as int) =~= prow);
                        assert(views(lines@) =~= mid + panel_section(cv, pv, *labels));
                    }
                } else {
                    proof {
                        assert(views(lines@) =~= mid + panel_section(cv, pv, *labels));
                    }
                }
            },
            None => {
                proof {
                    assert(views(lines@) =~= mid + panel_section(cv, pv, *labels));
                }
            },
        }
        lines.push(String::new());
        lines.push(string_of("Chimera CLI NEXUS-OMEGA"));
        proof {
            assert(views(lines@) =~= help_content(
                match context {
                    Some(c) => Some(c@),
                    None => None,
                },
                pv,
                *labels,
            ));
        }
        lines
    }

    /// This panel's identity.
    pub fn id(&self) -> (r: PanelId)
        ensures
            r == PanelId::Help,
    {
        PanelId::Help
    }

    /// Every key is ignored.
    pub fn handle_key(&mut self, key: KeyEvent) -> (r: Option<TuiCommand>)
        ensures
            r is None,
            *final(self) == *old(self),
    {
        None
    }

    /// The one shortcut this panel declares: `?` shows the help.
    pub fn shortcuts(&self) -> (r: Vec<(&'static str, &'static str)>)
        ensures
            r@.len() == 1,
            r@[0].0@ == "?"@,
            r@[0].1@ == "显示帮助"@,
    {
        vec![("?", "显示帮助")]
    }
}

} // verus!
