//! Quests and their tasks as the panels read them, and the quest panel: the
//! quest list filtered by the global keyword, with multi-selection and quest
//! control commands.
use vstd::prelude::*;
use crate::input::{KeyCode, KeyEvent, MouseEventKind};
use crate::panels::list_state::{clamp_spec, PAGE_SIZE};
use crate::panels::task_manager::{batch_ids, positions, toggled_marks};
use crate::popup::PopupKind;
use crate::render::FOOTER_TEXT;
use crate::text::{
    chars_contain, chars_of, clone_lines, contains_seq, dec, join, lowercase, push_line, push_str, push_u64, string_of,
    to_lowercase, tone_views, views, LineTone, ToneLine,
};
use crate::types::{PanelId, TuiCommand};

verus! {

/// Status of one task of a quest.
#[derive(Debug, Clone, Copy, PartialEq, Eq, Structural)]
pub enum TaskStatus {
    Pending,
    Running,
    Completed,
    Failed,
    Cancelled,
    Paused,
}

/// One task of a quest.
#[derive(Debug, Clone, PartialEq, Eq)]
pub struct TaskView {
    pub task_id: String,
    pub description: String,
    pub status: TaskStatus,
    /// Ids of the tasks this one waits for.
    pub dependencies: Vec<String>,
}

/// What the panels read of a quest.
#[derive(Debug, Clone, PartialEq, Eq)]
pub struct QuestView {
    pub quest_id: String,
    pub title: String,
    /// Internal priority, 0-255.
    pub priority: u8,
    pub tasks: Vec<TaskView>,
    /// Name of the quest's thinking mode, as the detail popups show it.
    pub thinking_mode: String,
    pub checkpoint_id: Option<String>,
}

/// Translated words the quest panel puts into its popups.
#[derive(Debug, Clone, PartialEq, Eq)]
pub struct QuestLabels {
    /// Start of the batch pause prompt.
    pub batch_pause: String,
    /// Start of the batch cancel prompt.
    pub batch_cancel: String,
    /// The word for quests, after the count.
    pub quests: String,
    pub detail_title: String,
    pub detail_id: String,
    pub detail_mode: String,
    pub detail_checkpoint: String,
    pub detail_tasks: String,
    pub detail_task_list: String,
    /// Shown for a missing checkpoint.
    pub none: String,
}

/// Whether some task of `tasks` (among the first `n`) mentions `kw` in its
/// lower-cased description or id.
pub open spec fn any_task_mentions(tasks: Seq<TaskView>, kw: Seq<char>, n: int) -> bool
    decreases n,
{
    if n <= 0 {
        false
    } else {
        any_task_mentions(tasks, kw, n - 1) || contains_seq(lowercase(tasks[n - 1].description@), kw)
            || contains_seq(lowercase(tasks[n - 1].task_id@), kw)
    }
}

/// Whether a quest mentions the (already lower-cased) keyword `kw` in its
/// lower-cased title or in one of its tasks.
pub open spec fn quest_mentions(q: QuestView, kw: Seq<char>) -> bool {
    contains_seq(lowercase(q.title@), kw) || any_task_mentions(q.tasks@, kw, q.tasks@.len() as int)
}

/// Positions, in order, of the first `n` quests that pass the keyword filter;
/// every quest passes without a keyword.
pub open spec fn quest_listed_upto(quests: Seq<QuestView>, keyword: Option<Seq<char>>, n: int) -> Seq<int>
    decreases n,
{
    if n <= 0 {
        Seq::empty()
    } else {
        let r = quest_listed_upto(quests, keyword, n - 1);
        let pass = match keyword {
            Some(k) => quest_mentions(quests[n - 1], lowercase(lowercase(k))),
            None => true,
        };
        if pass {
            r.push(n - 1)
        } else {
            r
        }
    }
}

/// Positions of the quests the panel lists.
pub open spec fn quest_listed(quests: Seq<QuestView>, keyword: Option<Seq<char>>) -> Seq<int> {
    quest_listed_upto(quests, keyword, quests.len() as int)
}

/// Symbol of a task status in the detail popup.
pub open spec fn task_symbol(s: TaskStatus) -> Seq<char> {
    match s {
        TaskStatus::Completed => "✓"@,
        TaskStatus::Running => "●"@,
        TaskStatus::Pending => "○"@,
        TaskStatus::Failed => "✗"@,
        TaskStatus::Cancelled => "⊘"@,
        TaskStatus::Paused => "⏸"@,
    }
}

/// Lines of the detail popup of a quest.
pub open spec fn quest_panel_detail_lines(q: QuestView, l: QuestLabels) -> Seq<Seq<char>> {
    seq![
        l.detail_title@ + " "@ + q.title@,
        l.detail_id@ + " "@ + q.quest_id@,
        l.detail_mode@ + " "@ + q.thinking_mode@,
        l.detail_checkpoint@ + " "@ + match q.checkpoint_id {
            Some(c) => c@,
            None => l.none@,
        },
        l.detail_tasks@ + " "@ + dec(q.tasks@.len()),
    ] + if q.tasks@.len() == 0 {
        Seq::empty()
    } else {
        seq![Seq::empty(), l.detail_task_list@] + Seq::new(
            q.tasks@.len(),
            |i: int|
                "  - ["@ + task_symbol(q.tasks@[i].status) + "] "@ + q.tasks@[i].task_id@ + ": "@
                    + q.tasks@[i].description@,
        )
    }
}

/// The view of an optional keyword.
pub open spec fn keyword_view(k: Option<String>) -> Option<Seq<char>> {
    match k {
        Some(s) => Some(s@),
        None => None,
    }
}

/// Whether `hay`, lower-cased, contains `needle`.
fn lower_contains(hay: &String, needle: &Vec<char>) -> (r: bool)
    ensures
        r == contains_seq(lowercase(hay@), needle@),
{
    let l = to_lowercase(hay.as_str());
    chars_contain(&chars_of(l.as_str()), needle)
}

proof fn lemma_any_task_mono(tasks: Seq<TaskView>, kw: Seq<char>, n: int, m: int)
    requires
        0 <= n <= m,
        any_task_mentions(tasks, kw, n),
    ensures
        any_task_mentions(tasks, kw, m),
    decreases m - n,
{
    if m > n {
        lemma_any_task_mono(tasks, kw, n, m - 1);
    }
}

/// Whether the quest mentions `kw`.
fn quest_matches_keyword(q: &QuestView, kw: &Vec<char>) -> (r: bool)
    ensures
        r == quest_mentions(*q, kw@),
{
    if lower_contains(&q.title, kw) {
        return true;
    }
    let mut i: usize = 0;
    while i < q.tasks.len()
        invariant
            i <= q.tasks@.len(),
            !contains_seq(lowercase(q.title@), kw@),
            !any_task_mentions(q.tasks@, kw@, i as int),
        decreases q.tasks@.len() - i,
    {
        if lower_contains(&q.tasks[i].description, kw) || lower_contains(&q.tasks[i].task_id, kw) {
            proof {
                lemma_any_task_mono(q.tasks@, kw@, i + 1, q.tasks@.len() as int);
            }
            return true;
        }
        i = i + 1;
    }
    false
}

/// Positions of the listed quests.
fn listed_positions(quests: &Vec<QuestView>, keyword: &Option<String>) -> (r: Vec<usize>)
    ensures
        positions(r@) == quest_listed(quests@, keyword_view(*keyword)),
        forall|q: int| 0 <= q < r@.len() ==> (#[trigger] r@[q]) < quests@.len(),
{
    let needle: Vec<char> = match keyword {
        Some(k) => {
            let once = to_lowercase(k.as_str());
            let twice = to_lowercase(once.as_str());
            chars_of(twice.as_str())
        },
        None => Vec::new(),
    };
    let mut r: Vec<usize> = Vec::new();
    let mut i: usize = 0;
    while i < quests.len()
        invariant
            i <= quests@.len(),
            keyword_view(*keyword) matches Some(k) ==> needle@ == lowercase(lowercase(k)),
            positions(r@) == quest_listed_upto(quests@, keyword_view(*keyword), i as int),
            forall|q: int| 0 <= q < r@.len() ==> (#[trigger] r@[q]) < quests@.len(),
        decreases quests@.len() - i,
    {
        let pass = match keyword {
            Some(_) => quest_matches_keyword(&quests[i], &needle),
            None => true,
        };
        if pass {
            r.push(i);
            proof {
                assert(positions(r@) =~= positions(r@.drop_last()).push(i as int));
            }
        }
        i = i + 1;
    }
    r
}

/// Translated words of the quest list.
#[derive(Debug, Clone, PartialEq, Eq)]
pub struct QuestContentLabels {
    pub body_title: String,
    /// Shown when no quest is listed.
    pub no_active: String,
    pub mode: String,
    pub priority: String,
    /// Shown for a quest without tasks.
    pub no_tasks: String,
    pub tasks_label: String,
    pub total: String,
    pub done: String,
    pub running: String,
    pub pending: String,
}

/// The number of tasks among the first `n` with status `st`.
pub open spec fn count_status(tasks: Seq<TaskView>, st: TaskStatus, n: int) -> nat
    decreases n,
{
    if n <= 0 {
        0
    } else {
        count_status(tasks, st, n - 1) + if tasks[n - 1].status == st {
            1nat
        } else {
            0nat
        }
    }
}

/// The number of tasks with status `st`.
pub open spec fn tasks_with(tasks: Seq<TaskView>, st: TaskStatus) -> nat {
    count_status(tasks, st, tasks.len() as int)
}

/// The three or four lines of a listed quest at row `idx`: title line (marks,
/// number, title and progress text `gauge`), id/mode/priority line, task counts
/// line, and an empty separator line unless it is the last row.
pub open spec fn quest_block(
    q: QuestView,
    idx: int,
    is_cursor: bool,
    is_checked: bool,
    gauge: Seq<char>,
    l: QuestContentLabels,
    last: bool,
) -> Seq<(Seq<char>, LineTone)> {
    let prefix = if is_cursor && is_checked {
        "●>"@
    } else if is_cursor {
        "> "@
    } else if is_checked {
        "● "@
    } else {
        "  "@
    };
    let tone = if is_checked {
        LineTone::Warning
    } else if is_cursor {
        LineTone::Highlight
    } else {
        LineTone::Plain
    };
    let title = (prefix + "["@ + dec((idx + 1) as nat) + "] "@ + q.title@ + gauge, tone);
    let meta = (
        "    ID: "@ + q.quest_id@ + " | "@ + l.mode@ + ": "@ + q.thinking_mode@ + " | "@ + l.priority@ + ": "@ + dec(
            q.priority as nat,
        ),
        LineTone::Muted,
    );
    let summary = if q.tasks@.len() == 0 {
        (l.no_tasks@, LineTone::Muted)
    } else {
        (
            l.tasks_label@ + " "@ + dec(q.tasks@.len()) + " "@ + l.total@ + ", "@ + dec(
                tasks_with(q.tasks@, TaskStatus::Completed),
            ) + " "@ + l.done@ + ", "@ + dec(tasks_with(q.tasks@, TaskStatus::Running)) + " "@ + l.running@
                + ", "@ + dec(tasks_with(q.tasks@, TaskStatus::Pending)) + " "@ + l.pending@,
            LineTone::Plain,
        )
    };
    seq![title, meta, summary] + if last {
        Seq::empty()
    } else {
        seq![(Seq::<char>::empty(), LineTone::Plain)]
    }
}

/// The blocks of the first `n` listed quests.
pub open spec fn quest_blocks(
    quests: Seq<QuestView>,
    fl: Seq<int>,
    cursor: int,
    marks: Seq<usize>,
    gauges: Seq<String>,
    l: QuestContentLabels,
    n: int,
) -> Seq<(Seq<char>, LineTone)>
    decreases n,
{
    if n <= 0 {
        Seq::empty()
    } else {
        quest_blocks(quests, fl, cursor, marks, gauges, l, n - 1) + quest_block(
            quests[fl[n - 1]],
            n - 1,
            n - 1 == cursor,
            marks.contains((n - 1) as usize),
            gauges[fl[n - 1]]@,
            l,
            n >= fl.len(),
        )
    }
}

/// The quest list text: title and rule, the blocks of the listed quests (or
/// the no-quest line), an empty line and the footer. `gauges` holds the
/// progress text of each quest.
pub open spec fn quest_content(
    quests: Seq<QuestView>,
    keyword: Option<Seq<char>>,
    cursor: int,
    marks: Seq<usize>,
    gauges: Seq<String>,
    l: QuestContentLabels,
) -> Seq<(Seq<char>, LineTone)> {
    let fl = quest_listed(quests, keyword);
    seq![(l.body_title@, LineTone::Plain), ("─────────────"@, LineTone::Plain)] + (if fl.len() == 0 {
        seq![(l.no_active@, LineTone::Plain)]
    } else {
        quest_blocks(quests, fl, cursor, marks, gauges, l, fl.len() as int)
    }) + seq![(Seq::empty(), LineTone::Plain), (FOOTER_TEXT@, LineTone::Plain)]
}

/// The panel title ` base `, with ` [keyword:..] ` when a keyword is set.
pub open spec fn quest_title_spec(keyword: Option<Seq<char>>, base: Seq<char>) -> Seq<char> {
    match keyword {
        Some(k) => " "@ + base + " [keyword:"@ + k + "] "@,
        None => " "@ + base + " "@,
    }
}

/// The panel title with the keyword filter shown.
pub fn build_filter_title(keyword: &Option<String>, base: &str) -> (r: String)
    ensures
        r@ == quest_title_spec(keyword_view(*keyword), base@),
{
    let mut t = string_of(" ");
    push_str(&mut t, base);
    match keyword {
        Some(k) => {
            push_str(&mut t, " [keyword:");
            push_str(&mut t, k.as_str());
            push_str(&mut t, "] ");
        },
        None => push_str(&mut t, " "),
    }
    t
}

/// The number of tasks with status `st`.
fn count_tasks(tasks: &Vec<TaskView>, st: TaskStatus) -> (r: u64)
    ensures
        r == tasks_with(tasks@, st),
{
    let mut c: u64 = 0;
    let mut i: usize = 0;
    while i < tasks.len()
        invariant
            i <= tasks@.len(),
            c == count_status(tasks@, st, i as int),
            c <= i,
        decreases tasks@.len() - i,
    {
        if tasks[i].status == st {
            c = c + 1;
        }
        i = i + 1;
    }
    c
}

/// Whether `v` holds `x`.
fn holds(v: &Vec<usize>, x: usize) -> (r: bool)
    ensures
        r == v@.contains(x),
{
    let mut i: usize = 0;
    while i < v.len()
        invariant
            i <= v@.len(),
            forall|j: int| 0 <= j < i ==> v@[j] != x,
        decreases v@.len() - i,
    {
        if v[i] == x {
            assert(v@[i as int] == x);
            return true;
        }
        i = i + 1;
    }
    false
}

/// The lines of one listed quest.
fn quest_block_lines(
    q: &QuestView,
    idx: usize,
    is_cursor: bool,
    is_checked: bool,
    gauge: &String,
    l: &QuestContentLabels,
    last: bool,
    lines: &mut Vec<ToneLine>,
)
    requires
        idx < usize::MAX,
    ensures
        tone_views(final(lines)@) == tone_views(old(lines)@) + quest_block(
            *q,
            idx as int,
            is_cursor,
            is_checked,
            gauge@,
            *l,
            last,
        ),
{
    let ghost start = tone_views(lines@);
    let mut title = if is_cursor && is_checked {
        string_of("●>")
    } else if is_cursor {
        string_of("> ")
    } else if is_checked {
        string_of("● ")
    } else {
        string_of("  ")
    };
    push_str(&mut title, "[");
    push_u64(&mut title, idx as u64 + 1);
    push_str(&mut title, "] ");
    push_str(&mut title, q.title.as_str());
    push_str(&mut title, gauge.as_str());
    let tone = if is_checked {
        LineTone::Warning
    } else if is_cursor {
        LineTone::Highlight
    } else {
        LineTone::Plain
    };
    push_line(lines, title, tone);
    let mut meta = string_of("    ID: ");
    push_str(&mut meta, q.quest_id.as_str());
    push_str(&mut meta, " | ");
    push_str(&mut meta, l.mode.as_str());
    push_str(&mut meta, ": ");
    push_str(&mut meta, q.thinking_mode.as_str());
    push_str(&mut meta, " | ");
    push_str(&mut meta, l.priority.as_str());
    push_str(&mut meta, ": ");
    push_u64(&mut meta, q.priority as u64);
    push_line(lines, meta, LineTone::Muted);
    if q.tasks.len() == 0 {
        push_line(lines, l.no_tasks.clone(), LineTone::Muted);
    } else {
        let mut s = l.tasks_label.clone();
        push_str(&mut s, " ");
        push_u64(&mut s, q.tasks.len() as u64);
        push_str(&mut s, " ");
        push_str(&mut s, l.total.as_str());
        push_str(&mut s, ", ");
        push_u64(&mut s, count_tasks(&q.tasks, TaskStatus::Completed));
        push_str(&mut s, " ");
        push_str(&mut s, l.done.as_str());
        push_str(&mut s, ", ");
        push_u64(&mut s, count_tasks(&q.tasks, TaskStatus::Running));
        push_str(&mut s, " ");
        push_str(&mut s, l.running.as_str());
        push_str(&mut s, ", ");
        push_u64(&mut s, count_tasks(&q.tasks, TaskStatus::Pending));
        push_str(&mut s, " ");
        push_str(&mut s, l.pending.as_str());
        push_line(lines, s, LineTone::Plain);
    }
    if !last {
        push_line(lines, String::new(), LineTone::Plain);
    }
    proof {
        assert(tone_views(lines@) =~= start + quest_block(
            *q,
            idx as int,
            is_cursor,
            is_checked,
            gauge@,
            *l,
            last,
        ));
    }
}

/// The key of the cached quest text: snapshot revision, keyword, cursor,
/// marked rows (ascending) and locale.
#[derive(Debug, Clone, PartialEq, Eq)]
pub struct QuestRenderKey {
    pub revision: u64,
    pub keyword: Option<String>,
    pub selected: usize,
    pub selected_indices: Vec<usize>,
    pub locale: u8,
}

/// The value of a render key.
pub open spec fn key_view(k: QuestRenderKey) -> (u64, Option<Seq<char>>, usize, Seq<usize>, u8) {
    (k.revision, keyword_view(k.keyword), k.selected, k.selected_indices@, k.locale)
}

/// The value of an optional render key.
pub open spec fn opt_key_view(k: Option<QuestRenderKey>) -> Option<(u64, Option<Seq<char>>, usize, Seq<usize>, u8)> {
    match k {
        Some(k) => Some(key_view(k)),
        None => None,
    }
}

/// A copy of an optional keyword.
fn copy_keyword(k: &Option<String>) -> (r: Option<String>)
    ensures
        keyword_view(r) == keyword_view(*k),
{
    match k {
        Some(s) => Some(s.clone()),
        None => None,
    }
}

/// A copy of a render key.
fn copy_key(k: &QuestRenderKey) -> (r: QuestRenderKey)
    ensures
        key_view(r) == key_view(*k),
{
    let v = k.selected_indices.clone();
    proof {
        assert(v@ =~= k.selected_indices@);
    }
    QuestRenderKey {
        revision: k.revision,
        keyword: copy_keyword(&k.keyword),
        selected: k.selected,
        selected_indices: v,
        locale: k.locale,
    }
}

/// Whether two render keys have the same value.
fn same_key(a: &QuestRenderKey, b: &QuestRenderKey) -> (r: bool)
    ensures
        r == (key_view(*a) == key_view(*b)),
{
    if a.revision != b.revision || a.selected != b.selected || a.locale != b.locale {
        return false;
    }
    let kw_same = match (&a.keyword, &b.keyword) {
        (Some(x), Some(y)) => *x == *y,
        (None, None) => true,
        _ => false,
    };
    if !kw_same {
        return false;
    }
    let n = a.selected_indices.len();
    if n != b.selected_indices.len() {
        return false;
    }
    let mut i: usize = 0;
    while i < n
        invariant
            i <= n,
            n == a.selected_indices@.len(),
            n == b.selected_indices@.len(),
            forall|j: int| 0 <= j < i ==> a.selected_indices@[j] == b.selected_indices@[j],
        decreases n - i,
    {
        if a.selected_indices[i] != b.selected_indices[i] {
            return false;
        }
        i = i + 1;
    }
    proof {
        assert(a.selected_indices@ =~= b.selected_indices@);
    }
    true
}

/// What drawing a frame does: from `pre` to `post`, answering the text `r`;
/// see [`QuestPanel::render`].
pub open spec fn quest_render_effect(
    pre: QuestPanel,
    post: QuestPanel,
    r: Seq<(Seq<char>, LineTone)>,
    quests: Seq<QuestView>,
    kw: Option<Seq<char>>,
    gauges: Seq<String>,
    labels: QuestContentLabels,
    revision: u64,
    locale: u8,
    inner_height: usize,
) -> bool {
    let content_height = if inner_height >= 3 { inner_height - 3 } else { 0 };
    let probe = (revision, kw, pre.sel(), pre.marks(), locale);
    let hit = revision != 0 && pre.cache_key() == Some(probe);
    let count = if hit {
        pre.cached_count() as int
    } else {
        quest_listed(quests, kw).len() as int
    };
    let sel = clamp_spec(pre.sel() as int, count);
    &&& post.sel() == sel
    &&& post.offset() == crate::panels::list_state::adjust_scroll_spec(
        sel,
        pre.offset() as int,
        content_height as int,
    )
    &&& post.marks() == pre.marks()
    &&& if hit {
        &&& r == pre.cached_text()
        &&& post.cache_key() == pre.cache_key()
        &&& post.cached_text() == pre.cached_text()
        &&& post.cached_count() == pre.cached_count()
    } else {
        &&& r == quest_content(quests, kw, sel, pre.marks(), gauges, labels)
        &&& post.cached_text() == r
        &&& post.cached_count() == count
        &&& post.cache_key() == (if revision != 0 {
            Some((revision, kw, sel as usize, pre.marks(), locale))
        } else {
            None
        })
    }
}

/// Once a snapshot has been taken, a second frame drawn with the same quests,
/// keyword, progress texts, words, revision, locale and height is served from
/// the cache: it shows the text of the first frame and leaves the panel as the
/// first frame left it. This holds whenever the cache the first frame starts
/// from has its cursor within its quest count, as every frame leaves it.
pub proof fn lemma_quest_render_repeat(
    p0: QuestPanel,
    p1: QuestPanel,
    p2: QuestPanel,
    r1: Seq<(Seq<char>, LineTone)>,
    r2: Seq<(Seq<char>, LineTone)>,
    quests: Seq<QuestView>,
    kw: Option<Seq<char>>,
    gauges: Seq<String>,
    labels: QuestContentLabels,
    revision: u64,
    locale: u8,
    inner_height: usize,
)
    requires
        revision != 0,
        p0.cache_key() matches Some(k) ==> clamp_spec(k.2 as int, p0.cached_count() as int) == k.2,
        quest_render_effect(p0, p1, r1, quests, kw, gauges, labels, revision, locale, inner_height),
        quest_render_effect(p1, p2, r2, quests, kw, gauges, labels, revision, locale, inner_height),
    ensures
        p1.cache_key() matches Some(k) ==> clamp_spec(k.2 as int, p1.cached_count() as int) == k.2,
        r2 == r1,
        p2.sel() == p1.sel(),
        p2.offset() == p1.offset(),
        p2.marks() == p1.marks(),
        p2.cache_key() == p1.cache_key(),
        p2.cached_text() == p1.cached_text(),
        p2.cached_count() == p1.cached_count(),
{
}

/// Marked rows are kept ascending, so they are determined by the set of
/// marked rows alone: two ascending mark lists holding the same rows are equal.
/// The render key therefore does not depend on the order in which rows were marked.
pub proof fn lemma_ascending_marks_unique(a: Seq<usize>, b: Seq<usize>)
    requires
        crate::panels::task_manager::strictly_increasing(a),
        crate::panels::task_manager::strictly_increasing(b),
        forall|x: usize| a.contains(x) == b.contains(x),
    ensures
        a == b,
    decreases a.len(),
{
    if a.len() == 0 {
        if b.len() > 0 {
            assert(b.contains(b[0]));
        }
        assert(b =~= a);
    } else {
        assert(a.contains(a[0]));
        if b.len() == 0 {
            assert(false);
        }
        assert(b.contains(b[0]));
        let j = choose|j: int| 0 <= j < b.len() && b[j] == a[0];
        let i = choose|i: int| 0 <= i < a.len() && a[i] == b[0];
        if j > 0 {
            assert(b[0] < b[j]);
            if i > 0 {
                assert(a[0] < a[i]);
            }
            assert(false);
        }
        assert(a[0] == b[0]);
        let a1 = a.drop_first();
        let b1 = b.drop_first();
        assert forall|x: usize| a1.contains(x) == b1.contains(x) by {
            if a1.contains(x) {
                let p = choose|p: int| 0 <= p < a1.len() && a1[p] == x;
                assert(a[p + 1] == x);
                assert(a.contains(x));
                assert(a[0] < a[p + 1]);
                let q = choose|q: int| 0 <= q < b.len() && b[q] == x;
                if q == 0 {
                    assert(false);
                }
                assert(b1[q - 1] == x);
            }
            if b1.contains(x) {
                let p = choose|p: int| 0 <= p < b1.len() && b1[p] == x;
                assert(b[p + 1] == x);
                assert(b.contains(x));
                assert(b[0] < b[p + 1]);
                let q = choose|q: int| 0 <= q < a.len() && a[q] == x;
                if q == 0 {
                    assert(false);
                }
                assert(a1[q - 1] == x);
            }
        }
        assert(crate::panels::task_manager::strictly_increasing(a1)) by {
            assert forall|u: int, v: int| 0 <= u < v < a1.len() implies (#[trigger] a1[u]) < (#[trigger] a1[v]) by {
                assert(a1[u] == a[u + 1] && a1[v] == a[v + 1]);
            }
        }
        assert(crate::panels::task_manager::strictly_increasing(b1)) by {
            assert forall|u: int, v: int| 0 <= u < v < b1.len() implies (#[trigger] b1[u]) < (#[trigger] b1[v]) by {
                assert(b1[u] == b[u + 1] && b1[v] == b[v + 1]);
            }
        }
        lemma_ascending_marks_unique(a1, b1);
        assert(a =~= seq![a[0]] + a1);
        assert(b =~= seq![b[0]] + b1);
    }
}

/// Quest panel state: cursor, scroll offset, marked rows, and the cached
/// text with the key and quest count it was built for.
#[derive(Debug)]
pub struct QuestPanel {
    selected: usize,
    scroll_offset: usize,
    /// Marked rows, strictly increasing.
    selected_indices: Vec<usize>,
    cached_key: Option<QuestRenderKey>,
    cached_lines: Vec<ToneLine>,
    cached_count: usize,
}

impl QuestPanel {
    /// Marked rows are kept strictly increasing.
    #[verifier::type_invariant]
    spec fn marks_sorted(self) -> bool {
        crate::panels::task_manager::strictly_increasing(self.selected_indices@)
    }

    /// The cursor row.
    pub closed spec fn sel(self) -> usize {
        self.selected
    }

    /// The scroll offset.
    pub closed spec fn offset(self) -> usize {
        self.scroll_offset
    }

    /// The marked rows, ascending.
    pub closed spec fn marks(self) -> Seq<usize> {
        self.selected_indices@
    }

    /// The value of the key of the cached text, if any.
    pub closed spec fn cache_key(self) -> Option<(u64, Option<Seq<char>>, usize, Seq<usize>, u8)> {
        opt_key_view(self.cached_key)
    }

    /// The cached text.
    pub closed spec fn cached_text(self) -> Seq<(Seq<char>, LineTone)> {
        tone_views(self.cached_lines@)
    }

    /// The quest count the cached text was built for.
    pub closed spec fn cached_count(self) -> usize {
        self.cached_count
    }

    /// A panel at the first row with nothing marked.
    pub fn new() -> (r: Self)
        ensures
            r.sel() == 0,
            r.offset() == 0,
            r.marks().len() == 0,
            r.cache_key() is None,
            r.cached_text().len() == 0,
            r.cached_count() == 0,
    {
        let marks: Vec<usize> = Vec::new();
        proof {
            assert(crate::panels::task_manager::strictly_increasing(marks@));
        }
        QuestPanel {
            selected: 0,
            scroll_offset: 0,
            selected_indices: marks,
            cached_key: None,
            cached_lines: Vec::new(),
            cached_count: 0,
        }
    }

    /// This panel's identity.
    pub fn id(&self) -> (r: PanelId)
        ensures
            r == PanelId::Quest,
    {
        PanelId::Quest
    }

    /// The cursor row.
    pub fn selected(&self) -> (r: usize)
        ensures
            r == self.sel(),
    {
        self.selected
    }

    /// The scroll offset.
    pub fn scroll_offset(&self) -> (r: usize)
        ensures
            r == self.offset(),
    {
        self.scroll_offset
    }

    /// The marked rows, ascending.
    pub fn selected_indices(&self) -> (r: Vec<usize>)
        ensures
            r@ == self.marks(),
            crate::panels::task_manager::strictly_increasing(r@),
    {
        proof {
            use_type_invariant(self);
        }
        let r = self.selected_indices.clone();
        proof {
            assert(r@ =~= self.selected_indices@);
        }
        r
    }

    /// The quests the panel lists: those mentioning the keyword (case-insensitively,
    /// in the title or in a task's description or id), every quest without a keyword.
    pub fn filtered_quests<'a>(quests: &'a Vec<QuestView>, keyword: &Option<String>) -> (r: Vec<&'a QuestView>)
        ensures
            r@.len() == quest_listed(quests@, keyword_view(*keyword)).len(),
            forall|t: int|
                0 <= t < r@.len() ==> *(#[trigger] r@[t]) == quests@[quest_listed(
                    quests@,
                    keyword_view(*keyword),
                )[t]],
    {
        let order = listed_positions(quests, keyword);
        let mut r: Vec<&'a QuestView> = Vec::new();
        let mut t: usize = 0;
        while t < order.len()
            invariant
                t <= order@.len(),
                forall|q: int| 0 <= q < order@.len() ==> (#[trigger] order@[q]) < quests@.len(),
                positions(order@) == quest_listed(quests@, keyword_view(*keyword)),
                r@.len() == t,
                forall|u: int|
                    0 <= u < t ==> *(#[trigger] r@[u]) == quests@[quest_listed(
                        quests@,
                        keyword_view(*keyword),
                    )[u]],
            decreases order@.len() - t,
        {
            proof {
                assert(positions(order@)[t as int] == order@[t as int] as int);
            }
            r.push(&quests[order[t]]);
            t = t + 1;
        }
        r
    }

    /// The detail popup text of a quest, lines joined by newlines.
    pub fn detail_content(quest: &QuestView, labels: &QuestLabels) -> (r: String)
        ensures
            r@ == join(quest_panel_detail_lines(*quest, *labels), "\n"@),
    {
        let mut lines: Vec<String> = Vec::new();
        let mut l0 = labels.detail_title.clone();
        push_str(&mut l0, " ");
        push_str(&mut l0, quest.title.as_str());
        lines.push(l0);
        let mut l1 = labels.detail_id.clone();
        push_str(&mut l1, " ");
        push_str(&mut l1, quest.quest_id.as_str());
        lines.push(l1);
        let mut l2 = labels.detail_mode.clone();
        push_str(&mut l2, " ");
        push_str(&mut l2, quest.thinking_mode.as_str());
        lines.push(l2);
        let mut l3 = labels.detail_checkpoint.clone();
        push_str(&mut l3, " ");
        match &quest.checkpoint_id {
            Some(c) => push_str(&mut l3, c.as_str()),
            None => push_str(&mut l3, labels.none.as_str()),
        }
        lines.push(l3);
        let mut l4 = labels.detail_tasks.clone();
        push_str(&mut l4, " ");
        push_u64(&mut l4, quest.tasks.len() as u64);
        lines.push(l4);
        let ghost head = views(lines@);
        if quest.tasks.len() > 0 {
            lines.push(String::new());
            lines.push(labels.detail_task_list.clone());
            let ghost head2 = views(lines@);
            let ghost rows = Seq::new(
                quest.tasks@.len(),
                |i: int|
                    "  - ["@ + task_symbol(quest.tasks@[i].status) + "] "@ + quest.tasks@[i].task_id@
                        + ": "@ + quest.tasks@[i].description@,
            );
            let mut k: usize = 0;
            while k < quest.tasks.len()
                invariant
                    k <= quest.tasks@.len(),
                    rows.len() == quest.tasks@.len(),
                    rows == Seq::new(
                        quest.tasks@.len(),
                        |i: int|
                            "  - ["@ + task_symbol(quest.tasks@[i].status) + "] "@ + quest.tasks@[i].task_id@
                                + ": "@ + quest.tasks@[i].description@,
                    ),
                    views(lines@) == head2 + rows.take(k as int),
                decreases quest.tasks@.len() - k,
            {
                let t = &quest.tasks[k];
                let mut line = string_of("  - [");
                push_str(
                    &mut line,
                    match t.status {
                        TaskStatus::Completed => "✓",
                        TaskStatus::Running => "●",
                        TaskStatus::Pending => "○",
                        TaskStatus::Failed => "✗",
                        TaskStatus::Cancelled => "⊘",
                        TaskStatus::Paused => "⏸",
                    },
                );
                push_str(&mut line, "] ");
                push_str(&mut line, t.task_id.as_str());
                push_str(&mut line, ": ");
                push_str(&mut line, t.description.as_str());
                let ghost before = lines@;
                lines.push(line);
                proof {
                    assert(rows[k as int] == line@);
                    assert(rows.take(k + 1) =~= rows.take(k as int).push(line@));
                    assert(views(lines@) =~= views(before).push(line@));
                }
                k = k + 1;
            }
            proof {
                assert(rows.take(rows.len() as int) =~= rows);
            }
        }
        proof {
            assert(views(lines@) =~= quest_panel_detail_lines(*quest, *labels));
        }
        crate::text::join_strings(&lines, "\n")
    }
}

/// With the marked quests that exist, a confirmation popup titled
/// `start N quests_word` for them; nothing when none of the marked rows exists.
pub open spec fn quest_batch_cmd(
    r: Option<TuiCommand>,
    quests: Seq<QuestView>,
    fl: Seq<int>,
    marks: Seq<usize>,
    verb: Seq<char>,
    start: Seq<char>,
    quests_word: Seq<char>,
) -> bool {
    let ids = batch_ids(quests, fl, marks);
    let joined = join(ids, ","@);
    if ids.len() == 0 {
        r is None
    } else {
        r matches Some(TuiCommand::OpenPopup(PopupKind::Confirm { prompt, on_confirm, confirmed }))
            && prompt@ == start + " "@ + dec(ids.len()) + " "@ + quests_word + " "@ + joined + "?"@
            && on_confirm@ == "batch_"@ + verb + ":"@ + joined && confirmed
    }
}

impl QuestPanel {
    /// What a key does, from `pre` to `post` answering `r`, over the quest list
    /// `quests` filtered by `keyword`.
    pub open spec fn key_effect(
        pre: Self,
        post: Self,
        quests: Seq<QuestView>,
        keyword: Option<Seq<char>>,
        labels: QuestLabels,
        key: KeyEvent,
        r: Option<TuiCommand>,
    ) -> bool {
        let fl = quest_listed(quests, keyword);
        let n = fl.len() as int;
        let s = pre.sel() as int;
        let c = key.code;
        let moved = c == KeyCode::Up || c == KeyCode::Down || c == KeyCode::PageUp || c
            == KeyCode::PageDown;
        let jump = c == KeyCode::Char('g') || c == KeyCode::Char('G');
        &&& post.sel() == (if c == KeyCode::Up {
            clamp_spec(s - 1, n)
        } else if c == KeyCode::Down {
            clamp_spec(s + 1, n)
        } else if c == KeyCode::PageUp {
            clamp_spec(s - PAGE_SIZE, n)
        } else if c == KeyCode::PageDown {
            clamp_spec(s + PAGE_SIZE, n)
        } else if c == KeyCode::Char('g') {
            0
        } else if c == KeyCode::Char('G') {
            if n == 0 { 0 } else { n - 1 }
        } else {
            s
        })
        &&& post.offset() == (if c == KeyCode::Char('g') {
            0
        } else if c == KeyCode::Char('G') {
            post.sel() as int
        } else {
            pre.offset() as int
        })
        &&& if c == KeyCode::Char(' ') && n > 0 {
            forall|x: usize| #[trigger] post.marks().contains(x) == toggled_marks(
                pre.marks().to_set(),
                clamp_spec(s, n) as usize,
            ).contains(x)
        } else if c == KeyCode::Char('a') && key.ctrl {
            forall|x: usize| #[trigger] post.marks().contains(x) == (x < n || pre.marks().contains(x))
        } else if c == KeyCode::Char('d') && key.ctrl {
            post.marks().len() == 0
        } else {
            post.marks() == pre.marks()
        }
        &&& if moved || jump || c == KeyCode::Char(' ') || (key.ctrl && (c == KeyCode::Char('a') || c
            == KeyCode::Char('d'))) {
            r is None
        } else if c == KeyCode::Char('p') {
            if pre.marks().len() > 0 {
                quest_batch_cmd(r, quests, fl, pre.marks(), "pause"@, labels.batch_pause@, labels.quests@)
            } else if 0 <= s < n {
                r matches Some(TuiCommand::RequestQuestPause(id)) && id@ == quests[fl[s]].quest_id@
            } else {
                r is None
            }
        } else if c == KeyCode::Char('c') {
            if pre.marks().len() > 0 {
                quest_batch_cmd(r, quests, fl, pre.marks(), "cancel"@, labels.batch_cancel@, labels.quests@)
            } else {
                r is None
            }
        } else if c == KeyCode::Enter {
            if 0 <= s < n {
                r matches Some(TuiCommand::JumpToEventStream { quest_id }) && quest_id@ == quests[fl[s]].quest_id@
            } else {
                r is None
            }
        } else if c == KeyCode::Char('v') {
            if 0 <= s < n {
                r matches Some(TuiCommand::OpenPopup(PopupKind::Detail { title, content, scroll }))
                    && title@ == quests[fl[s]].title@ && content@ == join(
                    quest_panel_detail_lines(quests[fl[s]], labels),
                    "\n"@,
                ) && scroll == 0
            } else {
                r is None
            }
        } else if c == KeyCode::Char('d') {
            if 0 <= s < n {
                r matches Some(TuiCommand::RequestQuestCancel(id)) && id@ == quests[fl[s]].quest_id@
            } else {
                r is None
            }
        } else if c == KeyCode::Char('+') {
            if 0 <= s < n && quests[fl[s]].priority < u8::MAX {
                r matches Some(TuiCommand::RequestQuestPriorityChange { quest_id, new_priority })
                    && quest_id@ == quests[fl[s]].quest_id@ && new_priority == quests[fl[s]].priority + 1
            } else {
                r is None
            }
        } else if c == KeyCode::Char('-') {
            if 0 <= s < n && quests[fl[s]].priority > 0 {
                r matches Some(TuiCommand::RequestQuestPriorityChange { quest_id, new_priority })
                    && quest_id@ == quests[fl[s]].quest_id@ && new_priority == quests[fl[s]].priority - 1
            } else {
                r is None
            }
        } else {
            r is None
        }
    }

    /// Handles a key over the quests filtered by `keyword`: Up/Down and
    /// PageUp/PageDown move, Space toggles the mark of the cursor row, Ctrl+A
    /// marks every listed row, Ctrl+D clears the marks, `p` pauses (the marked
    /// quests after confirmation, else the cursor quest), `c` cancels the marked
    /// quests after confirmation, Enter jumps to the quest's events, `v` opens
    /// its detail, `d` asks to cancel it, `+`/`-` change its priority by one
    /// within 0-255, and `g`/`G` jump to the first/last row.
    pub fn handle_key(
        &mut self,
        key: KeyEvent,
        quests: &Vec<QuestView>,
        keyword: &Option<String>,
        labels: &QuestLabels,
    ) -> (r: Option<TuiCommand>)
        ensures
            Self::key_effect(*old(self), *final(self), quests@, keyword_view(*keyword), *labels, key, r),
    {
        proof {
            use_type_invariant(&*self);
        }
        let fl = listed_positions(quests, keyword);
        let n = fl.len();
        match crate::panels::list_state::handle_key_navigation(key.code, self.selected, n) {
            Some(ns) => {
                self.selected = ns;
                return None;
            },
            None => {},
        }
        match crate::panels::list_state::handle_key_page_navigation(key.code, self.selected, n) {
            Some(ns) => {
                self.selected = ns;
                return None;
            },
            None => {},
        }
        match key.code {
            KeyCode::Char(' ') => {
                if n > 0 {
                    let idx = crate::panels::list_state::clamp_selected(self.selected, n);
                    let marks = crate::panels::task_manager::toggle_mark(&self.selected_indices, idx);
                    self.selected_indices = marks;
                }
                None
            },
            KeyCode::Char('a') if key.ctrl => {
                let marks = crate::panels::task_manager::mark_all(&self.selected_indices, n);
                self.selected_indices = marks;
                None
            },
            KeyCode::Char('d') if key.ctrl => {
                self.selected_indices = Vec::new();
                None
            },
            KeyCode::Char('p') => {
                if self.selected_indices.len() > 0 {
                    return Self::batch(quests, &fl, &self.selected_indices, "pause", &labels.batch_pause, &labels.quests);
                }
                if self.selected < n {
                    Some(TuiCommand::RequestQuestPause(quests[fl[self.selected]].quest_id.clone()))
                } else {
                    None
                }
            },
            KeyCode::Char('c') => {
                if self.selected_indices.len() > 0 {
                    return Self::batch(quests, &fl, &self.selected_indices, "cancel", &labels.batch_cancel, &labels.quests);
                }
                None
            },
            KeyCode::Enter => {
                if self.selected < n {
                    Some(TuiCommand::JumpToEventStream { quest_id: quests[fl[self.selected]].quest_id.clone() })
                } else {
                    None
                }
            },
            KeyCode::Char('v') => {
                if self.selected < n {
                    let q = &quests[fl[self.selected]];
                    let content = Self::detail_content(q, labels);
                    Some(TuiCommand::OpenPopup(PopupKind::Detail { title: q.title.clone(), content, scroll: 0 }))
                } else {
                    None
                }
            },
            KeyCode::Char('d') => {
                if self.selected < n {
                    Some(TuiCommand::RequestQuestCancel(quests[fl[self.selected]].quest_id.clone()))
                } else {
                    None
                }
            },
            KeyCode::Char('+') => {
                if self.selected < n && quests[fl[self.selected]].priority < u8::MAX {
                    let q = &quests[fl[self.selected]];
                    Some(TuiCommand::RequestQuestPriorityChange { quest_id: q.quest_id.clone(), new_priority: q.priority + 1 })
                } else {
                    None
                }
            },
            KeyCode::Char('-') => {
                if self.selected < n && quests[fl[self.selected]].priority > 0 {
                    let q = &quests[fl[self.selected]];
                    Some(TuiCommand::RequestQuestPriorityChange { quest_id: q.quest_id.clone(), new_priority: q.priority - 1 })
                } else {
                    None
                }
            },
            KeyCode::Char('g') => {
                self.selected = 0;
                self.scroll_offset = 0;
                None
            },
            KeyCode::Char('G') => {
                self.selected = if n == 0 { 0 } else { n - 1 };
                self.scroll_offset = self.selected;
                None
            },
            _ => None,
        }
    }

    /// The quest id under the cursor in the list filtered by `keyword`, if any.
    pub fn selected_context_id(&self, quests: &Vec<QuestView>, keyword: &Option<String>) -> (r: Option<String>)
        ensures
            ({
                let fl = quest_listed(quests@, keyword_view(*keyword));
                if self.sel() < fl.len() {
                    r matches Some(id) && id@ == quests@[fl[self.sel() as int]].quest_id@
                } else {
                    r is None
                }
            }),
    {
        let fl = listed_positions(quests, keyword);
        if self.selected < fl.len() {
            proof {
                assert(positions(fl@)[self.selected as int] == fl@[self.selected as int] as int);
            }
            Some(quests[fl[self.selected]].quest_id.clone())
        } else {
            None
        }
    }

    /// The quest list text for the cursor `cursor` and the marked rows `marks`;
    /// `gauges` holds the progress text of each quest (aligned with `quests`).
    pub fn content(
        quests: &Vec<QuestView>,
        keyword: &Option<String>,
        cursor: usize,
        marks: &Vec<usize>,
        gauges: &Vec<String>,
        labels: &QuestContentLabels,
    ) -> (r: Vec<ToneLine>)
        requires
            gauges@.len() == quests@.len(),
        ensures
            tone_views(r@) == quest_content(quests@, keyword_view(*keyword), cursor as int, marks@, gauges@, *labels),
    {
        let fl = listed_positions(quests, keyword);
        let ghost fls = positions(fl@);
        let mut lines: Vec<ToneLine> = Vec::new();
        push_line(&mut lines, labels.body_title.clone(), LineTone::Plain);
        push_line(&mut lines, string_of("─────────────"), LineTone::Plain);
        let ghost head = tone_views(lines@);
        let n = fl.len();
        if n == 0 {
            push_line(&mut lines, labels.no_active.clone(), LineTone::Plain);
        } else {
            let mut k: usize = 0;
            while k < n
                invariant
                    k <= n,
                    n == fl@.len(),
                    fls == positions(fl@),
                    gauges@.len() == quests@.len(),
                    forall|q: int| 0 <= q < fl@.len() ==> (#[trigger] fl@[q]) < quests@.len(),
                    tone_views(lines@) == head + quest_blocks(quests@, fls, cursor as int, marks@, gauges@, *labels, k as int),
                decreases n - k,
            {
                let qi = fl[k];
                proof {
                    assert(fls[k as int] == qi as int);
                }
                let checked = holds(marks, k);
                let ghost before = tone_views(lines@);
                quest_block_lines(&quests[qi], k, k == cursor, checked, &gauges[qi], labels, k + 1 >= n, &mut lines);
                proof {
                    assert(tone_views(lines@) =~= head + quest_blocks(
                        quests@,
                        fls,
                        cursor as int,
                        marks@,
                        gauges@,
                        *labels,
                        k + 1,
                    ));
                }
                k = k + 1;
            }
        }
        push_line(&mut lines, String::new(), LineTone::Plain);
        push_line(&mut lines, string_of(FOOTER_TEXT), LineTone::Plain);
        proof {
            assert(tone_views(lines@) =~= quest_content(
                quests@,
                keyword_view(*keyword),
                cursor as int,
                marks@,
                gauges@,
                *labels,
            ));
        }
        lines
    }

    /// A copy of the key of the cached text, if any.
    pub fn cached_key(&self) -> (r: Option<QuestRenderKey>)
        ensures
            opt_key_view(r) == self.cache_key(),
    {
        match &self.cached_key {
            Some(k) => Some(copy_key(k)),
            None => None,
        }
    }

    /// Replaces the key of the cached text.
    pub fn set_cached_key(&mut self, key: Option<QuestRenderKey>)
        ensures
            final(self).cache_key() == opt_key_view(key),
            final(self).sel() == old(self).sel(),
            final(self).offset() == old(self).offset(),
            final(self).marks() == old(self).marks(),
            final(self).cached_text() == old(self).cached_text(),
            final(self).cached_count() == old(self).cached_count(),
    {
        proof {
            use_type_invariant(&*self);
        }
        self.cached_key = key;
    }

    /// Replaces the cached text.
    pub fn set_cached_text(&mut self, lines: Vec<ToneLine>)
        ensures
            final(self).cached_text() == tone_views(lines@),
            final(self).cache_key() == old(self).cache_key(),
            final(self).sel() == old(self).sel(),
            final(self).offset() == old(self).offset(),
            final(self).marks() == old(self).marks(),
            final(self).cached_count() == old(self).cached_count(),
    {
        proof {
            use_type_invariant(&*self);
        }
        self.cached_lines = lines;
    }

    /// Draws a frame: looks the cache up with the current revision, keyword,
    /// cursor, marks and locale; clamps the cursor to the quest count (the
    /// cached count on a hit) and scrolls it into the `inner_height` rows
    /// (three of them taken by chrome); and returns the text to draw, rebuilt
    /// on a miss. Caching is off before the first snapshot (`revision` 0).
    pub fn render(
        &mut self,
        quests: &Vec<QuestView>,
        keyword: &Option<String>,
        gauges: &Vec<String>,
        labels: &QuestContentLabels,
        revision: u64,
        locale: u8,
        inner_height: usize,
    ) -> (r: Vec<ToneLine>)
        requires
            gauges@.len() == quests@.len(),
        ensures
            quest_render_effect(
                *old(self),
                *final(self),
                tone_views(r@),
                quests@,
                keyword_view(*keyword),
                gauges@,
                *labels,
                revision,
                locale,
                inner_height,
            ),
    {
        proof {
            use_type_invariant(&*self);
        }
        let content_height = if inner_height >= 3 { inner_height - 3 } else { 0 };
        let marks = self.selected_indices.clone();
        proof {
            assert(marks@ =~= self.selected_indices@);
        }
        let mut key = QuestRenderKey {
            revision,
            keyword: copy_keyword(keyword),
            selected: self.selected,
            selected_indices: marks,
            locale,
        };
        let enable = revision != 0;
        let hit = enable && match &self.cached_key {
            Some(k) => same_key(k, &key),
            None => false,
        };
        let count = if hit {
            self.cached_count
        } else {
            listed_positions(quests, keyword).len()
        };
        self.selected = crate::panels::list_state::clamp_selected(self.selected, count);
        self.scroll_offset = crate::panels::list_state::adjust_scroll(
            self.selected,
            self.scroll_offset,
            content_height,
        );
        if hit {
            return clone_lines(&self.cached_lines);
        }
        key.selected = self.selected;
        let lines = Self::content(quests, keyword, self.selected, &self.selected_indices, gauges, labels);
        self.cached_lines = clone_lines(&lines);
        self.cached_count = count;
        self.cached_key = if enable {
            Some(key)
        } else {
            None
        };
        lines
    }

    /// The confirmation popup for the marked rows that exist.
    fn batch(
        quests: &Vec<QuestView>,
        fl: &Vec<usize>,
        marks: &Vec<usize>,
        verb: &str,
        start: &String,
        quests_word: &String,
    ) -> (r: Option<TuiCommand>)
        requires
            forall|q: int| 0 <= q < fl@.len() ==> (#[trigger] fl@[q]) < quests@.len(),
        ensures
            quest_batch_cmd(r, quests@, positions(fl@), marks@, verb@, start@, quests_word@),
    {
        let ids = crate::panels::task_manager::collect_batch_ids(quests, fl, marks);
        if ids.len() == 0 {
            return None;
        }
        let joined = crate::text::join_strings(&ids, ",");
        let mut prompt = start.clone();
        push_str(&mut prompt, " ");
        push_u64(&mut prompt, ids.len() as u64);
        push_str(&mut prompt, " ");
        push_str(&mut prompt, quests_word.as_str());
        let mut on_confirm = string_of("batch_");
        push_str(&mut on_confirm, verb);
        push_str(&mut on_confirm, ":");
        push_str(&mut on_confirm, joined.as_str());
        proof {
            assert(views(ids@).len() == ids@.len());
        }
        Some(TuiCommand::OpenPopup(PopupKind::control_confirm(prompt.as_str(), joined.as_str(), on_confirm)))
    }

    /// Jumps to the first row.
    pub fn scroll_to_top(&mut self)
        ensures
            final(self).sel() == 0,
            final(self).offset() == 0,
            final(self).marks() == old(self).marks(),
    {
        proof {
            use_type_invariant(&*self);
        }
        self.selected = 0;
        self.scroll_offset = 0;
    }

    /// Jumps to the last of `count` listed rows.
    pub fn scroll_to_bottom(&mut self, count: usize)
        ensures
            final(self).sel() == (if count == 0 { 0 } else { count - 1 }),
            final(self).offset() == final(self).sel(),
            final(self).marks() == old(self).marks(),
    {
        proof {
            use_type_invariant(&*self);
        }
        self.selected = if count == 0 { 0 } else { count - 1 };
        self.scroll_offset = self.selected;
    }

    /// The wheel moves the cursor among `count` listed rows.
    pub fn handle_mouse(&mut self, kind: MouseEventKind, count: usize) -> (r: Option<TuiCommand>)
        ensures
            r is None,
            final(self).offset() == old(self).offset(),
            final(self).marks() == old(self).marks(),
            final(self).sel() == (if kind == MouseEventKind::ScrollUp {
                clamp_spec(old(self).sel() - 1, count as int)
            } else if kind == MouseEventKind::ScrollDown {
                clamp_spec(old(self).sel() + 1, count as int)
            } else {
                old(self).sel() as int
            }),
    {
        proof {
            use_type_invariant(&*self);
        }
        match crate::panels::list_state::handle_mouse_scroll(kind, self.selected, count) {
            Some(ns) => {
                self.selected = ns;
            },
            None => {},
        }
        None
    }

    /// Clamps the cursor to `count` rows and scrolls so that it shows in
    /// `visible_rows` rows, as a frame does before drawing.
    pub fn sync_view(&mut self, count: usize, visible_rows: usize)
        ensures
            final(self).sel() == clamp_spec(old(self).sel() as int, count as int),
            final(self).offset() == crate::panels::list_state::adjust_scroll_spec(
                final(self).sel() as int,
                old(self).offset() as int,
                visible_rows as int,
            ),
            final(self).marks() == old(self).marks(),
    {
        proof {
            use_type_invariant(&*self);
        }
        self.selected = crate::panels::list_state::clamp_selected(self.selected, count);
        self.scroll_offset = crate::panels::list_state::adjust_scroll(
            self.selected,
            self.scroll_offset,
            visible_rows,
        );
    }

    /// The shortcuts this panel declares.
    pub fn shortcuts(&self) -> (r: Vec<(&'static str, &'static str)>)
        ensures
            r@.len() == 6,
            r@[0].0@ == "↑/↓"@ && r@[0].1@ == "导航"@,
            r@[1].0@ == "PgUp/PgDn"@ && r@[1].1@ == "翻页"@,
            r@[2].0@ == "Enter"@ && r@[2].1@ == "跳转事件流"@,
            r@[3].0@ == "v"@ && r@[3].1@ == "详情"@,
            r@[4].0@ == "g g"@ && r@[4].1@ == "跳顶"@,
            r@[5].0@ == "G"@ && r@[5].1@ == "跳底"@,
    {
        vec![("↑/↓", "导航"), ("PgUp/PgDn", "翻页"), ("Enter", "跳转事件流"), ("v", "详情"), ("g g", "跳顶"), ("G", "跳底")]
    }
}

} // verus!
