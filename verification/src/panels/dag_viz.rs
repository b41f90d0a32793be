//! DAG panel: the tasks of each quest indented by their depth in the
//! dependency graph.
use vstd::prelude::*;
use crate::input::KeyEvent;
use crate::panels::quest::{tasks_with, QuestView, TaskStatus, TaskView};
use crate::text::{dec, join, push_line, push_spaces, push_str, push_u64, spaces, string_of, tone_views, views, LineTone, ToneLine};
use crate::types::{PanelId, TuiCommand};

verus! {

/// Quests shown before the rest is summarised.
pub const MAX_QUESTS_SHOWN: usize = 3;

/// Depth cap and number of relaxation rounds; bounds the work on cyclic input.
pub const MAX_DEPTH: usize = 32;

/// Task ids in task order.
pub open spec fn task_ids(tasks: Seq<TaskView>) -> Seq<Seq<char>> {
    tasks.map_values(|t: TaskView| t.task_id@)
}

/// First position at or after `j` of `id` in `ids`, or -1.
pub open spec fn first_pos(ids: Seq<Seq<char>>, id: Seq<char>, j: int) -> int
    decreases ids.len() - j,
{
    if j < 0 || j >= ids.len() {
        -1
    } else if ids[j] == id {
        j
    } else {
        first_pos(ids, id, j + 1)
    }
}

/// Largest current depth among the dependencies that name a known task.
pub open spec fn dep_max(ids: Seq<Seq<char>>, depths: Seq<int>, deps: Seq<Seq<char>>) -> Option<int>
    decreases deps.len(),
{
    if deps.len() == 0 {
        None
    } else {
        let r = dep_max(ids, depths, deps.drop_last());
        let j = first_pos(ids, deps.last(), 0);
        if j < 0 {
            r
        } else {
            match r {
                None => Some(depths[j]),
                Some(m) => Some(if m >= depths[j] { m } else { depths[j] }),
            }
        }
    }
}

/// Dependency ids of a task.
pub open spec fn dep_ids(t: TaskView) -> Seq<Seq<char>> {
    t.dependencies@.map_values(|d: String| d@)
}

/// Relaxes task `t`: with known dependencies, its id's depth becomes one more
/// than their largest depth, capped at [`MAX_DEPTH`].
pub open spec fn relax_task(tasks: Seq<TaskView>, depths: Seq<int>, t: int) -> Seq<int> {
    let ids = task_ids(tasks);
    match dep_max(ids, depths, dep_ids(tasks[t])) {
        None => depths,
        Some(m) => depths.update(
            first_pos(ids, ids[t], 0),
            if m + 1 < MAX_DEPTH { m + 1 } else { MAX_DEPTH as int },
        ),
    }
}

/// One round: relaxes the first `t` tasks in order, each seeing the earlier updates.
pub open spec fn relax_round(tasks: Seq<TaskView>, depths: Seq<int>, t: nat) -> Seq<int>
    decreases t,
{
    if t == 0 {
        depths
    } else {
        relax_task(tasks, relax_round(tasks, depths, (t - 1) as nat), t - 1)
    }
}

/// Depths by position after `k` rounds from all zeros (only the first position
/// of each id is ever updated).
pub open spec fn depths_after(tasks: Seq<TaskView>, k: nat) -> Seq<int>
    decreases k,
{
    if k == 0 {
        Seq::new(tasks.len(), |i: int| 0int)
    } else {
        relax_round(tasks, depths_after(tasks, (k - 1) as nat), tasks.len())
    }
}

/// Once a round changes nothing, later rounds change nothing either.
proof fn lemma_fixpoint(tasks: Seq<TaskView>, r: nat, k: nat)
    requires
        depths_after(tasks, r + 1) == depths_after(tasks, r),
        r <= k,
    ensures
        depths_after(tasks, k) == depths_after(tasks, r),
    decreases k - r,
{
    if k > r {
        lemma_fixpoint(tasks, r, (k - 1) as nat);
    }
}

proof fn lemma_first_pos_found(ids: Seq<Seq<char>>, id: Seq<char>, j: int, t: int)
    requires
        0 <= j <= t < ids.len(),
        ids[t] == id,
    ensures
        j <= first_pos(ids, id, j) <= t,
        ids[first_pos(ids, id, j)] == id,
    decreases t - j,
{
    if ids[j] != id {
        lemma_first_pos_found(ids, id, j + 1, t);
    }
}

/// The depth of a dependency is looked up at the first position of its id.
pub open spec fn known_dep(ids: Seq<Seq<char>>, deps: Seq<Seq<char>>, k: int) -> int {
    first_pos(ids, deps[k], 0)
}

/// `dep_max` is the largest depth among the known dependencies: there is none
/// exactly when no dependency names a task; otherwise it is at least the depth
/// of every known dependency and equal to the depth of one of them.
pub proof fn lemma_dep_max_is_deepest(ids: Seq<Seq<char>>, depths: Seq<int>, deps: Seq<Seq<char>>)
    ensures
        dep_max(ids, depths, deps) is None <==> (forall|k: int|
            0 <= k < deps.len() ==> #[trigger] known_dep(ids, deps, k) < 0),
        dep_max(ids, depths, deps) matches Some(m) ==> (forall|k: int|
            0 <= k < deps.len() && #[trigger] known_dep(ids, deps, k) >= 0 ==> depths[known_dep(ids, deps, k)] <= m),
        dep_max(ids, depths, deps) matches Some(m) ==> (exists|k: int|
            0 <= k < deps.len() && #[trigger] known_dep(ids, deps, k) >= 0 && depths[known_dep(ids, deps, k)] == m),
    decreases deps.len(),
{
    if deps.len() > 0 {
        let front = deps.drop_last();
        let last = deps.len() - 1;
        lemma_dep_max_is_deepest(ids, depths, front);
        assert forall|k: int| 0 <= k < front.len() implies #[trigger] known_dep(ids, front, k) == known_dep(ids, deps, k) by {
            assert(front[k] == deps[k]);
        }
        assert(known_dep(ids, deps, last) == first_pos(ids, deps.last(), 0));
        let r = dep_max(ids, depths, front);
        let jl = known_dep(ids, deps, last);
        if r is Some {
            let m = r->0;
            let w = choose|k: int|
                0 <= k < front.len() && #[trigger] known_dep(ids, front, k) >= 0 && depths[known_dep(ids, front, k)] == m;
            assert(known_dep(ids, deps, w) == known_dep(ids, front, w));
        }
        if dep_max(ids, depths, deps) is None {
            assert forall|k: int| 0 <= k < deps.len() implies #[trigger] known_dep(ids, deps, k) < 0 by {
                if k < last {
                    assert(known_dep(ids, front, k) == known_dep(ids, deps, k));
                }
            }
        } else {
            let m = dep_max(ids, depths, deps)->0;
            assert forall|k: int| 0 <= k < deps.len() && #[trigger] known_dep(ids, deps, k) >= 0 implies depths[known_dep(
                ids,
                deps,
                k,
            )] <= m by {
                if k < last {
                    assert(known_dep(ids, front, k) == known_dep(ids, deps, k));
                }
            }
            if r is None {
                assert(jl >= 0);
            }
        }
    }
}

/// First position of `id` among the task ids.
fn find_task(tasks: &Vec<TaskView>, id: &String) -> (r: Option<usize>)
    ensures
        match r {
            Some(j) => j as int == first_pos(task_ids(tasks@), id@, 0) && j < tasks@.len(),
            None => first_pos(task_ids(tasks@), id@, 0) == -1,
        },
{
    let ghost ids = task_ids(tasks@);
    let mut j: usize = 0;
    while j < tasks.len()
        invariant
            j <= tasks@.len(),
            ids == task_ids(tasks@),
            first_pos(ids, id@, 0) == first_pos(ids, id@, j as int),
        decreases tasks@.len() - j,
    {
        if tasks[j].task_id == *id {
            return Some(j);
        }
        j = j + 1;
    }
    None
}

/// Positions as ints.
pub open spec fn depth_view(v: Seq<usize>) -> Seq<int> {
    v.map_values(|x: usize| x as int)
}

/// Largest depth among the known dependencies of task `t`.
fn dependency_max(tasks: &Vec<TaskView>, depths: &Vec<usize>, t: usize) -> (r: Option<usize>)
    requires
        t < tasks@.len(),
        depths@.len() == tasks@.len(),
        forall|i: int| 0 <= i < depths@.len() ==> depths@[i] <= MAX_DEPTH,
    ensures
        match dep_max(task_ids(tasks@), depth_view(depths@), dep_ids(tasks@[t as int])) {
            Some(m) => 0 <= m <= MAX_DEPTH && r == Some(m as usize),
            None => r is None,
        },
        r matches Some(m) ==> m <= MAX_DEPTH,
{
    let ghost ids = task_ids(tasks@);
    let ghost dv = depth_view(depths@);
    let ghost all = dep_ids(tasks@[t as int]);
    let deps = &tasks[t].dependencies;
    let mut best: Option<usize> = None;
    let mut k: usize = 0;
    while k < deps.len()
        invariant
            k <= deps@.len(),
            deps@ == tasks@[t as int].dependencies@,
            all == dep_ids(tasks@[t as int]),
            ids == task_ids(tasks@),
            dv == depth_view(depths@),
            depths@.len() == tasks@.len(),
            forall|i: int| 0 <= i < depths@.len() ==> depths@[i] <= MAX_DEPTH,
            match dep_max(ids, dv, all.take(k as int)) {
                Some(m) => 0 <= m <= MAX_DEPTH && best == Some(m as usize),
                None => best is None,
            },
            best matches Some(m) ==> m <= MAX_DEPTH,
        decreases deps@.len() - k,
    {
        let ghost prev = dep_max(ids, dv, all.take(k as int));
        let ghost jj = first_pos(ids, deps@[k as int]@, 0);
        proof {
            assert(all.take(k + 1).drop_last() =~= all.take(k as int));
            assert(all.take(k + 1).last() == deps@[k as int]@);
            assert(dep_max(ids, dv, all.take(k + 1)) == (if jj < 0 {
                prev
            } else {
                match prev {
                    None => Some(dv[jj]),
                    Some(m) => Some(if m >= dv[jj] { m } else { dv[jj] }),
                }
            }));
        }
        match find_task(tasks, &deps[k]) {
            Some(j) => {
                proof {
                    assert(dv[j as int] == depths@[j as int] as int);
                }
                let d = depths[j];
                best = match best {
                    None => Some(d),
                    Some(m) => Some(if m >= d { m } else { d }),
                };
            },
            None => {},
        }
        k = k + 1;
    }
    proof {
        assert(all.take(deps@.len() as int) =~= all);
    }
    best
}

/// The depth of task `i` in the dependency graph, as [`DagVizPanel::task_depths`] computes it.
pub open spec fn task_depth(tasks: Seq<TaskView>, i: int) -> int {
    depths_after(tasks, MAX_DEPTH as nat)[first_pos(task_ids(tasks), task_ids(tasks)[i], 0)]
}

/// No two tasks share an id.
pub open spec fn unique_task_ids(tasks: Seq<TaskView>) -> bool {
    forall|a: int, b: int|
        0 <= a < tasks.len() && 0 <= b < tasks.len() && a != b ==> #[trigger] task_ids(tasks)[a] != #[trigger] task_ids(
            tasks,
        )[b]
}

/// A depth held at [`MAX_DEPTH`].
pub open spec fn capped(x: int) -> int {
    if x < MAX_DEPTH {
        x
    } else {
        MAX_DEPTH as int
    }
}

proof fn lemma_first_pos_range(ids: Seq<Seq<char>>, id: Seq<char>, j: int)
    ensures
        first_pos(ids, id, j) == -1 || (j <= first_pos(ids, id, j) < ids.len() && ids[first_pos(ids, id, j)] == id),
    decreases ids.len() - j,
{
    if 0 <= j < ids.len() && ids[j] != id {
        lemma_first_pos_range(ids, id, j + 1);
    }
}

proof fn lemma_first_pos_self(tasks: Seq<TaskView>, t: int)
    requires
        unique_task_ids(tasks),
        0 <= t < tasks.len(),
    ensures
        first_pos(task_ids(tasks), task_ids(tasks)[t], 0) == t,
{
    let ids = task_ids(tasks);
    lemma_first_pos_found(ids, ids[t], 0, t);
    let f = first_pos(ids, ids[t], 0);
    if f != t {
        assert(ids[f] != ids[t]);
    }
}

/// With unique ids, relaxing task `t` touches position `t` only.
proof fn lemma_relax_task_shape(tasks: Seq<TaskView>, d: Seq<int>, t: int)
    requires
        unique_task_ids(tasks),
        0 <= t < tasks.len(),
    ensures
        relax_task(tasks, d, t) == match dep_max(task_ids(tasks), d, dep_ids(tasks[t])) {
            None => d,
            Some(m) => d.update(t, capped(m + 1)),
        },
{
    lemma_first_pos_self(tasks, t);
}

proof fn lemma_round_len(tasks: Seq<TaskView>, d: Seq<int>, s: nat)
    requires
        d.len() == tasks.len(),
        s <= tasks.len(),
    ensures
        relax_round(tasks, d, s).len() == d.len(),
    decreases s,
{
    if s > 0 {
        lemma_round_len(tasks, d, (s - 1) as nat);
        let ids = task_ids(tasks);
        lemma_first_pos_found(ids, ids[s - 1], 0, s - 1);
    }
}

proof fn lemma_depths_len(tasks: Seq<TaskView>, k: nat)
    ensures
        depths_after(tasks, k).len() == tasks.len(),
    decreases k,
{
    if k > 0 {
        lemma_depths_len(tasks, (k - 1) as nat);
        lemma_round_len(tasks, depths_after(tasks, (k - 1) as nat), tasks.len());
    }
}

/// With unique ids, later steps of a round leave position `t` as step `t` left it.
proof fn lemma_round_later(tasks: Seq<TaskView>, d: Seq<int>, t: int, s: nat)
    requires
        unique_task_ids(tasks),
        d.len() == tasks.len(),
        0 <= t < s <= tasks.len(),
    ensures
        relax_round(tasks, d, s)[t] == relax_round(tasks, d, (t + 1) as nat)[t],
    decreases s,
{
    if s > t + 1 {
        lemma_round_later(tasks, d, t, (s - 1) as nat);
        lemma_round_len(tasks, d, (s - 1) as nat);
        lemma_relax_task_shape(tasks, relax_round(tasks, d, (s - 1) as nat), s - 1);
    }
}

/// With unique ids, a round that changes nothing changes nothing at any step.
proof fn lemma_round_fixpoint(tasks: Seq<TaskView>, d: Seq<int>, t: nat)
    requires
        unique_task_ids(tasks),
        d.len() == tasks.len(),
        relax_round(tasks, d, tasks.len()) == d,
        t <= tasks.len(),
    ensures
        relax_round(tasks, d, t) == d,
    decreases t,
{
    if t > 0 {
        lemma_round_fixpoint(tasks, d, (t - 1) as nat);
        lemma_relax_task_shape(tasks, d, t - 1);
        lemma_round_later(tasks, d, t - 1, tasks.len());
        assert(relax_round(tasks, d, t) =~= d);
    }
}

/// With unique ids, a task none of whose dependencies names a task keeps the
/// depth it had through a round.
proof fn lemma_round_keeps_unlinked(tasks: Seq<TaskView>, d: Seq<int>, i: int, s: nat)
    requires
        unique_task_ids(tasks),
        d.len() == tasks.len(),
        0 <= i < tasks.len(),
        s <= tasks.len(),
        dep_max(task_ids(tasks), d, dep_ids(tasks[i])) is None,
    ensures
        relax_round(tasks, d, s)[i] == d[i],
    decreases s,
{
    if s > 0 {
        let prev = relax_round(tasks, d, (s - 1) as nat);
        lemma_round_keeps_unlinked(tasks, d, i, (s - 1) as nat);
        lemma_round_len(tasks, d, (s - 1) as nat);
        lemma_relax_task_shape(tasks, prev, s - 1);
        lemma_dep_max_is_deepest(task_ids(tasks), d, dep_ids(tasks[i]));
        lemma_dep_max_is_deepest(task_ids(tasks), prev, dep_ids(tasks[i]));
    }
}

proof fn lemma_unlinked_zero(tasks: Seq<TaskView>, i: int, k: nat)
    requires
        unique_task_ids(tasks),
        0 <= i < tasks.len(),
        forall|j: int| 0 <= j < dep_ids(tasks[i]).len() ==> #[trigger] known_dep(task_ids(tasks), dep_ids(tasks[i]), j) < 0,
    ensures
        depths_after(tasks, k)[i] == 0,
    decreases k,
{
    if k > 0 {
        let d = depths_after(tasks, (k - 1) as nat);
        lemma_unlinked_zero(tasks, i, (k - 1) as nat);
        lemma_depths_len(tasks, (k - 1) as nat);
        lemma_dep_max_is_deepest(task_ids(tasks), d, dep_ids(tasks[i]));
        lemma_round_keeps_unlinked(tasks, d, i, tasks.len());
    }
}

/// Once the depths have settled (one more round would change nothing) and the
/// ids are unique, each task's depth is fixed by its dependencies: 0 when none
/// of them names a task; otherwise one more than the deepest known dependency,
/// held at [`MAX_DEPTH`] — at least one more than every known dependency and
/// exactly one more than one of them.
pub proof fn lemma_depth_follows_deepest_dependency(tasks: Seq<TaskView>, i: int)
    requires
        unique_task_ids(tasks),
        0 <= i < tasks.len(),
        depths_after(tasks, (MAX_DEPTH + 1) as nat) == depths_after(tasks, MAX_DEPTH as nat),
    ensures
        (forall|k: int|
            0 <= k < dep_ids(tasks[i]).len() ==> #[trigger] known_dep(task_ids(tasks), dep_ids(tasks[i]), k) < 0)
            ==> task_depth(tasks, i) == 0,
        forall|k: int|
            0 <= k < dep_ids(tasks[i]).len() && #[trigger] known_dep(task_ids(tasks), dep_ids(tasks[i]), k) >= 0
                ==> task_depth(tasks, i) >= capped(
                task_depth(tasks, known_dep(task_ids(tasks), dep_ids(tasks[i]), k)) + 1,
            ),
        (exists|k: int|
            0 <= k < dep_ids(tasks[i]).len() && #[trigger] known_dep(task_ids(tasks), dep_ids(tasks[i]), k) >= 0)
            ==> exists|k: int|
            0 <= k < dep_ids(tasks[i]).len() && #[trigger] known_dep(task_ids(tasks), dep_ids(tasks[i]), k) >= 0
                && task_depth(tasks, i) == capped(task_depth(tasks, known_dep(task_ids(tasks), dep_ids(tasks[i]), k)) + 1),
{
    let ids = task_ids(tasks);
    let deps = dep_ids(tasks[i]);
    let d = depths_after(tasks, MAX_DEPTH as nat);
    lemma_depths_len(tasks, MAX_DEPTH as nat);
    lemma_first_pos_self(tasks, i);
    assert(task_depth(tasks, i) == d[i]);
    assert forall|k: int| 0 <= k < deps.len() && #[trigger] known_dep(ids, deps, k) >= 0 implies task_depth(
        tasks,
        known_dep(ids, deps, k),
    ) == d[known_dep(ids, deps, k)] by {
        lemma_first_pos_range(ids, deps[k], 0);
        lemma_first_pos_self(tasks, known_dep(ids, deps, k));
    }
    lemma_dep_max_is_deepest(ids, d, deps);
    if forall|k: int| 0 <= k < deps.len() ==> #[trigger] known_dep(ids, deps, k) < 0 {
        lemma_unlinked_zero(tasks, i, MAX_DEPTH as nat);
    } else {
        assert(relax_round(tasks, d, tasks.len()) == d);
        lemma_round_fixpoint(tasks, d, (i + 1) as nat);
        lemma_round_fixpoint(tasks, d, i as nat);
        lemma_relax_task_shape(tasks, d, i);
        let m = dep_max(ids, d, deps)->0;
        assert(d.update(i, capped(m + 1))[i] == d[i]);
        assert(d[i] == capped(m + 1));
    }
}

/// The marker of a task status.
pub open spec fn status_marker(s: TaskStatus) -> Seq<char> {
    match s {
        TaskStatus::Pending => "○"@,
        TaskStatus::Running => "◐"@,
        TaskStatus::Completed => "●"@,
        TaskStatus::Failed => "✗"@,
        TaskStatus::Cancelled => "⊗"@,
        TaskStatus::Paused => "⏸"@,
    }
}

/// The tone of a task status.
pub open spec fn status_tone(s: TaskStatus) -> LineTone {
    match s {
        TaskStatus::Pending => LineTone::Muted,
        TaskStatus::Running => LineTone::Warning,
        TaskStatus::Completed => LineTone::Good,
        TaskStatus::Failed => LineTone::Alert,
        TaskStatus::Cancelled => LineTone::Alert,
        TaskStatus::Paused => LineTone::Warning,
    }
}

/// The line of a task at depth `depth`: two spaces per level plus two, the
/// status marker, the description and ` ← dep1,dep2` when it has dependencies.
pub open spec fn dag_task_line(t: TaskView, depth: int) -> (Seq<char>, LineTone) {
    (
        spaces((2 * (depth + 1)) as nat) + status_marker(t.status) + " "@ + t.description@ + if t.dependencies@.len()
            == 0 {
            Seq::empty()
        } else {
            " ← "@ + join(dep_ids(t), ","@)
        },
        status_tone(t.status),
    )
}

/// The lines of a quest: header with completed and total task counts, one line
/// per task in task order, and an empty line.
pub open spec fn dag_quest_block(q: QuestView) -> Seq<(Seq<char>, LineTone)> {
    seq![
        (
            "▶ "@ + q.title@ + " ["@ + dec(tasks_with(q.tasks@, TaskStatus::Completed)) + "/"@ + dec(q.tasks@.len())
                + "]"@,
            LineTone::Info,
        ),
    ] + Seq::new(q.tasks@.len(), |i: int| dag_task_line(q.tasks@[i], task_depth(q.tasks@, i))) + seq![
        (Seq::<char>::empty(), LineTone::Plain),
    ]
}

/// The blocks of the first `n` quests.
pub open spec fn dag_blocks(quests: Seq<QuestView>, n: int) -> Seq<(Seq<char>, LineTone)>
    decreases n,
{
    if n <= 0 {
        Seq::empty()
    } else {
        dag_blocks(quests, n - 1) + dag_quest_block(quests[n - 1])
    }
}

/// The panel text: title, rule, the lineage graph counts and an empty line;
/// then the first [`MAX_QUESTS_SHOWN`] quests and a count of the others, or a
/// waiting line without quests.
pub open spec fn dag_content(quests: Seq<QuestView>, spec_nodes: nat, spec_edges: nat) -> Seq<(Seq<char>, LineTone)> {
    let head = seq![
        ("Quest Task DAG (depth-indented)"@, LineTone::Plain),
        ("──────────────────────────────────────"@, LineTone::Plain),
        ("Spec DAG: "@ + dec(spec_nodes) + " nodes, "@ + dec(spec_edges) + " edges"@, LineTone::Muted),
        (Seq::<char>::empty(), LineTone::Plain),
    ];
    if quests.len() == 0 {
        head + seq![("Awaiting QuestListUpdated..."@, LineTone::Muted)]
    } else {
        let shown = if quests.len() > MAX_QUESTS_SHOWN { MAX_QUESTS_SHOWN as int } else { quests.len() as int };
        head + dag_blocks(quests, shown) + if quests.len() > MAX_QUESTS_SHOWN {
            seq![
                (
                    "... "@ + dec((quests.len() - MAX_QUESTS_SHOWN) as nat) + " more quests (see Quest panel)"@,
                    LineTone::Muted,
                ),
            ]
        } else {
            Seq::empty()
        }
    }
}

/// The number of completed tasks.
fn completed_tasks(tasks: &Vec<TaskView>) -> (r: u64)
    ensures
        r == tasks_with(tasks@, TaskStatus::Completed),
{
    let mut c: u64 = 0;
    let mut i: usize = 0;
    while i < tasks.len()
        invariant
            i <= tasks@.len(),
            c == crate::panels::quest::count_status(tasks@, TaskStatus::Completed, i as int),
            c <= i,
        decreases tasks@.len() - i,
    {
        if tasks[i].status == TaskStatus::Completed {
            c = c + 1;
        }
        i = i + 1;
    }
    c
}

/// Appends the lines of a quest.
fn push_quest_block(lines: &mut Vec<ToneLine>, q: &QuestView)
    ensures
        tone_views(final(lines)@) == tone_views(old(lines)@) + dag_quest_block(*q),
{
    let ghost start = tone_views(lines@);
    let mut h = string_of("▶ ");
    push_str(&mut h, q.title.as_str());
    push_str(&mut h, " [");
    push_u64(&mut h, completed_tasks(&q.tasks));
    push_str(&mut h, "/");
    push_u64(&mut h, q.tasks.len() as u64);
    push_str(&mut h, "]");
    push_line(lines, h, LineTone::Info);
    let ghost after_head = tone_views(lines@);
    let depths = DagVizPanel::task_depths(&q.tasks);
    let ghost rows = Seq::new(q.tasks@.len(), |i: int| dag_task_line(q.tasks@[i], task_depth(q.tasks@, i)));
    let mut i: usize = 0;
    while i < q.tasks.len()
        invariant
            i <= q.tasks@.len(),
            depths@.len() == q.tasks@.len(),
            forall|k: int| 0 <= k < depths@.len() ==> (#[trigger] depths@[k]) as int == task_depth(q.tasks@, k),
            forall|k: int| 0 <= k < depths@.len() ==> (#[trigger] depths@[k]) <= MAX_DEPTH,
            rows == Seq::new(q.tasks@.len(), |i: int| dag_task_line(q.tasks@[i], task_depth(q.tasks@, i))),
            tone_views(lines@) == after_head + rows.take(i as int),
        decreases q.tasks@.len() - i,
    {
        let t = &q.tasks[i];
        let d = depths[i];
        let mut l = String::new();
        push_spaces(&mut l, 2 * (d + 1));
        push_str(
            &mut l,
            match t.status {
                TaskStatus::Pending => "○",
                TaskStatus::Running => "◐",
                TaskStatus::Completed => "●",
                TaskStatus::Failed => "✗",
                TaskStatus::Cancelled => "⊗",
                TaskStatus::Paused => "⏸",
            },
        );
        push_str(&mut l, " ");
        push_str(&mut l, t.description.as_str());
        if t.dependencies.len() > 0 {
            push_str(&mut l, " ← ");
            let joined = crate::text::join_strings(&t.dependencies, ",");
            proof {
                assert(views(t.dependencies@) =~= dep_ids(*t));
            }
            push_str(&mut l, joined.as_str());
        }
        let tone = match t.status {
            TaskStatus::Pending => LineTone::Muted,
            TaskStatus::Running => LineTone::Warning,
            TaskStatus::Completed => LineTone::Good,
            TaskStatus::Failed => LineTone::Alert,
            TaskStatus::Cancelled => LineTone::Alert,
            TaskStatus::Paused => LineTone::Warning,
        };
        proof {
            assert(rows[i as int] == (l@, tone));
            assert(rows.take(i + 1) =~= rows.take(i as int).push((l@, tone)));
        }
        push_line(lines, l, tone);
        i = i + 1;
    }
    push_line(lines, String::new(), LineTone::Plain);
    proof {
        assert(rows.take(q.tasks@.len() as int) =~= rows);
        assert(tone_views(lines@) =~= start + dag_quest_block(*q));
    }
}

/// DAG panel; it has no state of its own.
#[derive(Debug, Default, Clone, Copy, PartialEq, Eq)]
pub struct DagVizPanel;

impl DagVizPanel {
    /// A new panel.
    pub fn new() -> (r: Self)
        ensures
            r == DagVizPanel,
    {
        DagVizPanel
    }

    /// This panel's identity.
    pub fn id(&self) -> (r: PanelId)
        ensures
            r == PanelId::DagViz,
    {
        PanelId::DagViz
    }

    /// The panel text for the quest list and the node and edge counts of the
    /// lineage graph: see [`dag_content`].
    pub fn content(quests: &Vec<QuestView>, spec_nodes: u64, spec_edges: u64) -> (r: Vec<ToneLine>)
        ensures
            tone_views(r@) == dag_content(quests@, spec_nodes as nat, spec_edges as nat),
    {
        let mut lines: Vec<ToneLine> = Vec::new();
        push_line(&mut lines, string_of("Quest Task DAG (depth-indented)"), LineTone::Plain);
        push_line(&mut lines, string_of("──────────────────────────────────────"), LineTone::Plain);
        let mut s = string_of("Spec DAG: ");
        push_u64(&mut s, spec_nodes);
        push_str(&mut s, " nodes, ");
        push_u64(&mut s, spec_edges);
        push_str(&mut s, " edges");
        push_line(&mut lines, s, LineTone::Muted);
        push_line(&mut lines, String::new(), LineTone::Plain);
        let ghost head = tone_views(lines@);
        if quests.len() == 0 {
            push_line(&mut lines, string_of("Awaiting QuestListUpdated..."), LineTone::Muted);
            proof {
                assert(tone_views(lines@) =~= dag_content(quests@, spec_nodes as nat, spec_edges as nat));
            }
            return lines;
        }
        let shown = if quests.len() > MAX_QUESTS_SHOWN { MAX_QUESTS_SHOWN } else { quests.len() };
        let mut i: usize = 0;
        while i < shown
            invariant
                i <= shown,
                shown <= quests@.len(),
                tone_views(lines@) == head + dag_blocks(quests@, i as int),
            decreases shown - i,
        {
            push_quest_block(&mut lines, &quests[i]);
            proof {
                assert(tone_views(lines@) =~= head + dag_blocks(quests@, i + 1));
            }
            i = i + 1;
        }
        if quests.len() > MAX_QUESTS_SHOWN {
            let mut m = string_of("... ");
            push_u64(&mut m, (quests.len() - MAX_QUESTS_SHOWN) as u64);
            push_str(&mut m, " more quests (see Quest panel)");
            push_line(&mut lines, m, LineTone::Muted);
        }
        proof {
            assert(tone_views(lines@) =~= dag_content(quests@, spec_nodes as nat, spec_edges as nat));
        }
        lines
    }

    /// Display-only: every key is ignored.
    pub fn handle_key(&mut self, key: KeyEvent) -> (r: Option<TuiCommand>)
        ensures
            r is None,
    {
        None
    }

    /// Depth of each task's id in the dependency graph, in task order: 0 without
    /// known dependencies, otherwise one more than the deepest known dependency,
    /// computed by at most [`MAX_DEPTH`] relaxation rounds and capped there, so
    /// that cyclic input terminates.
    pub fn task_depths(tasks: &Vec<TaskView>) -> (r: Vec<usize>)
        ensures
            r@.len() == tasks@.len(),
            forall|i: int|
                0 <= i < r@.len() ==> (#[trigger] r@[i]) as int == depths_after(tasks@, MAX_DEPTH as nat)[first_pos(
                    task_ids(tasks@),
                    task_ids(tasks@)[i],
                    0,
                )],
            forall|i: int| 0 <= i < r@.len() ==> (#[trigger] r@[i]) <= MAX_DEPTH,
    {
        let n = tasks.len();
        let ghost ids = task_ids(tasks@);
        let mut depths: Vec<usize> = Vec::new();
        let mut i: usize = 0;
        while i < n
            invariant
                n == tasks@.len(),
                i <= n,
                depths@.len() == i,
                forall|q: int| 0 <= q < i ==> depths@[q] == 0,
            decreases n - i,
        {
            depths.push(0);
            i = i + 1;
        }
        proof {
            assert(depth_view(depths@) =~= depths_after(tasks@, 0));
        }
        let mut round: usize = 0;
        while round < MAX_DEPTH
            invariant
                n == tasks@.len(),
                ids == task_ids(tasks@),
                round <= MAX_DEPTH,
                depths@.len() == n,
                forall|q: int| 0 <= q < n ==> depths@[q] <= MAX_DEPTH,
                depth_view(depths@) == depths_after(tasks@, round as nat),
            ensures
                depths@.len() == n,
                forall|q: int| 0 <= q < n ==> depths@[q] <= MAX_DEPTH,
                depth_view(depths@) == depths_after(tasks@, MAX_DEPTH as nat),
            decreases MAX_DEPTH - round,
        {
            let ghost start = depth_view(depths@);
            let mut changed = false;
            let mut t: usize = 0;
            while t < n
                invariant
                    n == tasks@.len(),
                    ids == task_ids(tasks@),
                    t <= n,
                    depths@.len() == n,
                    forall|q: int| 0 <= q < n ==> depths@[q] <= MAX_DEPTH,
                    depth_view(depths@) == relax_round(tasks@, start, t as nat),
                    !changed ==> depth_view(depths@) == start,
                decreases n - t,
            {
                let ghost before = depth_view(depths@);
                match dependency_max(tasks, &depths, t) {
                    Some(m) => {
                        let new_depth = if m + 1 < MAX_DEPTH { m + 1 } else { MAX_DEPTH };
                        let c = match find_task(tasks, &tasks[t].task_id) {
                            Some(c) => c,
                            None => t,
                        };
                        proof {
                            assert(ids[t as int] == tasks@[t as int].task_id@);
                            lemma_first_pos_found(ids, ids[t as int], 0, t as int);
                            assert(c as int == first_pos(ids, ids[t as int], 0));
                            assert(before[c as int] == depths@[c as int] as int);
                        }
                        if depths[c] != new_depth {
                            depths.set(c, new_depth);
                            changed = true;
                        }
                        proof {
                            assert(depth_view(depths@) =~= before.update(c as int, new_depth as int));
                        }
                    },
                    None => {},
                }
                t = t + 1;
            }
            round = round + 1;
            if !changed {
                proof {
                    lemma_fixpoint(tasks@, (round - 1) as nat, MAX_DEPTH as nat);
                }
                break;
            }
        }
        let mut r: Vec<usize> = Vec::new();
        let mut i: usize = 0;
        while i < n
            invariant
                n == tasks@.len(),
                ids == task_ids(tasks@),
                i <= n,
                depths@.len() == n,
                forall|q: int| 0 <= q < n ==> depths@[q] <= MAX_DEPTH,
                depth_view(depths@) == depths_after(tasks@, MAX_DEPTH as nat),
                r@.len() == i,
                forall|q: int|
                    0 <= q < i ==> (#[trigger] r@[q]) as int == depths_after(tasks@, MAX_DEPTH as nat)[first_pos(
                        ids,
                        ids[q],
                        0,
                    )],
                forall|q: int| 0 <= q < i ==> (#[trigger] r@[q]) <= MAX_DEPTH,
            decreases n - i,
        {
            let c = match find_task(tasks, &tasks[i].task_id) {
                Some(c) => c,
                None => i,
            };
            proof {
                assert(ids[i as int] == tasks@[i as int].task_id@);
                lemma_first_pos_found(ids, ids[i as int], 0, i as int);
                assert(depth_view(depths@)[c as int] == depths@[c as int] as int);
            }
            r.push(depths[c]);
            i = i + 1;
        }
        r
    }
}

} // verus!
