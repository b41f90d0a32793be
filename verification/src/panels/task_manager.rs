//! Task manager panel: quests sorted by priority, status or first observation,
//! filtered by a case-insensitive keyword, with multi-selection and batch
//! control commands.
use vstd::prelude::*;
use crate::input::{KeyCode, KeyEvent};
use crate::popup::PopupKind;
use crate::text::{chars_contain, chars_of, contains_seq, dec, lowercase, push_str, push_u64, string_of, to_lowercase};
use crate::panels::quest::{QuestView, TaskStatus, TaskView};
use crate::types::{PanelId, QuestAction, TuiCommand};

verus! {

/// Highest user-facing priority level.
pub const PRIORITY_MAX: u8 = 10;

/// Lowest user-facing priority level.
pub const PRIORITY_MIN: u8 = 0;

/// Order of the quest list.
#[derive(Debug, Clone, Copy, PartialEq, Eq, Structural, Default)]
pub enum SortMode {
    /// Priority descending, then quest id.
    #[default]
    Priority,
    /// Derived status rank ascending, then quest id.
    Status,
    /// First observation, newest first; quests never observed last; then quest id.
    CreatedAt,
}

impl SortMode {
    /// The mode after this one in the cycle Priority, Status, CreatedAt.
    pub fn next(self) -> (r: SortMode)
        ensures
            r == next_mode(self),
    {
        match self {
            SortMode::Priority => SortMode::Status,
            SortMode::Status => SortMode::CreatedAt,
            SortMode::CreatedAt => SortMode::Priority,
        }
    }

    /// The name shown in the panel title.
    pub fn label(self) -> (r: &'static str)
        ensures
            r@ == mode_label(self),
    {
        proof {
            reveal_strlit("Priority");
            reveal_strlit("Status");
            reveal_strlit("CreatedAt");
        }
        match self {
            SortMode::Priority => "Priority",
            SortMode::Status => "Status",
            SortMode::CreatedAt => "CreatedAt",
        }
    }
}

/// The cycle of sort modes.
pub open spec fn next_mode(m: SortMode) -> SortMode {
    match m {
        SortMode::Priority => SortMode::Status,
        SortMode::Status => SortMode::CreatedAt,
        SortMode::CreatedAt => SortMode::Priority,
    }
}

/// Name of a sort mode.
pub open spec fn mode_label(m: SortMode) -> Seq<char> {
    match m {
        SortMode::Priority => "Priority"@,
        SortMode::Status => "Status"@,
        SortMode::CreatedAt => "CreatedAt"@,
    }
}

/// Three steps of the cycle come back to the start.
pub proof fn lemma_sort_mode_cycle(m: SortMode)
    ensures
        next_mode(next_mode(next_mode(m))) == m,
        next_mode(m) != m,
{
}

/// User-facing level of an internal priority: `internal / 25`, at most 10.
pub open spec fn user_priority_spec(internal: u8) -> u8 {
    if internal / 25 > PRIORITY_MAX {
        PRIORITY_MAX
    } else {
        (internal / 25) as u8
    }
}

/// Maps an internal priority (0-255) to the user-facing level (0-10).
pub fn user_priority_from_internal(internal: u8) -> (r: u8)
    ensures
        r == user_priority_spec(internal),
        r <= PRIORITY_MAX,
{
    let level = internal / 25;
    if level > PRIORITY_MAX {
        PRIORITY_MAX
    } else {
        level
    }
}

/// A level stored as `level * 25` reads back as the same level.
pub proof fn lemma_priority_roundtrip(level: u8)
    requires
        level <= PRIORITY_MAX,
    ensures
        user_priority_spec((level * 25) as u8) == level,
{
}

/// Whether some task has status `s`.
pub open spec fn any_status(tasks: Seq<TaskView>, s: TaskStatus) -> bool {
    exists|i: int| 0 <= i < tasks.len() && tasks[i].status == s
}

/// Whether every task has status `s`.
pub open spec fn all_status(tasks: Seq<TaskView>, s: TaskStatus) -> bool {
    forall|i: int| 0 <= i < tasks.len() ==> tasks[i].status == s
}

/// Status rank of a quest: 0 running (or failed), 1 pending (no tasks, or
/// mixed), 3 completed (every task completed).
pub open spec fn status_rank(tasks: Seq<TaskView>) -> u8 {
    if tasks.len() == 0 {
        1
    } else if any_status(tasks, TaskStatus::Running) || any_status(tasks, TaskStatus::Failed) {
        0
    } else if all_status(tasks, TaskStatus::Completed) {
        3
    } else {
        1
    }
}

fn has_status(tasks: &Vec<TaskView>, s: TaskStatus) -> (r: bool)
    ensures
        r == any_status(tasks@, s),
{
    let mut i: usize = 0;
    while i < tasks.len()
        invariant
            i <= tasks@.len(),
            forall|j: int| 0 <= j < i ==> tasks@[j].status != s,
        decreases tasks@.len() - i,
    {
        if tasks[i].status == s {
            return true;
        }
        i = i + 1;
    }
    false
}

fn all_have_status(tasks: &Vec<TaskView>, s: TaskStatus) -> (r: bool)
    ensures
        r == all_status(tasks@, s),
{
    let mut i: usize = 0;
    while i < tasks.len()
        invariant
            i <= tasks@.len(),
            forall|j: int| 0 <= j < i ==> tasks@[j].status == s,
        decreases tasks@.len() - i,
    {
        if tasks[i].status != s {
            return false;
        }
        i = i + 1;
    }
    true
}

/// The status rank of a quest.
pub fn status_rank_of(quest: &QuestView) -> (r: u8)
    ensures
        r == status_rank(quest.tasks@),
{
    if quest.tasks.len() == 0 {
        return 1;
    }
    if has_status(&quest.tasks, TaskStatus::Running) {
        return 0;
    }
    if has_status(&quest.tasks, TaskStatus::Failed) {
        return 0;
    }
    if all_have_status(&quest.tasks, TaskStatus::Completed) {
        return 3;
    }
    1
}

/// Number of quests among the first `n` whose status rank is `rank`.
pub open spec fn count_rank(quests: Seq<QuestView>, n: int, rank: u8) -> nat
    decreases n,
{
    if n <= 0 {
        0
    } else {
        count_rank(quests, n - 1, rank) + if status_rank(quests[n - 1].tasks@) == rank {
            1nat
        } else {
            0nat
        }
    }
}

proof fn lemma_count_rank_bound(quests: Seq<QuestView>, n: int, rank: u8)
    requires
        0 <= n,
    ensures
        count_rank(quests, n, rank) <= n,
    decreases n,
{
    if n > 0 {
        lemma_count_rank_bound(quests, n - 1, rank);
    }
}

/// Quest counts `(pending, running, paused, completed)`: pending are the quests
/// without tasks or with a mix of pending and completed tasks, running those with
/// a running or failed task, completed those whose tasks all completed; paused is
/// handed in as counted by the application.
pub fn compute_status_counts(quests: &Vec<QuestView>, paused_quest_count: usize) -> (r: (
    usize,
    usize,
    usize,
    usize,
))
    ensures
        r.0 == count_rank(quests@, quests@.len() as int, 1),
        r.1 == count_rank(quests@, quests@.len() as int, 0),
        r.2 == paused_quest_count,
        r.3 == count_rank(quests@, quests@.len() as int, 3),
{
    let mut pending: usize = 0;
    let mut running: usize = 0;
    let mut completed: usize = 0;
    let mut i: usize = 0;
    while i < quests.len()
        invariant
            i <= quests@.len(),
            pending == count_rank(quests@, i as int, 1),
            running == count_rank(quests@, i as int, 0),
            completed == count_rank(quests@, i as int, 3),
        decreases quests@.len() - i,
    {
        proof {
            lemma_count_rank_bound(quests@, i as int, 1);
            lemma_count_rank_bound(quests@, i as int, 0);
            lemma_count_rank_bound(quests@, i as int, 3);
        }
        let rank = status_rank_of(&quests[i]);
        if rank == 1 {
            pending = pending + 1;
        } else if rank == 0 {
            running = running + 1;
        } else if rank == 3 {
            completed = completed + 1;
        }
        i = i + 1;
    }
    (pending, running, paused_quest_count, completed)
}

/// Every quest is counted exactly once among pending, running and completed.
pub proof fn lemma_status_counts_partition(quests: Seq<QuestView>, n: int)
    requires
        0 <= n,
    ensures
        count_rank(quests, n, 1) + count_rank(quests, n, 0) + count_rank(quests, n, 3) == n,
    decreases n,
{
    if n > 0 {
        lemma_status_counts_partition(quests, n - 1);
    }
}

/// What the status rank of a quest is, case by case: a quest with a running
/// or a failed task ranks 0 (running); otherwise one whose tasks all
/// completed ranks 3 (completed); otherwise, and without tasks, it ranks 1
/// (pending).
pub proof fn lemma_status_rank_cases(tasks: Seq<TaskView>)
    ensures
        (exists|i: int| 0 <= i < tasks.len() && #[trigger] tasks[i].status == TaskStatus::Failed) ==> status_rank(
            tasks,
        ) == 0,
        (exists|i: int| 0 <= i < tasks.len() && #[trigger] tasks[i].status == TaskStatus::Running) ==> status_rank(
            tasks,
        ) == 0,
        tasks.len() == 0 ==> status_rank(tasks) == 1,
        (tasks.len() > 0 && forall|i: int| 0 <= i < tasks.len() ==> #[trigger] tasks[i].status
            == TaskStatus::Completed) ==> status_rank(tasks) == 3,
        ((forall|i: int|
            0 <= i < tasks.len() ==> #[trigger] tasks[i].status != TaskStatus::Running && tasks[i].status
                != TaskStatus::Failed) && (exists|i: int| 0 <= i < tasks.len() && #[trigger] tasks[i].status
            != TaskStatus::Completed)) ==> status_rank(tasks) == 1,
{
}

/// Counting one more quest that has a failed task adds one to the running
/// count and leaves the pending and completed counts as they were.
pub proof fn lemma_failed_quest_counts_as_running(quests: Seq<QuestView>, n: int, i: int)
    requires
        0 <= n,
        0 <= i < quests[n].tasks@.len(),
        quests[n].tasks@[i].status == TaskStatus::Failed,
    ensures
        count_rank(quests, n + 1, 0) == count_rank(quests, n, 0) + 1,
        count_rank(quests, n + 1, 1) == count_rank(quests, n, 1),
        count_rank(quests, n + 1, 3) == count_rank(quests, n, 3),
{
    assert(any_status(quests[n].tasks@, TaskStatus::Failed));
}

/// Lexicographic order on character sequences (code point by code point), the
/// order of `String` comparison.
pub open spec fn seq_lt(a: Seq<char>, b: Seq<char>) -> bool
    decreases a.len(),
{
    if a.len() == 0 {
        b.len() > 0
    } else if b.len() == 0 {
        false
    } else if a[0] != b[0] {
        (a[0] as int) < (b[0] as int)
    } else {
        seq_lt(a.drop_first(), b.drop_first())
    }
}

/// Strict order on sort keys: major, then minor, then id.
pub open spec fn key_lt(a: (int, int, Seq<char>), b: (int, int, Seq<char>)) -> bool {
    a.0 < b.0 || (a.0 == b.0 && (a.1 < b.1 || (a.1 == b.1 && seq_lt(a.2, b.2))))
}

/// First observation time recorded for `id`, if any.
pub open spec fn lookup_created(created: Seq<(Seq<char>, i64)>, id: Seq<char>) -> Option<i64>
    decreases created.len(),
{
    if created.len() == 0 {
        None
    } else {
        match lookup_created(created.drop_last(), id) {
            Some(t) => Some(t),
            None => if created.last().0 == id {
                Some(created.last().1)
            } else {
                None
            },
        }
    }
}

/// Sort key of a quest under `mode`.
pub open spec fn quest_key(q: QuestView, mode: SortMode, created: Seq<(Seq<char>, i64)>) -> (
    int,
    int,
    Seq<char>,
) {
    match mode {
        SortMode::Priority => (-(q.priority as int), 0, q.quest_id@),
        SortMode::Status => (status_rank(q.tasks@) as int, 0, q.quest_id@),
        SortMode::CreatedAt => match lookup_created(created, q.quest_id@) {
            Some(t) => (0, -(t as int), q.quest_id@),
            None => (1, 0, q.quest_id@),
        },
    }
}

/// Sort keys of all quests.
pub open spec fn quest_keys(quests: Seq<QuestView>, mode: SortMode, created: Seq<(Seq<char>, i64)>) -> Seq<
    (int, int, Seq<char>),
> {
    Seq::new(quests.len(), |i: int| quest_key(quests[i], mode, created))
}

/// First position `q` of `order` at or after `q` whose key is above that of `x`.
pub open spec fn first_above(keys: Seq<(int, int, Seq<char>)>, order: Seq<int>, x: int, q: int) -> int
    decreases order.len() - q,
{
    if q < 0 || q >= order.len() {
        order.len() as int
    } else if key_lt(keys[x], keys[order[q]]) {
        q
    } else {
        first_above(keys, order, x, q + 1)
    }
}

/// Stable sort of positions `0..n` by key: each position is inserted before
/// the first one with a greater key, so equal keys keep their input order.
pub open spec fn sort_spec(keys: Seq<(int, int, Seq<char>)>, n: nat) -> Seq<int>
    decreases n,
{
    if n == 0 {
        Seq::empty()
    } else {
        let s = sort_spec(keys, (n - 1) as nat);
        s.insert(first_above(keys, s, n - 1, 0), n - 1)
    }
}

proof fn lemma_first_above_range(keys: Seq<(int, int, Seq<char>)>, order: Seq<int>, x: int, q: int)
    requires
        0 <= q <= order.len(),
    ensures
        q <= first_above(keys, order, x, q) <= order.len(),
    decreases order.len() - q,
{
    if q < order.len() {
        lemma_first_above_range(keys, order, x, q + 1);
    }
}

/// The sorted order has `n` entries, each a position below `n`.
pub(crate) proof fn lemma_sort_spec_range(keys: Seq<(int, int, Seq<char>)>, n: nat)
    ensures
        sort_spec(keys, n).len() == n,
        forall|q: int| 0 <= q < n ==> 0 <= #[trigger] sort_spec(keys, n)[q] < n,
    decreases n,
{
    if n > 0 {
        let s = sort_spec(keys, (n - 1) as nat);
        lemma_sort_spec_range(keys, (n - 1) as nat);
        lemma_first_above_range(keys, s, n - 1, 0);
        let p = first_above(keys, s, n - 1, 0);
        assert forall|q: int| 0 <= q < n implies 0 <= #[trigger] sort_spec(keys, n)[q] < n by {
            if q < p {
                assert(sort_spec(keys, n)[q] == s[q]);
            } else if q > p {
                assert(sort_spec(keys, n)[q] == s[q - 1]);
            }
        }
    }
}

proof fn lemma_seq_lt_trans(a: Seq<char>, b: Seq<char>, c: Seq<char>)
    requires
        seq_lt(a, b),
        seq_lt(b, c),
    ensures
        seq_lt(a, c),
    decreases a.len(),
{
    if a.len() > 0 && b.len() > 0 && c.len() > 0 && a[0] == b[0] && b[0] == c[0] {
        lemma_seq_lt_trans(a.drop_first(), b.drop_first(), c.drop_first());
    }
}

proof fn lemma_seq_lt_total(a: Seq<char>, b: Seq<char>)
    ensures
        seq_lt(a, b) || seq_lt(b, a) || a == b,
    decreases a.len(),
{
    if a.len() > 0 && b.len() > 0 {
        if a[0] == b[0] {
            lemma_seq_lt_total(a.drop_first(), b.drop_first());
            if a.drop_first() == b.drop_first() {
                assert(a =~= seq![a[0]] + a.drop_first());
                assert(b =~= seq![b[0]] + b.drop_first());
            }
        }
    } else if a.len() == 0 && b.len() == 0 {
        assert(a =~= b);
    }
}

/// Position `x` comes before position `y` in the stable order: by key, ties by position.
pub open spec fn stable_before(keys: Seq<(int, int, Seq<char>)>, x: int, y: int) -> bool {
    key_lt(keys[x], keys[y]) || (keys[x] == keys[y] && x < y)
}

proof fn lemma_key_lt_trans(a: (int, int, Seq<char>), b: (int, int, Seq<char>), c: (int, int, Seq<char>))
    requires
        key_lt(a, b),
        key_lt(b, c),
    ensures
        key_lt(a, c),
{
    if a.0 == b.0 && b.0 == c.0 && a.1 == b.1 && b.1 == c.1 {
        lemma_seq_lt_trans(a.2, b.2, c.2);
    }
}

proof fn lemma_key_lt_total(a: (int, int, Seq<char>), b: (int, int, Seq<char>))
    ensures
        key_lt(a, b) || key_lt(b, a) || a == b,
{
    lemma_seq_lt_total(a.2, b.2);
}

proof fn lemma_first_above_props(keys: Seq<(int, int, Seq<char>)>, order: Seq<int>, x: int, q: int)
    requires
        0 <= q <= order.len(),
    ensures
        forall|t: int| q <= t < first_above(keys, order, x, q) ==> !key_lt(keys[x], keys[order[t]]),
        first_above(keys, order, x, q) < order.len() ==> key_lt(
            keys[x],
            keys[order[first_above(keys, order, x, q)]],
        ),
    decreases order.len() - q,
{
    if q < order.len() {
        lemma_first_above_props(keys, order, x, q + 1);
    }
}

/// The stable sort of positions `0..n` lists each position once, ordered by
/// key with ties in position order.
pub proof fn lemma_sort_spec_stable(keys: Seq<(int, int, Seq<char>)>, n: nat)
    requires
        n <= keys.len(),
    ensures
        sort_spec(keys, n).len() == n,
        forall|j: int| 0 <= j < n ==> sort_spec(keys, n).contains(j),
        forall|p: int, q: int|
            0 <= p < q < n ==> stable_before(keys, #[trigger] sort_spec(keys, n)[p], #[trigger] sort_spec(keys, n)[q]),
    decreases n,
{
    lemma_sort_spec_range(keys, n);
    if n > 0 {
        let m = (n - 1) as nat;
        let s = sort_spec(keys, m);
        lemma_sort_spec_stable(keys, m);
        lemma_sort_spec_range(keys, m);
        let x = n - 1;
        lemma_first_above_range(keys, s, x, 0);
        lemma_first_above_props(keys, s, x, 0);
        let p = first_above(keys, s, x, 0);
        let s2 = sort_spec(keys, n);
        assert(s2 == s.insert(p, x));
        assert forall|j: int| 0 <= j < n implies s2.contains(j) by {
            if j == x {
                assert(s2[p] == x);
            } else {
                assert(s.contains(j));
                let t = choose|t: int| 0 <= t < s.len() && s[t] == j;
                if t < p {
                    assert(s2[t] == j);
                } else {
                    assert(s2[t + 1] == j);
                }
            }
        }
        assert forall|a: int, b: int| 0 <= a < b < n implies stable_before(keys, #[trigger] s2[a], #[trigger] s2[b]) by {
            if b < p {
                assert(s2[a] == s[a] && s2[b] == s[b]);
            } else if a > p {
                assert(s2[a] == s[a - 1] && s2[b] == s[b - 1]);
            } else if a < p && b > p {
                assert(s2[a] == s[a] && s2[b] == s[b - 1]);
            } else if a < p && b == p {
                assert(s2[a] == s[a] && s2[b] == x);
                assert(!key_lt(keys[x], keys[s[a]]));
                lemma_key_lt_total(keys[x], keys[s[a]]);
                assert(s[a] < x);
            } else {
                assert(a == p && b > p);
                assert(s2[a] == x && s2[b] == s[b - 1]);
                assert(key_lt(keys[x], keys[s[p]]));
                if b - 1 > p {
                    assert(stable_before(keys, s[p], s[b - 1]));
                    if key_lt(keys[s[p]], keys[s[b - 1]]) {
                        lemma_key_lt_trans(keys[x], keys[s[p]], keys[s[b - 1]]);
                    }
                }
            }
        }
    }
}

/// Sort key in executable form.
pub struct SortKey {
    pub major: i64,
    pub minor: i128,
    pub id: Vec<char>,
}

/// The spec key of a `SortKey`.
pub open spec fn key_view(k: SortKey) -> (int, int, Seq<char>) {
    (k.major as int, k.minor as int, k.id@)
}

/// The spec keys of a vector of `SortKey`s.
pub open spec fn key_views(v: Seq<SortKey>) -> Seq<(int, int, Seq<char>)> {
    v.map_values(|k: SortKey| key_view(k))
}

/// Whether `a` comes strictly before `b` in lexicographic order.
fn chars_lt(a: &Vec<char>, b: &Vec<char>) -> (r: bool)
    ensures
        r == seq_lt(a@, b@),
{
    let mut i: usize = 0;
    proof {
        assert(a@.skip(0) =~= a@);
        assert(b@.skip(0) =~= b@);
    }
    while i < a.len() && i < b.len()
        invariant
            i <= a@.len(),
            i <= b@.len(),
            seq_lt(a@, b@) == seq_lt(a@.skip(i as int), b@.skip(i as int)),
        decreases a@.len() - i,
    {
        if a[i] != b[i] {
            proof {
                assert(a@.skip(i as int)[0] == a@[i as int]);
                assert(b@.skip(i as int)[0] == b@[i as int]);
            }
            return a[i] < b[i];
        }
        proof {
            assert(a@.skip(i as int).drop_first() =~= a@.skip(i + 1));
            assert(b@.skip(i as int).drop_first() =~= b@.skip(i + 1));
        }
        i = i + 1;
    }
    proof {
        assert(a@.skip(i as int).len() == a@.len() - i);
        assert(b@.skip(i as int).len() == b@.len() - i);
    }
    i == a.len() && i < b.len()
}

/// Whether key `a` comes strictly before key `b`.
fn sort_key_lt(a: &SortKey, b: &SortKey) -> (r: bool)
    ensures
        r == key_lt(key_view(*a), key_view(*b)),
{
    if a.major != b.major {
        return a.major < b.major;
    }
    if a.minor != b.minor {
        return a.minor < b.minor;
    }
    chars_lt(&a.id, &b.id)
}

/// Position of the first entry keyed `id` in the observation index.
fn find_created(created: &Vec<(String, i64)>, id: &String) -> (r: Option<usize>)
    ensures
        match r {
            Some(j) => j < created@.len() && created@[j as int].0@ == id@ && lookup_created(
                created_views(created@),
                id@,
            ) == Some(created@[j as int].1) && forall|i: int|
                0 <= i < j ==> (#[trigger] created@[i]).0@ != id@,
            None => lookup_created(created_views(created@), id@) is None,
        },
{
    let ghost cv = created_views(created@);
    let mut j: usize = 0;
    while j < created.len()
        invariant
            j <= created@.len(),
            cv == created_views(created@),
            lookup_created(cv.take(j as int), id@) is None,
            forall|i: int| 0 <= i < j ==> (#[trigger] created@[i]).0@ != id@,
        decreases created@.len() - j,
    {
        proof {
            assert(cv.take(j + 1).drop_last() =~= cv.take(j as int));
        }
        if created[j].0 == *id {
            proof {
                assert(cv[j as int] == (created@[j as int].0@, created@[j as int].1));
                assert(cv.take(j + 1).last() == cv[j as int]);
                assert(lookup_created(cv.take(j + 1), id@) == Some(created@[j as int].1));
                lemma_lookup_prefix(cv, j + 1, id@);
            }
            return Some(j);
        }
        j = j + 1;
    }
    proof {
        assert(cv.take(created@.len() as int) =~= cv);
    }
    None
}

/// The observation index by view.
pub open spec fn created_views(v: Seq<(String, i64)>) -> Seq<(Seq<char>, i64)> {
    v.map_values(|e: (String, i64)| (e.0@, e.1))
}

/// A hit in a prefix is the hit in the whole index.
proof fn lemma_lookup_prefix(cv: Seq<(Seq<char>, i64)>, n: int, id: Seq<char>)
    requires
        0 <= n <= cv.len(),
        lookup_created(cv.take(n), id) is Some,
    ensures
        lookup_created(cv, id) == lookup_created(cv.take(n), id),
    decreases cv.len() - n,
{
    if n < cv.len() {
        assert(cv.take(n + 1).drop_last() =~= cv.take(n));
        lemma_lookup_prefix(cv, n + 1, id);
    } else {
        assert(cv.take(n) =~= cv);
    }
}

/// The sort key of `q` under `mode`.
fn make_key(q: &QuestView, mode: SortMode, created: &Vec<(String, i64)>) -> (r: SortKey)
    ensures
        key_view(r) == quest_key(*q, mode, created_views(created@)),
{
    let id = chars_of(q.quest_id.as_str());
    match mode {
        SortMode::Priority => SortKey { major: -(q.priority as i64), minor: 0, id },
        SortMode::Status => SortKey { major: status_rank_of(q) as i64, minor: 0, id },
        SortMode::CreatedAt => match find_created(created, &q.quest_id) {
            Some(j) => SortKey { major: 0, minor: -(created[j].1 as i128), id },
            None => SortKey { major: 1, minor: 0, id },
        },
    }
}

/// The stable sort order of `keys`.
pub(crate) fn sort_order(keys: &Vec<SortKey>) -> (r: Vec<usize>)
    ensures
        r@.len() == keys@.len(),
        forall|q: int| 0 <= q < r@.len() ==> (#[trigger] r@[q]) as int == sort_spec(key_views(keys@), keys@.len())[q],
{
    let ghost kv = key_views(keys@);
    let n = keys.len();
    let mut order: Vec<usize> = Vec::new();
    let mut i: usize = 0;
    while i < n
        invariant
            n == keys@.len(),
            kv == key_views(keys@),
            i <= n,
            order@.len() == i,
            forall|q: int| 0 <= q < i ==> (#[trigger] order@[q]) as int == sort_spec(kv, i as nat)[q],
        decreases n - i,
    {
        let ghost s = sort_spec(kv, i as nat);
        proof {
            lemma_sort_spec_range(kv, i as nat);
        }
        let mut p: usize = 0;
        while p < order.len()
            invariant
                n == keys@.len(),
                kv == key_views(keys@),
                i < n,
                order@.len() == i,
                s == sort_spec(kv, i as nat),
                s.len() == i,
                forall|q: int| 0 <= q < i ==> 0 <= #[trigger] s[q] < i,
                forall|q: int| 0 <= q < i ==> (#[trigger] order@[q]) as int == s[q],
                p <= i,
                first_above(kv, s, i as int, 0) == first_above(kv, s, i as int, p as int),
            ensures
                p <= i,
                first_above(kv, s, i as int, 0) == first_above(kv, s, i as int, p as int),
                p < i ==> key_lt(kv[i as int], kv[s[p as int]]),
            decreases i - p,
        {
            if sort_key_lt(&keys[i], &keys[order[p]]) {
                break;
            }
            p = p + 1;
        }
        proof {
            lemma_first_above_range(kv, s, i as int, p as int);
        }
        let ghost before = order@;
        order.insert(p, i);
        proof {
            assert(first_above(kv, s, i as int, 0) == p as int);
            let s2 = sort_spec(kv, (i + 1) as nat);
            assert(s2 == s.insert(p as int, i as int));
            assert forall|q: int| 0 <= q < i + 1 implies (#[trigger] order@[q]) as int == s2[q] by {
                if q < p {
                    assert(order@[q] == before[q]);
                } else if q > p {
                    assert(order@[q] == before[q - 1]);
                }
            }
        }
        i = i + 1;
    }
    order
}

/// Whether a quest passes the keyword filter: an empty keyword passes every
/// quest; otherwise the lower-cased keyword must occur in the lower-cased id or title.
pub open spec fn keyword_match(q: QuestView, kw: Seq<char>) -> bool {
    kw.len() == 0 || contains_seq(lowercase(q.quest_id@), lowercase(kw)) || contains_seq(
        lowercase(q.title@),
        lowercase(kw),
    )
}

/// The entries of `order` whose quest passes the keyword filter, in order.
pub open spec fn keep_matching(order: Seq<int>, quests: Seq<QuestView>, kw: Seq<char>) -> Seq<int>
    decreases order.len(),
{
    if order.len() == 0 {
        Seq::empty()
    } else {
        let r = keep_matching(order.drop_last(), quests, kw);
        if keyword_match(quests[order.last()], kw) {
            r.push(order.last())
        } else {
            r
        }
    }
}

/// Positions of the quests in sorted order.
pub open spec fn sorted_spec(quests: Seq<QuestView>, mode: SortMode, created: Seq<(Seq<char>, i64)>) -> Seq<int> {
    sort_spec(quest_keys(quests, mode, created), quests.len())
}

/// Positions of the quests the panel lists: sorted, then filtered.
pub open spec fn visible_spec(
    quests: Seq<QuestView>,
    mode: SortMode,
    created: Seq<(Seq<char>, i64)>,
    kw: Seq<char>,
) -> Seq<int> {
    keep_matching(sorted_spec(quests, mode, created), quests, kw)
}

/// The positions of a vector by value.
pub open spec fn positions(v: Seq<usize>) -> Seq<int> {
    v.map_values(|x: usize| x as int)
}

/// Quest positions in sorted order under `mode`.
fn sorted_positions(quests: &Vec<QuestView>, mode: SortMode, created: &Vec<(String, i64)>) -> (r: Vec<usize>)
    ensures
        positions(r@) == sorted_spec(quests@, mode, created_views(created@)),
        forall|q: int| 0 <= q < r@.len() ==> (#[trigger] r@[q]) < quests@.len(),
{
    let ghost cv = created_views(created@);
    let mut keys: Vec<SortKey> = Vec::new();
    let mut i: usize = 0;
    while i < quests.len()
        invariant
            i <= quests@.len(),
            cv == created_views(created@),
            keys@.len() == i,
            forall|t: int| 0 <= t < i ==> key_view(#[trigger] keys@[t]) == quest_key(quests@[t], mode, cv),
        decreases quests@.len() - i,
    {
        let k = make_key(&quests[i], mode, created);
        keys.push(k);
        i = i + 1;
    }
    proof {
        assert(key_views(keys@) =~= quest_keys(quests@, mode, cv));
    }
    let r = sort_order(&keys);
    proof {
        lemma_sort_spec_range(quest_keys(quests@, mode, cv), quests@.len());
        assert(positions(r@) =~= sorted_spec(quests@, mode, cv));
        assert forall|q: int| 0 <= q < r@.len() implies (#[trigger] r@[q]) < quests@.len() by {
            assert(positions(r@)[q] == r@[q] as int);
        }
    }
    r
}

/// Quest positions the panel lists under `mode` and keyword `kw`.
fn visible_positions(
    quests: &Vec<QuestView>,
    mode: SortMode,
    created: &Vec<(String, i64)>,
    kw: &String,
) -> (r: Vec<usize>)
    ensures
        positions(r@) == visible_spec(quests@, mode, created_views(created@), kw@),
        forall|q: int| 0 <= q < r@.len() ==> (#[trigger] r@[q]) < quests@.len(),
{
    let order = sorted_positions(quests, mode, created);
    let ghost all = positions(order@);
    if kw.as_str().is_empty() {
        proof {
            assert forall|m: int| 0 <= m <= all.len() implies keep_matching(all.take(m), quests@, kw@) == all.take(m) by {
                lemma_keep_all(all, quests@, kw@, m);
            }
            assert(all.take(all.len() as int) =~= all);
        }
        return order;
    }
    let lk = to_lowercase(kw.as_str());
    let needle = chars_of(lk.as_str());
    let mut r: Vec<usize> = Vec::new();
    let mut t: usize = 0;
    while t < order.len()
        invariant
            t <= order@.len(),
            all == positions(order@),
            kw@.len() > 0,
            needle@ == lowercase(kw@),
            forall|q: int| 0 <= q < order@.len() ==> (#[trigger] order@[q]) < quests@.len(),
            positions(r@) == keep_matching(all.take(t as int), quests@, kw@),
            forall|q: int| 0 <= q < r@.len() ==> (#[trigger] r@[q]) < quests@.len(),
        decreases order@.len() - t,
    {
        let p = order[t];
        let q = &quests[p];
        let lid = to_lowercase(q.quest_id.as_str());
        let ltitle = to_lowercase(q.title.as_str());
        let hit = chars_contain(&chars_of(lid.as_str()), &needle) || chars_contain(
            &chars_of(ltitle.as_str()),
            &needle,
        );
        proof {
            assert(all.take(t + 1).drop_last() =~= all.take(t as int));
            assert(all.take(t + 1).last() == p as int);
        }
        if hit {
            r.push(p);
            proof {
                assert(positions(r@) =~= positions(r@.drop_last()).push(p as int));
            }
        }
        t = t + 1;
    }
    proof {
        assert(all.take(order@.len() as int) =~= all);
    }
    r
}

proof fn lemma_keep_all(order: Seq<int>, quests: Seq<QuestView>, kw: Seq<char>, m: int)
    requires
        kw.len() == 0,
        0 <= m <= order.len(),
    ensures
        keep_matching(order.take(m), quests, kw) == order.take(m),
    decreases m,
{
    if m > 0 {
        lemma_keep_all(order, quests, kw, m - 1);
        assert(order.take(m).drop_last() =~= order.take(m - 1));
        assert(order.take(m - 1).push(order.take(m).last()) =~= order.take(m));
    }
}

/// Whether `v` is strictly increasing.
pub open spec fn strictly_increasing(v: Seq<usize>) -> bool {
    forall|a: int, b: int| 0 <= a < b < v.len() ==> (#[trigger] v[a]) < (#[trigger] v[b])
}

/// The marks after toggling `idx`.
pub open spec fn toggled_marks(marks: Set<usize>, idx: usize) -> Set<usize> {
    if marks.contains(idx) {
        marks.remove(idx)
    } else {
        marks.insert(idx)
    }
}

/// Ids of the marked rows that exist in the listed quests, in ascending row order.
pub open spec fn batch_ids(quests: Seq<QuestView>, fl: Seq<int>, marks: Seq<usize>) -> Seq<Seq<char>>
    decreases marks.len(),
{
    if marks.len() == 0 {
        Seq::empty()
    } else {
        let r = batch_ids(quests, fl, marks.drop_last());
        if marks.last() < fl.len() {
            r.push(quests[fl[marks.last() as int]].quest_id@)
        } else {
            r
        }
    }
}

/// A control command on the quest at row `sel` of the list, or nothing when
/// the row does not exist.
pub open spec fn single_cmd(
    r: Option<TuiCommand>,
    quests: Seq<QuestView>,
    fl: Seq<int>,
    sel: int,
    action: QuestAction,
) -> bool {
    if 0 <= sel < fl.len() {
        r matches Some(TuiCommand::QuestControl { id, action: a }) && id@ == quests[fl[sel]].quest_id@
            && a == action
    } else {
        r is None
    }
}

/// With marks, a confirmation popup for the marked quests (nothing when none of
/// the marked rows exists); without marks, the single command on row `sel`.
pub open spec fn batch_cmd(
    r: Option<TuiCommand>,
    quests: Seq<QuestView>,
    fl: Seq<int>,
    marks: Seq<usize>,
    sel: int,
    verb: Seq<char>,
    action: QuestAction,
) -> bool {
    if marks.len() > 0 {
        let ids = batch_ids(quests, fl, marks);
        let joined = crate::text::join(ids, ","@);
        if ids.len() == 0 {
            r is None
        } else {
            r matches Some(TuiCommand::OpenPopup(PopupKind::Confirm { prompt, on_confirm, confirmed }))
                && prompt@ == "Batch "@ + verb + " "@ + dec(ids.len()) + " quests"@ + " "@ + joined
                + "?"@ && on_confirm@ == "batch_"@ + verb + ":"@ + joined && confirmed
        }
    } else {
        single_cmd(r, quests, fl, sel, action)
    }
}

/// A priority change of the quest at row `sel` by `step` user levels, when the
/// row exists and the new level stays within `0..=10`.
pub open spec fn priority_cmd(
    r: Option<TuiCommand>,
    quests: Seq<QuestView>,
    fl: Seq<int>,
    sel: int,
    step: int,
) -> bool {
    if 0 <= sel < fl.len() {
        let level = user_priority_spec(quests[fl[sel]].priority) + step;
        if PRIORITY_MIN <= level <= PRIORITY_MAX {
            r matches Some(TuiCommand::QuestControl { id, action: QuestAction::SetPriority(p) })
                && id@ == quests[fl[sel]].quest_id@ && p == level
        } else {
            r is None
        }
    } else {
        r is None
    }
}

/// Text of the detail popup of a quest.
pub open spec fn quest_detail_spec(q: QuestView) -> Seq<char> {
    "Title: "@ + q.title@ + "\nID: "@ + q.quest_id@ + "\nPriority: "@ + dec(q.priority as nat)
        + "\nTasks: "@ + dec(q.tasks@.len()) + "\nMode: "@ + q.thinking_mode@
}

/// The detail popup of the quest at row `sel`, or nothing.
pub open spec fn detail_cmd(r: Option<TuiCommand>, quests: Seq<QuestView>, fl: Seq<int>, sel: int) -> bool {
    if 0 <= sel < fl.len() {
        r matches Some(TuiCommand::OpenPopup(PopupKind::Detail { title, content, scroll })) && title@
            == "Task: "@ + quests[fl[sel]].title@ && content@ == quest_detail_spec(quests[fl[sel]])
            && scroll == 0
    } else {
        r is None
    }
}

/// Builds the detail popup text of a quest.
pub fn quest_detail_content(q: &QuestView) -> (r: String)
    ensures
        r@ == quest_detail_spec(*q),
{
    let mut out = string_of("Title: ");
    push_str(&mut out, q.title.as_str());
    push_str(&mut out, "\nID: ");
    push_str(&mut out, q.quest_id.as_str());
    push_str(&mut out, "\nPriority: ");
    push_u64(&mut out, q.priority as u64);
    push_str(&mut out, "\nTasks: ");
    push_u64(&mut out, q.tasks.len() as u64);
    push_str(&mut out, "\nMode: ");
    push_str(&mut out, q.thinking_mode.as_str());
    out
}

/// Task manager panel state: cursor, scroll, marked rows, sort mode, first
/// observation times, keyword filter and whether the keyword is being typed.
#[derive(Debug)]
pub struct TaskManagerPanel {
    selected: usize,
    scroll_offset: usize,
    /// Marked rows, strictly increasing.
    selected_indices: Vec<usize>,
    sort_mode: SortMode,
    /// First observation time in milliseconds since the epoch, by quest id.
    created_at_index: Vec<(String, i64)>,
    filter_keyword: String,
    is_searching: bool,
}

impl TaskManagerPanel {
    /// Marked rows are kept strictly increasing.
    #[verifier::type_invariant]
    spec fn marks_sorted(self) -> bool {
        strictly_increasing(self.selected_indices@)
    }

    /// The cursor row.
    pub closed spec fn sel(self) -> usize {
        self.selected
    }

    /// The scroll offset.
    pub closed spec fn scroll_spec(self) -> usize {
        self.scroll_offset
    }

    /// The marked rows, ascending.
    pub closed spec fn marks(self) -> Seq<usize> {
        self.selected_indices@
    }

    /// The sort mode.
    pub closed spec fn mode(self) -> SortMode {
        self.sort_mode
    }

    /// The first observation times by quest id.
    pub closed spec fn created(self) -> Seq<(Seq<char>, i64)> {
        created_views(self.created_at_index@)
    }

    /// The keyword filter.
    pub closed spec fn keyword(self) -> Seq<char> {
        self.filter_keyword@
    }

    /// Whether the keyword is being typed.
    pub closed spec fn searching(self) -> bool {
        self.is_searching
    }

    /// The positions of the quests the panel lists.
    pub open spec fn listed(self, quests: Seq<QuestView>) -> Seq<int> {
        visible_spec(quests, self.mode(), self.created(), self.keyword())
    }

    /// A panel with nothing marked, sorting by priority.
    pub fn new() -> (r: Self)
        ensures
            r.sel() == 0,
            r.scroll_spec() == 0,
            r.marks() == Seq::<usize>::empty(),
            r.mode() == SortMode::Priority,
            r.created() == Seq::<(Seq<char>, i64)>::empty(),
            r.keyword() == Seq::<char>::empty(),
            !r.searching(),
    {
        Self::with_sort_mode(SortMode::Priority)
    }

    /// A panel with nothing marked, sorting by `mode`.
    pub fn with_sort_mode(mode: SortMode) -> (r: Self)
        ensures
            r.sel() == 0,
            r.scroll_spec() == 0,
            r.marks() == Seq::<usize>::empty(),
            r.mode() == mode,
            r.created() == Seq::<(Seq<char>, i64)>::empty(),
            r.keyword() == Seq::<char>::empty(),
            !r.searching(),
    {
        let marks: Vec<usize> = Vec::new();
        proof {
            assert(strictly_increasing(marks@));
        }
        let r = TaskManagerPanel {
            selected: 0,
            scroll_offset: 0,
            selected_indices: marks,
            sort_mode: mode,
            created_at_index: Vec::new(),
            filter_keyword: String::new(),
            is_searching: false,
        };
        proof {
            assert(created_views(r.created_at_index@) =~= Seq::<(Seq<char>, i64)>::empty());
        }
        r
    }

    /// This panel's identity (it shares the quest list's identity).
    pub fn id(&self) -> (r: PanelId)
        ensures
            r == PanelId::Quest,
    {
        PanelId::Quest
    }

    /// The sort mode.
    pub fn sort_mode(&self) -> (r: SortMode)
        ensures
            r == self.mode(),
    {
        self.sort_mode
    }

    /// The cursor row.
    pub fn selected(&self) -> (r: usize)
        ensures
            r == self.sel(),
    {
        self.selected
    }

    /// The scroll offset.
    pub fn scroll_offset(&self) -> (r: usize)
        ensures
            r == self.scroll_spec(),
    {
        self.scroll_offset
    }

    /// The marked rows, ascending.
    pub fn selected_indices(&self) -> (r: Vec<usize>)
        ensures
            r@ == self.marks(),
    {
        self.selected_indices.clone()
    }

    /// The keyword filter.
    pub fn filter_keyword(&self) -> (r: String)
        ensures
            r@ == self.keyword(),
    {
        self.filter_keyword.clone()
    }

    /// Whether the keyword is being typed.
    pub fn is_searching(&self) -> (r: bool)
        ensures
            r == self.searching(),
    {
        self.is_searching
    }

    /// Records that quest `quest_id` was first seen at `millis` milliseconds
    /// since the epoch, replacing an earlier record of it.
    pub fn note_first_observation(&mut self, quest_id: &str, millis: i64)
        ensures
            lookup_created(final(self).created(), quest_id@) == Some(millis),
            forall|other: Seq<char>|
                other != quest_id@ ==> #[trigger] lookup_created(final(self).created(), other)
                    == lookup_created(old(self).created(), other),
            final(self).sel() == old(self).sel(),
            final(self).scroll_spec() == old(self).scroll_spec(),
            final(self).marks() == old(self).marks(),
            final(self).mode() == old(self).mode(),
            final(self).keyword() == old(self).keyword(),
            final(self).searching() == old(self).searching(),
    {
        proof {
            use_type_invariant(&*self);
        }
        let id = string_of(quest_id);
        let mut created: Vec<(String, i64)> = Vec::new();
        std::mem::swap(&mut created, &mut self.created_at_index);
        let ghost before = created_views(created@);
        let found = find_created(&created, &id);
        match found {
            Some(j) => {
                created.set(j, (id, millis));
                proof {
                    lemma_lookup_set(before, j as int, millis);
                    assert(created_views(created@) =~= before.update(j as int, (quest_id@, millis)));
                }
            },
            None => {
                created.push((id, millis));
                proof {
                    lemma_lookup_push(before, quest_id@, millis);
                    assert(created_views(created@) =~= before.push((quest_id@, millis)));
                }
            },
        }
        self.created_at_index = created;
    }

    /// Quests sorted by priority descending, ties by quest id.
    pub fn sorted(quests: &Vec<QuestView>) -> (r: Vec<&QuestView>)
        ensures
            r@.len() == quests@.len(),
            forall|t: int|
                0 <= t < r@.len() ==> *(#[trigger] r@[t]) == quests@[sorted_spec(
                    quests@,
                    SortMode::Priority,
                    Seq::empty(),
                )[t]],
    {
        let empty: Vec<(String, i64)> = Vec::new();
        proof {
            assert(created_views(empty@) =~= Seq::<(Seq<char>, i64)>::empty());
        }
        let order = sorted_positions(quests, SortMode::Priority, &empty);
        proof {
            lemma_sort_spec_range(
                quest_keys(quests@, SortMode::Priority, Seq::empty()),
                quests@.len(),
            );
        }
        pick(quests, &order)
    }

    /// Quests sorted under `mode` with this panel's observation times.
    pub fn sorted_with_mode<'a>(&self, quests: &'a Vec<QuestView>, mode: SortMode) -> (r: Vec<
        &'a QuestView,
    >)
        ensures
            r@.len() == quests@.len(),
            forall|t: int|
                0 <= t < r@.len() ==> *(#[trigger] r@[t]) == quests@[sorted_spec(
                    quests@,
                    mode,
                    self.created(),
                )[t]],
    {
        let order = sorted_positions(quests, mode, &self.created_at_index);
        proof {
            lemma_sort_spec_range(quest_keys(quests@, mode, self.created()), quests@.len());
        }
        pick(quests, &order)
    }

    /// Number of quests the panel sorts.
    pub fn sorted_quest_count(quests: &Vec<QuestView>) -> (r: usize)
        ensures
            r == quests@.len(),
    {
        quests.len()
    }

    /// Id of the first quest in this panel's sort order.
    pub fn top_quest_id(&self, quests: &Vec<QuestView>) -> (r: Option<String>)
        ensures
            quests@.len() == 0 ==> r is None,
            quests@.len() > 0 ==> (r matches Some(id) && id@ == quests@[sorted_spec(
                quests@,
                self.mode(),
                self.created(),
            )[0]].quest_id@),
    {
        let order = sorted_positions(quests, self.sort_mode, &self.created_at_index);
        proof {
            lemma_sort_spec_range(quest_keys(quests@, self.mode(), self.created()), quests@.len());
            assert(positions(order@).len() == quests@.len());
        }
        if order.len() == 0 {
            None
        } else {
            proof {
                assert(positions(order@)[0] == order@[0] as int);
            }
            Some(quests[order[0]].quest_id.clone())
        }
    }

    /// Id of the last quest in this panel's sort order.
    pub fn bottom_quest_id(&self, quests: &Vec<QuestView>) -> (r: Option<String>)
        ensures
            quests@.len() == 0 ==> r is None,
            quests@.len() > 0 ==> (r matches Some(id) && id@ == quests@[sorted_spec(
                quests@,
                self.mode(),
                self.created(),
            )[quests@.len() - 1]].quest_id@),
    {
        let order = sorted_positions(quests, self.sort_mode, &self.created_at_index);
        proof {
            lemma_sort_spec_range(quest_keys(quests@, self.mode(), self.created()), quests@.len());
            assert(positions(order@).len() == quests@.len());
        }
        if order.len() == 0 {
            None
        } else {
            proof {
                assert(positions(order@)[order@.len() - 1] == order@[order@.len() - 1] as int);
            }
            Some(quests[order[order.len() - 1]].quest_id.clone())
        }
    }

    /// The quests the panel lists: sorted, then filtered by the keyword.
    pub fn filtered_quests<'a>(&self, quests: &'a Vec<QuestView>) -> (r: Vec<&'a QuestView>)
        ensures
            r@.len() == self.listed(quests@).len(),
            forall|t: int|
                0 <= t < r@.len() ==> *(#[trigger] r@[t]) == quests@[self.listed(quests@)[t]],
    {
        let order = visible_positions(
            quests,
            self.sort_mode,
            &self.created_at_index,
            &self.filter_keyword,
        );
        pick(quests, &order)
    }
}

/// References to the quests at `order`.
fn pick<'a>(quests: &'a Vec<QuestView>, order: &Vec<usize>) -> (r: Vec<&'a QuestView>)
    requires
        forall|q: int| 0 <= q < order@.len() ==> (#[trigger] order@[q]) < quests@.len(),
    ensures
        r@.len() == order@.len(),
        forall|t: int| 0 <= t < r@.len() ==> *(#[trigger] r@[t]) == quests@[order@[t] as int],
{
    let mut r: Vec<&'a QuestView> = Vec::new();
    let mut t: usize = 0;
    while t < order.len()
        invariant
            t <= order@.len(),
            forall|q: int| 0 <= q < order@.len() ==> (#[trigger] order@[q]) < quests@.len(),
            r@.len() == t,
            forall|u: int| 0 <= u < t ==> *(#[trigger] r@[u]) == quests@[order@[u] as int],
        decreases order@.len() - t,
    {
        r.push(&quests[order[t]]);
        t = t + 1;
    }
    r
}

proof fn lemma_lookup_set(cv: Seq<(Seq<char>, i64)>, j: int, t: i64)
    requires
        0 <= j < cv.len(),
        forall|i: int| 0 <= i < j ==> (#[trigger] cv[i]).0 != cv[j].0,
    ensures
        lookup_created(cv.update(j, (cv[j].0, t)), cv[j].0) == Some(t),
        forall|other: Seq<char>|
            other != cv[j].0 ==> #[trigger] lookup_created(cv.update(j, (cv[j].0, t)), other)
                == lookup_created(cv, other),
    decreases cv.len(),
{
    let u = cv.update(j, (cv[j].0, t));
    let d = cv.drop_last();
    if j < cv.len() - 1 {
        assert(forall|i: int| 0 <= i < j ==> (#[trigger] d[i]).0 != d[j].0) by {
            assert forall|i: int| 0 <= i < j implies (#[trigger] d[i]).0 != d[j].0 by {
                assert(d[i] == cv[i]);
            }
        }
        lemma_lookup_set(d, j, t);
        assert(u.drop_last() =~= d.update(j, (cv[j].0, t)));
        assert(u.last() == cv.last());
        assert forall|other: Seq<char>| other != cv[j].0 implies #[trigger] lookup_created(u, other)
            == lookup_created(cv, other) by {
            assert(lookup_created(d.update(j, (cv[j].0, t)), other) == lookup_created(d, other));
        }
    } else {
        assert(u.drop_last() =~= d);
        assert forall|i: int| 0 <= i < d.len() implies (#[trigger] d[i]).0 != cv[j].0 by {
            assert(d[i] == cv[i]);
        }
        lemma_lookup_absent(d, cv[j].0);
        assert forall|other: Seq<char>| other != cv[j].0 implies #[trigger] lookup_created(u, other)
            == lookup_created(cv, other) by {
            assert(u.last().0 == cv.last().0);
        }
    }
}

proof fn lemma_lookup_absent(cv: Seq<(Seq<char>, i64)>, id: Seq<char>)
    requires
        forall|i: int| 0 <= i < cv.len() ==> (#[trigger] cv[i]).0 != id,
    ensures
        lookup_created(cv, id) is None,
    decreases cv.len(),
{
    if cv.len() > 0 {
        lemma_lookup_absent(cv.drop_last(), id);
    }
}

proof fn lemma_lookup_push(cv: Seq<(Seq<char>, i64)>, id: Seq<char>, t: i64)
    requires
        lookup_created(cv, id) is None,
    ensures
        lookup_created(cv.push((id, t)), id) == Some(t),
        forall|other: Seq<char>|
            other != id ==> #[trigger] lookup_created(cv.push((id, t)), other) == lookup_created(cv, other),
{
    assert(cv.push((id, t)).drop_last() =~= cv);
}

/// The marks with `idx` toggled, kept strictly increasing.
pub(crate) fn toggle_mark(marks: &Vec<usize>, idx: usize) -> (r: Vec<usize>)
    requires
        strictly_increasing(marks@),
    ensures
        strictly_increasing(r@),
        forall|x: usize| #[trigger] r@.contains(x) == toggled_marks(marks@.to_set(), idx).contains(x),
{
    let n = marks.len();
    let mut p: usize = 0;
    while p < n && marks[p] < idx
        invariant
            p <= n,
            n == marks@.len(),
            forall|t: int| 0 <= t < p ==> marks@[t] < idx,
        decreases n - p,
    {
        p = p + 1;
    }
    let mut r = marks.clone();
    if p < n && marks[p] == idx {
        r.remove(p);
        proof {
            assert(r@ =~= marks@.remove(p as int));
            assert forall|x: usize| #[trigger] r@.contains(x) == toggled_marks(marks@.to_set(), idx).contains(x) by {
                if r@.contains(x) {
                    let t = choose|t: int| 0 <= t < r@.len() && r@[t] == x;
                    if t < p {
                        assert(marks@[t] == x);
                    } else {
                        assert(marks@[t + 1] == x);
                    }
                    assert(marks@.contains(x));
                }
                if x != idx && marks@.contains(x) {
                    let t = choose|t: int| 0 <= t < marks@.len() && marks@[t] == x;
                    if t < p {
                        assert(r@[t] == x);
                    } else {
                        assert(t != p);
                        assert(r@[t - 1] == x);
                    }
                }
                if r@.contains(idx) {
                    let t = choose|t: int| 0 <= t < r@.len() && r@[t] == idx;
                    if t < p {
                        assert(marks@[t] == idx);
                    } else {
                        assert(marks@[t + 1] == idx);
                    }
                }
            }
        }
    } else {
        r.insert(p, idx);
        proof {
            assert(r@ =~= marks@.insert(p as int, idx));
            assert forall|t: int| 0 <= t < n implies marks@[t] != idx by {
                if t >= p {
                    if p < n {
                        assert(marks@[t] >= marks@[p as int]);
                    }
                }
            }
            assert forall|x: usize| #[trigger] r@.contains(x) == toggled_marks(marks@.to_set(), idx).contains(x) by {
                if r@.contains(x) && x != idx {
                    let t = choose|t: int| 0 <= t < r@.len() && r@[t] == x;
                    if t < p {
                        assert(marks@[t] == x);
                    } else {
                        assert(marks@[t - 1] == x);
                    }
                    assert(marks@.contains(x));
                }
                if marks@.contains(x) {
                    let t = choose|t: int| 0 <= t < marks@.len() && marks@[t] == x;
                    if t < p {
                        assert(r@[t] == x);
                    } else {
                        assert(r@[t + 1] == x);
                    }
                }
                if x == idx {
                    assert(r@[p as int] == idx);
                }
            }
            assert forall|a: int, b: int| 0 <= a < b < r@.len() implies (#[trigger] r@[a]) < (#[trigger] r@[b]) by {
                if b < p {
                } else if a < p && b == p {
                } else if a < p && b > p {
                    assert(r@[b] == marks@[b - 1]);
                } else if a == p {
                    assert(r@[b] == marks@[b - 1]);
                    assert(marks@[p as int] <= marks@[b - 1]);
                } else {
                    assert(r@[a] == marks@[a - 1]);
                    assert(r@[b] == marks@[b - 1]);
                }
            }
        }
    }
    r
}

/// The marks with every row below `n` added, kept strictly increasing.
pub(crate) fn mark_all(marks: &Vec<usize>, n: usize) -> (r: Vec<usize>)
    requires
        strictly_increasing(marks@),
    ensures
        strictly_increasing(r@),
        forall|x: usize| #[trigger] r@.contains(x) == (x < n || marks@.contains(x)),
{
    let mut r: Vec<usize> = Vec::new();
    let mut i: usize = 0;
    while i < n
        invariant
            i <= n,
            r@.len() == i,
            forall|t: int| 0 <= t < i ==> (#[trigger] r@[t]) == t,
        decreases n - i,
    {
        r.push(i);
        i = i + 1;
    }
    let mut t: usize = 0;
    while t < marks.len()
        invariant
            t <= marks@.len(),
            strictly_increasing(marks@),
            strictly_increasing(r@),
            r@.len() >= n,
            forall|u: int| 0 <= u < n ==> (#[trigger] r@[u]) == u,
            forall|u: int| n <= u < r@.len() ==> (#[trigger] r@[u]) >= n,
            r@.len() > n ==> r@.last() < n || exists|w: int| 0 <= w < t && marks@[w] == r@.last(),
            forall|u: int| 0 <= u < r@.len() && r@[u] >= n ==> #[trigger] marks@.contains(r@[u]),
            forall|w: int| 0 <= w < t && marks@[w] >= n ==> #[trigger] r@.contains(marks@[w]),
            r@.len() > 0 ==> forall|w: int| t <= w < marks@.len() && marks@[w] >= n ==> r@.last() < #[trigger] marks@[w],
        decreases marks@.len() - t,
    {
        let m = marks[t];
        if m >= n {
            let ghost before = r@;
            r.push(m);
            proof {
                assert forall|w: int| 0 <= w < t + 1 && marks@[w] >= n implies #[trigger] r@.contains(marks@[w]) by {
                    if w < t {
                        assert(before.contains(marks@[w]));
                        let k = choose|k: int| 0 <= k < before.len() && before[k] == marks@[w];
                        assert(r@[k] == marks@[w]);
                    } else {
                        assert(r@[before.len() as int] == m);
                    }
                }
                assert forall|u: int| 0 <= u < r@.len() && r@[u] >= n implies #[trigger] marks@.contains(r@[u]) by {
                    if u < before.len() {
                        assert(r@[u] == before[u]);
                    } else {
                        assert(marks@[t as int] == m);
                    }
                }
                assert forall|a: int, b: int| 0 <= a < b < r@.len() implies (#[trigger] r@[a]) < (#[trigger] r@[b]) by {
                    if b == before.len() {
                        if before.len() > 0 {
                            assert(before.last() < m);
                            if a < before.len() - 1 {
                                assert(before[a] < before[before.len() - 1]);
                            }
                        }
                    } else {
                        assert(r@[a] == before[a] && r@[b] == before[b]);
                    }
                }
            }
        }
        t = t + 1;
    }
    proof {
        assert forall|x: usize| #[trigger] r@.contains(x) == (x < n || marks@.contains(x)) by {
            if x < n {
                assert(r@[x as int] == x);
            }
            if marks@.contains(x) && x >= n {
                let w = choose|w: int| 0 <= w < marks@.len() && marks@[w] == x;
                assert(r@.contains(marks@[w]));
            }
            if r@.contains(x) && x >= n {
                let u = choose|u: int| 0 <= u < r@.len() && r@[u] == x;
                assert(marks@.contains(r@[u]));
            }
        }
    }
    r
}

/// Ids of the marked rows of `fl` that exist.
pub(crate) fn collect_batch_ids(quests: &Vec<QuestView>, fl: &Vec<usize>, marks: &Vec<usize>) -> (r: Vec<String>)
    requires
        forall|q: int| 0 <= q < fl@.len() ==> (#[trigger] fl@[q]) < quests@.len(),
    ensures
        crate::text::views(r@) == batch_ids(quests@, positions(fl@), marks@),
{
    let mut r: Vec<String> = Vec::new();
    let mut t: usize = 0;
    while t < marks.len()
        invariant
            t <= marks@.len(),
            forall|q: int| 0 <= q < fl@.len() ==> (#[trigger] fl@[q]) < quests@.len(),
            crate::text::views(r@) == batch_ids(quests@, positions(fl@), marks@.take(t as int)),
        decreases marks@.len() - t,
    {
        proof {
            assert(marks@.take(t + 1).drop_last() =~= marks@.take(t as int));
        }
        let m = marks[t];
        if m < fl.len() {
            r.push(quests[fl[m]].quest_id.clone());
            proof {
                assert(crate::text::views(r@) =~= crate::text::views(r@.drop_last()).push(r@.last()@));
            }
        }
        t = t + 1;
    }
    proof {
        assert(marks@.take(marks@.len() as int) =~= marks@);
    }
    r
}

impl TaskManagerPanel {
    /// What a key does, from state `pre` to state `post` answering `r`, with
    /// `quests` the quest list of the application.
    pub open spec fn key_effect(
        pre: Self,
        post: Self,
        quests: Seq<QuestView>,
        key: KeyEvent,
        r: Option<TuiCommand>,
    ) -> bool {
        &&& post.scroll_spec() == pre.scroll_spec()
        &&& post.created() == pre.created()
        &&& if pre.searching() {
            &&& r is None
            &&& post.sel() == pre.sel()
            &&& post.marks() == pre.marks()
            &&& post.mode() == pre.mode()
            &&& match key.code {
                KeyCode::Esc => !post.searching() && post.keyword() == Seq::<char>::empty(),
                KeyCode::Enter => !post.searching() && post.keyword() == pre.keyword(),
                KeyCode::Backspace => post.searching() && post.keyword() == (if pre.keyword().len()
                    > 0 {
                    pre.keyword().drop_last()
                } else {
                    pre.keyword()
                }),
                KeyCode::Char(c) => post.searching() && post.keyword() == pre.keyword().push(c),
                _ => post.searching() && post.keyword() == pre.keyword(),
            }
        } else {
            let fl = pre.listed(quests);
            let n = fl.len() as int;
            let sel = pre.sel() as int;
            &&& post.keyword() == pre.keyword()
            &&& post.searching() == (key.code == KeyCode::Char('/'))
            &&& post.mode() == (if key.code == KeyCode::Char('S') {
                next_mode(pre.mode())
            } else {
                pre.mode()
            })
            &&& post.sel() == (if key.code == KeyCode::Up {
                crate::panels::list_state::clamp_spec(sel - 1, n)
            } else if key.code == KeyCode::Down {
                crate::panels::list_state::clamp_spec(sel + 1, n)
            } else {
                sel
            })
            &&& if key.code == KeyCode::Char(' ') && n > 0 {
                forall|x: usize| #[trigger] post.marks().contains(x) == toggled_marks(
                    pre.marks().to_set(),
                    crate::panels::list_state::clamp_spec(sel, n) as usize,
                ).contains(x)
            } else if key.code == KeyCode::Char('a') && key.ctrl {
                forall|x: usize| #[trigger] post.marks().contains(x) == (x < n || pre.marks().contains(x))
            } else if key.code == KeyCode::Esc {
                post.marks().len() == 0
            } else {
                post.marks() == pre.marks()
            }
            &&& match key.code {
                KeyCode::Char('P') => single_cmd(r, quests, fl, sel, QuestAction::Pause),
                KeyCode::Char('B') => batch_cmd(r, quests, fl, pre.marks(), sel, "pause"@, QuestAction::Pause),
                KeyCode::Char('T') => batch_cmd(
                    r,
                    quests,
                    fl,
                    pre.marks(),
                    sel,
                    "terminate"@,
                    QuestAction::Terminate,
                ),
                KeyCode::Char('R') => batch_cmd(
                    r,
                    quests,
                    fl,
                    pre.marks(),
                    sel,
                    "resume"@,
                    QuestAction::Resume,
                ),
                KeyCode::Char('+') | KeyCode::Char('=') => priority_cmd(r, quests, fl, sel, 1),
                KeyCode::Char('-') => priority_cmd(r, quests, fl, sel, -1),
                KeyCode::Enter => detail_cmd(r, quests, fl, sel),
                KeyCode::Char('E') => r == Some(TuiCommand::Export),
                _ => r is None,
            }
        }
    }

    /// Handles a key. While the keyword is being typed, characters extend it,
    /// Backspace shortens it, Enter keeps it and Esc clears it, and nothing else
    /// acts. Otherwise Up/Down move the cursor, Space toggles the mark of the
    /// cursor row, Ctrl+A marks every listed row, Esc clears the marks, `/` starts
    /// typing the keyword, `S` cycles the sort mode, `P` pauses the cursor quest,
    /// `B`/`T`/`R` pause, terminate or resume the marked quests after
    /// confirmation (the cursor quest directly when nothing is marked), `+` or
    /// `=` raises and `-` lowers its priority by one level, Enter opens its
    /// detail and `E` exports.
    pub fn handle_key(&mut self, key: KeyEvent, quests: &Vec<QuestView>) -> (r: Option<TuiCommand>)
        ensures
            Self::key_effect(*old(self), *final(self), quests@, key, r),
    {
        proof {
            use_type_invariant(&*self);
        }
        if self.is_searching {
            match key.code {
                KeyCode::Esc => {
                    self.is_searching = false;
                    self.filter_keyword = String::new();
                },
                KeyCode::Enter => {
                    self.is_searching = false;
                },
                KeyCode::Backspace => {
                    let mut kw = self.filter_keyword.clone();
                    crate::text::string_pop(&mut kw);
                    self.filter_keyword = kw;
                },
                KeyCode::Char(c) => {
                    let mut kw = self.filter_keyword.clone();
                    crate::text::string_push(&mut kw, c);
                    self.filter_keyword = kw;
                },
                _ => {},
            }
            return None;
        }
        let fl = visible_positions(
            quests,
            self.sort_mode,
            &self.created_at_index,
            &self.filter_keyword,
        );
        let ghost listed = positions(fl@);
        proof {
            assert(listed == self.listed(quests@));
        }
        let n = fl.len();
        match crate::panels::list_state::handle_key_navigation(key.code, self.selected, n) {
            Some(ns) => {
                self.selected = ns;
                return None;
            },
            None => {},
        }
        match key.code {
            KeyCode::Char(' ') => {
                if n > 0 {
                    let idx = crate::panels::list_state::clamp_selected(self.selected, n);
                    let marks = toggle_mark(&self.selected_indices, idx);
                    self.selected_indices = marks;
                }
                None
            },
            KeyCode::Char('a') if key.ctrl => {
                let marks = mark_all(&self.selected_indices, n);
                self.selected_indices = marks;
                None
            },
            KeyCode::Esc => {
                self.selected_indices = Vec::new();
                None
            },
            KeyCode::Char('/') => {
                self.is_searching = true;
                None
            },
            KeyCode::Char('S') => {
                self.sort_mode = self.sort_mode.next();
                None
            },
            KeyCode::Char('P') => Self::single(quests, &fl, self.selected, QuestAction::Pause),
            KeyCode::Char('B') => Self::batch(
                quests,
                &fl,
                &self.selected_indices,
                self.selected,
                "pause",
                QuestAction::Pause,
            ),
            KeyCode::Char('T') => Self::batch(
                quests,
                &fl,
                &self.selected_indices,
                self.selected,
                "terminate",
                QuestAction::Terminate,
            ),
            KeyCode::Char('R') => Self::batch(
                quests,
                &fl,
                &self.selected_indices,
                self.selected,
                "resume",
                QuestAction::Resume,
            ),
            KeyCode::Char('+') | KeyCode::Char('=') => {
                if self.selected < n {
                    let q = &quests[fl[self.selected]];
                    let level = user_priority_from_internal(q.priority);
                    if level < PRIORITY_MAX {
                        Some(
                            TuiCommand::QuestControl {
                                id: q.quest_id.clone(),
                                action: QuestAction::SetPriority(level + 1),
                            },
                        )
                    } else {
                        None
                    }
                } else {
                    None
                }
            },
            KeyCode::Char('-') => {
                if self.selected < n {
                    let q = &quests[fl[self.selected]];
                    let level = user_priority_from_internal(q.priority);
                    if level > PRIORITY_MIN {
                        Some(
                            TuiCommand::QuestControl {
                                id: q.quest_id.clone(),
                                action: QuestAction::SetPriority(level - 1),
                            },
                        )
                    } else {
                        None
                    }
                } else {
                    None
                }
            },
            KeyCode::Enter => {
                if self.selected < n {
                    let q = &quests[fl[self.selected]];
                    let mut title = string_of("Task: ");
                    push_str(&mut title, q.title.as_str());
                    let content = quest_detail_content(q);
                    Some(TuiCommand::OpenPopup(PopupKind::Detail { title, content, scroll: 0 }))
                } else {
                    None
                }
            },
            KeyCode::Char('E') => Some(TuiCommand::Export),
            _ => None,
        }
    }

    /// The control command on the quest at row `sel` of `fl`, if the row exists.
    fn single(quests: &Vec<QuestView>, fl: &Vec<usize>, sel: usize, action: QuestAction) -> (r: Option<
        TuiCommand,
    >)
        requires
            forall|q: int| 0 <= q < fl@.len() ==> (#[trigger] fl@[q]) < quests@.len(),
        ensures
            single_cmd(r, quests@, positions(fl@), sel as int, action),
    {
        if sel < fl.len() {
            Some(TuiCommand::QuestControl { id: quests[fl[sel]].quest_id.clone(), action })
        } else {
            None
        }
    }

    /// The batch confirmation for the marked rows, or the single command when
    /// nothing is marked.
    fn batch(
        quests: &Vec<QuestView>,
        fl: &Vec<usize>,
        marks: &Vec<usize>,
        sel: usize,
        verb: &str,
        action: QuestAction,
    ) -> (r: Option<TuiCommand>)
        requires
            forall|q: int| 0 <= q < fl@.len() ==> (#[trigger] fl@[q]) < quests@.len(),
        ensures
            batch_cmd(r, quests@, positions(fl@), marks@, sel as int, verb@, action),
    {
        if marks.len() == 0 {
            return Self::single(quests, fl, sel, action);
        }
        let ids = collect_batch_ids(quests, fl, marks);
        if ids.len() == 0 {
            return None;
        }
        let joined = crate::text::join_strings(&ids, ",");
        let mut prompt = string_of("Batch ");
        push_str(&mut prompt, verb);
        push_str(&mut prompt, " ");
        push_u64(&mut prompt, ids.len() as u64);
        push_str(&mut prompt, " quests");
        let mut on_confirm = string_of("batch_");
        push_str(&mut on_confirm, verb);
        push_str(&mut on_confirm, ":");
        push_str(&mut on_confirm, joined.as_str());
        proof {
            assert(crate::text::views(ids@).len() == ids@.len());
        }
        Some(TuiCommand::OpenPopup(PopupKind::control_confirm(prompt.as_str(), joined.as_str(), on_confirm)))
    }

    /// Jumps to the first row.
    pub fn scroll_to_top(&mut self)
        ensures
            final(self).sel() == 0,
            final(self).scroll_spec() == 0,
            final(self).marks() == old(self).marks(),
            final(self).mode() == old(self).mode(),
            final(self).created() == old(self).created(),
            final(self).keyword() == old(self).keyword(),
            final(self).searching() == old(self).searching(),
    {
        proof {
            use_type_invariant(&*self);
        }
        self.selected = 0;
        self.scroll_offset = 0;
    }

    /// Jumps to the last listed row and scrolls to it.
    pub fn scroll_to_bottom(&mut self, quests: &Vec<QuestView>)
        ensures
            final(self).sel() == (if old(self).listed(quests@).len() == 0 {
                0
            } else {
                old(self).listed(quests@).len() - 1
            }),
            final(self).scroll_spec() == final(self).sel(),
            final(self).marks() == old(self).marks(),
            final(self).mode() == old(self).mode(),
            final(self).created() == old(self).created(),
            final(self).keyword() == old(self).keyword(),
            final(self).searching() == old(self).searching(),
    {
        proof {
            use_type_invariant(&*self);
        }
        let fl = visible_positions(
            quests,
            self.sort_mode,
            &self.created_at_index,
            &self.filter_keyword,
        );
        let n = fl.len();
        self.selected = if n == 0 {
            0
        } else {
            n - 1
        };
        self.scroll_offset = self.selected;
    }

    /// The wheel moves the cursor by one listed row.
    pub fn handle_mouse(&mut self, kind: crate::input::MouseEventKind, quests: &Vec<QuestView>) -> (r:
        Option<TuiCommand>)
        ensures
            r is None,
            final(self).sel() == (if kind == crate::input::MouseEventKind::ScrollUp {
                crate::panels::list_state::clamp_spec(
                    old(self).sel() - 1,
                    old(self).listed(quests@).len() as int,
                )
            } else if kind == crate::input::MouseEventKind::ScrollDown {
                crate::panels::list_state::clamp_spec(
                    old(self).sel() + 1,
                    old(self).listed(quests@).len() as int,
                )
            } else {
                old(self).sel() as int
            }),
            final(self).scroll_spec() == old(self).scroll_spec(),
            final(self).marks() == old(self).marks(),
            final(self).mode() == old(self).mode(),
            final(self).created() == old(self).created(),
            final(self).keyword() == old(self).keyword(),
            final(self).searching() == old(self).searching(),
    {
        proof {
            use_type_invariant(&*self);
        }
        let fl = visible_positions(
            quests,
            self.sort_mode,
            &self.created_at_index,
            &self.filter_keyword,
        );
        match crate::panels::list_state::handle_mouse_scroll(kind, self.selected, fl.len()) {
            Some(ns) => {
                self.selected = ns;
            },
            None => {},
        }
        None
    }
}

/// `s` padded with spaces on the right to `w` characters.
pub open spec fn pad_right(s: Seq<char>, w: int) -> Seq<char> {
    if s.len() >= w {
        s
    } else {
        s + Seq::new((w - s.len()) as nat, |i: int| ' ')
    }
}

/// Appends `s` padded with spaces on the right to `w` characters.
fn push_padded(out: &mut String, s: &str, w: usize)
    ensures
        final(out)@ == old(out)@ + pad_right(s@, w as int),
{
    push_str(out, s);
    let n = s.unicode_len();
    let mut k: usize = n;
    while k < w
        invariant
            n == s@.len(),
            n <= k <= w || (k == n && n >= w),
            out@ == old(out)@ + s@ + Seq::new((k - n) as nat, |i: int| ' '),
        decreases w - k,
    {
        let ghost before = out@;
        push_str(out, " ");
        proof {
            reveal_strlit(" ");
            assert(Seq::new((k + 1 - n) as nat, |i: int| ' ') =~= Seq::new((k - n) as nat, |i: int| ' ').push(' '));
        }
        k = k + 1;
    }
    proof {
        if n >= w {
            assert(Seq::new((k - n) as nat, |i: int| ' ') =~= Seq::<char>::empty());
            assert(old(out)@ + s@ + Seq::<char>::empty() =~= old(out)@ + s@);
        } else {
            assert(old(out)@ + s@ + Seq::new((w - n) as nat, |i: int| ' ') =~= old(out)@ + (s@ + Seq::new((w - n) as nat, |i: int| ' ')));
        }
    }
}

/// Row marker: `[*]` for a marked row, `> ` for the cursor row, blanks otherwise.
pub open spec fn row_prefix(marked: bool, cursor: bool) -> Seq<char> {
    if marked {
        "[*]"@
    } else if cursor {
        "> "@
    } else {
        "  "@
    }
}

/// One listed quest: marker, id padded to 16, title and priority padded to 2.
pub open spec fn row_text(q: QuestView, marked: bool, cursor: bool) -> Seq<char> {
    row_prefix(marked, cursor) + pad_right(q.quest_id@, 16) + " | "@ + q.title@ + " | P"@ + pad_right(
        dec(q.priority as nat),
        2,
    )
}

/// The rows of the listed quests.
pub open spec fn row_lines(quests: Seq<QuestView>, fl: Seq<int>, marks: Seq<usize>, cursor: int) -> Seq<
    Seq<char>,
> {
    Seq::new(
        fl.len(),
        |i: int| row_text(quests[fl[i]], marks.contains(i as usize), i == cursor),
    )
}

/// The status counts line, with the number of marks when there are any.
pub open spec fn status_line(quests: Seq<QuestView>, paused: nat, marked: nat) -> Seq<char> {
    "Pending:"@ + dec(count_rank(quests, quests.len() as int, 1)) + " | Running:"@ + dec(
        count_rank(quests, quests.len() as int, 0),
    ) + " | Paused:"@ + dec(paused) + " | Completed:"@ + dec(
        count_rank(quests, quests.len() as int, 3),
    ) + if marked > 0 {
        " | Selected:"@ + dec(marked)
    } else {
        Seq::empty()
    }
}

/// Whether `i` is marked.
fn is_marked(marks: &Vec<usize>, i: usize) -> (r: bool)
    ensures
        r == marks@.contains(i),
{
    let mut t: usize = 0;
    while t < marks.len()
        invariant
            t <= marks@.len(),
            forall|u: int| 0 <= u < t ==> marks@[u] != i,
        decreases marks@.len() - t,
    {
        if marks[t] == i {
            return true;
        }
        t = t + 1;
    }
    false
}

impl TaskManagerPanel {
    /// The panel's lines: title (with the keyword while it is typed), rule, the
    /// listed quests or a no-match line, a blank line, the status counts and the footer.
    pub open spec fn content_lines(self, quests: Seq<QuestView>, paused: nat) -> Seq<Seq<char>> {
        let title = if self.searching() {
            "Task Manager ["@ + mode_label(self.mode()) + "] (filter: "@ + self.keyword() + ")"@
        } else {
            "Task Manager ["@ + mode_label(self.mode()) + "]"@
        };
        let fl = self.listed(quests);
        let body = if fl.len() == 0 {
            seq!["No matching quests"@]
        } else {
            row_lines(quests, fl, self.marks(), self.sel() as int)
        };
        seq![title, "──────────────"@] + body + seq![
            Seq::<char>::empty(),
            status_line(quests, paused, self.marks().len()),
            crate::render::FOOTER_TEXT@,
        ]
    }

    /// The panel's text, lines joined by newlines.
    pub fn render_text(&self, quests: &Vec<QuestView>, paused_quest_count: usize) -> (r: String)
        ensures
            r@ == crate::text::join(self.content_lines(quests@, paused_quest_count as nat), "\n"@),
    {
        let mut lines: Vec<String> = Vec::new();
        let mut title = string_of("Task Manager [");
        push_str(&mut title, self.sort_mode.label());
        if self.is_searching {
            push_str(&mut title, "] (filter: ");
            push_str(&mut title, self.filter_keyword.as_str());
            push_str(&mut title, ")");
        } else {
            push_str(&mut title, "]");
        }
        let ghost title_view = title@;
        lines.push(title);
        lines.push(string_of("──────────────"));
        let fl = visible_positions(
            quests,
            self.sort_mode,
            &self.created_at_index,
            &self.filter_keyword,
        );
        let ghost listed = positions(fl@);
        let ghost head = crate::text::views(lines@);
        proof {
            assert(head =~= seq![title_view, "──────────────"@]);
            assert(listed.len() == fl@.len());
        }
        if fl.len() == 0 {
            let ghost before = lines@;
            lines.push(string_of("No matching quests"));
            proof {
                assert(crate::text::views(lines@) =~= crate::text::views(before).push("No matching quests"@));
            }
        } else {
            let mut i: usize = 0;
            while i < fl.len()
                invariant
                    i <= fl@.len(),
                    listed == positions(fl@),
                    forall|q: int| 0 <= q < fl@.len() ==> (#[trigger] fl@[q]) < quests@.len(),
                    head.len() == 2,
                    crate::text::views(lines@) == head + row_lines(
                        quests@,
                        listed,
                        self.marks(),
                        self.sel() as int,
                    ).take(i as int),
                decreases fl@.len() - i,
            {
                let q = &quests[fl[i]];
                let marked = is_marked(&self.selected_indices, i);
                let mut line = if marked {
                    string_of("[*]")
                } else if i == self.selected {
                    string_of("> ")
                } else {
                    string_of("  ")
                };
                push_padded(&mut line, q.quest_id.as_str(), 16);
                push_str(&mut line, " | ");
                push_str(&mut line, q.title.as_str());
                push_str(&mut line, " | P");
                let pr = crate::text::u64_to_string(q.priority as u64);
                push_padded(&mut line, pr.as_str(), 2);
                let ghost before = lines@;
                lines.push(line);
                proof {
                    assert(listed[i as int] == fl@[i as int] as int);
                    let rows = row_lines(quests@, listed, self.marks(), self.sel() as int);
                    assert(rows[i as int] == line@);
                    assert(rows.take(i + 1) =~= rows.take(i as int).push(line@));
                    assert(crate::text::views(lines@) =~= crate::text::views(before).push(line@));
                }
                i = i + 1;
            }
            proof {
                let rows = row_lines(quests@, listed, self.marks(), self.sel() as int);
                assert(rows.take(fl@.len() as int) =~= rows);
            }
        }
        let ghost body_view = crate::text::views(lines@);
        proof {
            let body = if listed.len() == 0 {
                seq!["No matching quests"@]
            } else {
                row_lines(quests@, listed, self.marks(), self.sel() as int)
            };
            assert(body_view =~= seq![title_view, "──────────────"@] + body);
            assert(listed == self.listed(quests@));
        }
        lines.push(String::new());
        let (pending, running, paused, completed) = compute_status_counts(quests, paused_quest_count);
        let mut status = string_of("Pending:");
        push_u64(&mut status, pending as u64);
        push_str(&mut status, " | Running:");
        push_u64(&mut status, running as u64);
        push_str(&mut status, " | Paused:");
        push_u64(&mut status, paused as u64);
        push_str(&mut status, " | Completed:");
        push_u64(&mut status, completed as u64);
        let marked_count = self.selected_indices.len();
        if marked_count > 0 {
            push_str(&mut status, " | Selected:");
            push_u64(&mut status, marked_count as u64);
        }
        let ghost status_view = status@;
        let ghost before_tail = lines@;
        lines.push(status);
        lines.push(string_of(crate::render::FOOTER_TEXT));
        proof {
            assert(status_view == status_line(quests@, paused_quest_count as nat, self.marks().len()));
            assert(crate::text::views(lines@) =~= body_view + seq![
                Seq::<char>::empty(),
                status_view,
                crate::render::FOOTER_TEXT@,
            ]);
            assert(crate::text::views(lines@) =~= self.content_lines(quests@, paused_quest_count as nat));
        }
        crate::text::join_strings(&lines, "\n")
    }
}

} // verus!
