//! Agent lineage panel: the delegation tree rooted at the orchestrator, laid out
//! by depth-first search, with a drill-down detail per agent.
use vstd::prelude::*;
use crate::input::{KeyCode, KeyEvent};
use crate::popup::PopupKind;
use crate::text::{dec, join, push_line, push_spaces, push_str, push_u64, spaces, string_of, tone_views, LineTone, ToneLine};
use crate::types::{PanelId, TuiCommand};

verus! {

/// One agent of the lineage snapshot.
#[derive(Debug, Clone, PartialEq, Eq)]
pub struct AgentNodeView {
    pub agent_id: String,
    pub delegated_out: u64,
    pub completed: u64,
    pub failed: u64,
    pub last_task: Option<String>,
}

/// Lineage snapshot: delegation edges `(from, to)` by agent id, and the agents.
#[derive(Debug, Clone, Default, PartialEq, Eq)]
pub struct AgentTreeSnapshot {
    pub edges: Vec<(String, String)>,
    pub nodes: Vec<AgentNodeView>,
}

/// One row of the laid-out tree.
#[derive(Debug, Clone, Copy, PartialEq, Eq)]
pub struct TreeLine {
    /// Depth in the tree; roots are at 0.
    pub depth: usize,
    /// Index into the snapshot's nodes.
    pub node_index: usize,
}

/// The agent ids of a snapshot.
pub open spec fn node_ids(s: AgentTreeSnapshot) -> Seq<Seq<char>> {
    s.nodes@.map_values(|n: AgentNodeView| n.agent_id@)
}

/// The edges of a snapshot by id.
pub open spec fn edge_ids(s: AgentTreeSnapshot) -> Seq<(Seq<char>, Seq<char>)> {
    s.edges@.map_values(|e: (String, String)| (e.0@, e.1@))
}

/// First index at or after `j` whose id is `id`, or -1.
pub open spec fn find_from(ids: Seq<Seq<char>>, id: Seq<char>, j: int) -> int
    decreases ids.len() - j,
{
    if j < 0 || j >= ids.len() {
        -1
    } else if ids[j] == id {
        j
    } else {
        find_from(ids, id, j + 1)
    }
}

/// Whether some edge points at node `i`.
pub open spec fn has_incoming(ids: Seq<Seq<char>>, edges: Seq<(Seq<char>, Seq<char>)>, i: int) -> bool {
    exists|k: int| 0 <= k < edges.len() && edges[k].1 == ids[i]
}

/// Depth-first expansion of node `i` at `depth`: if `i` is not yet visited it is
/// marked, emitted, and its children (targets of its out-edges, in edge order,
/// each resolved to the first node with that id) are expanded one level deeper.
/// Result: the visited marks afterwards and the emitted `(depth, index)` rows.
pub open spec fn visit_spec(
    ids: Seq<Seq<char>>,
    edges: Seq<(Seq<char>, Seq<char>)>,
    fuel: nat,
    i: int,
    depth: int,
    visited: Seq<bool>,
) -> (Seq<bool>, Seq<(int, int)>)
    decreases fuel, edges.len() + 1, 0int,
{
    if fuel == 0 || i < 0 || i >= visited.len() || visited[i] {
        (visited, Seq::empty())
    } else {
        let r = visit_edges_spec(ids, edges, fuel, i, depth, visited.update(i, true), 0);
        (r.0, seq![(depth, i)] + r.1)
    }
}

/// Expansion of the out-edges of `parent` from edge `k` on.
pub open spec fn visit_edges_spec(
    ids: Seq<Seq<char>>,
    edges: Seq<(Seq<char>, Seq<char>)>,
    fuel: nat,
    parent: int,
    depth: int,
    visited: Seq<bool>,
    k: int,
) -> (Seq<bool>, Seq<(int, int)>)
    decreases fuel, edges.len() - k, 1int,
{
    if fuel == 0 || k < 0 || k >= edges.len() {
        (visited, Seq::empty())
    } else if edges[k].0 != ids[parent] || find_from(ids, edges[k].1, 0) < 0 {
        visit_edges_spec(ids, edges, fuel, parent, depth, visited, k + 1)
    } else {
        let r1 = visit_spec(
            ids,
            edges,
            (fuel - 1) as nat,
            find_from(ids, edges[k].1, 0),
            depth + 1,
            visited,
        );
        let r2 = visit_edges_spec(ids, edges, fuel, parent, depth, r1.0, k + 1);
        (r2.0, r1.1 + r2.1)
    }
}

/// First pass from node `i` on: expand every node without an incoming edge as a root.
pub open spec fn roots_pass(
    ids: Seq<Seq<char>>,
    edges: Seq<(Seq<char>, Seq<char>)>,
    i: int,
    visited: Seq<bool>,
) -> (Seq<bool>, Seq<(int, int)>)
    decreases ids.len() - i,
{
    if i < 0 || i >= ids.len() {
        (visited, Seq::empty())
    } else {
        let r1 = if !has_incoming(ids, edges, i) {
            visit_spec(ids, edges, (ids.len() + 1) as nat, i, 0, visited)
        } else {
            (visited, Seq::empty())
        };
        let r2 = roots_pass(ids, edges, i + 1, r1.0);
        (r2.0, r1.1 + r2.1)
    }
}

/// Second pass from node `i` on: expand every node still unvisited (pure cycles) at depth 0.
pub open spec fn rest_pass(
    ids: Seq<Seq<char>>,
    edges: Seq<(Seq<char>, Seq<char>)>,
    i: int,
    visited: Seq<bool>,
) -> (Seq<bool>, Seq<(int, int)>)
    decreases ids.len() - i,
{
    if i < 0 || i >= ids.len() {
        (visited, Seq::empty())
    } else {
        let r1 = visit_spec(ids, edges, (ids.len() + 1) as nat, i, 0, visited);
        let r2 = rest_pass(ids, edges, i + 1, r1.0);
        (r2.0, r1.1 + r2.1)
    }
}

/// The rows of the laid-out tree as `(depth, node index)`.
pub open spec fn tree_lines_spec(ids: Seq<Seq<char>>, edges: Seq<(Seq<char>, Seq<char>)>) -> Seq<(int, int)> {
    let r1 = roots_pass(ids, edges, 0, Seq::new(ids.len(), |i: int| false));
    let r2 = rest_pass(ids, edges, 0, r1.0);
    r1.1 + r2.1
}

/// Rows of a tree layout as `(depth, node index)`.
pub open spec fn line_views(lines: Seq<TreeLine>) -> Seq<(int, int)> {
    lines.map_values(|l: TreeLine| (l.depth as int, l.node_index as int))
}

/// Number of unvisited marks.
pub open spec fn unvisited(v: Seq<bool>) -> nat
    decreases v.len(),
{
    if v.len() == 0 {
        0
    } else {
        unvisited(v.drop_last()) + if v.last() { 0nat } else { 1nat }
    }
}

proof fn lemma_unvisited_mark(v: Seq<bool>, i: int)
    requires
        0 <= i < v.len(),
        !v[i],
    ensures
        unvisited(v.update(i, true)) + 1 == unvisited(v),
    decreases v.len(),
{
    if i == v.len() - 1 {
        assert(v.update(i, true).drop_last() =~= v.drop_last());
    } else {
        lemma_unvisited_mark(v.drop_last(), i);
        assert(v.update(i, true).drop_last() =~= v.drop_last().update(i, true));
    }
}

proof fn lemma_unvisited_mono(a: Seq<bool>, b: Seq<bool>)
    requires
        a.len() == b.len(),
        forall|j: int| 0 <= j < a.len() && a[j] ==> b[j],
    ensures
        unvisited(b) <= unvisited(a),
    decreases a.len(),
{
    if a.len() > 0 {
        lemma_unvisited_mono(a.drop_last(), b.drop_last());
    }
}

proof fn lemma_unvisited_bound(v: Seq<bool>)
    ensures
        unvisited(v) <= v.len(),
        (forall|j: int| 0 <= j < v.len() ==> v[j]) ==> unvisited(v) == 0,
    decreases v.len(),
{
    if v.len() > 0 {
        lemma_unvisited_bound(v.drop_last());
    }
}

/// The marks and rows agree: every row names a distinct marked node, and every
/// marked node has a row.
pub open spec fn lines_match(lines: Seq<TreeLine>, visited: Seq<bool>) -> bool {
    &&& forall|k: int| 0 <= k < lines.len() ==> #[trigger] lines[k].node_index < visited.len()
        && visited[lines[k].node_index as int]
    &&& forall|k1: int, k2: int|
        0 <= k1 < k2 < lines.len() ==> #[trigger] lines[k1].node_index != #[trigger] lines[k2].node_index
    &&& forall|j: int|
        0 <= j < visited.len() && #[trigger] visited[j] ==> exists|k: int|
            0 <= k < lines.len() && lines[k].node_index == j
}

fn find_node(snapshot: &AgentTreeSnapshot, id: &String) -> (r: Option<usize>)
    ensures
        match r {
            Some(c) => c as int == find_from(node_ids(*snapshot), id@, 0) && c < snapshot.nodes@.len(),
            None => find_from(node_ids(*snapshot), id@, 0) < 0,
        },
{
    let ghost ids = node_ids(*snapshot);
    let mut j: usize = 0;
    while j < snapshot.nodes.len()
        invariant
            j <= snapshot.nodes@.len(),
            ids == node_ids(*snapshot),
            find_from(ids, id@, 0) == find_from(ids, id@, j as int),
        decreases snapshot.nodes@.len() - j,
    {
        if snapshot.nodes[j].agent_id == *id {
            return Some(j);
        }
        j = j + 1;
    }
    None
}

fn visit(
    snapshot: &AgentTreeSnapshot,
    node_index: usize,
    depth: usize,
    visited: &mut Vec<bool>,
    lines: &mut Vec<TreeLine>,
    Ghost(fuel): Ghost<nat>,
)
    requires
        node_index < snapshot.nodes@.len(),
        old(visited)@.len() == snapshot.nodes@.len(),
        fuel > unvisited(old(visited)@),
        depth + unvisited(old(visited)@) <= snapshot.nodes@.len(),
        lines_match(old(lines)@, old(visited)@),
    ensures
        final(visited)@.len() == old(visited)@.len(),
        final(visited)@[node_index as int],
        forall|j: int| 0 <= j < old(visited)@.len() && old(visited)@[j] ==> final(visited)@[j],
        final(lines)@.len() >= old(lines)@.len(),
        final(lines)@.take(old(lines)@.len() as int) == old(lines)@,
        lines_match(final(lines)@, final(visited)@),
        (final(visited)@, line_views(final(lines)@).skip(old(lines)@.len() as int)) == visit_spec(
            node_ids(*snapshot),
            edge_ids(*snapshot),
            fuel,
            node_index as int,
            depth as int,
            old(visited)@,
        ),
    decreases fuel, snapshot.edges@.len() + 1,
{
    let ghost ids = node_ids(*snapshot);
    let ghost edges = edge_ids(*snapshot);
    let ghost v0 = visited@;
    let ghost l0 = lines@;
    let n = snapshot.nodes.len();
    if visited[node_index] {
        proof {
            assert(line_views(lines@).skip(l0.len() as int) =~= Seq::empty());
            assert(lines@.take(l0.len() as int) =~= l0);
        }
        return;
    }
    proof {
        lemma_unvisited_mark(v0, node_index as int);
    }
    visited.set(node_index, true);
    lines.push(TreeLine { depth, node_index });
    proof {
        assert(lines_match(lines@, visited@)) by {
            assert forall|j: int| 0 <= j < visited@.len() && #[trigger] visited@[j] implies exists|k: int|
                0 <= k < lines@.len() && lines@[k].node_index == j by {
                if j == node_index {
                    assert(lines@[l0.len() as int].node_index == j);
                } else {
                    let k = choose|k: int| 0 <= k < l0.len() && l0[k].node_index == j;
                    assert(lines@[k].node_index == j);
                }
            }
        }
    }
    let ghost v1 = visited@;
    let ghost l1 = lines@;
    let mut k: usize = 0;
    while k < snapshot.edges.len()
        invariant
            ids == node_ids(*snapshot),
            edges == edge_ids(*snapshot),
            node_index < snapshot.nodes@.len(),
            fuel > unvisited(v0),
            depth + unvisited(v0) <= snapshot.nodes@.len(),
            unvisited(v1) + 1 == unvisited(v0),
            v1.len() == v0.len(),
            v0.len() == snapshot.nodes@.len(),
            n == snapshot.nodes@.len(),
            v1[node_index as int],
            forall|j: int| 0 <= j < v0.len() && v0[j] ==> v1[j],
            k <= snapshot.edges@.len(),
            visited@.len() == v0.len(),
            forall|j: int| 0 <= j < v1.len() && v1[j] ==> visited@[j],
            lines@.len() >= l1.len(),
            l1.len() == l0.len() + 1,
            lines@.take(l0.len() as int) == l0,
            l1 == l0.push(TreeLine { depth, node_index }),
            lines@.take(l1.len() as int) == l1,
            lines_match(lines@, visited@),
            visit_edges_spec(ids, edges, fuel, node_index as int, depth as int, v1, 0) == {
                let r = visit_edges_spec(
                    ids,
                    edges,
                    fuel,
                    node_index as int,
                    depth as int,
                    visited@,
                    k as int,
                );
                (r.0, line_views(lines@).skip(l1.len() as int) + r.1)
            },
        decreases snapshot.edges@.len() - k,
    {
        let ghost vk = visited@;
        let ghost lk = lines@;
        let is_child_edge = snapshot.edges[k].0 == snapshot.nodes[node_index].agent_id;
        if is_child_edge {
            match find_node(snapshot, &snapshot.edges[k].1) {
                Some(child) => {
                    proof {
                        lemma_unvisited_mono(v1, vk);
                        assert(edges[k as int].1 == snapshot.edges@[k as int].1@);
                    }
                    visit(snapshot, child, depth + 1, visited, lines, Ghost((fuel - 1) as nat));
                    proof {
                        let r1 = visit_spec(ids, edges, (fuel - 1) as nat, child as int, depth + 1, vk);
                        assert(line_views(lines@).skip(l1.len() as int) =~= line_views(lk).skip(
                            l1.len() as int,
                        ) + line_views(lines@).skip(lk.len() as int));
                        assert(lines@.take(l1.len() as int) =~= lines@.take(lk.len() as int).take(
                            l1.len() as int,
                        ));
                        assert(lines@.take(l0.len() as int) =~= lines@.take(lk.len() as int).take(
                            l0.len() as int,
                        ));
                    }
                },
                None => {},
            }
        }
        k = k + 1;
    }
    proof {
        assert(lines@.take(l0.len() as int) == l0);
        assert(lines@[l0.len() as int] == lines@.take(l1.len() as int)[l0.len() as int]);
        assert(line_views(lines@)[l0.len() as int] == (depth as int, node_index as int));
        assert(line_views(lines@).skip(l0.len() as int) =~= seq![(depth as int, node_index as int)]
            + line_views(lines@).skip(l1.len() as int));
    }
}

fn has_incoming_edge(snapshot: &AgentTreeSnapshot, i: usize) -> (r: bool)
    requires
        i < snapshot.nodes@.len(),
    ensures
        r == has_incoming(node_ids(*snapshot), edge_ids(*snapshot), i as int),
{
    let ghost ids = node_ids(*snapshot);
    let ghost edges = edge_ids(*snapshot);
    let mut k: usize = 0;
    while k < snapshot.edges.len()
        invariant
            k <= snapshot.edges@.len(),
            ids == node_ids(*snapshot),
            edges == edge_ids(*snapshot),
            i < snapshot.nodes@.len(),
            forall|q: int| 0 <= q < k ==> edges[q].1 != ids[i as int],
        decreases snapshot.edges@.len() - k,
    {
        if snapshot.edges[k].1 == snapshot.nodes[i].agent_id {
            assert(edges[k as int].1 == ids[i as int]);
            return true;
        }
        k = k + 1;
    }
    false
}

/// The row of agent `node` at `depth`: two spaces per level, `└─ ` below the
/// roots, the agent id and `[✓completed ✗failed ⇢delegated]`; highlighted when
/// selected, an alert when the agent has failures, good otherwise.
pub open spec fn tree_row(node: AgentNodeView, depth: int, selected: bool) -> (Seq<char>, LineTone) {
    (
        spaces((2 * depth) as nat) + (if depth == 0 { Seq::empty() } else { "└─ "@ }) + node.agent_id@ + " [✓"@ + dec(
            node.completed as nat,
        ) + " ✗"@ + dec(node.failed as nat) + " ⇢"@ + dec(node.delegated_out as nat) + "]"@,
        if selected {
            LineTone::Highlight
        } else if node.failed > 0 {
            LineTone::Alert
        } else {
            LineTone::Good
        },
    )
}

/// Lays the lineage out as depth-first rows: first every node without an
/// incoming edge is expanded as a root (in node order), then every node a cycle
/// left unvisited is expanded at depth 0. Each node is emitted exactly once, so
/// a cyclic delegation graph cannot loop.
pub fn build_tree_lines(snapshot: &AgentTreeSnapshot) -> (lines: Vec<TreeLine>)
    ensures
        line_views(lines@) == tree_lines_spec(node_ids(*snapshot), edge_ids(*snapshot)),
        // every node appears on exactly one row
        lines@.len() == snapshot.nodes@.len(),
        forall|k: int| 0 <= k < lines@.len() ==> #[trigger] lines@[k].node_index < snapshot.nodes@.len(),
        forall|k1: int, k2: int|
            0 <= k1 < k2 < lines@.len() ==> #[trigger] lines@[k1].node_index
                != #[trigger] lines@[k2].node_index,
{
    let ghost ids = node_ids(*snapshot);
    let ghost edges = edge_ids(*snapshot);
    let n = snapshot.nodes.len();
    let mut lines: Vec<TreeLine> = Vec::new();
    let mut visited: Vec<bool> = Vec::new();
    let mut i: usize = 0;
    while i < n
        invariant
            i <= n,
            n == snapshot.nodes@.len(),
            visited@.len() == i,
            forall|j: int| 0 <= j < i ==> !visited@[j],
        decreases n - i,
    {
        visited.push(false);
        i = i + 1;
    }
    let mut has_in: Vec<bool> = Vec::new();
    let mut i: usize = 0;
    while i < n
        invariant
            i <= n,
            n == snapshot.nodes@.len(),
            has_in@.len() == i,
            forall|j: int| 0 <= j < i ==> has_in@[j] == has_incoming(ids, edges, j),
            ids == node_ids(*snapshot),
            edges == edge_ids(*snapshot),
        decreases n - i,
    {
        has_in.push(has_incoming_edge(snapshot, i));
        i = i + 1;
    }
    let ghost start = visited@;
    proof {
        assert(start =~= Seq::new(ids.len(), |i: int| false));
        assert(line_views(lines@) =~= Seq::empty());
    }
    let mut i: usize = 0;
    while i < n
        invariant
            i <= n,
            n == snapshot.nodes@.len(),
            ids == node_ids(*snapshot),
            edges == edge_ids(*snapshot),
            ids.len() == n,
            has_in@.len() == n,
            forall|j: int| 0 <= j < n ==> has_in@[j] == has_incoming(ids, edges, j),
            visited@.len() == n,
            lines_match(lines@, visited@),
            roots_pass(ids, edges, 0, start) == {
                let r = roots_pass(ids, edges, i as int, visited@);
                (r.0, line_views(lines@) + r.1)
            },
        decreases n - i,
    {
        let ghost vi = visited@;
        let ghost li = lines@;
        if !has_in[i] {
            proof {
                lemma_unvisited_bound(vi);
            }
            visit(snapshot, i, 0, &mut visited, &mut lines, Ghost((n + 1) as nat));
            proof {
                assert(line_views(lines@) =~= line_views(li) + line_views(lines@).skip(li.len() as int)) by {
                    assert(lines@ =~= lines@.take(li.len() as int) + lines@.skip(li.len() as int));
                }
            }
        }
        i = i + 1;
    }
    let ghost mid = visited@;
    let ghost first = line_views(lines@);
    proof {
        assert(roots_pass(ids, edges, 0, start) == (mid, first)) by {
            assert(first + Seq::<(int, int)>::empty() =~= first);
        }
    }
    let ghost l_first = lines@;
    let mut i: usize = 0;
    while i < n
        invariant
            i <= n,
            n == snapshot.nodes@.len(),
            ids == node_ids(*snapshot),
            edges == edge_ids(*snapshot),
            ids.len() == n,
            visited@.len() == n,
            lines_match(lines@, visited@),
            forall|j: int| 0 <= j < i ==> visited@[j],
            lines@.len() >= l_first.len(),
            rest_pass(ids, edges, 0, mid).1 == line_views(lines@).skip(l_first.len() as int)
                + rest_pass(ids, edges, i as int, visited@).1,
            line_views(lines@.take(l_first.len() as int)) == first,
        decreases n - i,
    {
        let ghost vi = visited@;
        let ghost li = lines@;
        if !visited[i] {
            proof {
                lemma_unvisited_bound(vi);
            }
            visit(snapshot, i, 0, &mut visited, &mut lines, Ghost((n + 1) as nat));
            proof {
                assert(line_views(lines@).skip(l_first.len() as int) =~= line_views(li).skip(
                    l_first.len() as int,
                ) + line_views(lines@).skip(li.len() as int));
                assert(lines@.take(l_first.len() as int) =~= lines@.take(li.len() as int).take(
                    l_first.len() as int,
                ));
            }
        } else {
            proof {
                assert(visit_spec(ids, edges, (ids.len() + 1) as nat, i as int, 0, vi) == (
                    vi,
                    Seq::<(int, int)>::empty(),
                ));
                assert(line_views(lines@).skip(l_first.len() as int) + Seq::<(int, int)>::empty()
                    =~= line_views(lines@).skip(l_first.len() as int));
            }
        }
        i = i + 1;
    }
    proof {
        assert(line_views(lines@) =~= line_views(lines@.take(l_first.len() as int)) + line_views(
            lines@,
        ).skip(l_first.len() as int));
        assert(line_views(lines@).skip(l_first.len() as int) + Seq::<(int, int)>::empty() =~= line_views(
            lines@,
        ).skip(l_first.len() as int));
        lemma_lines_cover(lines@, visited@);
    }
    lines
}

proof fn lemma_lines_cover(lines: Seq<TreeLine>, visited: Seq<bool>)
    requires
        lines_match(lines, visited),
        forall|j: int| 0 <= j < visited.len() ==> visited[j],
    ensures
        lines.len() == visited.len(),
{
    let idx = lines.map_values(|l: TreeLine| l.node_index as int);
    assert(idx.no_duplicates()) by {
        assert forall|a: int, b: int| 0 <= a < idx.len() && 0 <= b < idx.len() && a != b implies idx[a]
            != idx[b] by {
            if a < b {
                assert(lines[a].node_index != lines[b].node_index);
            } else {
                assert(lines[b].node_index != lines[a].node_index);
            }
        }
    }
    idx.unique_seq_to_set();
    assert(idx.to_set() =~= vstd::set_lib::set_int_range(0, visited.len() as int)) by {
        assert forall|j: int| idx.to_set().contains(j) <==> vstd::set_lib::set_int_range(
            0,
            visited.len() as int,
        ).contains(j) by {
            if 0 <= j < visited.len() {
                assert(visited[j]);
                let k = choose|k: int| 0 <= k < lines.len() && lines[k].node_index == j;
                assert(idx[k] == j);
            }
            if idx.to_set().contains(j) {
                let k = choose|k: int| 0 <= k < idx.len() && idx[k] == j;
                assert(lines[k].node_index < visited.len());
            }
        }
    }
    vstd::set_lib::lemma_int_range(0, visited.len() as int);
}

} // verus!

verus! {

/// Targets of the out-edges of `id`, in edge order.
pub open spec fn children_spec(edges: Seq<(Seq<char>, Seq<char>)>, id: Seq<char>) -> Seq<Seq<char>>
    decreases edges.len(),
{
    if edges.len() == 0 {
        Seq::empty()
    } else if edges.last().0 == id {
        children_spec(edges.drop_last(), id).push(edges.last().1)
    } else {
        children_spec(edges.drop_last(), id)
    }
}

/// Source of the first edge into `id` at or after edge `k`.
pub open spec fn parent_from(edges: Seq<(Seq<char>, Seq<char>)>, id: Seq<char>, k: int) -> Option<
    Seq<char>,
>
    decreases edges.len() - k,
{
    if k < 0 || k >= edges.len() {
        None
    } else if edges[k].1 == id {
        Some(edges[k].0)
    } else {
        parent_from(edges, id, k + 1)
    }
}

/// The drill-down text of node `i`: id, parent (or the orchestrator-root mark),
/// counters, last task and children.
pub open spec fn node_detail_spec(s: AgentTreeSnapshot, i: int) -> Seq<char> {
    if i < 0 || i >= s.nodes@.len() {
        Seq::empty()
    } else {
        let node = s.nodes@[i];
        let edges = edge_ids(s);
        "Agent: "@ + node.agent_id@ + "\nparent: "@ + match parent_from(edges, node.agent_id@, 0) {
            Some(p) => p,
            None => "- (orchestrator root)"@,
        } + "\ndelegated: "@ + dec(node.delegated_out as nat) + "\ncompleted: "@ + dec(
            node.completed as nat,
        ) + "\nfailed: "@ + dec(node.failed as nat) + "\nlast_task: "@ + match node.last_task {
            Some(t) => t@,
            None => "-"@,
        } + "\nchildren: "@ + join(children_spec(edges, node.agent_id@), ", "@)
    }
}

/// Index of the first edge into `id`, matching `parent_from` from edge 0.
fn first_parent_edge(snapshot: &AgentTreeSnapshot, id: &String) -> (r: Option<usize>)
    ensures
        match r {
            Some(k) => k < snapshot.edges@.len() && parent_from(edge_ids(*snapshot), id@, 0) == Some(
                snapshot.edges@[k as int].0@,
            ),
            None => parent_from(edge_ids(*snapshot), id@, 0) is None,
        },
{
    let ghost edges = edge_ids(*snapshot);
    let mut k: usize = 0;
    while k < snapshot.edges.len()
        invariant
            k <= snapshot.edges@.len(),
            edges == edge_ids(*snapshot),
            parent_from(edges, id@, 0) == parent_from(edges, id@, k as int),
        decreases snapshot.edges@.len() - k,
    {
        if snapshot.edges[k].1 == *id {
            return Some(k);
        }
        k = k + 1;
    }
    None
}

/// Targets of the out-edges of `id`, in edge order.
fn children_of(snapshot: &AgentTreeSnapshot, id: &String) -> (r: Vec<String>)
    ensures
        crate::text::views(r@) == children_spec(edge_ids(*snapshot), id@),
{
    let ghost edges = edge_ids(*snapshot);
    let mut children: Vec<String> = Vec::new();
    let mut k: usize = 0;
    while k < snapshot.edges.len()
        invariant
            k <= snapshot.edges@.len(),
            edges == edge_ids(*snapshot),
            crate::text::views(children@) == children_spec(edges.take(k as int), id@),
        decreases snapshot.edges@.len() - k,
    {
        proof {
            assert(edges.take(k + 1).drop_last() =~= edges.take(k as int));
        }
        if snapshot.edges[k].0 == *id {
            children.push(snapshot.edges[k].1.clone());
            proof {
                assert(crate::text::views(children@) =~= crate::text::views(
                    children@.drop_last(),
                ).push(children@.last()@));
            }
        }
        k = k + 1;
    }
    proof {
        assert(edges.take(snapshot.edges@.len() as int) =~= edges);
    }
    children
}

/// Agent lineage panel: the selected row and the vertical scroll.
#[derive(Debug)]
pub struct AgentTreePanel {
    selected: usize,
    scroll: u16,
}

/// The command that opens the drill-down of row `sel` of the layout.
pub open spec fn drill_down_spec(s: AgentTreeSnapshot, sel: int, r: Option<TuiCommand>) -> bool {
    let lines = tree_lines_spec(node_ids(s), edge_ids(s));
    if 0 <= sel < lines.len() {
        r matches Some(TuiCommand::OpenPopup(PopupKind::Detail { title, content, scroll })) && title@
            == s.nodes@[lines[sel].1].agent_id@ && content@ == node_detail_spec(s, lines[sel].1)
            && scroll == 0
    } else {
        r.is_none()
    }
}

impl Default for AgentTreePanel {
    /// The same as [`AgentTreePanel::new`].
    fn default() -> (r: Self)
        ensures
            r.sel() == 0,
            r.scroll_spec() == 0,
    {
        AgentTreePanel::new()
    }
}

impl AgentTreePanel {
    /// The selected row.
    pub closed spec fn sel(&self) -> usize {
        self.selected
    }

    /// The vertical scroll.
    pub closed spec fn scroll_spec(&self) -> u16 {
        self.scroll
    }

    /// A panel with the first row selected.
    pub fn new() -> (r: Self)
        ensures
            r.sel() == 0,
            r.scroll_spec() == 0,
    {
        AgentTreePanel { selected: 0, scroll: 0 }
    }

    /// This panel's identity.
    pub fn id(&self) -> (r: PanelId)
        ensures
            r == PanelId::AgentTree,
    {
        PanelId::AgentTree
    }

    /// The selected row.
    pub fn selected(&self) -> (r: usize)
        ensures
            r == self.sel(),
    {
        self.selected
    }

    /// The vertical scroll.
    pub fn scroll(&self) -> (r: u16)
        ensures
            r == self.scroll_spec(),
    {
        self.scroll
    }

    /// Clamps the selection to a layout of `line_count` rows.
    fn clamp_selected(&mut self, line_count: usize)
        ensures
            final(self).sel() == crate::panels::list_state::clamp_spec(
                old(self).sel() as int,
                line_count as int,
            ),
            final(self).scroll_spec() == old(self).scroll_spec(),
    {
        if line_count == 0 {
            self.selected = 0;
        } else if self.selected >= line_count {
            self.selected = line_count - 1;
        }
    }

    /// Clamps the selection to `line_count` rows and moves the viewport of
    /// `height` rows so the selected row shows (row numbers taken as `u16`).
    pub fn follow_selection(&mut self, line_count: usize, height: u16)
        requires
            height > 0,
            old(self).scroll_spec() + height <= u16::MAX,
        ensures
            final(self).sel() == crate::panels::list_state::clamp_spec(
                old(self).sel() as int,
                line_count as int,
            ),
            ({
                let s = final(self).sel() as u16;
                let sc = old(self).scroll_spec();
                final(self).scroll_spec() == if s < sc {
                    s
                } else if s >= sc + height {
                    (s - height + 1) as u16
                } else {
                    sc
                }
            }),
    {
        self.clamp_selected(line_count);
        let s: u16 = #[verifier::truncate] (self.selected as u16);
        if s < self.scroll {
            self.scroll = s;
        } else if s >= self.scroll + height {
            self.scroll = s - height + 1;
        }
    }

    /// Handles a key: Up/`k` and Down/`j` move within the layout, Enter opens the
    /// drill-down of the selected agent; releases are ignored.
    pub fn handle_key(&mut self, key: KeyEvent, snapshot: &AgentTreeSnapshot) -> (r: Option<TuiCommand>)
        ensures
            final(self).scroll_spec() == old(self).scroll_spec(),
            !key.press ==> r.is_none() && final(self).sel() == old(self).sel(),
            key.press ==> {
                let n = snapshot.nodes@.len() as int;
                let s0 = crate::panels::list_state::clamp_spec(old(self).sel() as int, n);
                if key.code == KeyCode::Up || key.code == KeyCode::Char('k') {
                    r.is_none() && final(self).sel() == (if s0 > 0 { s0 - 1 } else { 0 })
                } else if key.code == KeyCode::Down || key.code == KeyCode::Char('j') {
                    r.is_none() && final(self).sel() == (if n > 0 && s0 + 1 < n { s0 + 1 } else { s0 })
                } else if key.code == KeyCode::Enter {
                    final(self).sel() == s0 && drill_down_spec(*snapshot, s0, r)
                } else {
                    r.is_none() && final(self).sel() == s0
                }
            },
    {
        if !key.press {
            return None;
        }
        let lines = build_tree_lines(snapshot);
        self.clamp_selected(lines.len());
        match key.code {
            KeyCode::Up | KeyCode::Char('k') => {
                self.selected = self.selected.saturating_sub(1);
            },
            KeyCode::Down | KeyCode::Char('j') => {
                if lines.len() > 0 && self.selected + 1 < lines.len() {
                    self.selected = self.selected + 1;
                }
            },
            KeyCode::Enter => {
                if self.selected < lines.len() {
                    let idx = lines[self.selected].node_index;
                    proof {
                        assert(line_views(lines@)[self.selected as int].1 == idx);
                    }
                    let title = snapshot.nodes[idx].agent_id.clone();
                    let content = AgentTreePanel::node_detail_content(snapshot, idx);
                    return Some(TuiCommand::OpenPopup(PopupKind::Detail { title, content, scroll: 0 }));
                }
            },
            _ => {},
        }
        None
    }

    /// Builds the drill-down text of node `node_index`; empty when out of range.
    pub fn node_detail_content(snapshot: &AgentTreeSnapshot, node_index: usize) -> (r: String)
        ensures
            r@ == node_detail_spec(*snapshot, node_index as int),
    {
        if node_index >= snapshot.nodes.len() {
            return String::new();
        }
        let node = &snapshot.nodes[node_index];
        let children = children_of(snapshot, &node.agent_id);
        let parent = first_parent_edge(snapshot, &node.agent_id);
        let mut out = string_of("Agent: ");
        push_str(&mut out, node.agent_id.as_str());
        push_str(&mut out, "\nparent: ");
        match parent {
            Some(k) => push_str(&mut out, snapshot.edges[k].0.as_str()),
            None => push_str(&mut out, "- (orchestrator root)"),
        }
        push_str(&mut out, "\ndelegated: ");
        push_u64(&mut out, node.delegated_out);
        push_str(&mut out, "\ncompleted: ");
        push_u64(&mut out, node.completed);
        push_str(&mut out, "\nfailed: ");
        push_u64(&mut out, node.failed);
        push_str(&mut out, "\nlast_task: ");
        match &node.last_task {
            Some(t) => push_str(&mut out, t.as_str()),
            None => push_str(&mut out, "-"),
        }
        push_str(&mut out, "\nchildren: ");
        let joined = crate::text::join_strings(&children, ", ");
        push_str(&mut out, joined.as_str());
        out
    }

    /// Draws a frame of `height` rows: with agents, lays the tree out, follows
    /// the selection, and returns the rows in view — indent, connector below
    /// the roots, agent id and its completed, failed and delegated counts; the
    /// selected row is highlighted, an agent with failures is an alert. Without
    /// agents, the `empty` line; with no room, nothing.
    pub fn render(&mut self, snapshot: &AgentTreeSnapshot, height: u16, empty: &str) -> (r: Vec<ToneLine>)
        requires
            old(self).scroll_spec() + height <= u16::MAX,
        ensures
            height == 0 ==> r@.len() == 0 && *final(self) == *old(self),
            height > 0 && snapshot.nodes@.len() == 0 ==> tone_views(r@) == seq![(empty@, LineTone::Muted)]
                && *final(self) == *old(self),
            height > 0 && snapshot.nodes@.len() > 0 ==> {
                let lines = tree_lines_spec(node_ids(*snapshot), edge_ids(*snapshot));
                let sel = final(self).sel() as int;
                let sc = final(self).scroll_spec() as int;
                let shown = if lines.len() - sc < height as int { lines.len() - sc } else { height as int };
                &&& sel == crate::panels::list_state::clamp_spec(old(self).sel() as int, lines.len() as int)
                &&& sc == ({
                    let s = sel as u16;
                    let sc0 = old(self).scroll_spec();
                    if s < sc0 {
                        s
                    } else if s >= sc0 + height {
                        (s - height + 1) as u16
                    } else {
                        sc0
                    }
                }) as int
                &&& tone_views(r@) == Seq::new(
                    (if shown > 0 { shown } else { 0 }) as nat,
                    |k: int| tree_row(snapshot.nodes@[lines[sc + k].1], lines[sc + k].0, sc + k == sel),
                )
            },
    {
        let mut rows: Vec<ToneLine> = Vec::new();
        if height == 0 {
            return rows;
        }
        if snapshot.nodes.len() == 0 {
            push_line(&mut rows, string_of(empty), LineTone::Muted);
            return rows;
        }
        let lines = build_tree_lines(snapshot);
        self.follow_selection(lines.len(), height);
        let ghost lv = line_views(lines@);
        let sc = self.scroll as usize;
        let total = lines.len();
        let shown = if sc >= total {
            0
        } else if total - sc < height as usize {
            total - sc
        } else {
            height as usize
        };
        let ghost want = Seq::new(
            shown as nat,
            |k: int| tree_row(snapshot.nodes@[lv[sc + k].1], lv[sc + k].0, sc + k == self.sel()),
        );
        let mut k: usize = 0;
        while k < shown
            invariant
                k <= shown,
                sc + shown <= total,
                total == lines@.len(),
                lv == line_views(lines@),
                forall|j: int| 0 <= j < lines@.len() ==> #[trigger] lines@[j].node_index < snapshot.nodes@.len(),
                want == Seq::new(
                    shown as nat,
                    |k: int| tree_row(snapshot.nodes@[lv[sc + k].1], lv[sc + k].0, sc + k == self.sel()),
                ),
                tone_views(rows@) == want.take(k as int),
            decreases shown - k,
        {
            let line = lines[sc + k];
            let node = &snapshot.nodes[line.node_index];
            let mut label = String::new();
            proof {
                assert(lv[sc + k as int] == (line.depth as int, line.node_index as int));
            }
            push_spaces(&mut label, line.depth);
            push_spaces(&mut label, line.depth);
            proof {
                assert(spaces(line.depth as nat) + spaces(line.depth as nat) =~= spaces((2 * line.depth) as nat));
            }
            if line.depth != 0 {
                push_str(&mut label, "└─ ");
            }
            push_str(&mut label, node.agent_id.as_str());
            push_str(&mut label, " [✓");
            push_u64(&mut label, node.completed);
            push_str(&mut label, " ✗");
            push_u64(&mut label, node.failed);
            push_str(&mut label, " ⇢");
            push_u64(&mut label, node.delegated_out);
            push_str(&mut label, "]");
            let tone = if sc + k == self.selected {
                LineTone::Highlight
            } else if node.failed > 0 {
                LineTone::Alert
            } else {
                LineTone::Good
            };
            proof {
                assert(want[k as int] == (label@, tone));
                assert(want.take(k + 1) =~= want.take(k as int).push((label@, tone)));
            }
            push_line(&mut rows, label, tone);
            k = k + 1;
        }
        proof {
            assert(want.take(shown as int) =~= want);
        }
        rows
    }

    /// Jumps to the first row.
    pub fn scroll_to_top(&mut self)
        ensures
            final(self).sel() == 0,
            final(self).scroll_spec() == 0,
    {
        self.selected = 0;
        self.scroll = 0;
    }

    /// Jumps to the last row of the layout.
    pub fn scroll_to_bottom(&mut self, snapshot: &AgentTreeSnapshot)
        ensures
            final(self).sel() == (if snapshot.nodes@.len() > 0 { snapshot.nodes@.len() - 1 } else { 0 }),
            final(self).scroll_spec() == old(self).scroll_spec(),
    {
        let lines = build_tree_lines(snapshot);
        self.selected = lines.len().saturating_sub(1);
    }
}

} // verus!
