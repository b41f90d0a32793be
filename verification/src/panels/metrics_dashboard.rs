//! Metrics dashboard: a 5 x 2 grid of chart cells, each bound to a data source
//! and a chart kind, with a selected cell moved by the arrow keys.
use vstd::prelude::*;
use crate::input::{KeyCode, KeyEvent};
use crate::text::{dec, push_str, push_u64, string_of};
use crate::types::{PanelId, TuiCommand};

verus! {

/// Rows of the grid.
pub const GRID_ROWS: usize = 5;

/// Columns of the grid.
pub const GRID_COLS: usize = 2;

/// Cells of the grid.
pub const GRID_SIZE: usize = 10;

/// How a cell draws its data.
#[derive(Debug, Clone, Copy, PartialEq, Eq, Structural)]
pub enum VizChartKind {
    LineChart,
    Heatmap,
    BarChart,
    Gauge,
    Histogram,
}

/// Row-major cell index of `(row, col)`, when inside the grid.
pub open spec fn position_index(position: (usize, usize)) -> Option<int> {
    if position.0 < GRID_ROWS && position.1 < GRID_COLS {
        Some(position.0 * GRID_COLS + position.1)
    } else {
        None
    }
}

/// Number of bound cells among the first `n`.
pub open spec fn bound_count<S>(cells: Seq<Option<(S, VizChartKind)>>, n: int) -> nat
    decreases n,
{
    if n <= 0 {
        0
    } else {
        bound_count(cells, n - 1) + if cells[n - 1] is Some {
            1nat
        } else {
            0nat
        }
    }
}

/// The selected cell after a key, in the grid of `GRID_ROWS` x `GRID_COLS`.
pub open spec fn grid_move(sel: int, code: KeyCode) -> int {
    if code == KeyCode::Up || code == KeyCode::Char('k') {
        if sel >= GRID_COLS { sel - GRID_COLS } else { sel }
    } else if code == KeyCode::Down || code == KeyCode::Char('j') {
        if sel + GRID_COLS < GRID_SIZE { sel + GRID_COLS } else { sel }
    } else if code == KeyCode::Left || code == KeyCode::Char('h') {
        if sel % (GRID_COLS as int) != 0 { sel - 1 } else { sel }
    } else if code == KeyCode::Right {
        if sel % (GRID_COLS as int) < GRID_COLS - 1 && sel + 1 < GRID_SIZE { sel + 1 } else { sel }
    } else {
        sel
    }
}

/// The dashboard: one optional `(source, kind)` binding per cell, and the selected cell.
pub struct MetricsDashboardPanel<S> {
    cells: Vec<Option<(S, VizChartKind)>>,
    selected: usize,
}

impl<S> MetricsDashboardPanel<S> {
    /// The grid has `GRID_SIZE` cells and the selection lies inside it.
    #[verifier::type_invariant]
    spec fn grid_ok(self) -> bool {
        &&& self.cells@.len() == GRID_SIZE
        &&& self.selected < GRID_SIZE
    }

    /// The bindings, row-major.
    pub closed spec fn bindings(&self) -> Seq<Option<(S, VizChartKind)>> {
        self.cells@
    }

    /// The selected cell.
    pub closed spec fn sel(&self) -> usize {
        self.selected
    }

    /// An empty grid with the first cell selected.
    pub fn new() -> (r: Self)
        ensures
            r.bindings().len() == GRID_SIZE,
            forall|i: int| 0 <= i < GRID_SIZE ==> r.bindings()[i] is None,
            r.sel() == 0,
    {
        let cells = empty_cells::<S>();
        MetricsDashboardPanel { cells, selected: 0 }
    }

    /// This panel's identity.
    pub fn id(&self) -> (r: PanelId)
        ensures
            r == PanelId::MetricsDashboard,
    {
        PanelId::MetricsDashboard
    }

    /// Row-major index of `(row, col)`, or `None` outside the grid.
    pub fn position_to_index(&self, position: (usize, usize)) -> (r: Option<usize>)
        ensures
            match position_index(position) {
                Some(i) => r == Some(i as usize),
                None => r is None,
            },
            r matches Some(i) ==> i < GRID_SIZE,
    {
        let (row, col) = position;
        if row < GRID_ROWS && col < GRID_COLS {
            Some(row * GRID_COLS + col)
        } else {
            None
        }
    }

    /// Binds the cell at `position` to `source` drawn as `kind`; a position
    /// outside the grid changes nothing.
    pub fn bind(&mut self, source: S, kind: VizChartKind, position: (usize, usize))
        ensures
            match position_index(position) {
                Some(i) => final(self).bindings() == old(self).bindings().update(i, Some((source, kind))),
                None => final(self).bindings() == old(self).bindings(),
            },
            final(self).sel() == old(self).sel(),
            final(self).bindings().len() == GRID_SIZE,
    {
        proof {
            use_type_invariant(&*self);
        }
        match self.position_to_index(position) {
            Some(idx) => {
                let mut cells = empty_cells::<S>();
                std::mem::swap(&mut cells, &mut self.cells);
                cells.set(idx, Some((source, kind)));
                self.cells = cells;
            },
            None => {},
        }
    }

    /// Clears the cell at `position`; a position outside the grid changes nothing.
    pub fn unbind(&mut self, position: (usize, usize))
        ensures
            match position_index(position) {
                Some(i) => final(self).bindings() == old(self).bindings().update(i, None),
                None => final(self).bindings() == old(self).bindings(),
            },
            final(self).sel() == old(self).sel(),
            final(self).bindings().len() == GRID_SIZE,
    {
        proof {
            use_type_invariant(&*self);
        }
        match self.position_to_index(position) {
            Some(idx) => {
                let mut cells = empty_cells::<S>();
                std::mem::swap(&mut cells, &mut self.cells);
                cells.set(idx, None);
                self.cells = cells;
            },
            None => {},
        }
    }

    /// The summary line of the timeout guards over the grid: the timeouts per
    /// operation, global and orphaned, then the word saying coverage is not reported.
    pub fn gqep_summary(per_op: u64, global: u64, orphan: u64, coverage_unreported: &str) -> (r: String)
        ensures
            r@ == "GQEP Timeout: per_op="@ + dec(per_op as nat) + "  global="@ + dec(global as nat) + "  orphan="@
                + dec(orphan as nat) + "  "@ + coverage_unreported@,
    {
        let mut s = string_of("GQEP Timeout: per_op=");
        push_u64(&mut s, per_op);
        push_str(&mut s, "  global=");
        push_u64(&mut s, global);
        push_str(&mut s, "  orphan=");
        push_u64(&mut s, orphan);
        push_str(&mut s, "  ");
        push_str(&mut s, coverage_unreported);
        s
    }

    /// Number of bound cells, at most [`GRID_SIZE`].
    pub fn cell_count(&self) -> (r: usize)
        ensures
            r == bound_count(self.bindings(), self.bindings().len() as int),
            r <= GRID_SIZE,
            self.bindings().len() == GRID_SIZE,
    {
        proof {
            use_type_invariant(self);
        }
        let mut n: usize = 0;
        let mut i: usize = 0;
        while i < self.cells.len()
            invariant
                i <= self.cells@.len(),
                self.cells@.len() == GRID_SIZE,
                n == bound_count(self.cells@, i as int),
                n <= i,
            decreases self.cells@.len() - i,
        {
            if self.cells[i].is_some() {
                n = n + 1;
            }
            i = i + 1;
        }
        n
    }

    /// The selected cell.
    pub fn selected(&self) -> (r: usize)
        ensures
            r == self.sel(),
            r < GRID_SIZE,
            self.bindings().len() == GRID_SIZE,
    {
        proof {
            use_type_invariant(self);
        }
        self.selected
    }

    /// The binding of the selected cell.
    pub fn selected_binding(&self) -> (r: &Option<(S, VizChartKind)>)
        ensures
            *r == self.bindings()[self.sel() as int],
    {
        proof {
            use_type_invariant(self);
        }
        &self.cells[self.selected]
    }

    /// Up/`k`, Down/`j`, Left/`h` and Right move the selection within the grid,
    /// staying put at its edges; other keys are ignored.
    pub fn handle_key(&mut self, key: KeyEvent) -> (r: Option<TuiCommand>)
        ensures
            r is None,
            final(self).sel() == grid_move(old(self).sel() as int, key.code),
            final(self).sel() < GRID_SIZE,
            final(self).bindings() == old(self).bindings(),
    {
        proof {
            use_type_invariant(&*self);
        }
        match key.code {
            KeyCode::Up | KeyCode::Char('k') => {
                if self.selected >= GRID_COLS {
                    self.selected = self.selected - GRID_COLS;
                }
            },
            KeyCode::Down | KeyCode::Char('j') => {
                if self.selected + GRID_COLS < GRID_SIZE {
                    self.selected = self.selected + GRID_COLS;
                }
            },
            KeyCode::Left | KeyCode::Char('h') => {
                if self.selected % GRID_COLS != 0 {
                    self.selected = self.selected - 1;
                }
            },
            KeyCode::Right => {
                if self.selected % GRID_COLS < GRID_COLS - 1 && self.selected + 1 < GRID_SIZE {
                    self.selected = self.selected + 1;
                }
            },
            _ => {},
        }
        None
    }

    /// Jumps to the first cell.
    pub fn scroll_to_top(&mut self)
        ensures
            final(self).sel() == 0,
            final(self).bindings() == old(self).bindings(),
    {
        proof {
            use_type_invariant(&*self);
        }
        self.selected = 0;
    }

    /// Jumps to the last cell.
    pub fn scroll_to_bottom(&mut self)
        ensures
            final(self).sel() == GRID_SIZE - 1,
            final(self).bindings() == old(self).bindings(),
    {
        proof {
            use_type_invariant(&*self);
        }
        self.selected = GRID_SIZE - 1;
    }
}

/// A grid of unbound cells.
fn empty_cells<S>() -> (r: Vec<Option<(S, VizChartKind)>>)
    ensures
        r@.len() == GRID_SIZE,
        forall|i: int| 0 <= i < GRID_SIZE ==> r@[i] is None,
{
    let mut cells: Vec<Option<(S, VizChartKind)>> = Vec::new();
    let mut i: usize = 0;
    while i < GRID_SIZE
        invariant
            i <= GRID_SIZE,
            cells@.len() == i,
            forall|j: int| 0 <= j < i ==> cells@[j] is None,
        decreases GRID_SIZE - i,
    {
        cells.push(None);
        i = i + 1;
    }
    cells
}

/// Binding then unbinding a grid cell leaves it unbound, and the other cells as they were.
pub proof fn lemma_bind_unbind<S>(cells: Seq<Option<(S, VizChartKind)>>, i: int, b: (S, VizChartKind))
    requires
        0 <= i < cells.len(),
    ensures
        cells.update(i, Some(b)).update(i, None) == cells.update(i, None),
{
    assert(cells.update(i, Some(b)).update(i, None) =~= cells.update(i, None));
}

/// A call on the dashboard as far as its bindings are concerned: a bind, an
/// unbind, or a move of the selection (keys, jumps), which keeps them.
pub enum GridCall<S> {
    Bind(S, VizChartKind, (usize, usize)),
    Unbind((usize, usize)),
    Navigate,
}

/// The bindings after a call, as [`MetricsDashboardPanel::bind`],
/// [`MetricsDashboardPanel::unbind`] and the navigation calls state it.
pub open spec fn apply_call<S>(cells: Seq<Option<(S, VizChartKind)>>, c: GridCall<S>) -> Seq<
    Option<(S, VizChartKind)>,
> {
    match c {
        GridCall::Bind(source, kind, position) => match position_index(position) {
            Some(i) => cells.update(i, Some((source, kind))),
            None => cells,
        },
        GridCall::Unbind(position) => match position_index(position) {
            Some(i) => cells.update(i, None),
            None => cells,
        },
        GridCall::Navigate => cells,
    }
}

/// The bindings of a new dashboard.
pub open spec fn empty_grid<S>() -> Seq<Option<(S, VizChartKind)>> {
    Seq::new(GRID_SIZE as nat, |i: int| None)
}

/// The bindings after the calls, in order, from `start`.
pub open spec fn replay<S>(start: Seq<Option<(S, VizChartKind)>>, calls: Seq<GridCall<S>>) -> Seq<
    Option<(S, VizChartKind)>,
>
    decreases calls.len(),
{
    if calls.len() == 0 {
        start
    } else {
        apply_call(replay(start, calls.drop_last()), calls.last())
    }
}

/// Whether the last bind or unbind that reached cell `i` was a bind.
pub open spec fn last_bound<S>(calls: Seq<GridCall<S>>, i: int) -> bool
    decreases calls.len(),
{
    if calls.len() == 0 {
        false
    } else {
        match calls.last() {
            GridCall::Bind(_, _, position) if position_index(position) == Some(i) => true,
            GridCall::Unbind(position) if position_index(position) == Some(i) => false,
            _ => last_bound(calls.drop_last(), i),
        }
    }
}

/// Number of cells among the first `n` whose last bind was not undone.
pub open spec fn count_last_bound<S>(calls: Seq<GridCall<S>>, n: int) -> nat
    decreases n,
{
    if n <= 0 {
        0
    } else {
        count_last_bound(calls, n - 1) + if last_bound(calls, n - 1) {
            1nat
        } else {
            0nat
        }
    }
}

/// Cell `i` of the replayed bindings is bound exactly when its last bind was not undone.
proof fn lemma_replay_cell<S>(calls: Seq<GridCall<S>>)
    ensures
        replay(empty_grid::<S>(), calls).len() == GRID_SIZE,
        forall|i: int|
            0 <= i < GRID_SIZE ==> (#[trigger] replay(empty_grid::<S>(), calls)[i] is Some <==> last_bound(calls, i)),
    decreases calls.len(),
{
    if calls.len() > 0 {
        lemma_replay_cell(calls.drop_last());
    }
}

/// Counting bound cells counts the cells whose last bind was not undone.
proof fn lemma_count_matches<S>(calls: Seq<GridCall<S>>, n: int)
    requires
        0 <= n <= GRID_SIZE,
    ensures
        bound_count(replay(empty_grid::<S>(), calls), n) == count_last_bound(calls, n),
        count_last_bound(calls, n) <= n,
    decreases n,
{
    lemma_replay_cell(calls);
    if n > 0 {
        lemma_count_matches(calls, n - 1);
        assert(replay(empty_grid::<S>(), calls)[n - 1] is Some <==> last_bound(calls, n - 1));
    }
}

/// On a dashboard reached from a new one by any calls, the number of bound
/// cells is the number of grid cells whose last bind was not followed by an
/// unbind of that cell; binds outside the grid never count, and there are at
/// most [`GRID_SIZE`].
pub proof fn lemma_cell_count_after_calls<S>(calls: Seq<GridCall<S>>)
    ensures
        replay(empty_grid::<S>(), calls).len() == GRID_SIZE,
        bound_count(replay(empty_grid::<S>(), calls), GRID_SIZE as int) == count_last_bound(calls, GRID_SIZE as int),
        count_last_bound(calls, GRID_SIZE as int) <= GRID_SIZE,
{
    lemma_replay_cell(calls);
    lemma_count_matches(calls, GRID_SIZE as int);
}

/// The law on the dashboard itself: `run[0]` is a new dashboard and each
/// `run[k + 1]` the dashboard after call `calls[k]`, which changes the
/// bindings as that call's contract states (bind, unbind, or a key or jump
/// that keeps them). The last dashboard then holds the replayed bindings, and
/// its cell count is the number of grid cells whose last bind was not followed
/// by an unbind of that cell, at most [`GRID_SIZE`].
pub proof fn lemma_dashboard_count_over_run<S>(run: Seq<MetricsDashboardPanel<S>>, calls: Seq<GridCall<S>>)
    requires
        run.len() == calls.len() + 1,
        run[0].bindings().len() == GRID_SIZE,
        forall|i: int| 0 <= i < GRID_SIZE ==> run[0].bindings()[i] is None,
        forall|k: int|
            0 <= k < calls.len() ==> #[trigger] run[k + 1].bindings() == apply_call(run[k].bindings(), calls[k]),
    ensures
        run.last().bindings() == replay(empty_grid::<S>(), calls),
        bound_count(run.last().bindings(), GRID_SIZE as int) == count_last_bound(calls, GRID_SIZE as int),
        count_last_bound(calls, GRID_SIZE as int) <= GRID_SIZE,
    decreases calls.len(),
{
    if calls.len() == 0 {
        assert(run[0].bindings() =~= empty_grid::<S>());
    } else {
        let front = run.drop_last();
        let before = calls.drop_last();
        assert forall|k: int| 0 <= k < before.len() implies #[trigger] front[k + 1].bindings() == apply_call(
            front[k].bindings(),
            before[k],
        ) by {
            assert(run[k + 1].bindings() == apply_call(run[k].bindings(), calls[k]));
        }
        lemma_dashboard_count_over_run(front, before);
        let m = calls.len() - 1;
        assert(run[m + 1].bindings() == apply_call(run[m].bindings(), calls[m]));
        assert(front.last() == run[m]);
    }
    lemma_cell_count_after_calls(calls);
}

/// Setting cell `i` to `v` changes the count of bound cells among the first
/// `n` by the difference between `v` and the old cell.
proof fn lemma_count_after_update<S>(
    cells: Seq<Option<(S, VizChartKind)>>,
    i: int,
    v: Option<(S, VizChartKind)>,
    n: int,
)
    requires
        0 <= i < cells.len(),
        0 <= n <= cells.len(),
    ensures
        bound_count(cells.update(i, v), n) + (if i < n && cells[i] is Some { 1int } else { 0int })
            == bound_count(cells, n) + (if i < n && v is Some { 1int } else { 0int }),
    decreases n,
{
    if n > 0 {
        lemma_count_after_update(cells, i, v, n - 1);
    }
}

/// Binding a cell of the grid adds one bound cell when it was free and keeps
/// the count when it was bound; unbinding removes one when it was bound and
/// keeps the count when it was free.
pub proof fn lemma_bind_unbind_counts<S>(cells: Seq<Option<(S, VizChartKind)>>, i: int, b: (S, VizChartKind))
    requires
        cells.len() == GRID_SIZE,
        0 <= i < GRID_SIZE,
    ensures
        bound_count(cells.update(i, Some(b)), GRID_SIZE as int) == bound_count(cells, GRID_SIZE as int) + if cells[i]
            is None {
            1int
        } else {
            0int
        },
        bound_count(cells.update(i, None), GRID_SIZE as int) == bound_count(cells, GRID_SIZE as int) - if cells[i]
            is Some {
            1int
        } else {
            0int
        },
{
    lemma_count_after_update(cells, i, Some(b), GRID_SIZE as int);
    lemma_count_after_update(cells, i, None, GRID_SIZE as int);
}

/// Unbinding is idempotent: unbinding a cell twice is unbinding it once, and
/// unbinding a cell that is not bound changes nothing.
pub proof fn lemma_unbind_idempotent<S>(cells: Seq<Option<(S, VizChartKind)>>, i: int)
    requires
        0 <= i < cells.len(),
    ensures
        cells.update(i, None).update(i, None) == cells.update(i, None),
        cells[i] is None ==> cells.update(i, None) == cells,
{
    assert(cells.update(i, None).update(i, None) =~= cells.update(i, None));
    if cells[i] is None {
        assert(cells.update(i, None) =~= cells);
    }
}

} // verus!
