use vstd::prelude::*;

verus! {

/// Search windows start within this distance of the origin, leaving room
/// for 32-bit arithmetic on the cells inside them.
pub const WORLD_COORD_LIMIT: i32 = 2_000_000_000;

/// Largest side of a search window, in cells.
pub const MAX_WINDOW_SIDE: usize = 10_000;

/// Cost of a straight step between neighbouring cells.
pub const STRAIGHT_COST: i32 = 10;

/// Cost of a diagonal step between neighbouring cells.
pub const DIAGONAL_COST: i32 = 14;

/// A cell of the navigation grid.
#[derive(Clone, Copy, Debug, PartialEq, Eq, Hash, PartialOrd, Ord, Structural)]
pub struct GridPos {
    pub x: i32,
    pub z: i32,
}

pub open spec fn abs(v: int) -> int {
    if v < 0 {
        -v
    } else {
        v
    }
}

pub open spec fn min(a: int, b: int) -> int {
    if a <= b {
        a
    } else {
        b
    }
}

pub open spec fn max(a: int, b: int) -> int {
    if a >= b {
        a
    } else {
        b
    }
}

pub open spec fn clamp_spec(v: int, lo: int, hi: int) -> int {
    if v < lo {
        lo
    } else if v > hi {
        hi
    } else {
        v
    }
}

/// Taxicab distance between two cells.
pub open spec fn manhattan(a: GridPos, b: GridPos) -> int {
    abs(a.x - b.x) + abs(a.z - b.z)
}

/// The cell `(dx, dz)` away from `p`.
pub open spec fn shifted(p: GridPos, dx: int, dz: int) -> GridPos {
    GridPos { x: (p.x + dx) as i32, z: (p.z + dz) as i32 }
}

/// Cost of a single step by `(dx, dz)`.
pub open spec fn step_cost(dx: int, dz: int) -> i32 {
    if dx != 0 && dz != 0 {
        DIAGONAL_COST
    } else {
        STRAIGHT_COST
    }
}

impl GridPos {
    /// This cell moved into the rectangle `[0, width) x [0, height)`.
    pub fn clamp(self, width: i32, height: i32) -> (c: GridPos)
        requires
            width >= 1,
            height >= 1,
        ensures
            c.x == clamp_spec(self.x as int, 0, width - 1),
            c.z == clamp_spec(self.z as int, 0, height - 1),
    {
        let x = if self.x < 0 {
            0
        } else if self.x > width - 1 {
            width - 1
        } else {
            self.x
        };
        let z = if self.z < 0 {
            0
        } else if self.z > height - 1 {
            height - 1
        } else {
            self.z
        };
        GridPos { x, z }
    }
}

/// The mathematical content of a [`SearchGrid`].
pub struct GridView {
    pub min_x: int,
    pub min_z: int,
    pub cells: Seq<Seq<bool>>,
    pub check_corners: bool,
}

impl GridView {
    pub open spec fn width(self) -> int {
        self.cells.len() as int
    }

    pub open spec fn height(self) -> int {
        if self.cells.len() == 0 {
            0
        } else {
            self.cells[0].len() as int
        }
    }

    /// Rectangular, of bounded size and placed where coordinates cannot overflow.
    pub open spec fn wf(self) -> bool {
        &&& 1 <= self.width() <= MAX_WINDOW_SIDE
        &&& 1 <= self.height() <= MAX_WINDOW_SIDE
        &&& forall|i: int| 0 <= i < self.width() ==> #[trigger] self.cells[i].len() == self.height()
        &&& -WORLD_COORD_LIMIT <= self.min_x <= WORLD_COORD_LIMIT
        &&& -WORLD_COORD_LIMIT <= self.min_z <= WORLD_COORD_LIMIT
    }

    /// The cell lies inside the window.
    pub open spec fn contains(self, p: GridPos) -> bool {
        &&& self.min_x <= p.x < self.min_x + self.width()
        &&& self.min_z <= p.z < self.min_z + self.height()
    }

    /// The cell at `(x, z)` lies inside the window and can be walked on.
    pub open spec fn open(self, x: int, z: int) -> bool {
        let i = x - self.min_x;
        let j = z - self.min_z;
        &&& 0 <= i < self.cells.len()
        &&& 0 <= j < self.cells[i].len()
        &&& self.cells[i][j]
    }

    /// One move of the search from `a` to `b`: to one of the eight
    /// neighbours, onto an open cell, and, where corners are checked, a
    /// diagonal move only when both cells it passes are open.
    pub open spec fn step_ok(self, a: GridPos, b: GridPos) -> bool {
        let dx = b.x - a.x;
        let dz = b.z - a.z;
        &&& -1 <= dx <= 1
        &&& -1 <= dz <= 1
        &&& !(dx == 0 && dz == 0)
        &&& self.open(b.x as int, b.z as int)
        &&& (self.check_corners && dx != 0 && dz != 0) ==> (self.open(a.x + dx, a.z as int)
            && self.open(a.x as int, a.z + dz))
    }

    /// The successor offered for the offset `(dx, dz)`, if the move is allowed.
    pub open spec fn candidate(self, p: GridPos, dx: int, dz: int) -> Seq<(GridPos, i32)> {
        let q = shifted(p, dx, dz);
        if self.step_ok(p, q) {
            seq![(q, step_cost(dx, dz))]
        } else {
            seq![]
        }
    }

    /// All successors of a cell with their step costs, in the order of the
    /// offsets `dx` then `dz` from -1 to 1.
    pub open spec fn neighbors(self, p: GridPos) -> Seq<(GridPos, i32)> {
        if !self.contains(p) {
            seq![]
        } else {
            self.candidate(p, -1, -1) + self.candidate(p, -1, 0) + self.candidate(p, -1, 1)
                + self.candidate(p, 0, -1) + self.candidate(p, 0, 1) + self.candidate(p, 1, -1)
                + self.candidate(p, 1, 0) + self.candidate(p, 1, 1)
        }
    }

    /// `path` walks from `s` to `t` by allowed moves.
    pub open spec fn valid_path(self, s: GridPos, t: GridPos, path: Seq<GridPos>) -> bool {
        &&& path.len() >= 1
        &&& path[0] == s
        &&& path.last() == t
        &&& forall|i: int| 0 <= i < path.len() - 1 ==> #[trigger] self.step_ok(path[i], path[i + 1])
    }

    pub open spec fn reachable(self, s: GridPos, t: GridPos) -> bool {
        exists|path: Seq<GridPos>| self.valid_path(s, t, path)
    }
}

/// Every entry of `s` is an allowed move from `p` with its step cost.
pub open spec fn all_steps(g: GridView, p: GridPos, s: Seq<(GridPos, i32)>) -> bool {
    forall|k: int|
        0 <= k < s.len() ==> g.step_ok(p, (#[trigger] s[k]).0) && s[k].1 == step_cost(
            s[k].0.x - p.x,
            s[k].0.z - p.z,
        )
}

/// Some entry of `s` moves to `q`.
pub open spec fn offers(s: Seq<(GridPos, i32)>, q: GridPos) -> bool {
    exists|k: int| 0 <= k < s.len() && (#[trigger] s[k]).0 == q
}

proof fn lemma_all_steps_concat(g: GridView, p: GridPos, a: Seq<(GridPos, i32)>, b: Seq<(GridPos, i32)>)
    requires
        all_steps(g, p, a),
        all_steps(g, p, b),
    ensures
        all_steps(g, p, a + b),
{
    assert forall|k: int| 0 <= k < (a + b).len() implies g.step_ok(p, (#[trigger] (a + b)[k]).0) && (a
        + b)[k].1 == step_cost((a + b)[k].0.x - p.x, (a + b)[k].0.z - p.z) by {
        if k < a.len() {
            assert((a + b)[k] == a[k]);
        } else {
            assert((a + b)[k] == b[k - a.len()]);
        }
    }
}

proof fn lemma_offers_concat(a: Seq<(GridPos, i32)>, b: Seq<(GridPos, i32)>, q: GridPos)
    requires
        offers(a, q) || offers(b, q),
    ensures
        offers(a + b, q),
{
    if offers(a, q) {
        let k = choose|k: int| 0 <= k < a.len() && (#[trigger] a[k]).0 == q;
        assert((a + b)[k] == a[k]);
    } else {
        let k = choose|k: int| 0 <= k < b.len() && (#[trigger] b[k]).0 == q;
        assert((a + b)[k + a.len()] == b[k]);
    }
}

/// The successors handed to the search are exactly the allowed moves from
/// a cell of the window, each with its step cost.
pub proof fn lemma_neighbors_exact(g: GridView, p: GridPos, q: GridPos)
    requires
        g.wf(),
        g.contains(p),
    ensures
        all_steps(g, p, g.neighbors(p)),
        g.step_ok(p, q) <==> offers(g.neighbors(p), q),
{
    let c1 = g.candidate(p, -1, -1);
    let c2 = g.candidate(p, -1, 0);
    let c3 = g.candidate(p, -1, 1);
    let c4 = g.candidate(p, 0, -1);
    let c5 = g.candidate(p, 0, 1);
    let c6 = g.candidate(p, 1, -1);
    let c7 = g.candidate(p, 1, 0);
    let c8 = g.candidate(p, 1, 1);
    assert(all_steps(g, p, c1) && all_steps(g, p, c2) && all_steps(g, p, c3) && all_steps(g, p, c4));
    assert(all_steps(g, p, c5) && all_steps(g, p, c6) && all_steps(g, p, c7) && all_steps(g, p, c8));
    lemma_all_steps_concat(g, p, c1, c2);
    lemma_all_steps_concat(g, p, c1 + c2, c3);
    lemma_all_steps_concat(g, p, c1 + c2 + c3, c4);
    lemma_all_steps_concat(g, p, c1 + c2 + c3 + c4, c5);
    lemma_all_steps_concat(g, p, c1 + c2 + c3 + c4 + c5, c6);
    lemma_all_steps_concat(g, p, c1 + c2 + c3 + c4 + c5 + c6, c7);
    lemma_all_steps_concat(g, p, c1 + c2 + c3 + c4 + c5 + c6 + c7, c8);
    let n = g.neighbors(p);
    if g.step_ok(p, q) {
        let dx = q.x - p.x;
        let dz = q.z - p.z;
        assert(q == shifted(p, dx, dz));
        let c = g.candidate(p, dx, dz);
        assert(c[0].0 == q);
        assert(offers(c, q));
        if dx == -1 && dz == -1 {
            lemma_offers_concat(c1, c2, q);
        } else if dx == -1 && dz == 0 {
            lemma_offers_concat(c1, c2, q);
        } else if dx == -1 && dz == 1 {
            lemma_offers_concat(c1 + c2, c3, q);
        } else if dx == 0 && dz == -1 {
            lemma_offers_concat(c1 + c2 + c3, c4, q);
        } else if dx == 0 && dz == 1 {
            lemma_offers_concat(c1 + c2 + c3 + c4, c5, q);
        } else if dx == 1 && dz == -1 {
            lemma_offers_concat(c1 + c2 + c3 + c4 + c5, c6, q);
        } else if dx == 1 && dz == 0 {
            lemma_offers_concat(c1 + c2 + c3 + c4 + c5 + c6, c7, q);
        } else {
            lemma_offers_concat(c1 + c2 + c3 + c4 + c5 + c6 + c7, c8, q);
        }
        if dx == -1 && dz <= 0 {
            lemma_offers_concat(c1 + c2, c3, q);
        }
        if dx == -1 || (dx == 0 && dz == -1) {
            lemma_offers_concat(c1 + c2 + c3, c4, q);
        }
        if dx == -1 || (dx == 0) {
            lemma_offers_concat(c1 + c2 + c3 + c4, c5, q);
        }
        if dx <= 0 || (dx == 1 && dz == -1) {
            lemma_offers_concat(c1 + c2 + c3 + c4 + c5, c6, q);
        }
        if dx <= 0 || (dx == 1 && dz <= 0) {
            lemma_offers_concat(c1 + c2 + c3 + c4 + c5 + c6, c7, q);
        }
        if !(dx == 1 && dz == 1) {
            lemma_offers_concat(c1 + c2 + c3 + c4 + c5 + c6 + c7, c8, q);
        }
        assert(n == c1 + c2 + c3 + c4 + c5 + c6 + c7 + c8);
    }
    if offers(n, q) {
        let k = choose|k: int| 0 <= k < n.len() && (#[trigger] n[k]).0 == q;
        assert(g.step_ok(p, n[k].0));
    }
}

/// No move of a corner-checked search slips diagonally past a blocked
/// cell: on every diagonal step of a found path both cells beside it are open.
pub proof fn lemma_no_corner_cutting(g: GridView, s: GridPos, t: GridPos, path: Seq<GridPos>, i: int)
    requires
        g.check_corners,
        g.valid_path(s, t, path),
        0 <= i < path.len() - 1,
        path[i + 1].x != path[i].x,
        path[i + 1].z != path[i].z,
    ensures
        g.open(path[i + 1].x as int, path[i].z as int),
        g.open(path[i].x as int, path[i + 1].z as int),
{
    assert(g.step_ok(path[i], path[i + 1]));
}

/// Walkability of a rectangular window of cells: `cells[i][j]` tells
/// whether the cell `(min_x + i, min_z + j)` can be walked on.
pub struct SearchGrid {
    pub min_x: i32,
    pub min_z: i32,
    pub cells: Vec<Vec<bool>>,
    pub check_corners: bool,
}

impl View for SearchGrid {
    type V = GridView;

    open spec fn view(&self) -> GridView {
        GridView {
            min_x: self.min_x as int,
            min_z: self.min_z as int,
            cells: self.cells@.map_values(|r: Vec<bool>| r@),
            check_corners: self.check_corners,
        }
    }
}

impl SearchGrid {
    /// Whether the cell `(x, z)` is inside the window and walkable.
    pub fn is_open(&self, x: i32, z: i32) -> (b: bool)
        ensures
            b == self@.open(x as int, z as int),
    {
        let i = x as i64 - self.min_x as i64;
        let j = z as i64 - self.min_z as i64;
        if i < 0 || j < 0 {
            return false;
        }
        if i as u64 >= self.cells.len() as u64 {
            return false;
        }
        let row = &self.cells[i as usize];
        if j as u64 >= row.len() as u64 {
            return false;
        }
        row[j as usize]
    }

    /// Whether the cell lies inside the window.
    pub fn contains(&self, p: &GridPos) -> (b: bool)
        requires
            self@.wf(),
        ensures
            b == self@.contains(*p),
    {
        let i = p.x as i64 - self.min_x as i64;
        let j = p.z as i64 - self.min_z as i64;
        i >= 0 && j >= 0 && (i as u64) < self.cells.len() as u64 && (j as u64) < self.cells[0].len() as u64
    }
}

/// An open cell of a well-formed window lies inside it.
pub proof fn lemma_open_is_contained(g: GridView, p: GridPos)
    requires
        g.wf(),
        g.open(p.x as int, p.z as int),
    ensures
        g.contains(p),
{
    let i = p.x - g.min_x;
    assert(g.cells[i].len() == g.height());
}

/// Book-keeping carried through one search: how many cells were expanded
/// and, while `track_closest` holds, the first successor met that lies
/// strictly closer to `goal` than any met before.
#[derive(Clone, Copy, Debug, PartialEq, Eq, Structural)]
pub struct SearchTracker {
    pub expanded: usize,
    pub track_closest: bool,
    pub goal: GridPos,
    pub origin: GridPos,
    pub closest: GridPos,
    pub min_h: i64,
}

/// The closest cell recorded so far is at distance `min_h`, and it is
/// either where the search began or an open cell strictly closer than that.
pub open spec fn tracker_inv(t: SearchTracker, g: GridView) -> bool {
    &&& t.min_h == manhattan(t.closest, t.goal)
    &&& (t.closest == t.origin || (t.min_h < manhattan(t.origin, t.goal) && g.open(
        t.closest.x as int,
        t.closest.z as int,
    )))
}

/// The tracker after meeting the successors in `c` (none or one).
pub open spec fn note_candidate(t: SearchTracker, c: Seq<(GridPos, i32)>) -> SearchTracker {
    if c.len() == 1 && t.track_closest && manhattan(c[0].0, t.goal) < t.min_h {
        SearchTracker { closest: c[0].0, min_h: manhattan(c[0].0, t.goal) as i64, ..t }
    } else {
        t
    }
}

/// The tracker after expanding `p` once.
pub open spec fn tracker_after(t: SearchTracker, g: GridView, p: GridPos) -> SearchTracker {
    let t0 = SearchTracker {
        expanded: if t.expanded < usize::MAX {
            (t.expanded + 1) as usize
        } else {
            t.expanded
        },
        ..t
    };
    if !g.contains(p) {
        t0
    } else {
        let t1 = note_candidate(t0, g.candidate(p, -1, -1));
        let t2 = note_candidate(t1, g.candidate(p, -1, 0));
        let t3 = note_candidate(t2, g.candidate(p, -1, 1));
        let t4 = note_candidate(t3, g.candidate(p, 0, -1));
        let t5 = note_candidate(t4, g.candidate(p, 0, 1));
        let t6 = note_candidate(t5, g.candidate(p, 1, -1));
        let t7 = note_candidate(t6, g.candidate(p, 1, 0));
        note_candidate(t7, g.candidate(p, 1, 1))
    }
}

/// A tracker for a search from `start` towards `goal`.
pub open spec fn initial_tracker(start: GridPos, goal: GridPos, track_closest: bool) -> SearchTracker {
    SearchTracker {
        expanded: 0,
        track_closest,
        goal,
        origin: start,
        closest: start,
        min_h: manhattan(start, goal) as i64,
    }
}

proof fn lemma_note_keeps_inv(t: SearchTracker, g: GridView, p: GridPos, dx: int, dz: int)
    requires
        tracker_inv(t, g),
    ensures
        tracker_inv(note_candidate(t, g.candidate(p, dx, dz)), g),
        note_candidate(t, g.candidate(p, dx, dz)).expanded == t.expanded,
        note_candidate(t, g.candidate(p, dx, dz)).track_closest == t.track_closest,
        note_candidate(t, g.candidate(p, dx, dz)).goal == t.goal,
        note_candidate(t, g.candidate(p, dx, dz)).origin == t.origin,
        !t.track_closest ==> note_candidate(t, g.candidate(p, dx, dz)).closest == t.closest,
{
}

/// Expanding a cell keeps the tracker's invariant.
pub proof fn lemma_tracker_after_keeps_inv(t: SearchTracker, g: GridView, p: GridPos)
    requires
        tracker_inv(t, g),
    ensures
        tracker_inv(tracker_after(t, g, p), g),
        tracker_after(t, g, p).expanded >= t.expanded,
        tracker_after(t, g, p).goal == t.goal,
        tracker_after(t, g, p).origin == t.origin,
        tracker_after(t, g, p).track_closest == t.track_closest,
        !t.track_closest ==> tracker_after(t, g, p).closest == t.closest,
{
    let t0 = SearchTracker {
        expanded: if t.expanded < usize::MAX {
            (t.expanded + 1) as usize
        } else {
            t.expanded
        },
        ..t
    };
    if g.contains(p) {
        let t1 = note_candidate(t0, g.candidate(p, -1, -1));
        lemma_note_keeps_inv(t0, g, p, -1, -1);
        let t2 = note_candidate(t1, g.candidate(p, -1, 0));
        lemma_note_keeps_inv(t1, g, p, -1, 0);
        let t3 = note_candidate(t2, g.candidate(p, -1, 1));
        lemma_note_keeps_inv(t2, g, p, -1, 1);
        let t4 = note_candidate(t3, g.candidate(p, 0, -1));
        lemma_note_keeps_inv(t3, g, p, 0, -1);
        let t5 = note_candidate(t4, g.candidate(p, 0, 1));
        lemma_note_keeps_inv(t4, g, p, 0, 1);
        let t6 = note_candidate(t5, g.candidate(p, 1, -1));
        lemma_note_keeps_inv(t5, g, p, 1, -1);
        let t7 = note_candidate(t6, g.candidate(p, 1, 0));
        lemma_note_keeps_inv(t6, g, p, 1, 0);
        lemma_note_keeps_inv(t7, g, p, 1, 1);
    }
}

fn manhattan_exec(a: &GridPos, b: &GridPos) -> (d: i64)
    ensures
        d == manhattan(*a, *b),
{
    let dx = a.x as i64 - b.x as i64;
    let dz = a.z as i64 - b.z as i64;
    let ax = if dx < 0 {
        -dx
    } else {
        dx
    };
    let az = if dz < 0 {
        -dz
    } else {
        dz
    };
    ax + az
}

/// Appends the successor for offset `(dx, dz)` of `p`, if the move is
/// allowed, and notes it in the tracker.
fn consider(
    grid: &SearchGrid,
    p: &GridPos,
    dx: i32,
    dz: i32,
    out: &mut Vec<(GridPos, i32)>,
    tracker: &mut SearchTracker,
)
    requires
        grid@.wf(),
        grid@.contains(*p),
        -1 <= dx <= 1,
        -1 <= dz <= 1,
        !(dx == 0 && dz == 0),
    ensures
        final(out)@ == old(out)@ + grid@.candidate(*p, dx as int, dz as int),
        *final(tracker) == note_candidate(*old(tracker), grid@.candidate(*p, dx as int, dz as int)),
{
    let q = GridPos { x: p.x + dx, z: p.z + dz };
    let mut ok = grid.is_open(q.x, q.z);
    if ok && grid.check_corners && dx != 0 && dz != 0 {
        ok = grid.is_open(p.x + dx, p.z) && grid.is_open(p.x, p.z + dz);
    }
    assert(q == shifted(*p, dx as int, dz as int));
    assert(ok == grid@.step_ok(*p, q));
    if ok {
        let cost = if dx != 0 && dz != 0 {
            DIAGONAL_COST
        } else {
            STRAIGHT_COST
        };
        out.push((q, cost));
        if tracker.track_closest {
            let h = manhattan_exec(&q, &tracker.goal);
            if h < tracker.min_h {
                tracker.closest = q;
                tracker.min_h = h;
            }
        }
    }
}

/// The successors of `p` with their step costs, counting the expansion
/// in `tracker` and noting closer cells there while it tracks them.
pub fn expand(grid: &SearchGrid, p: &GridPos, tracker: &mut SearchTracker) -> (out: Vec<(GridPos, i32)>)
    requires
        grid@.wf(),
    ensures
        out@ == grid@.neighbors(*p),
        *final(tracker) == tracker_after(*old(tracker), grid@, *p),
{
    if tracker.expanded < usize::MAX {
        tracker.expanded = tracker.expanded + 1;
    }
    let mut out: Vec<(GridPos, i32)> = Vec::new();
    if !grid.contains(p) {
        assert(out@ =~= grid@.neighbors(*p));
        return out;
    }
    consider(grid, p, -1, -1, &mut out, tracker);
    consider(grid, p, -1, 0, &mut out, tracker);
    consider(grid, p, -1, 1, &mut out, tracker);
    consider(grid, p, 0, -1, &mut out, tracker);
    consider(grid, p, 0, 1, &mut out, tracker);
    consider(grid, p, 1, -1, &mut out, tracker);
    consider(grid, p, 1, 0, &mut out, tracker);
    consider(grid, p, 1, 1, &mut out, tracker);
    assert(out@ =~= grid@.neighbors(*p));
    out
}

/// Ten times the taxicab distance to `target`, capped at `i32::MAX`.
pub fn heuristic(p: &GridPos, target: &GridPos) -> (h: i32)
    ensures
        h == min(10 * manhattan(*p, *target), i32::MAX as int),
{
    let d = manhattan_exec(p, target);
    let h = d * 10;
    if h > i32::MAX as i64 {
        i32::MAX
    } else {
        h as i32
    }
}

/// Whether the search has reached `target`.
pub fn is_target(p: &GridPos, target: &GridPos) -> (b: bool)
    ensures
        b == (*p == *target),
{
    p.x == target.x && p.z == target.z
}

/// What the A* search of the `pathfinding` crate returns for this grid,
/// start and target, and the tracker it leaves behind.
pub uninterp spec fn astar_outcome(grid: GridView, start: GridPos, target: GridPos, tracker: SearchTracker) -> (Option<Seq<GridPos>>, SearchTracker);

pub open spec fn opt_view(p: Option<Vec<GridPos>>) -> Option<Seq<GridPos>> {
    match p {
        Some(v) => Some(v@),
        None => None,
    }
}

/// Calls `pathfinding::prelude::astar` with [`expand`] as the successor
/// function, [`heuristic`] and [`is_target`], and keeps only the path.
/// Trusted: the result and final tracker are what that search computes
/// (named `astar_outcome`); a returned path is one of its successor chains,
/// so it starts at `start`, ends at `target`, moves by allowed steps and
/// (as the crate documents) never holds a cell twice;
/// `None` comes only when the search has exhausted every cell reachable
/// from `start`, so the target cannot be reached. The crate's optimality
/// promise needs an admissible heuristic, which this one is not, so no
/// clause speaks of cost.
#[verifier::external_body]
fn run_astar(grid: &SearchGrid, start: GridPos, target: GridPos, tracker: &mut SearchTracker) -> (path: Option<Vec<GridPos>>)
    requires
        grid@.wf(),
        grid@.contains(start),
        grid@.contains(target),
    ensures
        (opt_view(path), *final(tracker)) == astar_outcome(grid@, start, target, *old(tracker)),
        path matches Some(p) ==> grid@.valid_path(start, target, p@) && p@.no_duplicates(),
        path is None ==> !grid@.reachable(start, target),
        tracker_inv(*old(tracker), grid@) ==> tracker_inv(*final(tracker), grid@),
        final(tracker).expanded >= old(tracker).expanded,
        final(tracker).goal == old(tracker).goal,
        final(tracker).origin == old(tracker).origin,
        final(tracker).track_closest == old(tracker).track_closest,
{
    pathfinding::prelude::astar(
        &start,
        |p| expand(grid, p, tracker),
        |p| heuristic(p, &target),
        |p| is_target(p, &target),
    ).map(|found| found.0)
}

/// The inclusive corners `(min, max)` of the window searched between two
/// cells: the smallest box holding both.
pub open spec fn spec_search_bounds(start: GridPos, goal: GridPos) -> (GridPos, GridPos) {
    (
        GridPos { x: min(start.x as int, goal.x as int) as i32, z: min(start.z as int, goal.z as int) as i32 },
        GridPos { x: max(start.x as int, goal.x as int) as i32, z: max(start.z as int, goal.z as int) as i32 },
    )
}

/// The window covers exactly the corners `bounds`.
pub open spec fn covers(g: GridView, bounds: (GridPos, GridPos)) -> bool {
    &&& g.min_x == bounds.0.x
    &&& g.min_z == bounds.0.z
    &&& g.width() == bounds.1.x - bounds.0.x + 1
    &&& g.height() == bounds.1.z - bounds.0.z + 1
}

/// The window a detailed search uses: the box spanned by the two cells,
/// so a path never leaves the rectangle between start and goal.
pub fn search_bounds(start: GridPos, goal: GridPos) -> (b: (GridPos, GridPos))
    ensures
        b == spec_search_bounds(start, goal),
{
    let lo_x = if start.x <= goal.x {
        start.x
    } else {
        goal.x
    };
    let lo_z = if start.z <= goal.z {
        start.z
    } else {
        goal.z
    };
    let hi_x = if start.x >= goal.x {
        start.x
    } else {
        goal.x
    };
    let hi_z = if start.z >= goal.z {
        start.z
    } else {
        goal.z
    };
    (GridPos { x: lo_x, z: lo_z }, GridPos { x: hi_x, z: hi_z })
}

/// The inputs and counters of a detailed search, for logging failures.
#[derive(Clone, Debug, PartialEq, Eq, Structural)]
pub struct PathfindDiagnostics {
    pub start_grid: GridPos,
    pub goal_grid: GridPos,
    pub start_walkable: bool,
    pub goal_walkable: bool,
    pub expanded_nodes: usize,
    pub min_search_grid: GridPos,
    pub max_search_grid: GridPos,
}

/// A detailed search's outcome: the cells of the path, whether it leads
/// to the cell closest to an unreachable goal instead of the goal, and the
/// diagnostics.
pub struct GridPathResult {
    pub path: Option<Vec<GridPos>>,
    pub fallback_triggered: bool,
    pub diagnostics: PathfindDiagnostics,
}

impl GridPathResult {
    /// Whether the last waypoint is to be replaced by the exact goal position.
    pub fn ends_at_exact_goal(&self) -> (b: bool)
        ensures
            b == (self.path is Some && !self.fallback_triggered && self.diagnostics.goal_walkable),
    {
        self.path.is_some() && !self.fallback_triggered && self.diagnostics.goal_walkable
    }
}

/// After a first search toward the goal: the cell to search toward next,
/// which is the closest cell met, unless the goal was found or no cell
/// closer than the start was met.
pub fn fallback_target(found: bool, start: GridPos, closest: GridPos) -> (t: Option<GridPos>)
    ensures
        t == (if found || closest == start {
            None::<GridPos>
        } else {
            Some(closest)
        }),
{
    if found || (closest.x == start.x && closest.z == start.z) {
        None
    } else {
        Some(closest)
    }
}

/// The result a detailed search owes for the given inputs.
pub open spec fn detailed_outcome(
    grid: GridView,
    start: GridPos,
    goal: GridPos,
    start_walkable: bool,
    goal_walkable: bool,
) -> (Option<Seq<GridPos>>, bool, usize) {
    if !start_walkable || !goal_walkable {
        (None, false, 0)
    } else {
        let first = astar_outcome(grid, start, goal, initial_tracker(start, goal, true));
        match first.0 {
            Some(p) => (Some(p), false, first.1.expanded),
            None => if first.1.closest == start {
                (None, false, first.1.expanded)
            } else {
                let second = astar_outcome(
                    grid,
                    start,
                    first.1.closest,
                    SearchTracker { track_closest: false, ..first.1 },
                );
                (second.0, true, second.1.expanded)
            },
        }
    }
}

/// Detailed A* search between two cells over the window given by
/// [`search_bounds`], with diagonal moves that do not cut corners. Nothing
/// is searched when the start or the goal position is not walkable. When
/// the goal cannot be reached, it searches instead toward the closest cell
/// to the goal met during the first search.
pub fn find_path_detailed(
    start_grid: GridPos,
    goal_grid: GridPos,
    start_walkable: bool,
    goal_walkable: bool,
    grid: &SearchGrid,
) -> (r: GridPathResult)
    requires
        grid@.wf(),
        grid.check_corners,
        covers(grid@, spec_search_bounds(start_grid, goal_grid)),
    ensures
        (opt_view(r.path), r.fallback_triggered, r.diagnostics.expanded_nodes) == detailed_outcome(
            grid@,
            start_grid,
            goal_grid,
            start_walkable,
            goal_walkable,
        ),
        r.diagnostics.start_grid == start_grid,
        r.diagnostics.goal_grid == goal_grid,
        r.diagnostics.start_walkable == start_walkable,
        r.diagnostics.goal_walkable == goal_walkable,
        (r.diagnostics.min_search_grid, r.diagnostics.max_search_grid) == spec_search_bounds(start_grid, goal_grid),
        !start_walkable || !goal_walkable ==> r.path is None && r.diagnostics.expanded_nodes == 0,
        !r.fallback_triggered ==> (r.path matches Some(p) ==> grid@.valid_path(start_grid, goal_grid, p@)),
        r.path matches Some(p) ==> p@.no_duplicates(),
        r.fallback_triggered ==> (r.path matches Some(p) ==> exists|t: GridPos|
            #![trigger grid@.valid_path(start_grid, t, p@)]
            t != start_grid && manhattan(t, goal_grid) < manhattan(start_grid, goal_grid)
                && grid@.valid_path(start_grid, t, p@)),
        r.fallback_triggered ==> !grid@.reachable(start_grid, goal_grid),
        start_walkable && goal_walkable && grid@.reachable(start_grid, goal_grid) ==> r.path is Some
            && !r.fallback_triggered,
{
    let bounds = search_bounds(start_grid, goal_grid);
    let min_search_grid = bounds.0;
    let max_search_grid = bounds.1;
    if !start_walkable || !goal_walkable {
        return GridPathResult {
            path: None,
            fallback_triggered: false,
            diagnostics: PathfindDiagnostics {
                start_grid,
                goal_grid,
                start_walkable,
                goal_walkable,
                expanded_nodes: 0,
                min_search_grid,
                max_search_grid,
            },
        };
    }
    let h0 = manhattan_exec(&start_grid, &goal_grid);
    let mut tracker = SearchTracker {
        expanded: 0,
        track_closest: true,
        goal: goal_grid,
        origin: start_grid,
        closest: start_grid,
        min_h: h0,
    };
    let ghost t_init = tracker;
    assert(t_init == initial_tracker(start_grid, goal_grid, true));
    let first = run_astar(grid, start_grid, goal_grid, &mut tracker);
    let ghost t_first = tracker;
    let found = first.is_some();
    let (path, fallback_triggered) = match fallback_target(found, start_grid, tracker.closest) {
        None => (first, false),
        Some(target) => {
            assert(grid@.contains(target)) by {
                lemma_open_is_contained(grid@, target);
            }
            tracker.track_closest = false;
            let second = run_astar(grid, start_grid, target, &mut tracker);
            (second, true)
        },
    };
    GridPathResult {
        path,
        fallback_triggered,
        diagnostics: PathfindDiagnostics {
            start_grid,
            goal_grid,
            start_walkable,
            goal_walkable,
            expanded_nodes: tracker.expanded,
            min_search_grid,
            max_search_grid,
        },
    }
}

/// The whole of a walkability grid as a search window at the origin,
/// without the corner rule.
pub open spec fn whole_grid(walkability: Seq<Vec<bool>>) -> GridView {
    GridView { min_x: 0, min_z: 0, cells: walkability.map_values(|r: Vec<bool>| r@), check_corners: false }
}

/// A* over a whole walkability grid (indexed `[x][z]`) between two cells,
/// each first clamped into the grid; diagonal moves may pass corners.
pub fn find_path(walkability: Vec<Vec<bool>>, start: GridPos, goal: GridPos) -> (path: Option<Vec<GridPos>>)
    requires
        1 <= walkability.len() <= MAX_WINDOW_SIDE,
        1 <= walkability[0].len() <= MAX_WINDOW_SIDE,
        forall|i: int| 0 <= i < walkability.len() ==> #[trigger] walkability[i].len() == walkability[0].len(),
    ensures
        ({
            let g = whole_grid(walkability@);
            let s = GridPos {
                x: clamp_spec(start.x as int, 0, walkability.len() - 1) as i32,
                z: clamp_spec(start.z as int, 0, walkability[0].len() - 1) as i32,
            };
            let t = GridPos {
                x: clamp_spec(goal.x as int, 0, walkability.len() - 1) as i32,
                z: clamp_spec(goal.z as int, 0, walkability[0].len() - 1) as i32,
            };
            &&& opt_view(path) == astar_outcome(g, s, t, initial_tracker(s, t, false)).0
            &&& (path matches Some(p) ==> g.valid_path(s, t, p@) && p@.no_duplicates())
            &&& (path is None ==> !g.reachable(s, t))
        }),
{
    let width = walkability.len() as i32;
    let height = walkability[0].len() as i32;
    let s = start.clamp(width, height);
    let t = goal.clamp(width, height);
    let grid = SearchGrid { min_x: 0, min_z: 0, cells: walkability, check_corners: false };
    assert(grid@ == whole_grid(walkability@));
    assert forall|i: int| 0 <= i < grid@.width() implies #[trigger] grid@.cells[i].len() == grid@.height() by {
        assert(grid@.cells[i] == grid.cells@[i]@);
        assert(grid@.cells[0] == grid.cells@[0]@);
        assert(walkability[i].len() == walkability[0].len());
    }
    let h0 = manhattan_exec(&s, &t);
    let mut tracker = SearchTracker {
        expanded: 0,
        track_closest: false,
        goal: t,
        origin: s,
        closest: s,
        min_h: h0,
    };
    assert(tracker == initial_tracker(s, t, false));
    run_astar(&grid, s, t, &mut tracker)
}

} // verus!
