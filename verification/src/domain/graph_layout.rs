//! Lane assignment for the revision graph.
//!
//! Rows are processed from the youngest to the oldest. A list of lanes
//! holds, for each lane, the commit that the lane is waiting for (a commit
//! that some earlier row named as a parent). A row's node goes into the lane
//! that waits for it, or into the first free lane; the row then frees its
//! lane and reserves a lane for each parent.
use crate::domain::models::{ids_view, CommitId, GraphRow, GraphRowVisual};
use vstd::prelude::*;

verus! {

/// What each lane waits for: `Some(commit)` or `None` for a free lane.
pub type Lanes = Seq<Option<Seq<char>>>;

/// The abstract lanes of a vector of lanes.
pub open spec fn lanes_view(v: Seq<Option<CommitId>>) -> Lanes {
    v.map_values(|l: Option<CommitId>| match l {
        Some(c) => Some(c@),
        None => None,
    })
}

/// `i` is the first free lane.
pub open spec fn is_first_free(lanes: Lanes, i: int) -> bool {
    &&& 0 <= i < lanes.len()
    &&& lanes[i] is None
    &&& forall|j: int| 0 <= j < i ==> #[trigger] lanes[j] is Some
}

/// The first free lane, if there is one.
pub open spec fn first_free(lanes: Lanes) -> Option<int> {
    if exists|i: int| is_first_free(lanes, i) {
        Some(choose|i: int| is_first_free(lanes, i))
    } else {
        None
    }
}

/// `i` is the first lane that waits for `id`.
pub open spec fn is_first_holding(lanes: Lanes, id: Seq<char>, i: int) -> bool {
    &&& 0 <= i < lanes.len()
    &&& lanes[i] == Some(id)
    &&& forall|j: int| 0 <= j < i ==> #[trigger] lanes[j] != Some(id)
}

/// The lane that waits for `id`, if there is one.
pub open spec fn lane_holding(lanes: Lanes, id: Seq<char>) -> Option<int> {
    if exists|i: int| is_first_holding(lanes, id, i) {
        Some(choose|i: int| is_first_holding(lanes, id, i))
    } else {
        None
    }
}

/// Reserves a new lane for `id`: the first free lane, or a new lane at the end.
pub open spec fn place(lanes: Lanes, id: Seq<char>) -> (Lanes, int) {
    match first_free(lanes) {
        Some(i) => (lanes.update(i, Some(id)), i),
        None => (lanes.push(Some(id)), lanes.len() as int),
    }
}

/// The lane of `id`: the lane that already waits for it, else a newly reserved one.
pub open spec fn claim(lanes: Lanes, id: Seq<char>) -> (Lanes, int) {
    match lane_holding(lanes, id) {
        Some(i) => (lanes, i),
        None => place(lanes, id),
    }
}

/// Reserves a lane for a parent of the commit drawn in lane `col`: that lane
/// when it is free, else the first free lane, else a new lane at the end.
pub open spec fn place_parent(lanes: Lanes, id: Seq<char>, col: int) -> (Lanes, int) {
    if 0 <= col < lanes.len() && lanes[col] is None {
        (lanes.update(col, Some(id)), col)
    } else {
        place(lanes, id)
    }
}

/// The lane of a parent `id` of the commit drawn in lane `col`: the lane that
/// already waits for it, else a newly reserved one (see `place_parent`).
pub open spec fn claim_parent(lanes: Lanes, id: Seq<char>, col: int) -> (Lanes, int) {
    match lane_holding(lanes, id) {
        Some(i) => (lanes, i),
        None => place_parent(lanes, id, col),
    }
}

/// Claims a lane for each parent in turn, for the commit drawn in lane
/// `col`; gives the lanes and each parent's lane.
pub open spec fn claim_all(lanes: Lanes, parents: Seq<Seq<char>>, col: int) -> (Lanes, Seq<int>)
    decreases parents.len(),
{
    if parents.len() == 0 {
        (lanes, Seq::empty())
    } else {
        let (l1, cols) = claim_all(lanes, parents.drop_last(), col);
        let (l2, c) = claim_parent(l1, parents.last(), col);
        (l2, cols.push(c))
    }
}

/// Which lanes are occupied.
pub open spec fn occupancy(lanes: Lanes) -> Seq<bool> {
    lanes.map_values(|l: Option<Seq<char>>| l is Some)
}

/// Smallest of `c` and the values of `s`.
pub open spec fn seq_min_with(s: Seq<int>, c: int) -> int
    decreases s.len(),
{
    if s.len() == 0 {
        c
    } else {
        let m = seq_min_with(s.drop_last(), c);
        if s.last() < m {
            s.last()
        } else {
            m
        }
    }
}

/// Largest of `c` and the values of `s`.
pub open spec fn seq_max_with(s: Seq<int>, c: int) -> int
    decreases s.len(),
{
    if s.len() == 0 {
        c
    } else {
        let m = seq_max_with(s.drop_last(), c);
        if s.last() > m {
            s.last()
        } else {
            m
        }
    }
}

/// The outcome of laying out one row.
pub struct LaneStep {
    /// Lanes after the row.
    pub lanes: Lanes,
    pub column: int,
    pub active: Seq<bool>,
    pub parent_columns: Seq<int>,
    pub connector: Seq<bool>,
}

/// Lays out one row (commit `id` with `parents`) given the lanes before it.
pub open spec fn step(lanes: Lanes, id: Seq<char>, parents: Seq<Seq<char>>) -> LaneStep {
    let (l1, col) = claim(lanes, id);
    let l2 = l1.update(col, None);
    let (l3, pcols) = claim_all(l2, parents, col);
    LaneStep {
        lanes: l3,
        column: col,
        active: occupancy(l1),
        parent_columns: pcols,
        connector: occupancy(l3),
    }
}

/// The lanes before row `k`.
pub open spec fn lanes_before(rows: Seq<GraphRow>, k: nat) -> Lanes
    decreases k,
{
    if k == 0 {
        Seq::empty()
    } else {
        let r = rows[k - 1];
        step(lanes_before(rows, (k - 1) as nat), r.commit_id@, ids_view(r.parents@)).lanes
    }
}

/// The layout of row `k`.
pub open spec fn row_step(rows: Seq<GraphRow>, k: int) -> LaneStep {
    let r = rows[k];
    step(lanes_before(rows, k as nat), r.commit_id@, ids_view(r.parents@))
}

/// The visual of `new` is the layout `st`, and every other field of `new` is that of `old`.
pub open spec fn laid_out(old_row: GraphRow, new_row: GraphRow, st: LaneStep) -> bool {
    &&& new_row.commit_id == old_row.commit_id
    &&& new_row.commit_id_short == old_row.commit_id_short
    &&& new_row.change_id == old_row.change_id
    &&& new_row.change_id_short == old_row.change_id_short
    &&& new_row.description == old_row.description
    &&& new_row.author == old_row.author
    &&& new_row.timestamp == old_row.timestamp
    &&& new_row.timestamp_secs == old_row.timestamp_secs
    &&& new_row.is_working_copy == old_row.is_working_copy
    &&& new_row.is_immutable == old_row.is_immutable
    &&& new_row.has_conflict == old_row.has_conflict
    &&& new_row.parents == old_row.parents
    &&& new_row.bookmarks == old_row.bookmarks
    &&& new_row.changed_files == old_row.changed_files
    &&& new_row.visual.continuing_lanes == old_row.visual.continuing_lanes
    &&& new_row.visual.column == st.column
    &&& new_row.visual.active_lanes@ == st.active
    &&& new_row.visual.connector_lanes@ == st.connector
    &&& new_row.visual.parent_columns@ == st.parent_columns.map_values(|c: int| c as usize)
    &&& new_row.visual.parent_min == seq_min_with(st.parent_columns, st.column)
    &&& new_row.visual.parent_max == seq_max_with(st.parent_columns, st.column)
}

proof fn lemma_first_free_unique(lanes: Lanes, a: int, b: int)
    requires
        is_first_free(lanes, a),
        is_first_free(lanes, b),
    ensures
        a == b,
{
    if a < b {
        assert(lanes[a] is Some);
    } else if b < a {
        assert(lanes[b] is Some);
    }
}

proof fn lemma_first_holding_unique(lanes: Lanes, id: Seq<char>, a: int, b: int)
    requires
        is_first_holding(lanes, id, a),
        is_first_holding(lanes, id, b),
    ensures
        a == b,
{
    if a < b {
        assert(lanes[a] != Some(id));
    } else if b < a {
        assert(lanes[b] != Some(id));
    }
}


/// No commit waits in two lanes.
pub open spec fn lanes_distinct(lanes: Lanes) -> bool {
    forall|i: int, j: int|
        0 <= i < j < lanes.len() && #[trigger] lanes[i] is Some ==> lanes[i] != #[trigger] lanes[j]
}

/// `after` keeps every occupied lane of `before`.
pub open spec fn keeps_occupied(before: Lanes, after: Lanes) -> bool {
    &&& before.len() <= after.len()
    &&& forall|i: int| 0 <= i < before.len() && #[trigger] before[i] is Some ==> after[i] == before[i]
}

proof fn lemma_claim(lanes: Lanes, id: Seq<char>)
    ensures
        keeps_occupied(lanes, claim(lanes, id).0),
        0 <= claim(lanes, id).1 < claim(lanes, id).0.len(),
        claim(lanes, id).0[claim(lanes, id).1] == Some(id),
        lanes_distinct(lanes) ==> lanes_distinct(claim(lanes, id).0),
{
    lemma_claim_bounds(lanes, id);
    match lane_holding(lanes, id) {
        Some(i) => {},
        None => {
            assert forall|k: int| 0 <= k < lanes.len() implies lanes[k] != Some(id) by {
                if lanes[k] == Some(id) {
                    let k0 = choose|k0: int| 0 <= k0 < lanes.len() && lanes[k0] == Some(id)
                        && forall|j: int| 0 <= j < k0 ==> lanes[j] != Some(id);
                    // the smallest holding lane exists
                    lemma_first_holding_exists(lanes, id, k);
                }
            }
            match first_free(lanes) {
                Some(e) => {
                    let k = choose|k: int| is_first_free(lanes, k);
                    assert(is_first_free(lanes, k));
                },
                None => {},
            }
        },
    }
}

proof fn lemma_first_holding_exists(lanes: Lanes, id: Seq<char>, k: int)
    requires
        0 <= k < lanes.len(),
        lanes[k] == Some(id),
    ensures
        lane_holding(lanes, id) is Some,
    decreases k,
{
    if forall|j: int| 0 <= j < k ==> #[trigger] lanes[j] != Some(id) {
        assert(is_first_holding(lanes, id, k));
    } else {
        let j = choose|j: int| 0 <= j < k && #[trigger] lanes[j] == Some(id);
        lemma_first_holding_exists(lanes, id, j);
    }
}

/// A parent's claim is the plain claim, except when no lane waits for the
/// parent and the commit's own lane is free.
proof fn lemma_claim_parent_cases(lanes: Lanes, id: Seq<char>, col: int)
    ensures
        !(lane_holding(lanes, id) is None && 0 <= col < lanes.len() && lanes[col] is None)
            ==> claim_parent(lanes, id, col) == claim(lanes, id),
{
}

proof fn lemma_no_lane_holds(lanes: Lanes, id: Seq<char>)
    requires
        lane_holding(lanes, id) is None,
    ensures
        forall|k: int| 0 <= k < lanes.len() ==> lanes[k] != Some(id),
{
    assert forall|k: int| 0 <= k < lanes.len() implies lanes[k] != Some(id) by {
        if lanes[k] == Some(id) {
            lemma_first_holding_exists(lanes, id, k);
        }
    }
}

proof fn lemma_claim_parent(lanes: Lanes, id: Seq<char>, col: int)
    ensures
        keeps_occupied(lanes, claim_parent(lanes, id, col).0),
        claim_parent(lanes, id, col).0.len() >= lanes.len(),
        0 <= claim_parent(lanes, id, col).1 < claim_parent(lanes, id, col).0.len(),
        claim_parent(lanes, id, col).0[claim_parent(lanes, id, col).1] == Some(id),
        lanes_distinct(lanes) ==> lanes_distinct(claim_parent(lanes, id, col).0),
{
    lemma_claim_parent_cases(lanes, id, col);
    if lane_holding(lanes, id) is None && 0 <= col < lanes.len() && lanes[col] is None {
        lemma_no_lane_holds(lanes, id);
    } else {
        lemma_claim(lanes, id);
        lemma_claim_bounds(lanes, id);
    }
}

proof fn lemma_claim_parent_free(lanes: Lanes, id: Seq<char>, col: int, i: int)
    requires
        0 <= i < lanes.len(),
        lanes[i] is None,
    ensures
        (claim_parent(lanes, id, col).0[i] is Some) == (claim_parent(lanes, id, col).1 == i),
{
    lemma_claim_parent_cases(lanes, id, col);
    if !(lane_holding(lanes, id) is None && 0 <= col < lanes.len() && lanes[col] is None) {
        lemma_claim_free(lanes, id, i);
    }
}

proof fn lemma_claim_parent_origin(lanes: Lanes, id: Seq<char>, col: int, c: int, x: Seq<char>)
    requires
        0 <= c < claim_parent(lanes, id, col).0.len(),
        claim_parent(lanes, id, col).0[c] == Some(x),
    ensures
        (c < lanes.len() && lanes[c] == Some(x)) || x == id,
{
    lemma_claim_parent_cases(lanes, id, col);
    if !(lane_holding(lanes, id) is None && 0 <= col < lanes.len() && lanes[col] is None) {
        lemma_claim_origin(lanes, id, c, x);
    }
}

proof fn lemma_claim_all(lanes: Lanes, parents: Seq<Seq<char>>, col: int)
    ensures
        keeps_occupied(lanes, claim_all(lanes, parents, col).0),
        claim_all(lanes, parents, col).1.len() == parents.len(),
        forall|j: int|
            0 <= j < parents.len() ==> 0 <= #[trigger] claim_all(lanes, parents, col).1[j] < claim_all(
                lanes,
                parents,
            col).0.len() && claim_all(lanes, parents, col).0[claim_all(lanes, parents, col).1[j]] == Some(
                parents[j],
            ),
        lanes_distinct(lanes) ==> lanes_distinct(claim_all(lanes, parents, col).0),
    decreases parents.len(),
{
    if parents.len() > 0 {
        let init = parents.drop_last();
        lemma_claim_all(lanes, init, col);
        let (l1, cols) = claim_all(lanes, init, col);
        lemma_claim_parent(l1, parents.last(), col);
        let (l2, c) = claim_parent(l1, parents.last(), col);
        assert forall|j: int| 0 <= j < parents.len() implies 0 <= #[trigger] claim_all(
            lanes,
            parents,
        col).1[j] < claim_all(lanes, parents, col).0.len() && claim_all(lanes, parents, col).0[claim_all(
            lanes,
            parents,
        col).1[j]] == Some(parents[j]) by {
            if j < parents.len() - 1 {
                assert(init[j] == parents[j]);
                assert(l1[cols[j]] is Some);
            }
        }
    }
}

proof fn lemma_step(lanes: Lanes, id: Seq<char>, parents: Seq<Seq<char>>)
    ensures
        ({
            let st = step(lanes, id, parents);
            &&& 0 <= st.column < st.active.len()
            &&& st.active[st.column]
            &&& st.active.len() <= st.connector.len()
            &&& lanes.len() <= st.lanes.len()
            &&& st.connector.len() == st.lanes.len()
            &&& st.parent_columns.len() == parents.len()
            &&& forall|j: int|
                0 <= j < parents.len() ==> 0 <= #[trigger] st.parent_columns[j] < st.lanes.len()
                    && st.lanes[st.parent_columns[j]] == Some(parents[j])
                    && st.connector[st.parent_columns[j]]
            &&& lanes_distinct(lanes) ==> lanes_distinct(st.lanes)
        }),
{
    lemma_claim(lanes, id);
    let (l1, col) = claim(lanes, id);
    let l2 = l1.update(col, None);
    assert(lanes_distinct(l1) ==> lanes_distinct(l2));
    lemma_claim_all(l2, parents, col);
}

proof fn lemma_min_max(s: Seq<int>, c: int)
    ensures
        seq_min_with(s, c) <= c <= seq_max_with(s, c),
        forall|j: int|
            0 <= j < s.len() ==> seq_min_with(s, c) <= #[trigger] s[j] <= seq_max_with(s, c),
    decreases s.len(),
{
    if s.len() > 0 {
        lemma_min_max(s.drop_last(), c);
        assert forall|j: int| 0 <= j < s.len() implies seq_min_with(s, c) <= #[trigger] s[j]
            <= seq_max_with(s, c) by {
            if j < s.len() - 1 {
                assert(s.drop_last()[j] == s[j]);
            }
        }
    }
}

proof fn lemma_lanes_before(rows: Seq<GraphRow>, k: nat)
    requires
        k <= rows.len(),
    ensures
        lanes_distinct(lanes_before(rows, k)),
    decreases k,
{
    if k > 0 {
        lemma_lanes_before(rows, (k - 1) as nat);
        let r = rows[k - 1];
        lemma_step(lanes_before(rows, (k - 1) as nat), r.commit_id@, ids_view(r.parents@));
    }
}

/// Every row's node lies in a lane that is occupied when the row is reached.
pub proof fn law_node_in_active_lane(rows: Seq<GraphRow>, k: int)
    requires
        0 <= k < rows.len(),
    ensures
        0 <= row_step(rows, k).column < row_step(rows, k).active.len(),
        row_step(rows, k).active[row_step(rows, k).column],
{
    let r = rows[k];
    lemma_step(lanes_before(rows, k as nat), r.commit_id@, ids_view(r.parents@));
}

/// Each parent of a row gets one lane, which is occupied below the row and
/// lies between the row's smallest and largest lane; the node's own lane
/// lies in that range too.
pub proof fn law_parent_lanes(rows: Seq<GraphRow>, k: int)
    requires
        0 <= k < rows.len(),
    ensures
        ({
            let st = row_step(rows, k);
            let lo = seq_min_with(st.parent_columns, st.column);
            let hi = seq_max_with(st.parent_columns, st.column);
            &&& st.parent_columns.len() == rows[k].parents@.len()
            &&& lo <= st.column <= hi
            &&& forall|j: int|
                0 <= j < st.parent_columns.len() ==> 0 <= #[trigger] st.parent_columns[j]
                    < st.connector.len() && st.connector[st.parent_columns[j]] && lo
                    <= st.parent_columns[j] <= hi
        }),
{
    let r = rows[k];
    lemma_step(lanes_before(rows, k as nat), r.commit_id@, ids_view(r.parents@));
    let st = row_step(rows, k);
    lemma_min_max(st.parent_columns, st.column);
}

/// Lanes never disappear: the lanes below a row include the lanes above it.
pub proof fn law_lanes_never_shrink(rows: Seq<GraphRow>, k: int)
    requires
        0 <= k < rows.len(),
    ensures
        row_step(rows, k).active.len() <= row_step(rows, k).connector.len(),
        k + 1 < rows.len() ==> row_step(rows, k).connector.len() == row_step(
            rows,
            k + 1,
        ).active.len() || row_step(rows, k).connector.len() + 1 == row_step(
            rows,
            k + 1,
        ).active.len(),
{
    let r = rows[k];
    lemma_step(lanes_before(rows, k as nat), r.commit_id@, ids_view(r.parents@));
    if k + 1 < rows.len() {
        let l = lanes_before(rows, (k + 1) as nat);
        let r2 = rows[k + 1];
        lemma_claim(l, r2.commit_id@);
        lemma_claim_shape(l, r2.commit_id@);
    }
}

proof fn lemma_claim_shape(lanes: Lanes, id: Seq<char>)
    ensures
        claim(lanes, id).0.len() == lanes.len() || claim(lanes, id).0.len() == lanes.len() + 1,
{
}

/// No commit waits in two lanes at once.
pub proof fn law_lanes_distinct(rows: Seq<GraphRow>, k: int)
    requires
        0 <= k <= rows.len(),
    ensures
        lanes_distinct(lanes_before(rows, k as nat)),
{
    lemma_lanes_before(rows, k as nat);
}

/// A parent is drawn in the lane its child reserved for it: when row `k + 1`
/// is the `j`-th parent of row `k`, its node lies in that parent's lane.
pub proof fn law_parent_lane_continues(rows: Seq<GraphRow>, k: int, j: int)
    requires
        0 <= k,
        k + 1 < rows.len(),
        0 <= j < rows[k].parents@.len(),
        rows[k].parents@[j]@ == rows[k + 1].commit_id@,
    ensures
        row_step(rows, k + 1).column == row_step(rows, k).parent_columns[j],
{
    let r = rows[k];
    let lb = lanes_before(rows, k as nat);
    lemma_lanes_before(rows, k as nat);
    lemma_step(lb, r.commit_id@, ids_view(r.parents@));
    let st = row_step(rows, k);
    let l = lanes_before(rows, (k + 1) as nat);
    assert(l == st.lanes);
    let id = rows[k + 1].commit_id@;
    assert(ids_view(r.parents@)[j] == id);
    let c = st.parent_columns[j];
    assert(l[c] == Some(id));
    assert(is_first_holding(l, id, c)) by {
        assert forall|i: int| 0 <= i < c implies #[trigger] l[i] != Some(id) by {
            if l[i] == Some(id) {
                assert(l[i] is Some && l[i] == l[c]);
            }
        }
    }
    let c2 = choose|c2: int| is_first_holding(l, id, c2);
    lemma_first_holding_unique(l, id, c, c2);
}

/// The rows have the same commits and parents, in the same order.
pub open spec fn same_commits(a: Seq<GraphRow>, b: Seq<GraphRow>) -> bool {
    &&& a.len() == b.len()
    &&& forall|i: int|
        0 <= i < a.len() ==> (#[trigger] a[i]).commit_id@ == b[i].commit_id@ && ids_view(a[i].parents@)
            == ids_view(b[i].parents@)
}

proof fn lemma_lanes_before_same(a: Seq<GraphRow>, b: Seq<GraphRow>, k: nat)
    requires
        same_commits(a, b),
        k <= a.len(),
    ensures
        lanes_before(a, k) == lanes_before(b, k),
    decreases k,
{
    if k > 0 {
        lemma_lanes_before_same(a, b, (k - 1) as nat);
        assert(a[k - 1].commit_id@ == b[k - 1].commit_id@);
    }
}

/// The layout depends on the commits and their parents alone: rows with the
/// same commits and parents get the same lanes, whatever lanes they held.
pub proof fn law_layout_from_commits(a: Seq<GraphRow>, b: Seq<GraphRow>, k: int)
    requires
        same_commits(a, b),
        0 <= k < a.len(),
    ensures
        row_step(a, k) == row_step(b, k),
{
    lemma_lanes_before_same(a, b, k as nat);
    assert(a[k].commit_id@ == b[k].commit_id@);
}

/// Laying out rows that are already laid out changes nothing: the layout of
/// the laid-out rows is the layout they have.
pub proof fn law_layout_idempotent(before: Seq<GraphRow>, after: Seq<GraphRow>, k: int)
    requires
        graph_laid_out(before, after),
        0 <= k < before.len(),
    ensures
        row_step(after, k) == row_step(before, k),
{
    assert(same_commits(after, before)) by {
        assert forall|i: int| 0 <= i < after.len() implies (#[trigger] after[i]).commit_id@
            == before[i].commit_id@ && ids_view(after[i].parents@) == ids_view(before[i].parents@) by {
            assert(laid_out(before[i], after[i], row_step(before, i)));
        }
    }
    law_layout_from_commits(after, before, k);
}

proof fn lemma_min_max_attained(s: Seq<int>, c: int)
    ensures
        seq_min_with(s, c) == c || exists|j: int| 0 <= j < s.len() && #[trigger] s[j] == seq_min_with(s, c),
        seq_max_with(s, c) == c || exists|j: int| 0 <= j < s.len() && #[trigger] s[j] == seq_max_with(s, c),
    decreases s.len(),
{
    if s.len() > 0 {
        let init = s.drop_last();
        lemma_min_max_attained(init, c);
        if seq_min_with(init, c) != c && s.last() >= seq_min_with(init, c) {
            let j = choose|j: int| 0 <= j < init.len() && #[trigger] init[j] == seq_min_with(init, c);
            assert(s[j] == init[j]);
        }
        if seq_max_with(init, c) != c && s.last() <= seq_max_with(init, c) {
            let j = choose|j: int| 0 <= j < init.len() && #[trigger] init[j] == seq_max_with(init, c);
            assert(s[j] == init[j]);
        }
        if s.last() < seq_min_with(init, c) {
            assert(s[s.len() - 1] == seq_min_with(s, c));
        }
        if s.last() > seq_max_with(init, c) {
            assert(s[s.len() - 1] == seq_max_with(s, c));
        }
    }
}

/// A row's lane range is spanned by its own lane and its parents' lanes:
/// the smallest and the largest of them bound all and are among them.
pub proof fn law_lane_range(rows: Seq<GraphRow>, k: int)
    requires
        0 <= k < rows.len(),
    ensures
        ({
            let st = row_step(rows, k);
            let lo = seq_min_with(st.parent_columns, st.column);
            let hi = seq_max_with(st.parent_columns, st.column);
            &&& lo <= st.column <= hi
            &&& forall|j: int| 0 <= j < st.parent_columns.len() ==> lo <= #[trigger] st.parent_columns[j] <= hi
            &&& (lo == st.column || exists|j: int| 0 <= j < st.parent_columns.len() && #[trigger] st.parent_columns[j] == lo)
            &&& (hi == st.column || exists|j: int| 0 <= j < st.parent_columns.len() && #[trigger] st.parent_columns[j] == hi)
        }),
{
    let st = row_step(rows, k);
    lemma_min_max(st.parent_columns, st.column);
    lemma_min_max_attained(st.parent_columns, st.column);
}

proof fn lemma_claim_free(lanes: Lanes, id: Seq<char>, i: int)
    requires
        0 <= i < lanes.len(),
        lanes[i] is None,
    ensures
        (claim(lanes, id).0[i] is Some) == (claim(lanes, id).1 == i),
{
    lemma_claim(lanes, id);
    match lane_holding(lanes, id) {
        Some(h) => {
            let h2 = choose|h2: int| is_first_holding(lanes, id, h2);
            assert(is_first_holding(lanes, id, h2));
        },
        None => {
            match first_free(lanes) {
                Some(f) => {
                    let f2 = choose|f2: int| is_first_free(lanes, f2);
                    assert(is_first_free(lanes, f2));
                },
                None => {},
            }
        },
    }
}

proof fn lemma_claim_all_free(lanes: Lanes, parents: Seq<Seq<char>>, i: int, col: int)
    requires
        0 <= i < lanes.len(),
        lanes[i] is None,
    ensures
        (claim_all(lanes, parents, col).0[i] is Some) == (exists|j: int|
            0 <= j < parents.len() && #[trigger] claim_all(lanes, parents, col).1[j] == i),
    decreases parents.len(),
{
    lemma_claim_all(lanes, parents, col);
    if parents.len() > 0 {
        let init = parents.drop_last();
        lemma_claim_all(lanes, init, col);
        lemma_claim_all_free(lanes, init, i, col);
        let (l1, cols) = claim_all(lanes, init, col);
        let (l2, c) = claim_parent(l1, parents.last(), col);
        let all = claim_all(lanes, parents, col);
        lemma_claim_parent(l1, parents.last(), col);
        assert(all.1 == cols.push(c));
        if l1[i] is Some {
            let j = choose|j: int| 0 <= j < init.len() && #[trigger] cols[j] == i;
            assert(all.1[j] == i);
        } else {
            lemma_claim_parent_free(l1, parents.last(), col, i);
            assert forall|j: int| 0 <= j < init.len() implies #[trigger] all.1[j] != i by {
                assert(all.1[j] == cols[j]);
            }
            if c == i {
                assert(all.1[parents.len() - 1] == i);
            }
        }
    }
}

/// No two parents of a row with different commits share a lane, and the
/// lane of the row's node continues below it exactly when one of its parents
/// takes that lane.
pub proof fn law_parent_lanes_distinct(rows: Seq<GraphRow>, k: int)
    requires
        0 <= k < rows.len(),
    ensures
        ({
            let st = row_step(rows, k);
            let ps = ids_view(rows[k].parents@);
            &&& forall|a: int, b: int|
                0 <= a < b < ps.len() && ps[a] != ps[b] ==> #[trigger] st.parent_columns[a]
                    != #[trigger] st.parent_columns[b]
            &&& st.connector[st.column] == exists|j: int|
                0 <= j < st.parent_columns.len() && #[trigger] st.parent_columns[j] == st.column
        }),
{
    let r = rows[k];
    let lanes = lanes_before(rows, k as nat);
    let id = r.commit_id@;
    let ps = ids_view(r.parents@);
    lemma_step(lanes, id, ps);
    lemma_claim(lanes, id);
    let (l1, col) = claim(lanes, id);
    let l2 = l1.update(col, None);
    lemma_claim_all(l2, ps, col);
    lemma_claim_all_free(l2, ps, col, col);
}

/// A lane that waits for `p` keeps waiting for it over a row of another
/// commit.
proof fn lemma_lane_persists(lanes: Lanes, id: Seq<char>, parents: Seq<Seq<char>>, c: int, p: Seq<char>)
    requires
        0 <= c < lanes.len(),
        lanes[c] == Some(p),
        id != p,
    ensures
        step(lanes, id, parents).lanes.len() > c,
        step(lanes, id, parents).lanes[c] == Some(p),
{
    lemma_claim(lanes, id);
    let (l1, col) = claim(lanes, id);
    assert(l1[c] == Some(p));
    assert(col != c);
    let l2 = l1.update(col, None);
    assert(l2[c] == Some(p));
    lemma_claim_all(l2, parents, col);
    let l3 = claim_all(l2, parents, col).0;
    assert(keeps_occupied(l2, l3));
    assert(l2[c] is Some);
    assert(l3[c] == l2[c]);
    assert(step(lanes, id, parents).lanes == l3);
}

proof fn lemma_lane_waits(rows: Seq<GraphRow>, j: int, m: int, c: int, p: Seq<char>)
    requires
        0 <= j < m <= rows.len(),
        0 <= c < lanes_before(rows, (j + 1) as nat).len(),
        lanes_before(rows, (j + 1) as nat)[c] == Some(p),
        forall|x: int| j < x < m ==> (#[trigger] rows[x]).commit_id@ != p,
    ensures
        c < lanes_before(rows, m as nat).len(),
        lanes_before(rows, m as nat)[c] == Some(p),
    decreases m - j,
{
    if m > j + 1 {
        lemma_lane_waits(rows, j, m - 1, c, p);
        let r = rows[m - 1];
        assert(r.commit_id@ != p);
        lemma_lane_persists(lanes_before(rows, (m - 1) as nat), r.commit_id@, ids_view(r.parents@), c, p);
    }
}

/// Every edge ends in its parent's lane: when the commit of row `i` is the
/// `p`-th parent of an earlier row `j`, and no row between them has that
/// commit, row `i`'s node lies in the lane that row `j` reserved for it.
pub proof fn law_edge_reaches_parent(rows: Seq<GraphRow>, j: int, i: int, p: int)
    requires
        0 <= j < i < rows.len(),
        0 <= p < rows[j].parents@.len(),
        rows[j].parents@[p]@ == rows[i].commit_id@,
        forall|x: int| j < x < i ==> (#[trigger] rows[x]).commit_id@ != rows[i].commit_id@,
    ensures
        row_step(rows, i).column == row_step(rows, j).parent_columns[p],
{
    let r = rows[j];
    let id = rows[i].commit_id@;
    lemma_step(lanes_before(rows, j as nat), r.commit_id@, ids_view(r.parents@));
    let st = row_step(rows, j);
    let c = st.parent_columns[p];
    assert(ids_view(r.parents@)[p] == id);
    assert(lanes_before(rows, (j + 1) as nat) == st.lanes);
    lemma_lane_waits(rows, j, i, c, id);
    let l = lanes_before(rows, i as nat);
    lemma_lanes_before(rows, i as nat);
    assert(is_first_holding(l, id, c)) by {
        assert forall|x: int| 0 <= x < c implies #[trigger] l[x] != Some(id) by {
            if l[x] == Some(id) {
                assert(l[x] is Some && l[x] == l[c]);
            }
        }
    }
    let c2 = choose|c2: int| is_first_holding(l, id, c2);
    lemma_first_holding_unique(l, id, c, c2);
}

proof fn lemma_first_free_exists(lanes: Lanes, k: int)
    requires
        0 <= k < lanes.len(),
        lanes[k] is None,
    ensures
        first_free(lanes) is Some,
    decreases k,
{
    if forall|j: int| 0 <= j < k ==> #[trigger] lanes[j] is Some {
        assert(is_first_free(lanes, k));
    } else {
        let j = choose|j: int| 0 <= j < k && !(#[trigger] lanes[j] is Some);
        lemma_first_free_exists(lanes, j);
    }
}

proof fn lemma_claim_origin(lanes: Lanes, id: Seq<char>, c: int, x: Seq<char>)
    requires
        0 <= c < claim(lanes, id).0.len(),
        claim(lanes, id).0[c] == Some(x),
    ensures
        (c < lanes.len() && lanes[c] == Some(x)) || x == id,
{
    match lane_holding(lanes, id) {
        Some(h) => {},
        None => {
            match first_free(lanes) {
                Some(f) => {},
                None => {},
            }
        },
    }
}

proof fn lemma_claim_all_origin(lanes: Lanes, parents: Seq<Seq<char>>, c: int, x: Seq<char>, col: int)
    requires
        0 <= c < claim_all(lanes, parents, col).0.len(),
        claim_all(lanes, parents, col).0[c] == Some(x),
    ensures
        (c < lanes.len() && lanes[c] == Some(x)) || exists|q: int| 0 <= q < parents.len() && #[trigger] parents[q] == x,
    decreases parents.len(),
{
    if parents.len() > 0 {
        let init = parents.drop_last();
        let (l1, cols) = claim_all(lanes, init, col);
        lemma_claim_parent_origin(l1, parents.last(), col, c, x);
        if c < l1.len() && l1[c] == Some(x) {
            lemma_claim_all_origin(lanes, init, c, x, col);
            if !(c < lanes.len() && lanes[c] == Some(x)) {
                let q = choose|q: int| 0 <= q < init.len() && #[trigger] init[q] == x;
                assert(parents[q] == x);
            }
        } else {
            assert(parents[parents.len() - 1] == x);
        }
    }
}

/// The commit `x` is a parent of a row before row `m`.
pub open spec fn parent_before(rows: Seq<GraphRow>, m: int, x: Seq<char>) -> bool {
    exists|j: int, q: int|
        0 <= j < m && 0 <= q < rows[j].parents@.len() && #[trigger] rows[j].parents@[q]@ == x
}

proof fn lemma_waiting_origin(rows: Seq<GraphRow>, m: nat, c: int, x: Seq<char>)
    requires
        m <= rows.len(),
        0 <= c < lanes_before(rows, m).len(),
        lanes_before(rows, m)[c] == Some(x),
    ensures
        parent_before(rows, m as int, x),
    decreases m,
{
    if m > 0 {
        let prev = lanes_before(rows, (m - 1) as nat);
        let r = rows[m - 1];
        let ps = ids_view(r.parents@);
        lemma_claim(prev, r.commit_id@);
        let (l1, col) = claim(prev, r.commit_id@);
        let l2 = l1.update(col, None);
        lemma_claim_all_origin(l2, ps, c, x, col);
        if c < l2.len() && l2[c] == Some(x) {
            assert(c != col);
            lemma_claim_origin(prev, r.commit_id@, c, x);
            if c < prev.len() && prev[c] == Some(x) {
                lemma_waiting_origin(rows, (m - 1) as nat, c, x);
                let (j, q) = choose|j: int, q: int|
                    0 <= j < m - 1 && 0 <= q < rows[j].parents@.len() && #[trigger] rows[j].parents@[q]@ == x;
                assert(rows[j].parents@[q]@ == x);
            } else {
                // the row's own commit was placed in its lane, and that lane is freed
                assert(false) by {
                    lemma_claim_shape(prev, r.commit_id@);
                    match lane_holding(prev, r.commit_id@) {
                        Some(h) => {},
                        None => {
                            match first_free(prev) {
                                Some(f) => {},
                                None => {},
                            }
                        },
                    }
                }
            }
        } else {
            let q = choose|q: int| 0 <= q < ps.len() && #[trigger] ps[q] == x;
            assert(rows[m - 1].parents@[q]@ == x);
        }
    }
}

/// How a row's lanes follow from the lanes below the row before it: a commit
/// that an earlier row names as a parent takes the lane waiting for it and
/// the lanes in use stay as they were; a new head takes the lowest free lane
/// (a new lane on the right when none is free), which comes into use.
pub proof fn law_row_lanes(rows: Seq<GraphRow>, i: int)
    requires
        0 <= i < rows.len(),
        forall|a: int, b: int|
            0 <= a < b < rows.len() ==> (#[trigger] rows[a]).commit_id@ != (#[trigger] rows[b]).commit_id@,
    ensures
        ({
            let c = occupancy(lanes_before(rows, i as nat));
            let st = row_step(rows, i);
            &&& i > 0 ==> row_step(rows, i - 1).connector == c
            &&& if parent_before(rows, i, rows[i].commit_id@) {
                &&& st.column < c.len()
                &&& st.active == c
            } else {
                &&& st.column <= c.len()
                &&& forall|k: int| 0 <= k < st.column ==> #[trigger] c[k]
                &&& st.column < c.len() ==> !c[st.column]
                &&& st.active == if st.column < c.len() {
                    c.update(st.column, true)
                } else {
                    c.push(true)
                }
            }
        }),
{
    let lanes = lanes_before(rows, i as nat);
    let id = rows[i].commit_id@;
    let st = row_step(rows, i);
    lemma_claim(lanes, id);
    if i > 0 {
        let r = rows[i - 1];
        assert(lanes == step(lanes_before(rows, (i - 1) as nat), r.commit_id@, ids_view(r.parents@)).lanes);
    }
    if parent_before(rows, i, id) {
        let (j, q) = choose|j: int, q: int|
            0 <= j < i && 0 <= q < rows[j].parents@.len() && #[trigger] rows[j].parents@[q]@ == id;
        let r = rows[j];
        lemma_step(lanes_before(rows, j as nat), r.commit_id@, ids_view(r.parents@));
        let sj = row_step(rows, j);
        let cj = sj.parent_columns[q];
        assert(ids_view(r.parents@)[q] == id);
        assert(lanes_before(rows, (j + 1) as nat) == sj.lanes);
        assert forall|x: int| j < x < i implies (#[trigger] rows[x]).commit_id@ != id by {
            assert(rows[x].commit_id@ != rows[i].commit_id@);
        }
        lemma_lane_waits(rows, j, i, cj, id);
        lemma_first_holding_exists(lanes, id, cj);
        let h = choose|h: int| is_first_holding(lanes, id, h);
        assert(is_first_holding(lanes, id, h));
        assert(st.active =~= occupancy(lanes));
    } else {
        if lane_holding(lanes, id) is Some {
            let h = choose|h: int| is_first_holding(lanes, id, h);
            assert(is_first_holding(lanes, id, h));
            lemma_waiting_origin(rows, i as nat, h, id);
        }
        match first_free(lanes) {
            Some(f) => {
                let f2 = choose|f2: int| is_first_free(lanes, f2);
                assert(is_first_free(lanes, f2));
                assert(st.active =~= occupancy(lanes).update(st.column, true));
            },
            None => {
                assert forall|k: int| 0 <= k < lanes.len() implies #[trigger] lanes[k] is Some by {
                    if lanes[k] is None {
                        lemma_first_free_exists(lanes, k);
                    }
                }
                assert(st.active =~= occupancy(lanes).push(true));
            },
        }
    }
}

proof fn lemma_claim_all_first(lanes: Lanes, parents: Seq<Seq<char>>, col: int)
    requires
        parents.len() > 0,
    ensures
        claim_all(lanes, parents, col).1[0] == claim_parent(lanes, parents[0], col).1,
    decreases parents.len(),
{
    let init = parents.drop_last();
    lemma_claim_all(lanes, init, col);
    if parents.len() > 1 {
        lemma_claim_all_first(lanes, init, col);
        assert(init[0] == parents[0]);
    } else {
        assert(parents.last() == parents[0]);
    }
}

/// A row's first parent that no earlier row names as a parent continues in
/// the row's own lane.
pub proof fn law_first_parent_keeps_lane(rows: Seq<GraphRow>, k: int)
    requires
        0 <= k < rows.len(),
        rows[k].parents@.len() > 0,
        !parent_before(rows, k, rows[k].parents@[0]@),
    ensures
        row_step(rows, k).parent_columns[0] == row_step(rows, k).column,
{
    let lanes = lanes_before(rows, k as nat);
    let id = rows[k].commit_id@;
    let ps = ids_view(rows[k].parents@);
    let p = ps[0];
    lemma_claim(lanes, id);
    let (l1, col) = claim(lanes, id);
    let l2 = l1.update(col, None);
    assert forall|c: int| 0 <= c < l2.len() implies l2[c] != Some(p) by {
        if l2[c] == Some(p) {
            assert(c != col);
            lemma_claim_origin(lanes, id, c, p);
            if c < lanes.len() && lanes[c] == Some(p) {
                lemma_waiting_origin(rows, k as nat, c, p);
            } else {
                assert(false) by {
                    match lane_holding(lanes, id) {
                        Some(h) => {},
                        None => {
                            match first_free(lanes) {
                                Some(f) => {},
                                None => {},
                            }
                        },
                    }
                }
            }
        }
    }
    assert(lane_holding(l2, p) is None) by {
        if lane_holding(l2, p) is Some {
            let h = choose|h: int| is_first_holding(l2, p, h);
            assert(is_first_holding(l2, p, h));
        }
    }
    lemma_claim_all_first(l2, ps, col);
}

/// No commit is named twice among the parents of `row`.
pub open spec fn parents_distinct(row: GraphRow) -> bool {
    forall|a: int, b: int|
        0 <= a < b < row.parents@.len() ==> (#[trigger] row.parents@[a])@ != (#[trigger] row.parents@[b])@
}

/// No two rows hold the same commit.
pub open spec fn commits_distinct(rows: Seq<GraphRow>) -> bool {
    forall|a: int, b: int|
        0 <= a < b < rows.len() ==> (#[trigger] rows[a]).commit_id@ != (#[trigger] rows[b]).commit_id@
}

/// The lanes of laid-out rows: below every row at least as many lanes are
/// in use as above it; each parent's lane is in use below the row, and a row
/// whose parents are distinct commits gives each its own lane; the row's own
/// lane goes on below it exactly when one of its parents takes it.
pub proof fn law_laid_out_lanes(before: Seq<GraphRow>, after: Seq<GraphRow>)
    requires
        graph_laid_out(before, after),
    ensures
        forall|i: int|
            0 <= i < after.len() ==> {
                let v = (#[trigger] after[i]).visual;
                &&& v.active_lanes@.len() <= v.connector_lanes@.len()
                &&& v.column < v.connector_lanes@.len()
                &&& v.parent_columns@.len() == after[i].parents@.len()
                &&& forall|k: int|
                    0 <= k < v.parent_columns@.len() ==> #[trigger] v.parent_columns@[k]
                        < v.connector_lanes@.len() && v.connector_lanes@[v.parent_columns@[k] as int]
                &&& parents_distinct(before[i]) ==> forall|a: int, b: int|
                    0 <= a < b < v.parent_columns@.len() ==> #[trigger] v.parent_columns@[a]
                        != #[trigger] v.parent_columns@[b]
                &&& v.connector_lanes@[v.column as int] == v.parent_columns@.contains(v.column)
            },
{
    assert forall|i: int| 0 <= i < after.len() implies {
        let v = (#[trigger] after[i]).visual;
        &&& v.active_lanes@.len() <= v.connector_lanes@.len()
        &&& v.column < v.connector_lanes@.len()
        &&& v.parent_columns@.len() == after[i].parents@.len()
        &&& forall|k: int|
            0 <= k < v.parent_columns@.len() ==> #[trigger] v.parent_columns@[k]
                < v.connector_lanes@.len() && v.connector_lanes@[v.parent_columns@[k] as int]
        &&& parents_distinct(before[i]) ==> forall|a: int, b: int|
            0 <= a < b < v.parent_columns@.len() ==> #[trigger] v.parent_columns@[a]
                != #[trigger] v.parent_columns@[b]
        &&& v.connector_lanes@[v.column as int] == v.parent_columns@.contains(v.column)
    } by {
        let st = row_step(before, i);
        assert(laid_out(before[i], after[i], st));
        let v = after[i].visual;
        law_node_in_active_lane(before, i);
        law_parent_lanes(before, i);
        law_lanes_never_shrink(before, i);
        law_parent_lanes_distinct(before, i);
        assert(v.connector_lanes.len() == v.connector_lanes@.len());
        assert forall|k: int| 0 <= k < v.parent_columns@.len() implies #[trigger] v.parent_columns@[k]
            < v.connector_lanes@.len() && v.connector_lanes@[v.parent_columns@[k] as int] by {
            assert(0 <= st.parent_columns[k] < st.connector.len());
            assert(v.parent_columns@[k] == st.parent_columns[k] as usize);
        }
        if parents_distinct(before[i]) {
            let ps = ids_view(before[i].parents@);
            assert forall|a: int, b: int| 0 <= a < b < v.parent_columns@.len() implies #[trigger] v.parent_columns@[a]
                != #[trigger] v.parent_columns@[b] by {
                assert(before[i].parents@[a]@ != before[i].parents@[b]@);
                assert(ps[a] != ps[b]);
                assert(st.parent_columns[a] != st.parent_columns[b]);
                assert(0 <= st.parent_columns[a] < st.connector.len());
                assert(0 <= st.parent_columns[b] < st.connector.len());
            }
        }
        if st.connector[st.column] {
            let j = choose|j: int| 0 <= j < st.parent_columns.len() && #[trigger] st.parent_columns[j] == st.column;
            assert(v.parent_columns@[j] == v.column);
        }
        if v.parent_columns@.contains(v.column) {
            let j = choose|j: int| 0 <= j < v.parent_columns@.len() && #[trigger] v.parent_columns@[j] == v.column;
            assert(0 <= st.parent_columns[j] < st.connector.len());
            assert(st.parent_columns[j] == st.column);
        }
    }
}

/// Every edge of laid-out rows ends where its parent is drawn: when the
/// commits are distinct and the `k`-th parent of row `j` is the commit of a
/// later row `i`, row `j` sends that parent to the lane of row `i`'s node.
pub proof fn law_laid_out_edges(before: Seq<GraphRow>, after: Seq<GraphRow>)
    requires
        graph_laid_out(before, after),
        commits_distinct(before),
    ensures
        forall|j: int, i: int, k: int|
            0 <= j < i < after.len() && 0 <= k < after[j].parents@.len() && (#[trigger] after[j].parents@[k])@
                == (#[trigger] after[i]).commit_id@ ==> after[j].visual.parent_columns@[k] == after[i].visual.column,
{
    assert forall|j: int, i: int, k: int|
        0 <= j < i < after.len() && 0 <= k < after[j].parents@.len() && (#[trigger] after[j].parents@[k])@
            == (#[trigger] after[i]).commit_id@ implies after[j].visual.parent_columns@[k] == after[i].visual.column by {
        let sj = row_step(before, j);
        let si = row_step(before, i);
        assert(laid_out(before[j], after[j], sj));
        assert(laid_out(before[i], after[i], si));
        assert forall|x: int| j < x < i implies (#[trigger] before[x]).commit_id@ != before[i].commit_id@ by {
            assert(before[x].commit_id@ != before[i].commit_id@);
        }
        law_edge_reaches_parent(before, j, i, k);
        law_parent_lanes(before, j);
        assert(0 <= sj.parent_columns[k]);
        assert(after[j].visual.parent_columns@[k] == sj.parent_columns[k] as usize);
    }
}

/// Row `i`'s lanes follow from the lanes `c` in use below the row before it
/// (none above the first row): a commit that an earlier row names as a
/// parent takes the lane waiting for it, and the lanes in use are `c`; a new
/// head takes the lowest free lane (every lane before it is in use, and it is
/// free or one past the last lane), which comes into use: set in `c`, or
/// added to its end.
pub open spec fn follows_lanes_above(rows: Seq<GraphRow>, i: int) -> bool {
    let v = rows[i].visual;
    let c = if i == 0 {
        Seq::<bool>::empty()
    } else {
        rows[i - 1].visual.connector_lanes@
    };
    let col = v.column as int;
    if parent_before(rows, i, rows[i].commit_id@) {
        &&& col < c.len()
        &&& v.active_lanes@ == c
    } else {
        &&& col <= c.len()
        &&& forall|k: int| 0 <= k < col ==> #[trigger] c[k]
        &&& col < c.len() ==> !c[col]
        &&& v.active_lanes@ == if col < c.len() {
            c.update(col, true)
        } else {
            c.push(true)
        }
    }
}

proof fn lemma_laid_out_row_lanes(before: Seq<GraphRow>, after: Seq<GraphRow>, i: int)
    requires
        graph_laid_out(before, after),
        commits_distinct(before),
        0 <= i < after.len(),
    ensures
        follows_lanes_above(after, i),
{
    law_row_lanes(before, i);
    let st = row_step(before, i);
    assert(laid_out(before[i], after[i], st));
    let c0 = occupancy(lanes_before(before, i as nat));
    if i == 0 {
        assert(c0 =~= Seq::<bool>::empty());
    } else {
        assert(laid_out(before[i - 1], after[i - 1], row_step(before, i - 1)));
    }
    if parent_before(after, i, after[i].commit_id@) {
        let (j, q) = choose|j: int, q: int|
            0 <= j < i && 0 <= q < after[j].parents@.len() && #[trigger] after[j].parents@[q]@
                == after[i].commit_id@;
        assert(laid_out(before[j], after[j], row_step(before, j)));
        assert(before[j].parents@[q]@ == before[i].commit_id@);
    }
    if parent_before(before, i, before[i].commit_id@) {
        let (j, q) = choose|j: int, q: int|
            0 <= j < i && 0 <= q < before[j].parents@.len() && #[trigger] before[j].parents@[q]@
                == before[i].commit_id@;
        assert(laid_out(before[j], after[j], row_step(before, j)));
        assert(after[j].parents@[q]@ == after[i].commit_id@);
    }
}

/// In laid-out rows of distinct commits, every row's lanes follow from the
/// lanes below the row before it (see `follows_lanes_above`).
pub proof fn law_laid_out_row_lanes(before: Seq<GraphRow>, after: Seq<GraphRow>)
    requires
        graph_laid_out(before, after),
        commits_distinct(before),
    ensures
        forall|i: int| 0 <= i < after.len() ==> #[trigger] follows_lanes_above(after, i),
{
    assert forall|i: int| 0 <= i < after.len() implies #[trigger] follows_lanes_above(after, i) by {
        lemma_laid_out_row_lanes(before, after, i);
    }
}

/// The first free lane of `lanes`.
fn find_free(lanes: &Vec<Option<CommitId>>) -> (res: Option<usize>)
    ensures
        match res {
            Some(i) => first_free(lanes_view(lanes@)) == Some(i as int),
            None => first_free(lanes_view(lanes@)) is None,
        },
{
    let ghost lv = lanes_view(lanes@);
    let n = lanes.len();
    let mut i: usize = 0;
    while i < n
        invariant
            n == lanes@.len(),
            lv == lanes_view(lanes@),
            i <= n,
            forall|j: int| 0 <= j < i ==> #[trigger] lv[j] is Some,
        decreases n - i,
    {
        if lanes[i].is_none() {
            proof {
                assert(is_first_free(lv, i as int));
                let k = choose|k: int| is_first_free(lv, k);
                lemma_first_free_unique(lv, i as int, k);
            }
            return Some(i);
        }
        i += 1;
    }
    assert forall|k: int| !is_first_free(lv, k) by {
        if is_first_free(lv, k) {
            assert(lv[k] is Some);
        }
    }
    None
}

/// The first lane of `lanes` that waits for `id`.
fn find_lane(lanes: &Vec<Option<CommitId>>, id: &CommitId) -> (res: Option<usize>)
    ensures
        match res {
            Some(i) => lane_holding(lanes_view(lanes@), id@) == Some(i as int),
            None => lane_holding(lanes_view(lanes@), id@) is None,
        },
{
    let ghost lv = lanes_view(lanes@);
    let n = lanes.len();
    let mut i: usize = 0;
    while i < n
        invariant
            n == lanes@.len(),
            lv == lanes_view(lanes@),
            i <= n,
            forall|j: int| 0 <= j < i ==> #[trigger] lv[j] != Some(id@),
        decreases n - i,
    {
        let hit = match &lanes[i] {
            Some(c) => c.same_as(id),
            None => false,
        };
        if hit {
            proof {
                assert(is_first_holding(lv, id@, i as int));
                let k = choose|k: int| is_first_holding(lv, id@, k);
                lemma_first_holding_unique(lv, id@, i as int, k);
            }
            return Some(i);
        }
        i += 1;
    }
    assert forall|k: int| !is_first_holding(lv, id@, k) by {
        if is_first_holding(lv, id@, k) {
            assert(lv[k] != Some(id@));
        }
    }
    None
}

/// Claims the lane of `id` (see `claim`).
fn claim_lane(lanes: &mut Vec<Option<CommitId>>, id: &CommitId) -> (res: usize)
    ensures
        claim(lanes_view(old(lanes)@), id@) == (lanes_view(final(lanes)@), res as int),
{
    match find_lane(lanes, id) {
        Some(i) => i,
        None => {
            match find_free(lanes) {
                Some(e) => {
                    lanes[e] = Some(id.clone());
                    assert(lanes_view(lanes@) =~= lanes_view(old(lanes)@).update(
                        e as int,
                        Some(id@),
                    ));
                    e
                },
                None => {
                    lanes.push(Some(id.clone()));
                    assert(lanes_view(lanes@) =~= lanes_view(old(lanes)@).push(Some(id@)));
                    lanes.len() - 1
                },
            }
        },
    }
}

/// The occupancy of `lanes`.
fn occupied_lanes(lanes: &Vec<Option<CommitId>>) -> (res: Vec<bool>)
    ensures
        res@ == occupancy(lanes_view(lanes@)),
{
    let mut res: Vec<bool> = Vec::new();
    let n = lanes.len();
    for i in 0..n
        invariant
            n == lanes@.len(),
            res@ == occupancy(lanes_view(lanes@)).take(i as int),
    {
        res.push(lanes[i].is_some());
        assert(res@ =~= occupancy(lanes_view(lanes@)).take(i + 1));
    }
    assert(res@ =~= occupancy(lanes_view(lanes@)));
    res
}

proof fn lemma_claim_all_len(lanes: Lanes, parents: Seq<Seq<char>>, col: int)
    ensures
        claim_all(lanes, parents, col).1.len() == parents.len(),
        claim_all(lanes, parents, col).0.len() >= lanes.len(),
        forall|j: int|
            0 <= j < parents.len() ==> 0 <= #[trigger] claim_all(lanes, parents, col).1[j]
                < claim_all(lanes, parents, col).0.len(),
    decreases parents.len(),
{
    if parents.len() > 0 {
        lemma_claim_all_len(lanes, parents.drop_last(), col);
        let (l1, cols) = claim_all(lanes, parents.drop_last(), col);
        lemma_claim_parent(l1, parents.last(), col);
    }
}

proof fn lemma_claim_bounds(lanes: Lanes, id: Seq<char>)
    ensures
        claim(lanes, id).0.len() >= lanes.len(),
        0 <= claim(lanes, id).1 < claim(lanes, id).0.len(),
        claim(lanes, id).0[claim(lanes, id).1] == Some(id),
{
    match lane_holding(lanes, id) {
        Some(i) => {
            let k = choose|k: int| is_first_holding(lanes, id, k);
            assert(is_first_holding(lanes, id, k));
        },
        None => {
            match first_free(lanes) {
                Some(i) => {
                    let k = choose|k: int| is_first_free(lanes, k);
                    assert(is_first_free(lanes, k));
                },
                None => {},
            }
        },
    }
}

/// `after` is `before` laid out: each row as `laid_out` gives it.
pub open spec fn graph_laid_out(before: Seq<GraphRow>, after: Seq<GraphRow>) -> bool {
    &&& after.len() == before.len()
    &&& forall|k: int|
        0 <= k < before.len() ==> laid_out(#[trigger] before[k], after[k], row_step(before, k))
}

/// Lays out the revision graph: sets the lanes of every row.
///
/// Each row's visual becomes `row_step` of the rows (in their original order);
/// every other field is left as it was.
pub fn calculate_graph_layout(rows: &mut Vec<GraphRow>)
    ensures
        final(rows)@.len() == old(rows)@.len(),
        forall|k: int|
            0 <= k < old(rows)@.len() ==> laid_out(
                #[trigger] old(rows)@[k],
                final(rows)@[k],
                row_step(old(rows)@, k),
            ),
{
    if rows.len() == 0 {
        return;
    }
    let ghost orig = rows@;
    let mut lanes: Vec<Option<CommitId>> = Vec::new();
    let n = rows.len();
    let mut i: usize = 0;
    while i < n
        invariant
            n == orig.len(),
            rows@.len() == n,
            i <= n,
            lanes_view(lanes@) == lanes_before(orig, i as nat),
            forall|k: int| 0 <= k < i ==> laid_out(#[trigger] orig[k], rows@[k], row_step(orig, k)),
            forall|k: int| i <= k < n ==> #[trigger] rows@[k] == orig[k],
        decreases n - i,
    {
        let ghost before = lanes_view(lanes@);
        let commit_id = rows[i].commit_id.clone();
        let lane_idx = claim_lane(&mut lanes, &commit_id);
        let ghost l1 = lanes_view(lanes@);
        proof {
            lemma_claim_bounds(before, commit_id@);
        }
        let active_lanes = occupied_lanes(&lanes);
        lanes[lane_idx] = None;
        assert(lanes_view(lanes@) =~= l1.update(lane_idx as int, None));
        let ghost l2 = lanes_view(lanes@);
        let mut parent_columns: Vec<usize> = Vec::new();
        let np = rows[i].parents.len();
        let ghost pv = ids_view(orig[i as int].parents@);
        let mut j: usize = 0;
        while j < np
            invariant
                np == pv.len(),
                rows@[i as int] == orig[i as int],
                pv == ids_view(orig[i as int].parents@),
                rows@.len() == n,
                i < n,
                j <= np,
                (lanes_view(lanes@), parent_columns@.map_values(|c: usize| c as int))
                    == claim_all(l2, pv.take(j as int), lane_idx as int),
            decreases np - j,
        {
            let ghost pre = lanes_view(lanes@);
            let ghost pcols = parent_columns@;
            let p = lane_of_parent(&mut lanes, &rows[i].parents[j], lane_idx);
            parent_columns.push(p);
            proof {
                let t = pv.take(j + 1);
                assert(t.drop_last() =~= pv.take(j as int));
                assert(t.last() == pv[j as int]);
                assert(parent_columns@.map_values(|c: usize| c as int) =~= pcols.map_values(
                    |c: usize| c as int,
                ).push(p as int));
            }
            j += 1;
        }
        assert(pv.take(np as int) =~= pv);
        let ghost pc_int = parent_columns@.map_values(|c: usize| c as int);
        let (pmin, pmax) = min_max_with(&parent_columns, lane_idx);
        let connector_lanes = occupied_lanes(&lanes);
        proof {
            assert(pc_int.map_values(|c: int| c as usize) =~= parent_columns@);
        }
        rows[i].visual.column = lane_idx;
        rows[i].visual.active_lanes = active_lanes;
        rows[i].visual.parent_columns = parent_columns;
        rows[i].visual.parent_min = pmin;
        rows[i].visual.parent_max = pmax;
        rows[i].visual.connector_lanes = connector_lanes;
        proof {
            assert(lanes_before(orig, (i + 1) as nat) == step(
                lanes_before(orig, i as nat),
                orig[i as int].commit_id@,
                ids_view(orig[i as int].parents@),
            ).lanes);
        }
        i += 1;
    }
}

/// Claims the lane of a parent of the commit drawn in lane `col` (see
/// `claim_parent`).
fn lane_of_parent(lanes: &mut Vec<Option<CommitId>>, parent: &CommitId, col: usize) -> (res: usize)
    ensures
        claim_parent(lanes_view(old(lanes)@), parent@, col as int) == (
            lanes_view(final(lanes)@),
            res as int,
        ),
{
    proof {
        lemma_claim_parent_cases(lanes_view(lanes@), parent@, col as int);
    }
    match find_lane(lanes, parent) {
        Some(i) => i,
        None => {
            if col < lanes.len() && lanes[col].is_none() {
                lanes[col] = Some(parent.clone());
                assert(lanes_view(lanes@) =~= lanes_view(old(lanes)@).update(
                    col as int,
                    Some(parent@),
                ));
                col
            } else {
                claim_lane(lanes, parent)
            }
        },
    }
}

/// The smallest and largest of `c` and the values of `cols`.
fn min_max_with(cols: &Vec<usize>, c: usize) -> (res: (usize, usize))
    ensures
        res.0 == seq_min_with(cols@.map_values(|x: usize| x as int), c as int),
        res.1 == seq_max_with(cols@.map_values(|x: usize| x as int), c as int),
{
    let ghost ci = cols@.map_values(|x: usize| x as int);
    let mut lo = c;
    let mut hi = c;
    let n = cols.len();
    for k in 0..n
        invariant
            n == cols@.len(),
            ci == cols@.map_values(|x: usize| x as int),
            lo == seq_min_with(ci.take(k as int), c as int),
            hi == seq_max_with(ci.take(k as int), c as int),
    {
        proof {
            assert(ci.take(k + 1).drop_last() =~= ci.take(k as int));
        }
        if cols[k] < lo {
            lo = cols[k];
        }
        if cols[k] > hi {
            hi = cols[k];
        }
    }
    assert(ci.take(n as int) =~= ci);
    (lo, hi)
}

} // verus!
