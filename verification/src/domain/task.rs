use vstd::prelude::*;
use vstd::relations::{sorted_by, total_ordering};

use crate::text::{str_eq};

verus! {

broadcast use {vstd::seq_lib::group_to_multiset_ensures, vstd::string::group_string_axioms};

/// Closed status enum for a task.
#[derive(Debug, Clone, Copy, PartialEq, Eq, Structural)]
pub enum Status {
    Todo,
    InProgress,
    Done,
    Cancelled,
}

/// The snake_case identifier of a status.
pub open spec fn status_name(s: Status) -> Seq<char> {
    match s {
        Status::Todo => "todo"@,
        Status::InProgress => "in_progress"@,
        Status::Done => "done"@,
        Status::Cancelled => "cancelled"@,
    }
}

/// The status whose identifier is `s`, if any.
pub open spec fn parse_status(s: Seq<char>) -> Option<Status> {
    if s == "todo"@ {
        Some(Status::Todo)
    } else if s == "in_progress"@ {
        Some(Status::InProgress)
    } else if s == "done"@ {
        Some(Status::Done)
    } else if s == "cancelled"@ {
        Some(Status::Cancelled)
    } else {
        None
    }
}

/// Terminal statuses are hidden by default and keep their positions on reorder.
pub open spec fn is_terminal(s: Status) -> bool {
    s == Status::Done || s == Status::Cancelled
}

/// A string that names no status.
#[derive(Debug, Clone)]
pub struct InvalidStatus {
    pub value: String,
}

impl Status {
    /// Return the snake_case identifier used in SQL `CHECK` constraints.
    pub fn as_str(self) -> (r: &'static str)
        ensures
            r@ == status_name(self),
    {
        match self {
            Status::Todo => "todo",
            Status::InProgress => "in_progress",
            Status::Done => "done",
            Status::Cancelled => "cancelled",
        }
    }

    /// Parse a string identifier into a [`Status`].
    pub fn parse(value: &str) -> (r: Result<Status, InvalidStatus>)
        ensures
            r matches Ok(s) ==> parse_status(value@) == Some(s),
            r matches Err(e) ==> parse_status(value@) is None && e.value@ == value@,
    {
        if str_eq(value, "todo") {
            Ok(Status::Todo)
        } else if str_eq(value, "in_progress") {
            Ok(Status::InProgress)
        } else if str_eq(value, "done") {
            Ok(Status::Done)
        } else if str_eq(value, "cancelled") {
            Ok(Status::Cancelled)
        } else {
            Err(InvalidStatus { value: value.to_owned() })
        }
    }

    /// Whether the status is `Done` or `Cancelled`.
    pub fn is_terminal(self) -> (b: bool)
        ensures
            b == is_terminal(self),
    {
        match self {
            Status::Done | Status::Cancelled => true,
            _ => false,
        }
    }
}

/// Each status is recovered from its identifier, and the identifiers are
/// pairwise distinct.
pub proof fn status_round_trip(s: Status)
    ensures
        parse_status(status_name(s)) == Some(s),
{
    reveal_strlit("todo");
    reveal_strlit("in_progress");
    reveal_strlit("done");
    reveal_strlit("cancelled");
    assert("todo"@[0] != "in_progress"@[0]);
    assert("todo"@[0] != "done"@[0]);
    assert("todo"@[0] != "cancelled"@[0]);
    assert("in_progress"@[0] != "done"@[0]);
    assert("in_progress"@[0] != "cancelled"@[0]);
    assert("done"@[0] != "cancelled"@[0]);
}

} // verus!

verus! {

/// Non-strict order on positions.
pub open spec fn position_le() -> spec_fn(i64, i64) -> bool {
    |a: i64, b: i64| a <= b
}

/// The elements of `s` in ascending order.
pub open spec fn ascending(s: Seq<i64>) -> Seq<i64> {
    s.sort_by(position_le())
}

proof fn lemma_position_le_total()
    ensures
        total_ordering(position_le()),
{
}

/// The positions in `v`, sorted ascending.
fn sort_positions(v: &Vec<i64>) -> (r: Vec<i64>)
    ensures
        r@ == ascending(v@),
{
    let mut r: Vec<i64> = Vec::new();
    let mut i: usize = 0;
    while i < v.len()
        invariant
            i <= v.len(),
            sorted_by(r@, position_le()),
            r@.to_multiset() == v@.take(i as int).to_multiset(),
        decreases v.len() - i,
    {
        let x = v[i];
        let mut k: usize = 0;
        while k < r.len() && r[k] <= x
            invariant
                k <= r.len(),
                forall|j: int| 0 <= j < k ==> r@[j] <= x,
            decreases r.len() - k,
        {
            k = k + 1;
        }
        let ghost old_r = r@;
        r.insert(k, x);
        proof {
            assert forall|a: int, b: int| 0 <= a < b < r@.len() implies #[trigger] position_le()(
                r@[a],
                r@[b],
            ) by {
                if b < k {
                    assert(position_le()(old_r[a], old_r[b]));
                } else if a > k {
                    assert(position_le()(old_r[a - 1], old_r[b - 1]));
                } else if a == k {
                    assert(old_r[k as int] > x);
                    if b - 1 > k {
                        assert(position_le()(old_r[k as int], old_r[b - 1]));
                    }
                } else {
                    assert(old_r[a] <= x);
                }
            }
            assert(v@.take(i + 1) =~= v@.take(i as int).push(x));
            vstd::seq_lib::to_multiset_insert(old_r, k as int, x);
        }
        i = i + 1;
    }
    proof {
        assert(v@.take(v.len() as int) =~= v@);
        lemma_position_le_total();
        v@.lemma_sort_by_ensures(position_le());
        vstd::seq_lib::lemma_sorted_unique(r@, ascending(v@), position_le());
    }
    r
}

} // verus!

verus! {

/// Position and stored status of a task, as read before a reorder.
#[derive(Debug, Clone)]
pub struct StoredSlot {
    pub position: i64,
    pub status: String,
}

/// A row takes part in a reorder when it exists and is not terminal.
pub open spec fn movable(row: Option<StoredSlot>) -> bool {
    match row {
        Some(slot) => match parse_status(slot.status@) {
            Some(st) => !is_terminal(st),
            None => false,
        },
        None => false,
    }
}

/// A row whose stored status names no status.
pub open spec fn corrupt(row: Option<StoredSlot>) -> bool {
    match row {
        Some(slot) => parse_status(slot.status@) is None,
        None => false,
    }
}

/// Ids among the first `n` requested ones whose rows take part in a reorder, in request order.
pub open spec fn moved_ids(ids: Seq<i64>, rows: Seq<Option<StoredSlot>>, n: nat) -> Seq<i64>
    decreases n,
{
    if n == 0 {
        seq![]
    } else {
        let prev = moved_ids(ids, rows, (n - 1) as nat);
        if movable(rows[n - 1]) {
            prev.push(ids[n - 1])
        } else {
            prev
        }
    }
}

/// Current positions of the rows counted by [`moved_ids`], in the same order.
pub open spec fn moved_positions(rows: Seq<Option<StoredSlot>>, n: nat) -> Seq<i64>
    decreases n,
{
    if n == 0 {
        seq![]
    } else {
        let prev = moved_positions(rows, (n - 1) as nat);
        if movable(rows[n - 1]) {
            prev.push(rows[n - 1]->Some_0.position)
        } else {
            prev
        }
    }
}

/// Distinct negative positions that hold rows while they are being rewritten.
pub open spec fn parking_positions(n: nat) -> Seq<i64> {
    Seq::new(n, |i: int| (-i - 1) as i64)
}

/// Position rewrites that carry out a reorder.
///
/// `ids[i]` is parked at `parking[i]`, then written to `positions[i]`.
#[derive(Debug, Clone)]
pub struct ReorderPlan {
    pub ids: Vec<i64>,
    pub parking: Vec<i64>,
    pub positions: Vec<i64>,
}

impl ReorderPlan {
    /// Number of rows whose positions the plan rewrites.
    pub fn rewritten(&self) -> (n: usize)
        ensures
            n == self.ids@.len(),
    {
        self.ids.len()
    }
}

proof fn lemma_moved_lengths(ids: Seq<i64>, rows: Seq<Option<StoredSlot>>, n: nat)
    ensures
        moved_ids(ids, rows, n).len() == moved_positions(rows, n).len(),
        moved_ids(ids, rows, n).len() <= n,
    decreases n,
{
    if n > 0 {
        lemma_moved_lengths(ids, rows, (n - 1) as nat);
    }
}

/// Plan the rewrite of positions so that the rows of `ordered_ids` appear in
/// that order.
///
/// `rows[i]` is what the store holds for `ordered_ids[i]` (`None` when no task
/// has that id). Unknown ids and terminal rows are left out, so they keep
/// their positions; the positions the remaining rows occupy are reused, in
/// ascending order, in the order of the request.
pub fn reorder(ordered_ids: &[i64], rows: &[Option<StoredSlot>]) -> (r: Result<
    ReorderPlan,
    InvalidStatus,
>)
    requires
        ordered_ids@.len() == rows@.len(),
        rows@.len() <= i64::MAX,
    ensures
        r is Err <==> exists|i: int| 0 <= i < rows@.len() && corrupt(#[trigger] rows@[i]),
        r matches Err(e) ==> exists|i: int|
            0 <= i < rows@.len() && corrupt(#[trigger] rows@[i]) && (forall|j: int|
                0 <= j < i ==> !corrupt(rows@[j])) && e.value@ == rows@[i]->Some_0.status@,
        r matches Ok(plan) ==> {
            &&& plan.ids@ == moved_ids(ordered_ids@, rows@, rows@.len())
            &&& plan.positions@ == ascending(moved_positions(rows@, rows@.len()))
            &&& plan.parking@ == parking_positions(plan.ids@.len())
        },
{
    let n = rows.len();
    let mut ids: Vec<i64> = Vec::new();
    let mut current: Vec<i64> = Vec::new();
    let mut i: usize = 0;
    while i < n
        invariant
            n == rows@.len() == ordered_ids@.len(),
            i <= n,
            ids@ == moved_ids(ordered_ids@, rows@, i as nat),
            current@ == moved_positions(rows@, i as nat),
            forall|j: int| 0 <= j < i ==> !corrupt(#[trigger] rows@[j]),
        decreases n - i,
    {
        match &rows[i] {
            Some(slot) => {
                let st = match Status::parse(slot.status.as_str()) {
                    Ok(st) => st,
                    Err(e) => {
                        assert(corrupt(rows@[i as int]));
                        return Err(e);
                    },
                };
                if !st.is_terminal() {
                    ids.push(ordered_ids[i]);
                    current.push(slot.position);
                }
            },
            None => {},
        }
        i = i + 1;
    }
    proof {
        lemma_moved_lengths(ordered_ids@, rows@, n as nat);
    }
    let positions = sort_positions(&current);
    let mut parking: Vec<i64> = Vec::new();
    let mut k: usize = 0;
    while k < ids.len()
        invariant
            k <= ids@.len() <= n,
            n <= i64::MAX,
            parking@ == parking_positions(k as nat),
        decreases ids.len() - k,
    {
        let slot = -(k as i64) - 1;
        let ghost before = parking@;
        parking.push(slot);
        assert(parking@ =~= parking_positions((k + 1) as nat)) by {
            assert forall|j: int| 0 <= j < k + 1 implies parking@[j] == parking_positions(
                (k + 1) as nat,
            )[j] by {
                if j < k {
                    assert(before[j] == parking_positions(k as nat)[j]);
                }
            }
        }
        k = k + 1;
    }
    Ok(ReorderPlan { ids, parking, positions })
}

} // verus!

verus! {

/// What the store holds for each requested id.
pub open spec fn lookup_rows(store: Map<i64, StoredSlot>, ids: Seq<i64>) -> Seq<Option<StoredSlot>> {
    Seq::new(
        ids.len(),
        |i: int|
            if store.dom().contains(ids[i]) {
                Some(store[ids[i]])
            } else {
                None
            },
    )
}

/// The store after `ids[k]` has been moved to `positions[k]` for every `k`.
pub open spec fn apply_moves(store: Map<i64, StoredSlot>, ids: Seq<i64>, positions: Seq<i64>) -> Map<
    i64,
    StoredSlot,
> {
    Map::new(
        |id: i64| store.dom().contains(id),
        |id: i64|
            if ids.contains(id) {
                StoredSlot { position: positions[ids.index_of(id)], status: store[id].status }
            } else {
                store[id]
            },
    )
}

/// No two tasks of the store share a position.
pub open spec fn positions_distinct(store: Map<i64, StoredSlot>) -> bool {
    forall|a: i64, b: i64|
        store.dom().contains(a) && store.dom().contains(b) && a != b ==> #[trigger] store[a].position
            != #[trigger] store[b].position
}

/// The store after the reorder of `ids` has been carried out.
pub open spec fn reordered(store: Map<i64, StoredSlot>, ids: Seq<i64>) -> Map<i64, StoredSlot> {
    let rows = lookup_rows(store, ids);
    apply_moves(
        store,
        moved_ids(ids, rows, ids.len()),
        ascending(moved_positions(rows, ids.len())),
    )
}

proof fn lemma_moved_from_store(store: Map<i64, StoredSlot>, ids: Seq<i64>, n: nat)
    requires
        n <= ids.len(),
    ensures
        ({
            let rows = lookup_rows(store, ids);
            let m = moved_ids(ids, rows, n);
            let p = moved_positions(rows, n);
            &&& m.len() == p.len()
            &&& forall|k: int|
                0 <= k < m.len() ==> store.dom().contains(#[trigger] m[k]) && store[m[k]].position
                    == p[k] && movable(Some(store[m[k]]))
            &&& forall|k: int|
                0 <= k < m.len() ==> exists|j: int| 0 <= j < n && ids[j] == #[trigger] m[k]
            &&& ids.no_duplicates() ==> m.no_duplicates()
        }),
    decreases n,
{
    let rows = lookup_rows(store, ids);
    lemma_moved_lengths(ids, rows, n);
    if n > 0 {
        lemma_moved_from_store(store, ids, (n - 1) as nat);
        let m0 = moved_ids(ids, rows, (n - 1) as nat);
        let m = moved_ids(ids, rows, n);
        if movable(rows[n - 1]) {
            assert forall|k: int| 0 <= k < m.len() implies exists|j: int|
                0 <= j < n && ids[j] == #[trigger] m[k] by {
                if k == m.len() - 1 {
                    assert(ids[n - 1] == m[k]);
                } else {
                    assert(m[k] == m0[k]);
                }
            }
            if ids.no_duplicates() {
                assert forall|a: int, b: int| 0 <= a < m.len() && 0 <= b < m.len() && a != b implies m[a]
                    != m[b] by {
                    if a == m.len() - 1 {
                        assert(m0[b] == m[b]);
                        let j = choose|j: int| 0 <= j < n - 1 && ids[j] == m0[b];
                        assert(ids[j] != ids[n - 1]);
                    } else if b == m.len() - 1 {
                        assert(m0[a] == m[a]);
                        let j = choose|j: int| 0 <= j < n - 1 && ids[j] == m0[a];
                        assert(ids[j] != ids[n - 1]);
                    } else {
                        assert(m0[a] == m[a] && m0[b] == m[b]);
                    }
                }
            }
        } else {
            assert forall|k: int| 0 <= k < m.len() implies exists|j: int|
                0 <= j < n && ids[j] == #[trigger] m[k] by {
                assert(m[k] == m0[k]);
                let j = choose|j: int| 0 <= j < n - 1 && ids[j] == m0[k];
                assert(ids[j] == m[k]);
            }
        }
    }
}

proof fn lemma_ascending_distinct(p: Seq<i64>)
    requires
        p.no_duplicates(),
    ensures
        ascending(p).no_duplicates(),
        ascending(p).len() == p.len(),
        forall|k: int| 0 <= k < p.len() ==> p.contains(#[trigger] ascending(p)[k]),
        forall|a: int, b: int|
            0 <= a < b < p.len() ==> #[trigger] ascending(p)[a] < #[trigger] ascending(p)[b],
{
    let s = ascending(p);
    lemma_position_le_total();
    p.lemma_sort_by_ensures(position_le());
    p.lemma_multiset_has_no_duplicates();
    vstd::seq_lib::to_multiset_len(s);
    vstd::seq_lib::to_multiset_len(p);
    assert forall|x: i64| s.to_multiset().contains(x) implies s.to_multiset().count(x) == 1 by {
        assert(p.to_multiset().contains(x));
    }
    s.lemma_multiset_has_no_duplicates_conv();
    assert forall|k: int| 0 <= k < s.len() implies p.contains(#[trigger] s[k]) by {
        assert(s.contains(s[k]));
    }
    assert forall|a: int, b: int| 0 <= a < b < s.len() implies #[trigger] s[a] < #[trigger] s[b] by {
        assert(position_le()(s[a], s[b]));
    }
}

/// Reordering never makes two tasks share a position: when positions are
/// distinct before and the request names each id once, they are distinct
/// after, and every task the reorder does not move keeps its position.
pub proof fn reorder_keeps_positions_distinct(store: Map<i64, StoredSlot>, ids: Seq<i64>)
    requires
        positions_distinct(store),
        ids.no_duplicates(),
    ensures
        positions_distinct(reordered(store, ids)),
        reordered(store, ids).dom() == store.dom(),
        forall|id: i64|
            store.dom().contains(id) && !moved_ids(ids, lookup_rows(store, ids), ids.len()).contains(id)
                ==> #[trigger] reordered(store, ids)[id] == store[id],
{
    let rows = lookup_rows(store, ids);
    let n = ids.len();
    let m = moved_ids(ids, rows, n);
    let p = moved_positions(rows, n);
    let s = ascending(p);
    let after = reordered(store, ids);
    lemma_moved_from_store(store, ids, n);
    assert(p.no_duplicates()) by {
        assert forall|a: int, b: int| 0 <= a < p.len() && 0 <= b < p.len() && a != b implies p[a]
            != p[b] by {
            assert(store[m[a]].position == p[a]);
            assert(store[m[b]].position == p[b]);
        }
    }
    lemma_ascending_distinct(p);
    assert(after.dom() =~= store.dom());
    assert forall|a: i64, b: i64|
        after.dom().contains(a) && after.dom().contains(b) && a != b implies #[trigger] after[a].position
        != #[trigger] after[b].position by {
        if m.contains(a) && m.contains(b) {
            let ka = m.index_of(a);
            let kb = m.index_of(b);
            assert(s[ka] != s[kb]);
        } else if m.contains(a) {
            let ka = m.index_of(a);
            let j = choose|j: int| 0 <= j < p.len() && p[j] == s[ka];
            assert(store[m[j]].position == p[j]);
            assert(m[j] != b);
        } else if m.contains(b) {
            let kb = m.index_of(b);
            let j = choose|j: int| 0 <= j < p.len() && p[j] == s[kb];
            assert(store[m[j]].position == p[j]);
            assert(m[j] != a);
        }
    }
}

/// After a reorder the moved tasks occupy ascending positions in the order of
/// the request, so the visible list shows them in that order.
pub proof fn reorder_follows_request_order(store: Map<i64, StoredSlot>, ids: Seq<i64>)
    requires
        positions_distinct(store),
        ids.no_duplicates(),
    ensures
        ({
            let m = moved_ids(ids, lookup_rows(store, ids), ids.len());
            forall|a: int, b: int|
                0 <= a < b < m.len() ==> #[trigger] reordered(store, ids)[m[a]].position
                    < #[trigger] reordered(store, ids)[m[b]].position
        }),
{
    let rows = lookup_rows(store, ids);
    let n = ids.len();
    let m = moved_ids(ids, rows, n);
    let p = moved_positions(rows, n);
    let s = ascending(p);
    lemma_moved_from_store(store, ids, n);
    assert(p.no_duplicates()) by {
        assert forall|a: int, b: int| 0 <= a < p.len() && 0 <= b < p.len() && a != b implies p[a]
            != p[b] by {
            assert(store[m[a]].position == p[a]);
            assert(store[m[b]].position == p[b]);
        }
    }
    lemma_ascending_distinct(p);
    assert forall|a: int, b: int| 0 <= a < b < m.len() implies #[trigger] reordered(
        store,
        ids,
    )[m[a]].position < #[trigger] reordered(store, ids)[m[b]].position by {
        assert(m.contains(m[a]) && m.contains(m[b]));
        assert(m.index_of(m[a]) == a);
        assert(m.index_of(m[b]) == b);
        assert(s[a] < s[b]);
    }
}

} // verus!

verus! {

/// A persisted task row. Instants are microseconds since the Unix epoch, UTC.
#[derive(Debug, Clone)]
pub struct Task {
    pub id: i64,
    pub title: String,
    pub description: Option<String>,
    pub status: Status,
    pub position: i64,
    pub created_at: i64,
    pub updated_at: i64,
}

impl Task {
    /// Assemble a task from the columns of its row, decoding the stored status.
    pub fn from_row(
        id: i64,
        title: String,
        description: Option<String>,
        status: &str,
        position: i64,
        created_at: i64,
        updated_at: i64,
    ) -> (r: Result<Task, InvalidStatus>)
        ensures
            r is Ok <==> parse_status(status@) is Some,
            r matches Ok(t) ==> {
                &&& t.id == id
                &&& t.title == title
                &&& t.description == description
                &&& Some(t.status) == parse_status(status@)
                &&& t.position == position
                &&& t.created_at == created_at
                &&& t.updated_at == updated_at
            },
            r matches Err(e) ==> e.value@ == status@,
    {
        let status = Status::parse(status)?;
        Ok(Task { id, title, description, status, position, created_at, updated_at })
    }
}

/// Fields required to create a new task. `status` always starts at `Todo`,
/// `position` is assigned by the repository.
#[derive(Debug, Clone)]
pub struct NewTask {
    pub title: String,
    pub description: Option<String>,
}

/// Fields editable by the inline edit form. Status is changed on its own.
#[derive(Debug, Clone)]
pub struct UpdateTask {
    pub title: String,
    pub description: Option<String>,
}

/// The status every new task starts in.
pub fn initial_status() -> (s: Status)
    ensures
        s == Status::Todo,
{
    Status::Todo
}

/// Position given to a new task: one past the largest position in use
/// (`max_position` is 0 when the table is empty).
pub fn next_position(max_position: i64) -> (p: i64)
    requires
        max_position < i64::MAX,
    ensures
        p == max_position + 1,
        p > max_position,
{
    max_position + 1
}

/// The statuses a list shows: active ones, plus terminal ones on request.
pub open spec fn listed_statuses(include_terminal: bool) -> Seq<Status> {
    if include_terminal {
        seq![Status::Todo, Status::InProgress, Status::Done, Status::Cancelled]
    } else {
        seq![Status::Todo, Status::InProgress]
    }
}

/// The statuses to list, in `Todo, InProgress, Done, Cancelled` order.
pub fn visible_statuses(include_terminal: bool) -> (v: Vec<Status>)
    ensures
        v@ == listed_statuses(include_terminal),
{
    let mut v = vec![Status::Todo, Status::InProgress];
    if include_terminal {
        v.push(Status::Done);
        v.push(Status::Cancelled);
    }
    assert(v@ =~= listed_statuses(include_terminal));
    v
}

/// `n` bind markers separated by `", "`.
pub open spec fn placeholders(n: nat) -> Seq<char>
    decreases n,
{
    if n == 0 {
        seq![]
    } else if n == 1 {
        "?"@
    } else {
        placeholders((n - 1) as nat) + ", ?"@
    }
}

/// The query that lists the tasks whose status is one of `n` bound values.
pub open spec fn list_sql(n: nat) -> Seq<char> {
    "SELECT id, title, description, status, position, created_at, updated_at FROM tasks WHERE status IN ("@
        + placeholders(n) + ") ORDER BY position ASC"@
}

/// The SQL that lists the tasks of the given statuses in display order,
/// with one bind marker per status; `None` when no status is asked for, in
/// which case the list is empty.
pub fn list_query(statuses: &[Status]) -> (r: Option<String>)
    ensures
        statuses@.len() == 0 ==> r is None,
        statuses@.len() > 0 ==> (r matches Some(q) && q@ == list_sql(statuses@.len())),
{
    if statuses.len() == 0 {
        return None;
    }
    let mut q = String::new();
    crate::text::push_str(
        &mut q,
        "SELECT id, title, description, status, position, created_at, updated_at FROM tasks WHERE status IN (",
    );
    let ghost head = q@;
    crate::text::push_str(&mut q, "?");
    let mut i: usize = 1;
    while i < statuses.len()
        invariant
            1 <= i <= statuses@.len(),
            q@ == head + placeholders(i as nat),
        decreases statuses.len() - i,
    {
        crate::text::push_str(&mut q, ", ?");
        proof {
            assert(head + placeholders((i + 1) as nat) =~= head + placeholders(i as nat) + ", ?"@);
        }
        i = i + 1;
    }
    crate::text::push_str(&mut q, ") ORDER BY position ASC");
    proof {
        assert(q@ =~= list_sql(statuses@.len()));
    }
    Some(q)
}

} // verus!

verus! {

/// A reorder only moves existing, non-terminal tasks, and hands them back
/// exactly the positions they held between them.
pub proof fn reorder_moves_only_active_rows(store: Map<i64, StoredSlot>, ids: Seq<i64>)
    ensures
        ({
            let rows = lookup_rows(store, ids);
            let m = moved_ids(ids, rows, ids.len());
            let p = moved_positions(rows, ids.len());
            &&& forall|k: int|
                0 <= k < m.len() ==> store.dom().contains(#[trigger] m[k]) && movable(
                    Some(store[m[k]]),
                ) && store[m[k]].position == p[k]
            &&& ascending(p).to_multiset() == p.to_multiset()
            &&& ascending(p).len() == m.len()
        }),
{
    let rows = lookup_rows(store, ids);
    let p = moved_positions(rows, ids.len());
    lemma_moved_from_store(store, ids, ids.len());
    lemma_position_le_total();
    p.lemma_sort_by_ensures(position_le());
    vstd::seq_lib::to_multiset_len(p);
    vstd::seq_lib::to_multiset_len(ascending(p));
}

} // verus!

verus! {

/// A store of task rows keyed by id, each row carrying its own key.
pub open spec fn keyed_by_id(store: Map<i64, Task>) -> bool {
    forall|id: i64| store.dom().contains(id) ==> #[trigger] store[id].id == id
}

/// No two stored tasks share a position.
pub open spec fn task_positions_distinct(store: Map<i64, Task>) -> bool {
    forall|a: i64, b: i64|
        store.dom().contains(a) && store.dom().contains(b) && a != b ==> #[trigger] store[a].position
            != #[trigger] store[b].position
}

/// `m` is what `COALESCE(MAX(position), 0)` reads from `store`: the largest
/// stored position, or 0 when nothing is stored.
pub open spec fn max_position(store: Map<i64, Task>, m: i64) -> bool {
    &&& store.dom() == Set::<i64>::empty() ==> m == 0
    &&& store.dom() != Set::<i64>::empty() ==> exists|id: i64|
        store.dom().contains(id) && #[trigger] store[id].position == m
    &&& forall|id: i64| store.dom().contains(id) ==> #[trigger] store[id].position <= m
}

/// The row a creation stores under the fresh `id` at `now`: the submitted
/// title and description, the initial status, and the position
/// `next_position` gives after the largest stored position `m`.
pub open spec fn created_task(id: i64, dto: NewTask, m: i64, now: i64) -> Task {
    Task {
        id,
        title: dto.title,
        description: dto.description,
        status: Status::Todo,
        position: (m + 1) as i64,
        created_at: now,
        updated_at: now,
    }
}

/// A created task starts as `todo` and goes after every stored task: its
/// position is one past the largest stored position (1 in an empty store),
/// the stored rows are untouched, and positions stay distinct.
pub proof fn created_task_goes_last(
    store: Map<i64, Task>,
    m: i64,
    id: i64,
    dto: NewTask,
    now: i64,
)
    requires
        max_position(store, m),
        m < i64::MAX,
        !store.dom().contains(id),
    ensures
        ({
            let after = store.insert(id, created_task(id, dto, m, now));
            &&& after[id].status == Status::Todo
            &&& after[id].title == dto.title
            &&& after[id].description == dto.description
            &&& after[id].position == m + 1
            &&& store.dom() == Set::<i64>::empty() ==> after[id].position == 1
            &&& forall|other: i64|
                store.dom().contains(other) ==> #[trigger] after[other] == store[other]
                    && store[other].position < after[id].position
            &&& task_positions_distinct(store) ==> task_positions_distinct(after)
        }),
{
    let after = store.insert(id, created_task(id, dto, m, now));
    assert forall|a: i64, b: i64|
        task_positions_distinct(store) && after.dom().contains(a) && after.dom().contains(b) && a
            != b implies #[trigger] after[a].position != #[trigger] after[b].position by {
        if a == id {
            assert(store[b].position <= m);
        } else if b == id {
            assert(store[a].position <= m);
        }
    }
}

/// `v` lists `store` for `statuses`: each listed task is a stored row with one
/// of the statuses, every such row is listed, and positions strictly ascend.
pub open spec fn is_listing(store: Map<i64, Task>, statuses: Seq<Status>, v: Seq<Task>) -> bool {
    &&& listed_rows_are_stored(store, statuses, v)
    &&& listed_rows_are_complete(store, statuses, v)
    &&& ascending_positions(v)
}

/// Each listed task is a stored row with one of the statuses.
pub open spec fn listed_rows_are_stored(store: Map<i64, Task>, statuses: Seq<Status>, v: Seq<Task>) -> bool {
    forall|i: int|
        0 <= i < v.len() ==> store.dom().contains(#[trigger] v[i].id) && store[v[i].id] == v[i]
            && statuses.contains(v[i].status)
}

/// Every stored row with one of the statuses is listed.
pub open spec fn listed_rows_are_complete(store: Map<i64, Task>, statuses: Seq<Status>, v: Seq<Task>) -> bool {
    forall|id: i64|
        store.dom().contains(id) && statuses.contains(store[id].status) ==> v.contains(
            #[trigger] store[id],
        )
}

/// Positions strictly ascend along `v`.
pub open spec fn ascending_positions(v: Seq<Task>) -> bool {
    forall|i: int, j: int| 0 <= i < j < v.len() ==> #[trigger] v[i].position < #[trigger] v[j].position
}

proof fn lemma_listing_head(store: Map<i64, Task>, statuses: Seq<Status>, v1: Seq<Task>, v2: Seq<Task>)
    requires
        keyed_by_id(store),
        is_listing(store, statuses, v1),
        is_listing(store, statuses, v2),
        v1.len() > 0,
    ensures
        v2.len() > 0,
        v1[0] == v2[0],
{
    let t1 = v1[0];
    assert(store.dom().contains(t1.id) && store[t1.id] == t1);
    assert(v2.contains(store[t1.id]));
    let j = choose|j: int| 0 <= j < v2.len() && v2[j] == t1;
    let t2 = v2[0];
    assert(store.dom().contains(t2.id) && store[t2.id] == t2);
    assert(v1.contains(store[t2.id]));
    let k = choose|k: int| 0 <= k < v1.len() && v1[k] == t2;
    if j > 0 {
        assert(v2[0].position < v2[j].position);
        if k > 0 {
            assert(v1[0].position < v1[k].position);
        }
    }
}

proof fn lemma_listing_tail_elem(store: Map<i64, Task>, statuses: Seq<Status>, v: Seq<Task>, i: int)
    requires
        is_listing(store, statuses, v),
        0 <= i < v.len() - 1,
    ensures
        store.remove(v[0].id).dom().contains(v.drop_first()[i].id),
        store.remove(v[0].id)[v.drop_first()[i].id] == v.drop_first()[i],
        statuses.contains(v.drop_first()[i].status),
{
    let t = v[i + 1];
    assert(v.drop_first()[i] == t);
    assert(store.dom().contains(v[0].id) && store[v[0].id] == v[0]);
    assert(store.dom().contains(v[i + 1].id) && store[v[i + 1].id] == t);
    assert(v[0].position < v[i + 1].position);
}

proof fn lemma_listing_tail(store: Map<i64, Task>, statuses: Seq<Status>, v: Seq<Task>)
    requires
        keyed_by_id(store),
        is_listing(store, statuses, v),
        v.len() > 0,
    ensures
        keyed_by_id(store.remove(v[0].id)),
        is_listing(store.remove(v[0].id), statuses, v.drop_first()),
{
    let id0 = v[0].id;
    let s = store.remove(id0);
    let w = v.drop_first();
    assert(listed_rows_are_stored(s, statuses, w)) by {
        assert forall|i: int| 0 <= i < w.len() implies s.dom().contains(#[trigger] w[i].id)
            && s[w[i].id] == w[i] && statuses.contains(w[i].status) by {
            lemma_listing_tail_elem(store, statuses, v, i);
        }
    }
    assert(listed_rows_are_complete(s, statuses, w)) by {
        assert forall|id: i64| s.dom().contains(id) && statuses.contains(s[id].status) implies w.contains(
            #[trigger] s[id],
        ) by {
            assert(store.dom().contains(id));
            assert(v.contains(store[id]));
            let k = choose|k: int| 0 <= k < v.len() && v[k] == store[id];
            assert(store[id].id == id);
            assert(k != 0);
            assert(w[k - 1] == v[k]);
        }
    }
    assert(ascending_positions(w)) by {
        assert forall|i: int, j: int| 0 <= i < j < w.len() implies #[trigger] w[i].position
            < #[trigger] w[j].position by {
            assert(v[i + 1] == w[i] && v[j + 1] == w[j]);
        }
    }
    assert(keyed_by_id(s));
    assert(is_listing(s, statuses, w));
}

/// A listing is determined by the store and the requested statuses: any
/// two listings of the same store for the same statuses are the same
/// sequence of tasks.
pub proof fn listing_is_unique(store: Map<i64, Task>, statuses: Seq<Status>, v1: Seq<Task>, v2: Seq<Task>)
    requires
        keyed_by_id(store),
        is_listing(store, statuses, v1),
        is_listing(store, statuses, v2),
    ensures
        v1 == v2,
    decreases v1.len(),
{
    if v1.len() == 0 {
        if v2.len() > 0 {
            lemma_listing_head(store, statuses, v2, v1);
        }
        assert(v1 =~= v2);
    } else {
        lemma_listing_head(store, statuses, v1, v2);
        lemma_listing_tail(store, statuses, v1);
        lemma_listing_tail(store, statuses, v2);
        listing_is_unique(store.remove(v1[0].id), statuses, v1.drop_first(), v2.drop_first());
        assert(v1 =~= seq![v1[0]] + v1.drop_first());
        assert(v2 =~= seq![v2[0]] + v2.drop_first());
    }
}

/// The dashboard's and the API's default listing shows only active tasks,
/// all of them, in ascending position; asking for terminal tasks adds the
/// done and cancelled ones; an empty status set lists nothing.
pub proof fn listing_shows_requested_statuses(
    store: Map<i64, Task>,
    include_terminal: bool,
    v: Seq<Task>,
)
    requires
        is_listing(store, listed_statuses(include_terminal), v),
    ensures
        !include_terminal ==> forall|i: int| 0 <= i < v.len() ==> !is_terminal(#[trigger] v[i].status),
        forall|id: i64|
            store.dom().contains(id) && (include_terminal || !is_terminal(store[id].status))
                ==> v.contains(#[trigger] store[id]),
        forall|u: Seq<Task>| is_listing(store, Seq::<Status>::empty(), u) ==> u.len() == 0,
{
    assert forall|i: int| 0 <= i < v.len() && !include_terminal implies !is_terminal(
        #[trigger] v[i].status,
    ) by {
        let t = v[i];
        assert(store.dom().contains(v[i].id));
        assert(listed_statuses(false).contains(t.status));
        let k = choose|k: int| 0 <= k < listed_statuses(false).len() && listed_statuses(false)[k] == t.status;
        assert(k == 0 || k == 1);
    }
    assert forall|id: i64|
        store.dom().contains(id) && (include_terminal || !is_terminal(store[id].status)) implies v.contains(
        #[trigger] store[id],
    ) by {
        let s = store[id].status;
        let l = listed_statuses(include_terminal);
        match s {
            Status::Todo => assert(l[0] == s),
            Status::InProgress => assert(l[1] == s),
            Status::Done => assert(l[2] == s),
            Status::Cancelled => assert(l[3] == s),
        }
    }
    assert forall|u: Seq<Task>| is_listing(store, Seq::<Status>::empty(), u) implies u.len() == 0 by {
        if u.len() > 0 {
            assert(store.dom().contains(u[0].id));
        }
    }
}

} // verus!

verus! {

proof fn lemma_moved_ids_contains(ids: Seq<i64>, rows: Seq<Option<StoredSlot>>, n: nat, x: i64)
    requires
        n <= ids.len(),
        n <= rows.len(),
    ensures
        moved_ids(ids, rows, n).contains(x) <==> exists|k: int|
            0 <= k < n && movable(#[trigger] rows[k]) && ids[k] == x,
    decreases n,
{
    if n > 0 {
        lemma_moved_ids_contains(ids, rows, (n - 1) as nat, x);
        let prev = moved_ids(ids, rows, (n - 1) as nat);
        let k = n - 1;
        if movable(rows[k]) {
            assert(moved_ids(ids, rows, n) == prev.push(ids[k]));
            if prev.contains(x) {
                let j = choose|j: int| 0 <= j < prev.len() && prev[j] == x;
                assert(prev.push(ids[k])[j] == x);
            }
            if ids[k] == x {
                assert(prev.push(ids[k])[prev.len() as int] == x);
            }
            if moved_ids(ids, rows, n).contains(x) {
                let j = choose|j: int| 0 <= j < prev.len() + 1 && prev.push(ids[k])[j] == x;
                if j < prev.len() {
                    assert(prev[j] == x);
                }
            }
        }
    }
}

/// A requested task that exists moves exactly when its stored status is an
/// active one: `todo` or `in_progress` rows are rewritten, while `done` and
/// `cancelled` rows, unknown ids and rows whose status names no status keep
/// their positions (for requests that name each id once).
pub proof fn reorder_moves_todo_and_in_progress_rows(
    ids: Seq<i64>,
    rows: Seq<Option<StoredSlot>>,
    i: int,
)
    requires
        ids.len() == rows.len(),
        0 <= i < ids.len(),
        forall|a: int, b: int| 0 <= a < b < ids.len() ==> ids[a] != ids[b],
    ensures
        (rows[i] matches Some(slot) && (slot.status@ == "todo"@ || slot.status@ == "in_progress"@))
            ==> moved_ids(ids, rows, ids.len()).contains(ids[i]),
        (match rows[i] {
            None => true,
            Some(slot) => slot.status@ == "done"@ || slot.status@ == "cancelled"@ || parse_status(
                slot.status@,
            ) is None,
        }) ==> !moved_ids(ids, rows, ids.len()).contains(ids[i]),
{
    reveal_strlit("todo");
    reveal_strlit("in_progress");
    reveal_strlit("done");
    reveal_strlit("cancelled");
    assert("todo"@[0] != "in_progress"@[0]);
    assert("todo"@[0] != "done"@[0]);
    assert("todo"@[0] != "cancelled"@[0]);
    assert("in_progress"@[0] != "done"@[0]);
    assert("in_progress"@[0] != "cancelled"@[0]);
    assert("done"@[0] != "cancelled"@[0]);
    lemma_moved_ids_contains(ids, rows, ids.len(), ids[i]);
    if rows[i] matches Some(slot) && (slot.status@ == "todo"@ || slot.status@ == "in_progress"@) {
        assert(movable(rows[i]));
    }
    if moved_ids(ids, rows, ids.len()).contains(ids[i]) {
        let k = choose|k: int| 0 <= k < ids.len() && movable(#[trigger] rows[k]) && ids[k] == ids[i];
        assert(k == i);
    }
}

} // verus!
