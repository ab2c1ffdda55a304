//! What the store's statements mean.
//!
//! The service keeps its tasks in one relation. This module states, on a
//! plain model of that relation, what each of the four statements does, and
//! proves what the rest of the service relies on: ids are never reused, a
//! task is completed at most once, and a list is always newest first.
//! [`TaskTable`] is the same relation held in memory.

use vstd::prelude::*;
use vstd::string::StringExecFns;

use crate::errors::{Errors, ErrorsView};
use crate::response::{not_found_text, plain, StatusCode};
use crate::service::{after_decode, after_get, after_mark, already_complete_text, quiet, ActionView};
use crate::tasks::{
    row_views, transitioned, within_bounds, Statement, TaskInput, TaskInputView, TaskRow,
    TaskRowView,
};
use crate::validation::Valid;

verus! {

/// The relation: its rows, in the order in which a list returns them, and
/// the id that the next task will get.
pub ghost struct TableView {
    pub rows: Seq<TaskRowView>,
    pub next_id: int,
}

/// Whether some row has this id.
pub open spec fn has_id(rows: Seq<TaskRowView>, id: i32) -> bool {
    exists|i: int| 0 <= i < rows.len() && (#[trigger] rows[i]).id == id
}

/// The place of the row with this id.
pub open spec fn place_of(rows: Seq<TaskRowView>, id: i32) -> int {
    choose|i: int| 0 <= i < rows.len() && (#[trigger] rows[i]).id == id
}

/// No two rows share an id.
pub open spec fn distinct_ids(rows: Seq<TaskRowView>) -> bool {
    forall|i: int, j: int|
        0 <= i < j < rows.len() ==> (#[trigger] rows[i]).id != (#[trigger] rows[j]).id
}

/// No row stands before a row that was created later.
pub open spec fn newest_first(rows: Seq<TaskRowView>) -> bool {
    forall|i: int, j: int|
        0 <= i < j < rows.len() ==> (#[trigger] rows[i]).created_at >= (
        #[trigger] rows[j]).created_at
}

/// `p` is where a row created at `now` goes: behind every row that was
/// created later, before all others.
pub open spec fn is_place_for(rows: Seq<TaskRowView>, now: i64, p: int) -> bool {
    &&& 0 <= p <= rows.len()
    &&& forall|i: int| 0 <= i < p ==> (#[trigger] rows[i]).created_at > now
    &&& p < rows.len() ==> rows[p].created_at <= now
}

/// The place where a row created at `now` goes.
pub open spec fn place_for(rows: Seq<TaskRowView>, now: i64) -> int {
    choose|p: int| is_place_for(rows, now, p)
}

/// The row that an insert creates.
pub open spec fn fresh_row(id: int, input: TaskInputView, now: i64) -> TaskRowView {
    TaskRowView {
        id: id as i32,
        person: input.person,
        description: input.description,
        created_at: now,
        completed_at: None,
    }
}

/// A row, completed at `now`.
pub open spec fn completed_row(row: TaskRowView, now: i64) -> TaskRowView {
    TaskRowView { completed_at: Some(now), ..row }
}

impl TableView {
    /// The empty relation. Ids start at 1.
    pub open spec fn empty() -> TableView {
        TableView { rows: Seq::empty(), next_id: 1 }
    }

    /// What holds of every state of the relation.
    pub open spec fn wf(self) -> bool {
        &&& 1 <= self.next_id <= i32::MAX + 1
        &&& forall|i: int| 0 <= i < self.rows.len() ==> 1 <= (#[trigger] self.rows[i]).id < self.next_id
        &&& distinct_ids(self.rows)
        &&& newest_first(self.rows)
    }

    /// There is an id left for one more task.
    pub open spec fn has_room(self) -> bool {
        self.next_id <= i32::MAX
    }

    /// The state after a task is inserted at time `now`. Where no id is
    /// left, the statement fails and changes nothing.
    pub open spec fn insert(self, input: TaskInputView, now: i64) -> TableView {
        if self.has_room() {
            TableView {
                rows: self.rows.insert(
                    place_for(self.rows, now),
                    fresh_row(self.next_id, input, now),
                ),
                next_id: self.next_id + 1,
            }
        } else {
            self
        }
    }

    /// What a list returns.
    pub open spec fn select_all(self) -> Seq<TaskRowView> {
        self.rows
    }

    /// What a lookup returns.
    pub open spec fn get(self, id: i32) -> Option<TaskRowView> {
        if has_id(self.rows, id) {
            Some(self.rows[place_of(self.rows, id)])
        } else {
            None
        }
    }

    /// Whether a completion of `id` finds a row to change: the task exists
    /// and is not completed.
    pub open spec fn can_complete(self, id: i32) -> bool {
        self.get(id) matches Some(row) && row.completed_at is None
    }

    /// The state after a completion of `id` at time `now`.
    pub open spec fn mark_complete(self, id: i32, now: i64) -> TableView {
        if self.can_complete(id) {
            let at = place_of(self.rows, id);
            TableView { rows: self.rows.update(at, completed_row(self.rows[at], now)), ..self }
        } else {
            self
        }
    }
}

/// Only one place fits.
pub proof fn lemma_place_for_is_unique(rows: Seq<TaskRowView>, now: i64, p: int)
    requires
        is_place_for(rows, now, p),
    ensures
        place_for(rows, now) == p,
{
}

/// Under distinct ids, the row with an id is where that id is seen.
pub proof fn lemma_place_of_is_unique(rows: Seq<TaskRowView>, id: i32, i: int)
    requires
        distinct_ids(rows),
        0 <= i < rows.len(),
        rows[i].id == id,
    ensures
        has_id(rows, id),
        place_of(rows, id) == i,
{
}

/// There is always a place for a new row.
pub proof fn lemma_place_for_fits(rows: Seq<TaskRowView>, now: i64)
    ensures
        is_place_for(rows, now, place_for(rows, now)),
{
    lemma_some_place_fits(rows, now, 0);
}

proof fn lemma_some_place_fits(rows: Seq<TaskRowView>, now: i64, k: int)
    requires
        0 <= k <= rows.len(),
        forall|i: int| 0 <= i < k ==> (#[trigger] rows[i]).created_at > now,
    ensures
        exists|p: int| is_place_for(rows, now, p),
    decreases rows.len() - k,
{
    if k == rows.len() || rows[k].created_at <= now {
        assert(is_place_for(rows, now, k));
    } else {
        lemma_some_place_fits(rows, now, k + 1);
    }
}

/// An insert keeps the relation well-formed.
pub proof fn lemma_insert_keeps_wf(table: TableView, input: TaskInputView, now: i64)
    requires
        table.wf(),
    ensures
        table.insert(input, now).wf(),
{
    if table.has_room() {
        let p = place_for(table.rows, now);
        let row = fresh_row(table.next_id, input, now);
        // The new row stands at `p`; the rows before it stay, the rows from
        // `p` on move one place back.
        lemma_place_for_fits(table.rows, now);
        table.rows.insert_ensures(p, row);
    }
}

/// A completion keeps the relation well-formed.
pub proof fn lemma_mark_complete_keeps_wf(table: TableView, id: i32, now: i64)
    requires
        table.wf(),
    ensures
        table.mark_complete(id, now).wf(),
{
}

/// Under distinct ids, a lookup returns the row that carries the id.
pub proof fn lemma_get_finds(table: TableView, id: i32, i: int)
    requires
        table.wf(),
        0 <= i < table.rows.len(),
        table.rows[i].id == id,
    ensures
        table.get(id) == Some(table.rows[i]),
{
    lemma_place_of_is_unique(table.rows, id, i);
}

/// An insert leaves every task that was there as it was.
pub proof fn lemma_insert_keeps_rows(table: TableView, input: TaskInputView, now: i64, id: i32)
    requires
        table.wf(),
        table.get(id) is Some,
    ensures
        table.insert(input, now).get(id) == table.get(id),
{
    if table.has_room() {
        let at = place_of(table.rows, id);
        let p = place_for(table.rows, now);
        let after = table.insert(input, now);
        lemma_place_for_fits(table.rows, now);
        lemma_insert_keeps_wf(table, input, now);
        table.rows.insert_ensures(p, fresh_row(table.next_id, input, now));
        if at < p {
            lemma_get_finds(after, id, at);
        } else {
            lemma_get_finds(after, id, at + 1);
        }
    }
}

/// A completion changes at most the task it names, and of that task only
/// the time of completion.
pub proof fn lemma_mark_complete_keeps_rows(table: TableView, target: i32, now: i64, id: i32)
    requires
        table.wf(),
        table.get(id) is Some,
    ensures
        table.mark_complete(target, now).get(id) == (if target == id && table.can_complete(id) {
            Some(completed_row(table.get(id)->0, now))
        } else {
            table.get(id)
        }),
{
    if table.can_complete(target) {
        // The row stays where it was; whether it is the one that changes
        // depends on whether it is the one that was named.
        let at = place_of(table.rows, id);
        lemma_mark_complete_keeps_wf(table, target, now);
        lemma_get_finds(table.mark_complete(target, now), id, at);
    }
}

/// A valid input that is created is in the next list exactly once, and the
/// list is otherwise unchanged. The new task carries the input as given, an
/// id above every id in use, the time of its creation, and no time of
/// completion.
///
/// This holds while the store has ids left: the one case in which an insert
/// fails of its own.
pub proof fn lemma_created_task_is_listed(table: TableView, input: TaskInputView, now: i64)
    requires
        table.wf(),
        table.has_room(),
        within_bounds(input),
    ensures
        after_decode(Ok(input)) == (ActionView::Insert { task: input }),
        ({
            let row = fresh_row(table.next_id, input, now);
            let before = table.select_all();
            let after = table.insert(input, now).select_all();
            &&& after.to_multiset() == before.to_multiset().insert(row)
            &&& after.len() == before.len() + 1
            &&& !has_id(before, row.id)
            &&& forall|i: int| 0 <= i < before.len() ==> (#[trigger] before[i]).id < row.id
            &&& table.insert(input, now).get(row.id) == Some(row)
            &&& row.person == input.person
            &&& row.description == input.description
            &&& row.created_at == now
            &&& row.completed_at is None
        }),
{
    let row = fresh_row(table.next_id, input, now);
    let p = place_for(table.rows, now);
    lemma_place_for_fits(table.rows, now);
    lemma_insert_keeps_wf(table, input, now);
    table.rows.insert_ensures(p, row);
    vstd::seq_lib::to_multiset_insert(table.rows, p, row);
    lemma_get_finds(table.insert(input, now), row.id, p);
}

/// Completing a task that exists and is not completed makes the transition:
/// the handler goes on from the lookup to the completion, answers 200, and
/// a lookup then shows the time of completion. A second attempt is told
/// that the task is already complete, and changes nothing.
pub proof fn lemma_completion_happens_once(table: TableView, id: i32, now: i64, later: i64)
    requires
        table.wf(),
        table.can_complete(id),
    ensures
        after_get(id, Ok(table.get(id))) == (ActionView::MarkComplete { id }),
        after_mark(Ok(table.can_complete(id))) == quiet(plain(StatusCode::Success, Seq::empty())),
        ({
            let once = table.mark_complete(id, now);
            &&& once.get(id) == Some(completed_row(table.get(id)->0, now))
            &&& after_get(id, Ok(once.get(id))) == (ActionView::MarkComplete { id })
            &&& !once.can_complete(id)
            &&& after_mark(Ok(once.can_complete(id))) == quiet(
                plain(StatusCode::BadRequest, already_complete_text()),
            )
            &&& once.mark_complete(id, later) == once
        }),
{
    lemma_mark_complete_keeps_rows(table, id, now, id);
}

/// Completing a task that does not exist is answered with 404 after the
/// lookup, without a further statement; and the completion itself, were it
/// sent, would change nothing.
pub proof fn lemma_missing_task_is_not_found(table: TableView, id: i32, now: i64)
    requires
        table.get(id) is None,
    ensures
        after_get(id, Ok(table.get(id))) == quiet(plain(StatusCode::NotFound, not_found_text())),
        after_get(id, Ok(table.get(id))).is_final(),
        !table.can_complete(id),
        table.mark_complete(id, now) == table,
{
}

/// In a list, a task that was created later stands before one that was
/// created earlier.
pub proof fn lemma_later_task_is_listed_first(table: TableView, i: int, j: int)
    requires
        table.wf(),
        0 <= i < table.select_all().len(),
        0 <= j < table.select_all().len(),
        table.select_all()[i].created_at > table.select_all()[j].created_at,
    ensures
        i < j,
{
}

/// Three tasks created one after the other are listed newest first.
pub proof fn lemma_three_tasks_are_listed_newest_first(
    first: TaskInputView,
    second: TaskInputView,
    third: TaskInputView,
    t1: i64,
    t2: i64,
    t3: i64,
)
    requires
        t1 < t2 < t3,
    ensures
        TableView::empty().insert(first, t1).insert(second, t2).insert(third, t3).select_all()
            == seq![fresh_row(3, third, t3), fresh_row(2, second, t2), fresh_row(1, first, t1)],
{
    // Each new task is newer than all before it, so it goes to the front.
    let one = TableView::empty().insert(first, t1);
    lemma_place_for_is_unique(TableView::empty().rows, t1, 0);
    assert(one.rows == seq![fresh_row(1, first, t1)]);
    let two = one.insert(second, t2);
    lemma_place_for_is_unique(one.rows, t2, 0);
    assert(two.rows == seq![fresh_row(2, second, t2), fresh_row(1, first, t1)]);
    lemma_place_for_is_unique(two.rows, t3, 0);
}

/// One statement, as the store runs it: whole, and one at a time.
pub ghost enum Call {
    Insert { input: TaskInputView, now: i64 },
    SelectAll,
    Get { id: i32 },
    MarkComplete { id: i32, now: i64 },
}

impl Call {
    /// The statement that is sent for this call.
    pub open spec fn statement(self) -> Statement {
        match self {
            Call::Insert { .. } => Statement::Insert,
            Call::SelectAll => Statement::SelectAll,
            Call::Get { .. } => Statement::Get,
            Call::MarkComplete { .. } => Statement::MarkComplete,
        }
    }

    /// The call is an attempt to complete `id`.
    pub open spec fn completes(self, id: i32) -> bool {
        self matches Call::MarkComplete { id: target, .. } && target == id
    }
}

impl TableView {
    /// The state after one statement.
    pub open spec fn apply(self, call: Call) -> TableView {
        match call {
            Call::Insert { input, now } => self.insert(input, now),
            Call::MarkComplete { id, now } => self.mark_complete(id, now),
            Call::SelectAll => self,
            Call::Get { .. } => self,
        }
    }

    /// The state after a run of statements. However requests overlap, the
    /// store runs their statements in some order: each such order is a run.
    pub open spec fn run(self, calls: Seq<Call>) -> TableView
        decreases calls.len(),
    {
        if calls.len() == 0 {
            self
        } else {
            self.run(calls.drop_last()).apply(calls.last())
        }
    }

    /// The `k`-th statement of the run is an attempt to complete `id`, and
    /// it reports the transition.
    pub open spec fn transitions_at(self, calls: Seq<Call>, k: int, id: i32) -> bool {
        &&& 0 <= k < calls.len()
        &&& calls[k].completes(id)
        &&& self.run(calls.take(k)).can_complete(id)
    }

    /// The `k`-th statement of the run is an attempt to complete `id`, and
    /// it finds the task completed.
    pub open spec fn finds_completed_at(self, calls: Seq<Call>, k: int, id: i32) -> bool {
        &&& 0 <= k < calls.len()
        &&& calls[k].completes(id)
        &&& self.run(calls.take(k)).get(id) matches Some(row) && row.completed_at is Some
    }
}

/// Every statement keeps the relation well-formed.
pub proof fn lemma_apply_keeps_wf(table: TableView, call: Call)
    requires
        table.wf(),
    ensures
        table.apply(call).wf(),
{
    match call {
        Call::Insert { input, now } => lemma_insert_keeps_wf(table, input, now),
        Call::MarkComplete { id, now } => lemma_mark_complete_keeps_wf(table, id, now),
        _ => {},
    }
}

/// Every run keeps the relation well-formed.
pub proof fn lemma_run_keeps_wf(table: TableView, calls: Seq<Call>)
    requires
        table.wf(),
    ensures
        table.run(calls).wf(),
    decreases calls.len(),
{
    if calls.len() > 0 {
        lemma_run_keeps_wf(table, calls.drop_last());
        lemma_apply_keeps_wf(table.run(calls.drop_last()), calls.last());
    }
}

/// No statement removes a task, changes what it says or when it was
/// created, or touches the time of a completion that has happened.
pub proof fn lemma_apply_keeps_tasks(table: TableView, call: Call, id: i32)
    requires
        table.wf(),
        table.get(id) is Some,
    ensures
        table.apply(call).get(id) is Some,
        ({
            let before = table.get(id)->0;
            let after = table.apply(call).get(id)->0;
            &&& after.id == before.id
            &&& after.person == before.person
            &&& after.description == before.description
            &&& after.created_at == before.created_at
            &&& before.completed_at is Some ==> after.completed_at == before.completed_at
            &&& !call.completes(id) ==> after.completed_at == before.completed_at
            &&& call.completes(id) ==> after.completed_at is Some
        }),
{
    match call {
        Call::Insert { input, now } => lemma_insert_keeps_rows(table, input, now, id),
        Call::MarkComplete { id: target, now } => lemma_mark_complete_keeps_rows(
            table,
            target,
            now,
            id,
        ),
        _ => {},
    }
}

/// After an attempt to complete `id` in a run, every later state of the
/// run holds the task as completed.
proof fn lemma_completed_from_then_on(table: TableView, calls: Seq<Call>, k: int, m: int, id: i32)
    requires
        table.wf(),
        0 <= k < m <= calls.len(),
        calls[k].completes(id),
        table.run(calls.take(k)).get(id) is Some,
    ensures
        table.run(calls.take(m)).get(id) matches Some(row) && row.completed_at is Some,
    decreases m,
{
    // The state after `m` statements is the state after `m - 1` of them,
    // with statement `m - 1` applied.
    assert(calls.take(m).drop_last() == calls.take(m - 1));
    lemma_run_keeps_wf(table, calls.take(m - 1));
    if m - 1 > k {
        lemma_completed_from_then_on(table, calls, k, m - 1, id);
    }
    lemma_apply_keeps_tasks(table.run(calls.take(m - 1)), calls[m - 1], id);
}

/// While nothing attempts to complete `id`, a task that can be completed
/// stays so.
proof fn lemma_pending_until_attempted(table: TableView, calls: Seq<Call>, m: int, id: i32)
    requires
        table.wf(),
        table.can_complete(id),
        0 <= m <= calls.len(),
        forall|i: int| 0 <= i < m ==> !(#[trigger] calls[i]).completes(id),
    ensures
        table.run(calls.take(m)).can_complete(id),
    decreases m,
{
    if m > 0 {
        assert(calls.take(m).drop_last() == calls.take(m - 1));
        lemma_pending_until_attempted(table, calls, m - 1, id);
        lemma_run_keeps_wf(table, calls.take(m - 1));
        lemma_apply_keeps_tasks(table.run(calls.take(m - 1)), calls[m - 1], id);
    }
}

/// In no run do two attempts on one task both report the transition: every
/// attempt after one that did finds the task completed.
pub proof fn lemma_no_second_transition(
    table: TableView,
    calls: Seq<Call>,
    id: i32,
    i: int,
    j: int,
)
    requires
        table.wf(),
        i < j,
        table.transitions_at(calls, i, id),
        0 <= j < calls.len(),
        calls[j].completes(id),
    ensures
        !table.transitions_at(calls, j, id),
        table.finds_completed_at(calls, j, id),
{
    lemma_completed_from_then_on(table, calls, i, j, id);
}

/// Of the attempts in a run to complete a task that can be completed, the
/// first reports the transition. With the law above: exactly one does.
pub proof fn lemma_first_attempt_transitions(table: TableView, calls: Seq<Call>, id: i32, k: int)
    requires
        table.wf(),
        table.can_complete(id),
        0 <= k < calls.len(),
        calls[k].completes(id),
        forall|i: int| 0 <= i < k ==> !(#[trigger] calls[i]).completes(id),
    ensures
        table.transitions_at(calls, k, id),
        forall|j: int|
            k < j < calls.len() && (#[trigger] calls[j]).completes(id) ==> table.finds_completed_at(
                calls,
                j,
                id,
            ),
{
    lemma_pending_until_attempted(table, calls, k, id);
    assert forall|j: int| k < j < calls.len() && (#[trigger] calls[j]).completes(
        id,
    ) implies table.finds_completed_at(calls, j, id) by {
        lemma_no_second_transition(table, calls, id, k, j);
    }
}

/// Detail of the failure of an insert for which no id is left.
pub open spec fn ids_exhausted_text() -> Seq<char> {
    "integer out of range"@
}

/// The relation, held in memory.
///
/// The time of each change is given by the caller, where the store would
/// read its clock.
#[derive(Debug)]
pub struct TaskTable {
    rows: Vec<TaskRow>,
    next_id: i64,
}

impl View for TaskTable {
    type V = TableView;

    closed spec fn view(&self) -> TableView {
        TableView { rows: row_views(self.rows@), next_id: self.next_id as int }
    }
}

impl TaskTable {
    #[verifier::type_invariant]
    spec fn well_formed(self) -> bool {
        self@.wf()
    }

    /// The empty relation.
    pub fn new() -> (table: TaskTable)
        ensures
            table@ == TableView::empty(),
            table@.wf(),
    {
        let table = TaskTable { rows: Vec::new(), next_id: 1 };
        assert(table@.rows =~= Seq::empty());
        table
    }

    /// The empty relation whose first task will get the id `first_id`.
    /// `None` if that is no id: ids are positive.
    pub fn starting_at(first_id: i32) -> (table: Option<TaskTable>)
        ensures
            table is Some <==> first_id >= 1,
            table matches Some(t) ==> t@ == (TableView { rows: Seq::empty(), next_id: first_id as int })
                && t@.wf(),
    {
        if first_id < 1 {
            return None;
        }
        let table = TaskTable { rows: Vec::new(), next_id: first_id as i64 };
        assert(table@.rows =~= Seq::empty());
        Some(table)
    }

    /// Adds a task, created at `now`. Fails, and changes nothing, only if
    /// no id is left.
    pub fn insert(&mut self, task: Valid<TaskInput>, now: i64) -> (outcome: Result<(), Errors>)
        ensures
            outcome is Ok <==> old(self)@.has_room(),
            outcome matches Err(error) ==> error@ == ErrorsView::Database(ids_exhausted_text()),
            final(self)@ == old(self)@.insert(task.inner()@, now),
            final(self)@.wf(),
    {
        proof {
            use_type_invariant(&*self);
            lemma_insert_keeps_wf(self@, task.inner()@, now);
        }
        if self.next_id > 2147483647 {
            return Err(Errors::Database(String::from_str("integer out of range")));
        }
        let ghost before = self@;
        let id: i32 = self.next_id as i32;
        let input = task.into_inner();
        let ghost wanted = fresh_row(before.next_id, input@, now);
        let row = TaskRow {
            id,
            person: input.person,
            description: input.description,
            created_at: now,
            completed_at: None,
        };
        let mut rows: Vec<TaskRow> = Vec::new();
        core::mem::swap(&mut self.rows, &mut rows);
        let mut p: usize = 0;
        while p < rows.len() && rows[p].created_at > now
            invariant
                p <= rows.len(),
                row_views(rows@) == before.rows,
                forall|i: int| 0 <= i < p ==> (#[trigger] before.rows[i]).created_at > now,
            decreases rows.len() - p,
        {
            p += 1;
        }
        proof {
            lemma_place_for_is_unique(before.rows, now, p as int);
        }
        rows.insert(p, row);
        assert(row_views(rows@) =~= before.rows.insert(p as int, wanted));
        self.next_id = self.next_id + 1;
        self.rows = rows;
        Ok(())
    }

    /// All tasks, newest first.
    pub fn select_all(&self) -> (tasks: Vec<TaskRow>)
        ensures
            row_views(tasks@) == self@.select_all(),
            self@.wf(),
    {
        proof {
            use_type_invariant(self);
        }
        let mut tasks: Vec<TaskRow> = Vec::new();
        let mut i: usize = 0;
        while i < self.rows.len()
            invariant
                i <= self.rows.len(),
                tasks@.len() == i,
                forall|k: int| 0 <= k < i ==> (#[trigger] tasks@[k])@ == self.rows@[k]@,
            decreases self.rows.len() - i,
        {
            tasks.push(self.rows[i].clone());
            i += 1;
        }
        tasks
    }

    /// Where the row with this id stands, if there is one.
    fn find(rows: &Vec<TaskRow>, id: i32) -> (at: Option<usize>)
        requires
            distinct_ids(row_views(rows@)),
        ensures
            at is Some <==> has_id(row_views(rows@), id),
            at matches Some(i) ==> i < rows.len() && i == place_of(row_views(rows@), id),
    {
        let ghost views = row_views(rows@);
        let mut i: usize = 0;
        while i < rows.len()
            invariant
                i <= rows.len(),
                views == row_views(rows@),
                distinct_ids(views),
                forall|k: int| 0 <= k < i ==> (#[trigger] views[k]).id != id,
            decreases rows.len() - i,
        {
            if rows[i].id == id {
                proof {
                    lemma_place_of_is_unique(views, id, i as int);
                }
                return Some(i);
            }
            i += 1;
        }
        None
    }

    /// The task with this id, if there is one.
    pub fn get(&self, id: i32) -> (task: Option<TaskRow>)
        ensures
            self@.get(id) == (match task {
                Some(row) => Some(row@),
                None => None,
            }),
            self@.wf(),
    {
        proof {
            use_type_invariant(self);
        }
        match Self::find(&self.rows, id) {
            Some(i) => Some(self.rows[i].clone()),
            None => None,
        }
    }

    /// Completes the task with this id at `now`, if it exists and is not
    /// completed. Says whether it did.
    pub fn mark_complete(&mut self, id: i32, now: i64) -> (done: bool)
        ensures
            done == old(self)@.can_complete(id),
            final(self)@ == old(self)@.mark_complete(id, now),
            final(self)@.wf(),
    {
        proof {
            use_type_invariant(&*self);
            lemma_mark_complete_keeps_wf(self@, id, now);
        }
        let ghost before = self@;
        let mut rows: Vec<TaskRow> = Vec::new();
        core::mem::swap(&mut self.rows, &mut rows);
        let mut affected: u64 = 0;
        match Self::find(&rows, id) {
            Some(i) => {
                if rows[i].completed_at.is_none() {
                    let row = rows.remove(i);
                    let TaskRow { id: same_id, person, description, created_at, completed_at: _ } =
                        row;
                    rows.insert(
                        i,
                        TaskRow { id: same_id, person, description, created_at, completed_at: Some(now) },
                    );
                    affected = 1;
                    assert(row_views(rows@) =~= before.rows.update(
                        i as int,
                        completed_row(before.rows[i as int], now),
                    ));
                }
            },
            None => {},
        }
        self.rows = rows;
        transitioned(affected)
    }
}

} // verus!
