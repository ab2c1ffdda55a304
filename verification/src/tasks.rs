//! Tasks: what a client hands in, what the store hands out, and the
//! statements that pass between the service and its store.

use vstd::prelude::*;
use vstd::std_specs::convert::TryFromSpecImpl;

use crate::errors::{Errors, ErrorsView};
use crate::validation::{
    check_length, length_violations, names_field, FieldErrorsView, TryIntoValid, Valid, Validate,
    ValidationErrors,
};

verus! {

/// Fewest characters in a task's `person` and in its `description`.
pub const MIN_LENGTH: u64 = 1;

/// Most characters in a task's `person`.
pub const PERSON_MAX_LENGTH: u64 = 100;

/// Most characters in a task's `description`.
pub const DESCRIPTION_MAX_LENGTH: u64 = 1000;

/// The input for a new task, as decoded from a request. A field that the
/// request leaves out is the empty string.
#[derive(Debug, PartialEq, Eq)]
pub struct TaskInput {
    pub person: String,
    pub description: String,
}

pub ghost struct TaskInputView {
    pub person: Seq<char>,
    pub description: Seq<char>,
}

impl View for TaskInput {
    type V = TaskInputView;

    open spec fn view(&self) -> TaskInputView {
        TaskInputView { person: self.person@, description: self.description@ }
    }
}

/// Name under which violations on `person` are reported.
pub open spec fn person_field() -> Seq<char> {
    "person"@
}

/// Name under which violations on `description` are reported.
pub open spec fn description_field() -> Seq<char> {
    "description"@
}

/// Both fields are within their bounds.
pub open spec fn within_bounds(input: TaskInputView) -> bool {
    &&& MIN_LENGTH <= input.person.len() <= PERSON_MAX_LENGTH
    &&& MIN_LENGTH <= input.description.len() <= DESCRIPTION_MAX_LENGTH
}

/// What validation reports on an input: `person` is checked first, then
/// `description`; each reports at most one violation, of its length.
pub open spec fn input_violations(input: TaskInputView) -> Seq<FieldErrorsView> {
    length_violations(person_field(), input.person, MIN_LENGTH, PERSON_MAX_LENGTH)
        + length_violations(
        description_field(),
        input.description,
        MIN_LENGTH,
        DESCRIPTION_MAX_LENGTH,
    )
}

impl Validate for TaskInput {
    open spec fn violations(&self) -> Seq<FieldErrorsView> {
        input_violations(self@)
    }

    fn validate(&self) -> (outcome: Result<(), ValidationErrors>) {
        proof {
            reveal_strlit("person");
            reveal_strlit("description");
        }
        let mut errors = ValidationErrors::new();
        check_length(&mut errors, "person", &self.person, MIN_LENGTH, PERSON_MAX_LENGTH);
        let ghost on_person = length_violations(
            person_field(),
            self.person@,
            MIN_LENGTH,
            PERSON_MAX_LENGTH,
        );
        assert(!names_field(on_person, description_field())) by {
            assert(person_field().len() != description_field().len());
        }
        check_length(
            &mut errors,
            "description",
            &self.description,
            MIN_LENGTH,
            DESCRIPTION_MAX_LENGTH,
        );
        if errors.is_empty() {
            Ok(())
        } else {
            Err(errors)
        }
    }
}

impl TryFrom<TaskInput> for Valid<TaskInput> {
    type Error = Errors;

    /// The same validation as [`TryIntoValid::try_into_valid`].
    fn try_from(task: TaskInput) -> (outcome: Result<Self, Errors>)
        ensures
            outcome is Ok <==> within_bounds(task@),
            outcome matches Ok(valid) ==> valid.inner() == task,
            outcome matches Err(e) ==> e@ == ErrorsView::Validation(input_violations(task@)),
    {
        task.try_into_valid()
    }
}

impl TryFromSpecImpl<TaskInput> for Valid<TaskInput> {
    /// The conversion is stated by the `ensures` of `try_from`.
    open spec fn obeys_try_from_spec() -> bool {
        false
    }

    open spec fn try_from_spec(task: TaskInput) -> Result<Self, Errors> {
        arbitrary()
    }
}

/// A task as the store holds it.
///
/// Times are microseconds since the Unix epoch, in UTC: the resolution at
/// which the store keeps them.
#[derive(Debug, PartialEq, Eq)]
pub struct TaskRow {
    /// Assigned by the store, unique, never changed.
    pub id: i32,
    pub person: String,
    pub description: String,
    /// Set once, when the task is created.
    pub created_at: i64,
    /// `None` until the task is completed; set once.
    pub completed_at: Option<i64>,
}

pub ghost struct TaskRowView {
    pub id: i32,
    pub person: Seq<char>,
    pub description: Seq<char>,
    pub created_at: i64,
    pub completed_at: Option<i64>,
}

impl View for TaskRow {
    type V = TaskRowView;

    open spec fn view(&self) -> TaskRowView {
        TaskRowView {
            id: self.id,
            person: self.person@,
            description: self.description@,
            created_at: self.created_at,
            completed_at: self.completed_at,
        }
    }
}

impl Clone for TaskRow {
    fn clone(&self) -> (copy: Self)
        ensures
            copy@ == self@,
    {
        TaskRow {
            id: self.id,
            person: self.person.clone(),
            description: self.description.clone(),
            created_at: self.created_at,
            completed_at: self.completed_at,
        }
    }
}

/// The views of a run of rows, in order.
pub open spec fn row_views(rows: Seq<TaskRow>) -> Seq<TaskRowView> {
    rows.map_values(|row: TaskRow| row@)
}

/// The statements that the service sends to its store.
#[derive(Clone, Copy, Debug, PartialEq, Eq, Structural)]
pub enum Statement {
    /// Adds a task. Parameters: `person`, `description`. The store assigns
    /// `id` and `created_at`.
    Insert,
    /// Reads all tasks, newest first. No parameters.
    SelectAll,
    /// Reads the task with a given id. Parameter: `id`.
    Get,
    /// Completes the task with a given id, unless it is completed already.
    /// Parameter: `id`. One statement, so that of two attempts on one task
    /// only one can find it uncompleted.
    MarkComplete,
}

impl Statement {
    pub open spec fn text(self) -> Seq<char> {
        match self {
            Statement::Insert => "INSERT INTO tasks (person, description) VALUES ($1, $2)"@,
            Statement::SelectAll =>
                "SELECT id, person, description, created_at, completed_at FROM tasks ORDER BY created_at DESC"@,
            Statement::Get =>
                "SELECT id, person, description, created_at, completed_at FROM tasks WHERE id = $1 LIMIT 1"@,
            Statement::MarkComplete =>
                "UPDATE tasks SET completed_at = NOW() WHERE id = $1 AND completed_at IS NULL"@,
        }
    }

    /// How many parameters the statement takes.
    pub open spec fn arity(self) -> nat {
        match self {
            Statement::Insert => 2,
            Statement::SelectAll => 0,
            Statement::Get => 1,
            Statement::MarkComplete => 1,
        }
    }

    /// The statement's text, with `$1`, `$2` for its parameters.
    pub fn sql(self) -> (text: &'static str)
        ensures
            text@ == self.text(),
    {
        match self {
            Statement::Insert => "INSERT INTO tasks (person, description) VALUES ($1, $2)",
            Statement::SelectAll =>
                "SELECT id, person, description, created_at, completed_at FROM tasks ORDER BY created_at DESC",
            Statement::Get =>
                "SELECT id, person, description, created_at, completed_at FROM tasks WHERE id = $1 LIMIT 1",
            Statement::MarkComplete =>
                "UPDATE tasks SET completed_at = NOW() WHERE id = $1 AND completed_at IS NULL",
        }
    }

    pub fn parameters(self) -> (count: usize)
        ensures
            count == self.arity(),
    {
        match self {
            Statement::Insert => 2,
            Statement::SelectAll => 0,
            Statement::Get => 1,
            Statement::MarkComplete => 1,
        }
    }
}

/// Whether a completion made the transition, given the number of rows that
/// the store reports as changed: exactly one row must have changed.
pub fn transitioned(rows_affected: u64) -> (done: bool)
    ensures
        done == (rows_affected == 1),
{
    1 == rows_affected
}

} // verus!
