//! Input validation: constraints, the violations they report, and the proof
//! of validity that the store asks for.
//!
//! A [`Valid<T>`] can only be made by validating a `T`. Whoever holds one
//! holds a value that reports no violation.

use vstd::prelude::*;

use crate::errors::{Errors, ErrorsView};
use crate::text::same_text;

verus! {

/// A constraint on one field, with its bounds.
#[derive(Clone, Copy, Debug, PartialEq, Eq, Structural)]
pub enum Constraint {
    /// The number of characters lies between `min` and `max`, both included.
    Length { min: u64, max: u64 },
}

impl Constraint {
    /// Whether a value meets the constraint.
    pub open spec fn allows(self, value: Seq<char>) -> bool {
        match self {
            Constraint::Length { min, max } => min <= value.len() && value.len() <= max,
        }
    }

    /// The name under which a violation of the constraint is reported.
    pub open spec fn code_text(self) -> Seq<char> {
        match self {
            Constraint::Length { .. } => "length"@,
        }
    }

    pub fn code(&self) -> (name: &'static str)
        ensures
            name@ == self.code_text(),
    {
        match self {
            Constraint::Length { .. } => "length",
        }
    }
}

/// One violation: the constraint that failed and the value that failed it.
#[derive(Debug, PartialEq, Eq)]
pub struct Violation {
    pub constraint: Constraint,
    pub value: String,
}

pub ghost struct ViolationView {
    pub constraint: Constraint,
    pub value: Seq<char>,
}

impl View for Violation {
    type V = ViolationView;

    open spec fn view(&self) -> ViolationView {
        ViolationView { constraint: self.constraint, value: self.value@ }
    }
}

impl Clone for Violation {
    fn clone(&self) -> (copy: Self)
        ensures
            copy@ == self@,
    {
        Violation { constraint: self.constraint, value: self.value.clone() }
    }
}

/// The violations found on one field.
#[derive(Debug, PartialEq, Eq)]
pub struct FieldErrors {
    pub field: &'static str,
    pub errors: Vec<Violation>,
}

pub ghost struct FieldErrorsView {
    pub field: Seq<char>,
    pub errors: Seq<ViolationView>,
}

/// The views of a run of violations, in order.
pub open spec fn violation_views(errors: Seq<Violation>) -> Seq<ViolationView> {
    errors.map_values(|v: Violation| v@)
}

impl View for FieldErrors {
    type V = FieldErrorsView;

    open spec fn view(&self) -> FieldErrorsView {
        FieldErrorsView { field: self.field@, errors: violation_views(self.errors@) }
    }
}

/// The views of a run of per-field entries, in order.
pub open spec fn field_views(entries: Seq<FieldErrors>) -> Seq<FieldErrorsView> {
    entries.map_values(|e: FieldErrors| e@)
}

/// No field is named twice.
pub open spec fn distinct_fields(entries: Seq<FieldErrorsView>) -> bool {
    forall|i: int, j: int|
        0 <= i < j < entries.len() ==> (#[trigger] entries[i]).field != (#[trigger] entries[j]).field
}

/// Whether some entry names `field`.
pub open spec fn names_field(entries: Seq<FieldErrorsView>, field: Seq<char>) -> bool {
    exists|i: int| 0 <= i < entries.len() && (#[trigger] entries[i]).field == field
}

/// The entries after one more violation on `field` is recorded: it joins the
/// field's entry if there is one, and opens a new entry at the end otherwise.
pub open spec fn recorded(
    entries: Seq<FieldErrorsView>,
    field: Seq<char>,
    violation: ViolationView,
) -> Seq<FieldErrorsView> {
    if names_field(entries, field) {
        let i = choose|i: int| 0 <= i < entries.len() && (#[trigger] entries[i]).field == field;
        entries.update(i, FieldErrorsView { field, errors: entries[i].errors.push(violation) })
    } else {
        entries.push(FieldErrorsView { field, errors: seq![violation] })
    }
}

/// What validation found, field by field. No field has two entries.
#[derive(Debug, PartialEq, Eq)]
pub struct ValidationErrors {
    entries: Vec<FieldErrors>,
}

impl View for ValidationErrors {
    type V = Seq<FieldErrorsView>;

    closed spec fn view(&self) -> Seq<FieldErrorsView> {
        field_views(self.entries@)
    }
}

impl ValidationErrors {
    #[verifier::type_invariant]
    spec fn no_field_twice(self) -> bool {
        distinct_fields(field_views(self.entries@))
    }

    /// Nothing found yet.
    pub fn new() -> (empty: ValidationErrors)
        ensures
            empty@ == Seq::<FieldErrorsView>::empty(),
    {
        let empty = ValidationErrors { entries: Vec::new() };
        empty
    }

    /// Whether nothing was found.
    pub fn is_empty(&self) -> (empty: bool)
        ensures
            empty == (self@.len() == 0),
    {
        self.entries.len() == 0
    }

    /// The entries, in the order in which their fields were first reported.
    pub fn field_errors(&self) -> (entries: &Vec<FieldErrors>)
        ensures
            field_views(entries@) == self@,
            distinct_fields(self@),
    {
        proof {
            use_type_invariant(self);
        }
        &self.entries
    }

    /// The entries, handed over.
    pub fn into_field_errors(self) -> (entries: Vec<FieldErrors>)
        ensures
            field_views(entries@) == self@,
            distinct_fields(self@),
    {
        proof {
            use_type_invariant(&self);
        }
        self.entries
    }

    /// Records one violation on `field`.
    pub fn add(&mut self, field: &'static str, violation: Violation)
        ensures
            final(self)@ == recorded(old(self)@, field@, violation@),
    {
        proof {
            use_type_invariant(&*self);
        }
        let ghost before = field_views(self.entries@);
        let mut entries: Vec<FieldErrors> = Vec::new();
        core::mem::swap(&mut self.entries, &mut entries);
        let mut i: usize = 0;
        let mut found = false;
        while i < entries.len() && !found
            invariant
                i <= entries.len(),
                field_views(entries@) == before,
                forall|j: int| 0 <= j < i ==> (#[trigger] before[j]).field != field@,
                found ==> i < entries.len() && before[i as int].field == field@,
            decreases entries.len() - i + if found { 0int } else { 1int },
        {
            if same_text(entries[i].field, field) {
                found = true;
            } else {
                i += 1;
            }
        }
        if found {
            // No field is named twice, so the entry found is the one that
            // `recorded` extends.
            let ghost at = i as int;
            assert(names_field(before, field@));
            let entry = entries.remove(i);
            let FieldErrors { field: name, errors } = entry;
            let mut errors = errors;
            errors.push(violation);
            assert(violation_views(errors@) == before[at].errors.push(violation@));
            entries.insert(i, FieldErrors { field: name, errors });
            assert(field_views(entries@) == recorded(before, field@, violation@));
        } else {
            let mut errors: Vec<Violation> = Vec::new();
            errors.push(violation);
            assert(violation_views(errors@) == seq![violation@]);
            entries.push(FieldErrors { field, errors });
            assert(field_views(entries@) == recorded(before, field@, violation@));
        }
        self.entries = entries;
    }
}

/// `validator::ValidateLength::validate_length` on a string, with both bounds
/// given and no exact length. The crate counts characters, not bytes, and
/// accepts the count if it lies between the bounds, both included.
#[verifier::external_body]
fn length_within(value: &str, min: u64, max: u64) -> (ok: bool)
    ensures
        ok == (min <= value@.len() && value@.len() <= max),
{
    validator::ValidateLength::validate_length(value, Some(min), Some(max), None)
}

/// What a length check on one field reports.
pub open spec fn length_violations(field: Seq<char>, value: Seq<char>, min: u64, max: u64) -> Seq<
    FieldErrorsView,
> {
    let constraint = Constraint::Length { min, max };
    if constraint.allows(value) {
        seq![]
    } else {
        seq![FieldErrorsView { field, errors: seq![ViolationView { constraint, value }] }]
    }
}

/// Checks the length of one field and records a violation if it is out of
/// bounds. The violation carries the bounds and a copy of the value.
pub fn check_length(
    errors: &mut ValidationErrors,
    field: &'static str,
    value: &String,
    min: u64,
    max: u64,
)
    ensures
        final(errors)@ == (if (Constraint::Length { min, max }).allows(value@) {
            old(errors)@
        } else {
            recorded(
                old(errors)@,
                field@,
                ViolationView { constraint: Constraint::Length { min, max }, value: value@ },
            )
        }),
{
    if !length_within(value.as_str(), min, max) {
        errors.add(
            field,
            Violation { constraint: Constraint::Length { min, max }, value: value.clone() },
        );
    }
}

/// A value that can be checked against its own constraints.
pub trait Validate: Sized {
    /// What validation reports, field by field. Nothing: the value is valid.
    spec fn violations(&self) -> Seq<FieldErrorsView>;

    fn validate(&self) -> (outcome: Result<(), ValidationErrors>)
        ensures
            outcome is Ok <==> self.violations().len() == 0,
            outcome matches Err(errors) ==> errors@ == self.violations(),
    ;
}

/// A `T` that has passed validation.
#[derive(Debug, PartialEq, Eq)]
pub struct Valid<T: Validate>(T);

impl<T: Validate> Valid<T> {
    #[verifier::type_invariant]
    spec fn passed(self) -> bool {
        self.0.violations().len() == 0
    }

    /// The validated value.
    pub closed spec fn inner(self) -> T {
        self.0
    }

    pub fn get(&self) -> (value: &T)
        ensures
            *value == self.inner(),
            value.violations().len() == 0,
    {
        proof {
            use_type_invariant(self);
        }
        &self.0
    }

    pub fn into_inner(self) -> (value: T)
        ensures
            value == self.inner(),
            value.violations().len() == 0,
    {
        proof {
            use_type_invariant(&self);
        }
        self.0
    }
}

/// Validation as a conversion: the only way to a [`Valid<T>`].
pub trait TryIntoValid<T: Validate> {
    fn try_into_valid(self) -> Result<Valid<T>, Errors>;
}

impl<T: Validate> TryIntoValid<T> for T {
    /// `Ok` exactly when the value reports no violation; the value is then
    /// handed back unchanged inside the `Valid`. Otherwise the error holds
    /// every violation that validation reports.
    fn try_into_valid(self) -> (outcome: Result<Valid<T>, Errors>)
        ensures
            outcome is Ok <==> self.violations().len() == 0,
            outcome matches Ok(valid) ==> valid.inner() == self,
            outcome matches Err(e) ==> e@ == ErrorsView::Validation(self.violations()),
    {
        match self.validate() {
            Ok(()) => Ok(Valid(self)),
            Err(errors) => Err(Errors::Validation(errors)),
        }
    }
}

} // verus!
