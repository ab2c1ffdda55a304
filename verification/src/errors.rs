//! The one error type of the pipeline, and the client-facing form of
//! validation failures.

use vstd::prelude::*;
use vstd::std_specs::convert::FromSpecImpl;
use vstd::string::StringExecFns;

use crate::content::InputContentTypes;
use crate::validation::{violation_views, FieldErrorsView, ValidationErrors, Violation};

verus! {

/// Everything that can go wrong while a request is handled.
///
/// The variants that carry text carry the detail of a failure that happened
/// outside: it is meant for the server's log and never reaches a client.
#[derive(Debug, PartialEq, Eq)]
pub enum Errors {
    /// The store failed.
    Database(String),
    /// The request body could not be decoded.
    Json(String),
    /// The transport failed while the body was transferred.
    Hyper(String),
    /// No pooled connection could be had.
    Pool(String),
    /// The input violates its constraints.
    Validation(ValidationErrors),
    /// The page could not be rendered.
    Template(String),
    /// A response body could not be encoded.
    Encoding(String),
    /// The body cannot be decoded: it is of the given kind, which is a
    /// recognised kind without a decoder, or no known kind at all.
    UnsupportedContentType(InputContentTypes),
    /// The id in the path is not an integer.
    PathParam,
    /// There is no task with the given id.
    NotFound,
    /// The task was completed before.
    AlreadyCompleted,
}

pub ghost enum ErrorsView {
    Database(Seq<char>),
    Json(Seq<char>),
    Hyper(Seq<char>),
    Pool(Seq<char>),
    Validation(Seq<FieldErrorsView>),
    Template(Seq<char>),
    Encoding(Seq<char>),
    UnsupportedContentType(InputContentTypes),
    PathParam,
    NotFound,
    AlreadyCompleted,
}

impl View for Errors {
    type V = ErrorsView;

    open spec fn view(&self) -> ErrorsView {
        match self {
            Errors::Database(detail) => ErrorsView::Database(detail@),
            Errors::Json(detail) => ErrorsView::Json(detail@),
            Errors::Hyper(detail) => ErrorsView::Hyper(detail@),
            Errors::Pool(detail) => ErrorsView::Pool(detail@),
            Errors::Validation(errors) => ErrorsView::Validation(errors@),
            Errors::Template(detail) => ErrorsView::Template(detail@),
            Errors::Encoding(detail) => ErrorsView::Encoding(detail@),
            Errors::UnsupportedContentType(kind) => ErrorsView::UnsupportedContentType(*kind),
            Errors::PathParam => ErrorsView::PathParam,
            Errors::NotFound => ErrorsView::NotFound,
            Errors::AlreadyCompleted => ErrorsView::AlreadyCompleted,
        }
    }
}

/// The violations of all fields, as a client is told of them.
#[derive(Debug, PartialEq, Eq)]
pub struct UserErrors {
    pub errors: Vec<UserError>,
}

/// The violations of one field.
#[derive(Debug, PartialEq, Eq)]
pub struct UserError {
    pub field: String,
    pub errors: Vec<Violation>,
}

impl View for UserError {
    type V = FieldErrorsView;

    open spec fn view(&self) -> FieldErrorsView {
        FieldErrorsView { field: self.field@, errors: violation_views(self.errors@) }
    }
}

impl View for UserErrors {
    type V = Seq<FieldErrorsView>;

    open spec fn view(&self) -> Seq<FieldErrorsView> {
        self.errors@.map_values(|e: UserError| e@)
    }
}

impl From<ValidationErrors> for UserErrors {
    /// Turns what validation found into what the client is told: one entry
    /// per field, in the same order, each with a copy of the field's
    /// violations.
    fn from(val: ValidationErrors) -> (told: UserErrors)
        ensures
            told@ == val@,
    {
        let entries = val.field_errors();
        let mut errs: Vec<UserError> = Vec::new();
        let mut i: usize = 0;
        while i < entries.len()
            invariant
                i <= entries.len(),
                errs@.len() == i,
                forall|k: int| 0 <= k < i ==> (#[trigger] errs@[k])@ == entries@[k]@,
            decreases entries.len() - i,
        {
            let entry = &entries[i];
            let mut field_errors: Vec<Violation> = Vec::new();
            let mut j: usize = 0;
            while j < entry.errors.len()
                invariant
                    j <= entry.errors.len(),
                    field_errors@.len() == j,
                    forall|k: int| 0 <= k < j ==> (#[trigger] field_errors@[k])@ == entry.errors@[k]@,
                decreases entry.errors.len() - j,
            {
                let error = entry.errors[j].clone();
                field_errors.push(error);
                j += 1;
            }
            assert(violation_views(field_errors@) =~= violation_views(entry.errors@));
            errs.push(UserError { field: String::from_str(entry.field), errors: field_errors });
            i += 1;
        }
        UserErrors { errors: errs }
    }
}

impl FromSpecImpl<ValidationErrors> for UserErrors {
    /// The conversion is stated over views, by the `ensures` of `from`.
    open spec fn obeys_from_spec() -> bool {
        false
    }

    open spec fn from_spec(val: ValidationErrors) -> UserErrors {
        arbitrary()
    }
}

} // verus!
