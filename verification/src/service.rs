//! One request, step by step.
//!
//! Handling a request alternates between deciding and doing. The deciding is
//! here; the doing (reading the body, decoding and encoding JSON, talking to
//! the store, rendering the page) is the caller's. [`serve`] looks at the
//! request line and returns the first [`Action`]. The caller performs it and
//! passes what came of it to the function that belongs to that action, which
//! returns the next one, until the action is [`Action::Respond`] or
//! [`Action::Abort`].
//!
//! | performed action              | report the outcome to     |
//! |-------------------------------|---------------------------|
//! | [`Action::ReadBody`]          | [`body_read`]             |
//! | [`Action::Decode`]            | [`decoded`]               |
//! | [`Action::Insert`]            | [`inserted`]              |
//! | [`Action::SelectAll`]         | [`selected`]              |
//! | [`Action::Get`]               | [`got`]                   |
//! | [`Action::MarkComplete`]      | [`marked`]                |
//! | [`Action::EncodeTasks`]       | [`tasks_encoded`]         |
//! | [`Action::EncodeViolations`]  | [`violations_encoded`]    |
//! | [`Action::FindTemplate`]      | [`template_found`]        |
//! | [`Action::Render`]            | [`rendered`]              |
//!
//! Every failure, wherever it arises, passes through [`finish`], which maps
//! it to its one response.

use vstd::prelude::*;
use vstd::string::*;

use crate::content::{ascii, classify, lemma_plain_text_is_unknown, InputContentTypes};
use crate::errors::{Errors, ErrorsView, UserErrors};
use crate::response::{
    do200, do400, do404, do500, internal_error_text, not_found_text, page, plain, Response,
    ResponseView, StatusCode,
};
use crate::routing::{complete_task_pattern, first_group, route_of, Method, Route, Router};
use crate::tasks::{
    description_field, input_violations, person_field, row_views, within_bounds, TaskInput,
    TaskInputView, TaskRow, TaskRowView, DESCRIPTION_MAX_LENGTH, MIN_LENGTH, PERSON_MAX_LENGTH,
};
use crate::validation::{length_violations, names_field, FieldErrorsView, TryIntoValid, Valid};

verus! {

/// What a list of all tasks is fetched for.
#[derive(Clone, Copy, Debug, PartialEq, Eq, Structural)]
pub enum Listing {
    /// The JSON array of `GET /tasks`.
    Json,
    /// The HTML page of `GET /`.
    Page,
}

/// What the caller must do next.
#[derive(Debug)]
pub enum Action {
    /// Read the whole request body. `content_type` is what the request
    /// declared; hand it back with the body.
    ReadBody { content_type: InputContentTypes },
    /// Decode `body` as the JSON form of a [`TaskInput`].
    Decode { body: Vec<u8> },
    /// Insert the task into the store.
    Insert { task: Valid<TaskInput> },
    /// Fetch all tasks, newest first.
    SelectAll { listing: Listing },
    /// Fetch the task with this id.
    Get { id: i32 },
    /// Complete the task with this id, if it is not completed yet.
    MarkComplete { id: i32 },
    /// Encode the tasks as a JSON array.
    EncodeTasks { tasks: Vec<TaskRow> },
    /// Encode the violations as a JSON object.
    EncodeViolations { errors: UserErrors },
    /// Look up the template of the index page.
    FindTemplate,
    /// Render the index page for these tasks.
    Render { tasks: Vec<TaskRow> },
    /// Send the response. If `log` is there, write it to the server's log
    /// first.
    Respond { response: Response, log: Option<String> },
    /// The transport failed: give up on the connection, and hand the
    /// transport its own error back.
    Abort,
}

pub ghost enum ActionView {
    ReadBody { content_type: InputContentTypes },
    Decode { body: Seq<u8> },
    Insert { task: TaskInputView },
    SelectAll { listing: Listing },
    Get { id: i32 },
    MarkComplete { id: i32 },
    EncodeTasks { tasks: Seq<TaskRowView> },
    EncodeViolations { errors: Seq<FieldErrorsView> },
    FindTemplate,
    Render { tasks: Seq<TaskRowView> },
    Respond { response: ResponseView, log: Option<Seq<char>> },
    Abort,
}

impl View for Action {
    type V = ActionView;

    open spec fn view(&self) -> ActionView {
        match self {
            Action::ReadBody { content_type } => ActionView::ReadBody {
                content_type: *content_type,
            },
            Action::Decode { body } => ActionView::Decode { body: body@ },
            Action::Insert { task } => ActionView::Insert { task: task.inner()@ },
            Action::SelectAll { listing } => ActionView::SelectAll { listing: *listing },
            Action::Get { id } => ActionView::Get { id: *id },
            Action::MarkComplete { id } => ActionView::MarkComplete { id: *id },
            Action::EncodeTasks { tasks } => ActionView::EncodeTasks { tasks: row_views(tasks@) },
            Action::EncodeViolations { errors } => ActionView::EncodeViolations {
                errors: errors@,
            },
            Action::FindTemplate => ActionView::FindTemplate,
            Action::Render { tasks } => ActionView::Render { tasks: row_views(tasks@) },
            Action::Respond { response, log } => ActionView::Respond {
                response: response@,
                log: match log {
                    Some(line) => Some(line@),
                    None => None,
                },
            },
            Action::Abort => ActionView::Abort,
        }
    }
}

impl ActionView {
    /// The exchange is over: nothing follows this action.
    pub open spec fn is_final(self) -> bool {
        self is Respond || self is Abort
    }

    /// An upper bound on the number of actions that follow this one.
    pub open spec fn steps_left(self) -> nat {
        match self {
            ActionView::ReadBody { .. } => 4,
            ActionView::Decode { .. } => 3,
            ActionView::FindTemplate => 3,
            ActionView::Get { .. } => 3,
            ActionView::Insert { .. } => 2,
            ActionView::SelectAll { .. } => 2,
            ActionView::MarkComplete { .. } => 2,
            ActionView::EncodeTasks { .. } => 1,
            ActionView::EncodeViolations { .. } => 1,
            ActionView::Render { .. } => 1,
            ActionView::Respond { .. } => 0,
            ActionView::Abort => 0,
        }
    }

    /// The action reads or changes the store.
    pub open spec fn touches_store(self) -> bool {
        self is Insert || self is SelectAll || self is Get || self is MarkComplete
    }
}

/// Body of the 400 response to a body that cannot be decoded.
pub open spec fn malformed_body_text() -> Seq<char> {
    "Malformed request body"@
}

/// Body of the 400 response to a missing or undecodable media type.
pub open spec fn unknown_content_type_text() -> Seq<char> {
    "Unknown content type"@
}

/// Body of the 400 response to an id that is no integer.
pub open spec fn invalid_id_text() -> Seq<char> {
    "Invalid id"@
}

/// Body of the 400 response to a second completion.
pub open spec fn already_complete_text() -> Seq<char> {
    "Task is already complete"@
}

/// A response that is sent without a line in the log.
pub open spec fn quiet(response: ResponseView) -> ActionView {
    ActionView::Respond { response, log: None }
}

/// The 500 response. The detail goes to the log, after the name of what
/// failed; the body is the same for every internal failure.
pub open spec fn internal(what: Seq<char>, detail: Seq<char>) -> ActionView {
    ActionView::Respond {
        response: plain(StatusCode::InternalServerError, internal_error_text()),
        log: Some(what + detail),
    }
}

/// The one outcome of each failure.
pub open spec fn outcome_of(error: ErrorsView) -> ActionView {
    match error {
        ErrorsView::Json(_) => quiet(plain(StatusCode::BadRequest, malformed_body_text())),
        ErrorsView::UnsupportedContentType(_) => quiet(
            plain(StatusCode::BadRequest, unknown_content_type_text()),
        ),
        ErrorsView::Validation(errors) => ActionView::EncodeViolations { errors },
        ErrorsView::PathParam => quiet(plain(StatusCode::BadRequest, invalid_id_text())),
        ErrorsView::NotFound => quiet(plain(StatusCode::NotFound, not_found_text())),
        ErrorsView::AlreadyCompleted => quiet(
            plain(StatusCode::BadRequest, already_complete_text()),
        ),
        ErrorsView::Pool(detail) => internal("Pool error: "@, detail),
        ErrorsView::Database(detail) => internal("Database error: "@, detail),
        ErrorsView::Template(detail) => internal("Template error: "@, detail),
        ErrorsView::Encoding(detail) => internal("JSON error: "@, detail),
        ErrorsView::Hyper(_) => ActionView::Abort,
    }
}

/// How a handler's result ends the exchange.
pub open spec fn finished(result: Result<ResponseView, ErrorsView>) -> ActionView {
    match result {
        Ok(response) => quiet(response),
        Err(error) => outcome_of(error),
    }
}

/// The first action on each route.
pub open spec fn first_action(route: Route, content_type: InputContentTypes) -> ActionView {
    match route {
        Route::Index => ActionView::FindTemplate,
        Route::CreateTask => ActionView::ReadBody { content_type },
        Route::ListTasks => ActionView::SelectAll { listing: Listing::Json },
        Route::CompleteTask(id) => ActionView::Get { id },
        Route::InvalidId => outcome_of(ErrorsView::PathParam),
        Route::NotFound => outcome_of(ErrorsView::NotFound),
    }
}

/// What follows [`Action::ReadBody`].
pub open spec fn after_body(
    content_type: InputContentTypes,
    body: Result<Seq<u8>, Seq<char>>,
) -> ActionView {
    match body {
        Err(detail) => outcome_of(ErrorsView::Hyper(detail)),
        Ok(bytes) => if content_type == InputContentTypes::Json {
            ActionView::Decode { body: bytes }
        } else {
            outcome_of(ErrorsView::UnsupportedContentType(content_type))
        },
    }
}

/// What follows [`Action::Decode`].
pub open spec fn after_decode(input: Result<TaskInputView, Seq<char>>) -> ActionView {
    match input {
        Err(detail) => outcome_of(ErrorsView::Json(detail)),
        Ok(task) => if within_bounds(task) {
            ActionView::Insert { task }
        } else {
            outcome_of(ErrorsView::Validation(input_violations(task)))
        },
    }
}

/// What follows [`Action::Insert`].
pub open spec fn after_insert(result: Result<(), ErrorsView>) -> ActionView {
    match result {
        Ok(()) => quiet(plain(StatusCode::Success, Seq::empty())),
        Err(error) => outcome_of(error),
    }
}

/// What follows [`Action::SelectAll`].
pub open spec fn after_select(
    listing: Listing,
    rows: Result<Seq<TaskRowView>, ErrorsView>,
) -> ActionView {
    match rows {
        Ok(tasks) => match listing {
            Listing::Json => ActionView::EncodeTasks { tasks },
            Listing::Page => ActionView::Render { tasks },
        },
        Err(error) => outcome_of(error),
    }
}

/// What follows [`Action::Get`].
pub open spec fn after_get(id: i32, row: Result<Option<TaskRowView>, ErrorsView>) -> ActionView {
    match row {
        Ok(Some(_)) => ActionView::MarkComplete { id },
        Ok(None) => outcome_of(ErrorsView::NotFound),
        Err(error) => outcome_of(error),
    }
}

/// What follows [`Action::MarkComplete`].
pub open spec fn after_mark(result: Result<bool, ErrorsView>) -> ActionView {
    match result {
        Ok(true) => quiet(plain(StatusCode::Success, Seq::empty())),
        Ok(false) => outcome_of(ErrorsView::AlreadyCompleted),
        Err(error) => outcome_of(error),
    }
}

/// What follows [`Action::EncodeTasks`].
pub open spec fn after_tasks_encoding(json: Result<Seq<char>, Seq<char>>) -> ActionView {
    match json {
        Ok(text) => quiet(plain(StatusCode::Success, text)),
        Err(detail) => outcome_of(ErrorsView::Encoding(detail)),
    }
}

/// What follows [`Action::EncodeViolations`].
pub open spec fn after_violations_encoding(json: Result<Seq<char>, Seq<char>>) -> ActionView {
    match json {
        Ok(text) => quiet(plain(StatusCode::BadRequest, text)),
        Err(detail) => outcome_of(ErrorsView::Encoding(detail)),
    }
}

/// What follows [`Action::FindTemplate`].
pub open spec fn after_template(found: Result<(), Seq<char>>) -> ActionView {
    match found {
        Ok(()) => ActionView::SelectAll { listing: Listing::Page },
        Err(detail) => outcome_of(ErrorsView::Template(detail)),
    }
}

/// What follows [`Action::Render`].
pub open spec fn after_render(html: Result<Seq<char>, Seq<char>>) -> ActionView {
    match html {
        Ok(text) => quiet(ResponseView { status: StatusCode::Success, html: true, body: text }),
        Err(detail) => outcome_of(ErrorsView::Template(detail)),
    }
}

/// Every failure has one outcome, and that outcome needs nothing more from
/// the store. Only internal failures answer with a 5xx status; they, and
/// only they, leave a line in the log, which carries the detail; the body of
/// their response is the same whatever the detail.
pub proof fn lemma_failures_end_the_exchange(error: ErrorsView)
    ensures
        !outcome_of(error).touches_store(),
        outcome_of(error) is Respond || outcome_of(error) is Abort || outcome_of(
            error,
        ) is EncodeViolations,
        (outcome_of(error) matches ActionView::Respond { response, log } ==> {
            &&& response.status.is_server_error() <==> log is Some
            &&& response.status.is_server_error() ==> response.body == internal_error_text()
            &&& response.status.is_server_error() <==> (error is Pool || error is Database
                || error is Template || error is Encoding)
        }),
        outcome_of(error) is Abort <==> error is Hyper,
        outcome_of(error) is EncodeViolations <==> error is Validation,
{
}

/// Every exchange ends: whatever comes of an action, the action that
/// follows it is nearer to the end. No exchange takes more than five
/// actions.
pub proof fn lemma_every_step_brings_the_end_nearer(
    performed: ActionView,
    body: Result<Seq<u8>, Seq<char>>,
    input: Result<TaskInputView, Seq<char>>,
    done: Result<(), ErrorsView>,
    rows: Result<Seq<TaskRowView>, ErrorsView>,
    row: Result<Option<TaskRowView>, ErrorsView>,
    changed: Result<bool, ErrorsView>,
    text: Result<Seq<char>, Seq<char>>,
    found: Result<(), Seq<char>>,
)
    ensures
        performed.steps_left() <= 4,
        performed.is_final() <==> performed.steps_left() == 0,
        performed.is_final() || (match performed {
            ActionView::ReadBody { content_type } => after_body(content_type, body),
            ActionView::Decode { .. } => after_decode(input),
            ActionView::Insert { .. } => after_insert(done),
            ActionView::SelectAll { listing } => after_select(listing, rows),
            ActionView::Get { id } => after_get(id, row),
            ActionView::MarkComplete { .. } => after_mark(changed),
            ActionView::EncodeTasks { .. } => after_tasks_encoding(text),
            ActionView::EncodeViolations { .. } => after_violations_encoding(text),
            ActionView::FindTemplate => after_template(found),
            ActionView::Render { .. } => after_render(text),
            ActionView::Respond { .. } => performed,
            ActionView::Abort => performed,
        }).steps_left() < performed.steps_left(),
{
}

/// An input with a field out of bounds is rejected: what follows its
/// decoding is the encoding of its violations, which name exactly the
/// fields that are out of bounds, and what follows that is a response with
/// a 4xx or 5xx status. The store is never asked.
pub proof fn lemma_invalid_input_is_rejected(input: TaskInputView)
    requires
        !within_bounds(input),
    ensures
        after_decode(Ok(input)) == (ActionView::EncodeViolations {
            errors: input_violations(input),
        }),
        input_violations(input).len() > 0,
        names_field(input_violations(input), person_field()) <==> !(MIN_LENGTH
            <= input.person.len() <= PERSON_MAX_LENGTH),
        names_field(input_violations(input), description_field()) <==> !(MIN_LENGTH
            <= input.description.len() <= DESCRIPTION_MAX_LENGTH),
        forall|json: Result<Seq<char>, Seq<char>>|
            (#[trigger] after_violations_encoding(json)).is_final() && !(after_violations_encoding(
                json,
            ) is Abort),
        forall|text: Seq<char>| #[trigger]
            after_violations_encoding(Ok(text)) == quiet(plain(StatusCode::BadRequest, text)),
{
    reveal_strlit("person");
    reveal_strlit("description");
    let on_person = length_violations(
        person_field(),
        input.person,
        MIN_LENGTH,
        PERSON_MAX_LENGTH,
    );
    let on_description = length_violations(
        description_field(),
        input.description,
        MIN_LENGTH,
        DESCRIPTION_MAX_LENGTH,
    );
    let all = input_violations(input);
    if on_person.len() > 0 {
        assert(all[0].field == person_field());
    }
    if on_description.len() > 0 {
        assert(all[all.len() - 1].field == description_field());
    }
}

/// A request to create a task that declares anything but JSON is rejected
/// with a 400 once its body is read, whatever the body holds. The store is
/// never asked.
pub proof fn lemma_undecodable_type_is_rejected(content_type: InputContentTypes, body: Seq<u8>)
    requires
        content_type != InputContentTypes::Json,
    ensures
        first_action(Route::CreateTask, content_type) == (ActionView::ReadBody { content_type }),
        after_body(content_type, Ok(body)) == quiet(
            plain(StatusCode::BadRequest, unknown_content_type_text()),
        ),
{
}

/// A request to create a task that declares plain text is rejected with a
/// 400 once its body is read, whatever the body holds. The store is never
/// asked.
pub proof fn lemma_plain_text_task_is_rejected(body: Seq<u8>)
    ensures
        first_action(Route::CreateTask, classify(Some(ascii("text/plain"@))))
            == (ActionView::ReadBody { content_type: InputContentTypes::Unknown }),
        after_body(InputContentTypes::Unknown, Ok(body)) == quiet(
            plain(StatusCode::BadRequest, unknown_content_type_text()),
        ),
{
    lemma_plain_text_is_unknown();
}

/// The 500 response for an internal failure, with its line for the log.
fn internal_failure(what: &str, detail: String) -> (next: Action)
    ensures
        next@ == internal(what@, detail@),
{
    let line = String::from_str(what).concat(detail.as_str());
    Action::Respond { response: do500(), log: Some(line) }
}

/// Ends the exchange with a handler's result: a response is sent as it is,
/// a failure is mapped to its one outcome.
pub fn finish(result: Result<Response, Errors>) -> (next: Action)
    ensures
        next@ == finished(
            match result {
                Ok(response) => Ok(response@),
                Err(error) => Err(error@),
            },
        ),
{
    match result {
        Ok(response) => Action::Respond { response, log: None },
        Err(Errors::Json(_)) => Action::Respond {
            response: do400(String::from_str("Malformed request body")),
            log: None,
        },
        Err(Errors::UnsupportedContentType(_)) => Action::Respond {
            response: do400(String::from_str("Unknown content type")),
            log: None,
        },
        Err(Errors::Validation(errors)) => Action::EncodeViolations {
            errors: UserErrors::from(errors),
        },
        Err(Errors::PathParam) => Action::Respond {
            response: do400(String::from_str("Invalid id")),
            log: None,
        },
        Err(Errors::NotFound) => Action::Respond { response: do404(), log: None },
        Err(Errors::AlreadyCompleted) => Action::Respond {
            response: do400(String::from_str("Task is already complete")),
            log: None,
        },
        Err(Errors::Pool(detail)) => internal_failure("Pool error: ", detail),
        Err(Errors::Database(detail)) => internal_failure("Database error: ", detail),
        Err(Errors::Template(detail)) => internal_failure("Template error: ", detail),
        Err(Errors::Encoding(detail)) => internal_failure("JSON error: ", detail),
        Err(Errors::Hyper(_)) => Action::Abort,
    }
}

/// `GET /`: the page is rendered from a template, which is looked up first.
pub fn index() -> (next: Action)
    ensures
        next@ == ActionView::FindTemplate,
{
    Action::FindTemplate
}

/// `POST /tasks`: the body is read whatever type it declares.
pub fn post_task(content_type: Option<&[u8]>) -> (next: Action)
    ensures
        next@ == (ActionView::ReadBody {
            content_type: classify(
                match content_type {
                    Some(value) => Some(value@),
                    None => None,
                },
            ),
        }),
{
    Action::ReadBody { content_type: InputContentTypes::from(content_type) }
}

/// `GET /tasks`.
pub fn get_tasks() -> (next: Action)
    ensures
        next@ == (ActionView::SelectAll { listing: Listing::Json }),
{
    Action::SelectAll { listing: Listing::Json }
}

/// `POST /tasks/{id}/complete`: the task is looked up before it is completed,
/// so that a missing task can be told from a completed one.
pub fn complete_task(id: i32) -> (next: Action)
    ensures
        next@ == (ActionView::Get { id }),
{
    Action::Get { id }
}

/// Starts the handler of a route. `content_type` is the value of the
/// request's content-type header, if it has one.
pub fn dispatch(route: Route, content_type: Option<&[u8]>) -> (next: Action)
    ensures
        next@ == first_action(
            route,
            classify(
                match content_type {
                    Some(value) => Some(value@),
                    None => None,
                },
            ),
        ),
{
    match route {
        Route::Index => index(),
        Route::CreateTask => post_task(content_type),
        Route::ListTasks => get_tasks(),
        Route::CompleteTask(id) => complete_task(id),
        Route::InvalidId => finish(Err(Errors::PathParam)),
        Route::NotFound => finish(Err(Errors::NotFound)),
    }
}

/// Takes a request and returns the first action.
pub fn serve(router: &Router, method: Method, path: &str, content_type: Option<&[u8]>) -> (next:
    Action)
    ensures
        next@ == first_action(
            route_of(method, path@, first_group(complete_task_pattern(), path@)),
            classify(
                match content_type {
                    Some(value) => Some(value@),
                    None => None,
                },
            ),
        ),
{
    dispatch(router.route(method, path), content_type)
}

/// The body was read, or the transport failed (`Err` with the detail).
pub fn body_read(content_type: InputContentTypes, body: Result<Vec<u8>, String>) -> (next: Action)
    ensures
        next@ == after_body(
            content_type,
            match body {
                Ok(bytes) => Ok(bytes@),
                Err(detail) => Err(detail@),
            },
        ),
{
    match body {
        Err(detail) => finish(Err(Errors::Hyper(detail))),
        Ok(bytes) => match content_type {
            InputContentTypes::Json => Action::Decode { body: bytes },
            InputContentTypes::Form => finish(
                Err(Errors::UnsupportedContentType(InputContentTypes::Form)),
            ),
            InputContentTypes::Unknown => finish(
                Err(Errors::UnsupportedContentType(InputContentTypes::Unknown)),
            ),
        },
    }
}

/// The body was decoded, or it is no JSON form of a task (`Err` with the
/// detail). A decoded input is validated here; only a valid one goes on to
/// the store.
pub fn decoded(input: Result<TaskInput, String>) -> (next: Action)
    ensures
        next@ == after_decode(
            match input {
                Ok(task) => Ok(task@),
                Err(detail) => Err(detail@),
            },
        ),
{
    match input {
        Err(detail) => finish(Err(Errors::Json(detail))),
        Ok(task) => match task.try_into_valid() {
            Ok(valid) => Action::Insert { task: valid },
            Err(error) => finish(Err(error)),
        },
    }
}

/// The store inserted the task, or failed.
pub fn inserted(result: Result<(), Errors>) -> (next: Action)
    ensures
        next@ == after_insert(
            match result {
                Ok(()) => Ok(()),
                Err(error) => Err(error@),
            },
        ),
{
    match result {
        Ok(()) => finish(Ok(do200(String::new()))),
        Err(error) => finish(Err(error)),
    }
}

/// The store returned all tasks, or failed.
pub fn selected(listing: Listing, rows: Result<Vec<TaskRow>, Errors>) -> (next: Action)
    ensures
        next@ == after_select(
            listing,
            match rows {
                Ok(tasks) => Ok(row_views(tasks@)),
                Err(error) => Err(error@),
            },
        ),
{
    match rows {
        Ok(tasks) => match listing {
            Listing::Json => Action::EncodeTasks { tasks },
            Listing::Page => Action::Render { tasks },
        },
        Err(error) => finish(Err(error)),
    }
}

/// The store looked the task up, or failed.
pub fn got(id: i32, row: Result<Option<TaskRow>, Errors>) -> (next: Action)
    ensures
        next@ == after_get(
            id,
            match row {
                Ok(Some(task)) => Ok(Some(task@)),
                Ok(None) => Ok(None),
                Err(error) => Err(error@),
            },
        ),
{
    match row {
        Ok(Some(_)) => Action::MarkComplete { id },
        Ok(None) => finish(Err(Errors::NotFound)),
        Err(error) => finish(Err(error)),
    }
}

/// The store ran the completion and said whether the task made the
/// transition, or failed.
pub fn marked(result: Result<bool, Errors>) -> (next: Action)
    ensures
        next@ == after_mark(
            match result {
                Ok(done) => Ok(done),
                Err(error) => Err(error@),
            },
        ),
{
    match result {
        Ok(true) => finish(Ok(do200(String::new()))),
        Ok(false) => finish(Err(Errors::AlreadyCompleted)),
        Err(error) => finish(Err(error)),
    }
}

/// The tasks were encoded, or could not be (`Err` with the detail).
pub fn tasks_encoded(json: Result<String, String>) -> (next: Action)
    ensures
        next@ == after_tasks_encoding(
            match json {
                Ok(text) => Ok(text@),
                Err(detail) => Err(detail@),
            },
        ),
{
    match json {
        Ok(text) => finish(Ok(do200(text))),
        Err(detail) => finish(Err(Errors::Encoding(detail))),
    }
}

/// The violations were encoded, or could not be (`Err` with the detail).
pub fn violations_encoded(json: Result<String, String>) -> (next: Action)
    ensures
        next@ == after_violations_encoding(
            match json {
                Ok(text) => Ok(text@),
                Err(detail) => Err(detail@),
            },
        ),
{
    match json {
        Ok(text) => finish(Ok(do400(text))),
        Err(detail) => finish(Err(Errors::Encoding(detail))),
    }
}

/// The template was found, or is missing (`Err` with the detail).
pub fn template_found(found: Result<(), String>) -> (next: Action)
    ensures
        next@ == after_template(
            match found {
                Ok(()) => Ok(()),
                Err(detail) => Err(detail@),
            },
        ),
{
    match found {
        Ok(()) => Action::SelectAll { listing: Listing::Page },
        Err(detail) => finish(Err(Errors::Template(detail))),
    }
}

/// The page was rendered, or could not be (`Err` with the detail).
pub fn rendered(html: Result<String, String>) -> (next: Action)
    ensures
        next@ == after_render(
            match html {
                Ok(text) => Ok(text@),
                Err(detail) => Err(detail@),
            },
        ),
{
    match html {
        Ok(text) => finish(Ok(page(text))),
        Err(detail) => finish(Err(Errors::Template(detail))),
    }
}

} // verus!
