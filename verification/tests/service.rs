use task_tracker::content::InputContentTypes;
use task_tracker::errors::Errors;
use task_tracker::response::{do200, Response, StatusCode};
use task_tracker::routing::{Method, Route, Router};
use task_tracker::service::{
    body_read, complete_task, decoded, dispatch, finish, get_tasks, got, index, inserted, marked,
    post_task, rendered, selected, serve, tasks_encoded, template_found, violations_encoded,
    Action, Listing,
};
use task_tracker::tasks::{TaskInput, TaskRow};
use task_tracker::validation::{Constraint, ValidationErrors, Violation};

fn input(person: &str, description: &str) -> TaskInput {
    TaskInput { person: person.to_string(), description: description.to_string() }
}

fn row(id: i32) -> TaskRow {
    TaskRow {
        id,
        person: "Ann".to_string(),
        description: "Buy milk".to_string(),
        created_at: 1_700_000_000_000_000,
        completed_at: None,
    }
}

/// Status, html flag, body and log line of a final response.
fn sent(action: Action) -> (u16, bool, String, Option<String>) {
    match action {
        Action::Respond { response, log } => {
            let Response { status, html, body } = response;
            (status.as_u16(), html, body, log)
        }
        other => panic!("expected a response, got {:?}", other),
    }
}

fn quiet(status: u16, body: &str) -> (u16, bool, String, Option<String>) {
    (status, false, body.to_string(), None)
}

fn internal(log: &str) -> (u16, bool, String, Option<String>) {
    (500, false, "Internal server error".to_string(), Some(log.to_string()))
}

#[test]
fn a_response_is_sent_as_it_is() {
    assert_eq!(sent(finish(Ok(do200("x".to_string())))), quiet(200, "x"));
}

#[test]
fn client_errors_have_their_message_and_no_log() {
    assert_eq!(
        sent(finish(Err(Errors::Json("expected value at line 1".to_string())))),
        quiet(400, "Malformed request body")
    );
    assert_eq!(
        sent(finish(Err(Errors::UnsupportedContentType(InputContentTypes::Form)))),
        quiet(400, "Unknown content type")
    );
    assert_eq!(
        sent(finish(Err(Errors::UnsupportedContentType(InputContentTypes::Unknown)))),
        quiet(400, "Unknown content type")
    );
    assert_eq!(sent(finish(Err(Errors::PathParam))), quiet(400, "Invalid id"));
    assert_eq!(sent(finish(Err(Errors::NotFound))), quiet(404, "Not found"));
    assert_eq!(
        sent(finish(Err(Errors::AlreadyCompleted))),
        quiet(400, "Task is already complete")
    );
}

#[test]
fn internal_errors_are_logged_and_say_nothing_to_the_client() {
    assert_eq!(
        sent(finish(Err(Errors::Pool("timed out".to_string())))),
        internal("Pool error: timed out")
    );
    assert_eq!(
        sent(finish(Err(Errors::Database("relation \"tasks\" does not exist".to_string())))),
        internal("Database error: relation \"tasks\" does not exist")
    );
    assert_eq!(
        sent(finish(Err(Errors::Template("template not found".to_string())))),
        internal("Template error: template not found")
    );
    assert_eq!(
        sent(finish(Err(Errors::Encoding("key must be a string".to_string())))),
        internal("JSON error: key must be a string")
    );
    assert_eq!(sent(finish(Err(Errors::Database(String::new())))), internal("Database error: "));
}

#[test]
fn a_transport_failure_aborts() {
    assert!(matches!(finish(Err(Errors::Hyper("connection reset".to_string()))), Action::Abort));
}

#[test]
fn a_validation_failure_is_encoded_for_the_client() {
    let mut errors = ValidationErrors::new();
    let violation =
        Violation { constraint: Constraint::Length { min: 1, max: 100 }, value: String::new() };
    errors.add("person", violation.clone());
    match finish(Err(Errors::Validation(errors))) {
        Action::EncodeViolations { errors } => {
            assert_eq!(errors.errors.len(), 1);
            assert_eq!(errors.errors[0].field, "person");
            assert_eq!(errors.errors[0].errors, vec![violation]);
        }
        other => panic!("expected the violations to be encoded, got {:?}", other),
    }
}

#[test]
fn each_route_starts_its_handler() {
    assert!(matches!(dispatch(Route::Index, None), Action::FindTemplate));
    assert!(matches!(
        dispatch(Route::CreateTask, Some(b"application/json")),
        Action::ReadBody { content_type: InputContentTypes::Json }
    ));
    assert!(matches!(
        dispatch(Route::CreateTask, None),
        Action::ReadBody { content_type: InputContentTypes::Unknown }
    ));
    assert!(matches!(
        dispatch(Route::ListTasks, None),
        Action::SelectAll { listing: Listing::Json }
    ));
    assert!(matches!(dispatch(Route::CompleteTask(12), None), Action::Get { id: 12 }));
    assert_eq!(sent(dispatch(Route::InvalidId, None)), quiet(400, "Invalid id"));
    assert_eq!(sent(dispatch(Route::NotFound, None)), quiet(404, "Not found"));
}

#[test]
fn the_handlers_first_actions() {
    assert!(matches!(index(), Action::FindTemplate));
    assert!(matches!(get_tasks(), Action::SelectAll { listing: Listing::Json }));
    assert!(matches!(complete_task(-3), Action::Get { id: -3 }));
    assert!(matches!(
        post_task(Some(b"application/x-www-form-urlencoded")),
        Action::ReadBody { content_type: InputContentTypes::Form }
    ));
}

#[test]
fn serve_routes_and_starts() {
    let router = Router::new().expect("the completion pattern compiles");
    assert!(matches!(serve(&router, Method::Get, "/", None), Action::FindTemplate));
    assert!(matches!(
        serve(&router, Method::Post, "/tasks", Some(b"application/json; charset=utf-8")),
        Action::ReadBody { content_type: InputContentTypes::Json }
    ));
    assert!(matches!(
        serve(&router, Method::Get, "/tasks", None),
        Action::SelectAll { listing: Listing::Json }
    ));
    assert!(matches!(
        serve(&router, Method::Post, "/tasks/31/complete", None),
        Action::Get { id: 31 }
    ));
    assert_eq!(
        sent(serve(&router, Method::Post, "/tasks/4294967296/complete", None)),
        quiet(400, "Invalid id")
    );
    assert_eq!(sent(serve(&router, Method::Get, "/nowhere", None)), quiet(404, "Not found"));
    assert_eq!(sent(serve(&router, Method::Other, "/tasks", None)), quiet(404, "Not found"));
    assert_eq!(
        sent(serve(&router, Method::Get, "/tasks/31/complete", None)),
        quiet(404, "Not found")
    );
}

#[test]
fn a_json_body_goes_on_to_the_decoder() {
    let body = b"{\"person\":\"Ann\"}".to_vec();
    match body_read(InputContentTypes::Json, Ok(body.clone())) {
        Action::Decode { body: handed_on } => assert_eq!(handed_on, body),
        other => panic!("expected the body to be decoded, got {:?}", other),
    }
}

#[test]
fn plain_text_is_rejected_whatever_the_body() {
    let router = Router::new().expect("the completion pattern compiles");
    let bodies: Vec<&[u8]> =
        vec![b"", b"{\"person\":\"Ann\",\"description\":\"Buy milk\"}", b"\xff\xfe", b"person=Ann"];
    for body in bodies {
        let first = serve(&router, Method::Post, "/tasks", Some(b"text/plain"));
        let content_type = match first {
            Action::ReadBody { content_type } => content_type,
            other => panic!("expected the body to be read, got {:?}", other),
        };
        assert_eq!(content_type, InputContentTypes::Unknown);
        assert_eq!(
            sent(body_read(content_type, Ok(body.to_vec()))),
            quiet(400, "Unknown content type")
        );
    }
}

#[test]
fn a_form_or_a_missing_type_is_rejected_alike() {
    assert_eq!(
        sent(body_read(InputContentTypes::Form, Ok(b"person=Ann".to_vec()))),
        quiet(400, "Unknown content type")
    );
    assert_eq!(
        sent(body_read(InputContentTypes::Unknown, Ok(Vec::new()))),
        quiet(400, "Unknown content type")
    );
}

#[test]
fn a_failed_read_aborts_whatever_the_type() {
    for content_type in
        [InputContentTypes::Json, InputContentTypes::Form, InputContentTypes::Unknown]
    {
        assert!(matches!(
            body_read(content_type, Err("unexpected end of file".to_string())),
            Action::Abort
        ));
    }
}

#[test]
fn an_undecodable_body_is_a_client_error() {
    assert_eq!(
        sent(decoded(Err("EOF while parsing a value".to_string()))),
        quiet(400, "Malformed request body")
    );
}

#[test]
fn a_valid_input_goes_on_to_the_store() {
    match decoded(Ok(input("Ann", "Buy milk"))) {
        Action::Insert { task } => assert_eq!(task.get(), &input("Ann", "Buy milk")),
        other => panic!("expected an insert, got {:?}", other),
    }
}

#[test]
fn an_invalid_input_never_reaches_the_store() {
    let cases = vec![
        (input("", "Buy milk"), vec!["person"]),
        (input(&"p".repeat(101), "Buy milk"), vec!["person"]),
        (input("Ann", ""), vec!["description"]),
        (input("Ann", &"d".repeat(1001)), vec!["description"]),
        (input("", ""), vec!["person", "description"]),
    ];
    for (task, fields) in cases {
        match decoded(Ok(task)) {
            Action::EncodeViolations { errors } => {
                let named: Vec<&str> = errors.errors.iter().map(|e| e.field.as_str()).collect();
                assert_eq!(named, fields);
            }
            other => panic!("expected the violations to be encoded, got {:?}", other),
        }
    }
    assert_eq!(
        sent(violations_encoded(Ok("{\"errors\":[]}".to_string()))),
        quiet(400, "{\"errors\":[]}")
    );
    assert_eq!(
        sent(violations_encoded(Err("recursion limit".to_string()))),
        internal("JSON error: recursion limit")
    );
}

#[test]
fn an_insert_that_worked_is_answered_with_an_empty_200() {
    assert_eq!(sent(inserted(Ok(()))), quiet(200, ""));
}

#[test]
fn an_insert_that_failed_is_an_internal_error() {
    assert_eq!(
        sent(inserted(Err(Errors::Pool("closed".to_string())))),
        internal("Pool error: closed")
    );
    assert_eq!(
        sent(inserted(Err(Errors::Database("disk full".to_string())))),
        internal("Database error: disk full")
    );
}

#[test]
fn listed_tasks_are_encoded_or_rendered() {
    match selected(Listing::Json, Ok(vec![row(2), row(1)])) {
        Action::EncodeTasks { tasks } => assert_eq!(tasks, vec![row(2), row(1)]),
        other => panic!("expected the tasks to be encoded, got {:?}", other),
    }
    match selected(Listing::Page, Ok(vec![row(2), row(1)])) {
        Action::Render { tasks } => assert_eq!(tasks, vec![row(2), row(1)]),
        other => panic!("expected the page to be rendered, got {:?}", other),
    }
    assert_eq!(
        sent(selected(Listing::Json, Err(Errors::Database("gone".to_string())))),
        internal("Database error: gone")
    );
    assert_eq!(
        sent(selected(Listing::Page, Err(Errors::Pool("gone".to_string())))),
        internal("Pool error: gone")
    );
}

#[test]
fn encoded_tasks_are_the_body_of_a_200() {
    assert_eq!(sent(tasks_encoded(Ok("[]".to_string()))), quiet(200, "[]"));
    assert_eq!(
        sent(tasks_encoded(Err("out of memory".to_string()))),
        internal("JSON error: out of memory")
    );
}

#[test]
fn a_task_that_exists_goes_on_to_its_completion() {
    assert!(matches!(got(8, Ok(Some(row(8)))), Action::MarkComplete { id: 8 }));
    let mut done = row(8);
    done.completed_at = Some(1_700_000_000_000_001);
    assert!(matches!(got(8, Ok(Some(done))), Action::MarkComplete { id: 8 }));
}

#[test]
fn a_task_that_does_not_exist_is_not_found() {
    assert_eq!(sent(got(8, Ok(None))), quiet(404, "Not found"));
}

#[test]
fn a_failed_lookup_is_an_internal_error() {
    assert_eq!(
        sent(got(8, Err(Errors::Database("timeout".to_string())))),
        internal("Database error: timeout")
    );
}

#[test]
fn a_completion_is_reported_as_it_went() {
    assert_eq!(sent(marked(Ok(true))), quiet(200, ""));
    assert_eq!(sent(marked(Ok(false))), quiet(400, "Task is already complete"));
    assert_eq!(
        sent(marked(Err(Errors::Pool("exhausted".to_string())))),
        internal("Pool error: exhausted")
    );
}

#[test]
fn the_index_page_is_rendered_from_all_tasks() {
    assert!(matches!(template_found(Ok(())), Action::SelectAll { listing: Listing::Page }));
    assert_eq!(
        sent(template_found(Err("template not found".to_string()))),
        internal("Template error: template not found")
    );
    assert_eq!(
        sent(rendered(Ok("<ul></ul>".to_string()))),
        (200, true, "<ul></ul>".to_string(), None)
    );
    assert_eq!(
        sent(rendered(Err("undefined value".to_string()))),
        internal("Template error: undefined value")
    );
}

#[test]
fn only_5xx_responses_are_logged() {
    let failures = vec![
        Errors::Database("d".to_string()),
        Errors::Json("d".to_string()),
        Errors::Pool("d".to_string()),
        Errors::Template("d".to_string()),
        Errors::Encoding("d".to_string()),
        Errors::UnsupportedContentType(InputContentTypes::Form),
        Errors::UnsupportedContentType(InputContentTypes::Unknown),
        Errors::PathParam,
        Errors::NotFound,
        Errors::AlreadyCompleted,
    ];
    for failure in failures {
        let (status, _, body, log) = sent(finish(Err(failure)));
        assert_eq!(status >= 500, log.is_some());
        if status >= 500 {
            assert_eq!(status, StatusCode::InternalServerError.as_u16());
            assert_eq!(body, "Internal server error");
            assert!(!body.contains('d'));
        }
    }
}
