use serde_json::Value;
use task_tracker::routing::{Method, Router};
use task_tracker::service::{
    body_read, decoded, got, inserted, marked, rendered, selected, serve, tasks_encoded,
    template_found, violations_encoded, Action,
};
use task_tracker::store::TaskTable;
use task_tracker::tasks::{TaskInput, TaskRow};

/// One service: a router, a store, and a clock that ticks once per request.
struct Service {
    router: Router,
    table: TaskTable,
    now: i64,
    store_calls: usize,
}

fn text_field(object: &serde_json::Map<String, Value>, name: &str) -> Result<String, String> {
    match object.get(name) {
        None => Ok(String::new()),
        Some(Value::String(text)) => Ok(text.clone()),
        Some(other) => Err(format!("invalid type for {}: {}", name, other)),
    }
}

fn decode(body: &[u8]) -> Result<TaskInput, String> {
    let value: Value = serde_json::from_slice(body).map_err(|e| e.to_string())?;
    match value {
        Value::Object(object) => Ok(TaskInput {
            person: text_field(&object, "person")?,
            description: text_field(&object, "description")?,
        }),
        other => Err(format!("expected an object, got {}", other)),
    }
}

fn encode(tasks: &[TaskRow]) -> String {
    let mut array = Vec::new();
    for task in tasks {
        let mut object = serde_json::Map::new();
        object.insert("id".to_string(), Value::from(task.id));
        object.insert("person".to_string(), Value::from(task.person.clone()));
        object.insert("description".to_string(), Value::from(task.description.clone()));
        object.insert("created_at".to_string(), Value::from(task.created_at));
        object.insert(
            "completed_at".to_string(),
            match task.completed_at {
                Some(at) => Value::from(at),
                None => Value::Null,
            },
        );
        array.push(Value::Object(object));
    }
    Value::Array(array).to_string()
}

impl Service {
    fn new() -> Service {
        Service {
            router: Router::new().expect("the completion pattern compiles"),
            table: TaskTable::new(),
            now: 1_000,
            store_calls: 0,
        }
    }

    /// Handles one request and returns the status and body of the response.
    fn request(
        &mut self,
        method: Method,
        path: &str,
        content_type: Option<&str>,
        body: &[u8],
    ) -> (u16, String) {
        self.now += 1;
        let header = content_type.map(|value| value.as_bytes());
        let mut action = serve(&self.router, method, path, header);
        loop {
            action = match action {
                Action::ReadBody { content_type } => body_read(content_type, Ok(body.to_vec())),
                Action::Decode { body } => decoded(decode(&body)),
                Action::Insert { task } => {
                    self.store_calls += 1;
                    inserted(self.table.insert(task, self.now))
                }
                Action::SelectAll { listing } => {
                    self.store_calls += 1;
                    selected(listing, Ok(self.table.select_all()))
                }
                Action::Get { id } => {
                    self.store_calls += 1;
                    got(id, Ok(self.table.get(id)))
                }
                Action::MarkComplete { id } => {
                    self.store_calls += 1;
                    marked(Ok(self.table.mark_complete(id, self.now)))
                }
                Action::EncodeTasks { tasks } => tasks_encoded(Ok(encode(&tasks))),
                Action::EncodeViolations { errors } => {
                    let fields: Vec<String> =
                        errors.errors.iter().map(|e| e.field.clone()).collect();
                    violations_encoded(Ok(fields.join(",")))
                }
                Action::FindTemplate => template_found(Ok(())),
                Action::Render { tasks } => rendered(Ok(format!("{} tasks", tasks.len()))),
                Action::Respond { response, log } => {
                    assert_eq!(log.is_some(), response.status.as_u16() >= 500);
                    return (response.status.as_u16(), response.body);
                }
                Action::Abort => panic!("the transport did not fail"),
            };
        }
    }

    fn list(&mut self) -> Vec<Value> {
        let (status, body) = self.request(Method::Get, "/tasks", None, b"");
        assert_eq!(status, 200);
        match serde_json::from_str(&body).expect("a JSON body") {
            Value::Array(tasks) => tasks,
            other => panic!("expected an array, got {}", other),
        }
    }
}

const JSON: Option<&str> = Some("application/json");

#[test]
fn a_created_task_is_in_the_next_list() {
    let mut service = Service::new();
    let (status, body) = service.request(
        Method::Post,
        "/tasks",
        JSON,
        b"{\"person\":\"Ann\",\"description\":\"Buy milk\"}",
    );
    assert_eq!((status, body.as_str()), (200, ""));
    let tasks = service.list();
    assert_eq!(tasks.len(), 1);
    assert_eq!(tasks[0]["person"], Value::from("Ann"));
    assert_eq!(tasks[0]["description"], Value::from("Buy milk"));
    assert_eq!(tasks[0]["completed_at"], Value::Null);
    assert_eq!(tasks[0]["id"], Value::from(1));
    assert!(tasks[0]["created_at"].is_i64());
}

#[test]
fn each_create_adds_exactly_one_task() {
    let mut service = Service::new();
    for n in 1..=5usize {
        let body = format!("{{\"person\":\"p{}\",\"description\":\"d{}\"}}", n, n);
        let (status, _) = service.request(Method::Post, "/tasks", JSON, body.as_bytes());
        assert_eq!(status, 200);
        let tasks = service.list();
        assert_eq!(tasks.len(), n);
        let matching: Vec<&Value> = tasks
            .iter()
            .filter(|t| t["person"] == Value::from(format!("p{}", n)))
            .collect();
        assert_eq!(matching.len(), 1);
        assert_eq!(matching[0]["description"], Value::from(format!("d{}", n)));
        assert_eq!(matching[0]["completed_at"], Value::Null);
    }
}

#[test]
fn tasks_are_listed_newest_first() {
    let mut service = Service::new();
    for person in ["first", "second", "third"] {
        let body = format!("{{\"person\":\"{}\",\"description\":\"d\"}}", person);
        assert_eq!(service.request(Method::Post, "/tasks", JSON, body.as_bytes()).0, 200);
    }
    let people: Vec<Value> = service.list().iter().map(|t| t["person"].clone()).collect();
    assert_eq!(people, vec![Value::from("third"), Value::from("second"), Value::from("first")]);
}

#[test]
fn an_invalid_task_is_rejected_and_not_stored() {
    let mut service = Service::new();
    let cases: Vec<(String, &str)> = vec![
        ("{\"description\":\"Buy milk\"}".to_string(), "person"),
        ("{\"person\":\"\",\"description\":\"Buy milk\"}".to_string(), "person"),
        (format!("{{\"person\":\"{}\",\"description\":\"d\"}}", "p".repeat(101)), "person"),
        ("{\"person\":\"Ann\"}".to_string(), "description"),
        (format!("{{\"person\":\"Ann\",\"description\":\"{}\"}}", "d".repeat(1001)), "description"),
        ("{}".to_string(), "person,description"),
    ];
    for (body, fields) in cases {
        let (status, told) = service.request(Method::Post, "/tasks", JSON, body.as_bytes());
        assert_eq!((status, told.as_str()), (400, fields));
    }
    assert_eq!(service.store_calls, 0);
    assert!(service.list().is_empty());
}

#[test]
fn a_body_that_is_no_json_is_rejected_and_not_stored() {
    let mut service = Service::new();
    let (status, body) = service.request(Method::Post, "/tasks", JSON, b"{\"person\":");
    assert_eq!((status, body.as_str()), (400, "Malformed request body"));
    let (status, body) = service.request(Method::Post, "/tasks", JSON, b"");
    assert_eq!((status, body.as_str()), (400, "Malformed request body"));
    assert_eq!(service.store_calls, 0);
}

#[test]
fn a_task_declared_as_plain_text_is_rejected_and_not_stored() {
    let mut service = Service::new();
    let well_formed = b"{\"person\":\"Ann\",\"description\":\"Buy milk\"}";
    for content_type in [Some("text/plain"), Some("application/x-www-form-urlencoded"), None] {
        let (status, body) = service.request(Method::Post, "/tasks", content_type, well_formed);
        assert_eq!((status, body.as_str()), (400, "Unknown content type"));
    }
    assert_eq!(service.store_calls, 0);
    assert!(service.list().is_empty());
}

#[test]
fn a_task_is_completed_once_over_http() {
    let mut service = Service::new();
    let body = b"{\"person\":\"Ann\",\"description\":\"Buy milk\"}";
    assert_eq!(service.request(Method::Post, "/tasks", JSON, body).0, 200);

    let (status, body) = service.request(Method::Post, "/tasks/1/complete", None, b"");
    assert_eq!((status, body.as_str()), (200, ""));
    let after_first = service.list();
    assert!(after_first[0]["completed_at"].is_i64());

    let (status, body) = service.request(Method::Post, "/tasks/1/complete", None, b"");
    assert_eq!((status, body.as_str()), (400, "Task is already complete"));
    assert_eq!(service.list(), after_first);
}

#[test]
fn completing_a_missing_task_is_not_found_and_changes_nothing() {
    let mut service = Service::new();
    let body = b"{\"person\":\"Ann\",\"description\":\"Buy milk\"}";
    assert_eq!(service.request(Method::Post, "/tasks", JSON, body).0, 200);
    let before = service.list();
    let calls = service.store_calls;
    let (status, body) = service.request(Method::Post, "/tasks/2/complete", None, b"");
    assert_eq!((status, body.as_str()), (404, "Not found"));
    // The lookup, and nothing after it.
    assert_eq!(service.store_calls, calls + 1);
    assert_eq!(service.list(), before);
}

#[test]
fn an_id_that_is_no_integer_is_a_client_error() {
    let mut service = Service::new();
    let (status, body) =
        service.request(Method::Post, "/tasks/99999999999/complete", None, b"");
    assert_eq!((status, body.as_str()), (400, "Invalid id"));
    assert_eq!(service.store_calls, 0);
}

#[test]
fn the_index_page_is_rendered_from_the_full_list() {
    let mut service = Service::new();
    for _ in 0..3 {
        let body = b"{\"person\":\"Ann\",\"description\":\"Buy milk\"}";
        assert_eq!(service.request(Method::Post, "/tasks", JSON, body).0, 200);
    }
    let (status, body) = service.request(Method::Get, "/", None, b"");
    assert_eq!((status, body.as_str()), (200, "3 tasks"));
}

#[test]
fn any_other_request_is_not_found() {
    let mut service = Service::new();
    for (method, path) in [
        (Method::Get, "/task"),
        (Method::Post, "/"),
        (Method::Other, "/tasks"),
        (Method::Get, "/tasks/1/complete"),
        (Method::Post, "/tasks/1"),
    ] {
        let (status, body) = service.request(method, path, None, b"");
        assert_eq!((status, body.as_str()), (404, "Not found"));
    }
    assert_eq!(service.store_calls, 0);
}
