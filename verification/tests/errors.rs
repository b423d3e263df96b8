use json_errors::{Failure, JsonError, JsonErrors, Response, Status, WarningLog};

fn parsed(body: &str) -> serde_json::Value {
    serde_json::from_str(body).expect("the body is JSON")
}

fn text(s: &str) -> serde_json::Value {
    serde_json::Value::String(s.to_string())
}

fn object_error(description: &str) -> serde_json::Value {
    let mut map = serde_json::Map::new();
    map.insert("error".to_string(), text(description));
    serde_json::Value::Object(map)
}

fn object_errors(descriptions: &[&str]) -> serde_json::Value {
    let mut map = serde_json::Map::new();
    map.insert("error".to_string(), text(&descriptions.join("\n")));
    map.insert(
        "errors".to_string(),
        serde_json::Value::Array(descriptions.iter().map(|d| text(d)).collect()),
    );
    serde_json::Value::Object(map)
}

#[test]
fn from_status_keeps_status_and_description() {
    let err = JsonError::from_status(Status::new(404), "user not found");
    assert_eq!(err.status, Status { code: 404 });
    assert_eq!(err.status.code, 404);
    assert_eq!(err.description, "user not found");
    assert_eq!(err.body, "{\"error\":\"user not found\"}");
    assert_eq!(parsed(&err.body), object_error("user not found"));
}

#[test]
fn from_status_response_not_found() {
    let res = JsonError::from_status(Status::new(404), "user not found").respond_to();
    assert_eq!(res.status.code, 404);
    assert_eq!(res.content_type, "application/json");
    assert_eq!(res.body, "{\"error\":\"user not found\"}");
}

#[test]
fn body_is_encoded_not_copied() {
    let err = JsonError::from_status(Status::new(400), "x");
    assert_ne!(err.body, "{\"error\":x}");
    assert_eq!(err.body, "{\"error\":\"x\"}");
}

#[test]
fn body_escapes_what_json_escapes() {
    let description = "say \"hi\"\\ then\nnew line\tand \u{1} and \u{e9}\u{4e16}";
    let err = JsonError::from_status(Status::new(422), description);
    assert_eq!(err.description, description);
    assert_eq!(
        err.body,
        "{\"error\":\"say \\\"hi\\\"\\\\ then\\nnew line\\tand \\u0001 and \u{e9}\u{4e16}\"}"
    );
    assert_eq!(err.body, serde_json::to_string(&object_error(description)).unwrap());
    assert_eq!(parsed(&err.body), object_error(description));
}

#[test]
fn empty_description_is_taken() {
    let err = JsonError::from_status(Status::new(400), "");
    assert_eq!(err.description, "");
    assert_eq!(err.body, "{\"error\":\"\"}");
}

#[test]
fn new_records_one_warning() {
    let mut log = WarningLog::new();
    assert!(log.entries.is_empty());
    let err = JsonError::new(500, "database unreachable", &mut log);
    assert_eq!(log.entries, vec!["JsonError (500): database unreachable".to_string()]);
    assert_eq!(err.status.code, 500);
    let res = err.respond_to();
    assert_eq!(res.status.code, 500);
    assert_eq!(res.content_type, "application/json");
    assert_eq!(res.body, "{\"error\":\"database unreachable\"}");
}

#[test]
fn new_appends_to_earlier_warnings() {
    let mut log = WarningLog::new();
    log.warn("earlier".to_string());
    let _first = JsonError::new(400, "a", &mut log);
    let _second = JsonError::new(65535, "b", &mut log);
    assert_eq!(
        log.entries,
        vec![
            "earlier".to_string(),
            "JsonError (400): a".to_string(),
            "JsonError (65535): b".to_string(),
        ]
    );
}

#[test]
fn new_equals_from_status_of_the_code() {
    let mut log = WarningLog::new();
    let from_code = JsonError::new(503, "busy", &mut log);
    let from_status = JsonError::from_status(Status::new(503), "busy");
    assert_eq!(from_code, from_status);
    assert_eq!(from_code.body, from_status.body);
}

#[test]
fn new_passes_any_code_through() {
    let mut log = WarningLog::new();
    let zero = JsonError::new(0, "none", &mut log);
    let high = JsonError::new(999, "odd", &mut log);
    assert_eq!(zero.status.code, 0);
    assert_eq!(high.status.code, 999);
    assert_eq!(log.entries[0], "JsonError (0): none");
    assert_eq!(log.entries[1], "JsonError (999): odd");
}

#[test]
fn from_status_records_nothing() {
    let log = WarningLog::new();
    let _err = JsonError::from_status(Status::new(500), "quiet");
    assert_eq!(log.entries.len(), 0);
}

#[test]
fn equality_is_by_all_fields() {
    let a = JsonError::from_status(Status::new(400), "a");
    assert_eq!(a, JsonError::from_status(Status::new(400), "a"));
    assert_ne!(a, JsonError::from_status(Status::new(401), "a"));
    assert_ne!(a, JsonError::from_status(Status::new(400), "b"));
    let mut other_body = JsonError::from_status(Status::new(400), "a");
    other_body.body = "{}".to_string();
    assert_ne!(a, other_body);
}

#[test]
fn error_to_string_is_description() {
    let err = JsonError::from_status(Status::new(400), "bad input");
    assert_eq!(err.to_string(), "bad input");
}

#[test]
fn group_from_one_error() {
    let group = JsonErrors::from(JsonError::from_status(Status::new(409), "taken"));
    assert_eq!(group.0.len(), 1);
    assert_eq!(group.0[0], JsonError::from_status(Status::new(409), "taken"));
    assert_eq!(group.1, Status { code: 409 });
    let through_into: JsonErrors = JsonError::from_status(Status::new(409), "taken").into();
    assert_eq!(group, through_into);
}

#[test]
fn group_of_one_response() {
    let res = JsonErrors::from(JsonError::from_status(Status::new(409), "taken")).respond_to();
    assert_eq!(res.status.code, 409);
    assert_eq!(res.content_type, "application/json");
    assert_eq!(res.body, "{\"error\":\"taken\",\"errors\":[\"taken\"]}");
}

#[test]
fn group_response_two_missing_fields() {
    let group = JsonErrors(
        vec![
            JsonError::from_status(Status::new(400), "missing field a"),
            JsonError::from_status(Status::new(400), "missing field b"),
        ],
        Status::new(400),
    );
    let res = group.respond_to();
    assert_eq!(res.status.code, 400);
    assert_eq!(res.content_type, "application/json");
    assert_eq!(
        res.body,
        "{\"error\":\"missing field a\\nmissing field b\",\"errors\":[\"missing field a\",\"missing field b\"]}"
    );
    assert_eq!(parsed(&res.body), object_errors(&["missing field a", "missing field b"]));
}

#[test]
fn group_status_is_its_own() {
    let group = JsonErrors(
        vec![
            JsonError::from_status(Status::new(404), "no user"),
            JsonError::from_status(Status::new(500), "no database"),
        ],
        Status::new(422),
    );
    let res = group.respond_to();
    assert_eq!(res.status.code, 422);
    assert_eq!(
        res.body,
        serde_json::to_string(&object_errors(&["no user", "no database"])).unwrap()
    );
}

#[test]
fn group_keeps_order() {
    let names = ["c", "a", "b", "a"];
    let group = JsonErrors(
        names.iter().map(|d| JsonError::from_status(Status::new(400), d)).collect(),
        Status::new(400),
    );
    assert_eq!(group.descriptions(), vec!["c", "a", "b", "a"]);
    let res = group.respond_to();
    assert_eq!(res.body, "{\"error\":\"c\\na\\nb\\na\",\"errors\":[\"c\",\"a\",\"b\",\"a\"]}");
    assert_eq!(parsed(&res.body), object_errors(&names));
}

#[test]
fn group_reads_descriptions_not_bodies() {
    let mut err = JsonError::from_status(Status::new(400), "real");
    err.body = "{\"error\":\"other\"}".to_string();
    let res = JsonErrors(vec![err], Status::new(400)).respond_to();
    assert_eq!(res.body, "{\"error\":\"real\",\"errors\":[\"real\"]}");
}

#[test]
fn empty_group_has_empty_list() {
    let res = JsonErrors(vec![], Status::new(400)).respond_to();
    assert_eq!(res.status.code, 400);
    assert_eq!(res.body, "{\"error\":\"\",\"errors\":[]}");
    assert_eq!(parsed(&res.body), object_errors(&[]));
}

#[test]
fn group_to_string_uses_comma_and_space() {
    let group = JsonErrors(
        vec![
            JsonError::from_status(Status::new(400), "missing field a"),
            JsonError::from_status(Status::new(400), "missing field b"),
        ],
        Status::new(400),
    );
    assert_eq!(group.to_string(), "missing field a, missing field b");
    assert_eq!(JsonErrors(vec![], Status::new(400)).to_string(), "");
    let one = JsonErrors::from(JsonError::from_status(Status::new(400), "only"));
    assert_eq!(one.to_string(), "only");
}

#[test]
fn group_equality() {
    let make = |status: u16, ds: &[&str]| {
        JsonErrors(
            ds.iter().map(|d| JsonError::from_status(Status::new(400), d)).collect(),
            Status::new(status),
        )
    };
    assert_eq!(make(400, &["a", "b"]), make(400, &["a", "b"]));
    assert_ne!(make(400, &["a", "b"]), make(401, &["a", "b"]));
    assert_ne!(make(400, &["a", "b"]), make(400, &["b", "a"]));
    assert_ne!(make(400, &["a", "b"]), make(400, &["a"]));
    assert_eq!(make(400, &[]), make(400, &[]));
}

#[test]
fn responding_twice_gives_the_same() {
    let first = JsonError::from_status(Status::new(404), "gone \"far\"").respond_to();
    let second = JsonError::from_status(Status::new(404), "gone \"far\"").respond_to();
    assert_eq!(first.body.as_bytes(), second.body.as_bytes());
    assert_eq!(first.status, second.status);
    let make = || {
        JsonErrors(
            vec![
                JsonError::from_status(Status::new(400), "a\nb"),
                JsonError::from_status(Status::new(400), "c"),
            ],
            Status::new(400),
        )
    };
    let first = make().respond_to();
    let second = make().respond_to();
    assert_eq!(first.body.as_bytes(), second.body.as_bytes());
    assert_eq!(first.status, second.status);
}

#[test]
fn write_to_replaces_an_earlier_response() {
    let mut res = Response {
        status: Status::new(200),
        content_type: "text/plain".to_string(),
        body: "hello".to_string(),
    };
    JsonError::from_status(Status::new(403), "no").write_to(&mut res);
    assert_eq!(res.status.code, 403);
    assert_eq!(res.content_type, "application/json");
    assert_eq!(res.body, "{\"error\":\"no\"}");

    let mut res = Response::json(Status::new(200), "{}".to_string());
    res.content_type = "text/html".to_string();
    JsonErrors(vec![JsonError::from_status(Status::new(400), "x")], Status::new(418))
        .write_to(&mut res);
    assert_eq!(res.status.code, 418);
    assert_eq!(res.content_type, "application/json");
    assert_eq!(res.body, "{\"error\":\"x\",\"errors\":[\"x\"]}");
}

#[test]
fn set_json_keeps_the_body() {
    let mut res = Response {
        status: Status::new(200),
        content_type: "text/plain".to_string(),
        body: "[]".to_string(),
    };
    res.set_json(Status::new(500));
    assert_eq!(res.status.code, 500);
    assert_eq!(res.content_type, "application/json");
    assert_eq!(res.body, "[]");
}

#[test]
fn newline_in_a_description_is_escaped_in_both_members() {
    let group = JsonErrors(
        vec![
            JsonError::from_status(Status::new(400), "a\nb"),
            JsonError::from_status(Status::new(400), "c"),
        ],
        Status::new(400),
    );
    let res = group.respond_to();
    assert_eq!(res.body, "{\"error\":\"a\\nb\\nc\",\"errors\":[\"a\\nb\",\"c\"]}");
}

#[test]
fn failure_answers_as_what_it_holds() {
    let single = Failure::Single(JsonError::from_status(Status::new(404), "user not found"));
    let res = single.respond_to();
    assert_eq!(res.status.code, 404);
    assert_eq!(res.content_type, "application/json");
    assert_eq!(res.body, "{\"error\":\"user not found\"}");

    let group = Failure::Group(JsonErrors(
        vec![
            JsonError::from_status(Status::new(400), "a"),
            JsonError::from_status(Status::new(400), "b"),
        ],
        Status::new(400),
    ));
    let res = group.respond_to();
    assert_eq!(res.status.code, 400);
    assert_eq!(res.content_type, "application/json");
    assert_eq!(res.body, "{\"error\":\"a\\nb\",\"errors\":[\"a\",\"b\"]}");
}

#[test]
fn stored_body_is_sent_as_it_is() {
    let mut err = JsonError::from_status(Status::new(400), "real");
    err.body = "{\"error\":\"other\"}".to_string();
    let res = err.respond_to();
    assert_eq!(res.body, "{\"error\":\"other\"}");
    assert_eq!(res.status.code, 400);
}
