use streak::{Client, HttpResponse, JsonValue, Status, Step, StreakError};

fn unavailable() -> HttpResponse {
    HttpResponse { status: 503, body: "Service Unavailable".to_owned(), has_location: false }
}

fn json_ok(body: &str) -> HttpResponse {
    HttpResponse { status: 200, body: body.to_owned(), has_location: false }
}

fn client() -> Client {
    Client::new("test-key")
}

#[test]
fn defaults_of_new() {
    let c = client();
    assert_eq!(c.retry_count, 3);
    assert_eq!(c.retry_wait, 250);
    assert_eq!(c.api_url, "https://www.streak.com/api");
    assert_eq!(c.api_key, "test-key");
}

#[test]
fn retries_exhaust_into_service_unavailable() {
    // retry_count = N = 3: N + 1 unavailable answers end terminally after
    // exactly N retries (sleeps).
    let c = client();
    let responses = vec![unavailable(), unavailable(), unavailable(), unavailable()];
    let (outcome, sleeps) = c.run(&responses);
    assert_eq!(outcome, Some(Err(StreakError::ServiceUnavailable)));
    assert_eq!(sleeps, 3);
}

#[test]
fn retries_exhaust_with_tuned_count() {
    let mut c = client();
    c.retry_count = 1;
    let responses = vec![unavailable(), unavailable()];
    let (outcome, sleeps) = c.run(&responses);
    assert_eq!(outcome, Some(Err(StreakError::ServiceUnavailable)));
    assert_eq!(sleeps, 1);
}

#[test]
fn success_stops_retrying() {
    // The second answer is a well-formed JSON success: the call returns at
    // once with one sleep behind it and never touches later answers.
    let c = client();
    let responses = vec![unavailable(), json_ok("{\"ok\":true}"), unavailable()];
    let (outcome, sleeps) = c.run(&responses);
    let expected = JsonValue::Obj(vec![("ok".to_owned(), JsonValue::Bool(true))]);
    assert_eq!(outcome, Some(Ok(expected)));
    assert_eq!(sleeps, 1);
}

#[test]
fn json_error_terminal_regardless_of_retry_count() {
    let mut c = client();
    c.retry_count = 200;
    let responses = vec![HttpResponse {
        status: 404,
        body: "{\"code\":404,\"error\":\"no such box\"}".to_owned(),
        has_location: false,
    }];
    let (outcome, sleeps) = c.run(&responses);
    let status = Status { code: Some(404), error: "no such box".to_owned() };
    assert_eq!(outcome, Some(Err(StreakError::ResourceNotFound(status))));
    assert_eq!(sleeps, 0);
}

#[test]
fn redirect_sentinel_on_first_attempt() {
    let c = client();
    let responses = vec![HttpResponse {
        status: 302,
        body: "<html>moved</html>".to_owned(),
        has_location: true,
    }];
    let (outcome, sleeps) = c.run(&responses);
    assert_eq!(outcome, Some(Ok(JsonValue::Str("Created".to_owned()))));
    assert_eq!(sleeps, 0);
}

#[test]
fn unauthorized_key_carries_the_envelope() {
    // A 401 with a well-formed JSON error body maps to UnauthorizedKey.
    let c = client();
    let responses = vec![HttpResponse {
        status: 401,
        body: "{\"code\":401,\"error\":\"bad key\"}".to_owned(),
        has_location: false,
    }];
    let (outcome, _) = c.run(&responses);
    match outcome {
        Some(Err(StreakError::UnauthorizedKey(st))) => {
            assert_eq!(st.error, "bad key");
            assert_eq!(st.code, Some(401));
        },
        other => panic!("unexpected outcome: {:?}", other),
    }
}

#[test]
fn status_classification_table() {
    let body = "{\"code\":7,\"error\":\"x\"}";
    let st = Status { code: Some(7), error: "x".to_owned() };
    let resp = |status: u16| HttpResponse {
        status,
        body: body.to_owned(),
        has_location: false,
    };
    assert_eq!(
        streak::client::classify(&resp(400), 3),
        Step::Failure(StreakError::BadRequest(st.clone()))
    );
    assert_eq!(
        streak::client::classify(&resp(403), 3),
        Step::Failure(StreakError::Forbidden(st.clone()))
    );
    assert_eq!(
        streak::client::classify(&resp(500), 3),
        Step::Failure(StreakError::InternalServerError(st.clone()))
    );
    // A JSON body under a status outside the documented set is a typed
    // error, not an abort.
    assert_eq!(
        streak::client::classify(&resp(418), 3),
        Step::Failure(StreakError::UnexpectedStatus(418))
    );
    // 201 is a success.
    let created = HttpResponse { status: 201, body: "5".to_owned(), has_location: false };
    assert_eq!(streak::client::classify(&created, 3), Step::Success(JsonValue::Int(5)));
}

#[test]
fn missing_envelope_is_a_parse_error() {
    let c = client();
    let responses = vec![HttpResponse {
        status: 400,
        body: "{\"oops\":1}".to_owned(),
        has_location: false,
    }];
    let (outcome, _) = c.run(&responses);
    assert_eq!(
        outcome,
        Some(Err(StreakError::JsonParseError("malformed status envelope".to_owned())))
    );
}

#[test]
fn non_json_non_redirect_is_invalid_server_response() {
    let c = client();
    let responses = vec![HttpResponse {
        status: 502,
        body: "<html>bad gateway</html>".to_owned(),
        has_location: false,
    }];
    let (outcome, sleeps) = c.run(&responses);
    assert_eq!(outcome, Some(Err(StreakError::InvalidServerResponse)));
    assert_eq!(sleeps, 0);
}

#[test]
fn classify_retries_only_with_budget() {
    let r = unavailable();
    assert_eq!(streak::client::classify(&r, 2), Step::Retry);
    assert_eq!(streak::client::classify(&r, 0), Step::Failure(StreakError::ServiceUnavailable));
}

#[test]
fn url_building() {
    let c = client();
    let pairs = vec![("query".to_owned(), "AWS".to_owned())];
    assert_eq!(
        c.get_url("search", &pairs),
        "https://www.streak.com/api/v1/search?query=AWS"
    );
    let none: Vec<(String, String)> = Vec::new();
    assert_eq!(
        c.get_v2_url("contacts/c1", &none),
        "https://www.streak.com/api/v2/contacts/c1?"
    );
    assert_eq!(streak::client::basic_password(), "X");
}

#[test]
fn error_descriptions() {
    let st = Status { code: Some(404), error: "gone".to_owned() };
    let e = StreakError::ResourceNotFound(st);
    assert_eq!(e.description(), "404 not found");
    assert_eq!(e.display_string(), "Resource Not Found: gone");
    assert_eq!(StreakError::ServiceUnavailable.description(), "503 service unavailable");
    assert_eq!(
        StreakError::ServiceUnavailable.display_string(),
        "Service Unavailable reported by the Streak service"
    );
    assert_eq!(
        StreakError::IoError("broken pipe".to_owned()).display_string(),
        "IO Error: broken pipe"
    );
    assert_eq!(
        StreakError::RequestError("timed out".to_owned()).description(),
        "Request error"
    );
    assert_eq!(
        StreakError::RequestUrlError("bad".to_owned()).display_string(),
        "Bad Request URL: bad"
    );
    assert_eq!(
        StreakError::RequestUrlEncodeError("bad".to_owned()).description(),
        "Request URL Encode error"
    );
    assert_eq!(
        StreakError::UnexpectedStatus(418).display_string(),
        "Unexpected status code in the server's response"
    );
}

#[test]
fn answers_can_run_out_while_retrying() {
    let c = client();
    let responses = vec![unavailable()];
    let (outcome, sleeps) = c.run(&responses);
    assert_eq!(outcome, None);
    assert_eq!(sleeps, 1);
}
