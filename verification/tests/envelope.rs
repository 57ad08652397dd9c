use api_requests::decode::decode_json;
use api_requests::decode::decode_query;
use api_requests::ApiRequest;
use api_requests::Json;
use api_requests::Method;
use api_requests::RawRequest;

fn text(s: &str) -> Json {
    Json::Text(s.to_string())
}

fn object(members: Vec<(&str, Json)>) -> Json {
    Json::Object(members.into_iter().map(|(k, v)| (k.to_string(), v)).collect())
}

fn fault(message: &str, code: u16) -> Option<(String, u16)> {
    Some((message.to_string(), code))
}

fn request(method: Method, query: &str, content_type: &str) -> RawRequest {
    RawRequest {
        method,
        path: "/api/users/login".to_string(),
        model: Some("users".to_string()),
        action: Some("login".to_string()),
        query: query.to_string(),
        content_type: content_type.to_string(),
    }
}

fn sorted(value: Json) -> Json {
    match value {
        Json::Object(mut members) => {
            members.sort_by(|a, b| a.0.cmp(&b.0));
            Json::Object(members.into_iter().map(|(k, v)| (k, sorted(v))).collect())
        }
        Json::Array(items) => Json::Array(items.into_iter().map(sorted).collect()),
        other => other,
    }
}

#[test]
fn a_query_string_parses_into_its_pairs() {
    let envelope =
        ApiRequest::basic(request(Method::Get, "username=test&password=test", ""), String::new());
    assert_eq!(envelope.error, None);
    assert_eq!(
        sorted(envelope.data),
        object(vec![("password", text("test")), ("username", text("test"))])
    );
    assert_eq!(envelope.model, "users");
    assert_eq!(envelope.action, "login");
    assert_eq!(envelope.method, Method::Get);
    assert_eq!(envelope.path, "/api/users/login");
}

#[test]
fn brackets_in_a_key_nest_the_value() {
    assert_eq!(decode_query("a[b]=1"), Ok(object(vec![("a", object(vec![("b", text("1"))]))])));
    assert_eq!(
        decode_query("a[]=b&a[]=c"),
        Ok(object(vec![("a", Json::Array(vec![text("b"), text("c")]))]))
    );
    assert_eq!(decode_query("a=b%20c+d"), Ok(object(vec![("a", text("b c d"))])));
    assert_eq!(decode_query(""), Ok(object(vec![])));
}

#[test]
fn a_query_string_outside_the_accepted_form_is_an_error() {
    for query in ["a&a=b", "flag", "a=%26", "a=%2", "a[__idx]=1", "a=b]=c", "1234567890=x", "%"] {
        assert_eq!(decode_query(query), Err("query string not accepted".to_string()));
        let envelope = ApiRequest::basic(request(Method::Get, query, ""), String::new());
        assert_eq!(envelope.error, fault("Error parsing: query string not accepted", 400));
        assert_eq!(envelope.data, Json::Null);
    }
}

#[test]
fn a_json_body_is_read_as_it_stands() {
    let body = r#"{"a": [1, -2, 2.5, true, null, "s"], "b": {"c": "d"}}"#;
    let expected = object(vec![
        (
            "a",
            Json::Array(vec![
                Json::Number("1".to_string()),
                Json::Number("-2".to_string()),
                Json::Number("2.5".to_string()),
                Json::Bool(true),
                Json::Null,
                text("s"),
            ]),
        ),
        ("b", object(vec![("c", text("d"))])),
    ]);
    assert_eq!(decode_json(body).map(sorted), Ok(expected));
    let envelope =
        ApiRequest::basic(request(Method::Post, "", "application/json"), body.to_string());
    assert_eq!(envelope.error, None);
    assert!(matches!(envelope.data, Json::Object(_)));
}

#[test]
fn a_malformed_json_body_is_an_error() {
    let envelope =
        ApiRequest::basic(request(Method::Post, "", "application/json"), "{\"a\":".to_string());
    let (message, code) = envelope.error.unwrap();
    assert_eq!(code, 400);
    assert!(message.starts_with("Error parsing: "));
    assert!(message.len() > "Error parsing: ".len());
    assert_eq!(message, format!("Error parsing: {}", decode_json("{\"a\":").unwrap_err()));
    assert_eq!(envelope.data, Json::Null);
}

#[test]
fn a_post_of_another_content_type_is_not_implemented() {
    for content_type in ["text/plain", "", "application/JSON", "application/json; charset=utf-8"] {
        let envelope =
            ApiRequest::basic(request(Method::Post, "", content_type), "{}".to_string());
        assert_eq!(envelope.error, fault("Content Type \"POST\" not implemented", 501));
        assert_eq!(envelope.data, Json::Null);
    }
}

#[test]
fn a_put_wraps_the_body_as_a_file() {
    for content_type in ["image/png", "application/json", ""] {
        let envelope =
            ApiRequest::basic(request(Method::Put, "a=b", content_type), "{not json".to_string());
        assert_eq!(envelope.error, None);
        assert_eq!(
            envelope.data,
            object(vec![
                ("filename", text("/api/users/login")),
                ("content", text("{not json")),
                ("mime", text(content_type)),
            ])
        );
    }
}

#[test]
fn a_delete_has_no_payload() {
    let envelope = ApiRequest::basic(request(Method::Delete, "a&a=b", "text/plain"), "x".to_string());
    assert_eq!(envelope.error, None);
    assert_eq!(envelope.data, Json::Null);
}

#[test]
fn another_method_is_not_implemented() {
    let envelope = ApiRequest::basic(request(Method::Other, "", ""), String::new());
    assert_eq!(envelope.error, fault("Not implemented", 501));
    assert_eq!(envelope.data, Json::Null);
    assert_eq!(envelope.method, Method::Other);
}

#[test]
fn a_missing_route_parameter_is_an_error() {
    let mut req = request(Method::Delete, "", "");
    req.model = None;
    let envelope = ApiRequest::basic(req, String::new());
    assert_eq!(envelope.error, fault("No model given", 400));
    assert_eq!(envelope.model, "unknown");
    assert_eq!(envelope.action, "login");

    let mut req = request(Method::Delete, "", "");
    req.action = None;
    let envelope = ApiRequest::basic(req, String::new());
    assert_eq!(envelope.error, fault("No action given", 400));
    assert_eq!(envelope.model, "users");
    assert_eq!(envelope.action, "unknown");
}

#[test]
fn of_two_missing_route_parameters_the_action_is_reported() {
    let mut req = request(Method::Put, "", "");
    req.model = None;
    req.action = None;
    let envelope = ApiRequest::basic(req, String::new());
    assert_eq!(envelope.error, fault("No action given", 400));
    assert_eq!(envelope.model, "unknown");
    assert_eq!(envelope.action, "unknown");
}

#[test]
fn the_error_of_the_payload_is_kept_over_that_of_the_route() {
    let mut req = request(Method::Other, "", "");
    req.action = None;
    assert_eq!(ApiRequest::basic(req, String::new()).error, fault("Not implemented", 501));

    let mut req = request(Method::Post, "", "text/plain");
    req.model = None;
    assert_eq!(
        ApiRequest::basic(req, String::new()).error,
        fault("Content Type \"POST\" not implemented", 501)
    );

    let mut req = request(Method::Get, "", "");
    req.model = None;
    let envelope = ApiRequest::assemble(req, String::new(), Err("bad".to_string()));
    assert_eq!(envelope.error, fault("Error parsing: bad", 400));
}

#[test]
fn assemble_takes_the_outcome_where_the_payload_is_decoded() {
    let envelope =
        ApiRequest::assemble(request(Method::Get, "ignored", ""), String::new(), Ok(text("v")));
    assert_eq!(envelope.error, None);
    assert_eq!(envelope.data, text("v"));

    let envelope = ApiRequest::assemble(
        request(Method::Post, "", "application/json"),
        "ignored".to_string(),
        Err("details".to_string()),
    );
    assert_eq!(envelope.error, fault("Error parsing: details", 400));
    assert_eq!(envelope.data, Json::Null);
}

#[test]
fn assemble_ignores_the_outcome_elsewhere() {
    for outcome in [Ok(text("v")), Err("details".to_string())] {
        let envelope = ApiRequest::assemble(request(Method::Delete, "", ""), String::new(), outcome);
        assert_eq!(envelope.error, None);
        assert_eq!(envelope.data, Json::Null);
    }
    let envelope = ApiRequest::assemble(
        request(Method::Post, "", "text/plain"),
        String::new(),
        Ok(text("v")),
    );
    assert_eq!(envelope.error, fault("Content Type \"POST\" not implemented", 501));
    assert_eq!(envelope.data, Json::Null);
}

#[test]
fn the_log_line_names_time_method_path_model_and_action() {
    let envelope = ApiRequest::basic(request(Method::Delete, "", ""), String::new());
    assert_eq!(
        envelope.log_line("2024-01-02 03:04:05"),
        "2024-01-02 03:04:05 DELETE /api/users/login users login"
    );
}

#[test]
fn a_method_is_read_from_its_name() {
    assert_eq!(Method::from_name("GET"), Method::Get);
    assert_eq!(Method::from_name("POST"), Method::Post);
    assert_eq!(Method::from_name("PUT"), Method::Put);
    assert_eq!(Method::from_name("DELETE"), Method::Delete);
    for name in ["PATCH", "get", "", "OTHER", "GET ", "HEAD"] {
        assert_eq!(Method::from_name(name), Method::Other);
    }
    for method in [Method::Get, Method::Post, Method::Put, Method::Delete, Method::Other] {
        assert_eq!(Method::from_name(method.name()), method);
    }
    assert_eq!(Method::Delete.name(), "DELETE");
}
