use api_requests::users::confirm;
use api_requests::users::perform;
use api_requests::ApiRequest;
use api_requests::Json;
use api_requests::Method;
use api_requests::Users;

fn text(s: &str) -> Json {
    Json::Text(s.to_string())
}

fn object(members: Vec<(&str, Json)>) -> Json {
    Json::Object(members.into_iter().map(|(k, v)| (k.to_string(), v)).collect())
}

fn fault(message: &str, code: u16) -> (String, u16) {
    (message.to_string(), code)
}

fn typed(method: Method, action: &str, username: &str, password: &str) -> ApiRequest<Users> {
    let payload = object(vec![("username", text(username)), ("password", text(password))]);
    ApiRequest {
        model: "users".to_string(),
        action: action.to_string(),
        method,
        error: None,
        data: Users::validate(&payload).unwrap(),
        path: format!("/api/users/{}", action),
    }
}

#[test]
fn validate() {
    let successful_user_list = vec![
        object(vec![("username", text("someUser")), ("password", text("somePassword"))]),
        object(vec![("username", text("test")), ("password", text("test"))]),
    ];
    for user in successful_user_list {
        assert!(Users::validate(&user).is_ok());
    }

    let failing_user_list = vec![
        object(vec![]),
        object(vec![("username", text("someUser"))]),
        object(vec![("username", text(""))]),
        object(vec![("username", Json::Number("32".to_string()))]),
        object(vec![("password", text("somePassword"))]),
        object(vec![("password", text(""))]),
        object(vec![("password", Json::Bool(false))]),
        object(vec![("username", text("test")), ("password", Json::Array(vec![]))]),
        object(vec![("username", text("test")), ("password", text(""))]),
        object(vec![("username", text("")), ("password", text(""))]),
        object(vec![("username", text("")), ("password", text("test"))]),
    ];
    for user in failing_user_list {
        assert!(Users::validate(&user).is_err());
    }
}

#[test]
fn valid_credentials_come_back_as_given() {
    let payload = object(vec![
        ("password", text("p w")),
        ("extra", Json::Null),
        ("username", text("someUser")),
    ]);
    let users = Users::validate(&payload).unwrap();
    assert_eq!(users.username(), "someUser");
    assert_eq!(users.password(), "p w");
}

#[test]
fn each_way_of_being_invalid_has_its_message() {
    let cases = vec![
        (object(vec![]), "Username is not given"),
        (Json::Null, "Username is not given"),
        (Json::Array(vec![text("username")]), "Username is not given"),
        (text("username"), "Username is not given"),
        (object(vec![("username", Json::Number("32".to_string()))]), "Username is not a string"),
        (object(vec![("username", Json::Null)]), "Username is not a string"),
        (object(vec![("username", text(""))]), "Username can't be empty"),
        (object(vec![("username", text("u"))]), "Password is not given"),
        (
            object(vec![("username", text("u")), ("password", Json::Bool(false))]),
            "Password is not a string",
        ),
        (
            object(vec![("username", text("u")), ("password", Json::Array(vec![]))]),
            "Password is not a string",
        ),
        (
            object(vec![("username", text("u")), ("password", text(""))]),
            "Password can't be empty",
        ),
    ];
    for (payload, message) in cases {
        assert_eq!(Users::validate(&payload).unwrap_err(), fault(message, 400));
    }
}

#[test]
fn the_username_is_looked_at_first() {
    let payload = object(vec![("password", Json::Bool(true)), ("username", text(""))]);
    assert_eq!(Users::validate(&payload).unwrap_err(), fault("Username can't be empty", 400));
}

#[test]
fn the_first_of_two_members_with_one_key_counts() {
    let payload = object(vec![
        ("username", text("first")),
        ("username", Json::Null),
        ("password", text("p")),
    ]);
    assert_eq!(Users::validate(&payload).unwrap().username(), "first");
}

#[test]
fn show_prints_as_debug_does() {
    #[derive(Debug)]
    #[allow(dead_code)]
    struct Users {
        username: String,
        password: String,
    }
    for (u, p) in [("test", "test"), ("a\"b", "c\\d"), ("line\nbreak", "tab\tß\u{7f}")] {
        let payload = object(vec![("username", text(u)), ("password", text(p))]);
        let shown = api_requests::Users::validate(&payload).unwrap().show();
        let expected = format!("{:?}", Users { username: u.to_string(), password: p.to_string() });
        assert_eq!(shown, expected);
    }
    assert_eq!(
        api_requests::Users::show_with("\"u\"", "\"p\""),
        "Users { username: \"u\", password: \"p\" }"
    );
}

#[test]
fn confirm_names_the_endpoint_and_the_data() {
    assert_eq!(confirm("m", "a", "d"), "called endpoint \"m/a\" with data: d");
}

#[test]
fn login_is_confirmed_under_get_and_post() {
    for method in [Method::Get, Method::Post] {
        let outcome = typed(method, "login", "test", "test").dispatch();
        assert_eq!(
            outcome,
            Ok(text(
                "called endpoint \"users/login\" with data: Users { username: \"test\", password: \"test\" }"
            ))
        );
    }
}

#[test]
fn another_action_is_unknown() {
    for method in [Method::Get, Method::Post] {
        let outcome = typed(method, "logout", "u", "p").dispatch();
        assert_eq!(outcome, Err(fault("Unknown action \"logout\"", 404)));
    }
}

#[test]
fn another_method_is_not_allowed() {
    for (method, name) in [(Method::Put, "PUT"), (Method::Delete, "DELETE"), (Method::Other, "OTHER")]
    {
        for action in ["login", "logout"] {
            let outcome = typed(method, action, "u", "p").dispatch();
            let message =
                format!("Method \"{}\" not allowed on endpoint \"users/{}\"", name, action);
            assert_eq!(outcome, Err((message, 405)));
        }
    }
}

#[test]
fn delete_on_login_is_answered_405() {
    let response = typed(Method::Delete, "login", "u", "p").evaluate();
    assert_eq!(response.status, 405);
    assert_eq!(
        response.body,
        object(vec![
            ("status", text("error")),
            ("error", text("Method \"DELETE\" not allowed on endpoint \"users/login\"")),
        ])
    );
}

#[test]
fn evaluate_answers_with_the_error_it_carries() {
    let mut request = typed(Method::Get, "login", "u", "p");
    request.error = Some(fault("No action given", 400));
    let response = request.evaluate();
    assert_eq!(response.status, 400);
    assert_eq!(
        response.body,
        object(vec![("status", text("error")), ("error", text("No action given"))])
    );
}

#[test]
fn from_basic_types_a_valid_payload() {
    let basic = ApiRequest {
        model: "users".to_string(),
        action: "login".to_string(),
        method: Method::Post,
        error: None,
        data: object(vec![("username", text("u")), ("password", text("p"))]),
        path: "/api/users/login".to_string(),
    };
    let request = ApiRequest::<Users>::from_basic(basic);
    assert_eq!(request.error, None);
    assert_eq!(request.data.username(), "u");
    assert_eq!(request.data.password(), "p");
    assert_eq!(request.model, "users");
    assert_eq!(request.action, "login");
    assert_eq!(request.method, Method::Post);
    assert_eq!(request.path, "/api/users/login");
}

#[test]
fn from_basic_keeps_the_validation_error_and_blanks_the_data() {
    let basic = ApiRequest {
        model: "users".to_string(),
        action: "login".to_string(),
        method: Method::Post,
        error: None,
        data: object(vec![("username", text("u"))]),
        path: "/api/users/login".to_string(),
    };
    let request = ApiRequest::<Users>::from_basic(basic);
    assert_eq!(request.error, Some(fault("Password is not given", 400)));
    assert_eq!(request.data.username(), "");
    assert_eq!(request.data.password(), "");
}

#[test]
fn from_basic_keeps_an_earlier_error() {
    let basic = ApiRequest {
        model: "users".to_string(),
        action: "unknown".to_string(),
        method: Method::Get,
        error: Some(fault("No action given", 400)),
        data: object(vec![("username", text("u")), ("password", text("p"))]),
        path: "/api/users".to_string(),
    };
    let request = ApiRequest::<Users>::from_basic(basic);
    assert_eq!(request.error, Some(fault("No action given", 400)));
    assert_eq!(request.data.username(), "");
}

#[test]
fn credentials_are_whole_or_blank() {
    let payload = object(vec![("username", text("u")), ("password", text("p"))]);
    assert!(!Users::validate(&payload).unwrap().is_blank());
    let basic = ApiRequest {
        model: "users".to_string(),
        action: "login".to_string(),
        method: Method::Get,
        error: None,
        data: object(vec![("username", text("u")), ("password", text(""))]),
        path: "/api/users/login".to_string(),
    };
    assert!(ApiRequest::<Users>::from_basic(basic).data.is_blank());
}

#[test]
fn perform_decides_by_method_then_action() {
    assert_eq!(
        perform(Method::Get, "m", "login", "d"),
        Ok(text("called endpoint \"m/login\" with data: d"))
    );
    assert_eq!(
        perform(Method::Post, "", "login", ""),
        Ok(text("called endpoint \"/login\" with data: "))
    );
    assert_eq!(perform(Method::Post, "m", "Login", "d"), Err(fault("Unknown action \"Login\"", 404)));
    assert_eq!(perform(Method::Get, "m", "", "d"), Err(fault("Unknown action \"\"", 404)));
    assert_eq!(
        perform(Method::Delete, "m", "nothing", "d"),
        Err(fault("Method \"DELETE\" not allowed on endpoint \"m/nothing\"", 405))
    );
    assert_eq!(
        perform(Method::Put, "users", "login", "d"),
        Err(fault("Method \"PUT\" not allowed on endpoint \"users/login\"", 405))
    );
}
