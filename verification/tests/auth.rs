use console_client::auth::{
    ensure_ok_plain, ensure_status_ok, parse_json_success, parse_plain_success, AuthClient,
    ChangeAnyThingPayload, ErrorResponse, HttpReply, HttpRequest, JsonBody, LoginRequest, Method,
    PhoneRegistration, SessionPayload,
};

fn client() -> AuthClient {
    AuthClient::new("http://host:2131".to_string())
}

fn get(path: &str, query: &[(&str, &str)]) -> HttpRequest {
    HttpRequest {
        method: Method::Get,
        url: format!("http://host:2131/{path}"),
        query: query.iter().map(|(n, v)| (n.to_string(), v.to_string())).collect(),
        body: JsonBody::Empty,
    }
}

fn post(path: &str, body: JsonBody) -> HttpRequest {
    HttpRequest {
        method: Method::Post,
        url: format!("http://host:2131/{path}"),
        query: vec![],
        body,
    }
}

fn change(path: &str) -> HttpRequest {
    post(
        path,
        JsonBody::Change(ChangeAnyThingPayload {
            session_tocken: "tok".to_string(),
            new_value: "new".to_string(),
        }),
    )
}

fn received(status: u16, body: &str, error: Option<&str>) -> HttpReply {
    HttpReply::Received {
        status,
        body: body.to_string(),
        error: error.map(|e| ErrorResponse { error: e.to_string() }),
    }
}

fn failure(text: &str) -> Result<(), String> {
    Err(text.to_string())
}

#[test]
fn endpoint_joins_with_one_slash() {
    assert_eq!(client().endpoint("login"), "http://host:2131/login");
    for base in ["http://host", "http://host/", "http://host//"] {
        assert_eq!(AuthClient::new(base.to_string()).endpoint("login"), "http://host/login");
    }
    assert_eq!(AuthClient::new(String::new()).endpoint("login"), "/login");
}

#[test]
fn full_registration_is_a_query() {
    assert_eq!(
        client().register_full("bob", "secret", "b@x.org", "+79991234567"),
        get(
            "adduser",
            &[
                ("username", "bob"),
                ("password", "secret"),
                ("email", "b@x.org"),
                ("phone_number", "+79991234567"),
            ],
        )
    );
}

#[test]
fn email_registration_is_a_query() {
    assert_eq!(
        client().register_email_only("bob", "secret", "b@x.org"),
        get(
            "adduserwithoutphone",
            &[("username", "bob"), ("password", "secret"), ("email", "b@x.org")],
        )
    );
}

#[test]
fn phone_registration_is_posted() {
    assert_eq!(
        client().register_phone_only("bob", "secret", "+79991234567"),
        post(
            "adduserwithoutemail",
            JsonBody::Phone(PhoneRegistration {
                username: "bob".to_string(),
                password: "secret".to_string(),
                phone_number: "+79991234567".to_string(),
            }),
        )
    );
}

#[test]
fn login_is_posted() {
    assert_eq!(
        client().login("email", "b@x.org", "secret", 3600),
        post(
            "login",
            JsonBody::Login(LoginRequest {
                login_type: "email".to_string(),
                login_details: "b@x.org".to_string(),
                password: "secret".to_string(),
                live_time: 3600,
            }),
        )
    );
}

#[test]
fn sessions_and_profiles_are_asked_for() {
    assert_eq!(
        client().session_user_info("tok"),
        post(
            "sessionuserinfo",
            JsonBody::Session(SessionPayload { session_tocken: "tok".to_string() }),
        )
    );
    assert_eq!(
        client().get_user_info("tok", "bob"),
        get("getuserinfo", &[("session_tocken", "tok"), ("username", "bob")])
    );
}

#[test]
fn profile_changes_go_to_their_own_paths() {
    let c = client();
    assert_eq!(c.change_first_name("tok", "new"), change("changefirstname"));
    assert_eq!(c.change_last_name("tok", "new"), change("changelastname"));
    assert_eq!(c.change_birth_date("tok", "new"), change("changedateofbirth"));
    assert_eq!(c.change_additional_info("tok", "new"), change("changeadditionalinfo"));
    assert_eq!(
        c.change_username("tok", "new"),
        get("changeusername", &[("session_tocken", "tok"), ("new_value", "new")])
    );
}

#[test]
fn presence_is_a_query() {
    assert_eq!(client().set_online("tok"), get("online", &[("session_tocken", "tok")]));
    assert_eq!(client().set_offline("tok"), get("offline", &[("session_tocken", "tok")]));
}

#[test]
fn success_is_between_200_and_299() {
    for status in [200, 201, 204, 250, 299] {
        assert_eq!(ensure_status_ok(status, "x", &None), Ok(()));
    }
    for status in [100, 199, 300, 302, 400, 404, 500, 999] {
        assert_eq!(
            ensure_status_ok(status, "x", &None),
            failure(&format!("http {status}: x"))
        );
    }
}

#[test]
fn numbers_that_are_no_status_are_no_success() {
    assert_eq!(ensure_status_ok(0, "x", &None), failure("http 0: x"));
    assert_eq!(ensure_status_ok(99, "x", &None), failure("http 99: x"));
    assert_eq!(ensure_status_ok(1000, "x", &None), failure("http 1000: x"));
    assert_eq!(ensure_status_ok(65535, "x", &None), failure("http 65535: x"));
}

#[test]
fn failures_name_the_error_first() {
    let named = Some(ErrorResponse { error: "bad token".to_string() });
    assert_eq!(
        ensure_status_ok(403, "{\"error\":\"bad token\"}", &named),
        failure("http 403: bad token")
    );
    let spaced = Some(ErrorResponse { error: " bad ".to_string() });
    assert_eq!(ensure_status_ok(403, "{}", &spaced), failure("http 403:  bad "));
}

#[test]
fn blank_errors_give_way_to_the_body() {
    let blank = Some(ErrorResponse { error: " \t\u{a0}".to_string() });
    assert_eq!(
        ensure_status_ok(500, "{\"error\":\" \"}", &blank),
        failure("http 500: {\"error\":\" \"}")
    );
}

#[test]
fn blank_bodies_are_marked() {
    assert_eq!(ensure_status_ok(500, "", &None), failure("http 500: <empty-body>"));
    assert_eq!(ensure_status_ok(500, " \r\n\u{2003}", &None), failure("http 500: <empty-body>"));
    assert_eq!(ensure_status_ok(500, " x ", &None), failure("http 500:  x "));
}

#[test]
fn plain_success_is_the_body() {
    assert_eq!(parse_plain_success(received(200, " tok\n", None)), Ok(" tok\n".to_string()));
    assert_eq!(
        parse_plain_success(received(401, "no", None)),
        Err("http 401: no".to_string())
    );
    assert_eq!(
        parse_plain_success(HttpReply::NotSent("refused".to_string())),
        Err("request failed: refused".to_string())
    );
    assert_eq!(
        parse_plain_success(HttpReply::NotRead("cut off".to_string())),
        Err("read response failed: cut off".to_string())
    );
}

#[test]
fn confirmations_are_the_word_ok() {
    for body in ["ok", "OK", "Ok", " ok ", "\u{3000}oK\r\n"] {
        assert_eq!(ensure_ok_plain(received(200, body, None)), Ok(()));
    }
}

#[test]
fn other_bodies_confirm_nothing() {
    assert_eq!(
        ensure_ok_plain(received(200, " okay ", None)),
        failure("unexpected response body:  okay ")
    );
    assert_eq!(ensure_ok_plain(received(200, "", None)), failure("unexpected response body: "));
    assert_eq!(ensure_ok_plain(received(199, "ok", None)), failure("http 199: ok"));
    assert_eq!(ensure_ok_plain(received(300, "ok", None)), failure("http 300: ok"));
    assert_eq!(
        ensure_ok_plain(received(409, "ok", Some("exists"))),
        failure("http 409: exists")
    );
    assert_eq!(
        ensure_ok_plain(HttpReply::NotSent("refused".to_string())),
        failure("request failed: refused")
    );
    assert_eq!(
        ensure_ok_plain(HttpReply::NotRead("cut off".to_string())),
        failure("read response failed: cut off")
    );
}

#[test]
fn json_success_is_the_value() {
    assert_eq!(parse_json_success(received(200, "7", None), Ok(7)), Ok(7));
}

#[test]
fn json_failures_say_why() {
    let parsed: Result<i32, String> = Err("expected value".to_string());
    assert_eq!(
        parse_json_success(received(200, "seven", None), parsed),
        Err("json parse failed: expected value; body=seven".to_string())
    );
    assert_eq!(
        parse_json_success(received(404, "7", None), Ok(7)),
        Err("http 404: 7".to_string())
    );
    assert_eq!(
        parse_json_success(HttpReply::NotSent("refused".to_string()), Ok(7)),
        Err("request failed: refused".to_string())
    );
}
