//! The authorization service: the requests that the client makes of it, and what its replies mean.

use crate::text::{
    decimal, decimal_text, eq_ignore_ascii_case, only_end_slashes_are_removed, outcome_text,
    same_ignoring_case, trim, trim_end_slashes, trimmed, trimming_twice_is_trimming_once,
    without_end_slashes, Text,
};
use vstd::prelude::*;

verus! {

/// The method of a request.
#[derive(Debug, PartialEq, Eq, Clone, Copy)]
pub enum Method {
    Get,
    Post,
}

/// What a login is asked with.
#[derive(Debug, PartialEq, Eq)]
pub struct LoginRequest<S = String> {
    pub login_type: S,
    pub login_details: S,
    pub password: S,
    pub live_time: i32,
}

/// A session, where it is all that a request holds.
#[derive(Debug, PartialEq, Eq)]
pub struct SessionPayload<S = String> {
    pub session_tocken: S,
}

/// A new value for one of the fields of a profile.
#[derive(Debug, PartialEq, Eq)]
pub struct ChangeAnyThingPayload<S = String> {
    pub session_tocken: S,
    pub new_value: S,
}

/// A registration without an email address.
#[derive(Debug, PartialEq, Eq)]
pub struct PhoneRegistration<S = String> {
    pub username: S,
    pub password: S,
    pub phone_number: S,
}

/// The JSON body of a request.
#[derive(Debug, PartialEq, Eq)]
pub enum JsonBody<S = String> {
    Empty,
    Phone(PhoneRegistration<S>),
    Login(LoginRequest<S>),
    Session(SessionPayload<S>),
    Change(ChangeAnyThingPayload<S>),
}

impl View for JsonBody {
    type V = JsonBody<Text>;

    open spec fn view(&self) -> JsonBody<Text> {
        match *self {
            JsonBody::Empty => JsonBody::Empty,
            JsonBody::Phone(p) => JsonBody::Phone(
                PhoneRegistration {
                    username: p.username@,
                    password: p.password@,
                    phone_number: p.phone_number@,
                },
            ),
            JsonBody::Login(l) => JsonBody::Login(
                LoginRequest {
                    login_type: l.login_type@,
                    login_details: l.login_details@,
                    password: l.password@,
                    live_time: l.live_time,
                },
            ),
            JsonBody::Session(s) => JsonBody::Session(
                SessionPayload { session_tocken: s.session_tocken@ },
            ),
            JsonBody::Change(c) => JsonBody::Change(
                ChangeAnyThingPayload {
                    session_tocken: c.session_tocken@,
                    new_value: c.new_value@,
                },
            ),
        }
    }
}

/// A request to the authorization service.
#[derive(Debug, PartialEq, Eq)]
pub struct HttpRequest<S = String, Q = Vec<(String, String)>> {
    pub method: Method,
    pub url: S,
    pub query: Q,
    pub body: JsonBody<S>,
}

/// The model of a request.
pub type HttpRequestModel = HttpRequest<Text, Seq<(Text, Text)>>;

/// The model of the names and values in a query.
pub open spec fn query_model(query: Seq<(String, String)>) -> Seq<(Text, Text)> {
    query.map_values(|p: (String, String)| (p.0@, p.1@))
}

impl View for HttpRequest {
    type V = HttpRequestModel;

    open spec fn view(&self) -> HttpRequestModel {
        HttpRequest {
            method: self.method,
            url: self.url@,
            query: query_model(self.query@),
            body: self.body@,
        }
    }
}

/// The address of a path of the service: one slash stands between the two, however many slashes
/// the base ends with.
pub open spec fn endpoint_url(base_url: Text, path: Text) -> Text {
    without_end_slashes(base_url) + "/"@ + path
}

/// A request that has everything in its query.
pub open spec fn get_request(
    base_url: Text,
    path: Text,
    query: Seq<(Text, Text)>,
) -> HttpRequestModel {
    HttpRequest {
        method: Method::Get,
        url: endpoint_url(base_url, path),
        query,
        body: JsonBody::Empty,
    }
}

/// A request that has everything in its body.
pub open spec fn post_request(
    base_url: Text,
    path: Text,
    body: JsonBody<Text>,
) -> HttpRequestModel {
    HttpRequest {
        method: Method::Post,
        url: endpoint_url(base_url, path),
        query: Seq::empty(),
        body,
    }
}

/// A request that posts a new value for a field of the profile.
pub open spec fn change_request(
    base_url: Text,
    path: Text,
    session_tocken: Text,
    new_value: Text,
) -> HttpRequestModel {
    post_request(
        base_url,
        path,
        JsonBody::Change(ChangeAnyThingPayload { session_tocken, new_value }),
    )
}

/// The request for the user that a session belongs to.
pub open spec fn user_request(base_url: Text, session_tocken: Text) -> HttpRequestModel {
    post_request(
        base_url,
        "sessionuserinfo"@,
        JsonBody::Session(SessionPayload { session_tocken }),
    )
}

/// The request for the profile of a user.
pub open spec fn profile_request(
    base_url: Text,
    session_tocken: Text,
    username: Text,
) -> HttpRequestModel {
    get_request(
        base_url,
        "getuserinfo"@,
        seq![("session_tocken"@, session_tocken), ("username"@, username)],
    )
}

/// The request that says whether the user of a session is online.
pub open spec fn presence_request(
    base_url: Text,
    online: bool,
    session_tocken: Text,
) -> HttpRequestModel {
    get_request(
        base_url,
        if online {
            "online"@
        } else {
            "offline"@
        },
        seq![("session_tocken"@, session_tocken)],
    )
}

fn pair(name: &str, value: &str) -> (r: (String, String))
    ensures
        r.0@ == name@,
        r.1@ == value@,
{
    (name.to_owned(), value.to_owned())
}

/// The authorization service at an address.
#[derive(Debug, PartialEq, Eq)]
pub struct AuthClient {
    pub base_url: String,
}

impl AuthClient {
    /// The service at `base_url`.
    pub fn new(base_url: String) -> (r: Self)
        ensures
            r.base_url == base_url,
    {
        AuthClient { base_url }
    }

    /// The address of a path of the service.
    pub fn endpoint(&self, path: &str) -> (r: String)
        ensures
            r@ == endpoint_url(self.base_url@, path@),
    {
        trim_end_slashes(self.base_url.as_str()).concat("/").concat(path)
    }

    fn get(&self, path: &str, query: Vec<(String, String)>) -> (r: HttpRequest)
        ensures
            r@ == get_request(self.base_url@, path@, query_model(query@)),
    {
        HttpRequest { method: Method::Get, url: self.endpoint(path), query, body: JsonBody::Empty }
    }

    fn post(&self, path: &str, body: JsonBody) -> (r: HttpRequest)
        ensures
            r@ == post_request(self.base_url@, path@, body@),
    {
        let query: Vec<(String, String)> = Vec::new();
        assert(query_model(query@) =~= Seq::empty());
        HttpRequest { method: Method::Post, url: self.endpoint(path), query, body }
    }

    fn change(&self, path: &str, session_tocken: &str, new_value: &str) -> (r: HttpRequest)
        ensures
            r@ == change_request(self.base_url@, path@, session_tocken@, new_value@),
    {
        self.post(
            path,
            JsonBody::Change(
                ChangeAnyThingPayload {
                    session_tocken: session_tocken.to_owned(),
                    new_value: new_value.to_owned(),
                },
            ),
        )
    }

    /// Registers a user with an email address and a phone number.
    pub fn register_full(
        &self,
        username: &str,
        password: &str,
        email: &str,
        phone_number: &str,
    ) -> (r: HttpRequest)
        ensures
            r@ == get_request(
                self.base_url@,
                "adduser"@,
                seq![
                    ("username"@, username@),
                    ("password"@, password@),
                    ("email"@, email@),
                    ("phone_number"@, phone_number@),
                ],
            ),
    {
        let query: Vec<(String, String)> = vec![
            pair("username", username),
            pair("password", password),
            pair("email", email),
            pair("phone_number", phone_number),
        ];
        assert(query_model(query@) =~= seq![
            ("username"@, username@),
            ("password"@, password@),
            ("email"@, email@),
            ("phone_number"@, phone_number@),
        ]);
        self.get("adduser", query)
    }

    /// Registers a user with an email address only.
    pub fn register_email_only(&self, username: &str, password: &str, email: &str) -> (r:
        HttpRequest)
        ensures
            r@ == get_request(
                self.base_url@,
                "adduserwithoutphone"@,
                seq![("username"@, username@), ("password"@, password@), ("email"@, email@)],
            ),
    {
        let query: Vec<(String, String)> = vec![
            pair("username", username),
            pair("password", password),
            pair("email", email),
        ];
        assert(query_model(query@) =~= seq![
            ("username"@, username@),
            ("password"@, password@),
            ("email"@, email@),
        ]);
        self.get("adduserwithoutphone", query)
    }

    /// Registers a user with a phone number only.
    pub fn register_phone_only(&self, username: &str, password: &str, phone_number: &str) -> (r:
        HttpRequest)
        ensures
            r@ == post_request(
                self.base_url@,
                "adduserwithoutemail"@,
                JsonBody::Phone(
                    PhoneRegistration {
                        username: username@,
                        password: password@,
                        phone_number: phone_number@,
                    },
                ),
            ),
    {
        self.post(
            "adduserwithoutemail",
            JsonBody::Phone(
                PhoneRegistration {
                    username: username.to_owned(),
                    password: password.to_owned(),
                    phone_number: phone_number.to_owned(),
                },
            ),
        )
    }

    /// Logs a user in for `live_time` seconds.
    pub fn login(
        &self,
        login_type: &str,
        login_details: &str,
        password: &str,
        live_time: i32,
    ) -> (r: HttpRequest)
        ensures
            r@ == post_request(
                self.base_url@,
                "login"@,
                JsonBody::Login(
                    LoginRequest {
                        login_type: login_type@,
                        login_details: login_details@,
                        password: password@,
                        live_time,
                    },
                ),
            ),
    {
        self.post(
            "login",
            JsonBody::Login(
                LoginRequest {
                    login_type: login_type.to_owned(),
                    login_details: login_details.to_owned(),
                    password: password.to_owned(),
                    live_time,
                },
            ),
        )
    }

    /// Asks who a session belongs to.
    pub fn session_user_info(&self, session_tocken: &str) -> (r: HttpRequest)
        ensures
            r@ == user_request(self.base_url@, session_tocken@),
    {
        self.post(
            "sessionuserinfo",
            JsonBody::Session(SessionPayload { session_tocken: session_tocken.to_owned() }),
        )
    }

    /// Asks for the profile of a user.
    pub fn get_user_info(&self, session_tocken: &str, username: &str) -> (r: HttpRequest)
        ensures
            r@ == profile_request(self.base_url@, session_tocken@, username@),
    {
        let query: Vec<(String, String)> = vec![
            pair("session_tocken", session_tocken),
            pair("username", username),
        ];
        assert(query_model(query@) =~= seq![
            ("session_tocken"@, session_tocken@),
            ("username"@, username@),
        ]);
        self.get("getuserinfo", query)
    }

    /// Changes the name of the user.
    pub fn change_username(&self, session_tocken: &str, new_value: &str) -> (r: HttpRequest)
        ensures
            r@ == get_request(
                self.base_url@,
                "changeusername"@,
                seq![("session_tocken"@, session_tocken@), ("new_value"@, new_value@)],
            ),
    {
        let query: Vec<(String, String)> = vec![
            pair("session_tocken", session_tocken),
            pair("new_value", new_value),
        ];
        assert(query_model(query@) =~= seq![
            ("session_tocken"@, session_tocken@),
            ("new_value"@, new_value@),
        ]);
        self.get("changeusername", query)
    }

    /// Changes the first name in the profile.
    pub fn change_first_name(&self, session_tocken: &str, new_value: &str) -> (r: HttpRequest)
        ensures
            r@ == change_request(
                self.base_url@,
                "changefirstname"@,
                session_tocken@,
                new_value@,
            ),
    {
        self.change("changefirstname", session_tocken, new_value)
    }

    /// Changes the last name in the profile.
    pub fn change_last_name(&self, session_tocken: &str, new_value: &str) -> (r: HttpRequest)
        ensures
            r@ == change_request(self.base_url@, "changelastname"@, session_tocken@, new_value@),
    {
        self.change("changelastname", session_tocken, new_value)
    }

    /// Changes the date of birth in the profile.
    pub fn change_birth_date(&self, session_tocken: &str, new_value: &str) -> (r: HttpRequest)
        ensures
            r@ == change_request(
                self.base_url@,
                "changedateofbirth"@,
                session_tocken@,
                new_value@,
            ),
    {
        self.change("changedateofbirth", session_tocken, new_value)
    }

    /// Changes the additional information in the profile.
    pub fn change_additional_info(&self, session_tocken: &str, new_value: &str) -> (r: HttpRequest)
        ensures
            r@ == change_request(
                self.base_url@,
                "changeadditionalinfo"@,
                session_tocken@,
                new_value@,
            ),
    {
        self.change("changeadditionalinfo", session_tocken, new_value)
    }

    fn presence(&self, path: &str, session_tocken: &str) -> (r: HttpRequest)
        ensures
            r@ == get_request(
                self.base_url@,
                path@,
                seq![("session_tocken"@, session_tocken@)],
            ),
    {
        let query: Vec<(String, String)> = vec![pair("session_tocken", session_tocken)];
        assert(query_model(query@) =~= seq![("session_tocken"@, session_tocken@)]);
        self.get(path, query)
    }

    /// Marks the user of a session as online.
    pub fn set_online(&self, session_tocken: &str) -> (r: HttpRequest)
        ensures
            r@ == presence_request(self.base_url@, true, session_tocken@),
    {
        self.presence("online", session_tocken)
    }

    /// Marks the user of a session as offline.
    pub fn set_offline(&self, session_tocken: &str) -> (r: HttpRequest)
        ensures
            r@ == presence_request(self.base_url@, false, session_tocken@),
    {
        self.presence("offline", session_tocken)
    }
}

/// What the service says went wrong, where its reply says so in JSON.
#[derive(Debug, PartialEq, Eq)]
pub struct ErrorResponse<S = String> {
    pub error: S,
}

/// How a request went. A reply that arrived has its status and its body, and the error that the
/// body holds, if it is the JSON of one.
#[derive(Debug, PartialEq, Eq)]
pub enum HttpReply<S = String> {
    NotSent(S),
    NotRead(S),
    Received { status: u16, body: S, error: Option<ErrorResponse<S>> },
}

/// The model of the error that a body holds.
pub open spec fn error_model(o: Option<ErrorResponse>) -> Option<ErrorResponse<Text>> {
    match o {
        Some(e) => Some(ErrorResponse { error: e.error@ }),
        None => None,
    }
}

impl View for HttpReply {
    type V = HttpReply<Text>;

    open spec fn view(&self) -> HttpReply<Text> {
        match *self {
            HttpReply::NotSent(e) => HttpReply::NotSent(e@),
            HttpReply::NotRead(e) => HttpReply::NotRead(e@),
            HttpReply::Received { status, body, error } => HttpReply::Received {
                status,
                body: body@,
                error: error_model(error),
            },
        }
    }
}

/// Calls `reqwest::StatusCode::is_success` on the status with the given number. The contract
/// claims that it holds of the numbers from 200 to 299 and of no other; a number that is no
/// status at all is no success either.
#[verifier::external_body]
fn is_success(status: u16) -> (r: bool)
    ensures
        r == (200 <= status <= 299),
{
    match reqwest::StatusCode::from_u16(status) {
        Ok(code) => code.is_success(),
        Err(_) => false,
    }
}

/// What a failed reply is reported as: the error that its body names, or else the body itself, or
/// a mark in place of a blank body.
pub open spec fn failure_detail(body: Text, error: Option<ErrorResponse<Text>>) -> Text {
    if error is Some && trimmed(error->0.error).len() > 0 {
        error->0.error
    } else if trimmed(body).len() == 0 {
        "<empty-body>"@
    } else {
        body
    }
}

/// Whether a reply is a success, or else the message for the failure.
pub open spec fn status_outcome(
    status: u16,
    body: Text,
    error: Option<ErrorResponse<Text>>,
) -> Result<(), Text> {
    if 200 <= status <= 299 {
        Ok(())
    } else {
        Err("http "@ + decimal(status as nat) + ": "@ + failure_detail(body, error))
    }
}

/// The body of a successful reply, or else the message for the failure.
pub open spec fn plain_body(reply: HttpReply<Text>) -> Result<Text, Text> {
    match reply {
        HttpReply::NotSent(e) => Err("request failed: "@ + e),
        HttpReply::NotRead(e) => Err("read response failed: "@ + e),
        HttpReply::Received { status, body, error } => match status_outcome(status, body, error) {
            Ok(()) => Ok(body),
            Err(text) => Err(text),
        },
    }
}

/// Whether a reply is a success whose body is the word "ok", or else the message for the failure.
pub open spec fn plain_ok(reply: HttpReply<Text>) -> Result<(), Text> {
    match plain_body(reply) {
        Ok(body) => if same_ignoring_case(trimmed(body), "ok"@) {
            Ok(())
        } else {
            Err("unexpected response body: "@ + body)
        },
        Err(text) => Err(text),
    }
}

/// The value that the body of a successful reply holds, or else the message for the failure.
/// `parsed` is what came of reading the body as JSON.
pub open spec fn json_outcome<T>(
    reply: HttpReply<Text>,
    parsed: Result<T, Text>,
) -> Result<T, Text> {
    match plain_body(reply) {
        Ok(body) => match parsed {
            Ok(value) => Ok(value),
            Err(e) => Err("json parse failed: "@ + e + "; body="@ + body),
        },
        Err(text) => Err(text),
    }
}

/// Accepts a successful status; otherwise gives the message for the failure.
pub fn ensure_status_ok(status: u16, body: &str, error: &Option<ErrorResponse>) -> (r: Result<
    (),
    String,
>)
    ensures
        outcome_text(r) == status_outcome(status, body@, error_model(*error)),
{
    if is_success(status) {
        return Ok(());
    }
    let prefix = "http ".to_owned().concat(decimal_text(status as usize).as_str()).concat(": ");
    if let Some(payload) = error {
        if !trim(payload.error.as_str()).is_empty() {
            return Err(prefix.concat(payload.error.as_str()));
        }
    }
    let fallback = if trim(body).is_empty() {
        "<empty-body>"
    } else {
        body
    };
    Err(prefix.concat(fallback))
}

/// The body of a successful reply.
pub fn parse_plain_success(reply: HttpReply) -> (r: Result<String, String>)
    ensures
        match plain_body(reply@) {
            Ok(body) => r matches Ok(b) && b@ == body,
            Err(text) => r matches Err(e) && e@ == text,
        },
{
    match reply {
        HttpReply::NotSent(e) => Err("request failed: ".to_owned().concat(e.as_str())),
        HttpReply::NotRead(e) => Err("read response failed: ".to_owned().concat(e.as_str())),
        HttpReply::Received { status, body, error } => match ensure_status_ok(
            status,
            body.as_str(),
            &error,
        ) {
            Ok(()) => Ok(body),
            Err(text) => Err(text),
        },
    }
}

/// Accepts a successful reply whose body is the word "ok", in any case and with blanks around it.
pub fn ensure_ok_plain(reply: HttpReply) -> (r: Result<(), String>)
    ensures
        outcome_text(r) == plain_ok(reply@),
{
    match parse_plain_success(reply) {
        Ok(body) => if eq_ignore_ascii_case(trim(body.as_str()), "ok") {
            Ok(())
        } else {
            Err("unexpected response body: ".to_owned().concat(body.as_str()))
        },
        Err(text) => Err(text),
    }
}

/// The value in the body of a successful reply. `parsed` is what came of reading the body as JSON.
pub fn parse_json_success<T>(reply: HttpReply, parsed: Result<T, String>) -> (r: Result<T, String>)
    ensures
        match plain_body(reply@) {
            Ok(body) => match parsed {
                Ok(value) => r == Ok::<T, String>(value),
                Err(e) => r matches Err(text) && text@ == "json parse failed: "@ + e@ + "; body="@
                    + body,
            },
            Err(e) => r matches Err(text) && text@ == e,
        },
{
    match parse_plain_success(reply) {
        Ok(body) => match parsed {
            Ok(value) => Ok(value),
            Err(e) => Err(
                "json parse failed: ".to_owned().concat(e.as_str()).concat("; body=").concat(
                    body.as_str(),
                ),
            ),
        },
        Err(text) => Err(text),
    }
}

/// A slash at the end of the base address makes no difference to the address of a path.
pub proof fn endpoint_ignores_end_slashes(base_url: Text, path: Text)
    ensures
        endpoint_url(base_url.push('/'), path) == endpoint_url(base_url, path),
{
    assert(base_url.push('/').drop_last() =~= base_url);
}

/// A reply counts as the plain confirmation exactly if it arrived with a success status and its
/// body is the word "ok", up to case and to blanks around it.
pub proof fn only_ok_confirms(reply: HttpReply<Text>)
    ensures
        plain_ok(reply) is Ok <==> (reply matches HttpReply::Received { status, body, .. } && 200
            <= status <= 299 && same_ignoring_case(trimmed(body), "ok"@)),
{
}

/// A reply with another status is never taken for a success, whatever its body holds, and every
/// such report starts with the number of the status.
pub proof fn refused_replies_name_their_status(
    status: u16,
    body: Text,
    error: Option<ErrorResponse<Text>>,
)
    requires
        !(200 <= status <= 299),
    ensures
        ({
            let reply = HttpReply::Received { status, body, error };
            let report = "http "@ + decimal(status as nat) + ": "@ + failure_detail(body, error);
            &&& plain_ok(reply) == Err::<(), Text>(report)
            &&& plain_body(reply) == Err::<Text, Text>(report)
            &&& failure_detail(body, error).len() > 0
        }),
{
    reveal_strlit("<empty-body>");
    if trimmed(body).len() > 0 {
        trimming_twice_is_trimming_once(body);
    }
    if error is Some {
        trimming_twice_is_trimming_once(error->0.error);
    }
}

/// A path is joined to the base with one slash, however many slashes the base ends with, and both
/// are kept whole.
pub proof fn addresses_join_with_one_slash(base: Text, slashes: Text, path: Text)
    requires
        base.len() > 0 ==> base.last() != '/',
        forall|i: int| 0 <= i < slashes.len() ==> #[trigger] slashes[i] == '/',
    ensures
        endpoint_url(base + slashes, path) == base + seq!['/'] + path,
{
    only_end_slashes_are_removed(base, slashes);
    reveal_strlit("/");
    assert("/"@ =~= seq!['/']);
}

/// A request holds the path, the query and the body that it is given, and nothing else: a query is
/// got, a body is posted.
pub proof fn requests_hold_what_they_are_given(
    base_url: Text,
    path: Text,
    query: Seq<(Text, Text)>,
    body: JsonBody<Text>,
)
    ensures
        ({
            let got = get_request(base_url, path, query);
            &&& got.method == Method::Get
            &&& got.url == endpoint_url(base_url, path)
            &&& got.query == query
            &&& got.body == JsonBody::<Text>::Empty
        }),
        ({
            let posted = post_request(base_url, path, body);
            &&& posted.method == Method::Post
            &&& posted.url == endpoint_url(base_url, path)
            &&& posted.query.len() == 0
            &&& posted.body == body
        }),
{
}

/// The requests that carry a session carry its token, with the user or the value that they are
/// about.
pub proof fn requests_carry_the_token(base_url: Text, path: Text, token: Text, value: Text)
    ensures
        change_request(base_url, path, token, value).url == endpoint_url(base_url, path),
        change_request(base_url, path, token, value).body == JsonBody::Change(
            (ChangeAnyThingPayload { session_tocken: token, new_value: value }),
        ),
        user_request(base_url, token).url == endpoint_url(base_url, "sessionuserinfo"@),
        user_request(base_url, token).body == JsonBody::Session(
            (SessionPayload { session_tocken: token }),
        ),
        profile_request(base_url, token, value).url == endpoint_url(base_url, "getuserinfo"@),
        profile_request(base_url, token, value).query == seq![
            ("session_tocken"@, token),
            ("username"@, value),
        ],
        presence_request(base_url, true, token).url == endpoint_url(base_url, "online"@),
        presence_request(base_url, false, token).url == endpoint_url(base_url, "offline"@),
        presence_request(base_url, true, token).query == seq![("session_tocken"@, token)],
        presence_request(base_url, false, token).query == seq![("session_tocken"@, token)],
{
}

/// A request that was not sent, or whose reply could not be read, fails with the whole of the
/// reason, whatever the reply was wanted for.
pub proof fn lost_replies_give_the_reason(reason: Text, parsed: Result<Text, Text>)
    ensures
        ({
            let unsent = HttpReply::NotSent(reason);
            let unread = HttpReply::NotRead(reason);
            &&& plain_body(unsent) == Err::<Text, Text>("request failed: "@ + reason)
            &&& plain_ok(unsent) == Err::<(), Text>("request failed: "@ + reason)
            &&& json_outcome(unsent, parsed) == Err::<Text, Text>("request failed: "@ + reason)
            &&& plain_body(unread) == Err::<Text, Text>("read response failed: "@ + reason)
            &&& plain_ok(unread) == Err::<(), Text>("read response failed: "@ + reason)
            &&& json_outcome(unread, parsed) == Err::<Text, Text>(
                "read response failed: "@ + reason,
            )
        }),
{
}

/// A refused reply is reported with its status and with the whole of the error that it names; where
/// that is blank or missing, with the whole body; and where that is blank too, with a mark.
pub proof fn refusals_give_the_error_or_the_body(
    status: u16,
    body: Text,
    error: Option<ErrorResponse<Text>>,
    parsed: Result<Text, Text>,
)
    requires
        status < 200 || status > 299,
    ensures
        ({
            let reply = HttpReply::Received { status, body, error };
            let named = error matches Some(e) && trimmed(e.error).len() > 0;
            let detail = if named {
                error->0.error
            } else if trimmed(body).len() > 0 {
                body
            } else {
                "<empty-body>"@
            };
            let report = "http "@ + decimal(status as nat) + ": "@ + detail;
            &&& status_outcome(status, body, error) == Err::<(), Text>(report)
            &&& plain_body(reply) == Err::<Text, Text>(report)
            &&& plain_ok(reply) == Err::<(), Text>(report)
            &&& json_outcome(reply, parsed) == Err::<Text, Text>(report)
        }),
{
}

/// A successful reply is its body, whole and untrimmed; it confirms where it is the word "ok"; and
/// it is the value that was read from it, or a report with the reason and the whole body.
pub proof fn successes_give_the_body(
    status: u16,
    body: Text,
    error: Option<ErrorResponse<Text>>,
    value: Text,
    reason: Text,
)
    requires
        200 <= status <= 299,
    ensures
        ({
            let reply = HttpReply::Received { status, body, error };
            &&& status_outcome(status, body, error) == Ok::<(), Text>(())
            &&& plain_body(reply) == Ok::<Text, Text>(body)
            &&& plain_ok(reply) == if same_ignoring_case(trimmed(body), "ok"@) {
                Ok::<(), Text>(())
            } else {
                Err("unexpected response body: "@ + body)
            }
            &&& json_outcome(reply, Ok::<Text, Text>(value)) == Ok::<Text, Text>(value)
            &&& json_outcome(reply, Err::<Text, Text>(reason)) == Err::<Text, Text>(
                "json parse failed: "@ + reason + "; body="@ + body,
            )
        }),
{
}

/// What came of reading a body matters only where the reply is a success, whatever it is read as.
pub proof fn only_successes_are_read<T>(reply: HttpReply<Text>, parsed: Result<T, Text>)
    ensures
        plain_body(reply) matches Err(e) ==> json_outcome(reply, parsed) == Err::<T, Text>(e),
        plain_body(reply) matches Ok(body) ==> match parsed {
            Ok(value) => json_outcome(reply, parsed) == Ok::<T, Text>(value),
            Err(e) => json_outcome(reply, parsed) == Err::<T, Text>(
                "json parse failed: "@ + e + "; body="@ + body,
            ),
        },
{
}

/// The model of a request and of a reply holds every part of it as it is.
pub proof fn models_hold_requests_and_replies(request: HttpRequest, reply: HttpReply, i: int)
    ensures
        request@.method == request.method,
        request@.url == request.url@,
        request@.query.len() == request.query@.len(),
        0 <= i < request.query@.len() ==> request@.query[i] == (
            request.query@[i].0@,
            request.query@[i].1@,
        ),
        match request.body {
            JsonBody::Empty => request@.body is Empty,
            JsonBody::Phone(p) => request@.body matches JsonBody::Phone(q) && q.username
                == p.username@ && q.password == p.password@ && q.phone_number == p.phone_number@,
            JsonBody::Login(l) => request@.body matches JsonBody::Login(q) && q.login_type
                == l.login_type@ && q.login_details == l.login_details@ && q.password == l.password@
                && q.live_time == l.live_time,
            JsonBody::Session(s) => request@.body matches JsonBody::Session(q) && q.session_tocken
                == s.session_tocken@,
            JsonBody::Change(c) => request@.body matches JsonBody::Change(q) && q.session_tocken
                == c.session_tocken@ && q.new_value == c.new_value@,
        },
        match reply {
            HttpReply::NotSent(e) => reply@ == HttpReply::NotSent(e@),
            HttpReply::NotRead(e) => reply@ == HttpReply::NotRead(e@),
            HttpReply::Received { status, body, error } => {
                &&& reply@ matches HttpReply::Received { status: s, body: b, error: e }
                &&& s == status
                &&& b == body@
                &&& error is Some <==> e is Some
                &&& error is Some ==> e->0.error == error->0.error@
            },
        },
{
}

} // verus!
