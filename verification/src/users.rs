//! The model `users`: its typed payload, its validator and its actions.

use crate::envelope::ApiRequest;
use crate::envelope::EnvelopeView;
use crate::envelope::Fault;
use crate::json::Json;
use crate::json::JsonView;
use crate::method::Method;
use crate::outside::debug_form;
use crate::outside::debug_quoted;
use crate::response::rendered;
use crate::response::respond;
use crate::response::result_view;
use crate::response::Response;
use crate::response::ResponseView;
use crate::text::same_text;
use vstd::prelude::*;

verus! {

/// A user's credentials. A validator returns them whole or not at all: a
/// value holds a user name and a password, neither of them empty, or it is
/// blank and holds neither.
#[derive(Debug)]
pub struct Users {
    username: String,
    password: String,
}

/// The mathematical value of `Users`.
pub struct UsersView {
    pub username: Seq<char>,
    pub password: Seq<char>,
}

impl View for Users {
    type V = UsersView;

    closed spec fn view(&self) -> UsersView {
        UsersView { username: self.username@, password: self.password@ }
    }
}

/// What a payload holds under a key, as far as a validator asks.
pub enum Field {
    Missing,
    NotText,
    Empty,
    Valid(Seq<char>),
}

/// The field `key` of `payload`.
pub open spec fn field(payload: JsonView, key: Seq<char>) -> Field {
    match payload.member(key) {
        None => Field::Missing,
        Some(value) => match value.text() {
            None => Field::NotText,
            Some(s) => if s.len() == 0 {
                Field::Empty
            } else {
                Field::Valid(s)
            },
        },
    }
}

/// What is wrong with the field called `label`, where it is not valid.
pub open spec fn complaint(label: Seq<char>, found: Field) -> Fault {
    match found {
        Field::Missing => (label + " is not given"@, 400u16),
        Field::NotText => (label + " is not a string"@, 400u16),
        _ => (label + " can't be empty"@, 400u16),
    }
}

/// The credentials that `payload` holds, or the first thing wrong with
/// it: the user name is looked at before the password.
pub open spec fn validated(payload: JsonView) -> Result<UsersView, Fault> {
    match field(payload, "username"@) {
        Field::Valid(username) => match field(payload, "password"@) {
            Field::Valid(password) => Ok(UsersView { username, password }),
            found => Err(complaint("Password"@, found)),
        },
        found => Err(complaint("Username"@, found)),
    }
}

/// The outcome of a validation, as a mathematical value.
pub open spec fn validation_view(r: Result<Users, (String, u16)>) -> Result<UsersView, Fault> {
    match r {
        Ok(u) => Ok(u@),
        Err(f) => Err((f.0@, f.1)),
    }
}

/// What `{:?}` prints for credentials, given what it prints for the two
/// strings.
pub open spec fn shown_with(username: Seq<char>, password: Seq<char>) -> Seq<char> {
    "Users { username: "@ + username + ", password: "@ + password + " }"@
}

/// What `{:?}` prints for credentials.
pub open spec fn shown(data: UsersView) -> Seq<char> {
    shown_with(debug_form(data.username), debug_form(data.password))
}

/// The text that confirms a call.
pub open spec fn confirmation(model: Seq<char>, action: Seq<char>, data: Seq<char>) -> Seq<char> {
    "called endpoint \""@ + model + "/"@ + action + "\" with data: "@ + data
}

/// The outcome of an action, given the text that shows the data. The
/// method is looked at first: an action is unknown only under a method
/// that the model allows.
pub open spec fn dispatched(
    method: Method,
    model: Seq<char>,
    action: Seq<char>,
    data: Seq<char>,
) -> Result<JsonView, Fault> {
    match method {
        Method::Get | Method::Post => if action == "login"@ {
            Ok(JsonView::Text(confirmation(model, action, data)))
        } else {
            Err(("Unknown action \""@ + action + "\""@, 404u16))
        },
        _ => Err(
            (
                "Method \""@ + method.spec_name() + "\" not allowed on endpoint \""@ + model + "/"@
                    + action + "\""@,
                405u16,
            ),
        ),
    }
}

/// The typed envelope of an untyped one. An error that is already there
/// stays, and the payload is then not looked at.
pub open spec fn typed(basic: EnvelopeView<JsonView>) -> EnvelopeView<UsersView> {
    let checked = match basic.error {
        Some(fault) => Err(fault),
        None => validated(basic.data),
    };
    EnvelopeView {
        model: basic.model,
        action: basic.action,
        method: basic.method,
        error: match checked {
            Ok(_) => None,
            Err(fault) => Some(fault),
        },
        data: match checked {
            Ok(data) => data,
            Err(_) => Users::blank(),
        },
        path: basic.path,
    }
}

/// The outcome of a typed envelope: its error where it has one, the
/// outcome of its action otherwise.
pub open spec fn answered(request: EnvelopeView<UsersView>) -> Result<JsonView, Fault> {
    match request.error {
        Some(fault) => Err(fault),
        None => dispatched(request.method, request.model, request.action, shown(request.data)),
    }
}

/// The response to a typed envelope.
pub open spec fn evaluated(request: EnvelopeView<UsersView>) -> ResponseView {
    rendered(answered(request))
}

/// Two texts that begin alike and differ in length are different.
proof fn lemma_longer_differs(label: Seq<char>, a: Seq<char>, b: Seq<char>)
    requires
        a.len() != b.len(),
    ensures
        label + a != label + b,
{
    assert((label + a).len() == label.len() + a.len());
    assert((label + b).len() == label.len() + b.len());
}

/// Valid credentials are accepted as they are: a payload whose `username`
/// and `password` are strings that are not empty validates to exactly
/// those two.
pub proof fn lemma_valid_credentials_accepted(
    payload: JsonView,
    username: Seq<char>,
    password: Seq<char>,
)
    requires
        payload.member("username"@) == Some(JsonView::Text(username)),
        payload.member("password"@) == Some(JsonView::Text(password)),
        username.len() > 0,
        password.len() > 0,
    ensures
        validated(payload) == Ok::<UsersView, Fault>(UsersView { username, password }),
{
}

/// Validation succeeds on valid credentials only.
pub proof fn lemma_accepted_credentials_are_valid(payload: JsonView)
    requires
        validated(payload) is Ok,
    ensures
        payload.member("username"@) == Some(JsonView::Text(validated(payload)->Ok_0.username)),
        payload.member("password"@) == Some(JsonView::Text(validated(payload)->Ok_0.password)),
        validated(payload)->Ok_0.username.len() > 0,
        validated(payload)->Ok_0.password.len() > 0,
{
}

/// A payload without a valid `username` is rejected with status 400 and a
/// message that tells the three ways of being invalid apart, whatever the
/// password is.
pub proof fn lemma_bad_username_rejected(payload: JsonView)
    ensures
        payload.member("username"@) is None ==> validated(payload) == Err::<UsersView, Fault>(
            ("Username is not given"@, 400u16),
        ),
        payload.member("username"@) matches Some(v) && v.text() is None ==> validated(payload)
            == Err::<UsersView, Fault>(("Username is not a string"@, 400u16)),
        payload.member("username"@) == Some(JsonView::Text(Seq::empty())) ==> validated(payload)
            == Err::<UsersView, Fault>(("Username can't be empty"@, 400u16)),
        "Username is not given"@ != "Username is not a string"@,
        "Username is not given"@ != "Username can't be empty"@,
        "Username is not a string"@ != "Username can't be empty"@,
{
    lemma_complaints_differ("Username"@);
    reveal_strlit("Username");
    reveal_strlit(" is not given");
    reveal_strlit(" is not a string");
    reveal_strlit(" can't be empty");
    reveal_strlit("Username is not given");
    reveal_strlit("Username is not a string");
    reveal_strlit("Username can't be empty");
    assert("Username"@ + " is not given"@ =~= "Username is not given"@);
    assert("Username"@ + " is not a string"@ =~= "Username is not a string"@);
    assert("Username"@ + " can't be empty"@ =~= "Username can't be empty"@);
}

/// Behind a valid `username`, a payload without a valid `password` is
/// rejected in the same three ways.
pub proof fn lemma_bad_password_rejected(payload: JsonView)
    requires
        payload.member("username"@) matches Some(JsonView::Text(username)) && username.len() > 0,
    ensures
        payload.member("password"@) is None ==> validated(payload) == Err::<UsersView, Fault>(
            ("Password is not given"@, 400u16),
        ),
        payload.member("password"@) matches Some(v) && v.text() is None ==> validated(payload)
            == Err::<UsersView, Fault>(("Password is not a string"@, 400u16)),
        payload.member("password"@) == Some(JsonView::Text(Seq::empty())) ==> validated(payload)
            == Err::<UsersView, Fault>(("Password can't be empty"@, 400u16)),
        "Password is not given"@ != "Password is not a string"@,
        "Password is not given"@ != "Password can't be empty"@,
        "Password is not a string"@ != "Password can't be empty"@,
{
    lemma_complaints_differ("Password"@);
    reveal_strlit("Password");
    reveal_strlit(" is not given");
    reveal_strlit(" is not a string");
    reveal_strlit(" can't be empty");
    reveal_strlit("Password is not given");
    reveal_strlit("Password is not a string");
    reveal_strlit("Password can't be empty");
    assert("Password"@ + " is not given"@ =~= "Password is not given"@);
    assert("Password"@ + " is not a string"@ =~= "Password is not a string"@);
    assert("Password"@ + " can't be empty"@ =~= "Password can't be empty"@);
}

/// The three complaints about one field are three different messages.
pub proof fn lemma_complaints_differ(label: Seq<char>)
    ensures
        label + " is not given"@ != label + " is not a string"@,
        label + " is not given"@ != label + " can't be empty"@,
        label + " is not a string"@ != label + " can't be empty"@,
{
    reveal_strlit(" is not given");
    reveal_strlit(" is not a string");
    reveal_strlit(" can't be empty");
    lemma_longer_differs(label, " is not given"@, " is not a string"@);
    lemma_longer_differs(label, " is not given"@, " can't be empty"@);
    lemma_longer_differs(label, " is not a string"@, " can't be empty"@);
}

/// Under GET and POST, `login` is confirmed with the endpoint and the data,
/// and every other action is unknown.
pub proof fn lemma_login_is_the_only_action(
    method: Method,
    model: Seq<char>,
    action: Seq<char>,
    data: Seq<char>,
)
    requires
        method == Method::Get || method == Method::Post,
    ensures
        action == "login"@ ==> dispatched(method, model, action, data) == Ok::<JsonView, Fault>(
            JsonView::Text(confirmation(model, action, data)),
        ),
        action != "login"@ ==> dispatched(method, model, action, data) == Err::<JsonView, Fault>(
            ("Unknown action \""@ + action + "\""@, 404u16),
        ),
        dispatched(Method::Get, model, action, data) == dispatched(
            Method::Post,
            model,
            action,
            data,
        ),
{
}

/// Under every other method nothing is allowed, whatever the action: the
/// answer is 405, with a message that names method, model and action.
pub proof fn lemma_other_methods_are_not_allowed(
    method: Method,
    model: Seq<char>,
    action: Seq<char>,
    data: Seq<char>,
)
    requires
        method != Method::Get,
        method != Method::Post,
    ensures
        dispatched(method, model, action, data) == Err::<JsonView, Fault>(
            (
                "Method \""@ + method.spec_name() + "\" not allowed on endpoint \""@ + model
                    + "/"@ + action + "\""@,
                405u16,
            ),
        ),
        rendered(dispatched(method, model, action, data)).status == 405,
{
}

/// Typing keeps the first error: an envelope that carries one keeps it and
/// gets blank data; one that carries none gets the credentials of its
/// payload, whole, or the validator's error and blank data.
pub proof fn lemma_typing_is_all_or_nothing(basic: EnvelopeView<JsonView>)
    ensures
        basic.error is Some ==> typed(basic).error == basic.error,
        basic.error is None ==> (typed(basic).error is None <==> validated(basic.data) is Ok),
        typed(basic).error is None ==> validated(basic.data) == Ok::<UsersView, Fault>(
            typed(basic).data,
        ),
        typed(basic).error is None ==> typed(basic).data.is_whole(),
        typed(basic).error is Some ==> typed(basic).data == Users::blank(),
{
}

fn read_field(value: &Json, key: &str, label: &str) -> (r: Result<String, (String, u16)>)
    ensures
        match r {
            Ok(s) => field(value@, key@) == Field::Valid(s@),
            Err(f) => !(field(value@, key@) is Valid) && (f.0@, f.1) == complaint(
                label@,
                field(value@, key@),
            ),
        },
{
    let mut message = String::from_str(label);
    match value.get(key) {
        Some(member) => match member.as_str() {
            Some(s) => {
                if s.is_empty() {
                    message.append(" can't be empty");
                    Err((message, 400))
                } else {
                    Ok(String::from_str(s))
                }
            },
            None => {
                message.append(" is not a string");
                Err((message, 400))
            },
        },
        None => {
            message.append(" is not given");
            Err((message, 400))
        },
    }
}

/// The text that confirms a call of `action` on `model`, given the text
/// that shows the data.
pub fn confirm(model: &str, action: &str, data: &str) -> (r: String)
    ensures
        r@ == confirmation(model@, action@, data@),
{
    let mut text = String::from_str("called endpoint \"");
    text.append(model);
    text.append("/");
    text.append(action);
    text.append("\" with data: ");
    text.append(data);
    text
}

/// Performs `action` of `model` under `method`, given the text that shows
/// the data.
pub fn perform(method: Method, model: &str, action: &str, data: &str) -> (r: Result<
    Json,
    (String, u16),
>)
    ensures
        result_view(r) == dispatched(method, model@, action@, data@),
{
    match method {
        Method::Get | Method::Post => {
            if same_text(action, "login") {
                Ok(Json::Text(confirm(model, action, data)))
            } else {
                let mut message = String::from_str("Unknown action \"");
                message.append(action);
                message.append("\"");
                Err((message, 404))
            }
        },
        _ => {
            let mut message = String::from_str("Method \"");
            message.append(method.name());
            message.append("\" not allowed on endpoint \"");
            message.append(model);
            message.append("/");
            message.append(action);
            message.append("\"");
            Err((message, 405))
        },
    }
}

impl UsersView {
    /// Both the user name and the password are there.
    pub open spec fn is_whole(self) -> bool {
        self.username.len() > 0 && self.password.len() > 0
    }
}

impl Users {
    #[verifier::type_invariant]
    spec fn whole_or_blank(self) -> bool {
        self@.is_whole() || self@ == Users::blank()
    }

    /// The credentials given in place of data that failed validation.
    pub open spec fn blank() -> UsersView {
        UsersView { username: Seq::empty(), password: Seq::empty() }
    }

    /// Whether these credentials are blank. Credentials that are not blank
    /// are whole.
    pub fn is_blank(&self) -> (r: bool)
        ensures
            r == (self@ == Users::blank()),
            r == !self@.is_whole(),
    {
        proof {
            use_type_invariant(self);
        }
        self.username.as_str().is_empty()
    }

    /// The user name.
    pub fn username(&self) -> (r: &str)
        ensures
            r@ == self@.username,
    {
        self.username.as_str()
    }

    /// The password.
    pub fn password(&self) -> (r: &str)
        ensures
            r@ == self@.password,
    {
        self.password.as_str()
    }

    /// Reads credentials out of a payload: `username` and `password`, each
    /// a string that is not empty.
    pub fn validate(value: &Json) -> (r: Result<Self, (String, u16)>)
        ensures
            validation_view(r) == validated(value@),
    {
        let username = match read_field(value, "username", "Username") {
            Ok(s) => s,
            Err(fault) => {
                return Err(fault);
            },
        };
        let password = match read_field(value, "password", "Password") {
            Ok(s) => s,
            Err(fault) => {
                return Err(fault);
            },
        };
        Ok(Users { username, password })
    }

    /// What `{:?}` prints for credentials, given what it prints for the
    /// user name and for the password.
    pub fn show_with(username: &str, password: &str) -> (r: String)
        ensures
            r@ == shown_with(username@, password@),
    {
        let mut text = String::from_str("Users { username: ");
        text.append(username);
        text.append(", password: ");
        text.append(password);
        text.append(" }");
        text
    }

    /// What `{:?}` prints for these credentials.
    pub fn show(&self) -> (r: String)
        ensures
            r@ == shown(self@),
    {
        let username = debug_quoted(self.username.as_str());
        let password = debug_quoted(self.password.as_str());
        Users::show_with(username.as_str(), password.as_str())
    }
}

impl ApiRequest<Users> {
    /// Types an envelope for this model: validates the payload, unless an
    /// earlier stage has already found an error.
    pub fn from_basic(basic: ApiRequest) -> (r: Self)
        ensures
            r@ == typed(basic@),
    {
        let checked = match basic.error {
            Some(fault) => Err(fault),
            None => Users::validate(&basic.data),
        };
        match checked {
            Ok(data) => ApiRequest {
                model: basic.model,
                action: basic.action,
                method: basic.method,
                path: basic.path,
                error: None,
                data,
            },
            Err(fault) => ApiRequest {
                model: basic.model,
                action: basic.action,
                method: basic.method,
                path: basic.path,
                error: Some(fault),
                data: Users { username: String::new(), password: String::new() },
            },
        }
    }

    /// Performs the action that the envelope names, whatever its `error`
    /// holds.
    pub fn dispatch(&self) -> (r: Result<Json, (String, u16)>)
        ensures
            result_view(r) == dispatched(
                self.method,
                self.model@,
                self.action@,
                shown(self.data@),
            ),
    {
        let data = self.data.show();
        perform(self.method, self.model.as_str(), self.action.as_str(), data.as_str())
    }

    /// Answers the request: with its error where it has one, with the
    /// outcome of its action otherwise.
    pub fn evaluate(self) -> (r: Response)
        ensures
            r@ == evaluated(self@),
    {
        let outcome = match self.error {
            Some(fault) => Err(fault),
            None => self.dispatch(),
        };
        respond(outcome)
    }
}

} // verus!
