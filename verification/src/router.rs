//! The way of a request through the stages: envelope, model, validator,
//! action, response. The first error found anywhere is the answer.

use crate::envelope::decoding;
use crate::envelope::normalized;
use crate::envelope::ApiRequest;
use crate::envelope::EnvelopeView;
use crate::envelope::Fault;
use crate::envelope::RawRequest;
use crate::json::JsonView;
use crate::method::Method;
use crate::response::rendered;
use crate::response::respond;
use crate::response::Response;
use crate::response::ResponseView;
use crate::text::same_text;
use crate::users::answered;
use crate::users::confirmation;
use crate::users::shown;
use crate::users::typed;
use crate::users::validated;
use crate::users::Users;
use vstd::prelude::*;

verus! {

/// The models that the front end serves.
#[derive(Debug, Clone, Copy, PartialEq, Eq, Structural)]
pub enum Model {
    Users,
}

impl Model {
    /// The model that `name` names, if any does.
    pub open spec fn named(name: Seq<char>) -> Option<Model> {
        if name == "users"@ {
            Some(Model::Users)
        } else {
            None
        }
    }

    /// Looks a model up by its name.
    pub fn resolve(name: &str) -> (r: Option<Model>)
        ensures
            r == Model::named(name@),
    {
        if same_text(name, "users") {
            Some(Model::Users)
        } else {
            None
        }
    }
}

/// The error for a name that names no model.
pub open spec fn unknown_model(name: Seq<char>) -> Fault {
    ("Unknown model \""@ + name + "\""@, 400u16)
}

/// The outcome of an envelope: its error where it has one; the error for
/// an unknown model where its model is none; else what its model makes of
/// it.
pub open spec fn outcome(basic: EnvelopeView<JsonView>) -> Result<JsonView, Fault> {
    match basic.error {
        Some(fault) => Err(fault),
        None => match Model::named(basic.model) {
            Some(Model::Users) => answered(typed(basic)),
            None => Err(unknown_model(basic.model)),
        },
    }
}

/// The response to an envelope.
pub open spec fn routed(basic: EnvelopeView<JsonView>) -> ResponseView {
    rendered(outcome(basic))
}

/// Answers an envelope.
pub fn route(basic: ApiRequest) -> (r: Response)
    ensures
        r@ == routed(basic@),
{
    match basic.error {
        Some(fault) => respond(Err(fault)),
        None => match Model::resolve(basic.model.as_str()) {
            Some(Model::Users) => ApiRequest::<Users>::from_basic(basic).evaluate(),
            None => {
                let mut message = String::from_str("Unknown model \"");
                message.append(basic.model.as_str());
                message.append("\"");
                respond(Err((message, 400)))
            },
        },
    }
}

/// Answers a request.
pub fn api(req: RawRequest, body: String) -> (r: Response)
    ensures
        r@ == routed(normalized(req@, body@, decoding(req@, body@))),
{
    route(ApiRequest::basic(req, body))
}

/// The first error wins: an envelope that carries an error is answered
/// with that error, whatever its model, its action and its payload are.
pub proof fn lemma_first_error_wins(basic: EnvelopeView<JsonView>, fault: Fault)
    requires
        basic.error == Some(fault),
    ensures
        outcome(basic) == Err::<JsonView, Fault>(fault),
        answered(typed(basic)) == Err::<JsonView, Fault>(fault),
        routed(basic).status != 200,
{
}

/// A name that names no model is answered 400, before any validator sees
/// the payload.
pub proof fn lemma_unknown_model_is_rejected(basic: EnvelopeView<JsonView>)
    requires
        basic.error is None,
        basic.model != "users"@,
    ensures
        outcome(basic) == Err::<JsonView, Fault>(
            ("Unknown model \""@ + basic.model + "\""@, 400u16),
        ),
        routed(basic).status == 400,
{
}

/// A payload that the validator rejects is answered with the validator's
/// error, and no action is performed.
pub proof fn lemma_invalid_payload_is_rejected(basic: EnvelopeView<JsonView>)
    requires
        basic.error is None,
        basic.model == "users"@,
        validated(basic.data) is Err,
    ensures
        outcome(basic) == Err::<JsonView, Fault>(validated(basic.data)->Err_0),
        routed(basic).status == 400,
{
}

/// A GET or POST of `users/login` with valid credentials is answered 200
/// with the confirmation.
pub proof fn lemma_login_is_confirmed(basic: EnvelopeView<JsonView>)
    requires
        basic.error is None,
        basic.model == "users"@,
        basic.action == "login"@,
        basic.method == Method::Get || basic.method == Method::Post,
        validated(basic.data) is Ok,
    ensures
        outcome(basic) == Ok::<JsonView, Fault>(
            JsonView::Text(
                confirmation(basic.model, basic.action, shown(validated(basic.data)->Ok_0)),
            ),
        ),
        routed(basic).status == 200,
{
}

} // verus!
