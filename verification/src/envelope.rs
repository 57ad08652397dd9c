//! The request envelope: what a raw request is normalised into before
//! anything looks at its payload.

use crate::decode::decode_json;
use crate::decode::decode_query;
use crate::decode::outcome_view;
use crate::decode::query_outcome;
use crate::json::Json;
use crate::json::JsonView;
use crate::json::MemberView;
use crate::method::Method;
use crate::outside::parsed_json;
use crate::text::same_text;
use vstd::prelude::*;

verus! {

/// An error as it travels through the stages: a message and a status code.
pub type Fault = (Seq<char>, u16);

/// What the transport hands over of a request, as plain values: the
/// method, the path, the two route parameters where the route had them,
/// the query string, and the declared content type.
#[derive(Debug)]
pub struct RawRequest {
    pub method: Method,
    pub path: String,
    pub model: Option<String>,
    pub action: Option<String>,
    pub query: String,
    pub content_type: String,
}

/// The mathematical value of a `RawRequest`.
pub struct RawRequestView {
    pub method: Method,
    pub path: Seq<char>,
    pub model: Option<Seq<char>>,
    pub action: Option<Seq<char>>,
    pub query: Seq<char>,
    pub content_type: Seq<char>,
}

/// The characters of a string that may be absent.
pub open spec fn name_view(name: Option<String>) -> Option<Seq<char>> {
    match name {
        Some(n) => Some(n@),
        None => None,
    }
}

/// The mathematical value of an error that may be absent.
pub open spec fn fault_view(fault: Option<(String, u16)>) -> Option<Fault> {
    match fault {
        Some(f) => Some((f.0@, f.1)),
        None => None,
    }
}

impl View for RawRequest {
    type V = RawRequestView;

    open spec fn view(&self) -> RawRequestView {
        RawRequestView {
            method: self.method,
            path: self.path@,
            model: name_view(self.model),
            action: name_view(self.action),
            query: self.query@,
            content_type: self.content_type@,
        }
    }
}

/// The normalised form of a request. `data` is the payload, untyped until
/// a model's validator has read it; once `error` is set, no later stage
/// looks at `data`.
#[derive(Debug)]
pub struct ApiRequest<T = Json> {
    pub model: String,
    pub action: String,
    pub method: Method,
    pub error: Option<(String, u16)>,
    pub data: T,
    pub path: String,
}

/// The mathematical value of an `ApiRequest`.
pub struct EnvelopeView<D> {
    pub model: Seq<char>,
    pub action: Seq<char>,
    pub method: Method,
    pub error: Option<Fault>,
    pub data: D,
    pub path: Seq<char>,
}

impl<T: View> View for ApiRequest<T> {
    type V = EnvelopeView<T::V>;

    open spec fn view(&self) -> EnvelopeView<T::V> {
        EnvelopeView {
            model: self.model@,
            action: self.action@,
            method: self.method,
            error: fault_view(self.error),
            data: self.data@,
            path: self.path@,
        }
    }
}

/// A route parameter, or `unknown` where the route had none.
pub open spec fn name_or_unknown(name: Option<Seq<char>>) -> Seq<char> {
    match name {
        Some(n) => n,
        None => "unknown"@,
    }
}

/// The error of the route parameters. Where both are missing, the one
/// about the action is kept: it is found last.
pub open spec fn route_fault(model: Option<Seq<char>>, action: Option<Seq<char>>) -> Option<Fault> {
    if action is None {
        Some(("No action given"@, 400u16))
    } else if model is None {
        Some(("No model given"@, 400u16))
    } else {
        None
    }
}

/// Whether a request's payload is read by a decoder: the query string of a
/// GET, and the body of a POST that declares `application/json`.
pub open spec fn is_decoded(method: Method, content_type: Seq<char>) -> bool {
    method == Method::Get || (method == Method::Post && content_type == "application/json"@)
}

/// The payload of a PUT: the body as a file, with its name and type.
pub open spec fn upload(path: Seq<char>, body: Seq<char>, content_type: Seq<char>) -> JsonView {
    JsonView::Object(
        seq![
            MemberView { key: "filename"@, value: JsonView::Text(path) },
            MemberView { key: "content"@, value: JsonView::Text(body) },
            MemberView { key: "mime"@, value: JsonView::Text(content_type) },
        ],
    )
}

/// The payload of a request, given what the decoder made of it.
pub open spec fn payload(
    req: RawRequestView,
    body: Seq<char>,
    outcome: Result<JsonView, Seq<char>>,
) -> JsonView {
    if is_decoded(req.method, req.content_type) {
        match outcome {
            Ok(v) => v,
            Err(_) => JsonView::Null,
        }
    } else if req.method == Method::Put {
        upload(req.path, body, req.content_type)
    } else {
        JsonView::Null
    }
}

/// The error of a request's payload, given what the decoder made of it.
/// A POST that declares another content type is answered with a message
/// that names the method.
pub open spec fn payload_fault(req: RawRequestView, outcome: Result<JsonView, Seq<char>>) -> Option<
    Fault,
> {
    if is_decoded(req.method, req.content_type) {
        match outcome {
            Ok(_) => None,
            Err(details) => Some(("Error parsing: "@ + details, 400u16)),
        }
    } else {
        match req.method {
            Method::Post => Some(
                ("Content Type \""@ + Method::Post.spec_name() + "\" not implemented"@, 501u16),
            ),
            Method::Put | Method::Delete => None,
            _ => Some(("Not implemented"@, 501u16)),
        }
    }
}

/// The envelope of a request, given what the decoder made of its payload.
/// Of the errors found, the last one is kept: that of the payload before
/// that of the route parameters.
pub open spec fn normalized(
    req: RawRequestView,
    body: Seq<char>,
    outcome: Result<JsonView, Seq<char>>,
) -> EnvelopeView<JsonView> {
    EnvelopeView {
        model: name_or_unknown(req.model),
        action: name_or_unknown(req.action),
        method: req.method,
        error: match payload_fault(req, outcome) {
            Some(f) => Some(f),
            None => route_fault(req.model, req.action),
        },
        data: payload(req, body, outcome),
        path: req.path,
    }
}

/// What decoding a request's payload comes to, where it is decoded.
pub open spec fn decoding(req: RawRequestView, body: Seq<char>) -> Result<JsonView, Seq<char>> {
    match req.method {
        Method::Get => query_outcome(req.query),
        _ => parsed_json(body),
    }
}

/// An envelope holds one error at most, and where the payload gave it, no
/// payload: a request whose payload is in error has `null` for data.
pub proof fn lemma_faulty_payload_is_null(
    req: RawRequestView,
    body: Seq<char>,
    outcome: Result<JsonView, Seq<char>>,
)
    requires
        payload_fault(req, outcome) is Some,
    ensures
        normalized(req, body, outcome).data == JsonView::Null,
        normalized(req, body, outcome).error == payload_fault(req, outcome),
{
}

/// What a method does with the payload, whatever the request holds else:
/// PUT wraps the body, DELETE has none, and neither finds an error in it;
/// POST of another content type than JSON and every other method are
/// answered 501.
pub proof fn lemma_payload_by_method(
    req: RawRequestView,
    body: Seq<char>,
    outcome: Result<JsonView, Seq<char>>,
)
    ensures
        req.method == Method::Put ==> payload_fault(req, outcome) is None && payload(
            req,
            body,
            outcome,
        ) == upload(req.path, body, req.content_type),
        req.method == Method::Delete ==> payload_fault(req, outcome) is None && payload(
            req,
            body,
            outcome,
        ) == JsonView::Null,
        req.method == Method::Other ==> normalized(req, body, outcome).error == Some(
            ("Not implemented"@, 501u16),
        ),
        req.method == Method::Post && req.content_type != "application/json"@ ==> normalized(
            req,
            body,
            outcome,
        ).error == Some(("Content Type \"POST\" not implemented"@, 501u16)),
{
    reveal_strlit("Content Type \"");
    reveal_strlit("POST");
    reveal_strlit("\" not implemented");
    reveal_strlit("Content Type \"POST\" not implemented");
    assert("Content Type \""@ + "POST"@ + "\" not implemented"@
        =~= "Content Type \"POST\" not implemented"@);
}

fn name_or(name: Option<String>) -> (r: String)
    ensures
        r@ == name_or_unknown(name_view(name)),
{
    match name {
        Some(n) => n,
        None => String::from_str("unknown"),
    }
}

fn route_error(model: &Option<String>, action: &Option<String>) -> (r: Option<(String, u16)>)
    ensures
        fault_view(r) == route_fault(name_view(*model), name_view(*action)),
{
    if action.is_none() {
        Some((String::from_str("No action given"), 400))
    } else if model.is_none() {
        Some((String::from_str("No model given"), 400))
    } else {
        None
    }
}

fn is_json(content_type: &str) -> (r: bool)
    ensures
        r == (content_type@ == "application/json"@),
{
    same_text(content_type, "application/json")
}

impl ApiRequest {
    /// The envelope of `req` and `body`, given the outcome of decoding the
    /// payload. `outcome` is read only where the payload is decoded.
    pub fn assemble(req: RawRequest, body: String, outcome: Result<Json, String>) -> (r: Self)
        ensures
            r@ == normalized(req@, body@, outcome_view(outcome)),
    {
        let first = route_error(&req.model, &req.action);
        let model = name_or(req.model);
        let action = name_or(req.action);
        let decoded = match req.method {
            Method::Get => true,
            Method::Post => is_json(req.content_type.as_str()),
            _ => false,
        };
        let mut error = first;
        let data = if decoded {
            match outcome {
                Ok(v) => v,
                Err(details) => {
                    let mut message = String::from_str("Error parsing: ");
                    message.append(details.as_str());
                    error = Some((message, 400));
                    Json::Null
                },
            }
        } else {
            match req.method {
                Method::Post => {
                    let mut message = String::from_str("Content Type \"");
                    message.append(Method::Post.name());
                    message.append("\" not implemented");
                    error = Some((message, 501));
                    Json::Null
                },
                Method::Put => {
                    let mut members: Vec<(String, Json)> = Vec::new();
                    members.push((String::from_str("filename"), Json::Text(req.path.clone())));
                    members.push((String::from_str("content"), Json::Text(body)));
                    members.push((String::from_str("mime"), Json::Text(req.content_type)));
                    assert(members@[0].1@ == JsonView::Text(req.path@));
                    assert(members@[1].1@ == JsonView::Text(body@));
                    assert(members@[2].1@ == JsonView::Text(req.content_type@));
                    let file = Json::Object(members);
                    assert(file@->Object_0 =~= upload(
                        req.path@,
                        body@,
                        req.content_type@,
                    )->Object_0);
                    file
                },
                Method::Delete => Json::Null,
                _ => {
                    error = Some((String::from_str("Not implemented"), 501));
                    Json::Null
                },
            }
        };
        ApiRequest { model, action, method: req.method, error, data, path: req.path }
    }

    /// Normalises a request: names the model and the action, and decodes
    /// the payload as the method asks.
    pub fn basic(req: RawRequest, body: String) -> (r: Self)
        ensures
            r@ == normalized(req@, body@, decoding(req@, body@)),
    {
        let outcome = match req.method {
            Method::Get => decode_query(req.query.as_str()),
            Method::Post => {
                if is_json(req.content_type.as_str()) {
                    decode_json(body.as_str())
                } else {
                    Ok(Json::Null)
                }
            },
            _ => Ok(Json::Null),
        };
        ApiRequest::assemble(req, body, outcome)
    }
}

impl<T> ApiRequest<T> {
    /// The line that records a request: the time it came in, then method,
    /// path, model and action, with a space between each two.
    pub fn log_line(&self, timestamp: &str) -> (line: String)
        ensures
            line@ == timestamp@ + " "@ + self.method.spec_name() + " "@ + self.path@ + " "@
                + self.model@ + " "@ + self.action@,
    {
        let mut line = String::from_str(timestamp);
        line.append(" ");
        line.append(self.method.name());
        line.append(" ");
        line.append(self.path.as_str());
        line.append(" ");
        line.append(self.model.as_str());
        line.append(" ");
        line.append(self.action.as_str());
        line
    }
}

} // verus!
