//! The response: one JSON shape for every outcome, under the status that
//! the outcome calls for.

use crate::envelope::Fault;
use crate::json::lookup;
use crate::json::Json;
use crate::json::JsonView;
use crate::json::MemberView;
use crate::status::is_recognized;
use crate::status::rendered_status;
use crate::status::status_for;
use crate::status::OK;
use vstd::prelude::*;

verus! {

/// A response as it goes out: the HTTP status and the JSON body.
#[derive(Debug, PartialEq, Eq)]
pub struct Response {
    pub status: u16,
    pub body: Json,
}

/// The mathematical value of a `Response`.
pub struct ResponseView {
    pub status: u16,
    pub body: JsonView,
}

impl View for Response {
    type V = ResponseView;

    open spec fn view(&self) -> ResponseView {
        ResponseView { status: self.status, body: self.body@ }
    }
}

/// An outcome, as a mathematical value.
pub open spec fn result_view(data: Result<Json, (String, u16)>) -> Result<JsonView, Fault> {
    match data {
        Ok(v) => Ok(v@),
        Err(f) => Err((f.0@, f.1)),
    }
}

/// The body of a success: `{"status": "ok", "data": value}`.
pub open spec fn ok_body(value: JsonView) -> JsonView {
    JsonView::Object(
        seq![
            MemberView { key: "status"@, value: JsonView::Text("ok"@) },
            MemberView { key: "data"@, value: value },
        ],
    )
}

/// The body of a failure: `{"status": "error", "error": message}`.
pub open spec fn error_body(message: Seq<char>) -> JsonView {
    JsonView::Object(
        seq![
            MemberView { key: "status"@, value: JsonView::Text("error"@) },
            MemberView { key: "error"@, value: JsonView::Text(message) },
        ],
    )
}

/// The response to an outcome: 200 with the value, or the error's message
/// under the status that its code is rendered as.
pub open spec fn rendered(data: Result<JsonView, Fault>) -> ResponseView {
    match data {
        Ok(value) => ResponseView { status: 200, body: ok_body(value) },
        Err(fault) => ResponseView { status: rendered_status(fault.1), body: error_body(fault.0) },
    }
}

/// Renders an outcome as a response.
pub fn respond(data: Result<Json, (String, u16)>) -> (r: Response)
    ensures
        r@ == rendered(result_view(data)),
        data is Err ==> r.status != 200,
{
    match data {
        Ok(value) => {
            let mut members: Vec<(String, Json)> = Vec::new();
            members.push((String::from_str("status"), Json::Text(String::from_str("ok"))));
            members.push((String::from_str("data"), value));
            assert(members@[0].1@ == JsonView::Text("ok"@));
            let body = Json::Object(members);
            assert(body@->Object_0 =~= ok_body(value@)->Object_0);
            Response { status: OK, body }
        },
        Err(fault) => {
            let status = status_for(fault.1);
            let mut members: Vec<(String, Json)> = Vec::new();
            members.push((String::from_str("status"), Json::Text(String::from_str("error"))));
            members.push((String::from_str("error"), Json::Text(fault.0)));
            assert(members@[0].1@ == JsonView::Text("error"@));
            assert(members@[1].1@ == JsonView::Text(fault.0@));
            let body = Json::Object(members);
            assert(body@->Object_0 =~= error_body(fault.0@)->Object_0);
            Response { status, body }
        },
    }
}

/// An error is never rendered as a success: its status is its code where
/// the table holds the code, and 500 otherwise.
pub proof fn lemma_error_is_never_ok(message: Seq<char>, code: u16)
    ensures
        is_recognized(code) ==> rendered(Err((message, code))).status == code,
        !is_recognized(code) ==> rendered(Err((message, code))).status == 500,
        rendered(Err((message, code))).status != 200,
        rendered(Err((message, code))).body == error_body(message),
{
}

/// The body of a response says what its status says: `ok` and the value
/// under 200, `error` and the message under a status from 400 to 599.
pub proof fn lemma_body_matches_status(data: Result<JsonView, Fault>)
    ensures
        rendered(data).status == 200 <==> data is Ok,
        data matches Ok(value) ==> rendered(data).body.member("status"@) == Some(
            JsonView::Text("ok"@),
        ) && rendered(data).body.member("data"@) == Some(value),
        data matches Err(fault) ==> rendered(data).body.member("status"@) == Some(
            JsonView::Text("error"@),
        ) && rendered(data).body.member("error"@) == Some(JsonView::Text(fault.0)) && 400
            <= rendered(data).status < 600,
        "ok"@ != "error"@,
{
    reveal_strlit("status");
    reveal_strlit("data");
    reveal_strlit("error");
    reveal_strlit("ok");
    assert("status"@.len() == 6);
    assert("data"@.len() == 4);
    assert("error"@.len() == 5);
    assert("ok"@.len() == 2);
    reveal_with_fuel(lookup, 3);
    match data {
        Ok(value) => {
            let members = ok_body(value)->Object_0;
            assert(members.drop_first()[0] == members[1]);
        },
        Err(fault) => {
            let members = error_body(fault.0)->Object_0;
            assert(members.drop_first()[0] == members[1]);
        },
    }
}

} // verus!
