//! The status codes that a response can carry.

use vstd::prelude::*;

verus! {

/// The status of a successful response.
pub const OK: u16 = 200;

/// The status that stands in for every code outside the table.
pub const INTERNAL_SERVER_ERROR: u16 = 500;

/// The codes that the table holds: 400 to 417, 422, 429, 431, 451 and
/// 500 to 508.
pub open spec fn is_recognized(code: u16) -> bool {
    ||| 400 <= code <= 417
    ||| code == 422
    ||| code == 429
    ||| code == 431
    ||| code == 451
    ||| 500 <= code <= 508
}

/// The status under which an error that carries `code` goes out.
pub open spec fn rendered_status(code: u16) -> u16 {
    if is_recognized(code) {
        code
    } else {
        500
    }
}

/// The table itself: each code with its reason phrase.
pub open spec fn reason(code: u16) -> Option<Seq<char>> {
    match code {
        400 => Some("Bad Request"@),
        401 => Some("Unauthorized"@),
        402 => Some("Payment Required"@),
        403 => Some("Forbidden"@),
        404 => Some("Not Found"@),
        405 => Some("Method Not Allowed"@),
        406 => Some("Not Acceptable"@),
        407 => Some("Proxy Authentication Required"@),
        408 => Some("Request Timeout"@),
        409 => Some("Conflict"@),
        410 => Some("Gone"@),
        411 => Some("Length Required"@),
        412 => Some("Precondition Failed"@),
        413 => Some("Payload Too Large"@),
        414 => Some("URI Too Long"@),
        415 => Some("Unsupported Media Type"@),
        416 => Some("Range Not Satisfiable"@),
        417 => Some("Expectation Failed"@),
        422 => Some("Unprocessable Entity"@),
        429 => Some("Too Many Requests"@),
        431 => Some("Request Header Fields Too Large"@),
        451 => Some("Unavailable For Legal Reasons"@),
        500 => Some("Internal Server Error"@),
        501 => Some("Not Implemented"@),
        502 => Some("Bad Gateway"@),
        503 => Some("Service Unavailable"@),
        504 => Some("Gateway Timeout"@),
        505 => Some("HTTP Version Not Supported"@),
        506 => Some("Variant Also Negotiates"@),
        507 => Some("Insufficient Storage"@),
        508 => Some("Loop Detected"@),
        _ => None,
    }
}

/// The canonical reason phrase of `code`, for the codes of the table.
pub fn canonical_reason(code: u16) -> (r: Option<&'static str>)
    ensures
        match r {
            Some(phrase) => reason(code) == Some(phrase@),
            None => reason(code) is None,
        },
        r is Some <==> is_recognized(code),
{
    match code {
        400 => Some("Bad Request"),
        401 => Some("Unauthorized"),
        402 => Some("Payment Required"),
        403 => Some("Forbidden"),
        404 => Some("Not Found"),
        405 => Some("Method Not Allowed"),
        406 => Some("Not Acceptable"),
        407 => Some("Proxy Authentication Required"),
        408 => Some("Request Timeout"),
        409 => Some("Conflict"),
        410 => Some("Gone"),
        411 => Some("Length Required"),
        412 => Some("Precondition Failed"),
        413 => Some("Payload Too Large"),
        414 => Some("URI Too Long"),
        415 => Some("Unsupported Media Type"),
        416 => Some("Range Not Satisfiable"),
        417 => Some("Expectation Failed"),
        422 => Some("Unprocessable Entity"),
        429 => Some("Too Many Requests"),
        431 => Some("Request Header Fields Too Large"),
        451 => Some("Unavailable For Legal Reasons"),
        500 => Some("Internal Server Error"),
        501 => Some("Not Implemented"),
        502 => Some("Bad Gateway"),
        503 => Some("Service Unavailable"),
        504 => Some("Gateway Timeout"),
        505 => Some("HTTP Version Not Supported"),
        506 => Some("Variant Also Negotiates"),
        507 => Some("Insufficient Storage"),
        508 => Some("Loop Detected"),
        _ => None,
    }
}

/// The status under which an error that carries `code` goes out: the code
/// itself where the table holds it, the generic server error otherwise.
pub fn status_for(code: u16) -> (status: u16)
    ensures
        status == rendered_status(code),
        status != OK,
{
    match canonical_reason(code) {
        Some(_) => code,
        None => INTERNAL_SERVER_ERROR,
    }
}

/// The table holds a phrase for exactly the recognized codes.
pub proof fn lemma_table_is_exhaustive(code: u16)
    ensures
        reason(code) is Some <==> is_recognized(code),
{
}

/// An error never goes out as a success: whatever code it carries, its
/// status is that code or 500, and never 200.
pub proof fn lemma_error_status(code: u16)
    ensures
        is_recognized(code) ==> rendered_status(code) == code,
        !is_recognized(code) ==> rendered_status(code) == 500,
        rendered_status(code) != 200,
        400 <= rendered_status(code) < 600,
{
}

} // verus!
