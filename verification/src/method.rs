//! The request methods that the front end tells apart.

use crate::text::same_text;
use vstd::prelude::*;

verus! {

/// An HTTP request method. Every method but the four named ones is `Other`.
#[derive(Debug, Clone, Copy, PartialEq, Eq, Structural)]
pub enum Method {
    Get,
    Post,
    Put,
    Delete,
    Other,
}

impl Method {
    /// The method's name as it stands in messages and log lines.
    pub open spec fn spec_name(self) -> Seq<char> {
        match self {
            Method::Get => "GET"@,
            Method::Post => "POST"@,
            Method::Put => "PUT"@,
            Method::Delete => "DELETE"@,
            Method::Other => "OTHER"@,
        }
    }

    /// The method that a request line names with `name`, letter for letter.
    pub open spec fn named(name: Seq<char>) -> Method {
        if name == "GET"@ {
            Method::Get
        } else if name == "POST"@ {
            Method::Post
        } else if name == "PUT"@ {
            Method::Put
        } else if name == "DELETE"@ {
            Method::Delete
        } else {
            Method::Other
        }
    }

    /// The method's name.
    pub fn name(self) -> (r: &'static str)
        ensures
            r@ == self.spec_name(),
    {
        match self {
            Method::Get => "GET",
            Method::Post => "POST",
            Method::Put => "PUT",
            Method::Delete => "DELETE",
            Method::Other => "OTHER",
        }
    }

    /// The method that `name` names.
    pub fn from_name(name: &str) -> (m: Method)
        ensures
            m == Method::named(name@),
    {
        if same_text(name, "GET") {
            Method::Get
        } else if same_text(name, "POST") {
            Method::Post
        } else if same_text(name, "PUT") {
            Method::Put
        } else if same_text(name, "DELETE") {
            Method::Delete
        } else {
            Method::Other
        }
    }
}

/// Reading a method's own name gives the method back.
pub proof fn lemma_name_round_trip(m: Method)
    ensures
        Method::named(m.spec_name()) == m,
{
    reveal_strlit("GET");
    reveal_strlit("POST");
    reveal_strlit("PUT");
    reveal_strlit("DELETE");
    reveal_strlit("OTHER");
    assert("GET"@.len() == 3 && "POST"@.len() == 4 && "DELETE"@.len() == 6 && "OTHER"@.len() == 5);
    assert("GET"@[0] != "PUT"@[0]);
}

} // verus!
