//! The response handed to the transport: status, content type and body.

use vstd::prelude::*;
use crate::status::Status;

verus! {

/// The content type of every response made here.
pub open spec fn json_content_type() -> Seq<char> {
    "application/json"@
}

/// A response as plain values.
#[derive(Debug)]
pub struct Response {
    pub status: Status,
    pub content_type: String,
    pub body: String,
}

/// What a `Response` holds.
pub struct ResponseView {
    pub status: Status,
    pub content_type: Seq<char>,
    pub body: Seq<char>,
}

impl View for Response {
    type V = ResponseView;

    open spec fn view(&self) -> ResponseView {
        ResponseView { status: self.status, content_type: self.content_type@, body: self.body@ }
    }
}

impl Response {
    /// The JSON response with the given status and body.
    pub open spec fn json_of(status: Status, body: Seq<char>) -> ResponseView {
        ResponseView { status, content_type: json_content_type(), body }
    }

    /// A response with the JSON content type, the given status and the given
    /// body, which is already JSON text.
    pub fn json(status: Status, body: String) -> (res: Response)
        ensures
            res@ == Response::json_of(status, body@),
    {
        Response { status, content_type: "application/json".to_owned(), body }
    }

    /// Makes the response a JSON response with the given status, whatever
    /// status and content type it had. The body stays.
    pub fn set_json(&mut self, status: Status)
        ensures
            final(self)@ == Response::json_of(status, old(self)@.body),
    {
        self.status = status;
        self.content_type = "application/json".to_owned();
    }
}

} // verus!
