//! One error: a status, a description and the JSON body that reports it.

use vstd::prelude::*;
use vstd::std_specs::cmp::PartialEqSpecImpl;
use crate::encode::{error_body, error_body_text};
use crate::response::{Response, ResponseView};
use crate::status::Status;
use crate::text::{texts, warning_line, warning_text};

verus! {

/// The warnings recorded so far, oldest first. The caller owns the log and
/// passes its entries on to whatever sink it uses.
#[derive(Debug)]
pub struct WarningLog {
    pub entries: Vec<String>,
}

impl View for WarningLog {
    type V = Seq<Seq<char>>;

    open spec fn view(&self) -> Seq<Seq<char>> {
        texts(self.entries@)
    }
}

impl WarningLog {
    /// A log without entries.
    pub fn new() -> (log: WarningLog)
        ensures
            log@ == Seq::<Seq<char>>::empty(),
    {
        let log = WarningLog { entries: Vec::new() };
        proof {
            assert(log@ =~= Seq::<Seq<char>>::empty());
        }
        log
    }

    /// Records `line` as the newest entry.
    pub fn warn(&mut self, line: String)
        ensures
            final(self)@ == old(self)@.push(line@),
    {
        self.entries.push(line);
        proof {
            assert(final(self)@ =~= old(self)@.push(line@));
        }
    }
}

/// One error occurrence. `body` is the JSON text that reports `description`;
/// the constructors derive it, and `wf` says that the two still agree.
#[derive(Debug)]
pub struct JsonError {
    pub status: Status,
    pub description: String,
    pub body: String,
}

/// What a `JsonError` holds.
pub struct JsonErrorView {
    pub status: Status,
    pub description: Seq<char>,
    pub body: Seq<char>,
}

impl View for JsonError {
    type V = JsonErrorView;

    open spec fn view(&self) -> JsonErrorView {
        JsonErrorView { status: self.status, description: self.description@, body: self.body@ }
    }
}

impl PartialEq for JsonError {
    fn eq(&self, other: &JsonError) -> (same: bool) {
        self.status == other.status && self.description == other.description && self.body
            == other.body
    }
}

impl PartialEqSpecImpl for JsonError {
    open spec fn obeys_eq_spec() -> bool {
        true
    }

    open spec fn eq_spec(&self, other: &JsonError) -> bool {
        self@ == other@
    }
}

impl JsonError {
    /// The error with the given status and description: its body is the
    /// object whose member `error` is the description.
    pub open spec fn made(status: Status, description: Seq<char>) -> JsonErrorView {
        JsonErrorView { status, description, body: error_body(description) }
    }

    /// The response that an error gives: its status, the JSON content type
    /// and its body.
    pub open spec fn response(err: JsonErrorView) -> ResponseView {
        Response::json_of(err.status, err.body)
    }

    /// The body reports the description.
    pub open spec fn wf(&self) -> bool {
        self.body@ == error_body(self.description@)
    }

    /// Makes an error from a status and a description. Nothing is recorded.
    pub fn from_status(status: Status, description: &str) -> (err: JsonError)
        ensures
            err@ == JsonError::made(status, description@),
            err.wf(),
    {
        JsonError {
            status,
            description: description.to_owned(),
            body: error_body_text(description),
        }
    }

    /// Makes an error from a raw status code and a description, and records
    /// one warning in `log` that names both. The code is taken as it is.
    pub fn new(status: u16, description: &str, log: &mut WarningLog) -> (err: JsonError)
        ensures
            err@ == JsonError::made(Status::of(status), description@),
            err.wf(),
            final(log)@ == old(log)@.push(warning_text(status, description@)),
    {
        log.warn(warning_line(status, description));
        JsonError {
            status: Status::new(status),
            description: description.to_owned(),
            body: error_body_text(description),
        }
    }

    /// The description, as the error shows itself in text.
    pub fn to_string(&self) -> (out: String)
        ensures
            out@ == self@.description,
    {
        self.description.clone()
    }

    /// The response for this error: the stored status, the JSON content type
    /// and the stored body.
    pub fn respond_to(self) -> (res: Response)
        ensures
            res@ == JsonError::response(self@),
    {
        Response::json(self.status, self.body)
    }

    /// Writes this error over an earlier response: whatever status, content
    /// type and body it had, it then holds those of this error.
    pub fn write_to(self, res: &mut Response)
        ensures
            final(res)@ == JsonError::response(self@),
    {
        res.body = self.body;
        res.set_json(self.status);
    }
}

} // verus!
