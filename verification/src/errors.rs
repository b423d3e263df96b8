//! A group of errors reported together under one status.

use vstd::prelude::*;
use vstd::std_specs::cmp::PartialEqSpecImpl;
use vstd::std_specs::convert::FromSpecImpl;
use crate::encode::{errors_body, errors_body_text};
use crate::error::{JsonError, JsonErrorView};
use crate::response::{Response, ResponseView};
use crate::status::Status;
use crate::text::{join, joined, texts};

verus! {

/// Errors in the order in which they are reported, and the status of the
/// group as a whole, which the caller chooses.
#[derive(Debug)]
pub struct JsonErrors(pub Vec<JsonError>, pub Status);

/// What a `JsonErrors` holds.
pub struct JsonErrorsView {
    pub errors: Seq<JsonErrorView>,
    pub status: Status,
}

/// What each error of a sequence holds, in the same order.
pub open spec fn views(errors: Seq<JsonError>) -> Seq<JsonErrorView> {
    errors.map_values(|e: JsonError| e@)
}

/// The descriptions of the errors, in the same order.
pub open spec fn descriptions_of(errors: Seq<JsonErrorView>) -> Seq<Seq<char>> {
    errors.map_values(|e: JsonErrorView| e.description)
}

impl View for JsonErrors {
    type V = JsonErrorsView;

    open spec fn view(&self) -> JsonErrorsView {
        JsonErrorsView { errors: views(self.0@), status: self.1 }
    }
}

impl PartialEq for JsonErrors {
    fn eq(&self, other: &JsonErrors) -> (same: bool) {
        if !(self.1 == other.1) || self.0.len() != other.0.len() {
            proof {
                assert(self@.errors.len() == self.0@.len());
                assert(other@.errors.len() == other.0@.len());
            }
            return false;
        }
        let mut i: usize = 0;
        while i < self.0.len()
            invariant
                i <= self.0.len(),
                self.0.len() == other.0.len(),
                forall|k: int| 0 <= k < i ==> (#[trigger] self.0@[k])@ == other.0@[k]@,
            decreases self.0.len() - i,
        {
            if !(self.0[i] == other.0[i]) {
                proof {
                    assert(views(self.0@)[i as int] == self.0@[i as int]@);
                    assert(views(other.0@)[i as int] == other.0@[i as int]@);
                }
                return false;
            }
            i += 1;
        }
        proof {
            assert(views(self.0@) =~= views(other.0@));
        }
        true
    }
}

impl PartialEqSpecImpl for JsonErrors {
    open spec fn obeys_eq_spec() -> bool {
        true
    }

    open spec fn eq_spec(&self, other: &JsonErrors) -> bool {
        self@ == other@
    }
}

impl From<JsonError> for JsonErrors {
    /// The group of this one error, under the error's own status.
    fn from(err: JsonError) -> (group: JsonErrors)
        ensures
            group@ == JsonErrors::single(err@),
    {
        let status = err.status;
        let mut errors: Vec<JsonError> = Vec::new();
        errors.push(err);
        let group = JsonErrors(errors, status);
        proof {
            assert(group@.errors =~= seq![err@]);
        }
        group
    }
}

/// A group holds a `Vec`, which no spec expression can build, so the
/// conversion is specified over views, by the `ensures` of `from`, and not by
/// `from_spec`.
impl FromSpecImpl<JsonError> for JsonErrors {
    open spec fn obeys_from_spec() -> bool {
        false
    }

    open spec fn from_spec(err: JsonError) -> JsonErrors {
        arbitrary()
    }
}

impl JsonErrors {
    /// The group with `err` as its only member and `err`'s status.
    pub open spec fn single(err: JsonErrorView) -> JsonErrorsView {
        JsonErrorsView { errors: seq![err], status: err.status }
    }

    /// The response that a group gives: the group's status, the JSON content
    /// type, and the body that reports the members' descriptions.
    pub open spec fn response(group: JsonErrorsView) -> ResponseView {
        Response::json_of(group.status, errors_body(descriptions_of(group.errors)))
    }

    /// The descriptions of the members, in order.
    pub fn descriptions(&self) -> (out: Vec<String>)
        ensures
            texts(out@) == descriptions_of(self@.errors),
    {
        let mut out: Vec<String> = Vec::new();
        let mut i: usize = 0;
        while i < self.0.len()
            invariant
                i <= self.0.len(),
                out@.len() == i,
                forall|k: int| 0 <= k < i ==> (#[trigger] out@[k])@ == self.0@[k].description@,
            decreases self.0.len() - i,
        {
            out.push(self.0[i].description.clone());
            i += 1;
        }
        proof {
            assert(texts(out@) =~= descriptions_of(self@.errors));
        }
        out
    }

    /// The descriptions on one line, with a comma and a space between them.
    pub fn to_string(&self) -> (out: String)
        ensures
            out@ == joined(descriptions_of(self@.errors), ", "@),
    {
        let descriptions = self.descriptions();
        join(&descriptions, ", ")
    }

    /// The response for the group: the group's own status, the JSON content
    /// type, and a body whose `error` is the descriptions joined by a line
    /// feed and whose `errors` lists them in order. The members' own statuses
    /// and bodies are not read. A group without members gives an empty
    /// `error` and an empty `errors`.
    pub fn respond_to(self) -> (res: Response)
        ensures
            res@ == JsonErrors::response(self@),
    {
        let descriptions = self.descriptions();
        Response::json(self.1, errors_body_text(&descriptions))
    }

    /// Writes the group over an earlier response: whatever status, content
    /// type and body it had, it then holds those of the group.
    pub fn write_to(self, res: &mut Response)
        ensures
            final(res)@ == JsonErrors::response(self@),
    {
        let descriptions = self.descriptions();
        res.body = errors_body_text(&descriptions);
        res.set_json(self.1);
    }
}

} // verus!
