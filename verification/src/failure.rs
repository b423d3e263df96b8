//! One error or a group of errors behind a single type, for callers that may
//! fail with either.

use vstd::prelude::*;
use crate::error::{JsonError, JsonErrorView};
use crate::errors::{JsonErrors, JsonErrorsView};
use crate::response::{Response, ResponseView};

verus! {

/// What a handler fails with: one error, or several under one status.
#[derive(Debug)]
pub enum Failure {
    Single(JsonError),
    Group(JsonErrors),
}

/// What a `Failure` holds.
pub enum FailureView {
    Single(JsonErrorView),
    Group(JsonErrorsView),
}

impl View for Failure {
    type V = FailureView;

    open spec fn view(&self) -> FailureView {
        match self {
            Failure::Single(err) => FailureView::Single(err@),
            Failure::Group(group) => FailureView::Group(group@),
        }
    }
}

impl Failure {
    /// The response of whichever the failure holds.
    pub open spec fn response(failure: FailureView) -> ResponseView {
        match failure {
            FailureView::Single(err) => JsonError::response(err),
            FailureView::Group(group) => JsonErrors::response(group),
        }
    }

    /// The response for this failure: that of the single error, or that of
    /// the group.
    pub fn respond_to(self) -> (res: Response)
        ensures
            res@ == Failure::response(self@),
    {
        match self {
            Failure::Single(err) => err.respond_to(),
            Failure::Group(group) => group.respond_to(),
        }
    }
}

} // verus!
