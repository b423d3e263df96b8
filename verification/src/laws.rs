//! What holds between the operations of the library.

use vstd::prelude::*;
use crate::encode::{errors_body, group_frame, json_string, json_strings, single_frame};
use crate::error::{JsonError, JsonErrorView};
use crate::errors::{descriptions_of, JsonErrors, JsonErrorsView};
use crate::failure::{Failure, FailureView};
use crate::response::{json_content_type, ResponseView};
use crate::status::Status;
use crate::text::joined;

verus! {

/// Two responses made from errors that hold the same have the same body and
/// the same status: making a response again changes nothing.
pub proof fn error_response_repeats(
    first: JsonErrorView,
    second: JsonErrorView,
    first_res: ResponseView,
    second_res: ResponseView,
)
    requires
        first == second,
        first_res == JsonError::response(first),
        second_res == JsonError::response(second),
    ensures
        first_res.body == second_res.body,
        first_res.status == second_res.status,
{
}

/// Two responses made from groups that hold the same have the same body and
/// the same status.
pub proof fn group_response_repeats(
    first: JsonErrorsView,
    second: JsonErrorsView,
    first_res: ResponseView,
    second_res: ResponseView,
)
    requires
        first == second,
        first_res == JsonErrors::response(first),
        second_res == JsonErrors::response(second),
    ensures
        first_res.body == second_res.body,
        first_res.status == second_res.status,
{
}

/// Every response, of one error or of a group, has the JSON content type and
/// the status that the error or the group holds.
pub proof fn responses_are_json(failure: FailureView)
    ensures
        Failure::response(failure).content_type == json_content_type(),
        Failure::response(failure).status == match failure {
            FailureView::Single(err) => err.status,
            FailureView::Group(group) => group.status,
        },
{
}

/// An error whose body still agrees with its description answers with the
/// object whose only member, `error`, is the description's JSON string.
pub proof fn response_reports_description(err: JsonError)
    requires
        err.wf(),
    ensures
        JsonError::response(err@).body == single_frame(json_string(err@.description)),
{
}

/// An error made from a raw code holds the status with that code, the
/// description as it was given, and the body with the description's JSON
/// string as its only member.
pub proof fn raw_code_is_kept(code: u16, description: Seq<char>)
    ensures
        JsonError::made(Status::of(code), description).status.code == code,
        JsonError::made(Status::of(code), description).description == description,
        JsonError::made(Status::of(code), description).body == single_frame(
            json_string(description),
        ),
{
}

/// In the body of a group, the array lists one JSON string per member, the
/// string of that member's description, in the members' order; and the summary
/// is the JSON string of the descriptions joined by a line feed.
pub proof fn group_body_lists_descriptions(group: JsonErrorsView)
    ensures
        JsonErrors::response(group).body == group_frame(
            json_string(joined(descriptions_of(group.errors), "\n"@)),
            json_strings(descriptions_of(group.errors)),
        ),
        json_strings(descriptions_of(group.errors)).len() == group.errors.len(),
        forall|i: int|
            0 <= i < group.errors.len() ==> #[trigger] json_strings(
                descriptions_of(group.errors),
            )[i] == json_string(group.errors[i].description),
{
}

/// Joining a single text gives that text, whatever the separator.
pub proof fn joined_one(part: Seq<char>, sep: Seq<char>)
    ensures
        joined(seq![part], sep) == part,
{
}

/// Joining after one more part appends the separator and the part, or the
/// part alone where it is the first.
pub proof fn joined_push(parts: Seq<Seq<char>>, part: Seq<char>, sep: Seq<char>)
    ensures
        joined(parts.push(part), sep) == if parts.len() == 0 {
            part
        } else {
            joined(parts, sep) + sep + part
        },
{
    assert(parts.push(part).drop_last() =~= parts);
}

/// The group made of one error answers with that error's status, and its
/// body names the error's description both as the summary and as the only
/// item of the list.
pub proof fn single_group_response(err: JsonErrorView)
    ensures
        JsonErrors::single(err).errors == seq![err],
        JsonErrors::response(JsonErrors::single(err)).status == JsonError::response(err).status,
        JsonErrors::response(JsonErrors::single(err)).body == group_frame(
            json_string(err.description),
            seq![json_string(err.description)],
        ),
{
    let ds = descriptions_of(seq![err]);
    assert(ds =~= seq![err.description]);
    assert(json_strings(ds) =~= seq![json_string(err.description)]);
    joined_one(err.description, "\n"@);
    joined_one(json_string(err.description), ","@);
    assert(errors_body(ds) == group_frame(
        json_string(err.description),
        seq![json_string(err.description)],
    ));
}

} // verus!
