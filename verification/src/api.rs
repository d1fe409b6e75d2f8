//! The authenticated API client: the requests to the portal's JSON endpoints,
//! and what their replies mean.
//!
//! Each request is one attempt. Nothing is sent again, and the status of a
//! response is not looked at: a response with a JSON body is a result.
use crate::errors::{ApiError, ApiErrorView};
use crate::http::{api_get, api_request, JsonReply, JsonReplyView, Request};
use crate::json::{Json, JsonView};
use crate::session::{SessionSlot, SessionView};
use crate::text::followed_by;
use vstd::prelude::*;

verus! {

/// The endpoint of the student's own data. A sign-in and the taking up of a
/// saved session both end by asking it, which shows that the session works.
pub const STUDENT_DATA_PATH: &'static str = "/feign/student/student_data";

/// The endpoint of all the student's grades.
pub const GRADES_PATH: &'static str = "/feign/student/grades/all";

/// The endpoint of the statistics of one course in one exam period.
pub open spec fn grade_stats_path(course_syllabus_id: Seq<char>, exam_period_id: Seq<char>) -> Seq<
    char,
> {
    "/feign/student/grades/stats/course_syllabus/"@ + course_syllabus_id + "/exam_period/"@
        + exam_period_id
}

/// What a reply from a JSON endpoint means: the document, or the failure.
pub open spec fn api_outcome(reply: JsonReplyView) -> Result<JsonView, ApiErrorView> {
    match reply {
        JsonReplyView::Unreachable { cause } => Err(ApiErrorView::RequestFailed { cause }),
        JsonReplyView::Unreadable { cause } => Err(ApiErrorView::InvalidResponse { cause }),
        JsonReplyView::Document { json, rendered } => Ok(json),
    }
}

/// What an API result holds.
pub open spec fn api_result_view(result: Result<Json, ApiError>) -> Result<JsonView, ApiErrorView> {
    match result {
        Ok(json) => Ok(json@),
        Err(error) => Err(error@),
    }
}

/// What a reply from a JSON endpoint means: its document, or the failure that
/// it tells of.
pub fn api_result(reply: JsonReply) -> (result: Result<Json, ApiError>)
    ensures
        api_result_view(result) == api_outcome(reply@),
{
    match reply {
        JsonReply::Unreachable { cause } => Err(ApiError::RequestFailed { cause }),
        JsonReply::Unreadable { cause } => Err(ApiError::InvalidResponse { cause }),
        JsonReply::Document { json, rendered } => Ok(json),
    }
}

/// The request for `path` on behalf of the session in `slot`, with the client
/// to send it through: none where nobody is signed in.
pub open spec fn authenticated_request<C>(slot: Option<SessionView<C>>, path: Seq<char>) -> Result<
    (C, crate::http::RequestView),
    ApiErrorView,
> {
    match slot {
        Some(session) => Ok((session.client, api_request(path, session.csrf, session.profile_id))),
        None => Err(ApiErrorView::NotAuthenticated),
    }
}

/// What a prepared request holds.
pub open spec fn prepared_view<C>(prepared: Result<(&C, Request), ApiError>) -> Result<
    (C, crate::http::RequestView),
    ApiErrorView,
> {
    match prepared {
        Ok((client, request)) => Ok((*client, request@)),
        Err(error) => Err(error@),
    }
}

/// The request for `path` on behalf of the session in `slot`, and the client
/// to send it through.
pub fn authenticated_get<'a, C>(slot: &'a SessionSlot<C>, path: &str) -> (prepared: Result<
    (&'a C, Request),
    ApiError,
>)
    ensures
        prepared_view(prepared) == authenticated_request(slot@, path@),
{
    match slot.extract_session() {
        Ok(session) => Ok(
            (&session.client, api_get(path, session.csrf.as_str(), session.profile_id.as_str())),
        ),
        Err(error) => Err(error),
    }
}

/// The request for the student's own data.
pub fn student_info_request<'a, C>(slot: &'a SessionSlot<C>) -> (prepared: Result<
    (&'a C, Request),
    ApiError,
>)
    ensures
        prepared_view(prepared) == authenticated_request(slot@, STUDENT_DATA_PATH@),
{
    authenticated_get(slot, STUDENT_DATA_PATH)
}

/// The request for all the student's grades.
pub fn grades_request<'a, C>(slot: &'a SessionSlot<C>) -> (prepared: Result<(&'a C, Request), ApiError>)
    ensures
        prepared_view(prepared) == authenticated_request(slot@, GRADES_PATH@),
{
    authenticated_get(slot, GRADES_PATH)
}

/// The request for the statistics of the course `course_syllabus_id` in the
/// exam period `exam_period_id`.
pub fn grade_stats_request<'a, C>(
    slot: &'a SessionSlot<C>,
    course_syllabus_id: &str,
    exam_period_id: &str,
) -> (prepared: Result<(&'a C, Request), ApiError>)
    ensures
        prepared_view(prepared) == authenticated_request(
            slot@,
            grade_stats_path(course_syllabus_id@, exam_period_id@),
        ),
{
    let mut path = followed_by("/feign/student/grades/stats/course_syllabus/", course_syllabus_id);
    path.append("/exam_period/");
    path.append(exam_period_id);
    authenticated_get(slot, path.as_str())
}

} // verus!
