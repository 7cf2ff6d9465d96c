//! One decision function per endpoint.
//!
//! Each HTTP handler is a single-pass pipeline: acquire a connection, run
//! one repository operation, wrap the outcome.  The acquisition and the
//! query are the I/O; what stands here is the rest of the pipeline — the
//! mapping from a repository outcome to the HTTP status and the one
//! envelope shape every endpoint answers with.  Failures never abort a
//! request: every error is folded into a failure envelope with the status
//! of its kind.

use vstd::prelude::*;

use crate::bug_log::BugLog;
use crate::envelope::ResResult;
use crate::envelope::is_failure_envelope;
use crate::envelope::is_success_envelope;
use crate::errors::AppError;
use crate::page::Page;
use crate::user::User;

verus! {

/// The reply for listing all users: on success, status 200 and the rows in
/// a success envelope; on failure, the status of the error's kind and a
/// failure envelope with the error's message.
pub fn all_users_response(outcome: Result<Vec<User>, AppError>) -> (r: (
    u16,
    ResResult<Vec<User>>,
))
    ensures
        outcome matches Ok(users) ==> r.0 == 200 && is_success_envelope(r.1, users),
        outcome matches Err(e) ==> r.0 == e.error_type.spec_status() && is_failure_envelope(
            r.1,
            e.spec_public_message(),
            e.error_type.spec_status() as i32,
        ),
{
    match outcome {
        Ok(users) => (200, ResResult::ok(users)),
        Err(e) => {
            let status = e.status_code();
            (status, ResResult::fail(e.public_message(), status as i32))
        },
    }
}

/// The reply for ingesting one event: on success, status 204 with an empty
/// body (no envelope); on failure, the status of the error's kind — 400 for
/// a malformed `event` parameter, 500 for a database failure — and a
/// failure envelope.
pub fn ingest_response(outcome: Result<(), AppError>) -> (r: (u16, Option<ResResult<String>>))
    ensures
        outcome is Ok ==> r.0 == 204 && r.1 is None,
        outcome matches Err(e) ==> r.0 == e.error_type.spec_status() && (r.1 matches Some(body)
            && is_failure_envelope(
            body,
            e.spec_public_message(),
            e.error_type.spec_status() as i32,
        )),
{
    match outcome {
        Ok(()) => (204, None),
        Err(e) => {
            let status = e.status_code();
            (status, Some(ResResult::fail(e.public_message(), status as i32)))
        },
    }
}

/// The reply for the paginated event listing: on success, status 200 and
/// the page in a success envelope; on failure, the status of the error's
/// kind and a failure envelope.
pub fn bugs_page_response(outcome: Result<Page<BugLog>, AppError>) -> (r: (
    u16,
    ResResult<Page<BugLog>>,
))
    ensures
        outcome matches Ok(page) ==> r.0 == 200 && is_success_envelope(r.1, page),
        outcome matches Err(e) ==> r.0 == e.error_type.spec_status() && is_failure_envelope(
            r.1,
            e.spec_public_message(),
            e.error_type.spec_status() as i32,
        ),
{
    match outcome {
        Ok(page) => (200, ResResult::ok(page)),
        Err(e) => {
            let status = e.status_code();
            (status, ResResult::fail(e.public_message(), status as i32))
        },
    }
}

/// The fallback reply for any request no route matches: always status 500
/// with the fixed failure envelope, independent of why nothing matched.
pub fn err_handling() -> (r: (u16, ResResult<String>))
    ensures
        r.0 == 500,
        is_failure_envelope(r.1, "request failed"@, 500),
{
    (500, ResResult::err("request failed", 500))
}

/// The JSON text of a failure envelope whose message needs no JSON
/// escaping: no payload, the message verbatim, and the code's decimal
/// digits.
pub open spec fn spec_failure_body_json(msg: Seq<char>, code_digits: Seq<char>) -> Seq<char> {
    "{\"success\":false,\"data\":null,\"message\":\""@ + msg + "\",\"code\":"@ + code_digits + "}"@
}

/// The fallback reply's body, byte for byte.
pub fn err_handling_body() -> (s: String)
    ensures
        s@ == spec_failure_body_json("request failed"@, "500"@),
{
    let s = "{\"success\":false,\"data\":null,\"message\":\"request failed\",\"code\":500}".to_owned();
    proof {
        reveal_strlit("{\"success\":false,\"data\":null,\"message\":\"request failed\",\"code\":500}");
        reveal_strlit("{\"success\":false,\"data\":null,\"message\":\"");
        reveal_strlit("request failed");
        reveal_strlit("\",\"code\":");
        reveal_strlit("500");
        reveal_strlit("}");
        assert(s@ =~= spec_failure_body_json("request failed"@, "500"@));
    }
    s
}

/// Listing users writes nothing, and its reply embeds the rows exactly as
/// the store returned them; so two reads that return the same rows — in
/// whatever order — produce replies that agree on success and code and
/// carry equal multisets of users.
pub proof fn lemma_select_all_idempotent(
    rows1: Vec<User>,
    rows2: Vec<User>,
    r1: ResResult<Vec<User>>,
    r2: ResResult<Vec<User>>,
)
    requires
        rows1@.to_multiset() == rows2@.to_multiset(),
        is_success_envelope(r1, rows1),
        is_success_envelope(r2, rows2),
    ensures
        r1.success == r2.success,
        r1.code == r2.code,
        r1.data matches Some(d1) && r2.data matches Some(d2) && d1@.to_multiset()
            == d2@.to_multiset(),
{
}

} // verus!
