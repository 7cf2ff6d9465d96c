//! The uniform response envelope wrapped around every HTTP reply.

use vstd::prelude::*;

verus! {

/// The one JSON shape every endpoint answers with, success or failure:
/// `{ success, data, message, code }`.
#[derive(Clone, Debug, PartialEq)]
pub struct ResResult<T> {
    pub success: bool,
    pub data: Option<T>,
    pub message: Option<String>,
    pub code: Option<i32>,
}

/// The envelope that reports success: it carries exactly `data`, the fixed
/// success message, and code 200.
pub open spec fn is_success_envelope<T>(r: ResResult<T>, data: T) -> bool {
    &&& r.success
    &&& r.data == Some(data)
    &&& r.message matches Some(m) && m@ == "request succeeded"@
    &&& r.code == Some(200i32)
}

/// The envelope that reports failure: no payload, the given message, and the
/// given code.
pub open spec fn is_failure_envelope<T>(r: ResResult<T>, msg: Seq<char>, code: i32) -> bool {
    &&& !r.success
    &&& r.data is None
    &&& r.message matches Some(m) && m@ == msg
    &&& r.code == Some(code)
}

impl<T> ResResult<T> {
    /// Wraps a payload in the success envelope.
    pub fn ok(data: T) -> (r: ResResult<T>)
        ensures
            is_success_envelope(r, data),
    {
        ResResult {
            success: true,
            data: Some(data),
            message: Some("request succeeded".to_owned()),
            code: Some(200),
        }
    }

    /// Builds a failure envelope around an arbitrary payload type.
    pub fn fail(message: String, code: i32) -> (r: ResResult<T>)
        ensures
            is_failure_envelope(r, message@, code),
    {
        ResResult { success: false, data: None, message: Some(message), code: Some(code) }
    }
}

impl ResResult<String> {
    /// Builds a failure envelope from a fixed message.
    pub fn err(msg: &'static str, code: i32) -> (r: ResResult<String>)
        ensures
            is_failure_envelope(r, msg@, code),
    {
        ResResult { success: false, data: None, message: Some(msg.to_owned()), code: Some(code) }
    }
}

} // verus!
