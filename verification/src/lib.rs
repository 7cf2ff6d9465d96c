//! Request-handling and data-access core of a small telemetry backend.
//!
//! The service exposes three HTTP endpoints — list all users, ingest a
//! client-reported bug/telemetry event, and read ingested events page by
//! page — and wraps every reply in one uniform JSON envelope.  This crate
//! holds the verified core: the envelope, the error taxonomy and its HTTP
//! status mapping, the entity models, the server-side identity rule for
//! ingested events, the pagination logic, and a model of the bounded
//! connection pool.  The HTTP server, the database driver and the JSON
//! (de)serialization live outside, and hand this crate plain values.

use vstd::prelude::*;

mod bug_log;
mod config;
mod envelope;
mod errors;
mod handlers;
mod page;
mod pool;
mod user;

pub use bug_log::BugLog;
pub use bug_log::lemma_server_identity_wins;
pub use config::EnvVars;
pub use envelope::ResResult;
pub use envelope::is_failure_envelope;
pub use envelope::is_success_envelope;
pub use errors::AppError;
pub use errors::AppErrorType;
pub use handlers::all_users_response;
pub use handlers::bugs_page_response;
pub use handlers::err_handling;
pub use handlers::err_handling_body;
pub use handlers::ingest_response;
pub use handlers::lemma_select_all_idempotent;
pub use handlers::spec_failure_body_json;
pub use page::DEFAULT_PAGE_SIZE;
pub use page::MAX_PAGE_SIZE;
pub use page::Page;
pub use page::PageRequest;
pub use page::paginate;
pub use page::spec_page_end;
pub use page::spec_page_offset;
pub use pool::ConnectionPool;
pub use pool::POOL_SIZE;
pub use pool::lemma_acquire_release_roundtrip;
pub use user::User;
pub use user::find_user_by_id;
pub use user::spec_user_has_id;

verus! {

/// Marker for the SQL logging hook installed on the database executor; its
/// wiring into the driver lives with the I/O shell around this crate.
#[derive(Debug)]
pub struct Intercept {}

} // verus!
