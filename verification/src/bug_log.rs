//! The bug/telemetry event entity and the server-side identity rule.

use vstd::prelude::*;

verus! {

/// One client-reported telemetry/error record.  The structured payloads
/// `detail`, `action_info` and `custom` are held in their JSON-encoded
/// string form, which is also the form they are emitted in when read back.
#[derive(Clone, Debug, PartialEq)]
pub struct BugLog {
    pub id: Option<String>,
    pub app_version: Option<String>,
    pub app_key: Option<String>,
    pub version: Option<String>,
    pub user_agent: Option<String>,
    pub locale: Option<String>,
    pub url: Option<String>,
    pub title: Option<String>,
    pub time: Option<i64>,
    pub bug_type: Option<String>,
    pub detail: Option<String>,
    pub action_info: Option<String>,
    pub custom: Option<String>,
    pub ip: Option<String>,
    pub event_count: Option<i32>,
    pub status: Option<String>,
}

impl BugLog {
    /// An event with every field absent.
    pub fn empty() -> (e: BugLog)
        ensures
            e.id is None,
            e.app_version is None,
            e.app_key is None,
            e.version is None,
            e.user_agent is None,
            e.locale is None,
            e.url is None,
            e.title is None,
            e.time is None,
            e.bug_type is None,
            e.detail is None,
            e.action_info is None,
            e.custom is None,
            e.ip is None,
            e.event_count is None,
            e.status is None,
    {
        BugLog {
            id: None,
            app_version: None,
            app_key: None,
            version: None,
            user_agent: None,
            locale: None,
            url: None,
            title: None,
            time: None,
            bug_type: None,
            detail: None,
            action_info: None,
            custom: None,
            ip: None,
            event_count: None,
            status: None,
        }
    }

    /// The event as it is persisted: the same record, with `id` and `ip`
    /// replaced by the server-chosen values.
    pub open spec fn spec_with_server_identity(self, id: String, ip: String) -> BugLog {
        BugLog {
            id: Some(id),
            app_version: self.app_version,
            app_key: self.app_key,
            version: self.version,
            user_agent: self.user_agent,
            locale: self.locale,
            url: self.url,
            title: self.title,
            time: self.time,
            bug_type: self.bug_type,
            detail: self.detail,
            action_info: self.action_info,
            custom: self.custom,
            ip: Some(ip),
            event_count: self.event_count,
            status: self.status,
        }
    }

    /// Overwrites `id` with the freshly generated identifier and `ip` with
    /// the request's resolved remote address, keeping every other field.
    /// This runs between decoding and persisting, so an ingested event can
    /// never carry a client-chosen identity or origin.
    pub fn with_server_identity(self, id: String, ip: String) -> (r: BugLog)
        ensures
            r == self.spec_with_server_identity(id, ip),
    {
        BugLog { id: Some(id), ip: Some(ip), ..self }
    }

    /// Stamps the event for ingestion: a freshly generated identifier
    /// replaces whatever `id` the client sent, and the request's resolved
    /// remote address replaces whatever `ip` it sent.
    pub fn stamp_for_ingest(self, remote_ip: String) -> (r: BugLog)
        ensures
            r.ip == Some(remote_ip),
            r.id is Some,
            r.id->Some_0@.len() == 36,
            r == self.spec_with_server_identity(r.id->Some_0, remote_ip),
    {
        let id = fresh_uuid();
        self.with_server_identity(id, remote_ip)
    }
}

/// Relies on rbdc's `Uuid::new`, which renders `uuid::Uuid::new_v4()` in
/// its hyphenated form: a fresh random identifier of 36 characters.  The
/// value is random, so nothing relates two calls.
#[verifier::external_body]
fn fresh_uuid() -> (r: String)
    ensures
        r@.len() == 36,
{
    rbatis::rbdc::types::uuid::Uuid::new().0
}

/// Whatever `id` and `ip` a submitted event carries, the record made ready
/// for persistence carries the server-generated id and the caller's resolved
/// address; whenever the generated id differs from a submitted one, the
/// persisted id is therefore not the submitted one.  Every other field is
/// kept verbatim.
pub proof fn lemma_server_identity_wins(e: BugLog, id: String, ip: String)
    ensures
        e.spec_with_server_identity(id, ip).id == Some(id),
        e.spec_with_server_identity(id, ip).ip == Some(ip),
        e.id != Some(id) ==> e.spec_with_server_identity(id, ip).id != e.id,
        e.spec_with_server_identity(id, ip).app_version == e.app_version,
        e.spec_with_server_identity(id, ip).app_key == e.app_key,
        e.spec_with_server_identity(id, ip).version == e.version,
        e.spec_with_server_identity(id, ip).user_agent == e.user_agent,
        e.spec_with_server_identity(id, ip).locale == e.locale,
        e.spec_with_server_identity(id, ip).url == e.url,
        e.spec_with_server_identity(id, ip).title == e.title,
        e.spec_with_server_identity(id, ip).time == e.time,
        e.spec_with_server_identity(id, ip).bug_type == e.bug_type,
        e.spec_with_server_identity(id, ip).detail == e.detail,
        e.spec_with_server_identity(id, ip).action_info == e.action_info,
        e.spec_with_server_identity(id, ip).custom == e.custom,
        e.spec_with_server_identity(id, ip).event_count == e.event_count,
        e.spec_with_server_identity(id, ip).status == e.status,
{
}

} // verus!
