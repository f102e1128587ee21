//! Process-wide settings and the small fixed responses of the service: the
//! presigned-URL time-to-live with its default, the homepage redirect target,
//! the robots exclusion body, and the shape of an access-log record.

use vstd::prelude::*;

use crate::config::ObjectStoreConfig;

verus! {

/// The time-to-live used when none is configured: sixty seconds.
pub const DEFAULT_PRESIGNED_TTL_SECS: u64 = 60;

/// Read-only per-process settings, shared by every request.
pub struct Settings {
    /// Validity window of every presigned URL, in seconds.
    pub presigned_ttl_secs: u64,
    /// Where a request for the bare root is permanently redirected.
    pub redirect_homepage: String,
    /// The process-wide object-store configuration that per-request
    /// overrides are merged into.
    pub base_config: ObjectStoreConfig,
}

impl Settings {
    /// Assembles the settings exactly as given.
    pub fn new(presigned_ttl_secs: u64, redirect_homepage: String, base_config: ObjectStoreConfig) -> (r:
        Settings)
        ensures
            r.presigned_ttl_secs == presigned_ttl_secs,
            r.redirect_homepage == redirect_homepage,
            r.base_config == base_config,
    {
        Settings { presigned_ttl_secs, redirect_homepage, base_config }
    }
}

/// The configured time-to-live, or the sixty-second default where the
/// environment provides none.
pub fn ttl_or_default(configured: Option<u64>) -> (r: u64)
    ensures
        r == match configured {
            Some(v) => v,
            None => DEFAULT_PRESIGNED_TTL_SECS,
        },
{
    match configured {
        Some(v) => v,
        None => DEFAULT_PRESIGNED_TTL_SECS,
    }
}

/// The fixed robots exclusion body: it disallows everything for every agent.
pub fn robots_txt() -> (r: &'static str)
    ensures
        r@ == " User-agent: * \n Disallow: / \n"@,
{
    " User-agent: * \n Disallow: / \n"
}

/// One append-only access-log record: the resolved record it belongs to and
/// an open key/value mapping of caller metadata.
pub struct AccessRecord {
    pub record_id: u128,
    pub data: Vec<(String, String)>,
}

/// Whether every key occurs at most once in the mapping.
pub open spec fn unique_keys(data: Seq<(String, String)>) -> bool {
    forall|i: int, j: int| 0 <= i < j < data.len() ==> (#[trigger] data[i]).0@ != (
    #[trigger] data[j]).0@
}

impl AccessRecord {
    /// The record written for one successful resolution: it carries exactly
    /// the client's address, under the one key the log uses for it.
    pub fn for_client(record_id: u128, client_ip: String) -> (r: AccessRecord)
        ensures
            r.record_id == record_id,
            r.data@.len() == 1,
            r.data@[0].0@ == "client_ip"@,
            r.data@[0].1 == client_ip,
            unique_keys(r.data@),
    {
        let mut data: Vec<(String, String)> = Vec::new();
        data.push(("client_ip".to_owned(), client_ip));
        AccessRecord { record_id, data }
    }
}

} // verus!
