//! Resolved download coordinates and per-request object-store configuration.
//!
//! A valid secret resolves into [`DownloadCoordinates`]; its optional override
//! fields are merged into the process-wide [`ObjectStoreConfig`] by
//! [`derive_config`], a pure function re-run for every request.

use vstd::prelude::*;

verus! {

/// The coordinates a secret resolves to: where the object lives, what to call
/// the download, and per-tenant object-store connection overrides. A value of
/// this type exists only for a secret that was valid and unexpired when the
/// store was asked.
pub struct DownloadCoordinates {
    /// Identifier of the resolved record (a 128-bit store key); used only as
    /// the access-log foreign key.
    pub record_id: u128,
    /// Target object-store bucket.
    pub bucket: String,
    /// Target object key within the bucket.
    pub object_key: String,
    /// Filename the store associates with the record.
    pub download_filename: String,
    /// Per-tenant endpoint override; `None` means the process default.
    pub endpoint_override: Option<String>,
    /// Per-tenant region override; `None` means the process default.
    pub region_override: Option<String>,
    /// Per-tenant addressing-style override; `None` means the process default.
    pub path_style_override: Option<bool>,
}

/// Object-store connection settings: an optional endpoint, an optional region,
/// and the bucket addressing style (path-style when `force_path_style` is
/// set, otherwise virtual-hosted). `None` leaves the choice to the SDK.
pub struct ObjectStoreConfig {
    pub endpoint: Option<String>,
    pub region: Option<String>,
    pub force_path_style: bool,
}

/// The configuration a request must use: each override present in the
/// coordinates replaces the corresponding base field, each absent one leaves
/// the base field untouched. The three fields are independent of one another.
pub open spec fn derived_config_spec(base: ObjectStoreConfig, c: DownloadCoordinates) -> ObjectStoreConfig {
    ObjectStoreConfig {
        endpoint: if c.endpoint_override is Some {
            c.endpoint_override
        } else {
            base.endpoint
        },
        region: if c.region_override is Some {
            c.region_override
        } else {
            base.region
        },
        force_path_style: if c.path_style_override is Some {
            c.path_style_override->0
        } else {
            base.force_path_style
        },
    }
}

/// Derives the object-store configuration for one request. Pure: it never
/// mutates the shared base configuration, and the same base and coordinates
/// always give the same result.
pub fn derive_config(base: &ObjectStoreConfig, coords: &DownloadCoordinates) -> (r: ObjectStoreConfig)
    ensures
        r == derived_config_spec(*base, *coords),
{
    let endpoint: Option<String> = match &coords.endpoint_override {
        Some(e) => Some(e.clone()),
        None => match &base.endpoint {
            Some(e) => Some(e.clone()),
            None => None,
        },
    };
    let region: Option<String> = match &coords.region_override {
        Some(r) => Some(r.clone()),
        None => match &base.region {
            Some(r) => Some(r.clone()),
            None => None,
        },
    };
    let force_path_style: bool = match coords.path_style_override {
        Some(b) => b,
        None => base.force_path_style,
    };
    ObjectStoreConfig { endpoint, region, force_path_style }
}

/// How the process-wide addressing-style flag reads its environment value:
/// exactly the strings `true`, `TRUE` and `1` select path-style addressing.
pub fn parse_path_style_flag(value: &str) -> (r: bool)
    ensures
        r == (value@ == "true"@ || value@ == "TRUE"@ || value@ == "1"@),
{
    str_equal(value, "true") || str_equal(value, "TRUE") || str_equal(value, "1")
}

/// Character-for-character string equality.
fn str_equal(a: &str, b: &str) -> (r: bool)
    ensures
        r == (a@ == b@),
{
    let a_len = a.unicode_len();
    let b_len = b.unicode_len();
    if a_len != b_len {
        assert(a@ != b@) by {
            assert(a@.len() != b@.len());
        }
        return false;
    }
    let mut i: usize = 0;
    while i < a_len
        invariant
            i <= a_len,
            a_len == a@.len(),
            b_len == b@.len(),
            a_len == b_len,
            forall|j: int| 0 <= j < i ==> a@[j] == b@[j],
        decreases a_len - i,
    {
        if a.get_char(i) != b.get_char(i) {
            assert(a@ != b@) by {
                assert(a@[i as int] != b@[i as int]);
            }
            return false;
        }
        i += 1;
    }
    assert(a@ =~= b@);
    true
}

} // verus!
