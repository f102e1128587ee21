//! Presign issuance: the local, signature-only step that turns resolved
//! coordinates into the inputs of a time-limited retrieval URL.
//!
//! Presigning itself is a cryptographic computation performed by the
//! object-store SDK; what this module verifies is everything the service
//! decides around it: that the validity window handed to the signer is
//! exactly the configured time-to-live, that the attachment filename is
//! safely escaped, and that the one failure mode — a time-to-live the signer
//! refuses — is classified as an internal failure.

use vstd::prelude::*;

use crate::config::DownloadCoordinates;
use crate::disposition::content_disposition_value;
use crate::disposition::disposition_of;
use crate::failure::Failure;

verus! {

/// The longest validity window the object-store signer accepts: one week,
/// in seconds.
pub const MAX_PRESIGN_TTL_SECS: u64 = 604800;

#[verifier::external_type_specification]
#[verifier::external_body]
pub struct ExPresigningConfig(aws_sdk_s3::presigning::PresigningConfig);

#[verifier::external_type_specification]
#[verifier::external_body]
pub struct ExPresigningConfigError(aws_sdk_s3::presigning::PresigningConfigError);

/// Builds the signer's configuration for a validity window of `ttl_secs`.
///
/// Relies on `aws_sdk_s3::presigning::PresigningConfig::expires_in`: building
/// succeeds exactly when the duration is at most one week (604800 seconds),
/// and the built configuration carries that duration as the request's
/// validity window, starting at the moment of signing.
#[verifier::external_body]
fn presigning_config_for(ttl_secs: u64) -> (r: Result<
    aws_sdk_s3::presigning::PresigningConfig,
    aws_sdk_s3::presigning::PresigningConfigError,
>)
    ensures
        r is Ok <==> ttl_secs <= 604800,
{
    aws_sdk_s3::presigning::PresigningConfig::expires_in(core::time::Duration::from_secs(ttl_secs))
}

/// Everything a retrieval request is signed over: the object's coordinates,
/// the escaped attachment disposition, the exact time-to-live, and the
/// signer configuration built for that time-to-live.
pub struct PresignPlan {
    pub bucket: String,
    pub key: String,
    pub content_disposition: String,
    pub ttl_secs: u64,
    pub config: aws_sdk_s3::presigning::PresigningConfig,
}

/// Prepares the presign step for one request: escapes the caller-chosen
/// filename into the disposition header, and builds the signer configuration
/// for exactly `ttl_secs`. Fails — as an internal failure, never an
/// unauthorized one — exactly when the time-to-live exceeds what the signer
/// accepts.
pub fn prepare_presign(coords: &DownloadCoordinates, preferred_name: &str, ttl_secs: u64) -> (r:
    Result<PresignPlan, Failure>)
    ensures
        r is Ok <==> ttl_secs <= MAX_PRESIGN_TTL_SECS,
        r matches Ok(p) ==> {
            &&& p.bucket@ == coords.bucket@
            &&& p.key@ == coords.object_key@
            &&& p.content_disposition@ == disposition_of(preferred_name@)
            &&& p.ttl_secs == ttl_secs
        },
        r matches Err(f) ==> f is InternalFailure,
{
    let config = match presigning_config_for(ttl_secs) {
        Ok(c) => c,
        Err(_) => {
            return Err(Failure::InternalFailure("invalid presigned-URL time-to-live".to_owned()));
        },
    };
    Ok(PresignPlan {
        bucket: coords.bucket.clone(),
        key: coords.object_key.clone(),
        content_disposition: content_disposition_value(preferred_name),
        ttl_secs,
        config,
    })
}

/// A presigned retrieval request as the pipeline sees it: the signed URL and
/// the moment it stops being honoured, in seconds since the epoch.
pub struct PresignedRequest {
    pub url: String,
    pub expires_at: u64,
}

impl PresignedRequest {
    /// Records a request signed at `issued_at_secs` for a window of
    /// `ttl_secs`: it expires at exactly issuance time plus the configured
    /// time-to-live, never later.
    pub fn issue(url: String, issued_at_secs: u64, ttl_secs: u64) -> (r: PresignedRequest)
        requires
            issued_at_secs + ttl_secs <= u64::MAX,
        ensures
            r.url == url,
            r.expires_at == issued_at_secs + ttl_secs,
    {
        PresignedRequest { url, expires_at: issued_at_secs + ttl_secs }
    }
}

} // verus!
