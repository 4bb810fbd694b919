//! The terms under which the backend signs a grant.

use crate::error::GatewayError;
use aws_sdk_s3::presigning::PresigningConfig;
use aws_sdk_s3::presigning::PresigningConfigError;
use std::time::Duration;
use vstd::prelude::*;

verus! {

/// Lifetime of every grant that the gateway mints, in seconds: 24 hours.
pub const GRANT_LIFETIME_SECS: u64 = 86_400;

/// The longest lifetime that the backend signs, in seconds: one week.
pub const MAX_GRANT_LIFETIME_SECS: u64 = 604_800;

/// `PresigningConfig` of aws-sdk-s3: opaque here, carried and never read.
#[verifier::external_type_specification]
#[verifier::external_body]
pub struct ExPresigningConfig(aws_sdk_s3::presigning::PresigningConfig);

/// `PresigningConfigError` of aws-sdk-s3: opaque here, mapped to
/// [`GatewayError::ExpiryConfiguration`].
#[verifier::external_type_specification]
#[verifier::external_body]
pub struct ExPresigningConfigError(aws_sdk_s3::presigning::PresigningConfigError);

/// `PresigningConfig::expires_in` of aws-sdk-s3, on a whole number of seconds.
///
/// Trusted, not proved: the call succeeds exactly when the duration is at
/// most one week. Nothing is claimed of the configuration itself, which
/// also records the moment of the call.
#[verifier::external_body]
fn presigning_config(lifetime_secs: u64) -> (made: Result<PresigningConfig, PresigningConfigError>)
    ensures
        made is Ok <==> lifetime_secs <= MAX_GRANT_LIFETIME_SECS,
{
    PresigningConfig::expires_in(Duration::from_secs(lifetime_secs))
}

/// How long a grant lasts, together with the configuration that the backend
/// made for that lifetime. Only [`grant_terms`] makes one.
#[derive(Debug)]
pub struct GrantTerms {
    lifetime_secs: u64,
    config: PresigningConfig,
}

impl GrantTerms {
    /// The lifetime of the grant in seconds, counted from its signing.
    pub closed spec fn lifetime(&self) -> u64 {
        self.lifetime_secs
    }

    /// The lifetime of the grant in seconds, counted from its signing.
    pub fn lifetime_secs(&self) -> (secs: u64)
        ensures
            secs == self.lifetime(),
    {
        self.lifetime_secs
    }

    /// The backend's record of the lifetime.
    pub closed spec fn backend_config(&self) -> PresigningConfig {
        self.config
    }

    /// The configuration to hand to the backend when it signs.
    pub fn config(&self) -> (config: &PresigningConfig)
        ensures
            *config == self.backend_config(),
    {
        &self.config
    }
}

/// The terms of a grant that lasts `lifetime_secs` seconds.
///
/// Fails with [`GatewayError::ExpiryConfiguration`] exactly when the lifetime
/// is longer than the backend signs.
pub fn grant_terms(lifetime_secs: u64) -> (terms: Result<GrantTerms, GatewayError>)
    ensures
        lifetime_secs <= MAX_GRANT_LIFETIME_SECS ==> terms is Ok && terms->Ok_0.lifetime()
            == lifetime_secs,
        lifetime_secs > MAX_GRANT_LIFETIME_SECS ==> terms == Err::<GrantTerms, GatewayError>(
            GatewayError::ExpiryConfiguration,
        ),
{
    match presigning_config(lifetime_secs) {
        Ok(config) => Ok(GrantTerms { lifetime_secs, config }),
        Err(_) => Err(GatewayError::ExpiryConfiguration),
    }
}

} // verus!
