//! The license state the recording checks read.
use vstd::prelude::*;

verus! {

/// The state of the license.
#[derive(Debug, Clone, Copy, PartialEq, Eq, Structural)]
pub enum LicenseState {
    Trial,
    Licensed,
    Expired,
    NoLicense,
}

/// What the license check last reported.
#[derive(Debug, Clone)]
pub struct LicenseStatus {
    pub status: LicenseState,
    pub trial_days_left: Option<i32>,
    pub license_type: Option<String>,
    pub license_key: Option<String>,
    pub expires_at: Option<String>,
}

/// A license status kept in memory between checks.
#[derive(Debug, Clone)]
pub struct CachedLicense {
    pub status: LicenseStatus,
}

impl CachedLicense {
    /// Caches a status.
    pub fn new(status: LicenseStatus) -> (r: CachedLicense)
        ensures
            r.status == status,
    {
        CachedLicense { status }
    }
}

} // verus!
