//! The process-wide configuration and region resolution.

use vstd::prelude::*;
use crate::acl::CannedACL;
use crate::errors::ArgumentError;

verus! {

/// The run's configuration: constructed once at startup, read-only afterwards,
/// referenced by every component of the pipeline.
#[derive(Clone, Copy, Debug)]
pub struct Config {
    /// Echo parsed configuration, resolved region and enumerated keys.
    pub verbose: bool,
    /// Suppress per-rename announcements.
    pub quiet: bool,
    /// Enumerate and transform only: no resolver, copy or delete calls.
    pub dry_run: bool,
    /// Do not fetch per-object properties before copying.
    pub no_preserve_properties: bool,
    /// Do not look up or carry over per-object access grants.
    pub no_preserve_acl: bool,
    /// A canned ACL applied to every renamed key in place of preserved grants.
    pub canned_acl: Option<CannedACL>,
}

/// Picks the region to work in: an explicit override wins, else the bucket's
/// reported region, else the run fails naming the bucket.
pub fn resolve_region(override_region: Option<String>, bucket_region: Option<String>, bucket: &str)
    -> (r: Result<String, ArgumentError>)
    ensures
        override_region matches Some(reg) ==> (r matches Ok(o) && o == reg),
        override_region is None ==> (bucket_region matches Some(reg) ==> (r matches Ok(o) && o
            == reg)),
        override_region is None && bucket_region is None ==> (r matches Err(
            ArgumentError::CouldNotDetermineBucketRegion { bucket: b },
        ) && b@ == bucket@),
{
    match override_region {
        Some(reg) => Ok(reg),
        None => match bucket_region {
            Some(reg) => Ok(reg),
            None => Err(
                ArgumentError::CouldNotDetermineBucketRegion { bucket: bucket.to_owned() },
            ),
        },
    }
}

} // verus!
