//! Error types of the rename pipeline.

use vstd::prelude::*;
use crate::grants::Grantee;

verus! {

/// Fatal enumeration error: the first listing call returned no contents at
/// all, so there is nothing to rename under the given bucket and prefix.
#[derive(Debug, PartialEq, Eq)]
pub enum S3Error {
    EmptyBucket { bucket: String, prefix: String },
}

/// Fatal expression error: the substitution engine refused the command text.
#[derive(Debug)]
pub enum ExpressionError {
    SedRegexParseError { expression: String, error: sedregex::ErrorKind },
}

/// Fatal argument errors: a malformed store URL, an unresolvable region, or
/// an unknown canned-ACL name.
#[derive(Debug, PartialEq, Eq)]
pub enum ArgumentError {
    InvalidS3Url { url: String },
    CouldNotDetermineBucketRegion { bucket: String },
    InvalidCannedACL { s: String },
}

/// Per-key grant-translation errors: a grantee with no identifying field, an
/// unrecognized permission kind, or a record with no permission at all.
#[derive(Debug, PartialEq, Eq)]
pub enum GranteeParseError {
    NoValidID { grantee: Grantee },
    InvalidPermission { permission: String, grantee: Grantee },
    MissingPermission { grantee: Grantee },
}

} // verus!
