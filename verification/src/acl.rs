//! Canned access-control policies and their canonical names.

use vstd::prelude::*;
use crate::errors::ArgumentError;
use crate::strutil::str_eq;

verus! {

/// A predefined named access-control policy, applied wholesale to an object
/// in place of preserved per-grantee permissions.
#[derive(Clone, Copy, Debug, PartialEq, Eq, Structural)]
pub enum CannedACL {
    Private,
    PublicRead,
    PublicReadWrite,
    AWSExecRead,
    AuthenticatedRead,
    BucketOwnerRead,
    BucketOwnerFullControl,
}

/// The canonical name of a canned ACL, as the store spells it.
pub open spec fn acl_label(a: CannedACL) -> Seq<char> {
    match a {
        CannedACL::Private => "private"@,
        CannedACL::PublicRead => "public-read"@,
        CannedACL::PublicReadWrite => "public-read-write"@,
        CannedACL::AWSExecRead => "aws-exec-read"@,
        CannedACL::AuthenticatedRead => "authenticated-read"@,
        CannedACL::BucketOwnerRead => "bucket-owner-read"@,
        CannedACL::BucketOwnerFullControl => "bucket-owner-full-control"@,
    }
}

/// The canned ACL standing at a given position of the canonical name list.
pub open spec fn acl_of_index(i: int) -> CannedACL {
    if i == 0 {
        CannedACL::Private
    } else if i == 1 {
        CannedACL::PublicRead
    } else if i == 2 {
        CannedACL::PublicReadWrite
    } else if i == 3 {
        CannedACL::AWSExecRead
    } else if i == 4 {
        CannedACL::AuthenticatedRead
    } else if i == 5 {
        CannedACL::BucketOwnerRead
    } else {
        CannedACL::BucketOwnerFullControl
    }
}

impl CannedACL {
    /// Every canonical canned-ACL name, in the fixed order that also orders
    /// the variants of the enum.
    pub fn possible_strings() -> (r: Vec<&'static str>)
        ensures
            r@.len() == 7,
            forall|i: int| 0 <= i < 7 ==> (#[trigger] r@[i])@ == acl_label(acl_of_index(i)),
    {
        let mut v: Vec<&'static str> = Vec::new();
        v.push("private");
        v.push("public-read");
        v.push("public-read-write");
        v.push("aws-exec-read");
        v.push("authenticated-read");
        v.push("bucket-owner-read");
        v.push("bucket-owner-full-control");
        v
    }

    /// Parses a canonical canned-ACL name by a fixed mapping from name to
    /// variant; any other string is an argument error that carries the
    /// offending input.
    pub fn from_str(s: &str) -> (r: Result<CannedACL, ArgumentError>)
        ensures
            match r {
                Ok(a) => acl_label(a) == s@,
                Err(e) => {
                    &&& forall|a: CannedACL| acl_label(a) != s@
                    &&& e matches ArgumentError::InvalidCannedACL { s: bad } && bad@ == s@
                },
            },
    {
        if str_eq(s, "private") {
            Ok(CannedACL::Private)
        } else if str_eq(s, "public-read") {
            Ok(CannedACL::PublicRead)
        } else if str_eq(s, "public-read-write") {
            Ok(CannedACL::PublicReadWrite)
        } else if str_eq(s, "aws-exec-read") {
            Ok(CannedACL::AWSExecRead)
        } else if str_eq(s, "authenticated-read") {
            Ok(CannedACL::AuthenticatedRead)
        } else if str_eq(s, "bucket-owner-read") {
            Ok(CannedACL::BucketOwnerRead)
        } else if str_eq(s, "bucket-owner-full-control") {
            Ok(CannedACL::BucketOwnerFullControl)
        } else {
            Err(ArgumentError::InvalidCannedACL { s: s.to_owned() })
        }
    }

    /// The canonical name of this canned ACL.
    pub fn to_string(&self) -> (r: String)
        ensures
            r@ == acl_label(*self),
    {
        match self {
            CannedACL::Private => "private".to_owned(),
            CannedACL::PublicRead => "public-read".to_owned(),
            CannedACL::PublicReadWrite => "public-read-write".to_owned(),
            CannedACL::AWSExecRead => "aws-exec-read".to_owned(),
            CannedACL::AuthenticatedRead => "authenticated-read".to_owned(),
            CannedACL::BucketOwnerRead => "bucket-owner-read".to_owned(),
            CannedACL::BucketOwnerFullControl => "bucket-owner-full-control".to_owned(),
        }
    }
}

} // verus!
