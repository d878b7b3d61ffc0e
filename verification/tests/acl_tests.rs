use s3rename::acl::CannedACL;
use s3rename::errors::ArgumentError;

#[test]
fn possible_strings_lists_every_canned_acl() {
    let strings = CannedACL::possible_strings();
    assert_eq!(
        strings,
        vec![
            "private",
            "public-read",
            "public-read-write",
            "aws-exec-read",
            "authenticated-read",
            "bucket-owner-read",
            "bucket-owner-full-control",
        ]
    );
}

#[test]
fn from_str_accepts_every_canonical_name() {
    assert!(matches!(CannedACL::from_str("private"), Ok(CannedACL::Private)));
    assert!(matches!(CannedACL::from_str("public-read"), Ok(CannedACL::PublicRead)));
    assert!(matches!(
        CannedACL::from_str("public-read-write"),
        Ok(CannedACL::PublicReadWrite)
    ));
    assert!(matches!(CannedACL::from_str("aws-exec-read"), Ok(CannedACL::AWSExecRead)));
    assert!(matches!(
        CannedACL::from_str("authenticated-read"),
        Ok(CannedACL::AuthenticatedRead)
    ));
    assert!(matches!(
        CannedACL::from_str("bucket-owner-read"),
        Ok(CannedACL::BucketOwnerRead)
    ));
    assert!(matches!(
        CannedACL::from_str("bucket-owner-full-control"),
        Ok(CannedACL::BucketOwnerFullControl)
    ));
}

#[test]
fn from_str_rejects_unknown_names() {
    match CannedACL::from_str("public") {
        Err(ArgumentError::InvalidCannedACL { s }) => assert_eq!(s, "public"),
        other => panic!("expected invalid canned ACL, got {:?}", other),
    }
    assert!(CannedACL::from_str("").is_err());
    assert!(CannedACL::from_str("PRIVATE").is_err());
}

#[test]
fn to_string_round_trips_through_from_str() {
    for name in CannedACL::possible_strings() {
        let acl = CannedACL::from_str(name).unwrap();
        assert_eq!(acl.to_string(), name);
    }
}
