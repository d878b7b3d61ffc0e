use s3rename::errors::GranteeParseError;
use s3rename::grants::{generate_permission_grant, translate_grants, GrantRecord, Grantee};

fn grantee(uri: Option<&str>, id: Option<&str>, email: Option<&str>) -> Grantee {
    Grantee {
        display_name: None,
        email_address: email.map(String::from),
        id: id.map(String::from),
        grantee_type: String::from("CanonicalUser"),
        uri: uri.map(String::from),
    }
}

fn record(permission: Option<&str>, g: Grantee) -> GrantRecord {
    GrantRecord { grantee: g, permission: permission.map(String::from) }
}

#[test]
fn grant_rendering_prefers_uri_then_id_then_email() {
    let by_uri = grantee(Some("http://acs.example/AllUsers"), Some("abc"), Some("a@b.c"));
    assert_eq!(
        generate_permission_grant(by_uri).unwrap(),
        "uri=\"http://acs.example/AllUsers\""
    );
    let by_id = grantee(None, Some("abc123"), Some("a@b.c"));
    assert_eq!(generate_permission_grant(by_id).unwrap(), "id=\"abc123\"");
    let by_email = grantee(None, None, Some("a@b.c"));
    assert_eq!(generate_permission_grant(by_email).unwrap(), "emailAddress=\"a@b.c\"");
}

#[test]
fn a_grantee_with_no_identifier_is_an_error() {
    let empty = grantee(None, None, None);
    match generate_permission_grant(empty.duplicate()) {
        Err(GranteeParseError::NoValidID { grantee: g }) => assert_eq!(g, empty),
        other => panic!("expected no-valid-id, got {:?}", other),
    }
}

#[test]
fn translation_sorts_records_into_the_four_lists() {
    let records = vec![
        record(Some("READ"), grantee(None, Some("r1"), None)),
        record(Some("FULL_CONTROL"), grantee(None, Some("f1"), None)),
        record(Some("READ"), grantee(Some("u2"), None, None)),
        record(Some("READ_ACP"), grantee(None, None, Some("e3"))),
        record(Some("WRITE_ACP"), grantee(None, Some("w4"), None)),
    ];
    let lists = translate_grants(&records).unwrap();
    assert_eq!(lists.read, vec!["id=\"r1\"", "uri=\"u2\""]);
    assert_eq!(lists.read_acp, vec!["emailAddress=\"e3\""]);
    assert_eq!(lists.write_acp, vec!["id=\"w4\""]);
    assert_eq!(lists.full_control, vec!["id=\"f1\""]);
}

#[test]
fn write_grants_are_dropped_without_failing() {
    let records = vec![
        record(Some("WRITE"), grantee(None, Some("w"), None)),
        record(Some("READ"), grantee(None, Some("r"), None)),
        record(Some("WRITE"), grantee(None, None, None)),
    ];
    let lists = translate_grants(&records).unwrap();
    assert_eq!(lists.read, vec!["id=\"r\""]);
    assert_eq!(lists.read_acp, Vec::<String>::new());
    assert_eq!(lists.write_acp, Vec::<String>::new());
    assert_eq!(lists.full_control, Vec::<String>::new());
}

#[test]
fn an_unknown_permission_fails_with_its_name() {
    let g = grantee(None, Some("x"), None);
    let records = vec![
        record(Some("READ"), grantee(None, Some("ok"), None)),
        record(Some("OWN"), g.duplicate()),
    ];
    match translate_grants(&records) {
        Err(GranteeParseError::InvalidPermission { permission, grantee: bad }) => {
            assert_eq!(permission, "OWN");
            assert_eq!(bad, g);
        }
        other => panic!("expected invalid permission, got {:?}", other.map(|_| ())),
    }
}

#[test]
fn a_missing_permission_fails() {
    let g = grantee(None, Some("x"), None);
    let records = vec![record(None, g.duplicate())];
    match translate_grants(&records) {
        Err(GranteeParseError::MissingPermission { grantee: bad }) => assert_eq!(bad, g),
        other => panic!("expected missing permission, got {:?}", other.map(|_| ())),
    }
}

#[test]
fn an_unidentifiable_grantee_on_a_kept_permission_fails() {
    let records = vec![record(Some("FULL_CONTROL"), grantee(None, None, None))];
    assert!(matches!(
        translate_grants(&records),
        Err(GranteeParseError::NoValidID { .. })
    ));
}
