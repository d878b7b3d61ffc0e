use s3rename::acl::CannedACL;
use s3rename::config::Config;
use s3rename::expr::RenameExpr;
use s3rename::grants::{GrantRecord, Grantee};
use s3rename::descriptor::HeadProperties;
use s3rename::listing::{Enumerator, ListEntry, ListPage, ObjectKey};
use s3rename::task::{plan_run, start, KeyAction, KeyOutcome, KeyPhase, PendingDeletions};

fn config() -> Config {
    Config {
        verbose: false,
        quiet: true,
        dry_run: false,
        no_preserve_properties: true,
        no_preserve_acl: true,
        canned_acl: None,
    }
}

fn key(name: &str) -> ObjectKey {
    ObjectKey { name: String::from(name), storage_class: Some(String::from("STANDARD")) }
}

fn expr(text: &str) -> RenameExpr {
    RenameExpr::new(String::from(text), true).unwrap()
}

#[test]
fn an_unchanged_key_is_skipped_with_no_store_call() {
    let (task, action) = start(&config(), "bkt", &expr("s/b/B/"), key("plain.txt"));
    assert!(matches!(action, KeyAction::Finish(KeyOutcome::Skipped)));
    assert_eq!(task.phase, KeyPhase::Finished);
}

#[test]
fn dry_run_issues_no_call_whatever_the_key_set() {
    let cfg = Config { dry_run: false, ..config() };
    let dry = Config { dry_run: true, no_preserve_properties: false, no_preserve_acl: false, ..cfg };
    let keys = vec![key("a/b.txt"), key("b/b.txt"), key("c/b.txt"), key("same.txt")];
    let plan = plan_run(&dry, "bkt", &expr("s/b/B/"), &keys);
    assert_eq!(plan.len(), 4);
    for (task, action) in plan {
        assert!(matches!(action, KeyAction::Finish(_)));
        assert_eq!(task.phase, KeyPhase::Finished);
    }
}

#[test]
fn preserved_acl_asks_for_the_grant_lookup_first() {
    let cfg = Config { no_preserve_acl: false, ..config() };
    let (task, action) = start(&cfg, "bkt", &expr("s/b/B/"), key("a/b.txt"));
    assert!(matches!(action, KeyAction::FetchAcl));
    assert_eq!(task.phase, KeyPhase::AwaitingAcl);
}

#[test]
fn no_preserve_acl_never_asks_for_grants() {
    let cfg = Config { no_preserve_acl: true, no_preserve_properties: false, ..config() };
    let (task, action) = start(&cfg, "bkt", &expr("s/b/B/"), key("a/b.txt"));
    assert!(matches!(action, KeyAction::FetchHead));
    assert_eq!(task.phase, KeyPhase::AwaitingHead);
}

#[test]
fn a_canned_acl_also_skips_the_grant_lookup() {
    let cfg = Config {
        no_preserve_acl: false,
        canned_acl: Some(CannedACL::PublicRead),
        ..config()
    };
    let (_, action) = start(&cfg, "bkt", &expr("s/b/B/"), key("a/b.txt"));
    match action {
        KeyAction::IssueCopy(d) => assert_eq!(d.acl.as_deref(), Some("public-read")),
        _ => panic!("expected an immediate copy"),
    }
}

#[test]
fn the_bare_copy_descriptor_is_exact() {
    let (task, action) = start(&config(), "bkt", &expr("s/b/B/"), key("a/b.txt"));
    assert_eq!(task.target, "a/B.txt");
    match action {
        KeyAction::IssueCopy(d) => {
            assert_eq!(d.bucket, "bkt");
            assert_eq!(d.copy_source, "bkt/a/b.txt");
            assert_eq!(d.key, "a/B.txt");
            assert_eq!(d.storage_class.as_deref(), Some("STANDARD"));
            // Grants are not preserved here: the private default applies.
            assert_eq!(d.acl.as_deref(), Some("private"));
            assert_eq!(d.metadata_directive.as_deref(), Some("COPY"));
            assert_eq!(d.tagging_directive.as_deref(), Some("COPY"));
            assert_eq!(d.metadata, None);
            assert_eq!(d.grant_read, None);
            assert_eq!(d.copy_source_sse_customer_key, None);
        }
        _ => panic!("expected a copy"),
    }
}

#[test]
fn grants_flow_into_joined_directives() {
    let cfg = Config { no_preserve_acl: false, ..config() };
    let (mut task, action) = start(&cfg, "bkt", &expr("s/b/B/"), key("a/b.txt"));
    assert!(matches!(action, KeyAction::FetchAcl));
    let records = vec![
        GrantRecord {
            grantee: Grantee {
                display_name: None,
                email_address: None,
                id: Some(String::from("one")),
                grantee_type: String::from("CanonicalUser"),
                uri: None,
            },
            permission: Some(String::from("READ")),
        },
        GrantRecord {
            grantee: Grantee {
                display_name: None,
                email_address: None,
                id: Some(String::from("two")),
                grantee_type: String::from("CanonicalUser"),
                uri: None,
            },
            permission: Some(String::from("READ")),
        },
        GrantRecord {
            grantee: Grantee {
                display_name: None,
                email_address: None,
                id: Some(String::from("w")),
                grantee_type: String::from("CanonicalUser"),
                uri: None,
            },
            permission: Some(String::from("WRITE")),
        },
    ];
    match task.on_acl(&records).unwrap() {
        KeyAction::IssueCopy(d) => {
            assert_eq!(d.grant_read.as_deref(), Some("id=\"one\", id=\"two\""));
            assert_eq!(d.grant_read_acp, None);
            assert_eq!(d.grant_write_acp, None);
            assert_eq!(d.grant_full_control, None);
            // No canned override and grants preserved: no ACL directive.
            assert_eq!(d.acl, None);
        }
        _ => panic!("expected a copy after the grant lookup"),
    }
}

#[test]
fn a_write_grant_never_reaches_a_directive() {
    let cfg = Config { no_preserve_acl: false, ..config() };
    let (mut task, _) = start(&cfg, "bkt", &expr("s/b/B/"), key("a/b.txt"));
    let records = vec![GrantRecord {
        grantee: Grantee {
            display_name: None,
            email_address: None,
            id: Some(String::from("w")),
            grantee_type: String::from("CanonicalUser"),
            uri: None,
        },
        permission: Some(String::from("WRITE")),
    }];
    match task.on_acl(&records).unwrap() {
        KeyAction::IssueCopy(d) => {
            assert_eq!(d.grant_read, None);
            assert_eq!(d.grant_read_acp, None);
            assert_eq!(d.grant_write_acp, None);
            assert_eq!(d.grant_full_control, None);
        }
        _ => panic!("expected a copy"),
    }
}

#[test]
fn a_failed_copy_schedules_no_delete() {
    let (mut task, action) = start(&config(), "bkt", &expr("s/b/B/"), key("a/b.txt"));
    assert!(matches!(action, KeyAction::IssueCopy(_)));
    let (guard, outcome) = task.on_copy(false);
    assert!(guard.is_none());
    assert_eq!(outcome, KeyOutcome::CopyFailed);
    let pending = PendingDeletions::new();
    assert_eq!(pending.scheduled_keys().len(), 0);
}

#[test]
fn a_successful_copy_schedules_exactly_its_source() {
    let (mut task, _) = start(&config(), "bkt", &expr("s/b/B/"), key("a/b.txt"));
    let (guard, outcome) = task.on_copy(true);
    assert_eq!(outcome, KeyOutcome::Renamed);
    let mut pending = PendingDeletions::new();
    let request = guard.unwrap().finalize(&mut pending);
    assert_eq!(request.bucket, "bkt");
    assert_eq!(request.key, "a/b.txt");
    assert_eq!(pending.scheduled_keys(), &vec![String::from("a/b.txt")]);
}

#[test]
fn end_to_end_one_key_is_renamed_and_the_rest_are_untouched() {
    // The bucket holds three keys; the expression renames the first `b`.
    let mut store: Vec<String> = vec![
        String::from("a/b.txt"),
        String::from("a/c.txt"),
        String::from("a/"),
    ];
    let cfg = config();
    let rule = expr("s/b/B/");

    let mut enumerator = Enumerator::new(String::from("bkt"), Some(String::from("a/")));
    let page = ListPage {
        contents: Some(
            store
                .iter()
                .map(|k| ListEntry { key: Some(k.clone()), storage_class: None })
                .collect(),
        ),
        is_truncated: Some(false),
        continuation: None,
    };
    enumerator.absorb_page(page).unwrap();
    let keys = enumerator.into_keys();
    assert_eq!(
        keys.iter().map(|k| k.name.as_str()).collect::<Vec<_>>(),
        vec!["a/b.txt", "a/c.txt"]
    );

    let mut copies: Vec<(String, String)> = Vec::new();
    let mut deletes: Vec<String> = Vec::new();
    let mut pending = PendingDeletions::new();
    for (mut task, action) in plan_run(&cfg, "bkt", &rule, &keys) {
        match action {
            KeyAction::Finish(outcome) => assert_eq!(outcome, KeyOutcome::Skipped),
            KeyAction::IssueCopy(d) => {
                copies.push((d.copy_source.clone(), d.key.clone()));
                store.push(d.key.clone());
                let (guard, outcome) = task.on_copy(true);
                assert_eq!(outcome, KeyOutcome::Renamed);
                let request = guard.unwrap().finalize(&mut pending);
                store.retain(|k| *k != request.key);
                deletes.push(request.key);
            }
            _ => panic!("this configuration asks for no lookup"),
        }
    }

    assert_eq!(copies, vec![(String::from("bkt/a/b.txt"), String::from("a/B.txt"))]);
    assert_eq!(deletes, vec![String::from("a/b.txt")]);
    let mut sorted = store.clone();
    sorted.sort();
    assert_eq!(sorted, vec!["a/", "a/B.txt", "a/c.txt"]);
}

#[test]
fn the_preserving_copy_carries_the_head_forward() {
    let cfg = Config { no_preserve_properties: false, ..config() };
    let (mut task, action) = start(&cfg, "bkt", &expr("s/b/B/"), key("a/b.txt"));
    assert!(matches!(action, KeyAction::FetchHead));
    let head = HeadProperties {
        cache_control: Some(String::from("no-cache")),
        content_disposition: None,
        content_encoding: None,
        content_language: None,
        content_type: Some(String::from("text/plain")),
        expires: None,
        metadata: Some(vec![(String::from("k"), String::from("v"))]),
        object_lock_legal_hold_status: None,
        object_lock_mode: None,
        object_lock_retain_until_date: None,
        request_charged: None,
        server_side_encryption: Some(String::from("aws:kms")),
        sse_customer_algorithm: Some(String::from("AES256")),
        sse_customer_key_md5: None,
        ssekms_key_id: Some(String::from("key-id")),
        website_redirect_location: None,
    };
    match task.on_head(head) {
        KeyAction::IssueCopy(d) => {
            assert_eq!(d.metadata_directive.as_deref(), Some("REPLACE"));
            assert_eq!(d.cache_control.as_deref(), Some("no-cache"));
            assert_eq!(d.content_type.as_deref(), Some("text/plain"));
            assert_eq!(d.metadata, Some(vec![(String::from("k"), String::from("v"))]));
            assert_eq!(d.copy_source_sse_customer_algorithm.as_deref(), Some("AES256"));
            assert_eq!(d.sse_customer_algorithm.as_deref(), Some("AES256"));
            assert_eq!(d.server_side_encryption.as_deref(), Some("aws:kms"));
            assert_eq!(d.ssekms_key_id.as_deref(), Some("key-id"));
            // Customer-supplied encryption keys are never re-sent.
            assert_eq!(d.sse_customer_key, None);
            assert_eq!(d.copy_source_sse_customer_key, None);
        }
        _ => panic!("expected the preserving copy"),
    }
    assert_eq!(task.phase, KeyPhase::AwaitingCopy);
}
