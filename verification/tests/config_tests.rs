use s3rename::config::resolve_region;
use s3rename::errors::ArgumentError;

#[test]
fn an_explicit_region_override_wins() {
    let r = resolve_region(
        Some(String::from("eu-west-1")),
        Some(String::from("us-east-2")),
        "bkt",
    );
    assert_eq!(r.unwrap(), "eu-west-1");
}

#[test]
fn the_bucket_region_is_the_fallback() {
    let r = resolve_region(None, Some(String::from("us-east-2")), "bkt");
    assert_eq!(r.unwrap(), "us-east-2");
}

#[test]
fn no_region_at_all_is_a_fatal_argument_error() {
    match resolve_region(None, None, "bkt") {
        Err(ArgumentError::CouldNotDetermineBucketRegion { bucket }) => {
            assert_eq!(bucket, "bkt");
        }
        other => panic!("expected a region error, got {:?}", other),
    }
}
