use cellar_migration::buckets::{
    bucket_already_created, bucket_request, create_outcome, destination_bucket_name,
    missing_buckets, probe_outcome, BucketRequest, CreateReply, ProbeReply,
};
use cellar_migration::diff::{is_equivalent, objects_to_transfer};
use cellar_migration::migrate::{
    bucket_outcome, destination_objects, plan_bucket, BucketMigrationConfiguration,
    ConfigurationError, ListingError, MigrationError,
};
use cellar_migration::object::{is_public_read, AclGrant, ObjectContents};
use cellar_migration::radosgw::{start_after, RadosGW};
use std::time::Duration;

const MIB: u64 = 1_048_576;

fn obj(key: &str, size: u64, etag: &str) -> ObjectContents {
    ObjectContents::new(key.to_string(), size, etag.to_string(), "2020-01-01T00:00:00Z".to_string())
}

fn keys(v: &[ObjectContents]) -> Vec<String> {
    v.iter().map(|o| o.key.clone()).collect()
}

fn config(chunk_size: usize, sync_threads: usize) -> BucketMigrationConfiguration {
    BucketMigrationConfiguration {
        source_bucket: "src".to_string(),
        source_access_key: "ak".to_string(),
        source_secret_key: "sk".to_string(),
        source_endpoint: "http://source".to_string(),
        destination_bucket: "dst".to_string(),
        destination_access_key: "ak2".to_string(),
        destination_secret_key: "sk2".to_string(),
        destination_endpoint: "http://destination".to_string(),
        max_keys: 1000,
        chunk_size,
        sync_threads,
        dry_run: false,
    }
}

#[test]
fn chunk_size_below_minimum_is_rejected() {
    assert_eq!(config(1_048_576, 4).validate(), Err(ConfigurationError::ChunkSizeTooSmall));
    assert_eq!(config(5_242_879, 4).validate(), Err(ConfigurationError::ChunkSizeTooSmall));
    assert_eq!(config(5_242_880, 4).validate(), Ok(()));
    assert_eq!(config(5_242_880, 0).validate(), Err(ConfigurationError::NoSyncThreads));
}

#[test]
fn equivalence_is_key_and_etag() {
    assert!(is_equivalent(&obj("a", 10, "e"), &obj("a", 99, "e")));
    assert!(!is_equivalent(&obj("a", 10, "e"), &obj("a", 10, "f")));
    assert!(!is_equivalent(&obj("a", 10, "e"), &obj("b", 10, "e")));
}

#[test]
fn empty_destination_transfers_everything() {
    let source = vec![obj("a", 10, "e1"), obj("b", 10 * MIB, "e2")];
    let plan = plan_bucket(&source, &Vec::new(), false);
    assert_eq!(keys(&plan.objects), vec!["a", "b"]);
    assert!(plan.upload);
}

#[test]
fn two_objects_to_empty_destination() {
    let source = vec![obj("a", 10, "e1"), obj("b", 10 * MIB, "e2")];
    let plan = plan_bucket(&source, &Vec::new(), false);
    let results = vec![Ok(plan.objects[0].clone()), Ok(plan.objects[1].clone())];
    let stats = bucket_outcome("src".to_string(), Duration::from_millis(5), plan.objects, &results)
        .unwrap();
    assert_eq!(stats.synchronization_size, 10 + 10 * MIB);
    assert_eq!(stats.bucket, "src");
    assert_eq!(stats.objects.len(), 2);
}

#[test]
fn matching_etag_means_no_write() {
    let source = vec![obj("a", 10, "e1")];
    let destination = vec![obj("a", 10, "e1")];
    let plan = plan_bucket(&source, &destination, false);
    assert!(plan.objects.is_empty());
    assert!(!plan.upload);
    let stats = bucket_outcome("src".to_string(), Duration::ZERO, plan.objects, &Vec::new()).unwrap();
    assert_eq!(stats.synchronization_size, 0);
    assert!(stats.objects.is_empty());
}

#[test]
fn differing_etag_means_one_put() {
    let source = vec![obj("a", 10, "e1")];
    let destination = vec![obj("a", 10, "old")];
    let plan = plan_bucket(&source, &destination, false);
    assert_eq!(keys(&plan.objects), vec!["a"]);
    assert!(plan.upload);
    let results = vec![Ok(plan.objects[0].clone())];
    let stats = bucket_outcome("src".to_string(), Duration::ZERO, plan.objects, &results).unwrap();
    assert_eq!(stats.synchronization_size, 10);
}

#[test]
fn dry_run_with_missing_destination_bucket() {
    let source = vec![obj("a", 10, "e1"), obj("b", 20, "e2")];
    let destination =
        destination_objects(Err(ListingError::NoSuchBucket("dst".to_string())), true).unwrap();
    assert!(destination.is_empty());
    let plan = plan_bucket(&source, &destination, true);
    assert!(!plan.upload);
    assert_eq!(keys(&plan.objects), vec!["a", "b"]);
    let stats = bucket_outcome("src".to_string(), Duration::ZERO, plan.objects, &Vec::new()).unwrap();
    assert_eq!(stats.synchronization_size, 0);
    assert_eq!(stats.objects.len(), 2);
}

#[test]
fn missing_destination_bucket_is_fatal_outside_dry_run() {
    match destination_objects(Err(ListingError::NoSuchBucket("dst".to_string())), false) {
        Err(MigrationError::MissingDestinationBucket(b)) => assert_eq!(b, "dst"),
        other => panic!("unexpected {:?}", other),
    }
    match destination_objects(Err(ListingError::Other("timeout".to_string())), true) {
        Err(MigrationError::DestinationListing(e)) => assert_eq!(e, "timeout"),
        other => panic!("unexpected {:?}", other),
    }
    let listed = destination_objects(Ok(vec![obj("x", 1, "e")]), false).unwrap();
    assert_eq!(keys(&listed), vec!["x"]);
}

#[test]
fn one_failed_object_among_five() {
    let objects: Vec<ObjectContents> =
        (1..=5).map(|i| obj(&format!("o{}", i), 20 * MIB, &format!("e{}", i))).collect();
    let results: Vec<Result<ObjectContents, String>> = objects
        .iter()
        .enumerate()
        .map(|(i, o)| if i == 2 { Err("part 2 failed".to_string()) } else { Ok(o.clone()) })
        .collect();
    let err = bucket_outcome("src".to_string(), Duration::ZERO, objects, &results).unwrap_err();
    assert_eq!(err.errors, vec!["src | Error synchronizing file: part 2 failed".to_string()]);
    assert_eq!(err.stats.synchronization_size, 4 * 20 * MIB);
    assert_eq!(err.stats.objects.len(), 5);
}

#[test]
fn destination_only_keys_are_ignored() {
    let source = vec![obj("a", 1, "e1")];
    let destination = vec![obj("z", 1, "ez"), obj("a", 1, "e1")];
    assert!(objects_to_transfer(&source, &destination).is_empty());
}

#[test]
fn empty_source_bucket() {
    let plan = plan_bucket(&Vec::new(), &vec![obj("a", 1, "e")], false);
    assert!(plan.objects.is_empty());
    assert!(!plan.upload);
}

#[test]
fn second_run_has_nothing_to_do() {
    let source = vec![obj("a", 1, "e1"), obj("b", 2, "e2"), obj("c", 3, "e3")];
    let mut destination = vec![obj("b", 2, "e2")];
    let first = objects_to_transfer(&source, &destination);
    assert_eq!(keys(&first), vec!["a", "c"]);
    destination.extend(first);
    assert!(objects_to_transfer(&source, &destination).is_empty());
}

#[test]
fn listing_resumes_after_last_key() {
    assert_eq!(start_after(&Vec::new()), None);
    assert_eq!(start_after(&vec![obj("a", 1, "e"), obj("b", 1, "e")]), Some("b".to_string()));
}

#[test]
fn destination_client_settings() {
    let c = RadosGW::new("http://d".to_string(), "ak".to_string(), "sk".to_string(), "b".to_string());
    assert_eq!(c.endpoint, "http://d");
    assert_eq!(c.bucket, "b");
}

#[test]
fn missing_buckets_use_prefix() {
    let buckets = vec!["one".to_string(), "two".to_string(), "three".to_string()];
    let existing = vec!["c1-two".to_string(), "one".to_string()];
    assert_eq!(missing_buckets(&buckets, &"c1-".to_string(), &existing), vec!["one", "three"]);
    assert_eq!(
        destination_bucket_name(&"c1-".to_string(), &None, &"one".to_string()),
        "c1-one"
    );
    assert_eq!(
        destination_bucket_name(&"c1-".to_string(), &Some("fixed".to_string()), &"one".to_string()),
        "c1-fixed"
    );
}

#[test]
fn dry_run_never_creates_buckets() {
    assert_eq!(bucket_request(true), BucketRequest::Probe);
    assert_eq!(bucket_request(false), BucketRequest::Create);
}

#[test]
fn bucket_replies() {
    assert!(probe_outcome("b".to_string(), ProbeReply::Listed).is_ok());
    assert!(probe_outcome("b".to_string(), ProbeReply::NoSuchBucket).is_ok());
    let e = probe_outcome("b".to_string(), ProbeReply::Failed("denied".to_string())).unwrap_err();
    assert_eq!((e.bucket.as_str(), e.error.as_str()), ("b", "denied"));
    assert!(create_outcome("b".to_string(), CreateReply::Created).is_ok());
    assert!(create_outcome("b".to_string(), CreateReply::AlreadyOwnedByYou).is_ok());
    assert!(create_outcome("b".to_string(), CreateReply::Failed("taken".to_string())).is_err());
}

#[test]
fn bucket_taken_messages() {
    let m = bucket_already_created("c1-x");
    assert_eq!(m.len(), 2);
    assert!(m[0].starts_with("Bucket c1-x | Bucket can't be created"));
    assert!(m[1].starts_with("Please refer to https://"));
}

#[test]
fn public_read_grant() {
    let everyone = AclGrant {
        grantee_uri: Some("http://acs.amazonaws.com/groups/global/AllUsers".to_string()),
        permission: Some("READ".to_string()),
    };
    let owner = AclGrant { grantee_uri: None, permission: Some("FULL_CONTROL".to_string()) };
    assert!(is_public_read(&vec![owner.clone(), everyone]));
    assert!(!is_public_read(&vec![owner]));
    assert!(!is_public_read(&Vec::new()));
}
