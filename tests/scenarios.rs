use cellar_migration::migrate::{
    bucket_outcome, destination_objects, plan_bucket, BucketMigrationError, BucketMigrationStats,
    ListingError,
};
use cellar_migration::object::{ObjectContents, ObjectMetadata, ObjectMetadataResponse};
use cellar_migration::pool::WorkerPool;
use cellar_migration::transfer::{ObjectTransfer, TransferAction, TransferEvent};
use std::time::Duration;

const MIB: u64 = 1_048_576;
const CHUNK: u64 = 5_242_880;

#[derive(Default)]
struct Calls {
    metadata: Vec<String>,
    puts: Vec<(String, u64)>,
    creates: Vec<String>,
    parts: Vec<(String, String, u64, u64)>,
    completes: Vec<(String, String, Vec<(u64, String)>)>,
    aborts: Vec<(String, String)>,
}

impl Calls {
    fn writes(&self) -> usize {
        self.puts.len() + self.creates.len() + self.parts.len() + self.completes.len()
    }
}

fn obj(key: &str, size: u64, etag: &str) -> ObjectContents {
    ObjectContents::new(key.to_string(), size, etag.to_string(), "2020-01-01T00:00:00Z".to_string())
}

fn metadata() -> ObjectMetadataResponse {
    ObjectMetadataResponse {
        acl_public: false,
        metadata: ObjectMetadata {
            cache_control: None,
            content_disposition: None,
            content_encoding: None,
            content_language: None,
            content_md5: None,
            content_type: Some("application/octet-stream".to_string()),
            expires: None,
        },
    }
}

/// The reply of an in-memory destination; `fail` names a key and a part
/// number whose upload fails.
fn reply(key: &str, action: TransferAction, calls: &mut Calls, fail: Option<(&str, u64)>) -> TransferEvent {
    match action {
        TransferAction::FetchMetadata => {
            calls.metadata.push(key.to_string());
            TransferEvent::Metadata(metadata())
        }
        TransferAction::PutObject { headers } => {
            calls.puts.push((key.to_string(), headers.content_length.unwrap()));
            TransferEvent::Done
        }
        TransferAction::CreateMultipartUpload { .. } => {
            calls.creates.push(key.to_string());
            TransferEvent::UploadCreated(format!("upload-{}", key))
        }
        TransferAction::UploadPart { upload_id, part } => {
            calls.parts.push((key.to_string(), upload_id, part.part_number, part.length));
            if fail == Some((key, part.part_number)) {
                TransferEvent::Failed(format!("{} part {} failed", key, part.part_number))
            } else {
                TransferEvent::PartUploaded(format!("etag-{}-{}", key, part.part_number))
            }
        }
        TransferAction::CompleteMultipartUpload { upload_id, parts } => {
            let list = parts.into_iter().map(|p| (p.part_number, p.etag)).collect();
            calls.completes.push((key.to_string(), upload_id, list));
            TransferEvent::Done
        }
        TransferAction::AbortMultipartUpload { upload_id } => {
            calls.aborts.push((key.to_string(), upload_id));
            TransferEvent::Done
        }
        TransferAction::Succeeded | TransferAction::Failed { .. } => unreachable!(),
    }
}

/// One bucket run against in-memory services; returns the outcome, the
/// calls made and the largest number of transfers in flight at once.
fn run(
    source: Vec<ObjectContents>,
    destination: Result<Vec<ObjectContents>, ListingError>,
    sync_threads: usize,
    dry_run: bool,
    fail: Option<(&str, u64)>,
) -> (Result<BucketMigrationStats, BucketMigrationError>, Calls, usize) {
    let mut calls = Calls::default();
    let destination = destination_objects(destination, dry_run).unwrap();
    let plan = plan_bucket(&source, &destination, dry_run);
    let mut results = Vec::new();
    let mut max_in_flight = 0;
    if plan.upload {
        let mut pool = WorkerPool::new(plan.objects.len(), sync_threads);
        let mut running: Vec<(ObjectTransfer, TransferAction)> = Vec::new();
        loop {
            while let Some(i) = pool.try_start() {
                running.push(ObjectTransfer::new(plan.objects[i].clone(), CHUNK));
            }
            max_in_flight = max_in_flight.max(pool.in_flight);
            if running.is_empty() {
                break;
            }
            // every transfer in flight takes one step, round robin
            let mut still = Vec::new();
            for (mut transfer, action) in running {
                let key = transfer.object.key.clone();
                match action {
                    TransferAction::Succeeded => {
                        pool.finish();
                        results.push(Ok(transfer.object.clone()));
                    }
                    TransferAction::Failed { error } => {
                        pool.finish();
                        results.push(Err(error));
                    }
                    action => {
                        let event = reply(&key, action, &mut calls, fail);
                        assert!(transfer.accepts(&event));
                        let next = transfer.step(event);
                        still.push((transfer, next));
                    }
                }
            }
            running = still;
        }
        assert!(pool.is_done());
    }
    let outcome = bucket_outcome("src".to_string(), Duration::ZERO, plan.objects, &results);
    (outcome, calls, max_in_flight)
}

#[test]
fn scenario_small_and_large_object_to_empty_destination() {
    let source = vec![obj("a", 10, "e1"), obj("b", 10 * MIB, "e2")];
    let (outcome, calls, _) = run(source, Ok(Vec::new()), 4, false, None);
    assert_eq!(calls.puts, vec![("a".to_string(), 10)]);
    assert_eq!(calls.creates, vec!["b".to_string()]);
    assert_eq!(calls.parts.len(), 2);
    assert_eq!(calls.parts[0], ("b".to_string(), "upload-b".to_string(), 1, 5 * MIB));
    assert_eq!(calls.parts[1], ("b".to_string(), "upload-b".to_string(), 2, 5 * MIB));
    assert_eq!(
        calls.completes,
        vec![(
            "b".to_string(),
            "upload-b".to_string(),
            vec![(1, "etag-b-1".to_string()), (2, "etag-b-2".to_string())]
        )]
    );
    assert!(calls.aborts.is_empty());
    assert_eq!(outcome.unwrap().synchronization_size, 10 + 10 * 1_048_576);
}

#[test]
fn scenario_matching_etag_writes_nothing() {
    let (outcome, calls, _) =
        run(vec![obj("a", 10, "e1")], Ok(vec![obj("a", 10, "e1")]), 4, false, None);
    assert_eq!(calls.writes(), 0);
    assert!(calls.metadata.is_empty());
    let stats = outcome.unwrap();
    assert_eq!(stats.synchronization_size, 0);
    assert!(stats.objects.is_empty());
}

#[test]
fn scenario_differing_etag_puts_once() {
    let (outcome, calls, _) =
        run(vec![obj("a", 10, "e1")], Ok(vec![obj("a", 10, "e0")]), 4, false, None);
    assert_eq!(calls.puts, vec![("a".to_string(), 10)]);
    assert_eq!(calls.writes(), 1);
    assert_eq!(outcome.unwrap().synchronization_size, 10);
}

#[test]
fn scenario_dry_run_with_missing_destination_bucket() {
    let source = vec![obj("a", 10, "e1"), obj("b", 10 * MIB, "e2")];
    let (outcome, calls, _) =
        run(source, Err(ListingError::NoSuchBucket("dst".to_string())), 4, true, None);
    assert_eq!(calls.writes(), 0);
    let stats = outcome.unwrap();
    assert_eq!(stats.synchronization_size, 0);
    let keys: Vec<&str> = stats.objects.iter().map(|o| o.key.as_str()).collect();
    assert_eq!(keys, vec!["a", "b"]);
}

#[test]
fn scenario_failed_part_of_one_object_among_five() {
    let source: Vec<ObjectContents> =
        (1..=5).map(|i| obj(&format!("o{}", i), 20 * MIB, &format!("e{}", i))).collect();
    let (outcome, calls, max_in_flight) = run(source, Ok(Vec::new()), 2, false, Some(("o3", 2)));
    assert!(max_in_flight <= 2);
    assert_eq!(calls.aborts, vec![("o3".to_string(), "upload-o3".to_string())]);
    assert_eq!(calls.completes.len(), 4);
    assert!(calls.completes.iter().all(|(k, _, parts)| k != "o3" && parts.len() == 4));
    let err = outcome.unwrap_err();
    assert_eq!(err.errors, vec!["src | Error synchronizing file: o3 part 2 failed".to_string()]);
    assert_eq!(err.stats.synchronization_size, 4 * 20 * MIB);
}

#[test]
fn boundary_sizes_choose_put_or_multipart() {
    let sizes = [0, 1, CHUNK - 1, CHUNK, CHUNK + 1, 5 * CHUNK];
    let source: Vec<ObjectContents> =
        sizes.iter().enumerate().map(|(i, s)| obj(&format!("k{}", i), *s, "e")).collect();
    let (outcome, calls, _) = run(source, Ok(Vec::new()), 3, false, None);
    assert_eq!(calls.puts.len(), 4);
    assert_eq!(calls.creates, vec!["k4".to_string(), "k5".to_string()]);
    let parts_of = |k: &str| calls.parts.iter().filter(|p| p.0 == k).count();
    assert_eq!(parts_of("k4"), 2);
    assert_eq!(parts_of("k5"), 5);
    assert_eq!(outcome.unwrap().synchronization_size, sizes.iter().sum::<u64>());
}

#[test]
fn rerun_after_success_writes_nothing() {
    let source = vec![obj("a", 10, "e1"), obj("b", 10 * MIB, "e2")];
    let (outcome, _, _) = run(source.clone(), Ok(Vec::new()), 4, false, None);
    let landed = outcome.unwrap().objects;
    let (second, calls, _) = run(source, Ok(landed), 4, false, None);
    assert_eq!(calls.writes(), 0);
    let stats = second.unwrap();
    assert_eq!(stats.synchronization_size, 0);
    assert!(stats.objects.is_empty());
}

#[test]
fn concurrency_stays_within_sync_threads() {
    let source: Vec<ObjectContents> = (0..9).map(|i| obj(&format!("x{}", i), 1, "e")).collect();
    let (_, _, max_in_flight) = run(source, Ok(Vec::new()), 3, false, None);
    assert_eq!(max_in_flight, 3);
}
