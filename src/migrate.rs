use vstd::prelude::*;
use vstd::string::*;
use crate::diff::{needs_transfer, objects_to_transfer, retained};
use crate::object::ObjectContents;
use crate::parts::MIN_PART_SIZE;
use std::time::Duration;

verus! {

/// What a bucket run did.
#[derive(Debug)]
pub struct BucketMigrationStats {
    pub bucket: String,
    pub synchronization_time: Duration,
    /// Bytes of the objects that were transferred.
    pub synchronization_size: u64,
    /// The objects that needed a transfer.
    pub objects: Vec<ObjectContents>,
}

/// A bucket run in which some objects failed: one message per failed object,
/// and the stats of what did land.
#[derive(Debug)]
pub struct BucketMigrationError {
    pub errors: Vec<String>,
    pub stats: BucketMigrationStats,
}

/// Settings of one bucket run.
#[derive(Clone, Debug)]
pub struct BucketMigrationConfiguration {
    pub source_bucket: String,
    pub source_access_key: String,
    pub source_secret_key: String,
    pub source_endpoint: String,
    pub destination_bucket: String,
    pub destination_access_key: String,
    pub destination_secret_key: String,
    pub destination_endpoint: String,
    pub max_keys: usize,
    pub chunk_size: usize,
    pub sync_threads: usize,
    pub dry_run: bool,
}

#[derive(PartialEq, Eq, Structural, Clone, Copy, Debug)]
pub enum ConfigurationError {
    /// Parts smaller than the providers' multipart minimum.
    ChunkSizeTooSmall,
    /// No worker to transfer objects.
    NoSyncThreads,
}

impl BucketMigrationConfiguration {
    pub open spec fn valid_chunk_size(self) -> bool {
        self.chunk_size >= MIN_PART_SIZE
    }

    /// Checked before any request is made.
    pub fn validate(&self) -> (r: Result<(), ConfigurationError>)
        ensures
            !self.valid_chunk_size() ==> r == Err::<(), _>(ConfigurationError::ChunkSizeTooSmall),
            self.valid_chunk_size() && self.sync_threads == 0 ==> r == Err::<(), _>(
                ConfigurationError::NoSyncThreads,
            ),
            r is Ok <==> self.valid_chunk_size() && self.sync_threads >= 1,
    {
        if (self.chunk_size as u128) < (MIN_PART_SIZE as u128) {
            Err(ConfigurationError::ChunkSizeTooSmall)
        } else if self.sync_threads == 0 {
            Err(ConfigurationError::NoSyncThreads)
        } else {
            Ok(())
        }
    }
}

/// How listing the destination bucket failed.
#[derive(Clone, Debug)]
pub enum ListingError {
    NoSuchBucket(String),
    Other(String),
}

/// Why a bucket run stopped before any transfer.
#[derive(Clone, Debug)]
pub enum MigrationError {
    Configuration(ConfigurationError),
    SourceListing(String),
    /// The destination bucket does not exist and this is no dry run.
    MissingDestinationBucket(String),
    DestinationListing(String),
}

/// A missing destination bucket lists as empty in a dry run; any other
/// failure to list it stops the run.
pub open spec fn destination_outcome(
    listed: Result<Vec<ObjectContents>, ListingError>,
    dry_run: bool,
) -> Result<Seq<ObjectContents>, MigrationError> {
    match listed {
        Ok(v) => Ok(v@),
        Err(ListingError::NoSuchBucket(b)) => if dry_run {
            Ok(Seq::empty())
        } else {
            Err(MigrationError::MissingDestinationBucket(b))
        },
        Err(ListingError::Other(e)) => Err(MigrationError::DestinationListing(e)),
    }
}

pub open spec fn listing_view(r: Result<Vec<ObjectContents>, MigrationError>) -> Result<
    Seq<ObjectContents>,
    MigrationError,
> {
    match r {
        Ok(v) => Ok(v@),
        Err(e) => Err(e),
    }
}

/// The destination's objects as the diff sees them.
pub fn destination_objects(listed: Result<Vec<ObjectContents>, ListingError>, dry_run: bool) -> (r:
    Result<Vec<ObjectContents>, MigrationError>)
    ensures
        listing_view(r) == destination_outcome(listed, dry_run),
{
    match listed {
        Ok(v) => Ok(v),
        Err(ListingError::NoSuchBucket(b)) => {
            if dry_run {
                Ok(Vec::new())
            } else {
                Err(MigrationError::MissingDestinationBucket(b))
            }
        },
        Err(ListingError::Other(e)) => Err(MigrationError::DestinationListing(e)),
    }
}

/// What a bucket run transfers, decided once both listings are in.
#[derive(Clone, Debug)]
pub struct BucketPlan {
    /// The source objects with no equivalent on the destination.
    pub objects: Vec<ObjectContents>,
    /// Whether any write is to be made: never in a dry run.
    pub upload: bool,
}

pub fn plan_bucket(source: &Vec<ObjectContents>, destination: &Vec<ObjectContents>, dry_run: bool) -> (r:
    BucketPlan)
    ensures
        r.objects@ == retained(source@, destination@),
        r.upload == (!dry_run && r.objects@.len() > 0),
        dry_run ==> !r.upload,
{
    let objects = objects_to_transfer(source, destination);
    let upload = !dry_run && objects.len() > 0;
    BucketPlan { objects, upload }
}

/// Bytes of the objects whose transfer succeeded.
pub open spec fn transferred_size(results: Seq<Result<ObjectContents, String>>) -> nat
    decreases results.len(),
{
    if results.len() == 0 {
        0
    } else {
        transferred_size(results.drop_last()) + match results.last() {
            Ok(o) => o.size as nat,
            Err(_) => 0nat,
        }
    }
}

pub open spec fn error_message(bucket: Seq<char>, error: Seq<char>) -> Seq<char> {
    bucket + " | Error synchronizing file: "@ + error
}

/// One message per failed object, in the order of the results.
pub open spec fn error_messages(bucket: Seq<char>, results: Seq<Result<ObjectContents, String>>) -> Seq<
    Seq<char>,
>
    decreases results.len(),
{
    if results.len() == 0 {
        Seq::empty()
    } else {
        let rest = error_messages(bucket, results.drop_last());
        match results.last() {
            Ok(_) => rest,
            Err(e) => rest.push(error_message(bucket, e@)),
        }
    }
}

pub open spec fn all_succeeded(results: Seq<Result<ObjectContents, String>>) -> bool {
    forall|i: int| 0 <= i < results.len() ==> (#[trigger] results[i]) is Ok
}

pub open spec fn stats_match(
    s: BucketMigrationStats,
    bucket: String,
    synchronization_time: Duration,
    objects: Vec<ObjectContents>,
    results: Seq<Result<ObjectContents, String>>,
) -> bool {
    &&& s.bucket == bucket
    &&& s.synchronization_time == synchronization_time
    &&& s.synchronization_size == transferred_size(results)
    &&& s.objects == objects
}

proof fn lemma_no_errors_when_all_succeeded(bucket: Seq<char>, results: Seq<Result<ObjectContents, String>>)
    ensures
        all_succeeded(results) <==> error_messages(bucket, results).len() == 0,
    decreases results.len(),
{
    if results.len() > 0 {
        lemma_no_errors_when_all_succeeded(bucket, results.drop_last());
        if all_succeeded(results) {
            assert forall|i: int| 0 <= i < results.drop_last().len() implies (
            #[trigger] results.drop_last()[i]) is Ok by {
                assert(results[i] is Ok);
            }
            assert(results[results.len() - 1] is Ok);
        } else if error_messages(bucket, results).len() == 0 {
            let i = choose|i: int| 0 <= i < results.len() && !(results[i] is Ok);
            if i < results.len() - 1 {
                assert(!(results.drop_last()[i] is Ok));
            }
        }
    }
}

/// The outcome of a bucket run from the per-object results: success when
/// every object succeeded, otherwise the error messages of the failed ones.
/// Both carry the stats.
pub fn bucket_outcome(
    bucket: String,
    synchronization_time: Duration,
    objects: Vec<ObjectContents>,
    results: &Vec<Result<ObjectContents, String>>,
) -> (r: Result<BucketMigrationStats, BucketMigrationError>)
    requires
        transferred_size(results@) <= u64::MAX,
    ensures
        r is Ok <==> all_succeeded(results@),
        r matches Ok(s) ==> stats_match(s, bucket, synchronization_time, objects, results@),
        r matches Err(e) ==> stats_match(e.stats, bucket, synchronization_time, objects, results@)
            && e.errors@.map_values(|m: String| m@) == error_messages(bucket@, results@),
{
    let mut size: u64 = 0;
    let mut errors: Vec<String> = Vec::new();
    let mut i: usize = 0;
    while i < results.len()
        invariant
            i <= results@.len(),
            transferred_size(results@) <= u64::MAX,
            size == transferred_size(results@.subrange(0, i as int)),
            errors@.map_values(|m: String| m@) == error_messages(bucket@, results@.subrange(0, i as int)),
        decreases results@.len() - i,
    {
        proof {
            let next = results@.subrange(0, i + 1);
            assert(next.drop_last() =~= results@.subrange(0, i as int));
            lemma_transferred_size_prefix(results@, i + 1);
        }
        match &results[i] {
            Ok(o) => {
                size = size + o.size;
            },
            Err(e) => {
                let mut m = bucket.clone();
                m.append(" | Error synchronizing file: ");
                m.append(e.as_str());
                let ghost before = errors@;
                errors.push(m);
                proof {
                    assert(errors@.map_values(|m: String| m@) =~= before.map_values(|m: String| m@).push(m@));
                }
            },
        }
        i = i + 1;
    }
    proof {
        assert(results@.subrange(0, results@.len() as int) =~= results@);
        lemma_no_errors_when_all_succeeded(bucket@, results@);
    }
    let stats = BucketMigrationStats {
        bucket,
        synchronization_time,
        synchronization_size: size,
        objects,
    };
    if errors.len() == 0 {
        Ok(stats)
    } else {
        Err(BucketMigrationError { errors, stats })
    }
}

proof fn lemma_transferred_size_prefix(results: Seq<Result<ObjectContents, String>>, n: int)
    requires
        0 <= n <= results.len(),
    ensures
        transferred_size(results.subrange(0, n)) <= transferred_size(results),
    decreases results.len(),
{
    if n < results.len() {
        assert(results.drop_last().subrange(0, n) =~= results.subrange(0, n));
        lemma_transferred_size_prefix(results.drop_last(), n);
    } else {
        assert(results.subrange(0, n) =~= results);
    }
}

/// An object that the destination already holds, with the same etag, is
/// not transferred: no request is made for it.
pub proof fn lemma_equivalent_never_transferred(
    source: Seq<ObjectContents>,
    destination: Seq<ObjectContents>,
    i: int,
    j: int,
)
    requires
        0 <= i < source.len(),
        0 <= j < destination.len(),
        crate::diff::equivalent(source[i], destination[j]),
    ensures
        !retained(source, destination).contains(source[i]),
{
    let pred = |s: ObjectContents| needs_transfer(s, destination);
    if retained(source, destination).contains(source[i]) {
        let k = choose|k: int|
            0 <= k < retained(source, destination).len() && retained(source, destination)[k]
                == source[i];
        source.lemma_filter_pred(pred, k);
    }
}

/// Once the objects in `landed` have reached the destination, a new run on
/// an unchanged source transfers none of them again, nor any object that
/// needed no transfer before.
pub proof fn lemma_rerun_after_transfer(
    source: Seq<ObjectContents>,
    destination: Seq<ObjectContents>,
    landed: Seq<ObjectContents>,
)
    ensures
        forall|i: int|
            0 <= i < source.len() && (landed.contains(source[i]) || !needs_transfer(
                source[i],
                destination,
            )) ==> !retained(source, destination + landed).contains(#[trigger] source[i]),
{
    let after = destination + landed;
    let pred = |s: ObjectContents| needs_transfer(s, after);
    assert forall|i: int|
        0 <= i < source.len() && (landed.contains(source[i]) || !needs_transfer(
            source[i],
            destination,
        )) implies !retained(source, after).contains(#[trigger] source[i]) by {
        if landed.contains(source[i]) {
            let k = choose|k: int| 0 <= k < landed.len() && landed[k] == source[i];
            assert(after[destination.len() + k] == source[i]);
        } else {
            let j = choose|j: int|
                0 <= j < destination.len() && crate::diff::equivalent(source[i], destination[j]);
            assert(after[j] == destination[j]);
        }
        assert(!needs_transfer(source[i], after));
        if retained(source, after).contains(source[i]) {
            let k = choose|k: int|
                0 <= k < retained(source, after).len() && retained(source, after)[k] == source[i];
            source.lemma_filter_pred(pred, k);
        }
    }
}

/// Two runs back to back on an unchanged source: when every transfer of
/// the first succeeded, the second has nothing to transfer.
pub proof fn lemma_second_run_transfers_nothing(
    source: Seq<ObjectContents>,
    destination: Seq<ObjectContents>,
)
    ensures
        retained(source, destination + retained(source, destination)).len() == 0,
{
    let first = retained(source, destination);
    let after = destination + first;
    let pred0 = |s: ObjectContents| needs_transfer(s, destination);
    let pred = |s: ObjectContents| needs_transfer(s, after);
    lemma_rerun_after_transfer(source, destination, first);
    assert forall|i: int| 0 <= i < source.len() implies !pred(#[trigger] source[i]) by {
        if needs_transfer(source[i], destination) {
            source.lemma_filter_contains(pred0, i);
        }
        assert(!retained(source, after).contains(source[i]));
        if pred(source[i]) {
            source.lemma_filter_contains(pred, i);
        }
    }
    let second = retained(source, after);
    if second.len() > 0 {
        source.lemma_filter_pred(pred, 0);
        source.lemma_filter_contains_rev(pred, second[0]);
        assert(second.contains(second[0]));
    }
}

} // verus!
