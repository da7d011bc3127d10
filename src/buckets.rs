use vstd::prelude::*;
use vstd::string::*;

verus! {

/// The request made for a destination bucket that is missing: a probe in a
/// dry run, a creation otherwise.
#[derive(PartialEq, Eq, Structural, Clone, Copy, Debug)]
pub enum BucketRequest {
    /// List at most one object of the bucket, to learn whether it exists.
    Probe,
    Create,
}

/// The answer to a probe.
#[derive(Clone, Debug)]
pub enum ProbeReply {
    Listed,
    NoSuchBucket,
    Failed(String),
}

/// The answer to a bucket creation.
#[derive(Clone, Debug)]
pub enum CreateReply {
    Created,
    AlreadyOwnedByYou,
    Failed(String),
}

/// The bucket name is taken, most likely by another user of the service.
#[derive(Clone, Debug)]
pub struct BucketTakenError {
    pub bucket: String,
    pub error: String,
}

pub open spec fn names_bucket(existing: Seq<String>, name: Seq<char>) -> bool {
    exists|j: int| 0 <= j < existing.len() && (#[trigger] existing[j])@ == name
}

/// The source buckets, in order, whose prefixed name the destination lacks.
pub open spec fn missing(buckets: Seq<String>, prefix: Seq<char>, existing: Seq<String>) -> Seq<String> {
    buckets.filter(|b: String| !names_bucket(existing, prefix + b@))
}

/// The destination name: the prefix, then the configured destination bucket
/// if there is one, else the source bucket.
pub open spec fn target_name(prefix: Seq<char>, destination_bucket: Option<String>, bucket: Seq<char>) -> Seq<char> {
    match destination_bucket {
        Some(d) => prefix + d@,
        None => prefix + bucket,
    }
}

pub fn destination_bucket_name(prefix: &String, destination_bucket: &Option<String>, bucket: &String) -> (r:
    String)
    ensures
        r@ == target_name(prefix@, *destination_bucket, bucket@),
{
    let mut r = prefix.clone();
    match destination_bucket {
        Some(d) => r.append(d.as_str()),
        None => r.append(bucket.as_str()),
    }
    r
}

fn is_listed(existing: &Vec<String>, name: &String) -> (r: bool)
    ensures
        r == names_bucket(existing@, name@),
{
    let mut j: usize = 0;
    while j < existing.len()
        invariant
            j <= existing@.len(),
            forall|k: int| 0 <= k < j ==> (#[trigger] existing@[k])@ != name@,
        decreases existing@.len() - j,
    {
        if existing[j] == *name {
            return true;
        }
        j = j + 1;
    }
    false
}

/// The source buckets that have no destination bucket yet.
pub fn missing_buckets(buckets: &Vec<String>, prefix: &String, existing: &Vec<String>) -> (r: Vec<
    String,
>)
    ensures
        r@ == missing(buckets@, prefix@, existing@),
{
    let ghost pred = |b: String| !names_bucket(existing@, prefix@ + b@);
    let mut r: Vec<String> = Vec::new();
    let mut i: usize = 0;
    while i < buckets.len()
        invariant
            i <= buckets@.len(),
            pred == (|b: String| !names_bucket(existing@, prefix@ + b@)),
            r@ == buckets@.subrange(0, i as int).filter(pred),
        decreases buckets@.len() - i,
    {
        proof {
            reveal(Seq::filter);
            assert(buckets@.subrange(0, i + 1).drop_last() =~= buckets@.subrange(0, i as int));
        }
        let mut name = prefix.clone();
        name.append(buckets[i].as_str());
        if !is_listed(existing, &name) {
            r.push(buckets[i].clone());
        }
        i = i + 1;
    }
    proof {
        assert(buckets@.subrange(0, buckets@.len() as int) =~= buckets@);
    }
    r
}

/// A dry run only probes; no bucket is created.
pub fn bucket_request(dry_run: bool) -> (r: BucketRequest)
    ensures
        r == (if dry_run {
            BucketRequest::Probe
        } else {
            BucketRequest::Create
        }),
{
    if dry_run {
        BucketRequest::Probe
    } else {
        BucketRequest::Create
    }
}

/// A probe that lists the bucket, or learns that it does not exist, is
/// fine; any other failure means the name is taken elsewhere.
pub fn probe_outcome(bucket: String, reply: ProbeReply) -> (r: Result<(), BucketTakenError>)
    ensures
        !(reply is Failed) ==> r is Ok,
        reply matches ProbeReply::Failed(e) ==> r matches Err(t) && t.bucket == bucket
            && t.error == e,
{
    match reply {
        ProbeReply::Failed(error) => Err(BucketTakenError { bucket, error }),
        _ => Ok(()),
    }
}

/// A creation succeeds, or finds the bucket already ours; any other failure
/// means the name is taken elsewhere.
pub fn create_outcome(bucket: String, reply: CreateReply) -> (r: Result<(), BucketTakenError>)
    ensures
        !(reply is Failed) ==> r is Ok,
        reply matches CreateReply::Failed(e) ==> r matches Err(t) && t.bucket == bucket
            && t.error == e,
{
    match reply {
        CreateReply::Failed(error) => Err(BucketTakenError { bucket, error }),
        _ => Ok(()),
    }
}

pub open spec fn taken_message(bucket: Seq<char>) -> Seq<char> {
    "Bucket "@ + bucket
        + " | Bucket can't be created because it probably has been created in another Cellar add-on, maybe by another user."@
}

pub open spec fn workaround_message() -> Seq<char> {
    "Please refer to https://github.com/CleverCloud/cellar-c1-migration-tool/#my-bucket-already-exists-on-the-destination-cluster to find a workaround"@
}

/// The two lines that explain a bucket name taken elsewhere.
pub fn bucket_already_created(bucket: &str) -> (r: Vec<String>)
    ensures
        r@.len() == 2,
        r@[0]@ == taken_message(bucket@),
        r@[1]@ == workaround_message(),
{
    let mut first = String::from_str("Bucket ");
    first.append(bucket);
    first.append(
        " | Bucket can't be created because it probably has been created in another Cellar add-on, maybe by another user.",
    );
    let second = String::from_str(
        "Please refer to https://github.com/CleverCloud/cellar-c1-migration-tool/#my-bucket-already-exists-on-the-destination-cluster to find a workaround",
    );
    let mut r: Vec<String> = Vec::new();
    r.push(first);
    r.push(second);
    r
}

} // verus!
