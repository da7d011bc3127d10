//! Migration of object-storage buckets between two S3-compatible services:
//! the diff of the two listings, the plan of each object's transfer (one PUT
//! or a multipart upload), the worker pool that bounds concurrency, and the
//! outcome of a bucket run. Network requests are made by the caller, which
//! hands each reply back to these state machines.

pub mod buckets;
pub mod diff;
pub mod migrate;
pub mod object;
pub mod parts;
pub mod pool;
pub mod radosgw;
pub mod transfer;
