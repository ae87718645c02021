//! The storage API: its data types, the `StorageBackend` trait that every
//! backend implements, and the `NullBackend` placeholder.

use vstd::prelude::*;

use bytes::Bytes;

use crate::error::CorroError;

verus! {

/// A point in time in UTC, as the seconds since the Unix epoch and the
/// nanoseconds within that second.
#[derive(Debug, Clone, Copy, PartialEq, Eq, Structural)]
pub struct Timestamp {
    pub unix_secs: i64,
    pub subsec_nanos: u32,
}

/// An object's entity tag.
pub type ETag = String;

/// Metadata associated with a stored object.
#[derive(Debug, Clone)]
pub struct ObjectMetadata {
    pub size: u64,
    pub etag: ETag,
    pub last_modified: Timestamp,
    pub content_type: String,
}

/// Summary of a bucket returned in list responses.
#[derive(Debug, Clone)]
pub struct BucketInfo {
    pub name: String,
    pub creation_date: Timestamp,
}

/// Parameters for listing objects in a bucket (ListObjectsV2 semantics).
#[derive(Debug)]
pub struct ListObjectsParams {
    pub prefix: Option<String>,
    pub delimiter: Option<String>,
    pub max_keys: Option<usize>,
    pub continuation_token: Option<String>,
    pub start_after: Option<String>,
}

impl Default for ListObjectsParams {
    /// No prefix, delimiter, limit, continuation token or start key.
    fn default() -> (p: Self)
        ensures
            p.prefix is None,
            p.delimiter is None,
            p.max_keys is None,
            p.continuation_token is None,
            p.start_after is None,
    {
        ListObjectsParams {
            prefix: None,
            delimiter: None,
            max_keys: None,
            continuation_token: None,
            start_after: None,
        }
    }
}

/// A single object entry in a list response.
#[derive(Debug, Clone)]
pub struct ObjectInfo {
    pub key: String,
    pub size: u64,
    pub etag: ETag,
    pub last_modified: Timestamp,
}

/// Result of a ListObjectsV2 operation.
#[derive(Debug)]
pub struct ListObjectsResult {
    pub objects: Vec<ObjectInfo>,
    /// Virtual "folder" prefixes when a delimiter is used.
    pub common_prefixes: Vec<String>,
    pub is_truncated: bool,
    pub next_continuation_token: Option<String>,
    pub key_count: usize,
}

impl Default for ListObjectsResult {
    /// An empty, complete listing.
    fn default() -> (r: Self)
        ensures
            r.objects@.len() == 0,
            r.common_prefixes@.len() == 0,
            !r.is_truncated,
            r.next_continuation_token is None,
            r.key_count == 0,
    {
        ListObjectsResult {
            objects: Vec::new(),
            common_prefixes: Vec::new(),
            is_truncated: false,
            next_continuation_token: None,
            key_count: 0,
        }
    }
}

/// The core storage abstraction. All storage backends implement this trait.
///
/// Implementations must be `Send + Sync` to be shared across tasks.
pub trait StorageBackend: Send + Sync {
    // ── Bucket operations ──
    fn create_bucket(&self, bucket: &str) -> Result<(), CorroError>;

    fn delete_bucket(&self, bucket: &str) -> Result<(), CorroError>;

    fn bucket_exists(&self, bucket: &str) -> Result<bool, CorroError>;

    fn list_buckets(&self) -> Result<Vec<BucketInfo>, CorroError>;

    // ── Object operations ──
    fn put_object(&self, bucket: &str, key: &str, data: Bytes, content_type: String) -> Result<
        ETag,
        CorroError,
    >;

    fn get_object(&self, bucket: &str, key: &str) -> Result<(Bytes, ObjectMetadata), CorroError>;

    fn delete_object(&self, bucket: &str, key: &str) -> Result<(), CorroError>;

    fn head_object(&self, bucket: &str, key: &str) -> Result<ObjectMetadata, CorroError>;

    fn list_objects(&self, bucket: &str, params: ListObjectsParams) -> Result<
        ListObjectsResult,
        CorroError,
    >;
}

/// A no-op backend that returns `NotImplemented` for every operation.
/// Used as a placeholder until a filesystem backend is implemented.
pub struct NullBackend;

impl StorageBackend for NullBackend {
    fn create_bucket(&self, bucket: &str) -> (r: Result<(), CorroError>)
        ensures
            r matches Err(e) && e is NotImplemented,
    {
        Err(CorroError::NotImplemented)
    }

    fn delete_bucket(&self, bucket: &str) -> (r: Result<(), CorroError>)
        ensures
            r matches Err(e) && e is NotImplemented,
    {
        Err(CorroError::NotImplemented)
    }

    fn bucket_exists(&self, bucket: &str) -> (r: Result<bool, CorroError>)
        ensures
            r matches Err(e) && e is NotImplemented,
    {
        Err(CorroError::NotImplemented)
    }

    fn list_buckets(&self) -> (r: Result<Vec<BucketInfo>, CorroError>)
        ensures
            r matches Err(e) && e is NotImplemented,
    {
        Err(CorroError::NotImplemented)
    }

    fn put_object(&self, bucket: &str, key: &str, data: Bytes, content_type: String) -> (r: Result<
        ETag,
        CorroError,
    >)
        ensures
            r matches Err(e) && e is NotImplemented,
    {
        Err(CorroError::NotImplemented)
    }

    fn get_object(&self, bucket: &str, key: &str) -> (r: Result<(Bytes, ObjectMetadata), CorroError>)
        ensures
            r matches Err(e) && e is NotImplemented,
    {
        Err(CorroError::NotImplemented)
    }

    fn delete_object(&self, bucket: &str, key: &str) -> (r: Result<(), CorroError>)
        ensures
            r matches Err(e) && e is NotImplemented,
    {
        Err(CorroError::NotImplemented)
    }

    fn head_object(&self, bucket: &str, key: &str) -> (r: Result<ObjectMetadata, CorroError>)
        ensures
            r matches Err(e) && e is NotImplemented,
    {
        Err(CorroError::NotImplemented)
    }

    fn list_objects(&self, bucket: &str, params: ListObjectsParams) -> (r: Result<
        ListObjectsResult,
        CorroError,
    >)
        ensures
            r matches Err(e) && e is NotImplemented,
    {
        Err(CorroError::NotImplemented)
    }
}

} // verus!
