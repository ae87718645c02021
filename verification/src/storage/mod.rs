//! The storage layer: the API every storage backend offers, and the
//! placeholder backend the server runs with until a real one exists.

pub mod backend;

pub use backend::{
    BucketInfo, ETag, ListObjectsParams, ListObjectsResult, NullBackend, ObjectInfo,
    ObjectMetadata, StorageBackend, Timestamp,
};
