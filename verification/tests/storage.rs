use bytes::Bytes;
use corro::error::CorroError;
use corro::storage::{
    BucketInfo, ListObjectsParams, ListObjectsResult, NullBackend, ObjectInfo, ObjectMetadata,
    StorageBackend, Timestamp,
};

#[test]
fn null_backend_returns_not_implemented() {
    let backend = NullBackend;
    let result = backend.list_buckets();
    assert!(matches!(result, Err(CorroError::NotImplemented)));
}

#[test]
fn null_backend_put_returns_not_implemented() {
    let backend = NullBackend;
    let result = backend.put_object("bucket", "key", Bytes::new(), "text/plain".into());
    assert!(matches!(result, Err(CorroError::NotImplemented)));
}

#[test]
fn null_backend_refuses_every_operation() {
    let b = NullBackend;
    assert!(matches!(b.create_bucket("b"), Err(CorroError::NotImplemented)));
    assert!(matches!(b.delete_bucket("b"), Err(CorroError::NotImplemented)));
    assert!(matches!(b.bucket_exists("b"), Err(CorroError::NotImplemented)));
    assert!(matches!(b.get_object("b", "k"), Err(CorroError::NotImplemented)));
    assert!(matches!(b.delete_object("b", "k"), Err(CorroError::NotImplemented)));
    assert!(matches!(b.head_object("b", "k"), Err(CorroError::NotImplemented)));
    assert!(matches!(
        b.list_objects("b", ListObjectsParams::default()),
        Err(CorroError::NotImplemented)
    ));
}

#[test]
fn null_backend_refusal_is_answered_with_501() {
    let err = NullBackend.get_object("b", "k").unwrap_err();
    assert_eq!(err.http_status().as_u16(), 501);
}

#[test]
fn list_params_default_is_empty() {
    let p = ListObjectsParams::default();
    assert!(p.prefix.is_none());
    assert!(p.delimiter.is_none());
    assert!(p.max_keys.is_none());
    assert!(p.continuation_token.is_none());
    assert!(p.start_after.is_none());
}

#[test]
fn list_result_default_is_empty_and_complete() {
    let r = ListObjectsResult::default();
    assert!(r.objects.is_empty());
    assert!(r.common_prefixes.is_empty());
    assert!(!r.is_truncated);
    assert!(r.next_continuation_token.is_none());
    assert_eq!(r.key_count, 0);
}

#[test]
fn records_clone_field_by_field() {
    let t = Timestamp { unix_secs: 1_700_000_000, subsec_nanos: 5 };
    let m = ObjectMetadata {
        size: 3,
        etag: "\"abc\"".into(),
        last_modified: t,
        content_type: "text/plain".into(),
    };
    let c = m.clone();
    assert_eq!(c.size, 3);
    assert_eq!(c.etag, "\"abc\"");
    assert_eq!(c.last_modified, t);
    let b = BucketInfo { name: "photos".into(), creation_date: t };
    assert_eq!(b.clone().name, "photos");
    let o = ObjectInfo { key: "k".into(), size: 1, etag: "e".into(), last_modified: t };
    assert_eq!(o.clone().key, "k");
}
