use axum::http::StatusCode;
use corro::error::{error_document, CorroError};

fn all_errors() -> Vec<CorroError> {
    vec![
        CorroError::NoSuchBucket,
        CorroError::NoSuchKey,
        CorroError::BucketAlreadyExists,
        CorroError::BucketNotEmpty,
        CorroError::InvalidBucketName("x".into()),
        CorroError::InvalidDigest,
        CorroError::SignatureDoesNotMatch,
        CorroError::AccessDenied,
        CorroError::InvalidAccessKeyId,
        CorroError::MissingContentLength,
        CorroError::EntityTooLarge,
        CorroError::NotImplemented,
        CorroError::MalformedXML,
        CorroError::InvalidArgument("x".into()),
        CorroError::internal(anyhow::Error::msg("test")),
    ]
}

#[test]
fn all_variants_have_s3_code() {
    // Ensures no variant is forgotten in the match
    let errors: Vec<CorroError> = vec![
        CorroError::NoSuchBucket,
        CorroError::NoSuchKey,
        CorroError::BucketAlreadyExists,
        CorroError::BucketNotEmpty,
        CorroError::InvalidBucketName("x".into()),
        CorroError::InvalidDigest,
        CorroError::SignatureDoesNotMatch,
        CorroError::AccessDenied,
        CorroError::InvalidAccessKeyId,
        CorroError::MissingContentLength,
        CorroError::EntityTooLarge,
        CorroError::NotImplemented,
        CorroError::MalformedXML,
        CorroError::InvalidArgument("x".into()),
        CorroError::internal(anyhow::Error::msg("test")),
    ];
    for e in errors {
        assert!(!e.s3_code().is_empty());
    }
}

#[test]
fn no_such_bucket_returns_404() {
    let response = CorroError::NoSuchBucket.error_response();
    assert_eq!(response.status, StatusCode::NOT_FOUND);
}

#[test]
fn error_body_is_valid_xml() {
    let response = CorroError::NoSuchBucket.error_response();
    let xml = response.body.as_str();
    assert!(xml.contains("<Code>NoSuchBucket</Code>"));
    assert!(xml.contains("<Message>"));
    assert!(xml.contains("<RequestId>"));
}

#[test]
fn internal_error_returns_500() {
    let err = CorroError::internal(anyhow::Error::msg("disk full"));
    let response = err.error_response();
    assert_eq!(response.status, StatusCode::INTERNAL_SERVER_ERROR);
}

#[test]
fn s3_codes_are_exact() {
    let expected = [
        "NoSuchBucket",
        "NoSuchKey",
        "BucketAlreadyExists",
        "BucketNotEmpty",
        "InvalidBucketName",
        "InvalidDigest",
        "SignatureDoesNotMatch",
        "AccessDenied",
        "InvalidAccessKeyId",
        "MissingContentLength",
        "EntityTooLarge",
        "NotImplemented",
        "MalformedXML",
        "InvalidArgument",
        "InternalError",
    ];
    for (e, code) in all_errors().iter().zip(expected.iter()) {
        assert_eq!(e.s3_code(), *code);
    }
}

#[test]
fn s3_codes_are_pairwise_distinct() {
    let errors = all_errors();
    for (i, a) in errors.iter().enumerate() {
        for (j, b) in errors.iter().enumerate() {
            assert_eq!(a.s3_code() == b.s3_code(), i == j);
        }
    }
}

#[test]
fn http_statuses_are_exact() {
    let expected = [
        StatusCode::NOT_FOUND,
        StatusCode::NOT_FOUND,
        StatusCode::CONFLICT,
        StatusCode::CONFLICT,
        StatusCode::BAD_REQUEST,
        StatusCode::BAD_REQUEST,
        StatusCode::FORBIDDEN,
        StatusCode::FORBIDDEN,
        StatusCode::FORBIDDEN,
        StatusCode::LENGTH_REQUIRED,
        StatusCode::BAD_REQUEST,
        StatusCode::NOT_IMPLEMENTED,
        StatusCode::BAD_REQUEST,
        StatusCode::BAD_REQUEST,
        StatusCode::INTERNAL_SERVER_ERROR,
    ];
    for (e, status) in all_errors().iter().zip(expected.iter()) {
        assert_eq!(e.http_status(), *status);
    }
}

#[test]
fn http_statuses_are_errors_and_server_side_only_for_internal_and_not_implemented() {
    for e in all_errors() {
        let n = e.http_status().as_u16();
        assert!((400..=599).contains(&n));
        let server_side = matches!(e, CorroError::Internal(_) | CorroError::NotImplemented);
        assert_eq!(n >= 500, server_side);
    }
}

#[test]
fn messages_are_exact() {
    assert_eq!(CorroError::NoSuchBucket.message(), "The specified bucket does not exist");
    assert_eq!(CorroError::AccessDenied.message(), "Access Denied");
    assert_eq!(
        CorroError::InvalidBucketName("My_Bucket".into()).message(),
        "The specified bucket is not valid: My_Bucket"
    );
    assert_eq!(
        CorroError::InvalidArgument("max-keys".into()).message(),
        "Invalid argument: max-keys"
    );
    assert_eq!(
        CorroError::internal(anyhow::Error::msg("disk full")).message(),
        "We encountered an internal error. Please try again"
    );
    assert_eq!(
        CorroError::NotImplemented.message(),
        "A header you provided implies functionality that is not implemented"
    );
}

#[test]
fn internal_wraps_as_internal() {
    let e = CorroError::internal(anyhow::Error::msg("disk full"));
    assert!(matches!(e, CorroError::Internal(_)));
    assert_eq!(e.s3_code(), "InternalError");
}

#[test]
fn render_frames_the_exact_document() {
    let r = CorroError::NoSuchKey.render("req-1".to_string());
    assert_eq!(r.status, StatusCode::NOT_FOUND);
    assert_eq!(r.content_type, "application/xml; charset=utf-8");
    assert_eq!(
        r.body,
        "<?xml version=\"1.0\" encoding=\"UTF-8\"?><Error><Code>NoSuchKey</Code>\
<Message>The specified key does not exist</Message><RequestId>req-1</RequestId></Error>"
    );
    assert_eq!(r.request_id.as_deref(), Some("req-1"));
}

#[test]
fn render_carries_the_payload_in_the_message() {
    let r = CorroError::InvalidBucketName("a..b".into()).render("id".to_string());
    assert_eq!(r.status, StatusCode::BAD_REQUEST);
    assert!(r.body.contains("<Code>InvalidBucketName</Code>"));
    assert!(r.body.contains("<Message>The specified bucket is not valid: a..b</Message>"));
    assert!(r.body.contains("<RequestId>id</RequestId>"));
}

#[test]
fn error_response_names_a_fresh_v4_uuid() {
    let r = CorroError::AccessDenied.error_response();
    let id = r.request_id.clone().expect("an error response names its request");
    assert_eq!(id.len(), 36);
    for (i, c) in id.chars().enumerate() {
        if i == 8 || i == 13 || i == 18 || i == 23 {
            assert_eq!(c, '-');
        } else {
            assert!(c.is_ascii_digit() || ('a'..='f').contains(&c));
        }
    }
    assert_eq!(id.chars().nth(14), Some('4'));
    assert!(matches!(id.chars().nth(19), Some('8' | '9' | 'a' | 'b')));
    assert!(r.body.contains(&format!("<RequestId>{id}</RequestId>")));
    assert_eq!(r.status, StatusCode::FORBIDDEN);
    let other = CorroError::AccessDenied.error_response();
    assert_ne!(other.request_id, r.request_id);
}

#[test]
fn every_error_body_names_code_message_and_request() {
    for e in all_errors() {
        let r = e.render("rid-42".to_string());
        assert!(r.body.contains(&format!("<Code>{}</Code>", e.s3_code())));
        assert!(r.body.contains(&format!("<Message>{}</Message>", e.message())));
        assert!(r.body.contains("<RequestId>rid-42</RequestId>"));
    }
}

#[test]
fn not_implemented_answer_is_501_with_its_code() {
    let r = CorroError::NotImplemented.error_response();
    assert_eq!(r.status.as_u16(), 501);
    assert!(r.body.contains("<Code>NotImplemented</Code>"));
}

#[test]
fn error_document_without_request_id() {
    assert_eq!(
        error_document("C", "M", None),
        "<?xml version=\"1.0\" encoding=\"UTF-8\"?><Error><Code>C</Code><Message>M</Message></Error>"
    );
    assert_eq!(
        error_document("", "", Some("")),
        "<?xml version=\"1.0\" encoding=\"UTF-8\"?><Error><Code></Code><Message></Message>\
<RequestId></RequestId></Error>"
    );
}
