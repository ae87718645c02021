use axum::http::StatusCode;
use corro::api::request_timeout_response;

#[test]
fn request_timeout_answer_is_408_xml() {
    let r = request_timeout_response();
    assert_eq!(r.status, StatusCode::REQUEST_TIMEOUT);
    assert_eq!(r.content_type, "application/xml; charset=utf-8");
    assert_eq!(
        r.body,
        "<?xml version=\"1.0\" encoding=\"UTF-8\"?>\
<Error><Code>RequestTimeout</Code>\
<Message>Your socket connection to the server was not read from or written to within the timeout period.</Message>\
</Error>"
    );
    assert!(r.request_id.is_none());
}
