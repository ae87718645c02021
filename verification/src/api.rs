//! The answers the HTTP layer gives on its own, outside any handler.

use vstd::prelude::*;

use crate::error::{
    error_document, lemma_error_document_layout, xml_content_type, xml_error_document, ErrorResponse,
};
use crate::external::{status_code, status_from_code};

verus! {

/// The message of the answer to a request that ran out of time.
pub open spec fn request_timeout_message() -> Seq<char> {
    "Your socket connection to the server was not read from or written to within the timeout period."@
}

/// The answer to a request that did not finish within the per-request
/// deadline: `408 Request Timeout` with an S3 `RequestTimeout` error
/// document that names no request identifier.
pub fn request_timeout_response() -> (r: ErrorResponse)
    ensures
        r.status == status_from_code(408),
        r.content_type@ == xml_content_type(),
        r.body@ == xml_error_document("RequestTimeout"@, request_timeout_message(), None),
        r.request_id is None,
{
    let body = error_document(
        "RequestTimeout",
        "Your socket connection to the server was not read from or written to within the timeout period.",
        None,
    );
    ErrorResponse {
        status: status_code(408),
        content_type: "application/xml; charset=utf-8",
        body,
        request_id: None,
    }
}

/// The timeout document, position by position: the prolog and `<Error>`,
/// the `RequestTimeout` code, S3's message that the socket was not read from
/// or written to within the timeout period, and then at once the closing
/// `</Error>`: it names no request.
pub proof fn lemma_request_timeout_document()
    ensures
        ({
            let doc = xml_error_document("RequestTimeout"@, request_timeout_message(), None);
            &&& doc.len() == 194
            &&& doc.subrange(0, 45) == "<?xml version=\"1.0\" encoding=\"UTF-8\"?><Error>"@
            &&& doc.subrange(45, 72) == "<Code>RequestTimeout</Code>"@
            &&& doc.subrange(72, 186)
                == "<Message>Your socket connection to the server was not read from or written to within the timeout period.</Message>"@
            &&& doc.subrange(186, 194) == "</Error>"@
        }),
{
    reveal_strlit("RequestTimeout");
    reveal_strlit(
        "Your socket connection to the server was not read from or written to within the timeout period.",
    );
    reveal_strlit("<?xml version=\"1.0\" encoding=\"UTF-8\"?><Error>");
    reveal_strlit("<?xml version=\"1.0\" encoding=\"UTF-8\"?>");
    reveal_strlit("<Error>");
    reveal_strlit("<Code>RequestTimeout</Code>");
    reveal_strlit("<Code>");
    reveal_strlit("</Code>");
    reveal_strlit("<Message>");
    reveal_strlit("</Message>");
    reveal_strlit(
        "<Message>Your socket connection to the server was not read from or written to within the timeout period.</Message>",
    );
    reveal_strlit("</Error>");
    let doc = xml_error_document("RequestTimeout"@, request_timeout_message(), None);
    lemma_error_document_layout("RequestTimeout"@, request_timeout_message(), None);
    assert(doc.subrange(0, 45) =~= doc.subrange(0, 38) + doc.subrange(38, 45));
    assert("<Code>RequestTimeout</Code>"@ =~= "<Code>"@ + "RequestTimeout"@ + "</Code>"@);
    assert("<Message>Your socket connection to the server was not read from or written to within the timeout period.</Message>"@
        =~= "<Message>"@ + request_timeout_message() + "</Message>"@);
}

} // verus!
