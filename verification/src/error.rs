//! The errors Corro returns, each mapped to its S3 error code, its HTTP
//! status and its message, and their framing as an S3 XML error document.

use vstd::prelude::*;

use crate::external::{new_request_id, status_code, status_from_code, is_uuid_v4_text};

verus! {

/// All errors that Corro can return, mapped to their S3 error code equivalents.
#[derive(Debug)]
pub enum CorroError {
    NoSuchBucket,
    NoSuchKey,
    BucketAlreadyExists,
    BucketNotEmpty,
    InvalidBucketName(String),
    InvalidDigest,
    SignatureDoesNotMatch,
    AccessDenied,
    InvalidAccessKeyId,
    MissingContentLength,
    EntityTooLarge,
    NotImplemented,
    MalformedXML,
    InvalidArgument(String),
    Internal(anyhow::Error),
}

/// The S3 error code of an error.
pub open spec fn s3_code_of(e: CorroError) -> Seq<char> {
    match e {
        CorroError::NoSuchBucket => "NoSuchBucket"@,
        CorroError::NoSuchKey => "NoSuchKey"@,
        CorroError::BucketAlreadyExists => "BucketAlreadyExists"@,
        CorroError::BucketNotEmpty => "BucketNotEmpty"@,
        CorroError::InvalidBucketName(_) => "InvalidBucketName"@,
        CorroError::InvalidDigest => "InvalidDigest"@,
        CorroError::SignatureDoesNotMatch => "SignatureDoesNotMatch"@,
        CorroError::AccessDenied => "AccessDenied"@,
        CorroError::InvalidAccessKeyId => "InvalidAccessKeyId"@,
        CorroError::MissingContentLength => "MissingContentLength"@,
        CorroError::EntityTooLarge => "EntityTooLarge"@,
        CorroError::NotImplemented => "NotImplemented"@,
        CorroError::MalformedXML => "MalformedXML"@,
        CorroError::InvalidArgument(_) => "InvalidArgument"@,
        CorroError::Internal(_) => "InternalError"@,
    }
}

/// The number of the HTTP status an error is answered with.
pub open spec fn status_number_of(e: CorroError) -> u16 {
    match e {
        CorroError::NoSuchBucket => 404,
        CorroError::NoSuchKey => 404,
        CorroError::BucketAlreadyExists => 409,
        CorroError::BucketNotEmpty => 409,
        CorroError::InvalidBucketName(_) => 400,
        CorroError::InvalidDigest => 400,
        CorroError::SignatureDoesNotMatch => 403,
        CorroError::AccessDenied => 403,
        CorroError::InvalidAccessKeyId => 403,
        CorroError::MissingContentLength => 411,
        CorroError::EntityTooLarge => 400,
        CorroError::NotImplemented => 501,
        CorroError::MalformedXML => 400,
        CorroError::InvalidArgument(_) => 400,
        CorroError::Internal(_) => 500,
    }
}

/// The human-readable message of an error, as clients receive it.
pub open spec fn message_of(e: CorroError) -> Seq<char> {
    match e {
        CorroError::NoSuchBucket => "The specified bucket does not exist"@,
        CorroError::NoSuchKey => "The specified key does not exist"@,
        CorroError::BucketAlreadyExists => "The specified bucket already exists"@,
        CorroError::BucketNotEmpty => "The bucket you tried to delete is not empty"@,
        CorroError::InvalidBucketName(name) => "The specified bucket is not valid: "@ + name@,
        CorroError::InvalidDigest => "The Content-MD5 you specified is not valid"@,
        CorroError::SignatureDoesNotMatch => "The request signature we calculated does not match the signature you provided"@,
        CorroError::AccessDenied => "Access Denied"@,
        CorroError::InvalidAccessKeyId => "The AWS Access Key Id you provided does not exist in our records"@,
        CorroError::MissingContentLength => "You must provide the Content-Length HTTP header"@,
        CorroError::EntityTooLarge => "Your proposed upload exceeds the maximum allowed object size"@,
        CorroError::NotImplemented => "A header you provided implies functionality that is not implemented"@,
        CorroError::MalformedXML => "The XML you provided was not well-formed or did not validate against our schema"@,
        CorroError::InvalidArgument(arg) => "Invalid argument: "@ + arg@,
        CorroError::Internal(_) => "We encountered an internal error. Please try again"@,
    }
}

/// The position of an error's variant in the declaration: two errors have
/// the same kind exactly when they are the same variant.
pub open spec fn kind_of(e: CorroError) -> int {
    match e {
        CorroError::NoSuchBucket => 0,
        CorroError::NoSuchKey => 1,
        CorroError::BucketAlreadyExists => 2,
        CorroError::BucketNotEmpty => 3,
        CorroError::InvalidBucketName(_) => 4,
        CorroError::InvalidDigest => 5,
        CorroError::SignatureDoesNotMatch => 6,
        CorroError::AccessDenied => 7,
        CorroError::InvalidAccessKeyId => 8,
        CorroError::MissingContentLength => 9,
        CorroError::EntityTooLarge => 10,
        CorroError::NotImplemented => 11,
        CorroError::MalformedXML => 12,
        CorroError::InvalidArgument(_) => 13,
        CorroError::Internal(_) => 14,
    }
}

/// The S3 XML error document: the XML prolog, then an `Error` element with
/// the `Code` and `Message` elements and, where there is one, the
/// `RequestId` element.
pub open spec fn xml_error_document(
    code: Seq<char>,
    message: Seq<char>,
    request_id: Option<Seq<char>>,
) -> Seq<char> {
    "<?xml version=\"1.0\" encoding=\"UTF-8\"?><Error><Code>"@ + code + "</Code><Message>"@
        + message + "</Message>"@ + match request_id {
        Some(id) => "<RequestId>"@ + id + "</RequestId>"@,
        None => Seq::<char>::empty(),
    } + "</Error>"@
}

/// The view of an optional string slice.
pub open spec fn opt_text(s: Option<&str>) -> Option<Seq<char>> {
    match s {
        Some(t) => Some(t@),
        None => None,
    }
}

/// The media type of every error document.
pub open spec fn xml_content_type() -> Seq<char> {
    "application/xml; charset=utf-8"@
}

/// `t` occurs in `s` as a contiguous run of characters.
pub open spec fn contains_text(s: Seq<char>, t: Seq<char>) -> bool {
    exists|i: int| 0 <= i && i + t.len() <= s.len() && #[trigger] s.subrange(i, i + t.len()) == t
}

/// Frames an S3 XML error document around a code, a message and an optional
/// request identifier.
pub fn error_document(code: &str, message: &str, request_id: Option<&str>) -> (doc: String)
    ensures
        doc@ == xml_error_document(code@, message@, opt_text(request_id)),
{
    let mut doc = String::from_str("<?xml version=\"1.0\" encoding=\"UTF-8\"?><Error><Code>");
    doc.append(code);
    doc.append("</Code><Message>");
    doc.append(message);
    doc.append("</Message>");
    match request_id {
        Some(id) => {
            doc.append("<RequestId>");
            doc.append(id);
            doc.append("</RequestId>");
        },
        None => {},
    }
    doc.append("</Error>");
    doc
}

/// An error answer as the server sends it: status, content type and body,
/// with the request identifier that the body names, if any.
pub struct ErrorResponse {
    pub status: axum::http::StatusCode,
    pub content_type: &'static str,
    pub body: String,
    pub request_id: Option<String>,
}

impl CorroError {
    /// The human-readable message of the error, as clients receive it in
    /// the `<Message>` element of the error document.
    pub fn message(&self) -> (text: String)
        ensures
            text@ == message_of(*self),
    {
        match self {
            CorroError::NoSuchBucket => String::from_str("The specified bucket does not exist"),
            CorroError::NoSuchKey => String::from_str("The specified key does not exist"),
            CorroError::BucketAlreadyExists => String::from_str("The specified bucket already exists"),
            CorroError::BucketNotEmpty => String::from_str("The bucket you tried to delete is not empty"),
            CorroError::InvalidBucketName(name) => {
                let mut text = String::from_str("The specified bucket is not valid: ");
                text.append(name.as_str());
                text
            }
            CorroError::InvalidDigest => String::from_str("The Content-MD5 you specified is not valid"),
            CorroError::SignatureDoesNotMatch => String::from_str("The request signature we calculated does not match the signature you provided"),
            CorroError::AccessDenied => String::from_str("Access Denied"),
            CorroError::InvalidAccessKeyId => String::from_str("The AWS Access Key Id you provided does not exist in our records"),
            CorroError::MissingContentLength => String::from_str("You must provide the Content-Length HTTP header"),
            CorroError::EntityTooLarge => String::from_str("Your proposed upload exceeds the maximum allowed object size"),
            CorroError::NotImplemented => String::from_str("A header you provided implies functionality that is not implemented"),
            CorroError::MalformedXML => String::from_str("The XML you provided was not well-formed or did not validate against our schema"),
            CorroError::InvalidArgument(arg) => {
                let mut text = String::from_str("Invalid argument: ");
                text.append(arg.as_str());
                text
            }
            CorroError::Internal(_) => String::from_str("We encountered an internal error. Please try again"),
        }
    }

    /// The S3 error code string returned to clients.
    pub fn s3_code(&self) -> (code: &'static str)
        ensures
            code@ == s3_code_of(*self),
    {
        match self {
            CorroError::NoSuchBucket => "NoSuchBucket",
            CorroError::NoSuchKey => "NoSuchKey",
            CorroError::BucketAlreadyExists => "BucketAlreadyExists",
            CorroError::BucketNotEmpty => "BucketNotEmpty",
            CorroError::InvalidBucketName(_) => "InvalidBucketName",
            CorroError::InvalidDigest => "InvalidDigest",
            CorroError::SignatureDoesNotMatch => "SignatureDoesNotMatch",
            CorroError::AccessDenied => "AccessDenied",
            CorroError::InvalidAccessKeyId => "InvalidAccessKeyId",
            CorroError::MissingContentLength => "MissingContentLength",
            CorroError::EntityTooLarge => "EntityTooLarge",
            CorroError::NotImplemented => "NotImplemented",
            CorroError::MalformedXML => "MalformedXML",
            CorroError::InvalidArgument(_) => "InvalidArgument",
            CorroError::Internal(_) => "InternalError",
        }
    }

    /// The HTTP status the error is answered with.
    pub fn http_status(&self) -> (status: axum::http::StatusCode)
        ensures
            status == status_from_code(status_number_of(*self)),
    {
        let code: u16 = match self {
            CorroError::NoSuchBucket => 404,
            CorroError::NoSuchKey => 404,
            CorroError::BucketAlreadyExists => 409,
            CorroError::BucketNotEmpty => 409,
            CorroError::InvalidBucketName(_) => 400,
            CorroError::InvalidDigest => 400,
            CorroError::SignatureDoesNotMatch => 403,
            CorroError::AccessDenied => 403,
            CorroError::InvalidAccessKeyId => 403,
            CorroError::MissingContentLength => 411,
            CorroError::EntityTooLarge => 400,
            CorroError::NotImplemented => 501,
            CorroError::MalformedXML => 400,
            CorroError::InvalidArgument(_) => 400,
            CorroError::Internal(_) => 500,
        };
        status_code(code)
    }

    /// The answer to the error for a request with the given identifier: the
    /// error's HTTP status, the XML media type, and the error document with
    /// the error's code, its message and the identifier.
    pub fn render(&self, request_id: String) -> (r: ErrorResponse)
        ensures
            r.status == status_from_code(status_number_of(*self)),
            r.content_type@ == xml_content_type(),
            r.body@ == xml_error_document(s3_code_of(*self), message_of(*self), Some(request_id@)),
            r.request_id == Some(request_id),
    {
        let message = self.message();
        let body = error_document(self.s3_code(), message.as_str(), Some(request_id.as_str()));
        ErrorResponse {
            status: self.http_status(),
            content_type: "application/xml; charset=utf-8",
            body,
            request_id: Some(request_id),
        }
    }

    /// The answer to the error under a fresh random request identifier (a
    /// version 4 UUID), which the error document names.
    pub fn error_response(&self) -> (r: ErrorResponse)
        ensures
            r.status == status_from_code(status_number_of(*self)),
            r.content_type@ == xml_content_type(),
            r.request_id matches Some(id) && is_uuid_v4_text(id@) && r.body@ == xml_error_document(
                s3_code_of(*self),
                message_of(*self),
                Some(id@),
            ),
    {
        let request_id = new_request_id();
        self.render(request_id)
    }

    /// Wrap any error as an internal server error.
    pub fn internal<E: Into<anyhow::Error>>(err: E) -> (e: CorroError)
        ensures
            e matches CorroError::Internal(inner) && (
            <E as vstd::std_specs::convert::IntoSpec<anyhow::Error>>::obeys_into_spec() ==> inner
                == <E as vstd::std_specs::convert::IntoSpec<anyhow::Error>>::into_spec(err)),
    {
        CorroError::Internal(err.into())
    }
}


/// Every error has an S3 error code, and none of them is empty.
pub proof fn lemma_s3_code_nonempty(e: CorroError)
    ensures
        s3_code_of(e).len() > 0,
{
    reveal_strlit("NoSuchBucket");
    reveal_strlit("NoSuchKey");
    reveal_strlit("BucketAlreadyExists");
    reveal_strlit("BucketNotEmpty");
    reveal_strlit("InvalidBucketName");
    reveal_strlit("InvalidDigest");
    reveal_strlit("SignatureDoesNotMatch");
    reveal_strlit("AccessDenied");
    reveal_strlit("InvalidAccessKeyId");
    reveal_strlit("MissingContentLength");
    reveal_strlit("EntityTooLarge");
    reveal_strlit("NotImplemented");
    reveal_strlit("MalformedXML");
    reveal_strlit("InvalidArgument");
    reveal_strlit("InternalError");
}

/// Two errors carry the same S3 error code exactly when they are the same
/// variant: no code is shared, so a client can tell every error apart.
pub proof fn lemma_s3_code_identifies_kind(a: CorroError, b: CorroError)
    ensures
        s3_code_of(a) == s3_code_of(b) <==> kind_of(a) == kind_of(b),
{
    reveal_strlit("NoSuchBucket");
    reveal_strlit("NoSuchKey");
    reveal_strlit("BucketAlreadyExists");
    reveal_strlit("BucketNotEmpty");
    reveal_strlit("InvalidBucketName");
    reveal_strlit("InvalidDigest");
    reveal_strlit("SignatureDoesNotMatch");
    reveal_strlit("AccessDenied");
    reveal_strlit("InvalidAccessKeyId");
    reveal_strlit("MissingContentLength");
    reveal_strlit("EntityTooLarge");
    reveal_strlit("NotImplemented");
    reveal_strlit("MalformedXML");
    reveal_strlit("InvalidArgument");
    reveal_strlit("InternalError");
    if kind_of(a) != kind_of(b) {
        assert(s3_code_of(a).len() != s3_code_of(b).len() || s3_code_of(a)[0] != s3_code_of(b)[0]
            || s3_code_of(a)[2] != s3_code_of(b)[2]);
    }
}

/// Every error is answered with an HTTP error status (4xx or 5xx), and with
/// a server-side (5xx) status exactly for internal errors and for
/// functionality that is not implemented.
pub proof fn lemma_http_status_is_error(e: CorroError)
    ensures
        400 <= status_number_of(e) <= 599,
        status_number_of(e) >= 500 <==> (e is Internal || e is NotImplemented),
{
}

/// The error document holds the `Code`, `Message` and, where given,
/// `RequestId` elements with the values it was framed around.
pub proof fn lemma_error_document_elements(
    code: Seq<char>,
    message: Seq<char>,
    request_id: Option<Seq<char>>,
)
    ensures
        contains_text(xml_error_document(code, message, request_id), "<Code>"@ + code + "</Code>"@),
        contains_text(xml_error_document(code, message, request_id), "<Message>"@ + message + "</Message>"@),
        request_id matches Some(id) ==> contains_text(
            xml_error_document(code, message, request_id),
            "<RequestId>"@ + id + "</RequestId>"@,
        ),
{
    reveal_strlit("<?xml version=\"1.0\" encoding=\"UTF-8\"?><Error><Code>");
    reveal_strlit("</Code><Message>");
    reveal_strlit("</Message>");
    reveal_strlit("<RequestId>");
    reveal_strlit("</RequestId>");
    reveal_strlit("</Error>");
    reveal_strlit("<Code>");
    reveal_strlit("</Code>");
    reveal_strlit("<Message>");
    let doc = xml_error_document(code, message, request_id);
    let prolog = "<?xml version=\"1.0\" encoding=\"UTF-8\"?><Error><Code>"@;
    let open_code = "<Code>"@;
    let code_elem = open_code + code + "</Code>"@;
    let i = prolog.len() - open_code.len();
    assert(doc.subrange(i, i + code_elem.len()) =~= code_elem);
    let message_elem = "<Message>"@ + message + "</Message>"@;
    let j: int = (prolog.len() + code.len() + "</Code>"@.len()) as int;
    assert(doc.subrange(j, j + message_elem.len()) =~= message_elem);
    if let Some(id) = request_id {
        let id_elem = "<RequestId>"@ + id + "</RequestId>"@;
        let k: int = (prolog.len() + code.len() + "</Code><Message>"@.len() + message.len() + "</Message>"@.len()) as int;
        assert(doc.subrange(k, k + id_elem.len()) =~= id_elem);
    }
}

/// The answer to any error names, in its document, the error's S3 code, its
/// message and the request identifier it was given.
pub proof fn lemma_error_body_elements(e: CorroError, request_id: Seq<char>)
    ensures
        contains_text(
            xml_error_document(s3_code_of(e), message_of(e), Some(request_id)),
            "<Code>"@ + s3_code_of(e) + "</Code>"@,
        ),
        contains_text(
            xml_error_document(s3_code_of(e), message_of(e), Some(request_id)),
            "<Message>"@ + message_of(e) + "</Message>"@,
        ),
        contains_text(
            xml_error_document(s3_code_of(e), message_of(e), Some(request_id)),
            "<RequestId>"@ + request_id + "</RequestId>"@,
        ),
{
    lemma_error_document_elements(s3_code_of(e), message_of(e), Some(request_id));
}

/// The S3 error codes are the names S3 itself uses: each error carries the
/// code below, whatever payload it holds.
pub proof fn lemma_s3_code_texts(e: CorroError)
    ensures
        e is NoSuchBucket ==> s3_code_of(e) == "NoSuchBucket"@,
        e is NoSuchKey ==> s3_code_of(e) == "NoSuchKey"@,
        e is BucketAlreadyExists ==> s3_code_of(e) == "BucketAlreadyExists"@,
        e is BucketNotEmpty ==> s3_code_of(e) == "BucketNotEmpty"@,
        e is InvalidBucketName ==> s3_code_of(e) == "InvalidBucketName"@,
        e is InvalidDigest ==> s3_code_of(e) == "InvalidDigest"@,
        e is SignatureDoesNotMatch ==> s3_code_of(e) == "SignatureDoesNotMatch"@,
        e is AccessDenied ==> s3_code_of(e) == "AccessDenied"@,
        e is InvalidAccessKeyId ==> s3_code_of(e) == "InvalidAccessKeyId"@,
        e is MissingContentLength ==> s3_code_of(e) == "MissingContentLength"@,
        e is EntityTooLarge ==> s3_code_of(e) == "EntityTooLarge"@,
        e is NotImplemented ==> s3_code_of(e) == "NotImplemented"@,
        e is MalformedXML ==> s3_code_of(e) == "MalformedXML"@,
        e is InvalidArgument ==> s3_code_of(e) == "InvalidArgument"@,
        e is Internal ==> s3_code_of(e) == "InternalError"@,
{
}

/// The HTTP statuses: missing buckets and keys are `404 Not Found`, clashes
/// over a bucket's existence or contents `409 Conflict`, refused credentials
/// and signatures `403 Forbidden`, a missing length `411 Length Required`,
/// an unimplemented feature `501`, an internal failure `500`, and every other
/// malformed request `400 Bad Request`.
pub proof fn lemma_http_status_numbers(e: CorroError)
    ensures
        e is NoSuchBucket ==> status_number_of(e) == 404,
        e is NoSuchKey ==> status_number_of(e) == 404,
        e is BucketAlreadyExists ==> status_number_of(e) == 409,
        e is BucketNotEmpty ==> status_number_of(e) == 409,
        e is InvalidBucketName ==> status_number_of(e) == 400,
        e is InvalidDigest ==> status_number_of(e) == 400,
        e is SignatureDoesNotMatch ==> status_number_of(e) == 403,
        e is AccessDenied ==> status_number_of(e) == 403,
        e is InvalidAccessKeyId ==> status_number_of(e) == 403,
        e is MissingContentLength ==> status_number_of(e) == 411,
        e is EntityTooLarge ==> status_number_of(e) == 400,
        e is NotImplemented ==> status_number_of(e) == 501,
        e is MalformedXML ==> status_number_of(e) == 400,
        e is InvalidArgument ==> status_number_of(e) == 400,
        e is Internal ==> status_number_of(e) == 500,
{
}

/// The messages are S3's own texts; the two that name a value end with that
/// value, after a fixed lead-in.
pub proof fn lemma_message_texts(e: CorroError)
    ensures
        e is NoSuchBucket ==> message_of(e) == "The specified bucket does not exist"@,
        e is NoSuchKey ==> message_of(e) == "The specified key does not exist"@,
        e is BucketAlreadyExists ==> message_of(e) == "The specified bucket already exists"@,
        e is BucketNotEmpty ==> message_of(e) == "The bucket you tried to delete is not empty"@,
        e is InvalidDigest ==> message_of(e) == "The Content-MD5 you specified is not valid"@,
        e is SignatureDoesNotMatch ==> message_of(e) == "The request signature we calculated does not match the signature you provided"@,
        e is AccessDenied ==> message_of(e) == "Access Denied"@,
        e is InvalidAccessKeyId ==> message_of(e) == "The AWS Access Key Id you provided does not exist in our records"@,
        e is MissingContentLength ==> message_of(e) == "You must provide the Content-Length HTTP header"@,
        e is EntityTooLarge ==> message_of(e) == "Your proposed upload exceeds the maximum allowed object size"@,
        e is NotImplemented ==> message_of(e) == "A header you provided implies functionality that is not implemented"@,
        e is MalformedXML ==> message_of(e) == "The XML you provided was not well-formed or did not validate against our schema"@,
        e is Internal ==> message_of(e) == "We encountered an internal error. Please try again"@,
        e matches CorroError::InvalidBucketName(name) ==> message_of(e)
            == "The specified bucket is not valid: "@ + name@,
        e matches CorroError::InvalidArgument(arg) ==> message_of(e) == "Invalid argument: "@ + arg@,
{
}

/// Two errors of different kinds never carry the same message, whatever
/// names or arguments they hold.
pub proof fn lemma_message_identifies_kind(a: CorroError, b: CorroError)
    ensures
        kind_of(a) != kind_of(b) ==> message_of(a) != message_of(b),
{
    reveal_strlit("The specified bucket does not exist");
    reveal_strlit("The specified key does not exist");
    reveal_strlit("The specified bucket already exists");
    reveal_strlit("The bucket you tried to delete is not empty");
    reveal_strlit("The Content-MD5 you specified is not valid");
    reveal_strlit("The request signature we calculated does not match the signature you provided");
    reveal_strlit("Access Denied");
    reveal_strlit("The AWS Access Key Id you provided does not exist in our records");
    reveal_strlit("You must provide the Content-Length HTTP header");
    reveal_strlit("Your proposed upload exceeds the maximum allowed object size");
    reveal_strlit("A header you provided implies functionality that is not implemented");
    reveal_strlit("The XML you provided was not well-formed or did not validate against our schema");
    reveal_strlit("We encountered an internal error. Please try again");
    reveal_strlit("The specified bucket is not valid: ");
    reveal_strlit("Invalid argument: ");
    if kind_of(a) != kind_of(b) {
        let x = message_of(a);
        let y = message_of(b);
        assert(x.len() != y.len() || x[0] != y[0] || x[4] != y[4] || x[14] != y[14] || x[21]
            != y[21]);
    }
}

/// The message of an invalid bucket name is the 35 characters of
/// "The specified bucket is not valid: " followed by the whole name, so two
/// different names always give different messages.
pub proof fn lemma_invalid_bucket_name_message(name: String, other: String)
    ensures
        message_of(CorroError::InvalidBucketName(name)).len() == 35 + name@.len(),
        message_of(CorroError::InvalidBucketName(name)).subrange(0, 35)
            == "The specified bucket is not valid: "@,
        message_of(CorroError::InvalidBucketName(name)).subrange(35, 35 + name@.len() as int) == name@,
        message_of(CorroError::InvalidBucketName(name)) == message_of(
            CorroError::InvalidBucketName(other),
        ) ==> name@ == other@,
{
    reveal_strlit("The specified bucket is not valid: ");
    let m = message_of(CorroError::InvalidBucketName(name));
    let n = message_of(CorroError::InvalidBucketName(other));
    assert(m.subrange(0, 35) =~= "The specified bucket is not valid: "@);
    assert(m.subrange(35, 35 + name@.len() as int) =~= name@);
    if m == n {
        assert(n.subrange(35, 35 + other@.len() as int) =~= other@);
    }
}

/// The message of an invalid argument is the 18 characters of
/// "Invalid argument: " followed by the whole argument, so two different
/// arguments always give different messages.
pub proof fn lemma_invalid_argument_message(arg: String, other: String)
    ensures
        message_of(CorroError::InvalidArgument(arg)).len() == 18 + arg@.len(),
        message_of(CorroError::InvalidArgument(arg)).subrange(0, 18) == "Invalid argument: "@,
        message_of(CorroError::InvalidArgument(arg)).subrange(18, 18 + arg@.len() as int) == arg@,
        message_of(CorroError::InvalidArgument(arg)) == message_of(CorroError::InvalidArgument(other))
            ==> arg@ == other@,
{
    reveal_strlit("Invalid argument: ");
    let m = message_of(CorroError::InvalidArgument(arg));
    let n = message_of(CorroError::InvalidArgument(other));
    assert(m.subrange(0, 18) =~= "Invalid argument: "@);
    assert(m.subrange(18, 18 + arg@.len() as int) =~= arg@);
    if m == n {
        assert(n.subrange(18, 18 + other@.len() as int) =~= other@);
    }
}

/// The layout of every error document, position by position: the 38
/// characters of the XML prolog, `<Error>`, the `Code` element at 45, the
/// `Message` element right after it, the `RequestId` element right after
/// that when an identifier is given, and the closing `</Error>` as the last 8
/// characters, with nothing else in between.
pub proof fn lemma_error_document_layout(
    code: Seq<char>,
    message: Seq<char>,
    request_id: Option<Seq<char>>,
)
    ensures
        ({
            let doc = xml_error_document(code, message, request_id);
            let m0: int = 58 + code.len() as int;
            let r0: int = m0 + 19 + message.len();
            let end: int = match request_id {
                Some(id) => r0 + 23 + id.len(),
                None => r0,
            };
            &&& doc.len() == end + 8
            &&& doc.subrange(0, 38) == "<?xml version=\"1.0\" encoding=\"UTF-8\"?>"@
            &&& doc.subrange(38, 45) == "<Error>"@
            &&& doc.subrange(45, m0) == "<Code>"@ + code + "</Code>"@
            &&& doc.subrange(m0, r0) == "<Message>"@ + message + "</Message>"@
            &&& (request_id matches Some(id) ==> doc.subrange(r0, end) == "<RequestId>"@ + id
                + "</RequestId>"@)
            &&& doc.subrange(end, end + 8) == "</Error>"@
        }),
{
    reveal_strlit("<?xml version=\"1.0\" encoding=\"UTF-8\"?><Error><Code>");
    reveal_strlit("</Code><Message>");
    reveal_strlit("</Message>");
    reveal_strlit("<RequestId>");
    reveal_strlit("</RequestId>");
    reveal_strlit("</Error>");
    reveal_strlit("<?xml version=\"1.0\" encoding=\"UTF-8\"?>");
    reveal_strlit("<Error>");
    reveal_strlit("<Code>");
    reveal_strlit("</Code>");
    reveal_strlit("<Message>");
    let doc = xml_error_document(code, message, request_id);
    let m0: int = 58 + code.len() as int;
    let r0: int = m0 + 19 + message.len();
    let end: int = match request_id {
        Some(id) => r0 + 23 + id.len(),
        None => r0,
    };
    assert(doc.subrange(0, 38) =~= "<?xml version=\"1.0\" encoding=\"UTF-8\"?>"@);
    assert(doc.subrange(38, 45) =~= "<Error>"@);
    assert(doc.subrange(45, m0) =~= "<Code>"@ + code + "</Code>"@);
    assert(doc.subrange(m0, r0) =~= "<Message>"@ + message + "</Message>"@);
    if let Some(id) = request_id {
        assert(doc.subrange(r0, end) =~= "<RequestId>"@ + id + "</RequestId>"@);
    }
    assert(doc.subrange(end, end + 8) =~= "</Error>"@);
}

} // verus!
