//! Declarations of the outside types that the library carries, and the few
//! outside calls it makes. Everything in this file is trusted: Verus believes
//! the contracts here without proof.

use vstd::prelude::*;

verus! {

/// `anyhow::Error`, the opaque error an internal failure carries.
#[verifier::external_type_specification]
#[verifier::external_body]
pub struct ExAnyhowError(anyhow::Error);

/// `http::StatusCode` as re-exported by axum.
#[verifier::external_type_specification]
#[verifier::external_body]
pub struct ExStatusCode(axum::http::StatusCode);

/// `bytes::Bytes`, the object payloads handed to and from a storage backend.
#[verifier::external_type_specification]
#[verifier::external_body]
pub struct ExBytes(bytes::Bytes);

/// `std::path::PathBuf`, the storage directory of the configuration.
#[verifier::external_type_specification]
#[verifier::external_body]
pub struct ExPathBuf(std::path::PathBuf);

/// The status code that `StatusCode::from_u16` builds from a number.
pub uninterp spec fn status_from_code(code: u16) -> axum::http::StatusCode;

/// Builds an HTTP status code from its number with `StatusCode::from_u16`.
///
/// `from_u16` succeeds exactly on 100..=999 (its documentation and source
/// say so), which the `requires` asks for; the code it returns is a plain
/// function of the number, named `status_from_code`.
#[verifier::external_body]
pub(crate) fn status_code(code: u16) -> (s: axum::http::StatusCode)
    requires
        100 <= code <= 999,
    ensures
        s == status_from_code(code),
{
    axum::http::StatusCode::from_u16(code).unwrap()
}

/// The path that `PathBuf::from` builds from a string.
pub uninterp spec fn path_from_text(text: Seq<char>) -> std::path::PathBuf;

/// Builds a path with `PathBuf::from(&str)`: the result is a plain function
/// of the text, named `path_from_text`.
#[verifier::external_body]
pub(crate) fn path_buf_from(text: &str) -> (p: std::path::PathBuf)
    ensures
        p == path_from_text(text@),
{
    std::path::PathBuf::from(text)
}

/// A lowercase hexadecimal digit.
pub open spec fn is_lower_hex_digit(c: char) -> bool {
    ('0' <= c && c <= '9') || ('a' <= c && c <= 'f')
}

/// The text of a random (version 4) UUID in its hyphenated lowercase form:
/// 36 characters, hyphens at 8, 13, 18 and 23, lowercase hex digits
/// elsewhere, the version digit `4` at 14 and a variant digit from `8`, `9`,
/// `a`, `b` at 19.
pub open spec fn is_uuid_v4_text(s: Seq<char>) -> bool {
    &&& s.len() == 36
    &&& forall|i: int|
        0 <= i < 36 ==> if i == 8 || i == 13 || i == 18 || i == 23 {
            s[i] == '-'
        } else {
            is_lower_hex_digit(#[trigger] s[i])
        }
    &&& s[14] == '4'
    &&& (s[19] == '8' || s[19] == '9' || s[19] == 'a' || s[19] == 'b')
}

/// A fresh request identifier: `Uuid::new_v4()` rendered with `to_string`.
///
/// The value is random; what holds of every outcome is its shape: uuid's
/// `Display` writes the hyphenated lowercase form, and `new_v4` fixes the
/// version and variant bits.
#[verifier::external_body]
pub(crate) fn new_request_id() -> (id: String)
    ensures
        is_uuid_v4_text(id@),
{
    uuid::Uuid::new_v4().to_string()
}

} // verus!
