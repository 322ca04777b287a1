use vstd::prelude::*;

verus! {

pub open spec fn is_lower_hex(c: char) -> bool {
    ('0' <= c && c <= '9') || ('a' <= c && c <= 'f')
}

pub open spec fn is_hex_digit(c: char) -> bool {
    is_lower_hex(c) || ('A' <= c && c <= 'F')
}

pub open spec fn hex_value(c: char) -> int {
    if '0' <= c && c <= '9' {
        c as int - '0' as int
    } else if 'a' <= c && c <= 'f' {
        c as int - 'a' as int + 10
    } else {
        c as int - 'A' as int + 10
    }
}

/// 24 lowercase hexadecimal digits, the way an object identifier is written.
pub open spec fn is_object_id_hex(s: Seq<char>) -> bool {
    s.len() == 24 && forall|i: int| 0 <= i < s.len() ==> is_lower_hex(#[trigger] s[i])
}

/// The twelve bytes of an object identifier written as 24 hexadecimal digits, in
/// either case, two digits to a byte; `None` for any other text.
pub open spec fn object_id_bytes(s: Seq<char>) -> Option<Seq<u8>> {
    if s.len() == 24 && forall|i: int| 0 <= i < s.len() ==> is_hex_digit(#[trigger] s[i]) {
        Some(Seq::new(12, |i: int| (16 * hex_value(s[2 * i]) + hex_value(s[2 * i + 1])) as u8))
    } else {
        None
    }
}

/// bson's error for a text that is not an object identifier.
#[verifier::external_type_specification]
#[verifier::external_body]
pub struct ExObjectIdError(bson::oid::Error);

/// Relies on bson's `ObjectId::new` for a fresh identifier, and on `ObjectId::to_hex`,
/// which writes its twelve bytes with `hex::encode`: two lowercase hexadecimal digits
/// for each byte. `ObjectId::new` panics only when the system clock is set before 1970.
#[verifier::external_body]
pub(crate) fn fresh_object_id() -> (r: String)
    ensures
        is_object_id_hex(r@),
{
    bson::oid::ObjectId::new().to_hex()
}

/// Relies on bson's `ObjectId::parse_str`, which reads the text's bytes with
/// `hex::decode` (digits in either case, two to a byte, an error on any other byte or
/// an odd length) and accepts exactly twelve bytes; `ObjectId::bytes` hands them back.
#[verifier::external_body]
fn parse_object_id(s: &str) -> (r: Result<[u8; 12], bson::oid::Error>)
    ensures
        r is Ok <==> object_id_bytes(s@) is Some,
        r is Ok ==> object_id_bytes(s@) == Some(r->Ok_0@),
{
    match bson::oid::ObjectId::parse_str(s) {
        Ok(id) => Ok(id.bytes()),
        Err(e) => Err(e),
    }
}

/// Why an identifier was refused.
#[derive(Clone, Copy, Debug, PartialEq, Eq, Structural)]
pub enum IdError {
    /// The text is not 24 hexadecimal digits.
    InvalidObjectId,
}

/// Reads an object identifier written as 24 hexadecimal digits.
pub fn object_id_from_hex(s: &str) -> (r: Result<[u8; 12], IdError>)
    ensures
        r is Ok <==> object_id_bytes(s@) is Some,
        r is Ok ==> object_id_bytes(s@) == Some(r->Ok_0@),
        r is Err ==> r->Err_0 == IdError::InvalidObjectId,
{
    match parse_object_id(s) {
        Ok(b) => Ok(b),
        Err(_) => Err(IdError::InvalidObjectId),
    }
}

/// Relies on chrono's `Utc::now` for the current time, read by
/// `DateTime::timestamp_millis` as milliseconds since the Unix epoch. `Utc::now` panics
/// only when the system clock is set before 1970.
#[verifier::external_body]
pub(crate) fn now_millis() -> (r: i64) {
    chrono::Utc::now().timestamp_millis()
}

} // verus!
