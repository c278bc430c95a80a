//! Record identifiers: twelve bytes, written as 24 hexadecimal digits.

use vstd::prelude::*;

verus! {

/// The identifier of a stored record.
#[derive(Clone, Copy, Debug, PartialEq, Eq)]
pub struct ObjectId {
    pub bytes: [u8; 12],
}

/// A hexadecimal digit, in either case.
pub open spec fn is_hex_digit(c: char) -> bool {
    ('0' <= c && c <= '9') || ('a' <= c && c <= 'f') || ('A' <= c && c <= 'F')
}

/// The value of a hexadecimal digit.
pub open spec fn hex_digit_value(c: char) -> int {
    if '0' <= c && c <= '9' {
        c as int - '0' as int
    } else if 'a' <= c && c <= 'f' {
        c as int - 'a' as int + 10
    } else {
        c as int - 'A' as int + 10
    }
}

/// The text is an identifier: exactly 24 hexadecimal digits.
pub open spec fn is_object_id_text(s: Seq<char>) -> bool {
    &&& s.len() == 24
    &&& forall|i: int| 0 <= i < 24 ==> #[trigger] is_hex_digit(s[i])
}

/// The bytes that 24 hexadecimal digits stand for: two digits per byte, the
/// first one the high half.
pub open spec fn object_id_bytes(s: Seq<char>) -> Seq<u8> {
    Seq::new(12, |i: int| (hex_digit_value(s[2 * i]) * 16 + hex_digit_value(s[2 * i + 1])) as u8)
}

/// `mongodb::bson::oid::ObjectId::parse_str`, then `ObjectId::bytes`.
/// The source decodes the text with `hex::decode` and accepts the result
/// only when it is twelve bytes long; `hex::decode` takes pairs of digits of
/// either case and fails on any other character and on an odd length. So
/// the call succeeds exactly on 24 hexadecimal digits, and gives the bytes
/// they stand for.
#[verifier::external_body]
fn bson_parse_object_id(text: &str) -> (r: Option<[u8; 12]>)
    ensures
        r is Some <==> is_object_id_text(text@),
        r matches Some(b) ==> b@ == object_id_bytes(text@),
{
    mongodb::bson::oid::ObjectId::parse_str(text).ok().map(|id| id.bytes())
}

impl ObjectId {
    /// Reads an identifier from its 24 hexadecimal digits.
    pub fn parse_str(text: &str) -> (r: Option<ObjectId>)
        ensures
            r is Some <==> is_object_id_text(text@),
            r matches Some(id) ==> id.bytes@ == object_id_bytes(text@),
    {
        match bson_parse_object_id(text) {
            Some(bytes) => Some(ObjectId { bytes }),
            None => None,
        }
    }
}

} // verus!
