//! The ids under which approved orders are stored: twelve bytes, written as
//! twenty-four hexadecimal digits in verification links.  Reading and
//! writing them is left to MongoDB's `ObjectId`.

use vstd::prelude::*;

verus! {

/// The id of an approved order (the bytes of a MongoDB `ObjectId`).
#[derive(Clone, Copy, Debug, PartialEq, Eq)]
pub struct OrderId {
    pub bytes: [u8; 12],
}

/// The value of the hexadecimal digit `c`, upper or lower case.
pub open spec fn hex_value(c: char) -> Option<u8> {
    let u: u32 = c as u32;
    if 48 <= u <= 57 {
        Some((u - 48) as u8)
    } else if 97 <= u <= 102 {
        Some((u - 87) as u8)
    } else if 65 <= u <= 70 {
        Some((u - 55) as u8)
    } else {
        None
    }
}

/// `text` is the hexadecimal form of an order id: twenty-four hexadecimal
/// digits.
pub open spec fn is_order_id_text(text: Seq<char>) -> bool {
    &&& text.len() == 24
    &&& forall|i: int| 0 <= i < text.len() ==> (#[trigger] hex_value(text[i])) is Some
}

/// The bytes written by the hexadecimal digits of `text`, two digits per
/// byte, high half first.
pub open spec fn hex_decode(text: Seq<char>) -> Seq<u8> {
    Seq::new(
        text.len() / 2,
        |i: int| (hex_value(text[2 * i])->0 * 16 + hex_value(text[2 * i + 1])->0) as u8,
    )
}

/// The lower-case hexadecimal digit of `v`.
pub open spec fn lower_hex_digit(v: u8) -> char {
    if v < 10 {
        (48 + v) as char
    } else {
        (87 + v) as char
    }
}

/// `bytes` in lower-case hexadecimal, two digits per byte, high half first.
pub open spec fn hex_encode(bytes: Seq<u8>) -> Seq<char> {
    Seq::new(
        2 * bytes.len(),
        |i: int|
            if i % 2 == 0 {
                lower_hex_digit(bytes[i / 2] / 16)
            } else {
                lower_hex_digit(bytes[i / 2] % 16)
            },
    )
}

/// Parses an `ObjectId` from its hexadecimal form
/// (`bson::oid::ObjectId::parse_str`, reached through `mongodb::bson`) and
/// takes its bytes (`ObjectId::bytes`).  The contract restates what the
/// source does: the text is hex-decoded, which accepts upper- and lower-case
/// digits and refuses anything else, and the result must be twelve bytes
/// long.
#[verifier::external_body]
fn object_id_bytes_from_hex(text: &str) -> (r: Option<[u8; 12]>)
    ensures
        r is Some <==> is_order_id_text(text@),
        r matches Some(bytes) ==> bytes@ == hex_decode(text@),
{
    match mongodb::bson::oid::ObjectId::parse_str(text) {
        Ok(id) => Some(id.bytes()),
        Err(_) => None,
    }
}

/// Writes the `ObjectId` with the given bytes in hexadecimal
/// (`bson::oid::ObjectId::from_bytes` and `ObjectId::to_hex`).  The contract
/// restates the source: lower-case digits, two per byte, high half first.
#[verifier::external_body]
fn object_id_hex(bytes: [u8; 12]) -> (r: String)
    ensures
        r@ == hex_encode(bytes@),
{
    mongodb::bson::oid::ObjectId::from_bytes(bytes).to_hex()
}

/// The order id written by `text`, if it is the hexadecimal form of one.
pub fn parse_order_id(text: &str) -> (r: Option<OrderId>)
    ensures
        r is Some <==> is_order_id_text(text@),
        r matches Some(id) ==> id.bytes@ == hex_decode(text@),
{
    match object_id_bytes_from_hex(text) {
        Some(bytes) => Some(OrderId { bytes }),
        None => None,
    }
}

impl OrderId {
    /// The hexadecimal form of this id.
    pub fn to_hex(&self) -> (r: String)
        ensures
            r@ == hex_encode(self.bytes@),
    {
        object_id_hex(self.bytes)
    }
}

/// Writing an id in hexadecimal and reading it back gives the id again.
pub proof fn lemma_hex_round_trip(bytes: Seq<u8>)
    requires
        bytes.len() == 12,
    ensures
        is_order_id_text(hex_encode(bytes)),
        hex_decode(hex_encode(bytes)) == bytes,
{
    let text = hex_encode(bytes);
    assert forall|i: int| 0 <= i < text.len() implies (#[trigger] hex_value(text[i])) is Some by {
        let b = bytes[i / 2];
        let v: u8 = if i % 2 == 0 {
            b / 16
        } else {
            b % 16
        };
        assert(v < 16);
    }
    assert forall|k: int| 0 <= k < bytes.len() implies hex_decode(text)[k] == bytes[k] by {
        let b = bytes[k];
        assert((2 * k) / 2 == k);
        assert((2 * k + 1) / 2 == k);
        assert((2 * k) % 2 == 0);
        assert((2 * k + 1) % 2 == 1);
        assert(hex_value(text[2 * k])->0 == b / 16);
        assert(hex_value(text[2 * k + 1])->0 == b % 16);
        assert((b / 16) * 16 + b % 16 == b);
    }
    assert(hex_decode(text) =~= bytes);
}

} // verus!
