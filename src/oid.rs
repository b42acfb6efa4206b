//! Object identifiers: twelve bytes, written as twenty-four hexadecimal digits.
use vstd::prelude::*;

verus! {

/// Whether `c` is an ASCII hexadecimal digit, in either case.
pub open spec fn is_hex_digit(c: char) -> bool {
    ('0' <= c && c <= '9') || ('a' <= c && c <= 'f') || ('A' <= c && c <= 'F')
}

/// The value of a hexadecimal digit.
pub open spec fn hex_value(c: char) -> int {
    if '0' <= c && c <= '9' {
        c as int - '0' as int
    } else if 'a' <= c && c <= 'f' {
        c as int - 'a' as int + 10
    } else {
        c as int - 'A' as int + 10
    }
}

/// The lower-case digit for a value below sixteen.
pub open spec fn lower_hex_digit(n: int) -> char {
    if n < 10 {
        (n + '0' as int) as char
    } else {
        (n - 10 + 'a' as int) as char
    }
}

/// Whether `s` spells an object id: exactly twenty-four hexadecimal digits.
pub open spec fn is_oid_hex(s: Seq<char>) -> bool {
    s.len() == 24 && forall|i: int| 0 <= i < s.len() ==> is_hex_digit(#[trigger] s[i])
}

/// The bytes that a string of hexadecimal digits spells, two digits per byte.
pub open spec fn hex_decode(s: Seq<char>) -> Seq<u8> {
    Seq::new(s.len() / 2, |i: int| (16 * hex_value(s[2 * i]) + hex_value(s[2 * i + 1])) as u8)
}

/// The lower-case hexadecimal spelling of some bytes, two digits per byte.
pub open spec fn hex_encode(b: Seq<u8>) -> Seq<char> {
    Seq::new(
        2 * b.len(),
        |i: int|
            if i % 2 == 0 {
                lower_hex_digit(b[i / 2] as int / 16)
            } else {
                lower_hex_digit(b[i / 2] as int % 16)
            },
    )
}

/// Relies on bson::oid::ObjectId::parse_str: it accepts exactly the strings of
/// twenty-four hexadecimal digits (either case) and decodes two digits per byte.
#[verifier::external_body]
fn parse_oid_bytes(s: &str) -> (r: Option<[u8; 12]>)
    ensures
        r is Some <==> is_oid_hex(s@),
        r matches Some(b) ==> b@ == hex_decode(s@),
{
    bson::oid::ObjectId::parse_str(s).ok().map(|o| o.bytes())
}

/// Relies on bson::oid::ObjectId::to_hex: two lower-case digits per byte.
#[verifier::external_body]
fn oid_bytes_hex(b: [u8; 12]) -> (r: String)
    ensures
        r@ == hex_encode(b@),
{
    bson::oid::ObjectId::from_bytes(b).to_hex()
}

/// An object identifier of the backend.
#[derive(Clone, Copy, Debug)]
pub struct ObjectId {
    pub bytes: [u8; 12],
}

impl ObjectId {
    /// The canonical spelling of this id: twenty-four lower-case digits.
    pub open spec fn hex(self) -> Seq<char> {
        hex_encode(self.bytes@)
    }

    /// Parses twenty-four hexadecimal digits; `None` for anything else.
    pub fn parse(s: &str) -> (r: Option<ObjectId>)
        ensures
            r is Some <==> is_oid_hex(s@),
            r matches Some(o) ==> o.bytes@ == hex_decode(s@),
    {
        match parse_oid_bytes(s) {
            Some(b) => Some(ObjectId { bytes: b }),
            None => None,
        }
    }

    /// The canonical spelling of this id.
    pub fn to_string(&self) -> (r: String)
        ensures
            r@ == self.hex(),
    {
        oid_bytes_hex(self.bytes)
    }
}

} // verus!
