//! Identifiers and timestamps as the storage layer holds them.

pub mod model;

use vstd::prelude::*;

verus! {

/// `uuid::Error`, the error of `uuid::Uuid::parse_str`. It is carried
/// through; nothing is claimed of what it holds.
#[verifier::external_type_specification]
#[verifier::external_body]
pub struct ExUuidError(uuid::Error);

/// What `uuid::Uuid::parse_str` makes of a text: the 128 bits of the
/// identifier it reads, or `None` where it rejects the text.
pub uninterp spec fn uuid_parsed(text: Seq<char>) -> Option<u128>;

/// The lower-case hexadecimal digit for a value below sixteen.
pub open spec fn hex_digit(n: u128) -> char {
    if n < 10 {
        (0x30 + n) as char
    } else {
        (0x61 + n - 10) as char
    }
}

/// The number of hyphens that stand before position `i` of the hyphenated form.
pub open spec fn hyphens_before(i: int) -> int {
    if i > 23 {
        4
    } else if i > 18 {
        3
    } else if i > 13 {
        2
    } else if i > 8 {
        1
    } else {
        0
    }
}

/// The canonical text of an identifier: its 32 hexadecimal digits, most
/// significant first and in lower case, in groups of 8, 4, 4, 4 and 12 with a
/// hyphen between two groups.
pub open spec fn canonical_text(bits: u128) -> Seq<char> {
    Seq::new(
        36,
        |i: int|
            if i == 8 || i == 13 || i == 18 || i == 23 {
                '-'
            } else {
                hex_digit((bits >> ((4 * (31 - (i - hyphens_before(i)))) as u128)) & 0xf)
            },
    )
}

/// The bits that mark version 4 (random) and the RFC 4122 variant.
pub open spec fn is_random_version(bits: u128) -> bool {
    bits & 0x0000_0000_0000_f000_c000_0000_0000_0000 == 0x0000_0000_0000_4000_8000_0000_0000_0000
}

/// Calls `uuid::Uuid::parse_str` and hands out the identifier as 128 bits.
/// Trusted: the outcome is `uuid_parsed` of the text, an `Ok` exactly where
/// that is `Some`.
#[verifier::external_body]
fn parse_uuid(text: &str) -> (r: Result<u128, uuid::Error>)
    ensures
        r is Ok <==> uuid_parsed(text@) is Some,
        r is Ok ==> uuid_parsed(text@) == Some(r->Ok_0),
{
    match uuid::Uuid::parse_str(text) {
        Ok(id) => Ok(id.as_u128()),
        Err(e) => Err(e),
    }
}

/// Calls `uuid::Uuid::new_v4` and hands out the identifier as 128 bits.
/// Trusted: whatever the random source gave, the version is 4 and the variant
/// is that of RFC 4122.
#[verifier::external_body]
fn random_uuid() -> (bits: u128)
    ensures
        is_random_version(bits),
{
    uuid::Uuid::new_v4().as_u128()
}

/// Writes 128 bits with `Display` of `uuid::Uuid`. Trusted: the text is the
/// hyphenated lower-case form, and `uuid::Uuid::parse_str` reads it back as
/// the same bits.
#[verifier::external_body]
fn format_uuid(bits: u128) -> (text: String)
    ensures
        text@ == canonical_text(bits),
        uuid_parsed(text@) == Some(bits),
{
    uuid::Uuid::from_u128(bits).to_string()
}

/// A point in time without a zone: whole seconds since 1970-01-01 00:00:00
/// and the nanoseconds within the second.
#[derive(Clone, Copy, Debug, PartialEq, Eq, Structural)]
pub struct Timestamp {
    pub secs: i64,
    pub nanos: u32,
}

/// The identity of a stored record: 128 bits.
#[derive(Clone, Copy, Debug, PartialEq, Eq, Structural)]
pub struct Dbid {
    bits: u128,
}

impl View for Dbid {
    type V = u128;

    closed spec fn view(&self) -> u128 {
        self.bits
    }
}

impl Dbid {
    /// A fresh random identifier. It is never the nil identifier.
    pub fn new() -> (id: Dbid)
        ensures
            is_random_version(id@),
            id@ != 0,
    {
        let bits: u128 = random_uuid();
        assert(bits & 0x0000_0000_0000_f000_c000_0000_0000_0000
            == 0x0000_0000_0000_4000_8000_0000_0000_0000 ==> bits != 0) by (bit_vector);
        Dbid { bits }
    }

    /// The nil identifier: all bits zero. A placeholder, never a record's identity.
    pub fn nil() -> (id: Dbid)
        ensures
            id@ == 0,
    {
        Dbid { bits: 0 }
    }

    /// Whether this is the nil identifier.
    pub fn is_nil(&self) -> (b: bool)
        ensures
            b == (self@ == 0),
    {
        self.bits == 0
    }

    /// Reads an identifier from text, in any form that the identifier format
    /// knows; the error says what was wrong with the text.
    pub fn from_str(id: &str) -> (r: Result<Dbid, uuid::Error>)
        ensures
            r is Ok <==> uuid_parsed(id@) is Some,
            r is Ok ==> uuid_parsed(id@) == Some(r->Ok_0@),
    {
        match parse_uuid(id) {
            Ok(bits) => Ok(Dbid { bits }),
            Err(e) => Err(e),
        }
    }

    /// The canonical text of the identifier, which `from_str` reads back.
    pub fn to_string(&self) -> (text: String)
        ensures
            text@ == canonical_text(self@),
            uuid_parsed(text@) == Some(self@),
    {
        format_uuid(self.bits)
    }

    /// The identifier's 128 bits.
    pub fn as_u128(&self) -> (bits: u128)
        ensures
            bits == self@,
    {
        self.bits
    }

    /// The identifier with the given bits.
    pub fn from_u128(bits: u128) -> (id: Dbid)
        ensures
            id@ == bits,
    {
        Dbid { bits }
    }
}

impl Default for Dbid {
    /// A fresh random identifier, as `new` gives it.
    fn default() -> (id: Dbid)
        ensures
            is_random_version(id@),
            id@ != 0,
    {
        Dbid::new()
    }
}

} // verus!
