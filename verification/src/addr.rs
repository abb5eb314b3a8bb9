//! Memory addresses, written as `0x`-prefixed lower-case hexadecimal and
//! read from hexadecimal (`0x`/`0X` prefix) or decimal text.
use vstd::prelude::*;
use vstd::string::StringSliceAdditionalSpecFns;
use vstd::utf8::*;

use crate::json::{Number, Value};
use crate::text::{
    ascii_bytes, decimal_text, digits_value, is_radix_digit, unsigned_digits, format_lower_hex,
    lemma_ascii_encoding, lemma_parse_radix_text, lemma_radix_text, lower_hex_text, parse_u64_radix,
    u64_from_str_radix,
};

verus! {

/// Represents an address.
#[derive(Debug, Clone, PartialEq, Eq, Structural, PartialOrd, Ord, Hash)]
pub struct Addr(pub u64);

/// The text of an address: `0x` and its lower-case hexadecimal digits.
pub open spec fn addr_text(v: u64) -> Seq<char> {
    seq!['0', 'x'] + lower_hex_text(v as nat)
}

/// What reading an address from the bytes `b` gives: hexadecimal after a
/// `0x` or `0X` prefix (when more follows it), decimal otherwise.
pub open spec fn addr_parse(b: Seq<u8>) -> Option<u64> {
    if b.len() > 2 && b[0] == 48u8 && (b[1] == 120u8 || b[1] == 88u8) {
        parse_u64_radix(b.subrange(2, b.len() as int), 16)
    } else {
        parse_u64_radix(b, 10)
    }
}

/// The JSON forms an address is read from: a string holding its text, or a
/// non-negative integer.
pub open spec fn addr_from_json_spec(v: Value) -> Option<u64> {
    match v {
        Value::String(s) => addr_parse(encode_utf8(s@)),
        Value::Number(Number::PosInt(n)) => Some(n),
        _ => None,
    }
}

/// Why a JSON value is not an address.
#[derive(Debug)]
pub enum AddrJsonError {
    /// The value is a string that does not read as an address.
    Parse(core::num::ParseIntError),
    /// The value is neither a string nor a non-negative integer.
    NotAnAddress,
}

impl Addr {
    /// Returns `true` if this address is the null pointer.
    pub fn is_null(&self) -> (r: bool)
        ensures
            r == (self.0 == 0),
    {
        self.0 == 0
    }

    /// The text of the address: `0x` followed by lower-case hexadecimal digits.
    pub fn to_string(&self) -> (s: String)
        ensures
            s@ == addr_text(self.0),
    {
        let mut s = "0x".to_owned();
        let digits = format_lower_hex(self.0);
        s.append(digits.as_str());
        proof {
            reveal_strlit("0x");
        }
        s
    }

    /// Reads an address from text: hexadecimal after a `0x` or `0X` prefix
    /// (when more follows it), decimal otherwise; an optional `+` may come
    /// before the digits. The text may not have a multi-byte character
    /// straddling its third byte.
    pub fn parse_str(s: &str) -> (r: Result<Addr, core::num::ParseIntError>)
        requires
            s.spec_bytes().len() > 2 ==> is_char_boundary(s.spec_bytes(), 2),
        ensures
            r is Ok <==> addr_parse(s.spec_bytes()) is Some,
            r matches Ok(a) ==> addr_parse(s.spec_bytes()) == Some(a.0),
    {
        let bytes = s.as_bytes();
        if bytes.len() > 2 && bytes[0] == 48u8 && (bytes[1] == 120u8 || bytes[1] == 88u8) {
            let (_, digits) = s.split_at(2);
            assert(digits.spec_bytes() =~= s.spec_bytes().subrange(2, s.spec_bytes().len() as int));
            match u64_from_str_radix(digits, 16) {
                Ok(v) => Ok(Addr(v)),
                Err(e) => Err(e),
            }
        } else {
            match u64_from_str_radix(s, 10) {
                Ok(v) => Ok(Addr(v)),
                Err(e) => Err(e),
            }
        }
    }

    /// The JSON form of the address: a string holding its text.
    pub fn to_json(&self) -> (v: Value)
        ensures
            v matches Value::String(s) && s@ == addr_text(self.0),
    {
        Value::String(self.to_string())
    }

    /// Reads an address from JSON: a string holding its text, or a
    /// non-negative integer.
    pub fn from_json(v: &Value) -> (r: Result<Addr, AddrJsonError>)
        requires
            v matches Value::String(s) ==> (encode_utf8(s@).len() > 2 ==> is_char_boundary(
                encode_utf8(s@),
                2,
            )),
        ensures
            r is Ok <==> addr_from_json_spec(*v) is Some,
            r matches Ok(a) ==> addr_from_json_spec(*v) == Some(a.0),
            r matches Err(e) ==> (e is NotAnAddress <==> !(v is String)),
    {
        match v {
            Value::String(s) => match Addr::parse_str(s.as_str()) {
                Ok(a) => Ok(a),
                Err(e) => Err(AddrJsonError::Parse(e)),
            },
            Value::Number(Number::PosInt(n)) => Ok(Addr(*n)),
            _ => Err(AddrJsonError::NotAnAddress),
        }
    }
}

/// Reading back the text of an address gives the address (and the text,
/// being ASCII, may be read without restriction).
pub proof fn lemma_addr_text_parses(v: u64)
    ensures
        addr_parse(encode_utf8(addr_text(v))) == Some(v),
        is_ascii_chars(addr_text(v)),
        is_char_boundary(encode_utf8(addr_text(v)), 2),
{
    let hex = lower_hex_text(v as nat);
    lemma_radix_text(v as nat, 16);
    let t = addr_text(v);
    assert forall|i: int| 0 <= i < t.len() implies '\0' <= #[trigger] t[i] <= '\u{7f}' by {
        if i >= 2 {
            assert(t[i] == hex[i - 2]);
        }
    }
    lemma_ascii_encoding(t);
    let b = ascii_bytes(t);
    assert(b.subrange(2, b.len() as int) =~= ascii_bytes(hex));
    lemma_parse_radix_text(v, 16);
    encode_utf8_valid_utf8(t);
    assert(b[2] < 0x80) by {
        assert(t[2] == hex[0]);
    }
    is_char_boundary_iff_not_is_continuation_byte(b, 2);
}

/// The JSON form of an address reads back as the same address.
pub proof fn lemma_addr_json_roundtrip(a: Addr, s: String)
    requires
        s@ == addr_text(a.0),
    ensures
        addr_from_json_spec(Value::String(s)) == Some(a.0),
{
    lemma_addr_text_parses(a.0);
}

/// Every `u64` given as a non-negative JSON integer reads as that address.
pub proof fn lemma_addr_json_integer(n: u64)
    ensures
        addr_from_json_spec(Value::Number(Number::PosInt(n))) == Some(n),
{
}

/// The decimal digits of any `u64`, without a prefix (as `{}` writes them),
/// read back as that number.
pub proof fn lemma_addr_decimal_text_parses(n: u64)
    ensures
        addr_parse(ascii_bytes(decimal_text(n as nat))) == Some(n),
{
    lemma_radix_text(n as nat, 10);
    let b = ascii_bytes(decimal_text(n as nat));
    if b.len() > 2 {
        assert(is_radix_digit(b[1], 10));
    }
    lemma_parse_radix_text(n, 10);
}

/// Text without a `0x` or `0X` prefix is read in base 10 only: it reads as
/// an address exactly when, after an optional `+`, it is one or more
/// decimal digits whose value fits in a `u64`, and then as that value.
pub proof fn lemma_unprefixed_text_is_decimal(b: Seq<u8>)
    requires
        !(b.len() > 2 && b[0] == 48u8 && (b[1] == 120u8 || b[1] == 88u8)),
    ensures
        ({
            let d = unsigned_digits(b);
            let decimal = d.len() > 0 && (forall|i: int| 0 <= i < d.len() ==> 48 <= #[trigger] d[i] <= 57);
            &&& decimal && digits_value(d, 10) <= u64::MAX ==> addr_parse(b) == Some(digits_value(d, 10) as u64)
            &&& !(decimal && digits_value(d, 10) <= u64::MAX) ==> addr_parse(b) is None
        }),
{
    let d = unsigned_digits(b);
    assert forall|i: int| 0 <= i < d.len() implies (48 <= #[trigger] d[i] <= 57 <==> is_radix_digit(d[i], 10)) by {}
}

impl core::str::FromStr for Addr {
    type Err = core::num::ParseIntError;

    /// Reads an address as `Addr::parse_str` does; text with a multi-byte
    /// character straddling its third byte is refused.
    fn from_str(s: &str) -> (r: Result<Addr, core::num::ParseIntError>)
        ensures
            r is Ok <==> addr_parse(s.spec_bytes()) is Some && (s.spec_bytes().len() > 2
                ==> is_char_boundary(s.spec_bytes(), 2)),
            r matches Ok(a) ==> addr_parse(s.spec_bytes()) == Some(a.0),
    {
        if s.as_bytes().len() > 2 && !s.is_char_boundary(2) {
            proof {
                encode_utf8_valid_utf8(s@);
                lemma_no_digits_across_char(s.spec_bytes());
            }
            match u64_from_str_radix(s, 10) {
                Ok(v) => Ok(Addr(v)),
                Err(e) => Err(e),
            }
        } else {
            Addr::parse_str(s)
        }
    }
}

/// Where the third byte of a text is not where a character starts, the
/// text is no decimal number.
proof fn lemma_no_digits_across_char(b: Seq<u8>)
    requires
        valid_utf8(b),
        b.len() > 2,
        !is_char_boundary(b, 2),
    ensures
        parse_u64_radix(b, 10) is None,
{
    is_char_boundary_iff_not_is_continuation_byte(b, 2);
    let d = unsigned_digits(b);
    let j: int = if b[0] == 43u8 { 1 } else { 2 };
    assert(d[j] == b[2]);
    assert(!is_radix_digit(d[j], 10));
}

impl Default for Addr {
    fn default() -> (r: Addr)
        ensures
            r.0 == 0,
    {
        Addr(0)
    }
}

impl From<u64> for Addr {
    fn from(addr: u64) -> (r: Addr)
        ensures
            r.0 == addr,
    {
        Addr(addr)
    }
}

impl vstd::std_specs::convert::FromSpecImpl<u64> for Addr {
    open spec fn obeys_from_spec() -> bool {
        true
    }

    open spec fn from_spec(v: u64) -> Addr {
        Addr(v)
    }
}

impl From<i32> for Addr {
    fn from(addr: i32) -> (r: Addr)
        ensures
            r.0 == addr as u64,
    {
        Addr(addr as u64)
    }
}

impl vstd::std_specs::convert::FromSpecImpl<i32> for Addr {
    open spec fn obeys_from_spec() -> bool {
        true
    }

    open spec fn from_spec(v: i32) -> Addr {
        Addr(v as u64)
    }
}

impl From<u32> for Addr {
    fn from(addr: u32) -> (r: Addr)
        ensures
            r.0 == addr as u64,
    {
        Addr(addr as u64)
    }
}

impl vstd::std_specs::convert::FromSpecImpl<u32> for Addr {
    open spec fn obeys_from_spec() -> bool {
        true
    }

    open spec fn from_spec(v: u32) -> Addr {
        Addr(v as u64)
    }
}

impl From<usize> for Addr {
    fn from(addr: usize) -> (r: Addr)
        ensures
            r.0 == addr as u64,
    {
        Addr(addr as u64)
    }
}

impl vstd::std_specs::convert::FromSpecImpl<usize> for Addr {
    open spec fn obeys_from_spec() -> bool {
        true
    }

    open spec fn from_spec(v: usize) -> Addr {
        Addr(v as u64)
    }
}

impl From<Addr> for u64 {
    fn from(addr: Addr) -> (r: u64)
        ensures
            r == addr.0,
    {
        addr.0
    }
}

impl vstd::std_specs::convert::FromSpecImpl<Addr> for u64 {
    open spec fn obeys_from_spec() -> bool {
        true
    }

    open spec fn from_spec(v: Addr) -> u64 {
        v.0
    }
}

} // verus!
