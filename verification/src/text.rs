//! Text helpers: digit strings in a radix, their numeric value, writing
//! numbers as digits, and the standard library's integer parsing that the
//! protocol types rely on.
use vstd::prelude::*;
use vstd::string::StringSliceAdditionalSpecFns;
use vstd::utf8::*;
use vstd::arithmetic::power::pow;

verus! {

broadcast use vstd::seq_lib::group_seq_properties;

// ---------------------------------------------------------------------------
// Digits and their values (on bytes, as the parser reads them)
// ---------------------------------------------------------------------------

/// The value of an ASCII digit byte (`0-9`, `a-z`, `A-Z`); 36 for any other byte.
pub open spec fn digit_value(b: u8) -> int {
    if 48 <= b && b <= 57 {
        b - 48
    } else if 97 <= b && b <= 122 {
        b - 97 + 10
    } else if 65 <= b && b <= 90 {
        b - 65 + 10
    } else {
        36
    }
}

/// Whether `b` is a digit of the given radix.
pub open spec fn is_radix_digit(b: u8, radix: u32) -> bool {
    digit_value(b) < radix
}

/// Whether every byte of `s` is a digit of the given radix.
pub open spec fn all_radix_digits(s: Seq<u8>, radix: u32) -> bool {
    forall|i: int| 0 <= i < s.len() ==> #[trigger] is_radix_digit(s[i], radix)
}

/// The number written by the digit bytes `s` in the given radix (most significant first).
pub open spec fn digits_value(s: Seq<u8>, radix: u32) -> int
    decreases s.len(),
{
    if s.len() == 0 {
        0
    } else {
        digits_value(s.drop_last(), radix) * radix + digit_value(s.last())
    }
}

/// The digits of `s` after one optional leading `+`.
pub open spec fn unsigned_digits(s: Seq<u8>) -> Seq<u8> {
    if s.len() > 0 && s[0] == 43u8 {
        s.drop_first()
    } else {
        s
    }
}

/// What `u64::from_str_radix` accepts and gives back: an optional `+`
/// followed by at least one digit of the radix, whose value fits in a `u64`.
pub open spec fn parse_u64_radix(s: Seq<u8>, radix: u32) -> Option<u64> {
    let d = unsigned_digits(s);
    if d.len() > 0 && all_radix_digits(d, radix) && digits_value(d, radix) <= u64::MAX {
        Some(digits_value(d, radix) as u64)
    } else {
        None
    }
}

// ---------------------------------------------------------------------------
// Formatting (on chars, as a `String` is viewed)
// ---------------------------------------------------------------------------

/// The character of a digit below 16, lower case for 10 to 15.
pub open spec fn lower_digit_char(d: int) -> char {
    if d < 10 {
        (d + 48) as char
    } else {
        (d - 10 + 97) as char
    }
}

/// The digits of `v` in the given radix (2 to 16), lower case, without leading zeros.
pub open spec fn radix_text(v: nat, radix: nat) -> Seq<char>
    decreases v,
{
    if radix < 2 || v < radix {
        seq![lower_digit_char(v as int)]
    } else {
        proof {
            assert(v / radix < v) by (nonlinear_arith)
                requires
                    radix >= 2,
                    v >= radix,
            ;
        }
        radix_text(v / radix, radix).push(lower_digit_char((v % radix) as int))
    }
}

/// The lowest `n` hexadecimal digits of `v`, lower case, most significant
/// first, with leading zeros.
pub open spec fn padded_hex_text(v: nat, n: nat) -> Seq<char>
    decreases n,
{
    if n == 0 {
        Seq::empty()
    } else {
        padded_hex_text(v / 16, (n - 1) as nat).push(lower_digit_char((v % 16) as int))
    }
}

/// The lower-case hexadecimal digits of `v`, as `{:x}` writes them.
pub open spec fn lower_hex_text(v: nat) -> Seq<char> {
    radix_text(v, 16)
}

/// The decimal digits of `v`, as `{}` writes them.
pub open spec fn decimal_text(v: nat) -> Seq<char> {
    radix_text(v, 10)
}

/// The bytes of an ASCII character sequence.
pub open spec fn ascii_bytes(s: Seq<char>) -> Seq<u8> {
    s.map_values(|c: char| c as u8)
}

/// Every character of `radix_text` is a lower-case ASCII digit of the radix, and
/// reading the text back gives the value.
pub proof fn lemma_radix_text(v: nat, radix: nat)
    requires
        2 <= radix <= 16,
    ensures
        radix_text(v, radix).len() > 0,
        is_ascii_chars(radix_text(v, radix)),
        forall|i: int|
            0 <= i < radix_text(v, radix).len() ==> {
                let c = #[trigger] radix_text(v, radix)[i];
                ('0' <= c && c <= '9') || ('a' <= c && c <= 'f')
            },
        all_radix_digits(ascii_bytes(radix_text(v, radix)), radix as u32),
        digits_value(ascii_bytes(radix_text(v, radix)), radix as u32) == v,
        ascii_bytes(radix_text(v, radix))[0] != 43u8,
    decreases v,
{
    let t = radix_text(v, radix);
    let b = ascii_bytes(t);
    if v < radix {
        assert(b =~= seq![lower_digit_char(v as int) as u8]);
        assert(b.drop_last() =~= Seq::<u8>::empty());
        assert(digits_value(b.drop_last(), radix as u32) == 0);
    } else {
        let q = v / radix;
        let r = (v % radix) as int;
        lemma_radix_text(q, radix);
        let tq = radix_text(q, radix);
        let bq = ascii_bytes(tq);
        assert(t == tq.push(lower_digit_char(r)));
        assert(b.drop_last() =~= bq);
        assert(b.last() == lower_digit_char(r) as u8);
        assert(digit_value(b.last()) == r);
        assert forall|i: int| 0 <= i < b.len() implies #[trigger] is_radix_digit(b[i], radix as u32) by {
            if i < bq.len() {
                assert(b[i] == bq[i]);
            }
        }
        assert forall|i: int| 0 <= i < t.len() implies '\0' <= #[trigger] t[i] <= '\u{7f}' by {
            if i < tq.len() {
                assert(t[i] == tq[i]);
            }
        }
        assert forall|i: int| 0 <= i < t.len() implies {
            let c = #[trigger] t[i];
            ('0' <= c && c <= '9') || ('a' <= c && c <= 'f')
        } by {
            if i < tq.len() {
                assert(t[i] == tq[i]);
            }
        }
        assert(digits_value(b, radix as u32) == q * radix + r);
        assert(q * radix + r == v) by (nonlinear_arith)
            requires
                q == v / radix,
                r == v % radix,
                radix > 0,
        ;
        assert(b[0] == bq[0]);
    }
}

/// The `n` digits of `padded_hex_text` are lower-case hexadecimal digits,
/// and reading them back in base 16 gives `v` modulo 16 to the `n`: the
/// digit at each place is the matching nibble of `v`.
pub proof fn lemma_padded_hex_text(v: nat, n: nat)
    ensures
        padded_hex_text(v, n).len() == n,
        forall|i: int|
            0 <= i < n ==> {
                let c = #[trigger] padded_hex_text(v, n)[i];
                ('0' <= c && c <= '9') || ('a' <= c && c <= 'f')
            },
        all_radix_digits(ascii_bytes(padded_hex_text(v, n)), 16),
        digits_value(ascii_bytes(padded_hex_text(v, n)), 16) == (v as int) % pow(16, n),
    decreases n,
{
    reveal(pow);
    let t = padded_hex_text(v, n);
    let b = ascii_bytes(t);
    if n == 0 {
        assert(b =~= Seq::<u8>::empty());
    } else {
        let q = v / 16;
        let r = (v % 16) as int;
        lemma_padded_hex_text(q, (n - 1) as nat);
        let tq = padded_hex_text(q, (n - 1) as nat);
        let bq = ascii_bytes(tq);
        assert(t == tq.push(lower_digit_char(r)));
        assert(b.drop_last() =~= bq);
        assert(b.last() == lower_digit_char(r) as u8);
        assert(digit_value(b.last()) == r);
        assert forall|i: int| 0 <= i < n implies {
            let c = #[trigger] t[i];
            ('0' <= c && c <= '9') || ('a' <= c && c <= 'f')
        } by {
            if i < n - 1 {
                assert(t[i] == tq[i]);
            }
        }
        assert forall|i: int| 0 <= i < b.len() implies #[trigger] is_radix_digit(b[i], 16) by {
            if i < bq.len() {
                assert(b[i] == bq[i]);
            }
        }
        let p = pow(16, (n - 1) as nat);
        vstd::arithmetic::power::lemma_pow_positive(16, (n - 1) as nat);
        assert(pow(16, n) == 16 * p);
        vstd::arithmetic::div_mod::lemma_mod_breakdown(v as int, 16, p);
        assert(digits_value(b, 16) == ((q as int) % p) * 16 + r);
    }
}

/// An ASCII string's UTF-8 bytes are its characters, one byte each.
pub proof fn lemma_ascii_encoding(s: Seq<char>)
    requires
        is_ascii_chars(s),
    ensures
        encode_utf8(s) == ascii_bytes(s),
{
    is_ascii_chars_encode_utf8(s);
    assert(encode_utf8(s) =~= ascii_bytes(s));
}

/// Digits written by `radix_text` are read back by `u64::from_str_radix`.
pub proof fn lemma_parse_radix_text(v: u64, radix: u32)
    requires
        2 <= radix <= 16,
    ensures
        parse_u64_radix(ascii_bytes(radix_text(v as nat, radix as nat)), radix) == Some(v),
{
    lemma_radix_text(v as nat, radix as nat);
}

// ---------------------------------------------------------------------------
// Comparing strings
// ---------------------------------------------------------------------------

/// Whether two byte slices hold the same bytes.
pub fn bytes_equal(a: &[u8], b: &[u8]) -> (r: bool)
    ensures
        r == (a@ == b@),
{
    if a.len() != b.len() {
        return false;
    }
    let mut i: usize = 0;
    while i < a.len()
        invariant
            a@.len() == b@.len(),
            i <= a@.len(),
            forall|j: int| 0 <= j < i ==> a@[j] == b@[j],
        decreases a@.len() - i,
    {
        if a[i] != b[i] {
            return false;
        }
        i = i + 1;
    }
    assert(a@ =~= b@);
    true
}

/// Whether two strings hold the same characters.
pub fn str_equal(a: &str, b: &str) -> (r: bool)
    ensures
        r == (a@ == b@),
{
    let r = bytes_equal(a.as_bytes(), b.as_bytes());
    proof {
        if a.spec_bytes() == b.spec_bytes() {
            encode_utf8_decode_utf8(a@);
            encode_utf8_decode_utf8(b@);
        }
    }
    r
}

// ---------------------------------------------------------------------------
// Parsing and writing integers
// ---------------------------------------------------------------------------

#[verifier::external_type_specification]
#[verifier::external_body]
pub struct ExParseIntError(core::num::ParseIntError);

/// `u64::from_str_radix`: by its documentation it accepts an optional `+`
/// followed by only digits of the radix (`0-9`, `a-z`, `A-Z`), and gives
/// their value, which must fit in a `u64`; anything else is an error.
/// Which kind of `ParseIntError` comes back is not stated.
#[verifier::external_body]
pub(crate) fn u64_from_str_radix(src: &str, radix: u32) -> (r: Result<u64, core::num::ParseIntError>)
    requires
        2 <= radix <= 36,
    ensures
        r is Ok <==> parse_u64_radix(src.spec_bytes(), radix) is Some,
        r matches Ok(v) ==> parse_u64_radix(src.spec_bytes(), radix) == Some(v),
{
    u64::from_str_radix(src, radix)
}

/// The one-character text of a digit below 16, lower case for 10 to 15.
fn digit_str(d: u64) -> (s: &'static str)
    requires
        d < 16,
    ensures
        s@ == seq![lower_digit_char(d as int)],
{
    proof {
        reveal_strlit("0");
        reveal_strlit("1");
        reveal_strlit("2");
        reveal_strlit("3");
        reveal_strlit("4");
        reveal_strlit("5");
        reveal_strlit("6");
        reveal_strlit("7");
        reveal_strlit("8");
        reveal_strlit("9");
        reveal_strlit("a");
        reveal_strlit("b");
        reveal_strlit("c");
        reveal_strlit("d");
        reveal_strlit("e");
        reveal_strlit("f");
    }
    if d == 0 {
        "0"
    } else if d == 1 {
        "1"
    } else if d == 2 {
        "2"
    } else if d == 3 {
        "3"
    } else if d == 4 {
        "4"
    } else if d == 5 {
        "5"
    } else if d == 6 {
        "6"
    } else if d == 7 {
        "7"
    } else if d == 8 {
        "8"
    } else if d == 9 {
        "9"
    } else if d == 10 {
        "a"
    } else if d == 11 {
        "b"
    } else if d == 12 {
        "c"
    } else if d == 13 {
        "d"
    } else if d == 14 {
        "e"
    } else {
        "f"
    }
}

/// The digits of `v` in the given radix, most significant first, lower case,
/// without leading zeros.
fn format_radix(v: u64, radix: u64) -> (s: String)
    requires
        2 <= radix <= 16,
    ensures
        s@ == radix_text(v as nat, radix as nat),
    decreases v,
{
    if v < radix {
        digit_str(v).to_owned()
    } else {
        proof {
            assert(v / radix < v) by (nonlinear_arith)
                requires
                    radix >= 2,
                    v >= radix,
            ;
        }
        let mut s = format_radix(v / radix, radix);
        s.append(digit_str(v % radix));
        proof {
            assert(s@ =~= radix_text((v / radix) as nat, radix as nat).push(lower_digit_char((v % radix) as int)));
        }
        s
    }
}

/// The lowest `n` hexadecimal digits of `v`, lower case, with leading zeros.
pub fn format_padded_hex(v: u128, n: u32) -> (s: String)
    ensures
        s@ == padded_hex_text(v as nat, n as nat),
    decreases n,
{
    if n == 0 {
        String::new()
    } else {
        let mut s = format_padded_hex(v / 16, n - 1);
        s.append(digit_str((v % 16) as u64));
        proof {
            assert(s@ =~= padded_hex_text((v / 16) as nat, (n - 1) as nat).push(
                lower_digit_char((v % 16) as int),
            ));
        }
        s
    }
}

/// The lower-case hexadecimal digits of `v`, without leading zeros, as
/// `format!("{:x}", v)` writes them.
pub fn format_lower_hex(v: u64) -> (s: String)
    ensures
        s@ == lower_hex_text(v as nat),
{
    format_radix(v, 16)
}

/// The decimal digits of `v`, without leading zeros, as `format!("{}", v)`
/// writes them.
pub fn format_decimal(v: u64) -> (s: String)
    ensures
        s@ == decimal_text(v as nat),
{
    format_radix(v, 10)
}

} // verus!
