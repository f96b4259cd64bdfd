use vstd::prelude::*;

verus! {

/// True of the bytes that percent-encoding passes through unchanged:
/// the ASCII digits and letters, and `-` (45), `.` (46), `_` (95), `~` (126).
pub open spec fn is_unreserved(b: u8) -> bool {
    (48 <= b && b <= 57)        // '0'..='9'
    || (65 <= b && b <= 90)     // 'A'..='Z'
    || (97 <= b && b <= 122)    // 'a'..='z'
    || b == 45 || b == 46 || b == 95 || b == 126
}

/// The ASCII code of the uppercase hexadecimal digit for `n < 16`:
/// `0..=9` become `'0'..='9'`, `10..=15` become `'A'..='F'`.
pub open spec fn hex_upper(n: u8) -> u8
    recommends
        n < 16,
{
    if n < 10 {
        (48 + n) as u8
    } else {
        (55 + n) as u8
    }
}

/// The numeric value of an ASCII hexadecimal digit, upper or lower case,
/// or `None` for any other byte.
pub open spec fn hex_val(b: u8) -> Option<u8> {
    if 48 <= b && b <= 57 {
        Some((b - 48) as u8)        // '0'..='9'
    } else if 65 <= b && b <= 70 {
        Some((b - 55) as u8)        // 'A'..='F'
    } else if 97 <= b && b <= 102 {
        Some((b - 87) as u8)        // 'a'..='f'
    } else {
        None
    }
}

/// How percent-encoding renders a single byte: unreserved bytes stand as
/// themselves, every other byte becomes `%` (37) and two uppercase hex digits.
pub open spec fn encode_byte(b: u8) -> Seq<u8> {
    if is_unreserved(b) {
        seq![b]
    } else {
        seq![37u8, hex_upper(b / 16), hex_upper(b % 16)]
    }
}

/// The percent-encoding of a whole byte string.
pub open spec fn percent_encode(s: Seq<u8>) -> Seq<u8>
    decreases s.len(),
{
    if s.len() == 0 {
        Seq::empty()
    } else {
        encode_byte(s[0]) + percent_encode(s.skip(1))
    }
}

/// Standard percent-decoding: every `%` followed by two hexadecimal digits
/// becomes the byte they spell; every other byte passes through unchanged.
pub open spec fn percent_decode(s: Seq<u8>) -> Seq<u8>
    decreases s.len(),
{
    if s.len() == 0 {
        Seq::empty()
    } else if s[0] == 37 && s.len() >= 3 && hex_val(s[1]) is Some && hex_val(s[2]) is Some {
        seq![(hex_val(s[1])->Some_0 * 16 + hex_val(s[2])->Some_0) as u8] + percent_decode(s.skip(3))
    } else {
        seq![s[0]] + percent_decode(s.skip(1))
    }
}

/// Relies on urlencoding::encode_binary: it percent-encodes every byte except
/// the ASCII alphanumerics and `-`, `.`, `_`, `~`, writing `%` and two
/// uppercase hexadecimal digits for each encoded byte.
#[verifier::external_body]
pub(crate) fn percent_encode_bytes(data: &[u8]) -> (r: Vec<u8>)
    ensures
        r@ == percent_encode(data@),
{
    urlencoding::encode_binary(data).into_owned().into_bytes()
}

proof fn lemma_hex_val_upper(n: u8)
    requires
        n < 16,
    ensures
        hex_val(hex_upper(n)) == Some(n),
{
}

/// Percent-decoding inverts percent-encoding: encoding any byte string and
/// then decoding the result yields the original string, so a name carried
/// inside a request path round-trips exactly.
pub proof fn lemma_percent_decode_encode(s: Seq<u8>)
    ensures
        percent_decode(percent_encode(s)) == s,
    decreases s.len(),
{
    if s.len() == 0 {
        assert(s =~= Seq::<u8>::empty());
    } else {
        let b = s[0];
        let rest = percent_encode(s.skip(1));
        lemma_percent_decode_encode(s.skip(1));
        if is_unreserved(b) {
            let enc = seq![b] + rest;
            assert(percent_encode(s) == enc);
            assert(enc[0] == b && b != 37);
            assert(enc.skip(1) =~= rest);
            assert(percent_decode(enc) == seq![b] + percent_decode(rest));
            assert(seq![b] + s.skip(1) =~= s);
        } else {
            let h1 = hex_upper(b / 16);
            let h2 = hex_upper(b % 16);
            assert(b / 16 < 16 && b % 16 < 16);
            lemma_hex_val_upper(b / 16);
            lemma_hex_val_upper(b % 16);
            let enc = seq![37u8, h1, h2] + rest;
            assert(percent_encode(s) == enc);
            assert(enc.len() >= 3 && enc[0] == 37 && enc[1] == h1 && enc[2] == h2);
            assert((b / 16) * 16 + b % 16 == b) by {
                vstd::arithmetic::div_mod::lemma_fundamental_div_mod(b as int, 16);
            }
            assert(enc.skip(3) =~= rest);
            assert(percent_decode(enc) == seq![b] + percent_decode(rest));
            assert(seq![b] + s.skip(1) =~= s);
        }
    }
}

} // verus!
