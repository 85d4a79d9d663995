//! Byte-string utilities: hexadecimal and decimal codecs and comparison.
//!
//! Anchors, git object ids and peer identities all travel as ASCII
//! hexadecimal text; timestamps arrive as decimal text. The codecs here
//! are total on all byte strings and say exactly which inputs they accept.

use vstd::prelude::*;

verus! {

/// True for the ASCII bytes that denote a hexadecimal digit.
pub open spec fn is_hex_digit(b: u8) -> bool {
    (48 <= b <= 57) || (97 <= b <= 102) || (65 <= b <= 70)
}

/// Numeric value of one hexadecimal digit byte.
pub open spec fn hex_val(b: u8) -> u8
    recommends
        is_hex_digit(b),
{
    if 48 <= b <= 57 {
        (b - 48) as u8
    } else if 97 <= b <= 102 {
        (b - 87) as u8
    } else {
        (b - 55) as u8
    }
}

/// Every byte of the sequence denotes a hexadecimal digit.
pub open spec fn is_hex_seq(s: Seq<u8>) -> bool {
    forall|i: int| 0 <= i < s.len() ==> is_hex_digit(s[i])
}

/// The bytes denoted by a sequence of hexadecimal digits, two digits per byte.
pub open spec fn hex_decode_spec(s: Seq<u8>) -> Seq<u8>
    recommends
        s.len() % 2 == 0,
        is_hex_seq(s),
{
    Seq::new((s.len() / 2) as nat, |i: int| (hex_val(s[2 * i]) * 16 + hex_val(s[2 * i + 1])) as u8)
}

/// Lower-case hexadecimal digit byte for a value below sixteen.
pub open spec fn hex_digit(n: u8) -> u8
    recommends
        n < 16,
{
    if n < 10 {
        (48 + n) as u8
    } else {
        (87 + n) as u8
    }
}

/// Lower-case hexadecimal text for a byte sequence, two digits per byte.
pub open spec fn hex_encode_spec(b: Seq<u8>) -> Seq<u8> {
    Seq::new(
        (b.len() * 2) as nat,
        |i: int| if i % 2 == 0 {
            hex_digit(b[i / 2] / 16)
        } else {
            hex_digit(b[i / 2] % 16)
        },
    )
}

/// Decoding inverts encoding: the text produced for any byte sequence is
/// valid hexadecimal of twice the length, and decodes to the original bytes.
pub proof fn lemma_hex_round_trip(b: Seq<u8>)
    ensures
        hex_encode_spec(b).len() == b.len() * 2,
        hex_encode_spec(b).len() % 2 == 0,
        is_hex_seq(hex_encode_spec(b)),
        hex_decode_spec(hex_encode_spec(b)) == b,
{
    let e = hex_encode_spec(b);
    assert forall|i: int| 0 <= i < e.len() implies is_hex_digit(e[i]) by {
        let v = if i % 2 == 0 {
            b[i / 2] / 16
        } else {
            b[i / 2] % 16
        };
        assert(v < 16);
        assert(e[i] == hex_digit(v));
    }
    assert forall|i: int| 0 <= i < b.len() implies hex_decode_spec(e)[i] == b[i] by {
        let hi = b[i] / 16;
        let lo = b[i] % 16;
        assert(e[2 * i] == hex_digit(hi));
        assert(e[2 * i + 1] == hex_digit(lo));
        assert(hex_val(hex_digit(hi)) == hi);
        assert(hex_val(hex_digit(lo)) == lo);
        assert(hex_decode_spec(e)[i] == hi * 16 + lo);
        assert(b[i] == 16 * (b[i] / 16) + b[i] % 16) by {
            vstd::arithmetic::div_mod::lemma_fundamental_div_mod(b[i] as int, 16);
        }
    }
    assert(hex_decode_spec(e) =~= b);
}

/// Whether one byte denotes a hexadecimal digit.
pub fn is_hex_digit_byte(b: u8) -> (r: bool)
    ensures
        r == is_hex_digit(b),
{
    (48 <= b && b <= 57) || (97 <= b && b <= 102) || (65 <= b && b <= 70)
}

/// Numeric value of one hexadecimal digit byte.
pub fn hex_val_byte(b: u8) -> (r: u8)
    requires
        is_hex_digit(b),
    ensures
        r == hex_val(b),
{
    if 48 <= b && b <= 57 {
        b - 48
    } else if 97 <= b && b <= 102 {
        b - 87
    } else {
        b - 55
    }
}

/// Decode hexadecimal text to bytes. Accepts exactly the even-length
/// sequences of hexadecimal digits and returns their denoted bytes.
pub fn hex_decode(s: &Vec<u8>) -> (r: Option<Vec<u8>>)
    ensures
        r is Some <==> s@.len() % 2 == 0 && is_hex_seq(s@),
        r matches Some(v) ==> v@ == hex_decode_spec(s@),
{
    let slen = s.len();
    if slen % 2 != 0 {
        return None;
    }
    let n = slen / 2;
    let mut out: Vec<u8> = Vec::new();
    let mut i: usize = 0;
    while i < n
        invariant
            slen == s@.len(),
            s@.len() % 2 == 0,
            n == s@.len() / 2,
            i <= n,
            out@.len() == i,
            forall|k: int| 0 <= k < 2 * i ==> is_hex_digit(s@[k]),
            forall|k: int| 0 <= k < i ==> out@[k] == hex_decode_spec(s@)[k],
        decreases n - i,
    {
        proof {
            vstd::arithmetic::div_mod::lemma_fundamental_div_mod(s@.len() as int, 2);
            assert(2 * i + 1 < s@.len());
        }
        let hi = s[2 * i];
        let lo = s[2 * i + 1];
        if !is_hex_digit_byte(hi) || !is_hex_digit_byte(lo) {
            return None;
        }
        let v = hex_val_byte(hi) * 16 + hex_val_byte(lo);
        out.push(v);
        i = i + 1;
    }
    assert(out@ =~= hex_decode_spec(s@));
    Some(out)
}

/// Encode bytes as lower-case hexadecimal text, two digits per byte.
pub fn hex_encode(b: &Vec<u8>) -> (r: Vec<u8>)
    requires
        b@.len() * 2 <= usize::MAX,
    ensures
        r@ == hex_encode_spec(b@),
{
    let mut out: Vec<u8> = Vec::new();
    let mut i: usize = 0;
    while i < b.len()
        invariant
            b@.len() * 2 <= usize::MAX,
            i <= b@.len(),
            out@.len() == 2 * i,
            forall|k: int| 0 <= k < 2 * i ==> out@[k] == hex_encode_spec(b@)[k],
        decreases b@.len() - i,
    {
        let byte = b[i];
        let hi = byte / 16;
        let lo = byte % 16;
        let hi_digit = if hi < 10 {
            48 + hi
        } else {
            87 + hi
        };
        let lo_digit = if lo < 10 {
            48 + lo
        } else {
            87 + lo
        };
        out.push(hi_digit);
        out.push(lo_digit);
        i = i + 1;
    }
    assert(out@ =~= hex_encode_spec(b@));
    out
}

/// Copy of the bytes of `s` from position `from` up to position `to`.
pub fn copy_range(s: &Vec<u8>, from: usize, to: usize) -> (r: Vec<u8>)
    requires
        from <= to <= s@.len(),
    ensures
        r@ == s@.subrange(from as int, to as int),
{
    let mut r: Vec<u8> = Vec::new();
    let mut i: usize = from;
    while i < to
        invariant
            from <= i <= to <= s@.len(),
            r@ == s@.subrange(from as int, i as int),
        decreases to - i,
    {
        let b = s[i];
        r.push(b);
        proof {
            assert(s@.subrange(from as int, i + 1) =~= s@.subrange(from as int, i as int).push(
                s@[i as int],
            ));
        }
        i = i + 1;
    }
    r
}

/// Byte-for-byte equality of two byte strings.
pub fn bytes_eq(a: &Vec<u8>, b: &Vec<u8>) -> (r: bool)
    ensures
        r <==> a@ == b@,
{
    if a.len() != b.len() {
        return false;
    }
    let mut i: usize = 0;
    while i < a.len()
        invariant
            a@.len() == b@.len(),
            i <= a@.len(),
            forall|k: int| 0 <= k < i ==> a@[k] == b@[k],
        decreases a@.len() - i,
    {
        if a[i] != b[i] {
            return false;
        }
        i = i + 1;
    }
    assert(a@ =~= b@);
    true
}

/// Whether `s` begins with the bytes of `prefix`.
pub fn starts_with(s: &Vec<u8>, prefix: &Vec<u8>) -> (r: bool)
    ensures
        r <==> s@.len() >= prefix@.len() && s@.take(prefix@.len() as int) == prefix@,
{
    if s.len() < prefix.len() {
        return false;
    }
    let mut i: usize = 0;
    while i < prefix.len()
        invariant
            s@.len() >= prefix@.len(),
            i <= prefix@.len(),
            forall|k: int| 0 <= k < i ==> s@[k] == prefix@[k],
        decreases prefix@.len() - i,
    {
        if s[i] != prefix[i] {
            return false;
        }
        i = i + 1;
    }
    assert(s@.take(prefix@.len() as int) =~= prefix@);
    true
}

/// True for the ASCII bytes that denote a decimal digit.
pub open spec fn is_dec_digit(b: u8) -> bool {
    48 <= b <= 57
}

/// Every byte of the sequence denotes a decimal digit.
pub open spec fn is_dec_seq(s: Seq<u8>) -> bool {
    forall|i: int| 0 <= i < s.len() ==> is_dec_digit(s[i])
}

/// The number denoted by decimal digit text, most significant digit first.
pub open spec fn dec_val(s: Seq<u8>) -> nat
    recommends
        is_dec_seq(s),
    decreases s.len(),
{
    if s.len() == 0 {
        0
    } else {
        (dec_val(s.drop_last()) * 10 + (s.last() - 48)) as nat
    }
}

/// A prefix of decimal text never denotes more than the whole text.
pub proof fn lemma_dec_val_prefix(s: Seq<u8>, i: int)
    requires
        0 <= i <= s.len(),
        is_dec_seq(s),
    ensures
        dec_val(s.take(i)) <= dec_val(s),
    decreases s.len() - i,
{
    if i < s.len() {
        lemma_dec_val_prefix(s, i + 1);
        assert(s.take(i + 1).drop_last() =~= s.take(i));
        assert(dec_val(s.take(i + 1)) == dec_val(s.take(i)) * 10 + (s.take(i + 1).last() - 48));
    } else {
        assert(s.take(i) =~= s);
    }
}

/// Parse unsigned decimal text. Accepts exactly the non-empty all-digit
/// strings whose value fits in sixty-four bits, and returns that value.
pub fn parse_u64_dec(s: &Vec<u8>) -> (r: Option<u64>)
    ensures
        r is Some <==> s@.len() > 0 && is_dec_seq(s@) && dec_val(s@) <= u64::MAX,
        r matches Some(v) ==> v == dec_val(s@),
{
    if s.len() == 0 {
        return None;
    }
    let mut val: u64 = 0;
    let mut i: usize = 0;
    while i < s.len()
        invariant
            i <= s@.len(),
            forall|k: int| 0 <= k < i ==> is_dec_digit(s@[k]),
            val == dec_val(s@.take(i as int)),
        decreases s@.len() - i,
    {
        let b = s[i];
        if !(48 <= b && b <= 57) {
            return None;
        }
        let d = (b - 48) as u64;
        let limit = (u64::MAX - d) / 10;
        if val > limit {
            proof {
                assert(is_dec_seq(s@.take(i + 1))) by {
                    assert(forall|k: int| 0 <= k < i + 1 ==> is_dec_digit(#[trigger] s@.take(
                        i + 1,
                    )[k]));
                }
                assert(s@.take(i + 1).drop_last() =~= s@.take(i as int));
                assert(dec_val(s@.take(i + 1)) == val * 10 + d);
                assert(val * 10 + d > u64::MAX) by {
                    vstd::arithmetic::div_mod::lemma_fundamental_div_mod(
                        (u64::MAX - d) as int,
                        10,
                    );
                }
                if is_dec_seq(s@) {
                    lemma_dec_val_prefix(s@, i + 1);
                }
            }
            return None;
        }
        proof {
            vstd::arithmetic::div_mod::lemma_fundamental_div_mod((u64::MAX - d) as int, 10);
            assert(val * 10 <= limit * 10);
            assert(limit * 10 <= u64::MAX - d);
            assert(s@.take(i + 1).drop_last() =~= s@.take(i as int));
        }
        val = val * 10 + d;
        i = i + 1;
    }
    proof {
        assert(s@.take(s@.len() as int) =~= s@);
    }
    Some(val)
}

} // verus!
