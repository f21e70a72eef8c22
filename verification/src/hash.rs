//! Credential hashing: the md5 digest of a password and its rendering as a
//! hex string.
//!
//! The rendering writes each digest byte in lower-case hex *without* a
//! leading zero, so a byte below 16 contributes a single character and the
//! rendered digest of 16 bytes is between 16 and 32 characters long.

use vstd::prelude::*;

verus! {

/// The md5 digest of the UTF-8 bytes of a string, as 16 bytes.
pub uninterp spec fn md5_of(s: Seq<char>) -> Seq<u8>;

/// Relies on md5::compute: the digest is a pure function of the input bytes
/// alone, and is exactly 16 bytes long.
#[verifier::external_body]
pub fn md5_digest(s: &str) -> (r: Vec<u8>)
    ensures
        r@ == md5_of(s@),
        r@.len() == 16,
{
    md5::compute(s.as_bytes()).0.to_vec()
}

/// The ASCII code of the lower-case hex digit for `n` in `[0, 15]`:
/// `'0'..'9'` for values below ten, `'a'..'f'` above.
pub open spec fn hex_code(n: int) -> u8 {
    if n < 10 {
        (48 + n) as u8
    } else {
        (87 + n) as u8
    }
}

/// The lower-case hex digit character for `n` in `[0, 15]`.
pub open spec fn hex_char(n: int) -> char {
    hex_code(n) as char
}

/// One byte written in lower-case hex without a leading zero: one character
/// below 16, two characters from 16 up.
pub open spec fn hex_byte(b: u8) -> Seq<char> {
    if b < 16 {
        seq![hex_char(b as int)]
    } else {
        seq![hex_char(b as int / 16), hex_char(b as int % 16)]
    }
}

/// A byte string written in lower-case hex, each byte without a leading
/// zero, in order.
pub open spec fn hex_nopad(bytes: Seq<u8>) -> Seq<char>
    decreases bytes.len(),
{
    if bytes.len() == 0 {
        Seq::empty()
    } else {
        hex_byte(bytes[0]) + hex_nopad(bytes.drop_first())
    }
}

/// The characters spelled by a sequence of ASCII codes.
pub open spec fn chars_of_codes(codes: Seq<u8>) -> Seq<char> {
    codes.map_values(|b: u8| b as char)
}

/// Relies on String::from_utf8: bytes below 0x80 decode to the characters
/// with the same code points, one character per byte.
#[verifier::external_body]
fn ascii_string(bytes: Vec<u8>) -> (r: String)
    requires
        forall|i: int| 0 <= i < bytes@.len() ==> bytes@[i] < 128,
    ensures
        r@ == chars_of_codes(bytes@),
{
    String::from_utf8(bytes).unwrap_or_default()
}

/// Extending the rendered prefix by one byte appends that byte's digits.
proof fn lemma_hex_nopad_step(bytes: Seq<u8>, i: int)
    requires
        0 <= i < bytes.len(),
    ensures
        hex_nopad(bytes.take(i + 1)) == hex_nopad(bytes.take(i)) + hex_byte(bytes[i]),
    decreases i,
{
    let pre = bytes.take(i + 1);
    if i == 0 {
        assert(pre =~= seq![bytes[0]]);
        assert(pre.drop_first() =~= Seq::<u8>::empty());
        assert(hex_nopad(Seq::<u8>::empty()) =~= Seq::<char>::empty());
        assert(bytes.take(0) =~= Seq::<u8>::empty());
        assert(hex_nopad(pre) == hex_byte(pre[0]) + hex_nopad(pre.drop_first()));
        assert(hex_nopad(pre) =~= hex_nopad(bytes.take(0)) + hex_byte(bytes[0]));
    } else {
        let tail = bytes.drop_first();
        assert(pre[0] == bytes[0]);
        assert(pre.drop_first() =~= tail.take(i));
        assert(bytes.take(i)[0] == bytes[0]);
        assert(bytes.take(i).drop_first() =~= tail.take(i - 1));
        lemma_hex_nopad_step(tail, i - 1);
        assert(tail[i - 1] == bytes[i]);
        assert(hex_nopad(pre) == hex_byte(bytes[0]) + (hex_nopad(tail.take(i - 1)) + hex_byte(
            bytes[i],
        )));
        assert(hex_byte(bytes[0]) + (hex_nopad(tail.take(i - 1)) + hex_byte(bytes[i])) =~= (hex_byte(
            bytes[0],
        ) + hex_nopad(tail.take(i - 1))) + hex_byte(bytes[i]));
    }
}

/// The ASCII code of the lower-case hex digit for `n` in `[0, 15]`.
fn hex_digit_code(n: u8) -> (r: u8)
    requires
        n < 16,
    ensures
        r == hex_code(n as int),
        r < 128,
{
    if n < 10 {
        48 + n
    } else {
        87 + n
    }
}

/// Renders a byte string in lower-case hex, each byte without a leading
/// zero, as the original credential hasher spelled digests.
pub fn bytes_to_hex_nopad(bytes: &Vec<u8>) -> (r: String)
    ensures
        r@ == hex_nopad(bytes@),
{
    let mut codes: Vec<u8> = Vec::new();
    let n = bytes.len();
    proof {
        assert(bytes@.take(0) =~= Seq::empty());
        assert(chars_of_codes(codes@) =~= Seq::empty());
    }
    for i in 0..n
        invariant
            n == bytes@.len(),
            forall|k: int| 0 <= k < codes@.len() ==> codes@[k] < 128,
            chars_of_codes(codes@) == hex_nopad(bytes@.take(i as int)),
    {
        let ghost before = codes@;
        let b = bytes[i];
        if b < 16 {
            codes.push(hex_digit_code(b));
            proof {
                assert(chars_of_codes(codes@) =~= chars_of_codes(before) + seq![hex_char(
                    b as int,
                )]);
                assert(hex_byte(b) =~= seq![hex_char(b as int)]);
            }
        } else {
            codes.push(hex_digit_code(b / 16));
            codes.push(hex_digit_code(b % 16));
            proof {
                assert(chars_of_codes(codes@) =~= chars_of_codes(before) + seq![
                    hex_char(b as int / 16),
                    hex_char(b as int % 16),
                ]);
                assert(hex_byte(b) =~= seq![hex_char(b as int / 16), hex_char(b as int % 16)]);
            }
        }
        proof {
            lemma_hex_nopad_step(bytes@, i as int);
        }
    }
    proof {
        assert(bytes@.take(n as int) =~= bytes@);
    }
    ascii_string(codes)
}

} // verus!
