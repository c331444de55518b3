//! Lower-case hexadecimal transport encoding for session tokens: the cookie
//! carries the token bytes as text. Encoding and decoding are verified
//! inverses: decoding succeeds exactly on the encodings, and two different
//! byte sequences never share one.

use vstd::prelude::*;

verus! {

/// The lower-case hexadecimal digit for a value below 16.
pub open spec fn hex_digit(n: int) -> char
    recommends
        0 <= n < 16,
{
    if n == 0 {
        '0'
    } else if n == 1 {
        '1'
    } else if n == 2 {
        '2'
    } else if n == 3 {
        '3'
    } else if n == 4 {
        '4'
    } else if n == 5 {
        '5'
    } else if n == 6 {
        '6'
    } else if n == 7 {
        '7'
    } else if n == 8 {
        '8'
    } else if n == 9 {
        '9'
    } else if n == 10 {
        'a'
    } else if n == 11 {
        'b'
    } else if n == 12 {
        'c'
    } else if n == 13 {
        'd'
    } else if n == 14 {
        'e'
    } else {
        'f'
    }
}

/// The value of a lower-case hexadecimal digit; 16 for any other character.
pub open spec fn hex_val(c: char) -> int {
    if c == '0' {
        0
    } else if c == '1' {
        1
    } else if c == '2' {
        2
    } else if c == '3' {
        3
    } else if c == '4' {
        4
    } else if c == '5' {
        5
    } else if c == '6' {
        6
    } else if c == '7' {
        7
    } else if c == '8' {
        8
    } else if c == '9' {
        9
    } else if c == 'a' {
        10
    } else if c == 'b' {
        11
    } else if c == 'c' {
        12
    } else if c == 'd' {
        13
    } else if c == 'e' {
        14
    } else if c == 'f' {
        15
    } else {
        16
    }
}

/// The lower-case hexadecimal encoding of a byte sequence: two digits per
/// byte, high nibble first.
pub open spec fn hex_of(bytes: Seq<u8>) -> Seq<char> {
    Seq::new(
        2 * bytes.len(),
        |i: int|
            if i % 2 == 0 {
                hex_digit(bytes[i / 2] as int / 16)
            } else {
                hex_digit(bytes[i / 2] as int % 16)
            },
    )
}

/// Digit and value invert each other below 16.
pub proof fn lemma_digit_val(n: int)
    requires
        0 <= n < 16,
    ensures
        hex_val(hex_digit(n)) == n,
{
}

/// A character of value below 16 is the digit of that value.
pub proof fn lemma_val_digit(c: char)
    requires
        hex_val(c) < 16,
    ensures
        hex_digit(hex_val(c)) == c,
{
}

/// Two byte sequences with the same hexadecimal encoding are the same: a
/// decoded cookie value determines the token bytes that were encoded.
pub proof fn lemma_hex_injective(b1: Seq<u8>, b2: Seq<u8>)
    requires
        hex_of(b1) == hex_of(b2),
    ensures
        b1 == b2,
{
    assert(hex_of(b1).len() == 2 * b1.len());
    assert(hex_of(b2).len() == 2 * b2.len());
    assert(b1.len() == b2.len());
    assert forall|j: int| 0 <= j < b1.len() implies b1[j] == b2[j] by {
        assert(hex_of(b1)[2 * j] == hex_of(b2)[2 * j]);
        assert(hex_of(b1)[2 * j] == hex_digit(b1[j] as int / 16));
        assert(hex_of(b2)[2 * j] == hex_digit(b2[j] as int / 16));
        assert(hex_of(b1)[2 * j + 1] == hex_of(b2)[2 * j + 1]);
        assert(hex_of(b1)[2 * j + 1] == hex_digit(b1[j] as int % 16));
        assert(hex_of(b2)[2 * j + 1] == hex_digit(b2[j] as int % 16));
        lemma_digit_val(b1[j] as int / 16);
        lemma_digit_val(b2[j] as int / 16);
        lemma_digit_val(b1[j] as int % 16);
        lemma_digit_val(b2[j] as int % 16);
        assert(b1[j] as int / 16 == b2[j] as int / 16);
        assert(b1[j] as int % 16 == b2[j] as int % 16);
    }
    assert(b1 =~= b2);
}

/// Relies on String::push, which vstd leaves unspecified: appends exactly the
/// one character.
#[verifier::external_body]
fn push_char(s: &mut String, c: char)
    ensures
        final (s)@ == old(s)@ + seq![c],
{
    s.push(c);
}

/// The digit character for a value below 16.
fn hex_digit_char(n: u8) -> (r: char)
    requires
        n < 16,
    ensures
        r == hex_digit(n as int),
{
    if n == 0 {
        '0'
    } else if n == 1 {
        '1'
    } else if n == 2 {
        '2'
    } else if n == 3 {
        '3'
    } else if n == 4 {
        '4'
    } else if n == 5 {
        '5'
    } else if n == 6 {
        '6'
    } else if n == 7 {
        '7'
    } else if n == 8 {
        '8'
    } else if n == 9 {
        '9'
    } else if n == 10 {
        'a'
    } else if n == 11 {
        'b'
    } else if n == 12 {
        'c'
    } else if n == 13 {
        'd'
    } else if n == 14 {
        'e'
    } else {
        'f'
    }
}

/// The value of a digit character; 16 for any other character.
fn hex_val_char(c: char) -> (r: u8)
    ensures
        r as int == hex_val(c),
{
    if c == '0' {
        0
    } else if c == '1' {
        1
    } else if c == '2' {
        2
    } else if c == '3' {
        3
    } else if c == '4' {
        4
    } else if c == '5' {
        5
    } else if c == '6' {
        6
    } else if c == '7' {
        7
    } else if c == '8' {
        8
    } else if c == '9' {
        9
    } else if c == 'a' {
        10
    } else if c == 'b' {
        11
    } else if c == 'c' {
        12
    } else if c == 'd' {
        13
    } else if c == 'e' {
        14
    } else if c == 'f' {
        15
    } else {
        16
    }
}

/// Encodes bytes as lower-case hexadecimal text.
pub fn hex_encode(bytes: &Vec<u8>) -> (r: String)
    ensures
        r@ == hex_of(bytes@),
{
    let mut out = String::new();
    let n = bytes.len();
    for i in 0..n
        invariant
            n == bytes@.len(),
            out@ =~= hex_of(bytes@.take(i as int)),
    {
        let b = bytes[i];
        push_char(&mut out, hex_digit_char(b / 16));
        push_char(&mut out, hex_digit_char(b % 16));
        proof {
            assert(out@ =~= hex_of(bytes@.take(i + 1)));
        }
    }
    proof {
        assert(bytes@.take(n as int) =~= bytes@);
    }
    out
}

/// Decodes lower-case hexadecimal text back to bytes: succeeds exactly on the
/// encodings (even length, digits only), and then on the bytes it encodes.
pub fn hex_decode(text: &str) -> (r: Option<Vec<u8>>)
    ensures
        r matches Some(b) ==> hex_of(b@) == text@,
        (exists|b: Seq<u8>| hex_of(b) == text@) ==> r is Some,
{
    let len = text.unicode_len();
    if len % 2 != 0 {
        proof {
            assert forall|b: Seq<u8>| #[trigger] hex_of(b) != text@ by {
                assert(hex_of(b).len() == 2 * b.len());
            }
        }
        return None;
    }
    let mut out: Vec<u8> = Vec::new();
    let mut i: usize = 0;
    while i < len
        invariant
            len == text@.len(),
            len % 2 == 0,
            i % 2 == 0,
            i <= len,
            out@.len() * 2 == i,
            hex_of(out@) =~= text@.take(i as int),
        decreases len - i,
    {
        let hi = hex_val_char(text.get_char(i));
        let lo = hex_val_char(text.get_char(i + 1));
        if hi >= 16 || lo >= 16 {
            proof {
                let k: int = if hi >= 16 {
                    i as int
                } else {
                    i as int + 1
                };
                assert forall|b: Seq<u8>| #[trigger] hex_of(b) != text@ by {
                    if hex_of(b) == text@ {
                        assert(hex_of(b)[k] == text@[k]);
                        if k % 2 == 0 {
                            lemma_digit_val(b[k / 2] as int / 16);
                        } else {
                            lemma_digit_val(b[k / 2] as int % 16);
                        }
                    }
                }
            }
            return None;
        }
        let b: u8 = 16 * hi + lo;
        let ghost prev = out@;
        out.push(b);
        proof {
            assert(b as int / 16 == hi as int && b as int % 16 == lo as int) by (nonlinear_arith)
                requires
                    b as int == 16 * (hi as int) + (lo as int),
                    0 <= (hi as int) && (hi as int) < 16,
                    0 <= (lo as int) && (lo as int) < 16,
            ;
            lemma_val_digit(text@[i as int]);
            lemma_val_digit(text@[i as int + 1]);
            assert forall|m: int| 0 <= m < i + 2 implies #[trigger] hex_of(out@)[m] == text@.take(
                i as int + 2,
            )[m] by {
                if m < i {
                    assert(hex_of(prev)[m] == text@.take(i as int)[m]);
                    assert(out@[m / 2] == prev[m / 2]);
                } else {
                    assert(out@[m / 2] == b);
                }
            }
            assert(hex_of(out@) =~= text@.take(i as int + 2));
        }
        i = i + 2;
    }
    proof {
        assert(text@.take(len as int) =~= text@);
    }
    Some(out)
}

/// The transport round-trip law: decoding an encoding always succeeds and
/// yields the very bytes that were encoded.
pub fn hex_round_trip(bytes: &Vec<u8>) -> (r: Option<Vec<u8>>)
    ensures
        r matches Some(b) ==> b@ == bytes@,
        r is Some,
{
    let text = hex_encode(bytes);
    proof {
        assert(hex_of(bytes@) == text@);
    }
    match hex_decode(text.as_str()) {
        Some(b) => {
            proof {
                lemma_hex_injective(b@, bytes@);
            }
            Some(b)
        },
        None => None,
    }
}

} // verus!
