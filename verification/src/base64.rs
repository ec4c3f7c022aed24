//! Base64 encoding and decoding of byte sequences, verified.
//!
//! This is the standard alphabet with `=` padding, as used by the basic
//! authentication header. Encoding and decoding are specified as spec
//! functions, the executable functions are proved to match them, and a
//! round-trip lemma shows that decoding undoes encoding on every input.

use vstd::prelude::*;

verus! {

/// The padding byte `=`.
pub open spec fn pad_byte() -> u8 {
    61u8
}

/// The alphabet: maps a 6-bit value to its base64 digit.
pub open spec fn b64_char_of(n: u8) -> u8
    recommends
        n < 64,
{
    if n < 26 {
        (65 + n) as u8  // 'A' to 'Z'
    } else if n < 52 {
        (97 + (n - 26)) as u8  // 'a' to 'z'
    } else if n < 62 {
        (48 + (n - 52)) as u8  // '0' to '9'
    } else if n == 62 {
        43u8  // '+'
    } else {
        47u8  // '/'
    }
}

/// The inverse alphabet: maps a byte to the 6-bit value whose digit it is,
/// or `None` when the byte is not a base64 digit (padding included).
pub open spec fn b64_index_of(c: u8) -> Option<u8> {
    if 65 <= c && c <= 90 {
        Some((c - 65) as u8)
    } else if 97 <= c && c <= 122 {
        Some((c - 97 + 26) as u8)
    } else if 48 <= c && c <= 57 {
        Some((c - 48 + 52) as u8)
    } else if c == 43 {
        Some(62u8)
    } else if c == 47 {
        Some(63u8)
    } else {
        None
    }
}

/// A full group: three bytes become four digits.
pub open spec fn encode_group(a: u8, b: u8, c: u8) -> Seq<u8> {
    seq![
        b64_char_of(a >> 2),
        b64_char_of(((a & 3) << 4) | (b >> 4)),
        b64_char_of(((b & 15) << 2) | (c >> 6)),
        b64_char_of(c & 63),
    ]
}

/// A two-byte tail: three digits and one padding byte.
pub open spec fn encode_tail2(a: u8, b: u8) -> Seq<u8> {
    seq![
        b64_char_of(a >> 2),
        b64_char_of(((a & 3) << 4) | (b >> 4)),
        b64_char_of((b & 15) << 2),
        pad_byte(),
    ]
}

/// A one-byte tail: two digits and two padding bytes.
pub open spec fn encode_tail1(a: u8) -> Seq<u8> {
    seq![b64_char_of(a >> 2), b64_char_of((a & 3) << 4), pad_byte(), pad_byte()]
}

/// Base64 encoding of a byte sequence.
pub open spec fn b64_encode_seq(s: Seq<u8>) -> Seq<u8>
    decreases s.len(),
{
    if s.len() >= 3 {
        encode_group(s[0], s[1], s[2]) + b64_encode_seq(s.skip(3))
    } else if s.len() == 2 {
        encode_tail2(s[0], s[1])
    } else if s.len() == 1 {
        encode_tail1(s[0])
    } else {
        Seq::empty()
    }
}

/// Decodes one unpadded group of four digits into three bytes.
pub open spec fn decode_group(c0: u8, c1: u8, c2: u8, c3: u8) -> Option<Seq<u8>> {
    match (b64_index_of(c0), b64_index_of(c1), b64_index_of(c2), b64_index_of(c3)) {
        (Some(d0), Some(d1), Some(d2), Some(d3)) => Some(
            seq![
                ((d0 << 2) | (d1 >> 4)) as u8,
                (((d1 & 15) << 4) | (d2 >> 2)) as u8,
                (((d2 & 3) << 6) | d3) as u8,
            ],
        ),
        _ => None,
    }
}

/// Decodes the final group of four bytes, which may carry padding.
pub open spec fn decode_last_group(c0: u8, c1: u8, c2: u8, c3: u8) -> Option<Seq<u8>> {
    if c2 == pad_byte() && c3 == pad_byte() {
        match (b64_index_of(c0), b64_index_of(c1)) {
            (Some(d0), Some(d1)) => Some(seq![((d0 << 2) | (d1 >> 4)) as u8]),
            _ => None,
        }
    } else if c3 == pad_byte() {
        match (b64_index_of(c0), b64_index_of(c1), b64_index_of(c2)) {
            (Some(d0), Some(d1), Some(d2)) => Some(
                seq![((d0 << 2) | (d1 >> 4)) as u8, (((d1 & 15) << 4) | (d2 >> 2)) as u8],
            ),
            _ => None,
        }
    } else {
        decode_group(c0, c1, c2, c3)
    }
}

/// Base64 decoding of a byte sequence. The empty sequence decodes to the
/// empty sequence; otherwise the length must be a positive multiple of
/// four, every non-final group must be four digits, and the final group may
/// carry padding.
pub open spec fn b64_decode_seq(s: Seq<u8>) -> Option<Seq<u8>>
    decreases s.len(),
{
    if s.len() == 0 {
        Some(Seq::empty())
    } else if s.len() < 4 {
        None
    } else if s.len() == 4 {
        decode_last_group(s[0], s[1], s[2], s[3])
    } else {
        match (decode_group(s[0], s[1], s[2], s[3]), b64_decode_seq(s.skip(4))) {
            (Some(head), Some(tail)) => Some(head + tail),
            _ => None,
        }
    }
}

/// The alphabet is invertible on 6-bit values, and never produces the
/// padding byte.
pub proof fn lemma_b64_char_invertible(n: u8)
    requires
        n < 64,
    ensures
        b64_index_of(b64_char_of(n)) == Some(n),
        b64_char_of(n) != pad_byte(),
{
}

/// Bit arithmetic of a full group: the four 6-bit digits are in range and
/// reassemble into the original three bytes.
proof fn lemma_group_bits(a: u8, b: u8, c: u8)
    ensures
        a >> 2 < 64,
        ((a & 3) << 4) | (b >> 4) < 64,
        ((b & 15) << 2) | (c >> 6) < 64,
        c & 63 < 64,
        ((a >> 2) << 2) | ((((a & 3) << 4) | (b >> 4)) >> 4) == a,
        (((((a & 3) << 4) | (b >> 4)) & 15) << 4) | ((((b & 15) << 2) | (c >> 6)) >> 2) == b,
        (((((b & 15) << 2) | (c >> 6)) & 3) << 6) | (c & 63) == c,
{
    assert((a >> 2 < 64) && (((a & 3) << 4) | (b >> 4) < 64) && (((b & 15) << 2) | (c >> 6) < 64)
        && (c & 63 < 64) && (((a >> 2) << 2) | ((((a & 3) << 4) | (b >> 4)) >> 4) == a) && ((((((a
        & 3) << 4) | (b >> 4)) & 15) << 4) | ((((b & 15) << 2) | (c >> 6)) >> 2) == b) && ((((((b
        & 15) << 2) | (c >> 6)) & 3) << 6) | (c & 63) == c)) by (bit_vector);
}

/// Bit arithmetic of the tails: the digits are in range and reassemble into
/// the original bytes.
proof fn lemma_tail_bits(a: u8, b: u8)
    ensures
        a >> 2 < 64,
        (a & 3) << 4 < 64,
        ((a & 3) << 4) | (b >> 4) < 64,
        (b & 15) << 2 < 64,
        ((a >> 2) << 2) | (((a & 3) << 4) >> 4) == a,
        ((a >> 2) << 2) | ((((a & 3) << 4) | (b >> 4)) >> 4) == a,
        (((((a & 3) << 4) | (b >> 4)) & 15) << 4) | (((b & 15) << 2) >> 2) == b,
{
    assert((a >> 2 < 64) && ((a & 3) << 4 < 64) && (((a & 3) << 4) | (b >> 4) < 64) && ((b & 15)
        << 2 < 64) && (((a >> 2) << 2) | (((a & 3) << 4) >> 4) == a) && (((a >> 2) << 2) | ((((a
        & 3) << 4) | (b >> 4)) >> 4) == a) && ((((((a & 3) << 4) | (b >> 4)) & 15) << 4) | (((b
        & 15) << 2) >> 2) == b)) by (bit_vector);
}

/// The length of an encoding: four digits for every started group of three
/// bytes.
proof fn lemma_encode_len(s: Seq<u8>)
    ensures
        b64_encode_seq(s).len() == 4 * ((s.len() + 2) / 3),
    decreases s.len(),
{
    if s.len() >= 3 {
        lemma_encode_len(s.skip(3));
    }
}

/// Decoding undoes encoding: every byte sequence comes back exactly.
pub proof fn lemma_b64_round_trip(s: Seq<u8>)
    ensures
        b64_decode_seq(b64_encode_seq(s)) == Some(s),
    decreases s.len(),
{
    if s.len() == 0 {
        assert(s =~= Seq::<u8>::empty());
    } else if s.len() == 1 {
        let a = s[0];
        lemma_tail_bits(a, 0);
        lemma_b64_char_invertible(a >> 2);
        lemma_b64_char_invertible((a & 3) << 4);
        assert(b64_decode_seq(encode_tail1(a)) == Some(seq![a]));
        assert(seq![a] =~= s);
    } else if s.len() == 2 {
        let a = s[0];
        let b = s[1];
        lemma_tail_bits(a, b);
        lemma_b64_char_invertible(a >> 2);
        lemma_b64_char_invertible(((a & 3) << 4) | (b >> 4));
        lemma_b64_char_invertible((b & 15) << 2);
        assert(b64_decode_seq(encode_tail2(a, b)) == Some(seq![a, b]));
        assert(seq![a, b] =~= s);
    } else {
        let a = s[0];
        let b = s[1];
        let c = s[2];
        let rest = s.skip(3);
        let group = encode_group(a, b, c);
        lemma_group_bits(a, b, c);
        lemma_b64_char_invertible(a >> 2);
        lemma_b64_char_invertible(((a & 3) << 4) | (b >> 4));
        lemma_b64_char_invertible(((b & 15) << 2) | (c >> 6));
        lemma_b64_char_invertible(c & 63);
        assert(decode_group(group[0], group[1], group[2], group[3]) == Some(seq![a, b, c]));
        lemma_b64_round_trip(rest);
        lemma_encode_len(rest);
        let encoded = b64_encode_seq(s);
        assert(encoded == group + b64_encode_seq(rest));
        if rest.len() == 0 {
            assert(encoded.len() == 4);
            assert(encoded[0] == group[0] && encoded[1] == group[1] && encoded[2] == group[2]
                && encoded[3] == group[3]);
            assert(group[3] != pad_byte());
            assert(group[2] != pad_byte());
            assert(b64_decode_seq(encoded) == decode_last_group(
                group[0],
                group[1],
                group[2],
                group[3],
            ));
            assert(seq![a, b, c] + rest =~= s);
            assert(seq![a, b, c] =~= s);
        } else {
            assert(b64_encode_seq(rest).len() >= 4);
            assert(encoded.len() > 4);
            assert(encoded[0] == group[0] && encoded[1] == group[1] && encoded[2] == group[2]
                && encoded[3] == group[3]);
            assert(encoded.skip(4) =~= b64_encode_seq(rest));
            assert(b64_decode_seq(encoded) == Some(seq![a, b, c] + rest));
            assert(seq![a, b, c] + rest =~= s);
        }
    }
}

/// A length that is not a multiple of four never decodes.
proof fn lemma_decode_len_not_multiple(s: Seq<u8>)
    requires
        s.len() % 4 != 0,
    ensures
        b64_decode_seq(s) is None,
    decreases s.len(),
{
    if s.len() > 4 {
        lemma_decode_len_not_multiple(s.skip(4));
    }
}

/// Executable alphabet lookup.
fn char_of(n: u8) -> (r: u8)
    requires
        n < 64,
    ensures
        r == b64_char_of(n),
{
    if n < 26 {
        65 + n
    } else if n < 52 {
        97 + (n - 26)
    } else if n < 62 {
        48 + (n - 52)
    } else if n == 62 {
        43
    } else {
        47
    }
}

/// Executable inverse alphabet lookup.
fn index_of(c: u8) -> (r: Option<u8>)
    ensures
        r == b64_index_of(c),
{
    if 65 <= c && c <= 90 {
        Some(c - 65)
    } else if 97 <= c && c <= 122 {
        Some(c - 97 + 26)
    } else if 48 <= c && c <= 57 {
        Some(c - 48 + 52)
    } else if c == 43 {
        Some(62)
    } else if c == 47 {
        Some(63)
    } else {
        None
    }
}

/// Base64-encodes a byte slice.
pub fn b64_encode(input: &[u8]) -> (r: Vec<u8>)
    ensures
        r@ == b64_encode_seq(input@),
{
    let mut out: Vec<u8> = Vec::new();
    let mut i: usize = 0;
    proof {
        assert(input@.skip(0) =~= input@);
        assert(Seq::<u8>::empty() + b64_encode_seq(input@) =~= b64_encode_seq(input@));
    }
    while input.len() - i >= 3
        invariant
            i <= input.len(),
            b64_encode_seq(input@) == out@ + b64_encode_seq(input@.skip(i as int)),
        decreases input.len() - i,
    {
        let a = input[i];
        let b = input[i + 1];
        let c = input[i + 2];
        let ghost prev = out@;
        proof {
            lemma_group_bits(a, b, c);
            let s_i = input@.skip(i as int);
            assert(s_i[0] == a && s_i[1] == b && s_i[2] == c);
            assert(s_i.skip(3) =~= input@.skip(i as int + 3));
            assert(b64_encode_seq(s_i) == encode_group(a, b, c) + b64_encode_seq(
                input@.skip(i as int + 3),
            ));
        }
        out.push(char_of(a >> 2));
        out.push(char_of(((a & 3) << 4) | (b >> 4)));
        out.push(char_of(((b & 15) << 2) | (c >> 6)));
        out.push(char_of(c & 63));
        i = i + 3;
        proof {
            assert(out@ =~= prev + encode_group(a, b, c));
            assert(out@ + b64_encode_seq(input@.skip(i as int)) =~= (prev + encode_group(a, b, c))
                + b64_encode_seq(input@.skip(i as int)));
            assert(b64_encode_seq(input@) =~= out@ + b64_encode_seq(input@.skip(i as int)));
        }
    }
    let ghost prev = out@;
    if input.len() - i == 1 {
        let a = input[i];
        proof {
            lemma_tail_bits(a, 0);
            let s_i = input@.skip(i as int);
            assert(s_i.len() == 1 && s_i[0] == a);
            assert(b64_encode_seq(s_i) == encode_tail1(a));
        }
        out.push(char_of(a >> 2));
        out.push(char_of((a & 3) << 4));
        out.push(61);
        out.push(61);
        proof {
            assert(out@ =~= prev + encode_tail1(a));
        }
    } else if input.len() - i == 2 {
        let a = input[i];
        let b = input[i + 1];
        proof {
            lemma_tail_bits(a, b);
            let s_i = input@.skip(i as int);
            assert(s_i.len() == 2 && s_i[0] == a && s_i[1] == b);
            assert(b64_encode_seq(s_i) == encode_tail2(a, b));
        }
        out.push(char_of(a >> 2));
        out.push(char_of(((a & 3) << 4) | (b >> 4)));
        out.push(char_of((b & 15) << 2));
        out.push(61);
        proof {
            assert(out@ =~= prev + encode_tail2(a, b));
        }
    } else {
        proof {
            assert(input@.skip(i as int).len() == 0);
            assert(b64_encode_seq(input@.skip(i as int)) =~= Seq::<u8>::empty());
        }
    }
    proof {
        assert(out@ =~= b64_encode_seq(input@));
    }
    out
}

/// Decodes one unpadded group of four digits.
fn decode_group_exec(c0: u8, c1: u8, c2: u8, c3: u8) -> (r: Option<(u8, u8, u8)>)
    ensures
        r matches Some(t) ==> decode_group(c0, c1, c2, c3) == Some(seq![t.0, t.1, t.2]),
        r is None ==> decode_group(c0, c1, c2, c3) is None,
{
    match (index_of(c0), index_of(c1), index_of(c2), index_of(c3)) {
        (Some(d0), Some(d1), Some(d2), Some(d3)) => Some(
            ((d0 << 2) | (d1 >> 4), ((d1 & 15) << 4) | (d2 >> 2), ((d2 & 3) << 6) | d3),
        ),
        _ => None,
    }
}

/// Decodes the final, possibly padded, group of four bytes.
fn decode_last_group_exec(c0: u8, c1: u8, c2: u8, c3: u8) -> (r: Option<Vec<u8>>)
    ensures
        r matches Some(v) ==> decode_last_group(c0, c1, c2, c3) == Some(v@),
        r is None ==> decode_last_group(c0, c1, c2, c3) is None,
{
    let mut out: Vec<u8> = Vec::new();
    if c2 == 61 && c3 == 61 {
        match (index_of(c0), index_of(c1)) {
            (Some(d0), Some(d1)) => {
                out.push((d0 << 2) | (d1 >> 4));
                proof {
                    assert(out@ =~= seq![(((d0 << 2) | (d1 >> 4))) as u8]);
                }
                Some(out)
            },
            _ => None,
        }
    } else if c3 == 61 {
        match (index_of(c0), index_of(c1), index_of(c2)) {
            (Some(d0), Some(d1), Some(d2)) => {
                out.push((d0 << 2) | (d1 >> 4));
                out.push(((d1 & 15) << 4) | (d2 >> 2));
                proof {
                    assert(out@ =~= seq![
                        (((d0 << 2) | (d1 >> 4))) as u8,
                        ((((d1 & 15) << 4) | (d2 >> 2))) as u8,
                    ]);
                }
                Some(out)
            },
            _ => None,
        }
    } else {
        match decode_group_exec(c0, c1, c2, c3) {
            Some(t) => {
                out.push(t.0);
                out.push(t.1);
                out.push(t.2);
                proof {
                    assert(out@ =~= seq![t.0, t.1, t.2]);
                }
                Some(out)
            },
            None => None,
        }
    }
}

/// Base64-decodes a byte slice; `None` when the input is not a well-formed
/// encoding.
pub fn b64_decode(input: &[u8]) -> (r: Option<Vec<u8>>)
    ensures
        r is Some <==> b64_decode_seq(input@) is Some,
        r matches Some(v) ==> b64_decode_seq(input@) == Some(v@),
{
    let n = input.len();
    if n == 0 {
        let empty: Vec<u8> = Vec::new();
        proof {
            assert(empty@ =~= Seq::<u8>::empty());
        }
        return Some(empty);
    }
    if n % 4 != 0 {
        proof {
            lemma_decode_len_not_multiple(input@);
        }
        return None;
    }
    let mut out: Vec<u8> = Vec::new();
    let mut i: usize = 0;
    proof {
        assert(input@.skip(0) =~= input@);
        if b64_decode_seq(input@) is Some {
            let rest = b64_decode_seq(input@)->0;
            assert(Seq::<u8>::empty() + rest =~= rest);
        }
    }
    while n - i > 4
        invariant
            n == input.len(),
            n % 4 == 0,
            i % 4 == 0,
            i + 4 <= n,
            b64_decode_seq(input@) is Some <==> b64_decode_seq(input@.skip(i as int)) is Some,
            b64_decode_seq(input@.skip(i as int)) matches Some(rest) ==> b64_decode_seq(input@)
                == Some(out@ + rest),
        decreases n - i,
    {
        let ghost prev = out@;
        let ghost s_i = input@.skip(i as int);
        proof {
            assert(s_i.len() > 4);
            assert(s_i[0] == input@[i as int] && s_i[1] == input@[i as int + 1] && s_i[2]
                == input@[i as int + 2] && s_i[3] == input@[i as int + 3]);
            assert(s_i.skip(4) =~= input@.skip(i as int + 4));
        }
        match decode_group_exec(input[i], input[i + 1], input[i + 2], input[i + 3]) {
            Some(t) => {
                out.push(t.0);
                out.push(t.1);
                out.push(t.2);
                i = i + 4;
                proof {
                    let head = seq![t.0, t.1, t.2];
                    assert(out@ =~= prev + head);
                    if b64_decode_seq(input@.skip(i as int)) is Some {
                        let rest = b64_decode_seq(input@.skip(i as int))->0;
                        assert(b64_decode_seq(s_i) == Some(head + rest));
                        assert(prev + (head + rest) =~= out@ + rest);
                    }
                }
            },
            None => {
                proof {
                    assert(b64_decode_seq(s_i) is None);
                }
                return None;
            },
        }
    }
    let ghost s_i = input@.skip(i as int);
    proof {
        assert(s_i.len() == 4);
        assert(s_i[0] == input@[i as int] && s_i[1] == input@[i as int + 1] && s_i[2] == input@[
            i as int + 2
        ] && s_i[3] == input@[i as int + 3]);
        assert(b64_decode_seq(s_i) == decode_last_group(s_i[0], s_i[1], s_i[2], s_i[3]));
    }
    match decode_last_group_exec(input[i], input[i + 1], input[i + 2], input[i + 3]) {
        Some(mut tail) => {
            let ghost prev = out@;
            let ghost tail_view = tail@;
            out.append(&mut tail);
            proof {
                assert(out@ =~= prev + tail_view);
            }
            Some(out)
        },
        None => None,
    }
}

} // verus!
