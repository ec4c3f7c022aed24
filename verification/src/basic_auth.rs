//! The basic authentication header value, verified end to end.
//!
//! The pipeline attaches `Basic <base64 of "user:password">` to every
//! outgoing request. This module builds that value, parses it back, and
//! proves that the parse recovers exactly the credential pair that was
//! encoded, whenever the user id itself is free of the `:` separator.

use crate::base64::b64_decode;
use crate::base64::b64_decode_seq;
use crate::base64::b64_encode;
use crate::base64::b64_encode_seq;
use crate::base64::lemma_b64_round_trip;
use vstd::prelude::*;
use vstd::string::StringSliceAdditionalSpecFns;
use vstd::string::StrSliceExecFns;

verus! {

/// The separator between user id and password: `:`.
pub open spec fn colon_byte() -> u8 {
    58u8
}

/// The scheme prefix of the header value: the bytes of `"Basic "`.
pub open spec fn spec_basic_prefix() -> Seq<u8> {
    seq![66u8, 97u8, 115u8, 105u8, 99u8, 32u8]
}

/// The credential pair joined by the `:` separator.
pub open spec fn spec_credential_bytes(user: Seq<u8>, pass: Seq<u8>) -> Seq<u8> {
    user + seq![colon_byte()] + pass
}

/// The complete basic authentication header value for a credential pair.
pub open spec fn spec_basic_auth_value(user: Seq<u8>, pass: Seq<u8>) -> Seq<u8> {
    spec_basic_prefix() + b64_encode_seq(spec_credential_bytes(user, pass))
}

/// Splits decoded credentials at the first `:`; `None` when no separator is
/// present.
pub open spec fn spec_split_credentials(d: Seq<u8>) -> Option<(Seq<u8>, Seq<u8>)>
    decreases d.len(),
{
    if d.len() == 0 {
        None
    } else if d[0] == colon_byte() {
        Some((Seq::empty(), d.skip(1)))
    } else {
        match spec_split_credentials(d.skip(1)) {
            Some(pair) => Some((seq![d[0]] + pair.0, pair.1)),
            None => None,
        }
    }
}

/// Parses a basic authentication header value back into the credential
/// pair: strips the scheme prefix, decodes the base64 payload, and splits
/// at the first `:`.
pub open spec fn spec_parse_basic_auth(v: Seq<u8>) -> Option<(Seq<u8>, Seq<u8>)> {
    if v.len() >= 6 && v.take(6) == spec_basic_prefix() {
        match b64_decode_seq(v.skip(6)) {
            Some(d) => spec_split_credentials(d),
            None => None,
        }
    } else {
        None
    }
}

/// Builds the basic authentication header value for a user id and password.
pub fn basic_auth_value(user: &str, password: &str) -> (r: Vec<u8>)
    ensures
        r@ == spec_basic_auth_value(user.spec_bytes(), password.spec_bytes()),
{
    let mut credentials = user.as_bytes_vec();
    credentials.push(58);
    let mut password_bytes = password.as_bytes_vec();
    let ghost password_view = password_bytes@;
    credentials.append(&mut password_bytes);
    proof {
        assert(credentials@ =~= spec_credential_bytes(user.spec_bytes(), password.spec_bytes()));
    }
    let encoded = b64_encode(credentials.as_slice());
    let mut out: Vec<u8> = Vec::new();
    out.push(66);
    out.push(97);
    out.push(115);
    out.push(105);
    out.push(99);
    out.push(32);
    let mut encoded = encoded;
    let ghost encoded_view = encoded@;
    out.append(&mut encoded);
    proof {
        assert(out@ =~= spec_basic_prefix() + encoded_view);
    }
    out
}

/// Parses a basic authentication header value; `None` when the prefix,
/// the base64 payload, or the separator is missing.
pub fn parse_basic_auth(value: &[u8]) -> (r: Option<(Vec<u8>, Vec<u8>)>)
    ensures
        r is Some <==> spec_parse_basic_auth(value@) is Some,
        r matches Some(pair) ==> spec_parse_basic_auth(value@) == Some((pair.0@, pair.1@)),
{
    if value.len() < 6 {
        return None;
    }
    if !(value[0] == 66 && value[1] == 97 && value[2] == 115 && value[3] == 105 && value[4] == 99
        && value[5] == 32) {
        proof {
            assert(value@.take(6) != spec_basic_prefix());
        }
        return None;
    }
    proof {
        assert(value@.take(6) =~= spec_basic_prefix());
    }
    let mut payload: Vec<u8> = Vec::new();
    let mut i: usize = 6;
    while i < value.len()
        invariant
            6 <= i <= value.len(),
            payload@ =~= value@.subrange(6, i as int),
        decreases value.len() - i,
    {
        payload.push(value[i]);
        i = i + 1;
    }
    proof {
        assert(payload@ =~= value@.skip(6));
    }
    let decoded = match b64_decode(payload.as_slice()) {
        Some(d) => d,
        None => {
            return None;
        },
    };
    let mut j: usize = 0;
    while j < decoded.len()
        invariant
            j <= decoded.len(),
            value@.len() >= 6,
            value@.take(6) == spec_basic_prefix(),
            b64_decode_seq(value@.skip(6)) == Some(decoded@),
            forall|k: int| 0 <= k < j ==> decoded@[k] != colon_byte(),
        decreases decoded.len() - j,
    {
        if decoded[j] == 58 {
            let mut user: Vec<u8> = Vec::new();
            let mut k: usize = 0;
            while k < j
                invariant
                    k <= j < decoded.len(),
                    user@ =~= decoded@.subrange(0, k as int),
                decreases j - k,
            {
                user.push(decoded[k]);
                k = k + 1;
            }
            let mut pass: Vec<u8> = Vec::new();
            let mut m: usize = j + 1;
            while m < decoded.len()
                invariant
                    j < decoded.len(),
                    j + 1 <= m <= decoded.len(),
                    pass@ =~= decoded@.subrange(j as int + 1, m as int),
                decreases decoded.len() - m,
            {
                pass.push(decoded[m]);
                m = m + 1;
            }
            proof {
                lemma_split_at_first_colon(decoded@, j as int);
                assert(user@ =~= decoded@.take(j as int));
                assert(pass@ =~= decoded@.skip(j as int + 1));
            }
            return Some((user, pass));
        }
        j = j + 1;
    }
    proof {
        lemma_split_no_colon(decoded@);
    }
    None
}

/// When a sequence has no `:` at all, the split fails.
proof fn lemma_split_no_colon(d: Seq<u8>)
    requires
        forall|k: int| 0 <= k < d.len() ==> d[k] != colon_byte(),
    ensures
        spec_split_credentials(d) is None,
    decreases d.len(),
{
    if d.len() > 0 {
        lemma_split_no_colon(d.skip(1));
    }
}

/// Splitting at the first `:` yields the bytes before it and the bytes
/// after it.
proof fn lemma_split_at_first_colon(d: Seq<u8>, j: int)
    requires
        0 <= j < d.len(),
        d[j] == colon_byte(),
        forall|k: int| 0 <= k < j ==> d[k] != colon_byte(),
    ensures
        spec_split_credentials(d) == Some((d.take(j), d.skip(j + 1))),
    decreases j,
{
    if j == 0 {
        assert(d.take(0) =~= Seq::<u8>::empty());
    } else {
        let tail = d.skip(1);
        assert forall|k: int| 0 <= k < j - 1 implies tail[k] != colon_byte() by {
            assert(tail[k] == d[k + 1]);
        }
        lemma_split_at_first_colon(tail, j - 1);
        assert(tail.take(j - 1) =~= d.take(j).skip(1));
        assert(seq![d[0]] + tail.take(j - 1) =~= d.take(j));
        assert(tail.skip(j) =~= d.skip(j + 1));
    }
}

/// A sequence of ASCII characters without `:` encodes to bytes without the
/// separator byte.
pub proof fn lemma_ascii_colon_free_bytes(chars: Seq<char>)
    requires
        vstd::utf8::is_ascii_chars(chars),
        !chars.contains(':'),
    ensures
        !vstd::utf8::encode_utf8(chars).contains(colon_byte()),
{
    let bytes = vstd::utf8::encode_utf8(chars);
    vstd::utf8::is_ascii_chars_encode_utf8(chars);
    assert forall|i: int| 0 <= i < bytes.len() implies bytes[i] != colon_byte() by {
        assert(chars[i] as u8 == bytes[i]);
        assert(chars.contains(chars[i]));
        assert(chars[i] != ':');
    }
    if bytes.contains(colon_byte()) {
        let i = choose|i: int| 0 <= i < bytes.len() && bytes[i] == colon_byte();
        assert(bytes[i] != colon_byte());
    }
}

/// The credential pair survives the round trip through the header value:
/// building the value and parsing it back recovers the user id and the
/// password exactly, for every pair whose user id is free of the `:`
/// separator. (A user id containing `:` cannot round-trip: the split takes
/// the first separator.)
pub proof fn lemma_basic_auth_round_trip(user: Seq<u8>, pass: Seq<u8>)
    requires
        !user.contains(colon_byte()),
    ensures
        spec_parse_basic_auth(spec_basic_auth_value(user, pass)) == Some((user, pass)),
{
    let credentials = spec_credential_bytes(user, pass);
    let value = spec_basic_auth_value(user, pass);
    assert(value.take(6) =~= spec_basic_prefix());
    assert(value.skip(6) =~= b64_encode_seq(credentials));
    lemma_b64_round_trip(credentials);
    assert forall|k: int| 0 <= k < user.len() implies credentials[k] != colon_byte() by {
        assert(credentials[k] == user[k]);
        assert(user.contains(user[k]));
    }
    assert(credentials[user.len() as int] == colon_byte());
    lemma_split_at_first_colon(credentials, user.len() as int);
    assert(credentials.take(user.len() as int) =~= user);
    assert(credentials.skip(user.len() as int + 1) =~= pass);
}

} // verus!
