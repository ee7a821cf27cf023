//! The signed envelope that carries the CSRF secret through the
//! browser: a 64-character hex HMAC-SHA256 tag followed by the value.
//! The value stays readable by the client; the tag only makes it
//! tamper-evident.

use vstd::prelude::*;

use crate::crypto::{hmac_sha256, mac_of};
use crate::encoding::{ct_eq, hex_encode, hex_of, lemma_hex_of_len};

verus! {

/// The signed envelope of `value` under `key`.
pub open spec fn sign_spec(key: Seq<u8>, value: Seq<u8>) -> Seq<u8> {
    hex_of(mac_of(key, value)) + value
}

/// What verification accepts: the envelope's first 64 bytes must be
/// the hex tag of the rest under `key`; the rest is the value.
pub open spec fn verify_spec(key: Seq<u8>, signed: Seq<u8>) -> Option<Seq<u8>> {
    let rest = signed.skip(64);
    if signed.len() >= 64 && signed.take(64) == hex_of(mac_of(key, rest)) {
        Some(rest)
    } else {
        None
    }
}

/// Signs `value` under `key`. The second clause states the round
/// trip: the envelope just produced verifies back to `value`.
pub fn sign_value(value: &[u8], key: &[u8]) -> (r: Vec<u8>)
    ensures
        r@ == sign_spec(key@, value@),
        mac_of(key@, value@).len() == 32,
        verify_spec(key@, r@) == Some(value@),
{
    let mac = hmac_sha256(key, value);
    let mut out = hex_encode(mac.as_slice());
    let mut i: usize = 0;
    while i < value.len()
        invariant
            i <= value@.len(),
            out@ == hex_of(mac_of(key@, value@)) + value@.take(i as int),
        decreases value@.len() - i,
    {
        out.push(value[i]);
        proof {
            assert(value@.take(i + 1 as int) =~= value@.take(i as int) + seq![value@[i as int]]);
            assert(hex_of(mac_of(key@, value@)) + value@.take(i + 1 as int) =~= (hex_of(
                mac_of(key@, value@),
            ) + value@.take(i as int)).push(value@[i as int]));
        }
        i = i + 1;
    }
    proof {
        assert(value@.take(value@.len() as int) =~= value@);
        lemma_hex_of_len(mac_of(key@, value@));
        assert(out@.skip(64) =~= value@);
        assert(out@.take(64) =~= hex_of(mac_of(key@, value@)));
    }
    out
}

/// Verifies a signed envelope under `key`: returns the value when the
/// tag matches, `None` otherwise. The tag comparison runs in constant
/// time.
pub fn verify_value(signed: &[u8], key: &[u8]) -> (r: Option<Vec<u8>>)
    ensures
        match r {
            Some(v) => verify_spec(key@, signed@) == Some(v@),
            None => verify_spec(key@, signed@) is None,
        },
{
    if signed.len() < 64 {
        return None;
    }
    let mut value: Vec<u8> = Vec::new();
    let mut i: usize = 64;
    while i < signed.len()
        invariant
            64 <= i <= signed@.len(),
            value@ == signed@.subrange(64, i as int),
        decreases signed@.len() - i,
    {
        value.push(signed[i]);
        proof {
            assert(signed@.subrange(64, i + 1 as int) =~= signed@.subrange(64, i as int).push(
                signed@[i as int],
            ));
        }
        i = i + 1;
    }
    proof {
        assert(value@ =~= signed@.skip(64));
    }
    let mac = hmac_sha256(key, value.as_slice());
    let tag = hex_encode(mac.as_slice());
    let mut prefix: Vec<u8> = Vec::new();
    let mut j: usize = 0;
    while j < 64
        invariant
            j <= 64,
            signed@.len() >= 64,
            prefix@ == signed@.subrange(0, j as int),
        decreases 64 - j,
    {
        prefix.push(signed[j]);
        proof {
            assert(signed@.subrange(0, j + 1 as int) =~= signed@.subrange(0, j as int).push(
                signed@[j as int],
            ));
        }
        j = j + 1;
    }
    if ct_eq(prefix.as_slice(), tag.as_slice()) {
        Some(value)
    } else {
        None
    }
}

/// Round trip: a value signed under a key verifies back to that value
/// under the same key. The hypothesis on the tag length holds of
/// every tag the trusted HMAC binding returns.
pub proof fn lemma_sign_verify_round_trip(key: Seq<u8>, value: Seq<u8>)
    ensures
        mac_of(key, value).len() == 32 ==> verify_spec(key, sign_spec(key, value)) == Some(value),
{
    if mac_of(key, value).len() == 32 {
        lemma_hex_of_len(mac_of(key, value));
        assert(sign_spec(key, value).skip(64) =~= value);
        assert(sign_spec(key, value).take(64) =~= hex_of(mac_of(key, value)));
    }
}

/// Tampering is detected wherever it lands in the tag: an envelope
/// that carries the genuine value but differs anywhere from the
/// genuine envelope fails verification. (A forgery that changes the
/// value part would need a tag collision, which nothing here can
/// decide; the accompanying tests exercise byte flips over the whole
/// envelope.)
pub proof fn lemma_tampered_tag_rejected(key: Seq<u8>, value: Seq<u8>, forged: Seq<u8>)
    ensures
        (mac_of(key, value).len() == 32 && forged.len() == sign_spec(key, value).len()
            && forged.skip(64) == value && forged != sign_spec(key, value)) ==> verify_spec(
            key,
            forged,
        ) is None,
{
    if mac_of(key, value).len() == 32 && forged.len() == sign_spec(key, value).len()
        && forged.skip(64) == value && forged != sign_spec(key, value) {
        lemma_hex_of_len(mac_of(key, value));
        if forged.take(64) == hex_of(mac_of(key, value)) {
            assert(forged =~= forged.take(64) + forged.skip(64));
            assert(sign_spec(key, value) =~= forged.take(64) + forged.skip(64));
        }
    }
}

} // verus!
