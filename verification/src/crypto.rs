//! Trusted bindings to the outside primitives the flow needs: the
//! HMAC-SHA256 tag that protects the CSRF cookie, the random bytes a
//! fresh CSRF secret is made of, and URL well-formedness.

use vstd::prelude::*;

verus! {

/// The HMAC-SHA256 tag of `msg` under `key`; a function of the two
/// arguments alone.
pub uninterp spec fn mac_of(key: Seq<u8>, msg: Seq<u8>) -> Seq<u8>;

/// Relies on hmac::Hmac with sha2::Sha256: computes the HMAC-SHA256
/// tag of `msg` under `key`. The tag is 32 bytes long and depends on
/// key and message alone. HMAC accepts keys of any length, so
/// `new_from_slice` cannot fail here.
#[verifier::external_body]
pub fn hmac_sha256(key: &[u8], msg: &[u8]) -> (r: Vec<u8>)
    ensures
        r@ == mac_of(key@, msg@),
        r@.len() == 32,
{
    let mut mac = <hmac::Hmac<sha2::Sha256> as hmac::KeyInit>::new_from_slice(key)
        .expect("HMAC accepts keys of any length");
    hmac::Mac::update(&mut mac, msg);
    hmac::Mac::finalize(mac).into_bytes().to_vec()
}

/// Relies on rand::rng (the thread-local generator) and its
/// rand::Rng::fill_bytes: fills a fresh buffer of `n` bytes with
/// random data. Nothing can be promised of the values, only of the
/// length.
#[verifier::external_body]
pub fn random_bytes(n: usize) -> (r: Vec<u8>)
    ensures
        r@.len() == n,
{
    let mut buf = vec![0u8; n];
    rand::Rng::fill_bytes(&mut rand::rng(), &mut buf);
    buf
}

/// Whether `s` is valid UTF-8 and parses as an absolute URL; a
/// function of the bytes alone.
pub uninterp spec fn url_ok(s: Seq<u8>) -> bool;

/// Relies on url::Url::parse: whether the bytes, read as UTF-8 (the
/// conversion is core::str::from_utf8; bytes that are not UTF-8 are
/// no URL), parse as an absolute URL.
#[verifier::external_body]
pub fn parse_url_ok(s: &[u8]) -> (r: bool)
    ensures
        r == url_ok(s@),
{
    match core::str::from_utf8(s) {
        Ok(t) => url::Url::parse(t).is_ok(),
        Err(_) => false,
    }
}

} // verus!
