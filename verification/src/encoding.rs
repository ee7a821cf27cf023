//! Byte-level encodings used by the flow: lowercase hex and the
//! percent-encoding of URL query components, plus a constant-time
//! byte comparison for secret values.

use vstd::prelude::*;

verus! {

/// The lowercase hex digit for a value below 16.
pub open spec fn hex_digit(n: u8) -> u8
    recommends
        n < 16,
{
    if n < 10 {
        (n + 0x30) as u8
    } else {
        (n + 0x57) as u8
    }
}

/// Lowercase hex encoding of a byte sequence: two digits per byte.
pub open spec fn hex_of(bytes: Seq<u8>) -> Seq<u8>
    decreases bytes.len(),
{
    if bytes.len() == 0 {
        Seq::empty()
    } else {
        hex_of(bytes.drop_last()) + seq![
            hex_digit(bytes.last() / 16),
            hex_digit(bytes.last() % 16),
        ]
    }
}

pub proof fn lemma_hex_of_len(bytes: Seq<u8>)
    ensures
        hex_of(bytes).len() == 2 * bytes.len(),
    decreases bytes.len(),
{
    if bytes.len() > 0 {
        lemma_hex_of_len(bytes.drop_last());
    }
}

/// Encodes `bytes` as lowercase hex.
pub fn hex_encode(bytes: &[u8]) -> (r: Vec<u8>)
    ensures
        r@ == hex_of(bytes@),
        r@.len() == 2 * bytes@.len(),
{
    let mut out: Vec<u8> = Vec::new();
    let mut i: usize = 0;
    while i < bytes.len()
        invariant
            i <= bytes@.len(),
            out@ == hex_of(bytes@.take(i as int)),
        decreases bytes@.len() - i,
    {
        let b = bytes[i];
        let hi = b / 16;
        let lo = b % 16;
        out.push(if hi < 10 { hi + 0x30 } else { hi + 0x57 });
        out.push(if lo < 10 { lo + 0x30 } else { lo + 0x57 });
        proof {
            assert(bytes@.take(i + 1 as int).drop_last() =~= bytes@.take(i as int));
            assert(bytes@.take(i + 1 as int).last() == bytes@[i as int]);
        }
        i = i + 1;
    }
    proof {
        assert(bytes@.take(bytes@.len() as int) =~= bytes@);
        lemma_hex_of_len(bytes@);
    }
    out
}

/// The uppercase hex digit for a value below 16.
pub open spec fn hex_digit_upper(n: u8) -> u8
    recommends
        n < 16,
{
    if n < 10 {
        (n + 0x30) as u8
    } else {
        (n + 0x37) as u8
    }
}

/// Bytes that a URL query component carries unchanged: ASCII letters,
/// digits, and `- . _ ~`.
pub open spec fn is_unreserved(b: u8) -> bool {
    (0x41 <= b && b <= 0x5a)  // A-Z
    || (0x61 <= b && b <= 0x7a)  // a-z
    || (0x30 <= b && b <= 0x39)  // 0-9
    || b == 0x2d || b == 0x2e || b == 0x5f || b == 0x7e
}

/// Percent-encoding of a byte sequence: unreserved bytes stand as they
/// are, every other byte becomes `%` and two uppercase hex digits.
pub open spec fn pct_of(s: Seq<u8>) -> Seq<u8>
    decreases s.len(),
{
    if s.len() == 0 {
        Seq::empty()
    } else if is_unreserved(s.last()) {
        pct_of(s.drop_last()) + seq![s.last()]
    } else {
        pct_of(s.drop_last()) + seq![
            0x25u8,
            hex_digit_upper(s.last() / 16),
            hex_digit_upper(s.last() % 16),
        ]
    }
}

/// Percent-encodes `s` for use as a URL query value.
pub fn percent_encode(s: &[u8]) -> (r: Vec<u8>)
    ensures
        r@ == pct_of(s@),
{
    let mut out: Vec<u8> = Vec::new();
    let mut i: usize = 0;
    while i < s.len()
        invariant
            i <= s@.len(),
            out@ == pct_of(s@.take(i as int)),
        decreases s@.len() - i,
    {
        let b = s[i];
        let unreserved = (0x41 <= b && b <= 0x5a) || (0x61 <= b && b <= 0x7a)
            || (0x30 <= b && b <= 0x39) || b == 0x2d || b == 0x2e || b == 0x5f || b == 0x7e;
        if unreserved {
            out.push(b);
        } else {
            let hi = b / 16;
            let lo = b % 16;
            out.push(0x25);
            out.push(if hi < 10 { hi + 0x30 } else { hi + 0x37 });
            out.push(if lo < 10 { lo + 0x30 } else { lo + 0x37 });
        }
        proof {
            assert(s@.take(i + 1 as int).drop_last() =~= s@.take(i as int));
            assert(s@.take(i + 1 as int).last() == s@[i as int]);
        }
        i = i + 1;
    }
    proof {
        assert(s@.take(s@.len() as int) =~= s@);
    }
    out
}

/// A hex encoding consists of digits and lowercase letters, which a
/// URL query carries unchanged.
pub proof fn lemma_hex_of_unreserved(bytes: Seq<u8>)
    ensures
        forall|i: int|
            0 <= i < hex_of(bytes).len() ==> is_unreserved(#[trigger] hex_of(bytes)[i]),
    decreases bytes.len(),
{
    if bytes.len() > 0 {
        lemma_hex_of_unreserved(bytes.drop_last());
        let s = hex_of(bytes);
        let p = hex_of(bytes.drop_last());
        assert forall|i: int| 0 <= i < s.len() implies is_unreserved(s[i]) by {
            if i < p.len() {
                assert(s[i] == p[i]);
            } else {
                assert(s[i] == hex_digit(bytes.last() / 16) || s[i] == hex_digit(
                    bytes.last() % 16,
                ));
            }
        }
    }
}

/// Percent-encoding leaves a string of unreserved bytes unchanged.
pub proof fn lemma_pct_of_unreserved(s: Seq<u8>)
    requires
        forall|i: int| 0 <= i < s.len() ==> is_unreserved(#[trigger] s[i]),
    ensures
        pct_of(s) == s,
    decreases s.len(),
{
    if s.len() > 0 {
        assert forall|i: int| 0 <= i < s.drop_last().len() implies is_unreserved(
            #[trigger] s.drop_last()[i],
        ) by {
            assert(s.drop_last()[i] == s[i]);
        }
        lemma_pct_of_unreserved(s.drop_last());
        assert(pct_of(s) =~= s);
    }
}

/// The value of a hex digit byte, accepting both cases; `None` for a
/// byte that is no hex digit.
pub open spec fn hex_val(b: u8) -> Option<u8> {
    if 0x30 <= b && b <= 0x39 {
        Some((b - 0x30) as u8)
    } else if 0x61 <= b && b <= 0x66 {
        Some((b - 0x57) as u8)
    } else if 0x41 <= b && b <= 0x46 {
        Some((b - 0x37) as u8)
    } else {
        None
    }
}

/// Percent-decoding of a URL query component, read from position `i`
/// on: `%` followed by two hex digits becomes the encoded byte, `+`
/// becomes a space, every other byte stands as it is. `None` when a
/// `%` is not followed by two hex digits.
pub open spec fn pct_decode_from(s: Seq<u8>, i: int) -> Option<Seq<u8>>
    recommends
        0 <= i <= s.len(),
    decreases s.len() - i,
{
    if i < 0 || i >= s.len() {
        Some(Seq::empty())
    } else if s[i] == 0x25 {
        if i + 2 < s.len() && hex_val(s[i + 1]) is Some && hex_val(s[i + 2]) is Some {
            let b = (hex_val(s[i + 1]).unwrap() * 16 + hex_val(s[i + 2]).unwrap()) as u8;
            match pct_decode_from(s, i + 3) {
                Some(rest) => Some(seq![b] + rest),
                None => None,
            }
        } else {
            None
        }
    } else {
        let b: u8 = if s[i] == 0x2b {
            0x20
        } else {
            s[i]
        };
        match pct_decode_from(s, i + 1) {
            Some(rest) => Some(seq![b] + rest),
            None => None,
        }
    }
}

/// Percent-decoding of a whole URL query component.
pub open spec fn pct_decoded(s: Seq<u8>) -> Option<Seq<u8>> {
    pct_decode_from(s, 0)
}

fn hex_val_exec(b: u8) -> (r: Option<u8>)
    ensures
        r == hex_val(b),
{
    if 0x30 <= b && b <= 0x39 {
        Some(b - 0x30)
    } else if 0x61 <= b && b <= 0x66 {
        Some(b - 0x57)
    } else if 0x41 <= b && b <= 0x46 {
        Some(b - 0x37)
    } else {
        None
    }
}

fn percent_decode_from(s: &[u8], i: usize) -> (r: Option<Vec<u8>>)
    requires
        i <= s@.len(),
    ensures
        match r {
            Some(v) => pct_decode_from(s@, i as int) == Some(v@),
            None => pct_decode_from(s@, i as int) is None,
        },
    decreases s@.len() - i,
{
    if i >= s.len() {
        Some(Vec::new())
    } else if s[i] == 0x25 {
        if s.len() - i > 2 {
            let hi = hex_val_exec(s[i + 1]);
            let lo = hex_val_exec(s[i + 2]);
            match (hi, lo) {
                (Some(h), Some(l)) => {
                    match percent_decode_from(s, i + 3) {
                        Some(mut rest) => {
                            rest.insert(0, h * 16 + l);
                            Some(rest)
                        },
                        None => None,
                    }
                },
                _ => None,
            }
        } else {
            None
        }
    } else {
        let b = if s[i] == 0x2b {
            0x20
        } else {
            s[i]
        };
        match percent_decode_from(s, i + 1) {
            Some(mut rest) => {
                rest.insert(0, b);
                Some(rest)
            },
            None => None,
        }
    }
}

/// Percent-decodes a URL query component; `None` on a malformed
/// percent escape.
pub fn percent_decode(s: &[u8]) -> (r: Option<Vec<u8>>)
    ensures
        match r {
            Some(v) => pct_decoded(s@) == Some(v@),
            None => pct_decoded(s@) is None,
        },
{
    percent_decode_from(s, 0)
}

/// Appends a byte string to a buffer.
pub fn append_bytes(out: &mut Vec<u8>, s: &[u8])
    ensures
        final(out)@ == old(out)@ + s@,
{
    let mut i: usize = 0;
    while i < s.len()
        invariant
            i <= s@.len(),
            out@ == old(out)@ + s@.take(i as int),
        decreases s@.len() - i,
    {
        out.push(s[i]);
        proof {
            assert(old(out)@ + s@.take(i + 1 as int) =~= (old(out)@ + s@.take(i as int)).push(
                s@[i as int],
            ));
        }
        i = i + 1;
    }
    proof {
        assert(old(out)@ + s@.take(s@.len() as int) =~= old(out)@ + s@);
    }
}

/// Compares two byte strings without an early exit on the first
/// differing byte: the scan always covers the shorter length, so the
/// time taken reveals only the lengths, never where secrets differ.
pub fn ct_eq(a: &[u8], b: &[u8]) -> (r: bool)
    ensures
        r == (a@ == b@),
{
    let mut acc: u8 = 0;
    let mut i: usize = 0;
    let n = if a.len() < b.len() {
        a.len()
    } else {
        b.len()
    };
    while i < n
        invariant
            n <= a@.len(),
            n <= b@.len(),
            i <= n,
            (acc == 0) <==> (forall|j: int| 0 <= j < i ==> a@[j] == b@[j]),
        decreases n - i,
    {
        let d = a[i] ^ b[i];
        proof {
            let x = a@[i as int];
            let y = b@[i as int];
            let ac = acc;
            assert(((ac | (x ^ y)) == 0) <==> (ac == 0 && x == y)) by (bit_vector);
        }
        acc = acc | d;
        i = i + 1;
    }
    let same = acc == 0 && a.len() == b.len();
    proof {
        if same {
            assert(a@ =~= b@);
        }
    }
    same
}

} // verus!
