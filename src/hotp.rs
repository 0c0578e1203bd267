//! The counter-based half: counter derivation, the HMAC digest and dynamic truncation.
use ring::hmac;
use vstd::prelude::*;

verus! {

/// The counter for a point `secs` seconds after the epoch: the time shifted by `skew`,
/// taken modulo 2^64 (a negative sum reads as a very large unsigned value), then divided
/// by the step length.
pub open spec fn counter_at(secs: u64, skew: i64, time_step: u64) -> int {
    ((secs + skew) % 0x1_0000_0000_0000_0000) / (time_step as int)
}

/// The eight big-endian bytes of a counter.
pub open spec fn counter_bytes(counter: u64) -> Seq<u8> {
    seq![
        (counter >> 56) as u8,
        (counter >> 48) as u8,
        (counter >> 40) as u8,
        (counter >> 32) as u8,
        (counter >> 24) as u8,
        (counter >> 16) as u8,
        (counter >> 8) as u8,
        counter as u8,
    ]
}

/// The HMAC-SHA1 tag of `message` under `key`.
pub uninterp spec fn hmac_sha1(key: Seq<u8>, message: Seq<u8>) -> Seq<u8>;

/// The HOTP value of a key and a counter: the truncated HMAC-SHA1 tag of the counter's bytes.
pub open spec fn hotp_code(key: Seq<u8>, counter: u64) -> int {
    truncated_code(hmac_sha1(key, counter_bytes(counter)))
}

/// Derives the time-step counter from whole seconds since the epoch and a signed skew.
pub fn derive_counter(secs: u64, skew: i64, time_step: u64) -> (r: u64)
    requires
        time_step > 0,
    ensures
        r == counter_at(secs, skew, time_step),
{
    let shift = skew as u64;
    let shifted = secs.wrapping_add(shift);
    proof {
        if skew >= 0 {
            assert(shift == skew);
        } else {
            assert(shift == skew + 0x1_0000_0000_0000_0000) by (bit_vector)
                requires
                    shift == skew as u64,
                    skew < 0,
            ;
        }
        assert(shifted == (secs + skew) % 0x1_0000_0000_0000_0000);
    }
    shifted / time_step
}

/// The big-endian bytes of a counter, the message that HOTP signs.
fn be_bytes(counter: u64) -> (r: Vec<u8>)
    ensures
        r@ == counter_bytes(counter),
{
    let r = vec![
        (counter >> 56) as u8,
        (counter >> 48) as u8,
        (counter >> 40) as u8,
        (counter >> 32) as u8,
        (counter >> 24) as u8,
        (counter >> 16) as u8,
        (counter >> 8) as u8,
        counter as u8,
    ];
    assert(r@ =~= counter_bytes(counter));
    r
}

/// Relies on ring's `hmac::Key::new` with `HMAC_SHA1_FOR_LEGACY_USE_ONLY` and `hmac::sign`:
/// the tag depends on key and message alone and is SHA-1's 20 bytes long. A key of 2^61
/// bytes or more would overflow SHA-1's bit count, on which ring panics.
#[verifier::external_body]
fn sign_hmac_sha1(key: &[u8], message: &[u8]) -> (r: Vec<u8>)
    requires
        key@.len() < 0x2000_0000_0000_0000,
    ensures
        r@ == hmac_sha1(key@, message@),
        r@.len() == 20,
{
    let k = hmac::Key::new(hmac::HMAC_SHA1_FOR_LEGACY_USE_ONLY, key);
    hmac::sign(&k, message).as_ref().to_vec()
}

/// The HOTP code for a key and a counter.
pub fn hotp(key: &[u8], counter: u64) -> (r: u32)
    requires
        key@.len() < 0x2000_0000_0000_0000,
    ensures
        r == hotp_code(key@, counter),
{
    let message = be_bytes(counter);
    let digest = sign_hmac_sha1(key, message.as_slice());
    match encode_digest(digest.as_slice()) {
        Ok(code) => code,
        Err(_) => {
            proof {
                lemma_digest_bounds(digest@);
            }
            0
        },
    }
}

/// Why dynamic truncation could not take a 4-byte window from a digest.
#[derive(Clone, Copy, Debug, PartialEq, Eq, Structural)]
pub enum EncodeError {
    /// The digest has no last byte to take the offset from.
    EmptyDigest,
    /// The window `offset .. offset + 4` runs past the end of the digest.
    WindowOutOfBounds { offset: usize, digest_len: usize },
}

/// The offset of the truncation window: the low nibble of the digest's last byte.
pub open spec fn truncation_offset(digest: Seq<u8>) -> int {
    (digest.last() % 16) as int
}

/// Whether the digest is long enough for dynamic truncation.
pub open spec fn can_truncate(digest: Seq<u8>) -> bool {
    digest.len() > 0 && truncation_offset(digest) + 4 <= digest.len()
}

/// The four bytes at `i .. i + 4`, read as a big-endian unsigned integer.
pub open spec fn be_u32_at(b: Seq<u8>, i: int) -> int {
    b[i] * 0x100_0000 + b[i + 1] * 0x1_0000 + b[i + 2] * 0x100 + b[i + 3]
}

/// The six-digit code: the window at the offset, sign bit cleared, reduced modulo one million.
pub open spec fn truncated_code(digest: Seq<u8>) -> int {
    (be_u32_at(digest, truncation_offset(digest)) % 0x8000_0000) % 1_000_000
}

/// Dynamic truncation of an HMAC digest into a code below one million.
pub fn encode_digest(digest: &[u8]) -> (r: Result<u32, EncodeError>)
    ensures
        r is Ok <==> can_truncate(digest@),
        r is Ok ==> r->Ok_0 == truncated_code(digest@),
        digest@.len() == 0 ==> r == Err::<u32, EncodeError>(EncodeError::EmptyDigest),
        digest@.len() > 0 && !can_truncate(digest@) ==> r == Err::<u32, EncodeError>(
            EncodeError::WindowOutOfBounds {
                offset: truncation_offset(digest@) as usize,
                digest_len: digest@.len() as usize,
            },
        ),
{
    let len = digest.len();
    if len == 0 {
        return Err(EncodeError::EmptyDigest);
    }
    let last = digest[len - 1];
    let nibble = last & 0xf;
    assert(nibble == last % 16) by (bit_vector)
        requires
            nibble == last & 0xf,
    ;
    let offset = nibble as usize;
    if offset + 4 > len {
        return Err(EncodeError::WindowOutOfBounds { offset, digest_len: len });
    }
    let b0 = digest[offset] as u32;
    let b1 = digest[offset + 1] as u32;
    let b2 = digest[offset + 2] as u32;
    let b3 = digest[offset + 3] as u32;
    let window = b0 * 0x100_0000 + b1 * 0x1_0000 + b2 * 0x100 + b3;
    let masked = window & 0x7fff_ffff;
    assert(masked == window % 0x8000_0000) by (bit_vector)
        requires
            masked == window & 0x7fff_ffff,
    ;
    Ok(masked % 1_000_000)
}

/// A 20-byte digest can always be truncated, whatever its offset; a non-empty digest
/// shorter than its offset plus four cannot.
pub proof fn lemma_digest_bounds(digest: Seq<u8>)
    ensures
        digest.len() == 20 ==> can_truncate(digest),
        digest.len() > 0 && digest.len() < truncation_offset(digest) + 4 ==> !can_truncate(
            digest,
        ),
{
}

} // verus!
