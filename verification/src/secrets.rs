//! The per-installation session secret: when a stored one is kept, and how a
//! new one is derived from the entropy the caller collected.

use vstd::prelude::*;
use vstd::string::*;
use vstd::utf8::*;

use crate::text::{
    is_white_space, lemma_trimmed_idempotent, trim_end, trim_start, trimmed, trim_white_space,
    utf8_len_at_least,
};

verus! {

/// A stored secret is kept when, once trimmed, it is at least this many bytes
/// long; a shorter one is replaced by a fresh secret.
pub const MIN_SECRET_BYTES: usize = 32;

/// How many random bytes the caller must collect from the system for a new
/// secret: 48, as many as a `token_urlsafe(48)` key draws. The secret is
/// their SHA-256 digest (with the clock and process id), so it carries at
/// most 256 bits.
pub const OS_RANDOM_BYTES: usize = 48;

/// The secret that a stored file's contents yield: the trimmed contents when
/// their UTF-8 encoding is at least `MIN_SECRET_BYTES` long, else none.
pub open spec fn kept_secret(contents: Seq<char>) -> Option<Seq<char>> {
    if encode_utf8(trimmed(contents)).len() >= MIN_SECRET_BYTES {
        Some(trimmed(contents))
    } else {
        None
    }
}

/// Decides whether the contents of an existing secret file are kept: returns
/// the trimmed secret, or `None` when a new secret must be generated.
pub fn reusable_secret(contents: &str) -> (r: Option<String>)
    ensures
        r matches Some(s) ==> kept_secret(contents@) == Some(s@),
        r is None ==> kept_secret(contents@) is None,
{
    let t = trim_white_space(contents);
    if utf8_len_at_least(t, MIN_SECRET_BYTES) {
        Some(String::from_str(t))
    } else {
        None
    }
}

/// A kept secret is kept again, unchanged, by every later launch: what
/// `reusable_secret` returns is already trimmed and long enough.
pub proof fn lemma_kept_secret_is_stable(contents: Seq<char>)
    requires
        kept_secret(contents) is Some,
    ensures
        kept_secret(kept_secret(contents)->0) == kept_secret(contents),
{
    lemma_trimmed_idempotent(contents);
}

/// The name for SHA-256: the 32-byte digest of `data`.
pub uninterp spec fn sha256_of(data: Seq<u8>) -> Seq<u8>;

/// Trusted: calls `sha2::Sha256::digest` (through the `Digest` trait). The
/// contract claims that the result is the function of the input named
/// `sha256_of`, and that it is 32 bytes long, the output size of SHA-256.
#[verifier::external_body]
fn sha256_digest(data: &[u8]) -> (d: Vec<u8>)
    ensures
        d@ == sha256_of(data@),
        d@.len() == 32,
{
    <sha2::Sha256 as sha2::Digest>::digest(data).to_vec()
}

/// The lower-case hexadecimal digit for `n`, which is below sixteen.
pub open spec fn hex_digit(n: u8) -> char {
    seq!['0', '1', '2', '3', '4', '5', '6', '7', '8', '9', 'a', 'b', 'c', 'd', 'e', 'f'][n as int]
}

/// The lower-case hexadecimal encoding of `bytes`: two digits per byte, high
/// nibble first.
pub open spec fn hex_lower(bytes: Seq<u8>) -> Seq<char>
    decreases bytes.len(),
{
    if bytes.len() == 0 {
        Seq::empty()
    } else {
        seq![hex_digit(bytes[0] / 16), hex_digit(bytes[0] % 16)] + hex_lower(bytes.drop_first())
    }
}

/// Trusted: calls `hex::encode`, which encodes each byte as two lower-case
/// hexadecimal digits, high nibble first (the crate's table
/// `0123456789abcdef`). The contract claims exactly that encoding.
#[verifier::external_body]
fn hex_encode(data: &[u8]) -> (s: String)
    ensures
        s@ == hex_lower(data@),
{
    hex::encode(data)
}

/// The `width` low-order bytes of `n`, least significant first.
pub open spec fn le_bytes(n: nat, width: nat) -> Seq<u8>
    decreases width,
{
    if width == 0 {
        Seq::empty()
    } else {
        seq![(n % 256) as u8] + le_bytes(n / 256, (width - 1) as nat)
    }
}

fn push_le_bytes(out: &mut Vec<u8>, n: u128, width: usize)
    ensures
        final(out)@ == old(out)@ + le_bytes(n as nat, width as nat),
{
    let ghost target = out@ + le_bytes(n as nat, width as nat);
    let mut m = n;
    let mut k = width;
    while k > 0
        invariant
            out@ + le_bytes(m as nat, k as nat) == target,
        decreases k,
    {
        let ghost before = out@;
        out.push((m % 256) as u8);
        proof {
            assert(le_bytes(m as nat, k as nat) == seq![(m % 256) as u8] + le_bytes(
                (m / 256) as nat,
                (k - 1) as nat,
            ));
            assert(out@ + le_bytes((m / 256) as nat, (k - 1) as nat) =~= before + le_bytes(
                m as nat,
                k as nat,
            ));
        }
        m = m / 256;
        k = k - 1;
    }
    assert(out@ =~= target);
}

/// What the hash of a new secret is taken over: the clock reading in
/// nanoseconds as 16 little-endian bytes, the process id as 4, then the 48
/// random bytes from the system.
pub open spec fn secret_seed(nanos: u128, pid: u32, random: Seq<u8>) -> Seq<u8> {
    le_bytes(nanos as nat, 16) + le_bytes(pid as nat, 4) + random
}

/// The secret derived from a seed: the lower-case hex encoding of its
/// SHA-256 digest, 64 characters.
pub open spec fn secret_of(seed: Seq<u8>) -> Seq<char> {
    hex_lower(sha256_of(seed))
}

/// Derives a new session secret from the entropy the caller gathered: the
/// current time, the process id and 48 random bytes from the system. The
/// random bytes are always part of what is hashed.
pub fn secret_from_entropy(nanos: u128, pid: u32, random: &[u8; 48]) -> (s: String)
    ensures
        s@ == secret_of(secret_seed(nanos, pid, random@)),
        s@.len() == 64,
        kept_secret(s@) == Some(s@),
{
    let mut seed: Vec<u8> = Vec::new();
    push_le_bytes(&mut seed, nanos, 16);
    push_le_bytes(&mut seed, pid as u128, 4);
    let ghost fixed = seed@;
    let mut i: usize = 0;
    while i < 48
        invariant
            random@.len() == 48,
            i <= 48,
            seed@ == fixed + random@.subrange(0, i as int),
        decreases 48 - i,
    {
        seed.push(random[i]);
        i = i + 1;
        assert(seed@ =~= fixed + random@.subrange(0, i as int));
    }
    assert(random@.subrange(0, 48) =~= random@);
    assert(seed@ =~= secret_seed(nanos, pid, random@));
    let digest = sha256_digest(seed.as_slice());
    proof {
        lemma_hex_text_is_kept(digest@);
        lemma_hex_lower_shape(digest@);
    }
    hex_encode(digest.as_slice())
}

proof fn lemma_hex_lower_shape(bytes: Seq<u8>)
    ensures
        hex_lower(bytes).len() == 2 * bytes.len(),
        forall|i: int|
            0 <= i < hex_lower(bytes).len() ==> {
                let c = #[trigger] hex_lower(bytes)[i];
                ('0' <= c <= '9') || ('a' <= c <= 'f')
            },
    decreases bytes.len(),
{
    if bytes.len() > 0 {
        lemma_hex_lower_shape(bytes.drop_first());
        let head = seq![hex_digit(bytes[0] / 16), hex_digit(bytes[0] % 16)];
        assert forall|i: int| 0 <= i < hex_lower(bytes).len() implies {
            let c = #[trigger] hex_lower(bytes)[i];
            ('0' <= c <= '9') || ('a' <= c <= 'f')
        } by {
            if i >= 2 {
                assert(hex_lower(bytes)[i] == hex_lower(bytes.drop_first())[i - 2]);
            }
        }
    }
}

/// The hex encoding of a digest of at least 16 bytes is kept as it is by
/// `kept_secret`: trimming leaves hexadecimal digits alone and the encoding is
/// at least 32 bytes long.
proof fn lemma_hex_text_is_kept(digest: Seq<u8>)
    requires
        digest.len() >= 16,
    ensures
        kept_secret(hex_lower(digest)) == Some(hex_lower(digest)),
{
    let s = hex_lower(digest);
    lemma_hex_lower_shape(digest);
    assert(!is_white_space(s[0]));
    assert(trim_start(s) == s);
    assert(!is_white_space(s.last()));
    assert(trim_end(s) == s);
    assert(is_ascii_chars(s));
    is_ascii_chars_encode_utf8(s);
}

} // verus!
