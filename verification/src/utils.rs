//! Hashing of session tokens: SHA-256, written out in lowercase hexadecimal.
use vstd::prelude::*;
use sha2::{Digest, Sha256};

verus! {

/// The SHA-256 digest of the UTF-8 encoding of `text`.
pub uninterp spec fn sha256_digest(text: Seq<char>) -> Seq<u8>;

/// The lowercase hexadecimal digit for `n` (meaningful for `n < 16`).
pub open spec fn hex_digit(n: u8) -> char {
    if n < 10 {
        (48 + n) as char
    } else {
        (87 + n) as char
    }
}

/// Whether `c` is one of `0-9` and `a-f`.
pub open spec fn is_lower_hex_digit(c: char) -> bool {
    ('0' <= c && c <= '9') || ('a' <= c && c <= 'f')
}

/// `bytes` written in lowercase hexadecimal, two digits per byte, high nibble first.
pub open spec fn hex_lower(bytes: Seq<u8>) -> Seq<char>
    decreases bytes.len(),
{
    if bytes.len() == 0 {
        Seq::empty()
    } else {
        seq![hex_digit(bytes[0] / 16), hex_digit(bytes[0] % 16)] + hex_lower(bytes.drop_first())
    }
}

/// The key under which the session for `token` is stored.
pub open spec fn session_key(token: Seq<char>) -> Seq<char> {
    hex_lower(sha256_digest(token))
}

/// The storage key of a token is the lowercase hex of the SHA-256 digest of the whole
/// token, and two tokens share a key exactly when the digests of the whole tokens agree:
/// the key loses nothing of the digest.
pub proof fn lemma_session_key_hashes_whole_token(token: Seq<char>, other: Seq<char>)
    ensures
        session_key(token) == hex_lower(sha256_digest(token)),
        session_key(other) == session_key(token) <==> sha256_digest(other) == sha256_digest(token),
{
    if session_key(other) == session_key(token) {
        lemma_hex_lower_injective(sha256_digest(other), sha256_digest(token));
    }
}

/// Hex encoding loses nothing: two byte strings with the same encoding are equal.
pub proof fn lemma_hex_lower_injective(a: Seq<u8>, b: Seq<u8>)
    requires
        hex_lower(a) == hex_lower(b),
    ensures
        a == b,
    decreases a.len(),
{
    lemma_hex_lower_shape(a);
    lemma_hex_lower_shape(b);
    if a.len() > 0 {
        let ha = hex_lower(a);
        let hb = hex_lower(b);
        assert(ha[0] == hb[0] && ha[1] == hb[1]);
        lemma_hex_digit_injective(a[0] / 16, b[0] / 16);
        lemma_hex_digit_injective(a[0] % 16, b[0] % 16);
        assert(a[0] == b[0]);
        assert(hex_lower(a.drop_first()) =~= ha.subrange(2, ha.len() as int));
        assert(hex_lower(b.drop_first()) =~= hb.subrange(2, hb.len() as int));
        lemma_hex_lower_injective(a.drop_first(), b.drop_first());
        assert(a =~= seq![a[0]] + a.drop_first());
        assert(b =~= seq![b[0]] + b.drop_first());
    } else {
        assert(b.len() == 0);
        assert(a =~= b);
    }
}

proof fn lemma_hex_digit_injective(x: u8, y: u8)
    requires
        x < 16,
        y < 16,
        hex_digit(x) == hex_digit(y),
    ensures
        x == y,
{
}

/// The hex encoding has two digits per byte, each a lowercase hex digit.
pub proof fn lemma_hex_lower_shape(bytes: Seq<u8>)
    ensures
        hex_lower(bytes).len() == 2 * bytes.len(),
        forall|i: int| 0 <= i < hex_lower(bytes).len() ==> is_lower_hex_digit(#[trigger] hex_lower(bytes)[i]),
    decreases bytes.len(),
{
    if bytes.len() > 0 {
        lemma_hex_lower_shape(bytes.drop_first());
        let head = seq![hex_digit(bytes[0] / 16), hex_digit(bytes[0] % 16)];
        let tail = hex_lower(bytes.drop_first());
        assert forall|i: int| 0 <= i < hex_lower(bytes).len() implies is_lower_hex_digit(
            #[trigger] hex_lower(bytes)[i],
        ) by {
            if i >= 2 {
                assert(hex_lower(bytes)[i] == tail[i - 2]);
            }
        }
    }
}

/// The SHA-256 digest of `text`, through sha2's `Sha256::digest`. Claimed: the result is
/// the digest of the text's UTF-8 bytes (named, not spelled out) and is 32 bytes long.
#[verifier::external_body]
fn sha256(text: &str) -> (digest: Vec<u8>)
    ensures
        digest@ == sha256_digest(text@),
        digest@.len() == 32,
{
    Sha256::digest(text.as_bytes()).to_vec()
}

/// hex's `encode`. Claimed: the result is `bytes` in lowercase hexadecimal, two digits
/// per byte, high nibble first, which is what hex documents and its source does.
#[verifier::external_body]
fn hex_encode(bytes: &[u8]) -> (text: String)
    ensures
        text@ == hex_lower(bytes@),
{
    hex::encode(bytes)
}

/// The key under which the session for token `id` is stored: the SHA-256 hash of the
/// token, in lowercase hex (64 characters).
pub fn hash_session_id(id: &str) -> (hashed: String)
    ensures
        hashed@ == session_key(id@),
        hashed@ == hex_lower(sha256_digest(id@)),
        hashed@.len() == 64,
        forall|i: int| 0 <= i < hashed@.len() ==> is_lower_hex_digit(#[trigger] hashed@[i]),
{
    let digest = sha256(id);
    let hashed = hex_encode(digest.as_slice());
    proof {
        lemma_hex_lower_shape(digest@);
    }
    hashed
}

} // verus!
