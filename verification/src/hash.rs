//! Content hashes of configuration text.

use vstd::prelude::*;
use vstd::utf8::encode_utf8;

verus! {

/// What SHA-256 gives for `data`.
pub uninterp spec fn sha256(data: Seq<u8>) -> Seq<u8>;

/// Calls `sha2::Sha256::digest`. The result is a function of the bytes alone, named [`sha256`],
/// and a SHA-256 digest is 32 bytes long.
#[verifier::external_body]
fn sha256_digest(data: &[u8]) -> (digest: Vec<u8>)
    ensures
        digest@ == sha256(data@),
        digest@.len() == 32,
{
    <sha2::Sha256 as sha2::Digest>::digest(data).to_vec()
}

/// The lower-case hexadecimal digit that stands for `n`.
pub open spec fn hex_digit(n: int) -> char {
    if n < 10 {
        ('0' as int + n) as char
    } else {
        ('a' as int + (n - 10)) as char
    }
}

/// The lower-case hexadecimal text of `data`: two digits per byte, the high half first.
pub open spec fn hex_text(data: Seq<u8>) -> Seq<char> {
    Seq::new(
        2 * data.len(),
        |i: int|
            if i % 2 == 0 {
                hex_digit(data[i / 2] as int / 16)
            } else {
                hex_digit(data[i / 2] as int % 16)
            },
    )
}

/// Calls `hex::encode`, which writes each byte as two lower-case hexadecimal digits.
#[verifier::external_body]
fn hex_encode(data: &[u8]) -> (text: String)
    ensures
        text@ == hex_text(data@),
{
    hex::encode(data)
}

/// The algorithm name that every content hash starts with.
pub open spec fn hash_prefix() -> Seq<char> {
    "sha256:"@
}

/// The content hash of `content`: `sha256:` and the hexadecimal SHA-256 digest of its UTF-8 bytes.
pub open spec fn content_hash_of(content: Seq<char>) -> Seq<char> {
    hash_text(sha256(encode_utf8(content)))
}

/// The hash text for a digest: the algorithm name and the hexadecimal text of `digest`.
pub open spec fn hash_text(digest: Seq<u8>) -> Seq<char> {
    hash_prefix() + hex_text(digest)
}

/// Writes out a digest as a content hash.
pub fn digest_text(digest: &[u8]) -> (hash: String)
    ensures
        hash@ == hash_text(digest@),
        is_written_digest(hash@, digest@),
{
    let text = hex_encode(digest);
    let mut hash = "sha256:".to_string();
    hash.append(text.as_str());
    proof {
        law_digest_is_written_out(digest@, hash@);
    }
    hash
}

/// Computes the content hash of `content`.
pub fn content_hash(content: &str) -> (hash: String)
    ensures
        hash@ == content_hash_of(content@),
        is_written_digest(hash@, sha256(encode_utf8(content@))),
        hash@.len() == 71,
        hash@.subrange(0, 7) == hash_prefix(),
{
    let digest = sha256_digest(content.as_bytes());
    let hash = digest_text(digest.as_slice());
    proof {
        reveal_strlit("sha256:");
        assert(hash@.subrange(0, 7) =~= hash_prefix());
    }
    hash
}

proof fn lemma_hex_digit_injective(m: int, n: int)
    requires
        0 <= m < 16,
        0 <= n < 16,
        hex_digit(m) == hex_digit(n),
    ensures
        m == n,
{
}

proof fn lemma_hex_text_injective(a: Seq<u8>, b: Seq<u8>)
    requires
        hex_text(a) == hex_text(b),
    ensures
        a == b,
{
    assert(hex_text(a).len() == 2 * a.len());
    assert(hex_text(b).len() == 2 * b.len());
    assert forall|i: int| 0 <= i < a.len() implies a[i] == b[i] by {
        assert(hex_text(a)[2 * i] == hex_digit(a[i] as int / 16));
        assert(hex_text(b)[2 * i] == hex_digit(b[i] as int / 16));
        assert(hex_text(a)[2 * i + 1] == hex_digit(a[i] as int % 16));
        assert(hex_text(b)[2 * i + 1] == hex_digit(b[i] as int % 16));
        lemma_hex_digit_injective(a[i] as int / 16, b[i] as int / 16);
        lemma_hex_digit_injective(a[i] as int % 16, b[i] as int % 16);
    }
    assert(a =~= b);
}

/// Content hashes tell contents apart exactly as SHA-256 does: nothing is lost in writing the
/// digest out.
pub proof fn law_hashes_agree_iff_digests_do(a: Seq<char>, b: Seq<char>)
    ensures
        content_hash_of(a) == content_hash_of(b) <==> sha256(encode_utf8(a)) == sha256(
            encode_utf8(b),
        ),
{
    let x = hex_text(sha256(encode_utf8(a)));
    let y = hex_text(sha256(encode_utf8(b)));
    if content_hash_of(a) == content_hash_of(b) {
        let n = hash_prefix().len() as int;
        assert(content_hash_of(a).skip(n) =~= x);
        assert(content_hash_of(b).skip(n) =~= y);
        lemma_hex_text_injective(sha256(encode_utf8(a)), sha256(encode_utf8(b)));
    }
}

/// The lower-case hexadecimal digits, by what they stand for.
pub open spec fn hex_digits() -> Seq<char> {
    seq!['0', '1', '2', '3', '4', '5', '6', '7', '8', '9', 'a', 'b', 'c', 'd', 'e', 'f']
}

/// `hash` is `sha256:` and two hexadecimal digits for each byte of `digest`, the high half first,
/// and nothing else.
pub open spec fn is_written_digest(hash: Seq<char>, digest: Seq<u8>) -> bool {
    &&& hash.len() == 7 + 2 * digest.len()
    &&& hash.subrange(0, 7) == seq!['s', 'h', 'a', '2', '5', '6', ':']
    &&& forall|i: int|
        #![trigger digest[i]]
        0 <= i < digest.len() ==> {
            &&& hash[7 + 2 * i] == hex_digits()[digest[i] as int / 16]
            &&& hash[8 + 2 * i] == hex_digits()[digest[i] as int % 16]
        }
}

/// A content hash is the SHA-256 digest of the UTF-8 bytes of the whole content, written out; and no
/// other text is that digest written out.
pub proof fn law_hash_is_the_written_digest(content: Seq<char>, text: Seq<char>)
    ensures
        is_written_digest(content_hash_of(content), sha256(encode_utf8(content))),
        is_written_digest(text, sha256(encode_utf8(content))) ==> text == content_hash_of(content),
{
    let digest = sha256(encode_utf8(content));
    let hash = content_hash_of(content);
    law_digest_is_written_out(digest, hash);
    if is_written_digest(text, digest) {
        assert forall|k: int| 0 <= k < hash.len() implies text[k] == hash[k] by {
            if k < 7 {
                assert(text[k] == text.subrange(0, 7)[k]);
                assert(hash[k] == hash.subrange(0, 7)[k]);
            } else {
                let i = (k - 7) / 2;
                let b = digest[i];
                assert(k == 7 + 2 * i || k == 8 + 2 * i);
            }
        }
        assert(text =~= hash);
    }
}

/// The hash text of a digest is that digest written out, digit by digit.
pub proof fn law_digest_is_written_out(digest: Seq<u8>, hash: Seq<char>)
    requires
        hash == hash_text(digest),
    ensures
        is_written_digest(hash, digest),
{
    reveal_strlit("sha256:");
    assert(hash.subrange(0, 7) =~= seq!['s', 'h', 'a', '2', '5', '6', ':']);
    assert forall|i: int| #![trigger digest[i]] 0 <= i < digest.len() implies {
        &&& hash[7 + 2 * i] == hex_digits()[digest[i] as int / 16]
        &&& hash[8 + 2 * i] == hex_digits()[digest[i] as int % 16]
    } by {
        assert(hash[7 + 2 * i] == hex_text(digest)[2 * i]);
        assert(hash[8 + 2 * i] == hex_text(digest)[2 * i + 1]);
        let b = digest[i] as int;
        lemma_hex_digits(b / 16);
        lemma_hex_digits(b % 16);
    }
}

proof fn lemma_hex_digits(n: int)
    requires
        0 <= n < 16,
    ensures
        hex_digit(n) == hex_digits()[n],
{
}

} // verus!
