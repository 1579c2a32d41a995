//! Content addressing: a deterministic fingerprint of (source path, content
//! bytes), encoded as lowercase hex.
//!
//! The digest input is the UTF-8 encoding of the source path, a single NUL
//! separator byte, and the content bytes. Including the path keeps per-rule
//! namespaces separate: byte-identical files at different paths receive
//! different digest inputs.

use vstd::prelude::*;
use vstd::string::StrSliceExecFns;
use vstd::utf8::encode_utf8;
use vstd::utf8::decode_utf8;
use vstd::utf8::encode_utf8_decode_utf8;
use sha2::Digest;

verus! {

/// The sixteen lowercase hex digits, in value order.
pub open spec fn hex_digits() -> Seq<char> {
    seq!['0', '1', '2', '3', '4', '5', '6', '7', '8', '9', 'a', 'b', 'c', 'd', 'e', 'f']
}

/// Lowercase hex encoding: each byte becomes two digits, high nibble first.
pub open spec fn hex_of(bytes: Seq<u8>) -> Seq<char> {
    Seq::new(
        bytes.len() * 2,
        |i: int|
            if i % 2 == 0 {
                hex_digits()[(bytes[i / 2] >> 4u8) as int]
            } else {
                hex_digits()[(bytes[i / 2] & 0x0fu8) as int]
            },
    )
}

/// The lowercase hex digit of a value below sixteen.
pub fn hex_digit_char(n: u8) -> (c: char)
    requires
        n < 16,
    ensures
        c == hex_digits()[n as int],
{
    proof {
        reveal_strlit("0123456789abcdef");
    }
    "0123456789abcdef".get_char(n as usize)
}

/// The SHA-256 digest of a byte sequence, named but not defined here: the
/// digest is a function of the input bytes alone, computed by the sha2 crate.
pub uninterp spec fn sha256_of(bytes: Seq<u8>) -> Seq<u8>;

/// Relies on sha2::Sha256 (through the Digest trait): the digest depends on
/// the input bytes alone, and a SHA-256 digest is 32 bytes long.
#[verifier::external_body]
fn sha256_digest(data: &[u8]) -> (r: Vec<u8>)
    ensures
        r@ == sha256_of(data@),
        r@.len() == 32,
{
    sha2::Sha256::digest(data).to_vec()
}

/// Lowercase hex encoding of a byte string: each byte becomes two digits,
/// high nibble first.
#[verifier::loop_isolation(false)]
fn hex_encode(data: &Vec<u8>) -> (r: String)
    ensures
        r@ == hex_of(data@),
{
    let mut out = String::new();
    let mut i: usize = 0;
    while i < data.len()
        invariant
            i <= data@.len(),
            out@.len() == 2 * i,
            out@ =~= hex_of(data@.take(i as int)),
        decreases data@.len() - i,
    {
        let b = data[i];
        proof {
            assert((b >> 4u8) < 16 && (b & 0x0fu8) < 16) by (bit_vector);
        }
        out.push(hex_digit_char(b >> 4u8));
        out.push(hex_digit_char(b & 0x0fu8));
        proof {
            assert forall|j: int| 0 <= j < 2 * (i + 1) implies out@[j] == hex_of(
                data@.take(i + 1),
            )[j] by {
                assert(data@.take(i + 1)[j / 2] == data@[j / 2]);
                if j < 2 * i {
                    assert(data@.take(i as int)[j / 2] == data@[j / 2]);
                    assert(out@[j] == hex_of(data@.take(i as int))[j]);
                }
            }
            assert(out@ =~= hex_of(data@.take(i + 1)));
        }
        i += 1;
    }
    proof {
        assert(data@.take(data@.len() as int) =~= data@);
    }
    out
}

/// The exact byte sequence fed to the digest for a given source path and
/// content: UTF-8 path bytes, one NUL separator, then the content.
pub open spec fn hash_frame(path: Seq<char>, content: Seq<u8>) -> Seq<u8> {
    encode_utf8(path) + seq![0u8] + content
}

/// The fingerprint of (source path, content): the SHA-256 digest of the
/// frame, as 64 lowercase hex digits.
pub open spec fn hash_spec(path: Seq<char>, content: Seq<u8>) -> Seq<char> {
    hex_of(sha256_of(hash_frame(path, content)))
}

/// Fingerprint a source file: digest its path and content bytes.
pub fn hash_content(input_path: &str, content: &[u8]) -> (r: String)
    ensures
        r@ == hash_spec(input_path@, content@),
        r@.len() == 64,
{
    let mut buf: Vec<u8> = input_path.as_bytes_vec();
    buf.push(0u8);
    buf.extend_from_slice(content);
    proof {
        assert(buf@ =~= hash_frame(input_path@, content@));
    }
    let digest = sha256_digest(buf.as_slice());
    hex_encode(&digest)
}

/// The fingerprint is deterministic: any two results computed for the same
/// path and content are equal.
pub proof fn lemma_hash_deterministic(
    path: Seq<char>,
    content: Seq<u8>,
    r1: Seq<char>,
    r2: Seq<char>,
)
    requires
        r1 == hash_spec(path, content),
        r2 == hash_spec(path, content),
    ensures
        r1 == r2,
{
}

/// Distinct source paths always produce distinct digest inputs, even for
/// byte-identical content: the NUL-framed layout is injective in the path.
pub proof fn lemma_hash_frame_injective(p1: Seq<char>, p2: Seq<char>, content: Seq<u8>)
    requires
        p1 != p2,
    ensures
        hash_frame(p1, content) != hash_frame(p2, content),
{
    if hash_frame(p1, content) == hash_frame(p2, content) {
        let e1 = encode_utf8(p1);
        let e2 = encode_utf8(p2);
        let f1 = hash_frame(p1, content);
        let f2 = hash_frame(p2, content);
        assert(f1.len() == e1.len() + 1 + content.len());
        assert(f2.len() == e2.len() + 1 + content.len());
        assert(e1.len() == e2.len());
        assert(e1 =~= e2) by {
            assert forall|i: int| 0 <= i < e1.len() implies e1[i] == e2[i] by {
                assert(f1[i] == e1[i]);
                assert(f2[i] == e2[i]);
            }
        }
        encode_utf8_decode_utf8(p1);
        encode_utf8_decode_utf8(p2);
        assert(p1 == p2);
    }
}

} // verus!
