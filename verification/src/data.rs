//! Reference data for the benchmarks: the hex digests of an input under
//! every algorithm, and the names of the generated input files.

use vstd::prelude::*;

use crate::hashers::{Blake3, Md5Hasher, Sha1Hasher, Sha2_256, Sha2_384, Sha2_512};
use crate::hashers::{Sha3_256Hasher, Sha3_384Hasher, Sha3_512Hasher};
use crate::hex::{hex_of, lemma_hex_of_shape, to_hex_str};
use crate::primitives::MESSAGE_LIMIT;
use crate::primitives::{md5_digest, sha1_digest, sha2_256_digest, sha2_384_digest};
use crate::primitives::{sha2_512_digest, sha3_256_digest, sha3_384_digest, sha3_512_digest};
use crate::primitives::blake3_digest;
use crate::text::{decimal_pad2, push_char, push_decimal};

verus! {

/// Bytes per chunk of a generated input.
pub const CHUNK_SIZE: usize = 64;

/// The sizes, in chunks, of the generated inputs, smallest first.
pub const TOTAL_CHUNKS: [usize; 14] = [1, 2, 4, 8, 16, 32, 64, 128, 256, 512, 1024, 2048, 4096, 8192];

/// The upper-case hex MD5 digest of `data`.
pub fn run_md5(data: &[u8]) -> (hex: String)
    requires
        data@.len() < MESSAGE_LIMIT,
    ensures
        hex@ == hex_of(md5_digest(data@)),
        hex@.len() == 32,
{
    let mut hasher = Md5Hasher::new();
    hasher.update(data);
    let digest = hasher.finalize();
    proof {
        lemma_hex_of_shape(digest@);
    }
    to_hex_str(&digest)
}

/// The upper-case hex SHA-1 digest of `data`.
pub fn run_sha1(data: &[u8]) -> (hex: String)
    requires
        data@.len() < MESSAGE_LIMIT,
    ensures
        hex@ == hex_of(sha1_digest(data@)),
        hex@.len() == 40,
{
    let mut hasher = Sha1Hasher::new();
    hasher.update(data);
    let digest = hasher.finalize();
    proof {
        lemma_hex_of_shape(digest@);
    }
    to_hex_str(&digest)
}

/// The upper-case hex SHA-256 digest of `data`.
pub fn run_sha2_256(data: &[u8]) -> (hex: String)
    requires
        data@.len() < MESSAGE_LIMIT,
    ensures
        hex@ == hex_of(sha2_256_digest(data@)),
        hex@.len() == 64,
{
    let mut hasher = Sha2_256::new();
    hasher.update(data);
    let digest = hasher.finalize();
    proof {
        lemma_hex_of_shape(digest@);
    }
    to_hex_str(&digest)
}

/// The upper-case hex SHA-384 digest of `data`.
pub fn run_sha2_384(data: &[u8]) -> (hex: String)
    requires
        data@.len() < MESSAGE_LIMIT,
    ensures
        hex@ == hex_of(sha2_384_digest(data@)),
        hex@.len() == 96,
{
    let mut hasher = Sha2_384::new();
    hasher.update(data);
    let digest = hasher.finalize();
    proof {
        lemma_hex_of_shape(digest@);
    }
    to_hex_str(&digest)
}

/// The upper-case hex SHA-512 digest of `data`.
pub fn run_sha2_512(data: &[u8]) -> (hex: String)
    requires
        data@.len() < MESSAGE_LIMIT,
    ensures
        hex@ == hex_of(sha2_512_digest(data@)),
        hex@.len() == 128,
{
    let mut hasher = Sha2_512::new();
    hasher.update(data);
    let digest = hasher.finalize();
    proof {
        lemma_hex_of_shape(digest@);
    }
    to_hex_str(&digest)
}

/// The upper-case hex SHA3-256 digest of `data`.
pub fn run_sha3_256(data: &[u8]) -> (hex: String)
    requires
        data@.len() < MESSAGE_LIMIT,
    ensures
        hex@ == hex_of(sha3_256_digest(data@)),
        hex@.len() == 64,
{
    let mut hasher = Sha3_256Hasher::new();
    hasher.update(data);
    let digest = hasher.finalize();
    proof {
        lemma_hex_of_shape(digest@);
    }
    to_hex_str(&digest)
}

/// The upper-case hex SHA3-384 digest of `data`.
pub fn run_sha3_384(data: &[u8]) -> (hex: String)
    requires
        data@.len() < MESSAGE_LIMIT,
    ensures
        hex@ == hex_of(sha3_384_digest(data@)),
        hex@.len() == 96,
{
    let mut hasher = Sha3_384Hasher::new();
    hasher.update(data);
    let digest = hasher.finalize();
    proof {
        lemma_hex_of_shape(digest@);
    }
    to_hex_str(&digest)
}

/// The upper-case hex SHA3-512 digest of `data`.
pub fn run_sha3_512(data: &[u8]) -> (hex: String)
    requires
        data@.len() < MESSAGE_LIMIT,
    ensures
        hex@ == hex_of(sha3_512_digest(data@)),
        hex@.len() == 128,
{
    let mut hasher = Sha3_512Hasher::new();
    hasher.update(data);
    let digest = hasher.finalize();
    proof {
        lemma_hex_of_shape(digest@);
    }
    to_hex_str(&digest)
}

/// The upper-case hex BLAKE3 digest of `data`.
pub fn run_blake3(data: &[u8]) -> (hex: String)
    requires
        data@.len() < MESSAGE_LIMIT,
    ensures
        hex@ == hex_of(blake3_digest(data@)),
        hex@.len() == 64,
{
    let mut hasher = Blake3::new();
    hasher.update(data);
    let digest = hasher.finalize();
    proof {
        lemma_hex_of_shape(digest@);
    }
    to_hex_str(&digest)
}

/// The reference file of an input: one line per algorithm, a label padded to
/// ten characters, then the upper-case hex digest of the input.
pub open spec fn hashes_text_spec(data: Seq<u8>) -> Seq<char> {
    "md5:      "@ + hex_of(md5_digest(data)) + "\n"@ +
        "sha1:     "@ + hex_of(sha1_digest(data)) + "\n"@ +
        "sha2-256: "@ + hex_of(sha2_256_digest(data)) + "\n"@ +
        "sha2-384: "@ + hex_of(sha2_384_digest(data)) + "\n"@ +
        "sha2-512: "@ + hex_of(sha2_512_digest(data)) + "\n"@ +
        "sha3-256: "@ + hex_of(sha3_256_digest(data)) + "\n"@ +
        "sha3-384: "@ + hex_of(sha3_384_digest(data)) + "\n"@ +
        "sha3-512: "@ + hex_of(sha3_512_digest(data)) + "\n"@ +
        "blake3:   "@ + hex_of(blake3_digest(data)) + "\n"@
}

/// The digests of `data` under every algorithm, as the text of its
/// reference file.
pub fn hashes_text(data: &[u8]) -> (hashes: String)
    requires
        data@.len() < MESSAGE_LIMIT,
    ensures
        hashes@ == hashes_text_spec(data@),
{
    let mut hashes = String::new();
    hashes.append("md5:      ");
    hashes.append(run_md5(data).as_str());
    hashes.append("\n");
    hashes.append("sha1:     ");
    hashes.append(run_sha1(data).as_str());
    hashes.append("\n");
    hashes.append("sha2-256: ");
    hashes.append(run_sha2_256(data).as_str());
    hashes.append("\n");
    hashes.append("sha2-384: ");
    hashes.append(run_sha2_384(data).as_str());
    hashes.append("\n");
    hashes.append("sha2-512: ");
    hashes.append(run_sha2_512(data).as_str());
    hashes.append("\n");
    hashes.append("sha3-256: ");
    hashes.append(run_sha3_256(data).as_str());
    hashes.append("\n");
    hashes.append("sha3-384: ");
    hashes.append(run_sha3_384(data).as_str());
    hashes.append("\n");
    hashes.append("sha3-512: ");
    hashes.append(run_sha3_512(data).as_str());
    hashes.append("\n");
    hashes.append("blake3:   ");
    hashes.append(run_blake3(data).as_str());
    hashes.append("\n");
    hashes
}

/// The name of the `index`-th generated input (counting from zero):
/// `test_` and the one-based number, at least two digits wide.
pub fn input_name(index: usize) -> (name: String)
    requires
        index < usize::MAX,
    ensures
        name@ == "test_"@ + decimal_pad2(index as nat + 1),
{
    let mut name = String::new();
    name.append("test_");
    let number = index + 1;
    if number < 10 {
        push_char(&mut name, '0');
    }
    push_decimal(&mut name, number as u64);
    name
}

} // verus!
