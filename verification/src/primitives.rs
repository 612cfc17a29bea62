//! The outside hash functions, behind trusted items.
//!
//! Each hasher state of an outside crate is declared as an opaque type. A
//! state is treated as a collection of the bytes it has absorbed so far, in
//! order (`*_absorbed`): it does not store them, but what its `finalize`
//! returns is determined by them alone, which is what the crates document
//! (a hash of everything passed to `update`; blake3's docs show three
//! `update` calls finalizing to the hash of the three inputs joined). The
//! digest that a crate computes for a whole message (what its one-shot
//! `digest`/`hash` returns) is named too (`*_digest`). The wrappers below
//! state how `new`, `update` and `finalize` act on those names; the hash
//! algorithms themselves are not restated here.
//!
//! Every wrapper bounds the absorbed message below `MESSAGE_LIMIT` bytes: the
//! SHA-1 and SHA-2 states count processed bits in a `u64`, which overflows
//! (a panic in debug builds) on messages of 2^61 bytes or more.

use vstd::prelude::*;

use md5::Digest;

verus! {

/// Upper bound (exclusive) on the number of bytes a hasher state may absorb.
pub const MESSAGE_LIMIT: u64 = 0x2000_0000_0000_0000;

/// The hasher state of md-5 `Md5`, opaque to Verus.
#[verifier::external_type_specification]
#[verifier::external_body]
pub struct ExMd5State(md5::Md5);

/// The message that a MD5 state has absorbed so far, in order.
pub uninterp spec fn md5_absorbed(state: md5::Md5) -> Seq<u8>;

/// The MD5 digest that the crate computes for a whole message.
pub uninterp spec fn md5_digest(message: Seq<u8>) -> Seq<u8>;

/// Calls `Digest::new` for md-5 `Md5`: a fresh state has absorbed nothing.
#[verifier::external_body]
pub(crate) fn md5_new() -> (state: md5::Md5)
    ensures
        md5_absorbed(state) == Seq::<u8>::empty(),
{
    <md5::Md5 as Digest>::new()
}

/// Calls `Digest::update` for md-5 `Md5`: the state goes on to absorb `data` after what it held.
#[verifier::external_body]
pub(crate) fn md5_update(state: &mut md5::Md5, data: &[u8])
    requires
        md5_absorbed(*old(state)).len() + data@.len() < MESSAGE_LIMIT,
    ensures
        md5_absorbed(*final(state)) == md5_absorbed(*old(state)) + data@,
{
    Digest::update(state, data);
}

/// Calls `Digest::finalize` for md-5 `Md5`: the result is the MD5 digest of the absorbed message,
/// 16 bytes long.
#[verifier::external_body]
pub(crate) fn md5_finalize(state: md5::Md5) -> (digest: Vec<u8>)
    requires
        md5_absorbed(state).len() < MESSAGE_LIMIT,
    ensures
        digest@ == md5_digest(md5_absorbed(state)),
        digest@.len() == 16,
{
    Digest::finalize(state).to_vec()
}

/// The hasher state of sha1 `Sha1`, opaque to Verus.
#[verifier::external_type_specification]
#[verifier::external_body]
pub struct ExSha1State(sha1::Sha1);

/// The message that a SHA-1 state has absorbed so far, in order.
pub uninterp spec fn sha1_absorbed(state: sha1::Sha1) -> Seq<u8>;

/// The SHA-1 digest that the crate computes for a whole message.
pub uninterp spec fn sha1_digest(message: Seq<u8>) -> Seq<u8>;

/// Calls `Digest::new` for sha1 `Sha1`: a fresh state has absorbed nothing.
#[verifier::external_body]
pub(crate) fn sha1_new() -> (state: sha1::Sha1)
    ensures
        sha1_absorbed(state) == Seq::<u8>::empty(),
{
    <sha1::Sha1 as Digest>::new()
}

/// Calls `Digest::update` for sha1 `Sha1`: the state goes on to absorb `data` after what it held.
#[verifier::external_body]
pub(crate) fn sha1_update(state: &mut sha1::Sha1, data: &[u8])
    requires
        sha1_absorbed(*old(state)).len() + data@.len() < MESSAGE_LIMIT,
    ensures
        sha1_absorbed(*final(state)) == sha1_absorbed(*old(state)) + data@,
{
    Digest::update(state, data);
}

/// Calls `Digest::finalize` for sha1 `Sha1`: the result is the SHA-1 digest of the absorbed message,
/// 20 bytes long.
#[verifier::external_body]
pub(crate) fn sha1_finalize(state: sha1::Sha1) -> (digest: Vec<u8>)
    requires
        sha1_absorbed(state).len() < MESSAGE_LIMIT,
    ensures
        digest@ == sha1_digest(sha1_absorbed(state)),
        digest@.len() == 20,
{
    Digest::finalize(state).to_vec()
}

/// The hasher state of sha2 `Sha256`, opaque to Verus.
#[verifier::external_type_specification]
#[verifier::external_body]
pub struct ExSha2256State(sha2::Sha256);

/// The message that a SHA-256 state has absorbed so far, in order.
pub uninterp spec fn sha2_256_absorbed(state: sha2::Sha256) -> Seq<u8>;

/// The SHA-256 digest that the crate computes for a whole message.
pub uninterp spec fn sha2_256_digest(message: Seq<u8>) -> Seq<u8>;

/// Calls `Digest::new` for sha2 `Sha256`: a fresh state has absorbed nothing.
#[verifier::external_body]
pub(crate) fn sha2_256_new() -> (state: sha2::Sha256)
    ensures
        sha2_256_absorbed(state) == Seq::<u8>::empty(),
{
    <sha2::Sha256 as Digest>::new()
}

/// Calls `Digest::update` for sha2 `Sha256`: the state goes on to absorb `data` after what it held.
#[verifier::external_body]
pub(crate) fn sha2_256_update(state: &mut sha2::Sha256, data: &[u8])
    requires
        sha2_256_absorbed(*old(state)).len() + data@.len() < MESSAGE_LIMIT,
    ensures
        sha2_256_absorbed(*final(state)) == sha2_256_absorbed(*old(state)) + data@,
{
    Digest::update(state, data);
}

/// Calls `Digest::finalize` for sha2 `Sha256`: the result is the SHA-256 digest of the absorbed message,
/// 32 bytes long.
#[verifier::external_body]
pub(crate) fn sha2_256_finalize(state: sha2::Sha256) -> (digest: Vec<u8>)
    requires
        sha2_256_absorbed(state).len() < MESSAGE_LIMIT,
    ensures
        digest@ == sha2_256_digest(sha2_256_absorbed(state)),
        digest@.len() == 32,
{
    Digest::finalize(state).to_vec()
}

/// The hasher state of sha2 `Sha384`, opaque to Verus.
#[verifier::external_type_specification]
#[verifier::external_body]
pub struct ExSha2384State(sha2::Sha384);

/// The message that a SHA-384 state has absorbed so far, in order.
pub uninterp spec fn sha2_384_absorbed(state: sha2::Sha384) -> Seq<u8>;

/// The SHA-384 digest that the crate computes for a whole message.
pub uninterp spec fn sha2_384_digest(message: Seq<u8>) -> Seq<u8>;

/// Calls `Digest::new` for sha2 `Sha384`: a fresh state has absorbed nothing.
#[verifier::external_body]
pub(crate) fn sha2_384_new() -> (state: sha2::Sha384)
    ensures
        sha2_384_absorbed(state) == Seq::<u8>::empty(),
{
    <sha2::Sha384 as Digest>::new()
}

/// Calls `Digest::update` for sha2 `Sha384`: the state goes on to absorb `data` after what it held.
#[verifier::external_body]
pub(crate) fn sha2_384_update(state: &mut sha2::Sha384, data: &[u8])
    requires
        sha2_384_absorbed(*old(state)).len() + data@.len() < MESSAGE_LIMIT,
    ensures
        sha2_384_absorbed(*final(state)) == sha2_384_absorbed(*old(state)) + data@,
{
    Digest::update(state, data);
}

/// Calls `Digest::finalize` for sha2 `Sha384`: the result is the SHA-384 digest of the absorbed message,
/// 48 bytes long.
#[verifier::external_body]
pub(crate) fn sha2_384_finalize(state: sha2::Sha384) -> (digest: Vec<u8>)
    requires
        sha2_384_absorbed(state).len() < MESSAGE_LIMIT,
    ensures
        digest@ == sha2_384_digest(sha2_384_absorbed(state)),
        digest@.len() == 48,
{
    Digest::finalize(state).to_vec()
}

/// The hasher state of sha2 `Sha512`, opaque to Verus.
#[verifier::external_type_specification]
#[verifier::external_body]
pub struct ExSha2512State(sha2::Sha512);

/// The message that a SHA-512 state has absorbed so far, in order.
pub uninterp spec fn sha2_512_absorbed(state: sha2::Sha512) -> Seq<u8>;

/// The SHA-512 digest that the crate computes for a whole message.
pub uninterp spec fn sha2_512_digest(message: Seq<u8>) -> Seq<u8>;

/// Calls `Digest::new` for sha2 `Sha512`: a fresh state has absorbed nothing.
#[verifier::external_body]
pub(crate) fn sha2_512_new() -> (state: sha2::Sha512)
    ensures
        sha2_512_absorbed(state) == Seq::<u8>::empty(),
{
    <sha2::Sha512 as Digest>::new()
}

/// Calls `Digest::update` for sha2 `Sha512`: the state goes on to absorb `data` after what it held.
#[verifier::external_body]
pub(crate) fn sha2_512_update(state: &mut sha2::Sha512, data: &[u8])
    requires
        sha2_512_absorbed(*old(state)).len() + data@.len() < MESSAGE_LIMIT,
    ensures
        sha2_512_absorbed(*final(state)) == sha2_512_absorbed(*old(state)) + data@,
{
    Digest::update(state, data);
}

/// Calls `Digest::finalize` for sha2 `Sha512`: the result is the SHA-512 digest of the absorbed message,
/// 64 bytes long.
#[verifier::external_body]
pub(crate) fn sha2_512_finalize(state: sha2::Sha512) -> (digest: Vec<u8>)
    requires
        sha2_512_absorbed(state).len() < MESSAGE_LIMIT,
    ensures
        digest@ == sha2_512_digest(sha2_512_absorbed(state)),
        digest@.len() == 64,
{
    Digest::finalize(state).to_vec()
}

/// The hasher state of sha3 `Sha3_256`, opaque to Verus.
#[verifier::external_type_specification]
#[verifier::external_body]
pub struct ExSha3256State(sha3::Sha3_256);

/// The message that a SHA3-256 state has absorbed so far, in order.
pub uninterp spec fn sha3_256_absorbed(state: sha3::Sha3_256) -> Seq<u8>;

/// The SHA3-256 digest that the crate computes for a whole message.
pub uninterp spec fn sha3_256_digest(message: Seq<u8>) -> Seq<u8>;

/// Calls `Digest::new` for sha3 `Sha3_256`: a fresh state has absorbed nothing.
#[verifier::external_body]
pub(crate) fn sha3_256_new() -> (state: sha3::Sha3_256)
    ensures
        sha3_256_absorbed(state) == Seq::<u8>::empty(),
{
    <sha3::Sha3_256 as Digest>::new()
}

/// Calls `Digest::update` for sha3 `Sha3_256`: the state goes on to absorb `data` after what it held.
#[verifier::external_body]
pub(crate) fn sha3_256_update(state: &mut sha3::Sha3_256, data: &[u8])
    requires
        sha3_256_absorbed(*old(state)).len() + data@.len() < MESSAGE_LIMIT,
    ensures
        sha3_256_absorbed(*final(state)) == sha3_256_absorbed(*old(state)) + data@,
{
    Digest::update(state, data);
}

/// Calls `Digest::finalize` for sha3 `Sha3_256`: the result is the SHA3-256 digest of the absorbed message,
/// 32 bytes long.
#[verifier::external_body]
pub(crate) fn sha3_256_finalize(state: sha3::Sha3_256) -> (digest: Vec<u8>)
    requires
        sha3_256_absorbed(state).len() < MESSAGE_LIMIT,
    ensures
        digest@ == sha3_256_digest(sha3_256_absorbed(state)),
        digest@.len() == 32,
{
    Digest::finalize(state).to_vec()
}

/// The hasher state of sha3 `Sha3_384`, opaque to Verus.
#[verifier::external_type_specification]
#[verifier::external_body]
pub struct ExSha3384State(sha3::Sha3_384);

/// The message that a SHA3-384 state has absorbed so far, in order.
pub uninterp spec fn sha3_384_absorbed(state: sha3::Sha3_384) -> Seq<u8>;

/// The SHA3-384 digest that the crate computes for a whole message.
pub uninterp spec fn sha3_384_digest(message: Seq<u8>) -> Seq<u8>;

/// Calls `Digest::new` for sha3 `Sha3_384`: a fresh state has absorbed nothing.
#[verifier::external_body]
pub(crate) fn sha3_384_new() -> (state: sha3::Sha3_384)
    ensures
        sha3_384_absorbed(state) == Seq::<u8>::empty(),
{
    <sha3::Sha3_384 as Digest>::new()
}

/// Calls `Digest::update` for sha3 `Sha3_384`: the state goes on to absorb `data` after what it held.
#[verifier::external_body]
pub(crate) fn sha3_384_update(state: &mut sha3::Sha3_384, data: &[u8])
    requires
        sha3_384_absorbed(*old(state)).len() + data@.len() < MESSAGE_LIMIT,
    ensures
        sha3_384_absorbed(*final(state)) == sha3_384_absorbed(*old(state)) + data@,
{
    Digest::update(state, data);
}

/// Calls `Digest::finalize` for sha3 `Sha3_384`: the result is the SHA3-384 digest of the absorbed message,
/// 48 bytes long.
#[verifier::external_body]
pub(crate) fn sha3_384_finalize(state: sha3::Sha3_384) -> (digest: Vec<u8>)
    requires
        sha3_384_absorbed(state).len() < MESSAGE_LIMIT,
    ensures
        digest@ == sha3_384_digest(sha3_384_absorbed(state)),
        digest@.len() == 48,
{
    Digest::finalize(state).to_vec()
}

/// The hasher state of sha3 `Sha3_512`, opaque to Verus.
#[verifier::external_type_specification]
#[verifier::external_body]
pub struct ExSha3512State(sha3::Sha3_512);

/// The message that a SHA3-512 state has absorbed so far, in order.
pub uninterp spec fn sha3_512_absorbed(state: sha3::Sha3_512) -> Seq<u8>;

/// The SHA3-512 digest that the crate computes for a whole message.
pub uninterp spec fn sha3_512_digest(message: Seq<u8>) -> Seq<u8>;

/// Calls `Digest::new` for sha3 `Sha3_512`: a fresh state has absorbed nothing.
#[verifier::external_body]
pub(crate) fn sha3_512_new() -> (state: sha3::Sha3_512)
    ensures
        sha3_512_absorbed(state) == Seq::<u8>::empty(),
{
    <sha3::Sha3_512 as Digest>::new()
}

/// Calls `Digest::update` for sha3 `Sha3_512`: the state goes on to absorb `data` after what it held.
#[verifier::external_body]
pub(crate) fn sha3_512_update(state: &mut sha3::Sha3_512, data: &[u8])
    requires
        sha3_512_absorbed(*old(state)).len() + data@.len() < MESSAGE_LIMIT,
    ensures
        sha3_512_absorbed(*final(state)) == sha3_512_absorbed(*old(state)) + data@,
{
    Digest::update(state, data);
}

/// Calls `Digest::finalize` for sha3 `Sha3_512`: the result is the SHA3-512 digest of the absorbed message,
/// 64 bytes long.
#[verifier::external_body]
pub(crate) fn sha3_512_finalize(state: sha3::Sha3_512) -> (digest: Vec<u8>)
    requires
        sha3_512_absorbed(state).len() < MESSAGE_LIMIT,
    ensures
        digest@ == sha3_512_digest(sha3_512_absorbed(state)),
        digest@.len() == 64,
{
    Digest::finalize(state).to_vec()
}

/// The hasher state of blake3 `Hasher`, opaque to Verus.
#[verifier::external_type_specification]
#[verifier::external_body]
pub struct ExBlake3State(blake3::Hasher);

/// The message that a BLAKE3 state has absorbed so far, in order.
pub uninterp spec fn blake3_absorbed(state: blake3::Hasher) -> Seq<u8>;

/// The BLAKE3 digest that the crate computes for a whole message.
pub uninterp spec fn blake3_digest(message: Seq<u8>) -> Seq<u8>;

/// Calls `blake3::Hasher::new`: a fresh state has absorbed nothing.
#[verifier::external_body]
pub(crate) fn blake3_new() -> (state: blake3::Hasher)
    ensures
        blake3_absorbed(state) == Seq::<u8>::empty(),
{
    blake3::Hasher::new()
}

/// Calls `blake3::Hasher::update`: the state goes on to absorb `data` after what it held.
#[verifier::external_body]
pub(crate) fn blake3_update(state: &mut blake3::Hasher, data: &[u8])
    requires
        blake3_absorbed(*old(state)).len() + data@.len() < MESSAGE_LIMIT,
    ensures
        blake3_absorbed(*final(state)) == blake3_absorbed(*old(state)) + data@,
{
    state.update(data);
}

/// Calls `blake3::Hasher::finalize` followed by `Hash::as_bytes`: the result is the BLAKE3 digest of the absorbed message,
/// 32 bytes long.
#[verifier::external_body]
pub(crate) fn blake3_finalize(state: blake3::Hasher) -> (digest: Vec<u8>)
    requires
        blake3_absorbed(state).len() < MESSAGE_LIMIT,
    ensures
        digest@ == blake3_digest(blake3_absorbed(state)),
        digest@.len() == 32,
{
    state.finalize().as_bytes().to_vec()
}

} // verus!
