//! Incremental hashers, one per algorithm, and hashing of a message in chunks.
//!
//! Each hasher is viewed as the message it has absorbed so far; `finalize`
//! returns the digest of exactly that message, however it was split into
//! `update` calls.

use vstd::prelude::*;

use crate::primitives::MESSAGE_LIMIT;
use crate::primitives::{md5_absorbed, md5_digest, md5_new, md5_update, md5_finalize, sha1_absorbed, sha1_digest, sha1_new, sha1_update, sha1_finalize, sha2_256_absorbed, sha2_256_digest, sha2_256_new, sha2_256_update, sha2_256_finalize, sha2_384_absorbed, sha2_384_digest, sha2_384_new, sha2_384_update, sha2_384_finalize, sha2_512_absorbed, sha2_512_digest, sha2_512_new, sha2_512_update, sha2_512_finalize, sha3_256_absorbed, sha3_256_digest, sha3_256_new, sha3_256_update, sha3_256_finalize, sha3_384_absorbed, sha3_384_digest, sha3_384_new, sha3_384_update, sha3_384_finalize, sha3_512_absorbed, sha3_512_digest, sha3_512_new, sha3_512_update, sha3_512_finalize, blake3_absorbed, blake3_digest, blake3_new, blake3_update, blake3_finalize};

verus! {

/// A hash function fed incrementally: the view is the message absorbed so far.
pub trait StreamingHash: Sized + View<V = Seq<u8>> {
    /// The digest of a whole message under this hash function.
    spec fn digest_of(message: Seq<u8>) -> Seq<u8>;

    /// The length in bytes of every digest of this hash function.
    spec fn digest_len() -> nat;

    /// A hasher that has absorbed nothing.
    fn start() -> (hasher: Self)
        ensures
            hasher@ == Seq::<u8>::empty(),
    ;

    /// Absorbs `data` after everything absorbed so far.
    fn absorb(&mut self, data: &[u8])
        requires
            old(self)@.len() + data@.len() < MESSAGE_LIMIT,
        ensures
            final(self)@ == old(self)@ + data@,
    ;

    /// The digest of the absorbed message.
    fn digest(self) -> (digest: Vec<u8>)
        requires
            self@.len() < MESSAGE_LIMIT,
        ensures
            digest@ == Self::digest_of(self@),
            digest@.len() == Self::digest_len(),
    ;
}

/// Incremental MD5 hasher.
pub struct Md5Hasher {
    state: md5::Md5,
}

impl View for Md5Hasher {
    type V = Seq<u8>;

    closed spec fn view(&self) -> Seq<u8> {
        md5_absorbed(self.state)
    }
}

impl Md5Hasher {
    /// A MD5 hasher that has absorbed nothing.
    pub fn new() -> (hasher: Self)
        ensures
            hasher@ == Seq::<u8>::empty(),
    {
        Md5Hasher { state: md5_new() }
    }

    /// Absorbs `data` after everything absorbed so far.
    pub fn update(&mut self, data: &[u8])
        requires
            old(self)@.len() + data@.len() < MESSAGE_LIMIT,
        ensures
            final(self)@ == old(self)@ + data@,
    {
        md5_update(&mut self.state, data);
    }

    /// The MD5 digest of everything absorbed.
    pub fn finalize(self) -> (digest: Vec<u8>)
        requires
            self@.len() < MESSAGE_LIMIT,
        ensures
            digest@ == md5_digest(self@),
            digest@.len() == 16,
    {
        md5_finalize(self.state)
    }
}

impl StreamingHash for Md5Hasher {
    open spec fn digest_of(message: Seq<u8>) -> Seq<u8> {
        md5_digest(message)
    }

    open spec fn digest_len() -> nat {
        16
    }

    fn start() -> (hasher: Self) {
        Md5Hasher::new()
    }

    fn absorb(&mut self, data: &[u8]) {
        self.update(data);
    }

    fn digest(self) -> (digest: Vec<u8>) {
        self.finalize()
    }
}

/// Incremental SHA-1 hasher.
pub struct Sha1Hasher {
    state: sha1::Sha1,
}

impl View for Sha1Hasher {
    type V = Seq<u8>;

    closed spec fn view(&self) -> Seq<u8> {
        sha1_absorbed(self.state)
    }
}

impl Sha1Hasher {
    /// A SHA-1 hasher that has absorbed nothing.
    pub fn new() -> (hasher: Self)
        ensures
            hasher@ == Seq::<u8>::empty(),
    {
        Sha1Hasher { state: sha1_new() }
    }

    /// Absorbs `data` after everything absorbed so far.
    pub fn update(&mut self, data: &[u8])
        requires
            old(self)@.len() + data@.len() < MESSAGE_LIMIT,
        ensures
            final(self)@ == old(self)@ + data@,
    {
        sha1_update(&mut self.state, data);
    }

    /// The SHA-1 digest of everything absorbed.
    pub fn finalize(self) -> (digest: Vec<u8>)
        requires
            self@.len() < MESSAGE_LIMIT,
        ensures
            digest@ == sha1_digest(self@),
            digest@.len() == 20,
    {
        sha1_finalize(self.state)
    }
}

impl StreamingHash for Sha1Hasher {
    open spec fn digest_of(message: Seq<u8>) -> Seq<u8> {
        sha1_digest(message)
    }

    open spec fn digest_len() -> nat {
        20
    }

    fn start() -> (hasher: Self) {
        Sha1Hasher::new()
    }

    fn absorb(&mut self, data: &[u8]) {
        self.update(data);
    }

    fn digest(self) -> (digest: Vec<u8>) {
        self.finalize()
    }
}

/// Incremental SHA-256 hasher.
pub struct Sha2_256 {
    state: sha2::Sha256,
}

impl View for Sha2_256 {
    type V = Seq<u8>;

    closed spec fn view(&self) -> Seq<u8> {
        sha2_256_absorbed(self.state)
    }
}

impl Sha2_256 {
    /// A SHA-256 hasher that has absorbed nothing.
    pub fn new() -> (hasher: Self)
        ensures
            hasher@ == Seq::<u8>::empty(),
    {
        Sha2_256 { state: sha2_256_new() }
    }

    /// Absorbs `data` after everything absorbed so far.
    pub fn update(&mut self, data: &[u8])
        requires
            old(self)@.len() + data@.len() < MESSAGE_LIMIT,
        ensures
            final(self)@ == old(self)@ + data@,
    {
        sha2_256_update(&mut self.state, data);
    }

    /// The SHA-256 digest of everything absorbed.
    pub fn finalize(self) -> (digest: Vec<u8>)
        requires
            self@.len() < MESSAGE_LIMIT,
        ensures
            digest@ == sha2_256_digest(self@),
            digest@.len() == 32,
    {
        sha2_256_finalize(self.state)
    }
}

impl StreamingHash for Sha2_256 {
    open spec fn digest_of(message: Seq<u8>) -> Seq<u8> {
        sha2_256_digest(message)
    }

    open spec fn digest_len() -> nat {
        32
    }

    fn start() -> (hasher: Self) {
        Sha2_256::new()
    }

    fn absorb(&mut self, data: &[u8]) {
        self.update(data);
    }

    fn digest(self) -> (digest: Vec<u8>) {
        self.finalize()
    }
}

/// Incremental SHA-384 hasher.
pub struct Sha2_384 {
    state: sha2::Sha384,
}

impl View for Sha2_384 {
    type V = Seq<u8>;

    closed spec fn view(&self) -> Seq<u8> {
        sha2_384_absorbed(self.state)
    }
}

impl Sha2_384 {
    /// A SHA-384 hasher that has absorbed nothing.
    pub fn new() -> (hasher: Self)
        ensures
            hasher@ == Seq::<u8>::empty(),
    {
        Sha2_384 { state: sha2_384_new() }
    }

    /// Absorbs `data` after everything absorbed so far.
    pub fn update(&mut self, data: &[u8])
        requires
            old(self)@.len() + data@.len() < MESSAGE_LIMIT,
        ensures
            final(self)@ == old(self)@ + data@,
    {
        sha2_384_update(&mut self.state, data);
    }

    /// The SHA-384 digest of everything absorbed.
    pub fn finalize(self) -> (digest: Vec<u8>)
        requires
            self@.len() < MESSAGE_LIMIT,
        ensures
            digest@ == sha2_384_digest(self@),
            digest@.len() == 48,
    {
        sha2_384_finalize(self.state)
    }
}

impl StreamingHash for Sha2_384 {
    open spec fn digest_of(message: Seq<u8>) -> Seq<u8> {
        sha2_384_digest(message)
    }

    open spec fn digest_len() -> nat {
        48
    }

    fn start() -> (hasher: Self) {
        Sha2_384::new()
    }

    fn absorb(&mut self, data: &[u8]) {
        self.update(data);
    }

    fn digest(self) -> (digest: Vec<u8>) {
        self.finalize()
    }
}

/// Incremental SHA-512 hasher.
pub struct Sha2_512 {
    state: sha2::Sha512,
}

impl View for Sha2_512 {
    type V = Seq<u8>;

    closed spec fn view(&self) -> Seq<u8> {
        sha2_512_absorbed(self.state)
    }
}

impl Sha2_512 {
    /// A SHA-512 hasher that has absorbed nothing.
    pub fn new() -> (hasher: Self)
        ensures
            hasher@ == Seq::<u8>::empty(),
    {
        Sha2_512 { state: sha2_512_new() }
    }

    /// Absorbs `data` after everything absorbed so far.
    pub fn update(&mut self, data: &[u8])
        requires
            old(self)@.len() + data@.len() < MESSAGE_LIMIT,
        ensures
            final(self)@ == old(self)@ + data@,
    {
        sha2_512_update(&mut self.state, data);
    }

    /// The SHA-512 digest of everything absorbed.
    pub fn finalize(self) -> (digest: Vec<u8>)
        requires
            self@.len() < MESSAGE_LIMIT,
        ensures
            digest@ == sha2_512_digest(self@),
            digest@.len() == 64,
    {
        sha2_512_finalize(self.state)
    }
}

impl StreamingHash for Sha2_512 {
    open spec fn digest_of(message: Seq<u8>) -> Seq<u8> {
        sha2_512_digest(message)
    }

    open spec fn digest_len() -> nat {
        64
    }

    fn start() -> (hasher: Self) {
        Sha2_512::new()
    }

    fn absorb(&mut self, data: &[u8]) {
        self.update(data);
    }

    fn digest(self) -> (digest: Vec<u8>) {
        self.finalize()
    }
}

/// Incremental SHA3-256 hasher.
pub struct Sha3_256Hasher {
    state: sha3::Sha3_256,
}

impl View for Sha3_256Hasher {
    type V = Seq<u8>;

    closed spec fn view(&self) -> Seq<u8> {
        sha3_256_absorbed(self.state)
    }
}

impl Sha3_256Hasher {
    /// A SHA3-256 hasher that has absorbed nothing.
    pub fn new() -> (hasher: Self)
        ensures
            hasher@ == Seq::<u8>::empty(),
    {
        Sha3_256Hasher { state: sha3_256_new() }
    }

    /// Absorbs `data` after everything absorbed so far.
    pub fn update(&mut self, data: &[u8])
        requires
            old(self)@.len() + data@.len() < MESSAGE_LIMIT,
        ensures
            final(self)@ == old(self)@ + data@,
    {
        sha3_256_update(&mut self.state, data);
    }

    /// The SHA3-256 digest of everything absorbed.
    pub fn finalize(self) -> (digest: Vec<u8>)
        requires
            self@.len() < MESSAGE_LIMIT,
        ensures
            digest@ == sha3_256_digest(self@),
            digest@.len() == 32,
    {
        sha3_256_finalize(self.state)
    }
}

impl StreamingHash for Sha3_256Hasher {
    open spec fn digest_of(message: Seq<u8>) -> Seq<u8> {
        sha3_256_digest(message)
    }

    open spec fn digest_len() -> nat {
        32
    }

    fn start() -> (hasher: Self) {
        Sha3_256Hasher::new()
    }

    fn absorb(&mut self, data: &[u8]) {
        self.update(data);
    }

    fn digest(self) -> (digest: Vec<u8>) {
        self.finalize()
    }
}

/// Incremental SHA3-384 hasher.
pub struct Sha3_384Hasher {
    state: sha3::Sha3_384,
}

impl View for Sha3_384Hasher {
    type V = Seq<u8>;

    closed spec fn view(&self) -> Seq<u8> {
        sha3_384_absorbed(self.state)
    }
}

impl Sha3_384Hasher {
    /// A SHA3-384 hasher that has absorbed nothing.
    pub fn new() -> (hasher: Self)
        ensures
            hasher@ == Seq::<u8>::empty(),
    {
        Sha3_384Hasher { state: sha3_384_new() }
    }

    /// Absorbs `data` after everything absorbed so far.
    pub fn update(&mut self, data: &[u8])
        requires
            old(self)@.len() + data@.len() < MESSAGE_LIMIT,
        ensures
            final(self)@ == old(self)@ + data@,
    {
        sha3_384_update(&mut self.state, data);
    }

    /// The SHA3-384 digest of everything absorbed.
    pub fn finalize(self) -> (digest: Vec<u8>)
        requires
            self@.len() < MESSAGE_LIMIT,
        ensures
            digest@ == sha3_384_digest(self@),
            digest@.len() == 48,
    {
        sha3_384_finalize(self.state)
    }
}

impl StreamingHash for Sha3_384Hasher {
    open spec fn digest_of(message: Seq<u8>) -> Seq<u8> {
        sha3_384_digest(message)
    }

    open spec fn digest_len() -> nat {
        48
    }

    fn start() -> (hasher: Self) {
        Sha3_384Hasher::new()
    }

    fn absorb(&mut self, data: &[u8]) {
        self.update(data);
    }

    fn digest(self) -> (digest: Vec<u8>) {
        self.finalize()
    }
}

/// Incremental SHA3-512 hasher.
pub struct Sha3_512Hasher {
    state: sha3::Sha3_512,
}

impl View for Sha3_512Hasher {
    type V = Seq<u8>;

    closed spec fn view(&self) -> Seq<u8> {
        sha3_512_absorbed(self.state)
    }
}

impl Sha3_512Hasher {
    /// A SHA3-512 hasher that has absorbed nothing.
    pub fn new() -> (hasher: Self)
        ensures
            hasher@ == Seq::<u8>::empty(),
    {
        Sha3_512Hasher { state: sha3_512_new() }
    }

    /// Absorbs `data` after everything absorbed so far.
    pub fn update(&mut self, data: &[u8])
        requires
            old(self)@.len() + data@.len() < MESSAGE_LIMIT,
        ensures
            final(self)@ == old(self)@ + data@,
    {
        sha3_512_update(&mut self.state, data);
    }

    /// The SHA3-512 digest of everything absorbed.
    pub fn finalize(self) -> (digest: Vec<u8>)
        requires
            self@.len() < MESSAGE_LIMIT,
        ensures
            digest@ == sha3_512_digest(self@),
            digest@.len() == 64,
    {
        sha3_512_finalize(self.state)
    }
}

impl StreamingHash for Sha3_512Hasher {
    open spec fn digest_of(message: Seq<u8>) -> Seq<u8> {
        sha3_512_digest(message)
    }

    open spec fn digest_len() -> nat {
        64
    }

    fn start() -> (hasher: Self) {
        Sha3_512Hasher::new()
    }

    fn absorb(&mut self, data: &[u8]) {
        self.update(data);
    }

    fn digest(self) -> (digest: Vec<u8>) {
        self.finalize()
    }
}

/// Incremental BLAKE3 hasher.
pub struct Blake3 {
    state: blake3::Hasher,
}

impl View for Blake3 {
    type V = Seq<u8>;

    closed spec fn view(&self) -> Seq<u8> {
        blake3_absorbed(self.state)
    }
}

impl Blake3 {
    /// A BLAKE3 hasher that has absorbed nothing.
    pub fn new() -> (hasher: Self)
        ensures
            hasher@ == Seq::<u8>::empty(),
    {
        Blake3 { state: blake3_new() }
    }

    /// Absorbs `data` after everything absorbed so far.
    pub fn update(&mut self, data: &[u8])
        requires
            old(self)@.len() + data@.len() < MESSAGE_LIMIT,
        ensures
            final(self)@ == old(self)@ + data@,
    {
        blake3_update(&mut self.state, data);
    }

    /// The BLAKE3 digest of everything absorbed.
    pub fn finalize(self) -> (digest: Vec<u8>)
        requires
            self@.len() < MESSAGE_LIMIT,
        ensures
            digest@ == blake3_digest(self@),
            digest@.len() == 32,
    {
        blake3_finalize(self.state)
    }
}

impl StreamingHash for Blake3 {
    open spec fn digest_of(message: Seq<u8>) -> Seq<u8> {
        blake3_digest(message)
    }

    open spec fn digest_len() -> nat {
        32
    }

    fn start() -> (hasher: Self) {
        Blake3::new()
    }

    fn absorb(&mut self, data: &[u8]) {
        self.update(data);
    }

    fn digest(self) -> (digest: Vec<u8>) {
        self.finalize()
    }
}

/// Hashes `data` by feeding it to a fresh hasher in consecutive chunks of
/// `chunk_size` bytes (the last chunk may be shorter). The result is the digest
/// of the whole of `data`, whatever the chunk size.
pub fn hash_in_chunks<H: StreamingHash>(data: &[u8], chunk_size: usize) -> (digest: Vec<u8>)
    requires
        chunk_size > 0,
        data@.len() < MESSAGE_LIMIT,
    ensures
        digest@ == H::digest_of(data@),
        digest@.len() == H::digest_len(),
{
    let mut hasher = H::start();
    let len = data.len();
    let mut start: usize = 0;
    while start < len
        invariant
            len == data@.len(),
            len < MESSAGE_LIMIT,
            chunk_size > 0,
            start <= len,
            hasher@ == data@.subrange(0, start as int),
        decreases len - start,
    {
        let end = if len - start > chunk_size {
            start + chunk_size
        } else {
            len
        };
        let chunk = &data[start..end];
        hasher.absorb(chunk);
        assert(data@.subrange(0, start as int) + data@.subrange(start as int, end as int)
            == data@.subrange(0, end as int));
        start = end;
    }
    assert(data@.subrange(0, len as int) == data@);
    hasher.digest()
}

} // verus!

verus! {

/// The hash functions that the benchmarks measure.
#[derive(Clone, Copy, Debug, PartialEq, Eq, Structural)]
pub enum Algorithm {
    Md5,
    Sha1,
    Sha2_256,
    Sha2_384,
    Sha2_512,
    Sha3_256,
    Sha3_384,
    Sha3_512,
    Blake3,
}

impl Algorithm {
    /// The digest of `message` under this algorithm.
    pub open spec fn digest_spec(self, message: Seq<u8>) -> Seq<u8> {
        match self {
            Algorithm::Md5 => md5_digest(message),
            Algorithm::Sha1 => sha1_digest(message),
            Algorithm::Sha2_256 => sha2_256_digest(message),
            Algorithm::Sha2_384 => sha2_384_digest(message),
            Algorithm::Sha2_512 => sha2_512_digest(message),
            Algorithm::Sha3_256 => sha3_256_digest(message),
            Algorithm::Sha3_384 => sha3_384_digest(message),
            Algorithm::Sha3_512 => sha3_512_digest(message),
            Algorithm::Blake3 => blake3_digest(message),
        }
    }

    /// The length in bytes of this algorithm's digests.
    pub open spec fn digest_len_spec(self) -> nat {
        match self {
            Algorithm::Md5 => 16,
            Algorithm::Sha1 => 20,
            Algorithm::Sha2_256 | Algorithm::Sha3_256 | Algorithm::Blake3 => 32,
            Algorithm::Sha2_384 | Algorithm::Sha3_384 => 48,
            Algorithm::Sha2_512 | Algorithm::Sha3_512 => 64,
        }
    }

    /// The name under which the native benchmark reports this algorithm.
    pub open spec fn bench_name_spec(self) -> Seq<char> {
        match self {
            Algorithm::Md5 => "md5"@,
            Algorithm::Sha1 => "sha1"@,
            Algorithm::Sha2_256 => "sha2_256"@,
            Algorithm::Sha2_384 => "sha2_384"@,
            Algorithm::Sha2_512 => "sha2_512"@,
            Algorithm::Sha3_256 => "sha3_256"@,
            Algorithm::Sha3_384 => "sha3_384"@,
            Algorithm::Sha3_512 => "sha3_512"@,
            Algorithm::Blake3 => "blake3"@,
        }
    }

    /// The name under which the native benchmark reports this algorithm.
    pub fn bench_name(&self) -> (name: &'static str)
        ensures
            name@ == self.bench_name_spec(),
    {
        match self {
            Algorithm::Md5 => "md5",
            Algorithm::Sha1 => "sha1",
            Algorithm::Sha2_256 => "sha2_256",
            Algorithm::Sha2_384 => "sha2_384",
            Algorithm::Sha2_512 => "sha2_512",
            Algorithm::Sha3_256 => "sha3_256",
            Algorithm::Sha3_384 => "sha3_384",
            Algorithm::Sha3_512 => "sha3_512",
            Algorithm::Blake3 => "blake3",
        }
    }
}

} // verus!
