//! The native benchmark: its arguments, the hashing it times, and the names
//! and CSV text of its result files.

use vstd::prelude::*;

use crate::hashers::{Algorithm, Blake3, Md5Hasher, Sha1Hasher, Sha2_256, Sha2_384, Sha2_512};
use crate::hashers::{Sha3_256Hasher, Sha3_384Hasher, Sha3_512Hasher};
use crate::hashers::hash_in_chunks;
use crate::primitives::MESSAGE_LIMIT;
use crate::primitives::{md5_digest, sha1_digest, sha2_256_digest, sha2_384_digest};
use crate::primitives::{sha2_512_digest, sha3_256_digest, sha3_384_digest, sha3_512_digest};
use crate::primitives::blake3_digest;
use crate::text::{decimal, digits_value, lemma_decimal_is_digits, push_decimal};

verus! {

/// A filesystem path, carried through opaquely.
#[verifier::external_type_specification]
#[verifier::external_body]
pub struct ExPathBuf(std::path::PathBuf);

/// Command line of the native benchmark.
pub struct CliArgs {
    pub testing: TestingArgs,
    pub cmd: HashArg,
}

/// How a benchmark run is carried out and reported.
pub struct TestingArgs {
    /// Untimed iterations run before the measured ones.
    pub warmup: usize,
    /// Measured iterations.
    pub iterations: usize,
    /// File or directory for the results; none for no result file.
    pub output: Option<std::path::PathBuf>,
    /// Size of the chunks the input is hashed in.
    pub chunk_size: usize,
    /// Seconds the power driver asks the benchmark to stay busy for.
    pub busy: Option<u64>,
    /// Suppress progress output.
    pub quiet: bool,
}

/// Where the bytes to hash come from.
pub enum InputArg {
    /// `total_chunks` chunks of pseudo-random bytes from `seed` (or a random seed).
    Rand { seed: Option<u64>, total_chunks: usize },
    /// The contents of a file.
    File { path: std::path::PathBuf },
}

/// The hash function to benchmark, with its input.
pub enum HashArg {
    Md5 { input: InputArg },
    Sha1 { input: InputArg },
    Sha2_256 { input: InputArg },
    Sha2_384 { input: InputArg },
    Sha2_512 { input: InputArg },
    Sha3_256 { input: InputArg },
    Sha3_384 { input: InputArg },
    Sha3_512 { input: InputArg },
    Blake3 { input: InputArg },
}

impl HashArg {
    /// The algorithm a command selects.
    pub open spec fn algorithm_spec(&self) -> Algorithm {
        match self {
            HashArg::Md5 { .. } => Algorithm::Md5,
            HashArg::Sha1 { .. } => Algorithm::Sha1,
            HashArg::Sha2_256 { .. } => Algorithm::Sha2_256,
            HashArg::Sha2_384 { .. } => Algorithm::Sha2_384,
            HashArg::Sha2_512 { .. } => Algorithm::Sha2_512,
            HashArg::Sha3_256 { .. } => Algorithm::Sha3_256,
            HashArg::Sha3_384 { .. } => Algorithm::Sha3_384,
            HashArg::Sha3_512 { .. } => Algorithm::Sha3_512,
            HashArg::Blake3 { .. } => Algorithm::Blake3,
        }
    }

    /// The input a command names.
    pub open spec fn input_spec(&self) -> &InputArg {
        match self {
            HashArg::Md5 { input } => input,
            HashArg::Sha1 { input } => input,
            HashArg::Sha2_256 { input } => input,
            HashArg::Sha2_384 { input } => input,
            HashArg::Sha2_512 { input } => input,
            HashArg::Sha3_256 { input } => input,
            HashArg::Sha3_384 { input } => input,
            HashArg::Sha3_512 { input } => input,
            HashArg::Blake3 { input } => input,
        }
    }

    /// The algorithm this command selects.
    pub fn algorithm(&self) -> (algorithm: Algorithm)
        ensures
            algorithm == self.algorithm_spec(),
            self is Md5 ==> algorithm == Algorithm::Md5,
            self is Sha1 ==> algorithm == Algorithm::Sha1,
            self is Sha2_256 ==> algorithm == Algorithm::Sha2_256,
            self is Sha2_384 ==> algorithm == Algorithm::Sha2_384,
            self is Sha2_512 ==> algorithm == Algorithm::Sha2_512,
            self is Sha3_256 ==> algorithm == Algorithm::Sha3_256,
            self is Sha3_384 ==> algorithm == Algorithm::Sha3_384,
            self is Sha3_512 ==> algorithm == Algorithm::Sha3_512,
            self is Blake3 ==> algorithm == Algorithm::Blake3,
    {
        match self {
            HashArg::Md5 { .. } => Algorithm::Md5,
            HashArg::Sha1 { .. } => Algorithm::Sha1,
            HashArg::Sha2_256 { .. } => Algorithm::Sha2_256,
            HashArg::Sha2_384 { .. } => Algorithm::Sha2_384,
            HashArg::Sha2_512 { .. } => Algorithm::Sha2_512,
            HashArg::Sha3_256 { .. } => Algorithm::Sha3_256,
            HashArg::Sha3_384 { .. } => Algorithm::Sha3_384,
            HashArg::Sha3_512 { .. } => Algorithm::Sha3_512,
            HashArg::Blake3 { .. } => Algorithm::Blake3,
        }
    }

    /// The input this command names.
    pub fn input(&self) -> (input: &InputArg)
        ensures
            input == self.input_spec(),
    {
        match self {
            HashArg::Md5 { input } => input,
            HashArg::Sha1 { input } => input,
            HashArg::Sha2_256 { input } => input,
            HashArg::Sha2_384 { input } => input,
            HashArg::Sha2_512 { input } => input,
            HashArg::Sha3_256 { input } => input,
            HashArg::Sha3_384 { input } => input,
            HashArg::Sha3_512 { input } => input,
            HashArg::Blake3 { input } => input,
        }
    }
}

/// MD5 of `data`, fed to the hasher in chunks of `chunk_size` bytes.
pub fn run_md5(data: &[u8], chunk_size: usize) -> (digest: Vec<u8>)
    requires
        chunk_size > 0,
        data@.len() < MESSAGE_LIMIT,
    ensures
        digest@ == md5_digest(data@),
        digest@.len() == 16,
{
    hash_in_chunks::<Md5Hasher>(data, chunk_size)
}

/// SHA-1 of `data`, fed to the hasher in chunks of `chunk_size` bytes.
pub fn run_sha1(data: &[u8], chunk_size: usize) -> (digest: Vec<u8>)
    requires
        chunk_size > 0,
        data@.len() < MESSAGE_LIMIT,
    ensures
        digest@ == sha1_digest(data@),
        digest@.len() == 20,
{
    hash_in_chunks::<Sha1Hasher>(data, chunk_size)
}

/// SHA-256 of `data`, fed to the hasher in chunks of `chunk_size` bytes.
pub fn run_sha2_256(data: &[u8], chunk_size: usize) -> (digest: Vec<u8>)
    requires
        chunk_size > 0,
        data@.len() < MESSAGE_LIMIT,
    ensures
        digest@ == sha2_256_digest(data@),
        digest@.len() == 32,
{
    hash_in_chunks::<Sha2_256>(data, chunk_size)
}

/// SHA-384 of `data`, fed to the hasher in chunks of `chunk_size` bytes.
pub fn run_sha2_384(data: &[u8], chunk_size: usize) -> (digest: Vec<u8>)
    requires
        chunk_size > 0,
        data@.len() < MESSAGE_LIMIT,
    ensures
        digest@ == sha2_384_digest(data@),
        digest@.len() == 48,
{
    hash_in_chunks::<Sha2_384>(data, chunk_size)
}

/// SHA-512 of `data`, fed to the hasher in chunks of `chunk_size` bytes.
pub fn run_sha2_512(data: &[u8], chunk_size: usize) -> (digest: Vec<u8>)
    requires
        chunk_size > 0,
        data@.len() < MESSAGE_LIMIT,
    ensures
        digest@ == sha2_512_digest(data@),
        digest@.len() == 64,
{
    hash_in_chunks::<Sha2_512>(data, chunk_size)
}

/// SHA3-256 of `data`, fed to the hasher in chunks of `chunk_size` bytes.
pub fn run_sha3_256(data: &[u8], chunk_size: usize) -> (digest: Vec<u8>)
    requires
        chunk_size > 0,
        data@.len() < MESSAGE_LIMIT,
    ensures
        digest@ == sha3_256_digest(data@),
        digest@.len() == 32,
{
    hash_in_chunks::<Sha3_256Hasher>(data, chunk_size)
}

/// SHA3-384 of `data`, fed to the hasher in chunks of `chunk_size` bytes.
pub fn run_sha3_384(data: &[u8], chunk_size: usize) -> (digest: Vec<u8>)
    requires
        chunk_size > 0,
        data@.len() < MESSAGE_LIMIT,
    ensures
        digest@ == sha3_384_digest(data@),
        digest@.len() == 48,
{
    hash_in_chunks::<Sha3_384Hasher>(data, chunk_size)
}

/// SHA3-512 of `data`, fed to the hasher in chunks of `chunk_size` bytes.
pub fn run_sha3_512(data: &[u8], chunk_size: usize) -> (digest: Vec<u8>)
    requires
        chunk_size > 0,
        data@.len() < MESSAGE_LIMIT,
    ensures
        digest@ == sha3_512_digest(data@),
        digest@.len() == 64,
{
    hash_in_chunks::<Sha3_512Hasher>(data, chunk_size)
}

/// BLAKE3 of `data`, fed to the hasher in chunks of `chunk_size` bytes.
pub fn run_blake3(data: &[u8], chunk_size: usize) -> (digest: Vec<u8>)
    requires
        chunk_size > 0,
        data@.len() < MESSAGE_LIMIT,
    ensures
        digest@ == blake3_digest(data@),
        digest@.len() == 32,
{
    hash_in_chunks::<Blake3>(data, chunk_size)
}

/// Runs the hash that `cmd` selects over `data` in chunks of `chunk_size`
/// bytes, and returns the digest.
pub fn run_hash(cmd: &HashArg, data: &[u8], chunk_size: usize) -> (digest: Vec<u8>)
    requires
        chunk_size > 0,
        data@.len() < MESSAGE_LIMIT,
    ensures
        digest@ == cmd.algorithm_spec().digest_spec(data@),
        digest@.len() == cmd.algorithm_spec().digest_len_spec(),
        cmd is Md5 ==> digest@ == md5_digest(data@) && digest@.len() == 16,
        cmd is Sha1 ==> digest@ == sha1_digest(data@) && digest@.len() == 20,
        cmd is Sha2_256 ==> digest@ == sha2_256_digest(data@) && digest@.len() == 32,
        cmd is Sha2_384 ==> digest@ == sha2_384_digest(data@) && digest@.len() == 48,
        cmd is Sha2_512 ==> digest@ == sha2_512_digest(data@) && digest@.len() == 64,
        cmd is Sha3_256 ==> digest@ == sha3_256_digest(data@) && digest@.len() == 32,
        cmd is Sha3_384 ==> digest@ == sha3_384_digest(data@) && digest@.len() == 48,
        cmd is Sha3_512 ==> digest@ == sha3_512_digest(data@) && digest@.len() == 64,
        cmd is Blake3 ==> digest@ == blake3_digest(data@) && digest@.len() == 32,
{
    match cmd {
        HashArg::Md5 { .. } => run_md5(data, chunk_size),
        HashArg::Sha1 { .. } => run_sha1(data, chunk_size),
        HashArg::Sha2_256 { .. } => run_sha2_256(data, chunk_size),
        HashArg::Sha2_384 { .. } => run_sha2_384(data, chunk_size),
        HashArg::Sha2_512 { .. } => run_sha2_512(data, chunk_size),
        HashArg::Sha3_256 { .. } => run_sha3_256(data, chunk_size),
        HashArg::Sha3_384 { .. } => run_sha3_384(data, chunk_size),
        HashArg::Sha3_512 { .. } => run_sha3_512(data, chunk_size),
        HashArg::Blake3 { .. } => run_blake3(data, chunk_size),
    }
}

/// The name of a result file placed in an output directory:
/// `native_{name}_{time}.{extension}`.
pub open spec fn timestamped_file_name_spec(name: Seq<char>, time: nat, extension: Seq<char>) -> Seq<char> {
    "native_"@ + name + "_"@ + decimal(time) + "."@ + extension
}

/// The name of a result file placed in an output directory:
/// `native_{name}_{time}_{count}.csv`, where `count` tells apart runs
/// started in the same second.
pub open spec fn numbered_file_name_spec(name: Seq<char>, time: nat, count: nat) -> Seq<char> {
    "native_"@ + name + "_"@ + decimal(time) + "_"@ + decimal(count) + ".csv"@
}

/// `native_{name}_{time}.{extension}`: the result file of a run of `name`
/// started at `time` (seconds since the Unix epoch).
pub fn timestamped_file_name(name: &str, time: u64, extension: &str) -> (file_name: String)
    ensures
        file_name@ == timestamped_file_name_spec(name@, time as nat, extension@),
{
    let mut file_name = String::new();
    file_name.append("native_");
    file_name.append(name);
    file_name.append("_");
    push_decimal(&mut file_name, time);
    file_name.append(".");
    file_name.append(extension);
    file_name
}

/// `native_{name}_{time}_{count}.csv`: the `count`-th candidate name for the
/// result file of a run of `name` started at `time`.
pub fn numbered_file_name(name: &str, time: u64, count: usize) -> (file_name: String)
    ensures
        file_name@ == numbered_file_name_spec(name@, time as nat, count as nat),
{
    let mut file_name = String::new();
    file_name.append("native_");
    file_name.append(name);
    file_name.append("_");
    push_decimal(&mut file_name, time);
    file_name.append("_");
    push_decimal(&mut file_name, count as u64);
    file_name.append(".csv");
    file_name
}

/// The first lines of a CSV result file: the column names, the run's
/// parameters, and the heading of the timing column.
pub open spec fn csv_preamble_spec(
    name: Seq<char>,
    bytes: nat,
    chunk_size: nat,
    iterations: nat,
    warmup: nat,
) -> Seq<char> {
    "env,hash,bytes,chunk_size,iterations,warmup\n"@ + "native,"@ + name + ","@ + decimal(bytes) + ","@
        + decimal(chunk_size) + ","@ + decimal(iterations) + ","@ + decimal(warmup) + "\n"@
        + "times\n"@
}

/// The header of a CSV result file, up to the first timing line.
pub fn csv_preamble(
    name: &str,
    bytes: usize,
    chunk_size: usize,
    iterations: usize,
    warmup: usize,
) -> (text: String)
    ensures
        text@ == csv_preamble_spec(
            name@,
            bytes as nat,
            chunk_size as nat,
            iterations as nat,
            warmup as nat,
        ),
{
    let mut text = String::new();
    text.append("env,hash,bytes,chunk_size,iterations,warmup\n");
    text.append("native,");
    text.append(name);
    text.append(",");
    push_decimal(&mut text, bytes as u64);
    text.append(",");
    push_decimal(&mut text, chunk_size as u64);
    text.append(",");
    push_decimal(&mut text, iterations as u64);
    text.append(",");
    push_decimal(&mut text, warmup as u64);
    text.append("\n");
    text.append("times\n");
    text
}

/// Every command selects the hash function of its own name: the `sha2-384`
/// command hashes with SHA-384 into 48 bytes and reports itself as
/// `sha2_384`, and likewise for each of the nine commands, whatever input
/// the command names and whatever message is hashed.
pub proof fn lemma_command_selects_its_algorithm(input: InputArg, message: Seq<u8>)
    ensures
        (HashArg::Md5 { input }).algorithm_spec() == Algorithm::Md5,
        Algorithm::Md5.digest_spec(message) == md5_digest(message),
        Algorithm::Md5.digest_len_spec() == 16,
        Algorithm::Md5.bench_name_spec() == "md5"@,
        (HashArg::Sha1 { input }).algorithm_spec() == Algorithm::Sha1,
        Algorithm::Sha1.digest_spec(message) == sha1_digest(message),
        Algorithm::Sha1.digest_len_spec() == 20,
        Algorithm::Sha1.bench_name_spec() == "sha1"@,
        (HashArg::Sha2_256 { input }).algorithm_spec() == Algorithm::Sha2_256,
        Algorithm::Sha2_256.digest_spec(message) == sha2_256_digest(message),
        Algorithm::Sha2_256.digest_len_spec() == 32,
        Algorithm::Sha2_256.bench_name_spec() == "sha2_256"@,
        (HashArg::Sha2_384 { input }).algorithm_spec() == Algorithm::Sha2_384,
        Algorithm::Sha2_384.digest_spec(message) == sha2_384_digest(message),
        Algorithm::Sha2_384.digest_len_spec() == 48,
        Algorithm::Sha2_384.bench_name_spec() == "sha2_384"@,
        (HashArg::Sha2_512 { input }).algorithm_spec() == Algorithm::Sha2_512,
        Algorithm::Sha2_512.digest_spec(message) == sha2_512_digest(message),
        Algorithm::Sha2_512.digest_len_spec() == 64,
        Algorithm::Sha2_512.bench_name_spec() == "sha2_512"@,
        (HashArg::Sha3_256 { input }).algorithm_spec() == Algorithm::Sha3_256,
        Algorithm::Sha3_256.digest_spec(message) == sha3_256_digest(message),
        Algorithm::Sha3_256.digest_len_spec() == 32,
        Algorithm::Sha3_256.bench_name_spec() == "sha3_256"@,
        (HashArg::Sha3_384 { input }).algorithm_spec() == Algorithm::Sha3_384,
        Algorithm::Sha3_384.digest_spec(message) == sha3_384_digest(message),
        Algorithm::Sha3_384.digest_len_spec() == 48,
        Algorithm::Sha3_384.bench_name_spec() == "sha3_384"@,
        (HashArg::Sha3_512 { input }).algorithm_spec() == Algorithm::Sha3_512,
        Algorithm::Sha3_512.digest_spec(message) == sha3_512_digest(message),
        Algorithm::Sha3_512.digest_len_spec() == 64,
        Algorithm::Sha3_512.bench_name_spec() == "sha3_512"@,
        (HashArg::Blake3 { input }).algorithm_spec() == Algorithm::Blake3,
        Algorithm::Blake3.digest_spec(message) == blake3_digest(message),
        Algorithm::Blake3.digest_len_spec() == 32,
        Algorithm::Blake3.bench_name_spec() == "blake3"@,
{
}

/// What a timing run does next: time one more iteration (keeping the time
/// once the warm-up is over), or stop.
#[derive(Clone, Copy, Debug, PartialEq, Eq, Structural)]
pub enum Step {
    Measure { record: bool },
    Done,
}

/// How far a timing run of `warmup` untimed and then `iterations` timed
/// iterations has come.
pub struct RunProgress {
    completed: usize,
    warmup: usize,
    total: usize,
}

/// How many of the first `completed` iterations are past the warm-up, and so
/// recorded.
pub open spec fn recorded_before(completed: nat, warmup: nat) -> nat
    decreases completed,
{
    if completed == 0 {
        0
    } else if completed - 1 >= warmup {
        recorded_before((completed - 1) as nat, warmup) + 1
    } else {
        recorded_before((completed - 1) as nat, warmup)
    }
}

impl RunProgress {
    /// Iterations run so far.
    pub closed spec fn completed(&self) -> nat {
        self.completed as nat
    }

    /// Iterations of warm-up.
    pub closed spec fn warmup(&self) -> nat {
        self.warmup as nat
    }

    /// Iterations in all, warm-up included.
    pub closed spec fn total(&self) -> nat {
        self.total as nat
    }

    /// A run that has not started.
    pub fn start(iterations: usize, warmup: usize) -> (progress: Self)
        requires
            iterations + warmup <= usize::MAX,
        ensures
            progress.completed() == 0,
            progress.warmup() == warmup,
            progress.total() == iterations + warmup,
    {
        RunProgress { completed: 0, warmup, total: iterations + warmup }
    }

    /// The iteration about to run (counting from zero).
    pub fn iteration(&self) -> (iteration: usize)
        ensures
            iteration == self.completed(),
    {
        self.completed
    }

    /// Iterations in all, warm-up included.
    pub fn total_iterations(&self) -> (total: usize)
        ensures
            total == self.total(),
    {
        self.total
    }

    /// What the run does next.
    pub fn step(&self) -> (step: Step)
        ensures
            step == (if self.completed() < self.total() {
                Step::Measure { record: self.completed() >= self.warmup() }
            } else {
                Step::Done
            }),
    {
        if self.completed < self.total {
            Step::Measure { record: self.completed >= self.warmup }
        } else {
            Step::Done
        }
    }

    /// Marks one more iteration as run.
    pub fn advance(&mut self)
        requires
            old(self).completed() < old(self).total(),
        ensures
            final(self).completed() == old(self).completed() + 1,
            final(self).warmup() == old(self).warmup(),
            final(self).total() == old(self).total(),
    {
        self.completed = self.completed + 1;
    }
}

proof fn lemma_recorded_before(completed: nat, warmup: nat)
    ensures
        recorded_before(completed, warmup) == (if completed >= warmup {
            completed - warmup
        } else {
            0
        }),
    decreases completed,
{
    if completed > 0 {
        lemma_recorded_before((completed - 1) as nat, warmup);
    }
}

/// A run of `warmup` untimed iterations followed by `iterations` timed ones
/// records exactly `iterations` times, one per timed iteration.
pub proof fn lemma_full_run_records_iterations(iterations: nat, warmup: nat)
    ensures
        recorded_before(iterations + warmup, warmup) == iterations,
{
    lemma_recorded_before(iterations + warmup, warmup);
}

/// Candidate result-file names for different counts differ, so trying
/// counts 1, 2, 3, ... in turn eventually reaches a name not yet taken.
pub proof fn lemma_numbered_names_distinct(name: Seq<char>, time: nat, first: nat, second: nat)
    requires
        first != second,
    ensures
        numbered_file_name_spec(name, time, first) != numbered_file_name_spec(name, time, second),
{
    let prefix = "native_"@ + name + "_"@ + decimal(time) + "_"@;
    let x = numbered_file_name_spec(name, time, first);
    let y = numbered_file_name_spec(name, time, second);
    assert(x == prefix + decimal(first) + ".csv"@);
    assert(y == prefix + decimal(second) + ".csv"@);
    if x == y {
        let p = prefix.len() as int;
        assert(decimal(first).len() == decimal(second).len());
        assert(x.subrange(p, p + decimal(first).len()) == decimal(first));
        assert(y.subrange(p, p + decimal(second).len()) == decimal(second));
        lemma_decimal_is_digits(first);
        lemma_decimal_is_digits(second);
        assert(digits_value(decimal(first)) == digits_value(decimal(second)));
    }
}

} // verus!
