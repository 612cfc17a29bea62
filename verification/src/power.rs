//! The power-measurement driver: its arguments, the schedule of benchmark
//! runs it measures, the commands it starts, and the text it records.

use vstd::prelude::*;

use core::time::Duration;

use crate::text::{decimal, decimal_string, push_decimal, u64_from_str, parse_u64};
use crate::text::{trim, trim_spec, is_trim_of, is_unicode_whitespace, lemma_trim_unique};
use crate::text::{is_digit, lemma_decimal_is_digits, lemma_parse_decimal_roundtrip};

verus! {

/// Command line of the power-measurement driver.
pub struct CliArgs {
    /// Chunk size to benchmark, or all of the standard ones.
    pub chunk_size: ChunkSize,
    /// How long each benchmark (and each idle measurement) lasts.
    pub duration: Duration,
    /// Time between two power samples.
    pub rate: Duration,
    /// Pause between two benchmark runs.
    pub delay: Duration,
    /// File or directory for the samples.
    pub output: Option<std::path::PathBuf>,
    /// Suppress progress output.
    pub quiet: bool,
    /// Record the time of each sample.
    pub include_time: bool,
    /// Which build of the benchmark to run.
    pub exe: ExeOpt,
    /// Which hash function to benchmark, or all of them.
    pub algo: AlgoOpt,
    /// The file whose contents the benchmark hashes.
    pub input: std::path::PathBuf,
}

/// A chunk size to benchmark, or all of the standard ones.
#[derive(Clone, Copy, Debug, PartialEq, Eq, Structural)]
pub enum ChunkSize {
    All,
    Known(u64),
}

/// The build of the benchmark to run.
#[derive(Clone, Copy, Debug, PartialEq, Eq, Structural)]
pub enum ExeOpt {
    Native,
    Wasm,
}

/// A hash function to benchmark, or all of them.
#[derive(Clone, Copy, Debug, PartialEq, Eq, Structural)]
pub enum AlgoOpt {
    All,
    Md5,
    Sha1,
    Sha2_256,
    Sha2_384,
    Sha2_512,
    Sha3_256,
    Sha3_384,
    Sha3_512,
    Blake3,
}

/// The outcome of parsing a `--chunk-size` value: `all`, or a number as
/// `u64::from_str` reads it; anything else is rejected with a message.
pub open spec fn chunk_size_parse_spec(given: Seq<char>) -> Option<ChunkSize> {
    if given == "all"@ {
        Some(ChunkSize::All)
    } else {
        match u64_from_str(given) {
            Some(n) => Some(ChunkSize::Known(n)),
            None => None,
        }
    }
}

impl ChunkSize {
    /// Parses a `--chunk-size` value: `all` or a decimal number.
    pub fn from_str(given: &str) -> (parsed: Result<Self, &'static str>)
        ensures
            match chunk_size_parse_spec(given@) {
                Some(c) => parsed == Ok::<ChunkSize, &'static str>(c),
                None => parsed matches Err(e) && e@ == "invalid chunk-size provided"@,
            },
    {
        if is_all(given) {
            Ok(Self::All)
        } else {
            match parse_u64(given) {
                Some(parsed) => Ok(Self::Known(parsed)),
                None => Err("invalid chunk-size provided"),
            }
        }
    }
}

fn is_all(given: &str) -> (all: bool)
    ensures
        all == (given@ == "all"@),
{
    proof {
        reveal_strlit("all");
    }
    let n = given.unicode_len();
    if n != 3 {
        return false;
    }
    let result = given.get_char(0) == 'a' && given.get_char(1) == 'l' && given.get_char(2) == 'l';
    assert(result ==> given@ == "all"@);
    result
}

impl ExeOpt {
    /// The name of the build, as written on the command line.
    pub open spec fn as_str_spec(&self) -> Seq<char> {
        match self {
            ExeOpt::Native => "native"@,
            ExeOpt::Wasm => "wasm"@,
        }
    }

    /// The name of the build, as written on the command line.
    pub fn as_str(&self) -> (name: &'static str)
        ensures
            name@ == self.as_str_spec(),
    {
        match self {
            Self::Native => "native",
            Self::Wasm => "wasm",
        }
    }
}

impl AlgoOpt {
    /// The name of the hash function, as written on the command line.
    pub open spec fn as_str_spec(&self) -> Seq<char> {
        match self {
            AlgoOpt::All => "all"@,
            AlgoOpt::Md5 => "md5"@,
            AlgoOpt::Sha1 => "sha1"@,
            AlgoOpt::Sha2_256 => "sha2-256"@,
            AlgoOpt::Sha2_384 => "sha2-384"@,
            AlgoOpt::Sha2_512 => "sha2-512"@,
            AlgoOpt::Sha3_256 => "sha3-256"@,
            AlgoOpt::Sha3_384 => "sha3-384"@,
            AlgoOpt::Sha3_512 => "sha3-512"@,
            AlgoOpt::Blake3 => "blake3"@,
        }
    }

    /// The name of the hash function, as written on the command line.
    pub fn as_str(&self) -> (name: &'static str)
        ensures
            name@ == self.as_str_spec(),
    {
        match self {
            Self::All => "all",
            Self::Md5 => "md5",
            Self::Sha1 => "sha1",
            Self::Sha2_256 => "sha2-256",
            Self::Sha2_384 => "sha2-384",
            Self::Sha2_512 => "sha2-512",
            Self::Sha3_256 => "sha3-256",
            Self::Sha3_384 => "sha3-384",
            Self::Sha3_512 => "sha3-512",
            Self::Blake3 => "blake3",
        }
    }
}

/// What `Duration::new` returns for a number of seconds and nanoseconds.
pub uninterp spec fn duration_new(secs: u64, nanos: u32) -> Duration;

/// What `Duration::from_millis` returns for a number of milliseconds.
pub uninterp spec fn duration_from_millis(millis: u64) -> Duration;

/// Calls `Duration::new`, which panics only when the nanoseconds carry the
/// seconds past `u64::MAX`; the result is named, not described.
#[verifier::external_body]
fn new_duration(secs: u64, nanos: u32) -> (duration: Duration)
    requires
        secs + nanos / 1_000_000_000 <= u64::MAX,
    ensures
        duration == duration_new(secs, nanos),
{
    Duration::new(secs, nanos)
}

/// Calls `Duration::from_millis`; the result is named, not described.
#[verifier::external_body]
fn millis_duration(millis: u64) -> (duration: Duration)
    ensures
        duration == duration_from_millis(millis),
{
    Duration::from_millis(millis)
}

/// Parses a number of seconds.
pub fn parse_secs(given: &str) -> (parsed: Result<Duration, &'static str>)
    ensures
        match u64_from_str(given@) {
            Some(secs) => parsed == Ok::<Duration, &'static str>(duration_new(secs, 0)),
            None => parsed matches Err(e) && e@ == "invalid seconds value provided"@,
        },
{
    let Some(secs) = parse_u64(given) else {
        return Err("invalid seconds value provided");
    };
    Ok(new_duration(secs, 0))
}

/// Parses a number of milliseconds.
pub fn parse_millis(given: &str) -> (parsed: Result<Duration, &'static str>)
    ensures
        match u64_from_str(given@) {
            Some(millis) => parsed == Ok::<Duration, &'static str>(duration_from_millis(millis)),
            None => parsed matches Err(e) && e@ == "invalid milliseconds value provided"@,
        },
{
    let Some(millis) = parse_u64(given) else {
        return Err("invalid milliseconds value provided");
    };
    Ok(millis_duration(millis))
}

/// One power reading of the board: millivolts, milliamps and their product.
pub struct PowerSample {
    pub volts: u64,
    pub amps: u64,
    pub watts: u64,
}

impl PowerSample {
    /// The sample for a voltage and current reading; the power is their product.
    pub fn from_readings(volts: u64, amps: u64) -> (sample: Self)
        requires
            volts * amps <= u64::MAX,
        ensures
            sample.volts == volts,
            sample.amps == amps,
            sample.watts == volts * amps,
    {
        PowerSample { volts, amps, watts: volts * amps }
    }

    /// `v: {volts} a: {amps} w: {watts}`, the progress line of a sample.
    pub open spec fn describe_spec(&self) -> Seq<char> {
        "v: "@ + decimal(self.volts as nat) + " a: "@ + decimal(self.amps as nat) + " w: "@
            + decimal(self.watts as nat)
    }

    /// The progress line of a sample (without its time).
    pub fn describe(&self) -> (text: String)
        ensures
            text@ == self.describe_spec(),
    {
        let mut text = String::new();
        text.append("v: ");
        push_decimal(&mut text, self.volts);
        text.append(" a: ");
        push_decimal(&mut text, self.amps);
        text.append(" w: ");
        push_decimal(&mut text, self.watts);
        text
    }
}

/// Whether a sample was taken with the board idle or while the benchmark ran.
#[derive(Clone, Copy, Debug, PartialEq, Eq, Structural)]
pub enum Phase {
    Idle,
    Run,
}

impl Phase {
    /// The name of the phase in the CSV file.
    pub open spec fn as_str_spec(&self) -> Seq<char> {
        match self {
            Phase::Idle => "idle"@,
            Phase::Run => "run"@,
        }
    }

    /// The name of the phase in the CSV file.
    pub fn as_str(&self) -> (name: &'static str)
        ensures
            name@ == self.as_str_spec(),
    {
        match self {
            Phase::Idle => "idle",
            Phase::Run => "run",
        }
    }
}

/// The first line of a samples CSV file.
pub const CSV_HEADER: &'static str = "type,time,milli_volts,milli_amps\n";

/// `{algo},{phase},{volts},{amps}` and a line break: one sample in the CSV file.
pub open spec fn sample_csv_line_spec(algo: AlgoOpt, phase: Phase, sample: PowerSample) -> Seq<char> {
    algo.as_str_spec() + ","@ + phase.as_str_spec() + ","@ + decimal(sample.volts as nat) + ","@
        + decimal(sample.amps as nat) + "\n"@
}

/// One sample as a line of the CSV file.
pub fn sample_csv_line(algo: &AlgoOpt, phase: Phase, sample: &PowerSample) -> (line: String)
    ensures
        line@ == sample_csv_line_spec(*algo, phase, *sample),
{
    let mut line = String::new();
    line.append(algo.as_str());
    line.append(",");
    line.append(phase.as_str());
    line.append(",");
    push_decimal(&mut line, sample.volts);
    line.append(",");
    push_decimal(&mut line, sample.amps);
    line.append("\n");
    line
}

/// `power_{exe}_{algo}_{chunk_size}.csv`: the samples file of one run when the
/// output is a directory.
pub open spec fn output_file_name_spec(exe: ExeOpt, algo: AlgoOpt, chunk_size: nat) -> Seq<char> {
    "power_"@ + exe.as_str_spec() + "_"@ + algo.as_str_spec() + "_"@ + decimal(chunk_size) + ".csv"@
}

/// The name of the samples file of one run inside an output directory.
pub fn output_file_name(exe: &ExeOpt, algo: &AlgoOpt, chunk_size: u64) -> (name: String)
    ensures
        name@ == output_file_name_spec(*exe, *algo, chunk_size as nat),
{
    let mut name = String::new();
    name.append("power_");
    name.append(exe.as_str());
    name.append("_");
    name.append(algo.as_str());
    name.append("_");
    push_decimal(&mut name, chunk_size);
    name.append(".csv");
    name
}

/// Whether a list of strings holds exactly the given texts, in order.
pub open spec fn texts_are(args: Seq<String>, texts: Seq<Seq<char>>) -> bool {
    &&& args.len() == texts.len()
    &&& forall|i: int| 0 <= i < args.len() ==> #[trigger] args[i]@ == texts[i]
}

/// The arguments that start the native benchmark on a file (the file's path
/// follows them): quiet, busy for `secs` seconds, the chunk size, the hash.
pub open spec fn native_args_spec(secs: nat, algo: AlgoOpt, size: nat) -> Seq<Seq<char>> {
    seq![
        "-q"@,
        "-b"@,
        decimal(secs),
        "--chunk-size"@,
        decimal(size),
        algo.as_str_spec(),
        "file"@,
        "--path"@,
    ]
}

/// The arguments that start the wasm benchmark under node (the input path
/// follows them): the script, quiet, busy for `secs` seconds, the chunk size,
/// the hash.
pub open spec fn wasm_args_spec(secs: nat, algo: AlgoOpt, size: nat) -> Seq<Seq<char>> {
    seq![
        "./modules/node/main.js"@,
        "--quiet"@,
        "--busy"@,
        decimal(secs),
        "--chunk-size"@,
        decimal(size),
        algo.as_str_spec(),
    ]
}

fn owned(text: &str) -> (owned: String)
    ensures
        owned@ == text@,
{
    text.to_owned()
}

/// The arguments of the native benchmark process, before the input path.
pub fn native_args(secs: u64, algo: &AlgoOpt, size: u64) -> (args: Vec<String>)
    ensures
        texts_are(args@, native_args_spec(secs as nat, *algo, size as nat)),
        args@.len() == 8,
        args@[5]@ == algo.as_str_spec(),
        u64_from_str(args@[2]@) == Some(secs),
        u64_from_str(args@[4]@) == Some(size),
{
    proof {
        lemma_command_lines_carry_the_run(secs, *algo, size);
    }
    let s_str = decimal_string(size);
    let b_str = decimal_string(secs);
    let args = vec![
        owned("-q"),
        owned("-b"),
        b_str,
        owned("--chunk-size"),
        s_str,
        owned(algo.as_str()),
        owned("file"),
        owned("--path"),
    ];
    args
}

/// The arguments of the node process running the wasm benchmark, before the
/// input path.
pub fn wasm_args(secs: u64, algo: &AlgoOpt, size: u64) -> (args: Vec<String>)
    ensures
        texts_are(args@, wasm_args_spec(secs as nat, *algo, size as nat)),
        args@.len() == 7,
        args@[6]@ == algo.as_str_spec(),
        u64_from_str(args@[3]@) == Some(secs),
        u64_from_str(args@[5]@) == Some(size),
{
    proof {
        lemma_command_lines_carry_the_run(secs, *algo, size);
    }
    let s_str = decimal_string(size);
    let b_str = decimal_string(secs);
    let args = vec![
        owned("./modules/node/main.js"),
        owned("--quiet"),
        owned("--busy"),
        b_str,
        owned("--chunk-size"),
        s_str,
        owned(algo.as_str()),
    ];
    args
}

/// The chunk sizes that `--chunk-size all` runs through, in order.
pub open spec fn standard_chunk_sizes() -> Seq<u64> {
    seq![64, 128, 256, 512, 1024, 2048, 4096, 8192, 16384]
}

/// The hash functions that `all` runs through, in order.
pub open spec fn standard_algorithms() -> Seq<AlgoOpt> {
    seq![
        AlgoOpt::Md5,
        AlgoOpt::Sha1,
        AlgoOpt::Sha2_256,
        AlgoOpt::Sha2_384,
        AlgoOpt::Sha2_512,
        AlgoOpt::Sha3_256,
        AlgoOpt::Sha3_384,
        AlgoOpt::Sha3_512,
        AlgoOpt::Blake3,
    ]
}

/// The chunk sizes a `--chunk-size` value selects.
pub open spec fn chunk_sizes_spec(chunk_size: ChunkSize) -> Seq<u64> {
    match chunk_size {
        ChunkSize::All => standard_chunk_sizes(),
        ChunkSize::Known(size) => seq![size],
    }
}

/// The hash functions an algorithm choice selects.
pub open spec fn algorithms_spec(algo: AlgoOpt) -> Seq<AlgoOpt> {
    if algo == AlgoOpt::All {
        standard_algorithms()
    } else {
        seq![algo]
    }
}

/// The benchmark runs in the order the driver makes them: every selected
/// chunk size in turn, and for each, every selected hash function in turn.
pub open spec fn run_plan_spec(chunk_size: ChunkSize, algo: AlgoOpt) -> Seq<(u64, AlgoOpt)> {
    let sizes = chunk_sizes_spec(chunk_size);
    let algos = algorithms_spec(algo);
    Seq::new(sizes.len() * algos.len(), |k: int| (sizes[k / algos.len() as int], algos[k % algos.len() as int]))
}

fn chunk_sizes(chunk_size: &ChunkSize) -> (sizes: Vec<u64>)
    ensures
        sizes@ == chunk_sizes_spec(*chunk_size),
{
    match chunk_size {
        ChunkSize::All => vec![64, 128, 256, 512, 1024, 2048, 4096, 8192, 16384],
        ChunkSize::Known(size) => vec![*size],
    }
}

fn algorithms(algo: &AlgoOpt) -> (algos: Vec<AlgoOpt>)
    ensures
        algos@ == algorithms_spec(*algo),
{
    match algo {
        AlgoOpt::All => vec![
            AlgoOpt::Md5,
            AlgoOpt::Sha1,
            AlgoOpt::Sha2_256,
            AlgoOpt::Sha2_384,
            AlgoOpt::Sha2_512,
            AlgoOpt::Sha3_256,
            AlgoOpt::Sha3_384,
            AlgoOpt::Sha3_512,
            AlgoOpt::Blake3,
        ],
        _ => vec![*algo],
    }
}

proof fn lemma_plan_position(i: int, j: int, rows: int, cols: int)
    requires
        0 <= i < rows,
        0 <= j < cols,
    ensures
        (i * cols + j) / cols == i,
        (i * cols + j) % cols == j,
        i * cols + j < rows * cols,
        i * cols + j + 1 <= rows * cols,
{
    vstd::arithmetic::div_mod::lemma_fundamental_div_mod_converse(i * cols + j, cols, i, j);
    assert(i * cols + j < rows * cols) by (nonlinear_arith)
        requires
            0 <= i < rows,
            0 <= j < cols,
    ;
}

/// The (chunk size, hash function) pairs the driver benchmarks, in order;
/// the driver pauses between two consecutive runs.
pub fn run_plan(chunk_size: &ChunkSize, algo: &AlgoOpt) -> (plan: Vec<(u64, AlgoOpt)>)
    ensures
        plan@ == run_plan_spec(*chunk_size, *algo),
        *algo != AlgoOpt::All ==> forall|k: int| 0 <= k < plan@.len() ==> (#[trigger] plan@[k]).1 == *algo,
        forall|n: u64| *chunk_size == ChunkSize::Known(n) ==> forall|k: int|
            0 <= k < plan@.len() ==> (#[trigger] plan@[k]).0 == n,
{
    let sizes = chunk_sizes(chunk_size);
    let algos = algorithms(algo);
    let ghost rows = sizes@.len() as int;
    let ghost cols = algos@.len() as int;
    let mut plan: Vec<(u64, AlgoOpt)> = Vec::new();
    let mut i: usize = 0;
    while i < sizes.len()
        invariant
            rows == sizes@.len(),
            cols == algos@.len(),
            1 <= rows <= 9,
            1 <= cols <= 9,
            0 <= i <= rows,
            plan@.len() == i * cols,
            forall|k: int|
                0 <= k < plan@.len() ==> #[trigger] plan@[k] == (sizes@[k / cols], algos@[k % cols]),
        decreases rows - i,
    {
        let mut j: usize = 0;
        while j < algos.len()
            invariant
                rows == sizes@.len(),
                cols == algos@.len(),
                1 <= rows <= 9,
                1 <= cols <= 9,
                0 <= i < rows,
                0 <= j <= cols,
                plan@.len() == i * cols + j,
                forall|k: int|
                    0 <= k < plan@.len() ==> #[trigger] plan@[k] == (sizes@[k / cols], algos@[k % cols]),
            decreases cols - j,
        {
            proof {
                lemma_plan_position(i as int, j as int, rows, cols);
            }
            plan.push((sizes[i], algos[j]));
            j += 1;
        }
        assert((i + 1) * cols == i * cols + cols) by (nonlinear_arith);
        i += 1;
    }
    assert(plan@ == run_plan_spec(*chunk_size, *algo));
    plan
}

/// The schedule is complete and exact: it has one run per selected chunk
/// size and hash function, the run at position `i * |algorithms| + j` is the
/// `i`-th size with the `j`-th hash function, and no run is of the `all`
/// pseudo-choice.
pub proof fn lemma_run_plan_covers(chunk_size: ChunkSize, algo: AlgoOpt, i: int, j: int)
    requires
        0 <= i < chunk_sizes_spec(chunk_size).len(),
        0 <= j < algorithms_spec(algo).len(),
    ensures
        run_plan_spec(chunk_size, algo).len() == chunk_sizes_spec(chunk_size).len()
            * algorithms_spec(algo).len(),
        run_plan_spec(chunk_size, algo)[i * algorithms_spec(algo).len() + j] == (
            chunk_sizes_spec(chunk_size)[i],
            algorithms_spec(algo)[j],
        ),
        algorithms_spec(algo)[j] != AlgoOpt::All,
{
    let rows = chunk_sizes_spec(chunk_size).len() as int;
    let cols = algorithms_spec(algo).len() as int;
    lemma_plan_position(i, j, rows, cols);
}

/// A single choice is run alone: with a known chunk size and a single hash
/// function the schedule is that one run; with a known size and `all`, the
/// nine hash functions in their fixed order at that size; with `all` sizes
/// and a single hash function, that function at each standard size, which
/// double from 64 up to 16384 bytes. No run ever uses another hash function
/// or size than the ones chosen.
pub proof fn lemma_run_plan_runs_the_choice(chunk_size: ChunkSize, algo: AlgoOpt)
    ensures
        algo != AlgoOpt::All ==> forall|k: int|
            0 <= k < run_plan_spec(chunk_size, algo).len() ==> (#[trigger] run_plan_spec(
                chunk_size,
                algo,
            )[k]).1 == algo,
        forall|n: u64| chunk_size == ChunkSize::Known(n) ==> forall|k: int|
            0 <= k < run_plan_spec(chunk_size, algo).len() ==> (#[trigger] run_plan_spec(
                chunk_size,
                algo,
            )[k]).0 == n,
        forall|n: u64| (chunk_size == ChunkSize::Known(n) && algo != AlgoOpt::All) ==> run_plan_spec(
            chunk_size,
            algo,
        ) == seq![(n, algo)],
        algo != AlgoOpt::All ==> run_plan_spec(ChunkSize::All, algo).len() == 9,
        algo != AlgoOpt::All ==> forall|i: int|
            0 <= i < 9 ==> #[trigger] run_plan_spec(ChunkSize::All, algo)[i] == (
                (64 * vstd::arithmetic::power2::pow2(i as nat)) as u64,
                algo,
            ),
        forall|n: u64| #[trigger] run_plan_spec(ChunkSize::Known(n), AlgoOpt::All) == seq![
            (n, AlgoOpt::Md5),
            (n, AlgoOpt::Sha1),
            (n, AlgoOpt::Sha2_256),
            (n, AlgoOpt::Sha2_384),
            (n, AlgoOpt::Sha2_512),
            (n, AlgoOpt::Sha3_256),
            (n, AlgoOpt::Sha3_384),
            (n, AlgoOpt::Sha3_512),
            (n, AlgoOpt::Blake3),
        ],
{
    let plan = run_plan_spec(chunk_size, algo);
    let rows = chunk_sizes_spec(chunk_size).len() as int;
    let cols = algorithms_spec(algo).len() as int;
    assert forall|k: int| 0 <= k < plan.len() implies #[trigger] plan[k] == (
        chunk_sizes_spec(chunk_size)[k / cols],
        algorithms_spec(algo)[k % cols],
    ) by {}
    if algo != AlgoOpt::All {
        assert(cols == 1);
        assert forall|k: int| 0 <= k < plan.len() implies (#[trigger] plan[k]).1 == algo by {
            assert(k % 1 == 0);
        }
        let all_sizes = run_plan_spec(ChunkSize::All, algo);
        assert(chunk_sizes_spec(ChunkSize::All).len() == 9);
        assert(all_sizes.len() == 9 * 1);
        assert forall|i: int| 0 <= i < 9 implies #[trigger] all_sizes[i] == (
            (64 * vstd::arithmetic::power2::pow2(i as nat)) as u64,
            algo,
        ) by {
            vstd::arithmetic::power2::lemma2_to64();
            assert(i / 1 == i && i % 1 == 0);
        }
    }
    match chunk_size {
        ChunkSize::Known(n) => {
            assert(rows == 1);
            assert forall|k: int| 0 <= k < plan.len() implies (#[trigger] plan[k]).0 == n by {
                assert(0 <= k < cols);
                assert(k / cols == 0) by (nonlinear_arith)
                    requires
                        0 <= k < cols,
                ;
            }
            if algo != AlgoOpt::All {
                assert(plan =~= seq![(n, algo)]);
            }
        },
        ChunkSize::All => {},
    }
    assert forall|n: u64| #[trigger] run_plan_spec(ChunkSize::Known(n), AlgoOpt::All) == seq![
        (n, AlgoOpt::Md5),
        (n, AlgoOpt::Sha1),
        (n, AlgoOpt::Sha2_256),
        (n, AlgoOpt::Sha2_384),
        (n, AlgoOpt::Sha2_512),
        (n, AlgoOpt::Sha3_256),
        (n, AlgoOpt::Sha3_384),
        (n, AlgoOpt::Sha3_512),
        (n, AlgoOpt::Blake3),
    ] by {
        let p = run_plan_spec(ChunkSize::Known(n), AlgoOpt::All);
        assert(chunk_sizes_spec(ChunkSize::Known(n)).len() == 1);
        assert(algorithms_spec(AlgoOpt::All).len() == 9);
        assert(p.len() == 1 * 9);
        assert forall|k: int| 0 <= k < 9 implies #[trigger] p[k] == (n, algorithms_spec(AlgoOpt::All)[k]) by {
            assert(k / 9 == 0 && k % 9 == k);
        }
        assert(p =~= seq![
            (n, AlgoOpt::Md5),
            (n, AlgoOpt::Sha1),
            (n, AlgoOpt::Sha2_256),
            (n, AlgoOpt::Sha2_384),
            (n, AlgoOpt::Sha2_512),
            (n, AlgoOpt::Sha3_256),
            (n, AlgoOpt::Sha3_384),
            (n, AlgoOpt::Sha3_512),
            (n, AlgoOpt::Blake3),
        ]);
    }
}

/// The command lines that start a benchmark carry the run they are for: the
/// hash argument is the chosen hash function's own name (and names differ
/// between hash functions), and the busy time and chunk size arguments read
/// back, as `u64::from_str` reads them, as the given seconds and size. The
/// names are the kebab-case names of the hash functions.
pub proof fn lemma_command_lines_carry_the_run(secs: u64, algo: AlgoOpt, size: u64)
    ensures
        native_args_spec(secs as nat, algo, size as nat).len() == 8,
        native_args_spec(secs as nat, algo, size as nat)[5] == algo.as_str_spec(),
        u64_from_str(native_args_spec(secs as nat, algo, size as nat)[2]) == Some(secs),
        u64_from_str(native_args_spec(secs as nat, algo, size as nat)[4]) == Some(size),
        wasm_args_spec(secs as nat, algo, size as nat).len() == 7,
        wasm_args_spec(secs as nat, algo, size as nat)[6] == algo.as_str_spec(),
        u64_from_str(wasm_args_spec(secs as nat, algo, size as nat)[3]) == Some(secs),
        u64_from_str(wasm_args_spec(secs as nat, algo, size as nat)[5]) == Some(size),
        AlgoOpt::Md5.as_str_spec() == "md5"@,
        AlgoOpt::Sha1.as_str_spec() == "sha1"@,
        AlgoOpt::Sha2_256.as_str_spec() == "sha2-256"@,
        AlgoOpt::Sha2_384.as_str_spec() == "sha2-384"@,
        AlgoOpt::Sha2_512.as_str_spec() == "sha2-512"@,
        AlgoOpt::Sha3_256.as_str_spec() == "sha3-256"@,
        AlgoOpt::Sha3_384.as_str_spec() == "sha3-384"@,
        AlgoOpt::Sha3_512.as_str_spec() == "sha3-512"@,
        AlgoOpt::Blake3.as_str_spec() == "blake3"@,
{
    lemma_parse_decimal_roundtrip(secs);
    lemma_parse_decimal_roundtrip(size);
}

/// Different hash functions have different command-line names, so their
/// samples files never collide.
pub proof fn lemma_algo_names_distinct(a: AlgoOpt, b: AlgoOpt)
    requires
        a != b,
    ensures
        a.as_str_spec() != b.as_str_spec(),
{
    reveal_strlit("all");
    reveal_strlit("md5");
    reveal_strlit("sha1");
    reveal_strlit("sha2-256");
    reveal_strlit("sha2-384");
    reveal_strlit("sha2-512");
    reveal_strlit("sha3-256");
    reveal_strlit("sha3-384");
    reveal_strlit("sha3-512");
    reveal_strlit("blake3");
    if a.as_str_spec() == b.as_str_spec() {
        let x = a.as_str_spec();
        let y = b.as_str_spec();
        assert(x.len() == y.len());
        if x.len() == 8 {
            assert(x[3] == y[3] && x[5] == y[5] && x[6] == y[6] && x[7] == y[7]);
        } else {
            assert(x[0] == y[0]);
        }
    }
}

/// A chunk size written in decimal reads back as itself.
pub proof fn lemma_chunk_size_roundtrip(n: u64)
    ensures
        chunk_size_parse_spec(decimal(n as nat)) == Some(ChunkSize::Known(n)),
{
    reveal_strlit("all");
    lemma_decimal_is_digits(n as nat);
    lemma_parse_decimal_roundtrip(n);
    assert(is_digit(decimal(n as nat)[0]));
    assert(decimal(n as nat) != "all"@);
}

/// Calls `std::str::from_utf8`: the bytes are accepted exactly when they are
/// valid UTF-8, and then read as the characters they encode.
#[verifier::external_body]
fn str_from_utf8(bytes: &[u8]) -> (text: Option<&str>)
    ensures
        text is Some <==> vstd::utf8::valid_utf8(bytes@),
        text matches Some(t) ==> t@ == vstd::utf8::decode_utf8(bytes@),
{
    std::str::from_utf8(bytes).ok()
}

/// The value of a sensor file's contents: UTF-8 text holding a decimal
/// number, possibly surrounded by whitespace.
pub open spec fn reading_spec(contents: Seq<u8>) -> Option<u64> {
    if vstd::utf8::valid_utf8(contents) {
        u64_from_str(trim_spec(vstd::utf8::decode_utf8(contents)))
    } else {
        None
    }
}

/// A sensor file holding a number, in decimal and UTF-8, possibly with
/// whitespace (such as a trailing line break, or none at all) before and
/// after it, reads as exactly that number.
pub proof fn lemma_reading_of_number(n: u64, before: Seq<char>, after: Seq<char>)
    requires
        forall|i: int| 0 <= i < before.len() ==> is_unicode_whitespace(#[trigger] before[i]),
        forall|i: int| 0 <= i < after.len() ==> is_unicode_whitespace(#[trigger] after[i]),
    ensures
        reading_spec(vstd::utf8::encode_utf8(before + decimal(n as nat) + after)) == Some(n),
{
    let d = decimal(n as nat);
    let text = before + d + after;
    vstd::utf8::encode_utf8_valid_utf8(text);
    vstd::utf8::encode_utf8_decode_utf8(text);
    lemma_decimal_is_digits(n as nat);
    let a = before.len() as int;
    let b = a + d.len();
    assert(text.subrange(a, b) == d);
    assert(is_digit(d[0]) && is_digit(d[d.len() - 1]));
    assert(text[a] == d[0]);
    assert(text[b - 1] == d[d.len() - 1]);
    assert forall|i: int| 0 <= i < a implies is_unicode_whitespace(#[trigger] text[i]) by {
        assert(text[i] == before[i]);
    }
    assert forall|i: int| b <= i < text.len() implies is_unicode_whitespace(#[trigger] text[i]) by {
        assert(text[i] == after[i - b]);
    }
    assert(is_trim_of(text, d));
    lemma_trim_unique(text, d, trim_spec(text));
    lemma_parse_decimal_roundtrip(n);
}

/// Reads a sensor value from the contents of its file; `None` when the
/// contents are not UTF-8 or not a number.
pub fn parse_reading(contents: &[u8]) -> (reading: Option<u64>)
    ensures
        reading == reading_spec(contents@),
{
    let text = str_from_utf8(contents)?;
    parse_u64(trim(text))
}

} // verus!
