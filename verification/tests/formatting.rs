use hashbench::native::{csv_preamble, numbered_file_name, timestamped_file_name, RunProgress, Step};
use hashbench::text::{decimal_string, is_whitespace, trim};
use hashbench::unit::{FmtUnit, GIBI, KIBI, MEBI, PEBI, TEBI};

#[test]
fn unit_constants() {
    assert_eq!(KIBI, 1024);
    assert_eq!(MEBI, 1 << 20);
    assert_eq!(GIBI, 1 << 30);
    assert_eq!(TEBI, 1 << 40);
    assert_eq!(PEBI, 1 << 50);
}

#[test]
fn fmt_unit_picks_largest_prefix_below_1024() {
    assert_eq!(FmtUnit::new(0, "B").to_string(), "0B");
    assert_eq!(FmtUnit::new(1023, "B").to_string(), "1023B");
    assert_eq!(FmtUnit::new(1024, "B").to_string(), "1KiB");
    assert_eq!(FmtUnit::new(1536, "B").to_string(), "1KiB");
    assert_eq!(FmtUnit::new(1024 * 1024 - 1, "B").to_string(), "1023KiB");
    assert_eq!(FmtUnit::new(1 << 20, "B").to_string(), "1MiB");
    assert_eq!(FmtUnit::new(5 << 30, "B").to_string(), "5GiB");
    assert_eq!(FmtUnit::new(3 << 40, "").to_string(), "3Ti");
    assert_eq!(FmtUnit::new(1023 << 50, "B").to_string(), "1023PiB");
}

#[test]
fn fmt_unit_stays_in_pebi_past_1024_pebi() {
    assert_eq!(FmtUnit::new(1 << 60, "B").to_string(), "1024PiB");
    assert_eq!(FmtUnit::new(u64::MAX, "B").to_string(), "16383PiB");
}

#[test]
fn decimal_strings() {
    assert_eq!(decimal_string(0), "0");
    assert_eq!(decimal_string(7), "7");
    assert_eq!(decimal_string(10), "10");
    assert_eq!(decimal_string(1234567890), "1234567890");
    assert_eq!(decimal_string(u64::MAX), "18446744073709551615");
}

#[test]
fn decimal_strings_parse_back() {
    for n in [0u64, 9, 10, 99, 100, 65535, u64::MAX] {
        assert_eq!(decimal_string(n).parse::<u64>().unwrap(), n);
    }
}

#[test]
fn output_file_names() {
    assert_eq!(timestamped_file_name("md5", 1700000000, "csv"), "native_md5_1700000000.csv");
    assert_eq!(timestamped_file_name("sha2_256", 0, "json"), "native_sha2_256_0.json");
    assert_eq!(numbered_file_name("blake3", 1700000000, 1), "native_blake3_1700000000_1.csv");
    assert_eq!(numbered_file_name("blake3", 1700000000, 12), "native_blake3_1700000000_12.csv");
    assert_ne!(numbered_file_name("md5", 5, 1), numbered_file_name("md5", 5, 11));
}

#[test]
fn csv_preamble_lines() {
    assert_eq!(
        csv_preamble("sha1", 1048576, 512, 100, 50),
        "env,hash,bytes,chunk_size,iterations,warmup\nnative,sha1,1048576,512,100,50\ntimes\n"
    );
}

#[test]
fn whitespace_and_trim() {
    assert!(is_whitespace(' '));
    assert!(is_whitespace('\n'));
    assert!(is_whitespace('\u{3000}'));
    assert!(!is_whitespace('a'));
    assert!(!is_whitespace('0'));
    assert_eq!(trim("  12\n"), "12");
    assert_eq!(trim("\t \n"), "");
    assert_eq!(trim("a b"), "a b");
    assert_eq!(trim("\u{2003}x\u{00a0}"), "x");
}

#[test]
fn run_progress_records_after_warmup() {
    let mut progress = RunProgress::start(3, 2);
    let mut steps = Vec::new();
    while let Step::Measure { record } = progress.step() {
        steps.push((progress.iteration(), record));
        progress.advance();
    }
    assert_eq!(steps, vec![(0, false), (1, false), (2, true), (3, true), (4, true)]);
    assert_eq!(progress.total_iterations(), 5);
    assert_eq!(progress.step(), Step::Done);
}

#[test]
fn run_progress_without_iterations() {
    assert_eq!(RunProgress::start(0, 0).step(), Step::Done);
    let progress = RunProgress::start(0, 1);
    assert_eq!(progress.step(), Step::Measure { record: false });
}
