use std::time::Duration;

use hashbench::power::{
    AlgoOpt, ChunkSize, ExeOpt, Phase, PowerSample, CSV_HEADER, native_args, output_file_name,
    parse_millis, parse_reading, parse_secs, run_plan, sample_csv_line, wasm_args,
};

#[test]
fn chunk_size_parses_all_and_numbers() {
    assert_eq!(ChunkSize::from_str("all"), Ok(ChunkSize::All));
    assert_eq!(ChunkSize::from_str("512"), Ok(ChunkSize::Known(512)));
    assert_eq!(ChunkSize::from_str("+7"), Ok(ChunkSize::Known(7)));
    assert_eq!(ChunkSize::from_str("0"), Ok(ChunkSize::Known(0)));
    assert_eq!(
        ChunkSize::from_str("18446744073709551615"),
        Ok(ChunkSize::Known(u64::MAX))
    );
}

#[test]
fn chunk_size_rejects_other_text() {
    for bad in ["", "+", "-1", "ALL", "al", "12a", " 12", "18446744073709551616", "١٢"] {
        assert_eq!(ChunkSize::from_str(bad), Err("invalid chunk-size provided"), "{bad:?}");
    }
}

#[test]
fn parse_secs_and_millis() {
    assert_eq!(parse_secs("60"), Ok(Duration::new(60, 0)));
    assert_eq!(parse_secs("0"), Ok(Duration::new(0, 0)));
    assert_eq!(parse_secs("x"), Err("invalid seconds value provided"));
    assert_eq!(parse_secs("-3"), Err("invalid seconds value provided"));
    assert_eq!(parse_millis("250"), Ok(Duration::from_millis(250)));
    assert_eq!(parse_millis("1.5"), Err("invalid milliseconds value provided"));
}

#[test]
fn option_names() {
    assert_eq!(ExeOpt::Native.as_str(), "native");
    assert_eq!(ExeOpt::Wasm.as_str(), "wasm");
    assert_eq!(AlgoOpt::All.as_str(), "all");
    assert_eq!(AlgoOpt::Md5.as_str(), "md5");
    assert_eq!(AlgoOpt::Sha1.as_str(), "sha1");
    assert_eq!(AlgoOpt::Sha2_256.as_str(), "sha2-256");
    assert_eq!(AlgoOpt::Sha2_384.as_str(), "sha2-384");
    assert_eq!(AlgoOpt::Sha2_512.as_str(), "sha2-512");
    assert_eq!(AlgoOpt::Sha3_256.as_str(), "sha3-256");
    assert_eq!(AlgoOpt::Sha3_384.as_str(), "sha3-384");
    assert_eq!(AlgoOpt::Sha3_512.as_str(), "sha3-512");
    assert_eq!(AlgoOpt::Blake3.as_str(), "blake3");
}

#[test]
fn power_sample_text() {
    let sample = PowerSample::from_readings(5000, 1200);
    assert_eq!(sample.watts, 6_000_000);
    assert_eq!(sample.describe(), "v: 5000 a: 1200 w: 6000000");
    assert_eq!(sample_csv_line(&AlgoOpt::Sha2_256, Phase::Idle, &sample), "sha2-256,idle,5000,1200\n");
    assert_eq!(sample_csv_line(&AlgoOpt::Blake3, Phase::Run, &sample), "blake3,run,5000,1200\n");
    assert_eq!(CSV_HEADER, "type,time,milli_volts,milli_amps\n");
}

#[test]
fn samples_file_name() {
    assert_eq!(output_file_name(&ExeOpt::Wasm, &AlgoOpt::Md5, 512), "power_wasm_md5_512.csv");
    assert_eq!(output_file_name(&ExeOpt::Native, &AlgoOpt::Sha3_512, 16384), "power_native_sha3-512_16384.csv");
}

#[test]
fn benchmark_command_lines() {
    assert_eq!(
        native_args(60, &AlgoOpt::Sha1, 1024),
        vec!["-q", "-b", "60", "--chunk-size", "1024", "sha1", "file", "--path"]
    );
    assert_eq!(
        wasm_args(30, &AlgoOpt::Blake3, 64),
        vec!["./modules/node/main.js", "--quiet", "--busy", "30", "--chunk-size", "64", "blake3"]
    );
}

#[test]
fn plan_of_everything() {
    let plan = run_plan(&ChunkSize::All, &AlgoOpt::All);
    assert_eq!(plan.len(), 81);
    assert_eq!(plan[0], (64, AlgoOpt::Md5));
    assert_eq!(plan[8], (64, AlgoOpt::Blake3));
    assert_eq!(plan[9], (128, AlgoOpt::Md5));
    assert_eq!(plan[80], (16384, AlgoOpt::Blake3));
    assert!(plan.iter().all(|(_, algo)| *algo != AlgoOpt::All));
}

#[test]
fn plan_of_one_choice() {
    assert_eq!(run_plan(&ChunkSize::Known(100), &AlgoOpt::Sha1), vec![(100, AlgoOpt::Sha1)]);
    let plan = run_plan(&ChunkSize::Known(7), &AlgoOpt::All);
    assert_eq!(plan.len(), 9);
    assert_eq!(plan[4], (7, AlgoOpt::Sha2_512));
    let plan = run_plan(&ChunkSize::All, &AlgoOpt::Sha3_256);
    assert_eq!(plan.len(), 9);
    assert_eq!(plan[3], (512, AlgoOpt::Sha3_256));
}

#[test]
fn sensor_readings() {
    assert_eq!(parse_reading(b"5104\n"), Some(5104));
    assert_eq!(parse_reading(b"  42 "), Some(42));
    assert_eq!(parse_reading(b""), None);
    assert_eq!(parse_reading(b"n/a\n"), None);
    assert_eq!(parse_reading(&[0xff, 0x31]), None);
}

#[test]
fn decimal_chunk_sizes_read_back() {
    for n in [0u64, 7, 64, 16384, 1 << 40, u64::MAX] {
        let text = hashbench::text::decimal_string(n);
        assert_eq!(ChunkSize::from_str(&text), Ok(ChunkSize::Known(n)));
    }
}

#[test]
fn algorithm_names_are_distinct() {
    let all = [
        AlgoOpt::All,
        AlgoOpt::Md5,
        AlgoOpt::Sha1,
        AlgoOpt::Sha2_256,
        AlgoOpt::Sha2_384,
        AlgoOpt::Sha2_512,
        AlgoOpt::Sha3_256,
        AlgoOpt::Sha3_384,
        AlgoOpt::Sha3_512,
        AlgoOpt::Blake3,
    ];
    for a in all {
        for b in all {
            assert_eq!(a == b, a.as_str() == b.as_str());
        }
    }
}

#[test]
fn plan_covers_every_pair_once() {
    let plan = run_plan(&ChunkSize::All, &AlgoOpt::All);
    for (i, size) in [64u64, 128, 256, 512, 1024, 2048, 4096, 8192, 16384].iter().enumerate() {
        for (j, algo) in [
            AlgoOpt::Md5,
            AlgoOpt::Sha1,
            AlgoOpt::Sha2_256,
            AlgoOpt::Sha2_384,
            AlgoOpt::Sha2_512,
            AlgoOpt::Sha3_256,
            AlgoOpt::Sha3_384,
            AlgoOpt::Sha3_512,
            AlgoOpt::Blake3,
        ]
        .iter()
        .enumerate()
        {
            assert_eq!(plan[i * 9 + j], (*size, *algo));
            assert_eq!(plan.iter().filter(|entry| **entry == (*size, *algo)).count(), 1);
        }
    }
}
