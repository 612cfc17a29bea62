use hashbench::data;
use hashbench::hashers::{Algorithm, Blake3, Md5Hasher, Sha1Hasher, Sha2_256, Sha2_384, Sha2_512};
use hashbench::hashers::{Sha3_256Hasher, Sha3_384Hasher, Sha3_512Hasher};
use hashbench::hex::to_hex_str;
use hashbench::native;
use hashbench::native::{HashArg, InputArg};

const ABC_MD5: &str = "900150983CD24FB0D6963F7D28E17F72";
const ABC_SHA1: &str = "A9993E364706816ABA3E25717850C26C9CD0D89D";
const ABC_SHA256: &str = "BA7816BF8F01CFEA414140DE5DAE2223B00361A396177A9CB410FF61F20015AD";
const ABC_SHA384: &str = "CB00753F45A35E8BB5A03D699AC65007272C32AB0EDED1631A8B605A43FF5BED8086072BA1E7CC2358BAECA134C825A7";
const ABC_SHA512: &str = "DDAF35A193617ABACC417349AE20413112E6FA4E89A97EA20A9EEEE64B55D39A2192992A274FC1A836BA3C23A3FEEBBD454D4423643CE80E2A9AC94FA54CA49F";
const ABC_SHA3_256: &str = "3A985DA74FE225B2045C172D6BD390BD855F086E3E9D525B46BFE24511431532";
const ABC_SHA3_384: &str = "EC01498288516FC926459F58E2C6AD8DF9B473CB0FC08C2596DA7CF0E49BE4B298D88CEA927AC7F539F1EDF228376D25";
const ABC_SHA3_512: &str = "B751850B1A57168A5693CD924B6B096E08F621827444F70D884F5D0240D2712E10E116E9192AF3C91A7EC57647E3934057340B4CF408D5A56592F8274EEC53F0";
const ABC_BLAKE3: &str = "6437B3AC38465133FFB63B75273A8DB548C558465D79DB03FD359C6CD5BD9D85";

fn sample_data(len: usize) -> Vec<u8> {
    (0..len).map(|i| ((i * 31 + 7) % 251) as u8).collect()
}

#[test]
fn to_hex_str_renders_upper_case_pairs() {
    assert_eq!(to_hex_str(&[0xbe, 0xef]), "BEEF");
    assert_eq!(to_hex_str(&[]), "");
    assert_eq!(to_hex_str(&[0x00, 0x0f, 0xf0, 0xff, 0x5a]), "000FF0FF5A");
}

#[test]
fn to_hex_str_length_is_twice_the_bytes() {
    let bytes = sample_data(37);
    let hex = to_hex_str(&bytes);
    assert_eq!(hex.len(), 74);
    assert!(hex.chars().all(|c| c.is_ascii_digit() || ('A'..='F').contains(&c)));
}

#[test]
fn to_hex_str_of_concatenation_is_concatenation() {
    let a = sample_data(5);
    let b = sample_data(9);
    let mut ab = a.clone();
    ab.extend_from_slice(&b);
    assert_eq!(to_hex_str(&ab), format!("{}{}", to_hex_str(&a), to_hex_str(&b)));
}

#[test]
fn one_shot_digests_of_abc() {
    let abc = b"abc";
    assert_eq!(data::run_md5(abc), ABC_MD5);
    assert_eq!(data::run_sha1(abc), ABC_SHA1);
    assert_eq!(data::run_sha2_256(abc), ABC_SHA256);
    assert_eq!(data::run_sha2_384(abc), ABC_SHA384);
    assert_eq!(data::run_sha2_512(abc), ABC_SHA512);
    assert_eq!(data::run_sha3_256(abc), ABC_SHA3_256);
    assert_eq!(data::run_sha3_384(abc), ABC_SHA3_384);
    assert_eq!(data::run_sha3_512(abc), ABC_SHA3_512);
    assert_eq!(data::run_blake3(abc), ABC_BLAKE3);
}

#[test]
fn one_shot_digests_of_empty_input() {
    assert_eq!(data::run_md5(&[]), "D41D8CD98F00B204E9800998ECF8427E");
    assert_eq!(data::run_blake3(&[]), "AF1349B9F5F9A1A6A0404DEA36DCC9499BCB25C9ADC112B7CC9A93CAE41F3262");
}

#[test]
fn chunked_digests_of_abc_match_known_values() {
    let abc = b"abc";
    for chunk in [1usize, 2, 3, 512] {
        assert_eq!(to_hex_str(&native::run_md5(abc, chunk)), ABC_MD5);
        assert_eq!(to_hex_str(&native::run_sha1(abc, chunk)), ABC_SHA1);
        assert_eq!(to_hex_str(&native::run_sha2_256(abc, chunk)), ABC_SHA256);
        assert_eq!(to_hex_str(&native::run_sha2_384(abc, chunk)), ABC_SHA384);
        assert_eq!(to_hex_str(&native::run_sha2_512(abc, chunk)), ABC_SHA512);
        assert_eq!(to_hex_str(&native::run_sha3_256(abc, chunk)), ABC_SHA3_256);
        assert_eq!(to_hex_str(&native::run_sha3_384(abc, chunk)), ABC_SHA3_384);
        assert_eq!(to_hex_str(&native::run_sha3_512(abc, chunk)), ABC_SHA3_512);
        assert_eq!(to_hex_str(&native::run_blake3(abc, chunk)), ABC_BLAKE3);
    }
}

#[test]
fn chunk_size_does_not_change_the_digest() {
    let input = sample_data(5000);
    let reference = [
        data::run_md5(&input),
        data::run_sha1(&input),
        data::run_sha2_256(&input),
        data::run_sha2_384(&input),
        data::run_sha2_512(&input),
        data::run_sha3_256(&input),
        data::run_sha3_384(&input),
        data::run_sha3_512(&input),
        data::run_blake3(&input),
    ];
    for chunk in [1usize, 7, 64, 136, 1024, 4999, 5000, 8192] {
        let chunked = [
            to_hex_str(&native::run_md5(&input, chunk)),
            to_hex_str(&native::run_sha1(&input, chunk)),
            to_hex_str(&native::run_sha2_256(&input, chunk)),
            to_hex_str(&native::run_sha2_384(&input, chunk)),
            to_hex_str(&native::run_sha2_512(&input, chunk)),
            to_hex_str(&native::run_sha3_256(&input, chunk)),
            to_hex_str(&native::run_sha3_384(&input, chunk)),
            to_hex_str(&native::run_sha3_512(&input, chunk)),
            to_hex_str(&native::run_blake3(&input, chunk)),
        ];
        assert_eq!(chunked, reference, "chunk size {chunk}");
    }
}

#[test]
fn digest_lengths() {
    let input = sample_data(10);
    assert_eq!(native::run_md5(&input, 4).len(), 16);
    assert_eq!(native::run_sha1(&input, 4).len(), 20);
    assert_eq!(native::run_sha2_256(&input, 4).len(), 32);
    assert_eq!(native::run_sha2_384(&input, 4).len(), 48);
    assert_eq!(native::run_sha2_512(&input, 4).len(), 64);
    assert_eq!(native::run_sha3_256(&input, 4).len(), 32);
    assert_eq!(native::run_sha3_384(&input, 4).len(), 48);
    assert_eq!(native::run_sha3_512(&input, 4).len(), 64);
    assert_eq!(native::run_blake3(&input, 4).len(), 32);
}

#[test]
fn streaming_hashers_concatenate_updates() {
    let mut md5 = Md5Hasher::new();
    md5.update(b"a");
    md5.update(b"");
    md5.update(b"bc");
    assert_eq!(to_hex_str(&md5.finalize()), ABC_MD5);

    let mut sha1 = Sha1Hasher::new();
    sha1.update(b"ab");
    sha1.update(b"c");
    assert_eq!(to_hex_str(&sha1.finalize()), ABC_SHA1);

    let mut sha256 = Sha2_256::new();
    sha256.update(b"abc");
    assert_eq!(to_hex_str(&sha256.finalize()), ABC_SHA256);

    let mut sha384 = Sha2_384::new();
    sha384.update(b"a");
    sha384.update(b"bc");
    assert_eq!(to_hex_str(&sha384.finalize()), ABC_SHA384);

    let mut sha512 = Sha2_512::new();
    sha512.update(b"a");
    sha512.update(b"b");
    sha512.update(b"c");
    assert_eq!(to_hex_str(&sha512.finalize()), ABC_SHA512);

    let mut sha3_256 = Sha3_256Hasher::new();
    sha3_256.update(b"ab");
    sha3_256.update(b"c");
    assert_eq!(to_hex_str(&sha3_256.finalize()), ABC_SHA3_256);

    let mut sha3_384 = Sha3_384Hasher::new();
    sha3_384.update(b"abc");
    assert_eq!(to_hex_str(&sha3_384.finalize()), ABC_SHA3_384);

    let mut sha3_512 = Sha3_512Hasher::new();
    sha3_512.update(b"a");
    sha3_512.update(b"bc");
    assert_eq!(to_hex_str(&sha3_512.finalize()), ABC_SHA3_512);

    let mut blake3 = Blake3::new();
    blake3.update(b"ab");
    blake3.update(b"c");
    assert_eq!(to_hex_str(&blake3.finalize()), ABC_BLAKE3);
}

#[test]
fn fresh_hasher_gives_digest_of_empty_message() {
    assert_eq!(to_hex_str(&Md5Hasher::new().finalize()), "D41D8CD98F00B204E9800998ECF8427E");
}

#[test]
fn hashes_text_lists_every_algorithm() {
    let text = data::hashes_text(b"abc");
    let expected = format!(
        "md5:      {ABC_MD5}\nsha1:     {ABC_SHA1}\nsha2-256: {ABC_SHA256}\nsha2-384: {ABC_SHA384}\nsha2-512: {ABC_SHA512}\nsha3-256: {ABC_SHA3_256}\nsha3-384: {ABC_SHA3_384}\nsha3-512: {ABC_SHA3_512}\nblake3:   {ABC_BLAKE3}\n"
    );
    assert_eq!(text, expected);
}

#[test]
fn input_names_are_two_digit_one_based() {
    assert_eq!(data::input_name(0), "test_01");
    assert_eq!(data::input_name(8), "test_09");
    assert_eq!(data::input_name(9), "test_10");
    assert_eq!(data::input_name(13), "test_14");
    assert_eq!(data::input_name(99), "test_100");
}

#[test]
fn generated_input_sizes() {
    assert_eq!(data::TOTAL_CHUNKS.len(), 14);
    assert_eq!(data::TOTAL_CHUNKS[0] * data::CHUNK_SIZE, 64);
    assert_eq!(data::TOTAL_CHUNKS[13] * data::CHUNK_SIZE, 524288);
}

#[test]
fn hash_arg_selects_algorithm_and_input() {
    let cmd = HashArg::Sha3_384 { input: InputArg::Rand { seed: Some(7), total_chunks: 3 } };
    assert_eq!(cmd.algorithm(), Algorithm::Sha3_384);
    assert!(matches!(cmd.input(), InputArg::Rand { seed: Some(7), total_chunks: 3 }));
    assert_eq!(cmd.algorithm().bench_name(), "sha3_384");
    assert_eq!(to_hex_str(&native::run_hash(&cmd, b"abc", 2)), ABC_SHA3_384);

    let cmd = HashArg::Md5 { input: InputArg::File { path: std::path::PathBuf::from("x") } };
    assert_eq!(cmd.algorithm(), Algorithm::Md5);
    assert_eq!(to_hex_str(&native::run_hash(&cmd, b"abc", 1)), ABC_MD5);
}

#[test]
fn bench_names() {
    assert_eq!(Algorithm::Md5.bench_name(), "md5");
    assert_eq!(Algorithm::Sha1.bench_name(), "sha1");
    assert_eq!(Algorithm::Sha2_256.bench_name(), "sha2_256");
    assert_eq!(Algorithm::Sha2_512.bench_name(), "sha2_512");
    assert_eq!(Algorithm::Sha3_512.bench_name(), "sha3_512");
    assert_eq!(Algorithm::Blake3.bench_name(), "blake3");
}
