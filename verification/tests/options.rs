use anvil_recompress::codec::Lz4Mode;
use anvil_recompress::options::{CompressionScheme, OptionsValidateErrorReason, Payload};
use anvil_recompress::{CompressionAlgorithm, CompressionLevel, RecompressFileOptions};
use std::io::{Cursor, Read};

fn options(algorithm: CompressionAlgorithm, level: CompressionLevel) -> RecompressFileOptions {
    let mut opts = RecompressFileOptions::new(algorithm);
    opts.compression_level = level;
    opts
}

#[test]
fn algorithms_have_names_and_schemes() {
    assert_eq!(CompressionAlgorithm::Zlib.name(), "zlib");
    assert_eq!(CompressionAlgorithm::Gzip.name(), "gzip");
    assert_eq!(CompressionAlgorithm::Uncompressed.name(), "none");
    assert_eq!(CompressionAlgorithm::Lz4.name(), "lz4");
    assert_eq!(CompressionAlgorithm::default(), CompressionAlgorithm::Zlib);
    assert_eq!(CompressionAlgorithm::Zlib.fastanvil_scheme(), CompressionScheme::Zlib);
    assert_eq!(CompressionAlgorithm::Gzip.fastanvil_scheme(), CompressionScheme::Gzip);
    assert_eq!(
        CompressionAlgorithm::Uncompressed.fastanvil_scheme(),
        CompressionScheme::Uncompressed
    );
    assert_eq!(CompressionAlgorithm::Lz4.fastanvil_scheme(), CompressionScheme::Lz4);
}

#[test]
fn levels_print_like_command_line_options() {
    assert_eq!(CompressionLevel::Default.to_text(), "default");
    assert_eq!(CompressionLevel::Best.to_text(), "--best");
    assert_eq!(CompressionLevel::Fast.to_text(), "--fast");
    assert_eq!(CompressionLevel::ExtraFast(3).to_text(), "--fast=3");
    assert_eq!(CompressionLevel::Standard(9).to_text(), "-9");
    assert_eq!(CompressionLevel::default(), CompressionLevel::Default);
}

#[test]
fn new_options_are_the_default_ones() {
    let opts = RecompressFileOptions::new(CompressionAlgorithm::Gzip);
    assert_eq!(opts.compression_algorithm, CompressionAlgorithm::Gzip);
    assert_eq!(opts.compression_level, CompressionLevel::Default);
    assert!(!opts.override_existing);
    assert!(opts.validate().is_ok());
    assert_eq!(opts.clone(), opts);
}

#[test]
fn every_algorithm_accepts_the_default_level() {
    for algorithm in [
        CompressionAlgorithm::Zlib,
        CompressionAlgorithm::Gzip,
        CompressionAlgorithm::Uncompressed,
        CompressionAlgorithm::Lz4,
    ] {
        assert!(RecompressFileOptions::new(algorithm).validate().is_ok());
        assert!(RecompressFileOptions::new(algorithm).is_encodable());
    }
}

#[test]
fn uncompressed_accepts_only_the_default_level() {
    for level in [
        CompressionLevel::Best,
        CompressionLevel::Fast,
        CompressionLevel::Standard(0),
        CompressionLevel::ExtraFast(0),
    ] {
        let error = options(CompressionAlgorithm::Uncompressed, level).validate().unwrap_err();
        assert!(matches!(
            error.reason,
            OptionsValidateErrorReason::InappropriateCompressionLevel {
                algorithm: CompressionAlgorithm::Uncompressed,
                ..
            }
        ));
    }
}

#[test]
fn only_lz4_accepts_extra_fast_levels() {
    let level = CompressionLevel::ExtraFast(4);
    assert!(options(CompressionAlgorithm::Lz4, level).validate().is_ok());
    assert!(options(CompressionAlgorithm::Gzip, level).validate().is_err());
    let error = options(CompressionAlgorithm::Zlib, level).validate().unwrap_err();
    assert_eq!(error.to_text(), "Specified invalid options");
    assert_eq!(
        error.reason.to_text(),
        "Compression level --fast=4 is not appropriate for algorithm zlib"
    );
}

#[test]
fn integer_levels_have_to_fit_an_i32() {
    let last = options(CompressionAlgorithm::Zlib, CompressionLevel::Standard(2_147_483_647));
    assert!(last.validate().is_ok());
    assert!(!last.is_encodable());
    let above = options(CompressionAlgorithm::Zlib, CompressionLevel::Standard(255));
    assert!(above.is_encodable());
    let error = options(CompressionAlgorithm::Lz4, CompressionLevel::Standard(2_147_483_648))
        .validate()
        .unwrap_err();
    assert_eq!(error.reason.to_text(), "Compression level -2147483648 overflowed a i32");
    assert!(matches!(
        error.reason,
        OptionsValidateErrorReason::OverflowCompressionLevel { target_type: "i32", .. }
    ));
}

#[test]
fn inappropriate_levels_are_reported_before_overflows() {
    let error = options(CompressionAlgorithm::Zlib, CompressionLevel::ExtraFast(u32::MAX))
        .validate()
        .unwrap_err();
    assert!(matches!(
        error.reason,
        OptionsValidateErrorReason::InappropriateCompressionLevel { .. }
    ));
}

#[test]
fn integer_values_are_those_of_integer_levels() {
    assert_eq!(CompressionLevel::Standard(5).int_value(), Some(5));
    assert_eq!(CompressionLevel::ExtraFast(6).int_value(), Some(6));
    assert_eq!(CompressionLevel::Best.int_value(), None);
    assert!(CompressionLevel::Best.is_applicable_for(CompressionAlgorithm::Gzip));
    assert!(!CompressionLevel::Best.is_applicable_for(CompressionAlgorithm::Uncompressed));
}

#[test]
fn deflate_levels_are_those_of_the_encoder() {
    let level = |level| options(CompressionAlgorithm::Zlib, level).zlib_level();
    assert_eq!(level(CompressionLevel::Default), flate2::Compression::default().level());
    assert_eq!(level(CompressionLevel::Best), 9);
    assert_eq!(level(CompressionLevel::Fast), 1);
    assert_eq!(level(CompressionLevel::Default), 6);
    assert_eq!(level(CompressionLevel::Standard(4)), 4);
}

#[test]
fn lz4_modes_follow_the_level() {
    let mode = |level| options(CompressionAlgorithm::Lz4, level).lz4_level();
    assert_eq!(mode(CompressionLevel::Default), Lz4Mode::Default);
    assert_eq!(mode(CompressionLevel::Best), Lz4Mode::HighCompression(12));
    assert_eq!(mode(CompressionLevel::Fast), Lz4Mode::HighCompression(0));
    assert_eq!(mode(CompressionLevel::Standard(7)), Lz4Mode::HighCompression(7));
    assert_eq!(mode(CompressionLevel::ExtraFast(2)), Lz4Mode::Fast(2));
}

fn sample() -> Vec<u8> {
    (0..5000u32).map(|i| (i % 37) as u8).collect()
}

fn payload(algorithm: CompressionAlgorithm, level: CompressionLevel) -> Vec<u8> {
    options(algorithm, level).compress(&sample()).unwrap().as_slice().to_vec()
}

#[test]
fn zlib_output_can_be_decompressed() {
    for level in [
        CompressionLevel::Default,
        CompressionLevel::Best,
        CompressionLevel::Fast,
        CompressionLevel::Standard(0),
    ] {
        let payload = payload(CompressionAlgorithm::Zlib, level);
        assert_ne!(payload, sample());
        let mut data = Vec::new();
        flate2::read::ZlibDecoder::new(payload.as_slice()).read_to_end(&mut data).unwrap();
        assert_eq!(data, sample());
    }
}

#[test]
fn gzip_output_can_be_decompressed() {
    let payload = payload(CompressionAlgorithm::Gzip, CompressionLevel::Best);
    assert_eq!(&payload[..2], &[0x1f, 0x8b]);
    let mut data = Vec::new();
    flate2::read::GzDecoder::new(payload.as_slice()).read_to_end(&mut data).unwrap();
    assert_eq!(data, sample());
}

#[test]
fn levels_change_the_output() {
    let stored = payload(CompressionAlgorithm::Zlib, CompressionLevel::Standard(0));
    let best = payload(CompressionAlgorithm::Zlib, CompressionLevel::Best);
    assert!(best.len() < stored.len());
}

#[test]
fn levels_above_the_highest_are_the_highest() {
    for algorithm in [CompressionAlgorithm::Zlib, CompressionAlgorithm::Gzip] {
        let highest = payload(algorithm, CompressionLevel::Standard(10));
        assert_eq!(payload(algorithm, CompressionLevel::Standard(11)), highest);
        assert_eq!(payload(algorithm, CompressionLevel::Standard(255)), highest);
    }
}

#[test]
fn uncompressed_output_is_the_input() {
    let opts = RecompressFileOptions::new(CompressionAlgorithm::Uncompressed);
    let input = sample();
    let payload = opts.compress(&input).unwrap();
    assert!(matches!(payload, Payload::Borrowed(_)));
    assert_eq!(payload.as_slice().as_ptr(), input.as_ptr());
    assert_eq!(payload.as_slice(), input.as_slice());
    assert!(opts.compress(&[]).unwrap().as_slice().is_empty());
}

fn read_lz4(payload: &[u8]) -> Vec<u8> {
    let mut region = fastanvil::Region::create(Cursor::new(Vec::new())).unwrap();
    region
        .write_compressed_chunk(0, 0, fastanvil::CompressionScheme::Lz4, payload)
        .unwrap();
    region.read_chunk(0, 0).unwrap().unwrap()
}

fn stream_bound(len: usize) -> usize {
    len + len / 255 + (len / 33_554_432 + 1) * 37 + 21
}

#[test]
fn lz4_output_is_read_back_as_the_input() {
    for level in [
        CompressionLevel::Default,
        CompressionLevel::Best,
        CompressionLevel::Fast,
        CompressionLevel::Standard(0),
        CompressionLevel::Standard(9),
        CompressionLevel::Standard(2_147_483_647),
        CompressionLevel::ExtraFast(1),
        CompressionLevel::ExtraFast(1000),
    ] {
        let opts = options(CompressionAlgorithm::Lz4, level);
        for input in [
            sample(),
            Vec::new(),
            vec![7],
            (0..=255).collect(),
            vec![1; 65_536],
            vec![1; 65_537],
            vec![1; 300_000],
        ] {
            let payload = opts.compress(&input).unwrap();
            assert!(matches!(payload, Payload::Owned(_)));
            assert_ne!(payload.as_slice(), input.as_slice());
            assert!(payload.as_slice().len() <= stream_bound(input.len()));
            assert_eq!(read_lz4(payload.as_slice()), input);
        }
    }
}

#[test]
fn lz4_output_is_read_back_where_it_does_not_compress() {
    let mut state: u32 = 1;
    let mut noise = Vec::new();
    for _ in 0..200_000 {
        state ^= state << 13;
        state ^= state >> 17;
        state ^= state << 5;
        noise.push((state >> 8) as u8);
    }
    for len in [1, 12, 65_536, 65_537, 200_000] {
        for level in [CompressionLevel::Default, CompressionLevel::Best] {
            let opts = options(CompressionAlgorithm::Lz4, level);
            let payload = opts.compress(&noise[..len]).unwrap();
            assert!(payload.as_slice().len() > len);
            assert!(payload.as_slice().len() <= stream_bound(len));
            assert_eq!(read_lz4(payload.as_slice()), noise[..len]);
        }
    }
}

const END_MARK: [u8; 21] =
    [b'L', b'Z', b'4', b'B', b'l', b'o', b'c', b'k', 0x16, 0, 0, 0, 0, 0, 0, 0, 0, 0, 0, 0, 0];

#[test]
fn lz4_frames_have_a_header() {
    let opts = RecompressFileOptions::new(CompressionAlgorithm::Lz4);
    let payload = opts.compress(b"...").unwrap();
    // the block holds a token and the three bytes as they are
    assert_eq!(
        payload.as_slice(),
        [
            b"LZ4Block\x26\x04\0\0\0\x03\0\0\0\x52\xe4\x77\x06\x30...".as_slice(),
            &END_MARK,
        ]
        .concat()
    );
    assert_eq!(opts.compress(&[]).unwrap().as_slice(), END_MARK);
    assert_eq!(opts.compress(&[5; 65_536]).unwrap().as_slice()[8], 0x26);
    assert_eq!(opts.compress(&[5; 65_537]).unwrap().as_slice()[8], 0x2f);
}

#[test]
fn long_data_takes_several_lz4_frames() {
    let opts = RecompressFileOptions::new(CompressionAlgorithm::Lz4);
    let input = vec![9; 33_554_432 + 3];
    let payload = opts.compress(&input).unwrap();
    let payload = payload.as_slice();
    assert_eq!(&payload[13..17], &33_554_432_u32.to_le_bytes());
    let block = u32::from_le_bytes(payload[9..13].try_into().unwrap()) as usize;
    let second = &payload[21 + block..];
    assert_eq!(&second[..9], b"LZ4Block\x26");
    assert_eq!(&second[13..17], &[3, 0, 0, 0]);
    assert_eq!(&second[21..], [[0x30, 9, 9, 9].as_slice(), &END_MARK].concat());
    assert!(read_lz4(payload) == input);
}

#[test]
fn lz4_makes_data_shorter() {
    assert!(payload(CompressionAlgorithm::Lz4, CompressionLevel::Default).len() < 1000);
    let best = payload(CompressionAlgorithm::Lz4, CompressionLevel::Best);
    let fast = payload(CompressionAlgorithm::Lz4, CompressionLevel::ExtraFast(1000));
    assert!(best.len() <= fast.len());
}
