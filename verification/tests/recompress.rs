use anvil_recompress::errors::FileRecompressErrorKind;
use anvil_recompress::file_spec::{
    FileSpec, FileSpecInternal, FileSpecOpenError, OpenFlags, OpenRequest, OpenedFile, PathFile,
};
use anvil_recompress::recompress::OutputRegion;
use anvil_recompress::region::{has_sound_chunks, RegionError, MAX_LZ4_PAYLOAD};
use anvil_recompress::{
    recompress_region_file, CompressionAlgorithm, CompressionLevel, FileRecompressError,
    RecompressFileOptions, RelativeChunkPos,
};
use std::io::{Cursor, Error, ErrorKind};

type MemoryRegion = fastanvil::Region<Cursor<Vec<u8>>>;

fn noise(len: usize, seed: u32) -> Vec<u8> {
    let mut state = seed.wrapping_mul(2_654_435_761).wrapping_add(12_345);
    let mut data = Vec::with_capacity(len);
    for _ in 0..len {
        state ^= state << 13;
        state ^= state >> 17;
        state ^= state << 5;
        data.push((state >> 8) as u8);
    }
    data
}

fn image(fill: impl Fn(&mut MemoryRegion)) -> Vec<u8> {
    let mut region = fastanvil::Region::create(Cursor::new(Vec::new())).unwrap();
    fill(&mut region);
    region.into_inner().unwrap().into_inner()
}

fn store(region: &mut MemoryRegion, x: usize, z: usize, data: &[u8]) {
    region
        .write_compressed_chunk(x, z, fastanvil::CompressionScheme::Uncompressed, data)
        .unwrap();
}

fn run(
    input: Vec<u8>,
    existing: Vec<u8>,
    opts: &RecompressFileOptions,
) -> (Result<(), FileRecompressError<&'static str>>, Vec<u8>) {
    let job = recompress_region_file("in.mca", "out.mca", opts).unwrap();
    let files = job.files_compared(Some(false)).unwrap();
    let input = files.input_read(input).unwrap();
    let (output, image): (OutputRegion<&'static str>, Vec<u8>) = input.output_opened(existing);
    (output.output_written(Ok(())).map(|_| ()), image)
}

fn chunks(image: &[u8]) -> Vec<Option<Vec<u8>>> {
    let mut region = fastanvil::Region::from_stream(Cursor::new(image.to_vec())).unwrap();
    let mut chunks = Vec::new();
    for z in 0..32 {
        for x in 0..32 {
            chunks.push(region.read_chunk(x, z).unwrap());
        }
    }
    chunks
}

fn sample() -> Vec<u8> {
    image(|region| {
        store(region, 0, 0, b"first chunk");
        region.write_chunk(5, 0, &noise(9000, 1)).unwrap();
        store(region, 0, 31, &[]);
        region.write_chunk(31, 31, &vec![7; 100_000]).unwrap();
    })
}

#[test]
fn every_chunk_keeps_its_content() {
    let input = sample();
    for algorithm in [
        CompressionAlgorithm::Zlib,
        CompressionAlgorithm::Gzip,
        CompressionAlgorithm::Lz4,
        CompressionAlgorithm::Uncompressed,
    ] {
        let (result, output) = run(input.clone(), Vec::new(), &RecompressFileOptions::new(algorithm));
        assert!(result.is_ok());
        assert_eq!(chunks(&output), chunks(&input));
        assert_eq!(chunks(&output).iter().flatten().count(), 4);
        assert_eq!(output.len() % 4096, 0);
    }
}

#[test]
fn chunks_are_stored_under_the_scheme_of_the_algorithm() {
    for (algorithm, scheme) in [
        (CompressionAlgorithm::Gzip, 1),
        (CompressionAlgorithm::Zlib, 2),
        (CompressionAlgorithm::Uncompressed, 3),
        (CompressionAlgorithm::Lz4, 4),
    ] {
        let (_, output) = run(sample(), Vec::new(), &RecompressFileOptions::new(algorithm));
        // the first chunk stands right behind the header
        assert_eq!(&output[..3], &[0, 0, 2]);
        assert_eq!(output[8192 + 4], scheme);
    }
}

#[test]
fn uncompressed_chunks_are_stored_as_they_are() {
    let opts = RecompressFileOptions::new(CompressionAlgorithm::Uncompressed);
    let (_, output) = run(image(|region| store(region, 1, 0, b"abc")), Vec::new(), &opts);
    assert_eq!(output.len(), 3 * 4096);
    assert_eq!(&output[4..8], &[0, 0, 2, 1]);
    assert_eq!(&output[8192..8200], &[0, 0, 0, 4, 3, b'a', b'b', b'c']);
}

#[test]
fn empty_regions_stay_empty() {
    let opts = RecompressFileOptions::new(CompressionAlgorithm::Zlib);
    let (result, output) = run(vec![0; 8192], Vec::new(), &opts);
    assert!(result.is_ok());
    assert_eq!(output, vec![0; 8192]);
    // a file need not have the second table
    let (result, output) = run(vec![0; 4096], Vec::new(), &opts);
    assert!(result.is_ok());
    assert_eq!(output, vec![0; 8192]);
}

#[test]
fn recompressing_twice_changes_nothing_more() {
    let opts = RecompressFileOptions::new(CompressionAlgorithm::Zlib);
    let (_, once) = run(sample(), Vec::new(), &opts);
    let (_, twice) = run(once.clone(), Vec::new(), &opts);
    assert_eq!(once, twice);
}

#[test]
fn recompression_depends_on_the_region_and_the_options_alone() {
    for algorithm in [CompressionAlgorithm::Gzip, CompressionAlgorithm::Uncompressed] {
        let opts = RecompressFileOptions::new(algorithm);
        let (result, output) = run(sample(), Vec::new(), &opts);
        let (other_result, other) = run(sample(), Vec::new(), &opts);
        assert_eq!(result.is_ok(), other_result.is_ok());
        assert_eq!(output, other);
        // what the output held before does not matter for the chunks
        let (other_result, other) = run(sample(), noise(50_000, 4), &opts);
        assert_eq!(result.is_ok(), other_result.is_ok());
        assert_eq!(chunks(&output), chunks(&other));
    }
}

#[test]
fn existing_chunks_of_the_output_are_gone() {
    let opts = RecompressFileOptions::new(CompressionAlgorithm::Uncompressed);
    let existing = image(|region| store(region, 9, 9, &noise(20_000, 3)));
    let (result, output) = run(image(|region| store(region, 1, 1, b"x")), existing, &opts);
    assert!(result.is_ok());
    let chunks = chunks(&output);
    assert_eq!(chunks[33], Some(b"x".to_vec()));
    assert_eq!(chunks.iter().flatten().count(), 1);
}

#[test]
fn invalid_options_come_first() {
    let mut opts = RecompressFileOptions::new(CompressionAlgorithm::Uncompressed);
    opts.compression_level = CompressionLevel::Best;
    let error = recompress_region_file("a", "b", &opts).unwrap_err();
    assert_eq!(error.input_file, "a");
    assert_eq!(error.output_file, "b");
    assert!(matches!(error.kind, FileRecompressErrorKind::InvalidOptions(_)));
    assert_eq!(error.kind.to_text(), "Specified invalid options");
    assert_eq!(
        error.to_text("\"a\"", "\"b\""),
        "Failed to recompress region file \"a\" into \"b\""
    );
}

#[test]
fn files_have_to_differ() {
    let opts = RecompressFileOptions::new(CompressionAlgorithm::Zlib);
    let job = || recompress_region_file("a", "a", &opts).unwrap();
    let error = job().files_compared(Some(true)).unwrap_err();
    assert!(matches!(error.kind, FileRecompressErrorKind::SameFile));
    assert_eq!(error.kind.to_text(), "Input and output files are actually the same file");
    assert_eq!((error.input_file, error.output_file), ("a", "a"));
    assert!(job().files_compared(Some(false)).is_ok());
    assert!(job().files_compared(None).is_ok());
}

#[test]
fn input_that_cannot_be_opened_is_reported() {
    let opts = RecompressFileOptions::new(CompressionAlgorithm::Zlib);
    let files = || recompress_region_file("a", "b", &opts).unwrap().files_compared(None).unwrap();
    let error = files().input_refused(FileSpecOpenError::input(Error::from(ErrorKind::NotFound)));
    assert!(matches!(error.kind, FileRecompressErrorKind::OpenInputFile { .. }));
    assert_eq!(error.kind.to_text(), "Failed to open input file");
    let error = files().input_unreadable(Error::from(ErrorKind::Interrupted));
    assert!(matches!(
        error.kind,
        FileRecompressErrorKind::ReadInput { cause: RegionError::Io(_) }
    ));
    assert_eq!((error.input_file, error.output_file), ("a", "b"));
}

#[test]
fn input_without_a_header_is_no_region() {
    let opts = RecompressFileOptions::new(CompressionAlgorithm::Zlib);
    let files = recompress_region_file("a", "b", &opts).unwrap().files_compared(None).unwrap();
    let error = match files.input_read(vec![0; 4095]) {
        Ok(_) => panic!("the table of locations is not complete"),
        Err(error) => error,
    };
    assert!(matches!(
        error.kind,
        FileRecompressErrorKind::ReadInput { cause: RegionError::Io(_) }
    ));
    assert_eq!(error.kind.to_text(), "Failed to read input region");
}

#[test]
fn output_that_cannot_be_opened_is_reported() {
    for override_existing in [false, true] {
        let mut opts = RecompressFileOptions::new(CompressionAlgorithm::Zlib);
        opts.override_existing = override_existing;
        let files = recompress_region_file("a", "b", &opts).unwrap().files_compared(None).unwrap();
        let input = files.input_read(vec![0; 8192]).ok().unwrap();
        let cause = FileSpecOpenError::output(&opts, Error::from(ErrorKind::AlreadyExists));
        let error = input.output_refused(cause);
        match &error.kind {
            FileRecompressErrorKind::OpenOutput(cause) => {
                assert_eq!(cause.create_new, !override_existing);
            }
            _ => panic!("unexpected error"),
        }
        assert_eq!(
            error.kind.to_text(),
            if override_existing {
                "Failed to open output file"
            } else {
                "Failed to create new output file (is there already an existing file?)"
            }
        );
    }
}

#[test]
fn unknown_schemes_stop_at_the_chunk() {
    let mut input = image(|region| {
        store(region, 0, 0, b"good");
        store(region, 1, 0, b"bad");
        store(region, 2, 0, b"late");
    });
    input[3 * 4096 + 4] = 99;
    let opts = RecompressFileOptions::new(CompressionAlgorithm::Uncompressed);
    let (result, output) = run(input, Vec::new(), &opts);
    let error = result.unwrap_err();
    match &error.kind {
        FileRecompressErrorKind::ReadChunk {
            chunk,
            cause: RegionError::UnknownCompression(99),
        } => {
            assert_eq!((chunk.x(), chunk.z()), (1, 0));
        }
        _ => panic!("unexpected error"),
    }
    assert_eq!(error.kind.to_text(), "Failed to read chunk (1, 0)");
    let chunks = chunks(&output);
    assert_eq!(chunks[0], Some(b"good".to_vec()));
    assert_eq!(chunks.iter().flatten().count(), 1);
}

#[test]
fn damaged_chunks_cannot_be_read() {
    let mut input = image(|region| region.write_chunk(4, 2, &noise(600, 9)).unwrap());
    for byte in &mut input[8192 + 5..8192 + 40] {
        *byte ^= 0x55;
    }
    let opts = RecompressFileOptions::new(CompressionAlgorithm::Gzip);
    let error = run(input, Vec::new(), &opts).0.unwrap_err();
    assert!(matches!(
        error.kind,
        FileRecompressErrorKind::ReadChunk { cause: RegionError::Io(_), .. }
    ));
    assert_eq!(error.kind.to_text(), "Failed to read chunk (4, 2)");
}

#[test]
fn chunks_outside_of_the_file_cannot_be_read() {
    let mut input = vec![0; 8192];
    input[2] = 77;
    input[3] = 1;
    let opts = RecompressFileOptions::new(CompressionAlgorithm::Gzip);
    let error = run(input, Vec::new(), &opts).0.unwrap_err();
    assert!(matches!(
        error.kind,
        FileRecompressErrorKind::ReadChunk { cause: RegionError::Io(_), .. }
    ));
}

#[test]
fn lz4_chunks_keep_their_content_at_every_level() {
    let input = sample();
    for level in [
        CompressionLevel::Best,
        CompressionLevel::Fast,
        CompressionLevel::Standard(5),
        CompressionLevel::ExtraFast(8),
    ] {
        let mut opts = RecompressFileOptions::new(CompressionAlgorithm::Lz4);
        opts.compression_level = level;
        let (result, output) = run(input.clone(), Vec::new(), &opts);
        assert!(result.is_ok());
        assert_eq!(chunks(&output), chunks(&input));
        // what was made can be recompressed in turn
        let back = RecompressFileOptions::new(CompressionAlgorithm::Zlib);
        let (result, again) = run(output, Vec::new(), &back);
        assert!(result.is_ok());
        assert_eq!(chunks(&again), chunks(&input));
    }
    // without chunks there is nothing to compress
    let opts = RecompressFileOptions::new(CompressionAlgorithm::Lz4);
    assert_eq!(run(vec![0; 8192], Vec::new(), &opts).1, vec![0; 8192]);
}

#[test]
fn chunks_that_do_not_compress_are_named() {
    let kind = FileRecompressErrorKind::CompressChunk {
        chunk: RelativeChunkPos::new(6, 7),
        algorithm: CompressionAlgorithm::Lz4,
        cause: Error::from(ErrorKind::InvalidInput),
    };
    assert_eq!(kind.to_text(), "Failed to compress chunk (6, 7) with lz4");
}

#[test]
fn chunks_follow_each_other_in_storage_order() {
    let opts = RecompressFileOptions::new(CompressionAlgorithm::Uncompressed);
    let input = image(|region| {
        store(region, 9, 4, &noise(5000, 1));
        store(region, 3, 0, &noise(4091, 2));
        store(region, 0, 1, &noise(4092, 3));
    });
    let (_, output) = run(input, Vec::new(), &opts);
    let location = |x: usize, z: usize| output[4 * (x + 32 * z)..4 * (x + 32 * z) + 4].to_vec();
    assert_eq!(location(3, 0), vec![0, 0, 2, 1]);
    assert_eq!(location(0, 1), vec![0, 0, 3, 2]);
    assert_eq!(location(9, 4), vec![0, 0, 5, 2]);
    assert_eq!(output.len(), 7 * 4096);
    assert_eq!(&output[4096..8192], vec![0; 4096].as_slice());
    // the last sector is filled up with zeros
    assert_eq!(&output[5 * 4096 + 5005..], vec![0; 7 * 4096 - (5 * 4096 + 5005)].as_slice());
}

#[test]
fn chunks_have_at_most_as_many_sectors_as_a_byte_says() {
    let opts = RecompressFileOptions::new(CompressionAlgorithm::Uncompressed);
    let largest = 255 * 4096 - 5;
    let fits = image(|region| {
        region.write_chunk(0, 0, &vec![1; 10]).unwrap();
        region.write_chunk(1, 0, &vec![0; largest]).unwrap();
    });
    let (result, output) = run(fits.clone(), Vec::new(), &opts);
    assert!(result.is_ok());
    assert_eq!(output[7], 255);
    assert_eq!(chunks(&output), chunks(&fits));
    let too_large = image(|region| {
        region.write_chunk(0, 0, &vec![1; 10]).unwrap();
        region.write_chunk(1, 0, &vec![0; largest + 1]).unwrap();
    });
    let (result, output) = run(too_large, Vec::new(), &opts);
    let error = result.unwrap_err();
    assert!(matches!(
        error.kind,
        FileRecompressErrorKind::WriteChunk { cause: RegionError::ChunkTooLarge, .. }
    ));
    assert_eq!(error.kind.to_text(), "Failed to write chunk (1, 0)");
    assert_eq!(chunks(&output).iter().flatten().count(), 1);
    assert_eq!(chunks(&output)[0], Some(vec![1; 10]));
}

#[test]
fn output_that_cannot_be_written_is_reported() {
    let opts = RecompressFileOptions::new(CompressionAlgorithm::Zlib);
    let job = recompress_region_file("a", "b", &opts).unwrap();
    let input = job.files_compared(None).unwrap().input_read(sample()).ok().unwrap();
    let (output, _) = input.output_opened(Vec::new());
    let error = output.output_written(Err(Error::from(ErrorKind::StorageFull))).unwrap_err();
    assert!(matches!(
        error.kind,
        FileRecompressErrorKind::WriteOutput { cause: RegionError::Io(_) }
    ));
    assert_eq!(error.kind.to_text(), "Failed to write output region");
    assert_eq!((error.input_file, error.output_file), ("a", "b"));
}

#[test]
fn chunk_errors_win_over_write_errors() {
    let opts = RecompressFileOptions::new(CompressionAlgorithm::Zlib);
    let job = recompress_region_file("a", "b", &opts).unwrap();
    let mut damaged = sample();
    damaged[8192 + 4] = 77;
    let input = job.files_compared(None).unwrap().input_read(damaged).ok().unwrap();
    let (output, _) = input.output_opened(Vec::new());
    let error = output.output_written(Err(Error::from(ErrorKind::StorageFull))).unwrap_err();
    assert!(matches!(error.kind, FileRecompressErrorKind::ReadChunk { .. }));
}

#[test]
fn lengths_of_zero_are_noticed() {
    assert!(has_sound_chunks(&vec![0; 4096]));
    assert!(has_sound_chunks(&sample()));
    let mut input = image(|region| store(region, 3, 3, b"abc"));
    assert!(has_sound_chunks(&input));
    input[8192 + 3] = 0;
    assert!(!has_sound_chunks(&input));
    // the scheme does not exist, so the length does not matter
    input[8192 + 4] = 0;
    assert!(has_sound_chunks(&input));
    // neither does it for a chunk that is not in the file
    assert!(has_sound_chunks(&input[..8192]));
}

#[test]
fn excessive_lz4_payloads_are_noticed() {
    let mut input = image(|region| store(region, 0, 0, b"abc"));
    input.resize(8192 + 5 + MAX_LZ4_PAYLOAD + 1, 0xff);
    input[8192..8196].copy_from_slice(&u32::to_be_bytes(MAX_LZ4_PAYLOAD as u32 + 2));
    // an uncompressed chunk may be as long as it likes
    assert!(has_sound_chunks(&input));
    input[8196] = 4;
    assert!(!has_sound_chunks(&input));
    // what counts is what there is of the payload
    assert!(has_sound_chunks(&input[..input.len() - 1]));
}

#[test]
fn paths_are_opened_with_flags() {
    let mut opts = RecompressFileOptions::new(CompressionAlgorithm::Zlib);
    let file = || PathFile { path: "r.0.0.mca" };
    assert_eq!(*FileSpec::<()>::path(&file()), "r.0.0.mca");
    let flags = |request: OpenRequest<()>| match request {
        OpenRequest::Open(flags) => flags,
        OpenRequest::Opened(()) => panic!("nothing is open"),
    };
    assert_eq!(
        flags(file().open_input_file(&opts)),
        OpenFlags { read: true, write: false, create: false, truncate: false, create_new: false }
    );
    assert_eq!(
        flags(file().open_output_file(&opts)),
        OpenFlags { read: true, write: true, create: true, truncate: false, create_new: true }
    );
    opts.override_existing = true;
    assert_eq!(
        flags(file().open_output_file(&opts)),
        OpenFlags { read: true, write: true, create: true, truncate: true, create_new: false }
    );
}

#[test]
fn opened_files_are_handed_out() {
    let opts = RecompressFileOptions::new(CompressionAlgorithm::Zlib);
    let file = OpenedFile { file: 5, path: "r.0.0.mca" };
    assert_eq!(*file.path(), "r.0.0.mca");
    assert!(matches!(file.open_input_file(&opts), OpenRequest::Opened(5)));
    let file = OpenedFile { file: 6, path: "r.0.0.mca" };
    assert!(matches!(file.open_output_file(&opts), OpenRequest::Opened(6)));
}
