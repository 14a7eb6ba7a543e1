use anvil_recompress::cli::{
    check_target, compression_warning, continue_run, is_region_file_name, start_run, Cli,
    EntryError, EntryEvent, EntryFile, EntryFiles, EntryPhase, OutputSpec, RunPhase, TargetError,
};
use anvil_recompress::errors::FileRecompressErrorKind;
use anvil_recompress::region::RegionError;
use anvil_recompress::standalone::{
    StandaloneCli, StandaloneError, StandaloneEvent, StandaloneInput, StandalonePhase,
};
use anvil_recompress::{
    recompress_region_file, CompressionAlgorithm, CompressionLevel, RecompressFileOptions,
    RelativeChunkPos,
};
use std::io::{Cursor, Error, ErrorKind, Read};

fn cli(inplace: bool) -> Cli<&'static str> {
    Cli {
        recurse: false,
        compression: CompressionAlgorithm::Zlib,
        compression_level: None,
        targets: vec!["a.mca"],
        output: OutputSpec { inplace, dest: if inplace { None } else { Some("dest") } },
        override_backups: false,
        override_existing_dest: false,
        quiet: false,
    }
}

fn failed() -> Error {
    Error::from(ErrorKind::PermissionDenied)
}

#[test]
fn levels_of_the_arguments_are_standard_levels() {
    let mut cli = cli(true);
    assert_eq!(cli.recompression_opts().compression_level, CompressionLevel::Default);
    assert_eq!(cli.recompression_opts().compression_algorithm, CompressionAlgorithm::Zlib);
    cli.compression_level = Some(7);
    cli.compression = CompressionAlgorithm::Gzip;
    assert_eq!(cli.recompression_opts().compression_level, CompressionLevel::Standard(7));
    assert_eq!(cli.recompression_opts().compression_algorithm, CompressionAlgorithm::Gzip);
}

#[test]
fn existing_files_are_overridden_only_on_request() {
    for inplace in [false, true] {
        for override_backups in [false, true] {
            for override_existing_dest in [false, true] {
                let mut cli = cli(inplace);
                cli.override_backups = override_backups;
                cli.override_existing_dest = override_existing_dest;
                assert_eq!(
                    cli.recompression_opts().override_existing,
                    if inplace { override_backups } else { override_existing_dest }
                );
            }
        }
    }
}

#[test]
fn lz4_is_warned_of() {
    assert_eq!(
        compression_warning(CompressionAlgorithm::Lz4),
        Some("WARN: Compression choice 'lz4' has not been tested.")
    );
    assert_eq!(compression_warning(CompressionAlgorithm::Zlib), None);
    assert_eq!(compression_warning(CompressionAlgorithm::Uncompressed), None);
}

#[test]
fn region_files_are_known_by_their_names() {
    assert!(is_region_file_name("r.-1.0.mca"));
    assert!(is_region_file_name(".mca"));
    assert!(!is_region_file_name("r.-1.0.MCA"));
    assert!(!is_region_file_name("r.-1.0.mca..bak"));
    assert!(!is_region_file_name("mca"));
    assert!(!is_region_file_name(""));
}

#[test]
fn searches_have_one_target() {
    assert_eq!(start_run(true, 1), Ok(RunPhase::Walk(0)));
    assert_eq!(continue_run(RunPhase::Walk(0), 1), RunPhase::Finished);
    assert_eq!(start_run(true, 2), Err(TargetError::SeveralTargets));
    assert_eq!(start_run(true, 0), Err(TargetError::SeveralTargets));
    assert_eq!(
        TargetError::SeveralTargets.to_text(""),
        "When recursing, cannot have more than one target"
    );
}

#[test]
fn targets_are_checked_before_they_are_processed() {
    let mut phase = start_run(false, 2).unwrap();
    let mut phases = Vec::new();
    while phase != RunPhase::Finished {
        phases.push(phase);
        phase = continue_run(phase, 2);
    }
    assert_eq!(
        phases,
        vec![RunPhase::Check(0), RunPhase::Check(1), RunPhase::Process(0), RunPhase::Process(1)]
    );
    assert_eq!(start_run(false, 0), Ok(RunPhase::Finished));
}

#[test]
fn targets_have_to_be_files_and_relative_for_a_destination() {
    assert_eq!(check_target(false, 3, false, false), Err(TargetError::NotRelative(3)));
    assert_eq!(check_target(false, 3, true, false), Err(TargetError::NotAFile(3)));
    assert_eq!(check_target(false, 3, true, true), Ok(()));
    assert_eq!(check_target(true, 3, false, true), Ok(()));
    assert_eq!(check_target(true, 3, false, false), Err(TargetError::NotAFile(3)));
    assert_eq!(
        TargetError::NotRelative(0).to_text("\"/a\""),
        "When using --dest option, only relative paths are allowed: \"/a\""
    );
    assert_eq!(TargetError::NotAFile(0).to_text("\"a\""), "Target must be an existing file: \"a\"");
}

#[test]
fn replaced_files_get_a_backup() {
    let cli = cli(true);
    // the path does not matter
    assert_eq!(cli.process_entry(false).unwrap(), EntryPhase::CheckBackup);
    let phase = cli.process_entry(true).unwrap();
    let phase = cli.continue_entry(phase, EntryEvent::BackupExists(false)).unwrap();
    assert_eq!(phase, EntryPhase::CreateBackup { overriding: false });
    let phase = cli.continue_entry(phase, EntryEvent::Done).unwrap();
    assert_eq!(
        phase,
        EntryPhase::Recompress(EntryFiles { input: EntryFile::Backup, output: EntryFile::Target })
    );
    let phase = cli.continue_entry(phase, EntryEvent::Done).unwrap();
    assert_eq!(phase, EntryPhase::Report);
    assert_eq!(cli.continue_entry(phase, EntryEvent::Done).unwrap(), EntryPhase::Finished);
}

#[test]
fn existing_backups_are_overridden_only_on_request() {
    let mut cli = cli(true);
    let error = cli
        .continue_entry(EntryPhase::CheckBackup, EntryEvent::BackupExists(true))
        .unwrap_err();
    assert!(matches!(error, EntryError::BackupExists));
    assert_eq!(
        error.to_text("\"a.mca\"", "").unwrap(),
        "Cannot process \"a.mca\" inplace as a backup file already exists"
    );
    cli.override_backups = true;
    assert_eq!(
        cli.continue_entry(EntryPhase::CheckBackup, EntryEvent::BackupExists(true)).unwrap(),
        EntryPhase::CreateBackup { overriding: true }
    );
}

#[test]
fn destinations_take_relative_paths() {
    let mut cli = cli(false);
    let error = cli.process_entry(false).unwrap_err();
    assert!(matches!(error, EntryError::NotRelative));
    assert_eq!(error.to_text("\"/a\"", "").unwrap(), "A relative path is required (got \"/a\")");
    let phase = cli.process_entry(true).unwrap();
    assert_eq!(phase, EntryPhase::CreateParent);
    let phase = cli.continue_entry(phase, EntryEvent::Done).unwrap();
    assert_eq!(
        phase,
        EntryPhase::Recompress(EntryFiles {
            input: EntryFile::Target,
            output: EntryFile::Destination,
        })
    );
    cli.quiet = true;
    assert_eq!(cli.continue_entry(phase, EntryEvent::Done).unwrap(), EntryPhase::Finished);
}

#[test]
fn failures_of_entries_are_reported() {
    let cli = cli(false);
    let error = cli
        .continue_entry(EntryPhase::CreateBackup { overriding: false }, EntryEvent::IoFailed(failed()))
        .unwrap_err();
    assert!(matches!(error, EntryError::CreateBackup(_)));
    assert_eq!(error.to_text("", "").unwrap(), "Failed to create backup");
    let error = cli
        .continue_entry(EntryPhase::CreateParent, EntryEvent::IoFailed(failed()))
        .unwrap_err();
    assert!(matches!(error, EntryError::CreateParent(_)));
    assert_eq!(
        error.to_text("\"dest\"", "\"dest/a\"").unwrap(),
        "Failed to create parent \"dest\" for \"dest/a\""
    );
    let mut opts = RecompressFileOptions::new(CompressionAlgorithm::Uncompressed);
    opts.compression_level = CompressionLevel::Fast;
    let cause = recompress_region_file("a", "b", &opts).unwrap_err();
    let files = EntryFiles { input: EntryFile::Target, output: EntryFile::Destination };
    let error = cli
        .continue_entry(EntryPhase::Recompress(files), EntryEvent::RecompressFailed(cause))
        .unwrap_err();
    assert!(matches!(error, EntryError::Recompress(_)));
    assert!(error.to_text("", "").is_none());
}

fn standalone(inplace: bool) -> StandaloneCli<&'static str> {
    StandaloneCli {
        recurse: false,
        compression: CompressionAlgorithm::Zlib,
        compression_level: None,
        targets: vec!["a.mca"],
        output: OutputSpec { inplace, dest: if inplace { None } else { Some("dest") } },
        override_backups: false,
        quiet: false,
    }
}

fn standalone_phases(cli: &StandaloneCli<&'static str>) -> Vec<StandalonePhase> {
    let mut phase = cli.process_entry(true).unwrap();
    let mut phases = vec![phase];
    while phase != StandalonePhase::Finished {
        let event = match phase {
            StandalonePhase::CheckBackup => StandaloneEvent::BackupExists(false),
            StandalonePhase::CompareFiles(_) => StandaloneEvent::Compared(None),
            _ => StandaloneEvent::Done,
        };
        phase = cli.continue_entry(phase, event).unwrap();
        phases.push(phase);
    }
    phases
}

#[test]
fn standalone_entries_go_in_order() {
    let files = EntryFiles { input: EntryFile::Backup, output: EntryFile::Target };
    assert_eq!(
        standalone_phases(&standalone(true)),
        vec![
            StandalonePhase::CheckBackup,
            StandalonePhase::CreateBackup { overriding: false },
            StandalonePhase::CompareFiles(files),
            StandalonePhase::OpenInput(files),
            StandalonePhase::OpenOutput(files),
            StandalonePhase::Recompress(files),
            StandalonePhase::Report,
            StandalonePhase::Finished,
        ]
    );
    let files = EntryFiles { input: EntryFile::Target, output: EntryFile::Destination };
    let mut cli = standalone(false);
    cli.quiet = true;
    assert_eq!(
        standalone_phases(&cli),
        vec![
            StandalonePhase::CompareFiles(files),
            StandalonePhase::OpenInput(files),
            StandalonePhase::CreateParent(files),
            StandalonePhase::OpenOutput(files),
            StandalonePhase::Recompress(files),
            StandalonePhase::Finished,
        ]
    );
}

#[test]
fn standalone_output_is_always_emptied() {
    let flags = standalone(true).output_flags();
    assert!(flags.read && flags.write && flags.create && flags.truncate);
    assert!(!flags.create_new);
}

#[test]
fn standalone_failures_are_reported() {
    let cli = standalone(false);
    let files = EntryFiles { input: EntryFile::Target, output: EntryFile::Destination };
    let message = |error: StandaloneError| error.to_text("T", "I", "O", "P");
    let fail = |phase, event| message(cli.continue_entry(phase, event).unwrap_err());
    assert_eq!(
        message(cli.process_entry(false).unwrap_err()),
        "A relative path is required (got T)"
    );
    assert_eq!(
        fail(StandalonePhase::CheckBackup, StandaloneEvent::BackupExists(true)),
        "Cannot process T inplace as a backup file already exists"
    );
    assert_eq!(
        fail(
            StandalonePhase::CreateBackup { overriding: false },
            StandaloneEvent::IoFailed(failed())
        ),
        "Failed to create backup"
    );
    assert_eq!(
        fail(StandalonePhase::CompareFiles(files), StandaloneEvent::Compared(Some(true))),
        "Internal Error: Cannot process file I as output O is actually the same file"
    );
    assert_eq!(
        fail(StandalonePhase::OpenInput(files), StandaloneEvent::IoFailed(failed())),
        "Failed to open region file I"
    );
    assert_eq!(
        fail(
            StandalonePhase::OpenInput(files),
            StandaloneEvent::RegionFailed(RegionError::Io(failed()))
        ),
        "Failed to open region file I"
    );
    assert_eq!(
        fail(StandalonePhase::CreateParent(files), StandaloneEvent::IoFailed(failed())),
        "Failed to create parent P for O"
    );
    assert_eq!(
        fail(StandalonePhase::OpenOutput(files), StandaloneEvent::IoFailed(failed())),
        "Failed to create region file O"
    );
    assert_eq!(
        fail(
            StandalonePhase::OpenOutput(files),
            StandaloneEvent::RegionFailed(RegionError::Io(failed()))
        ),
        "Failed to create region file O"
    );
    let chunk = RelativeChunkPos::new(3, 4);
    let chunk_fail = |kind| fail(StandalonePhase::Recompress(files), StandaloneEvent::ChunkFailed(kind));
    assert_eq!(
        chunk_fail(FileRecompressErrorKind::ReadChunk { chunk, cause: RegionError::Io(failed()) }),
        "Failed to read chunk (3, 4) from I"
    );
    assert_eq!(
        chunk_fail(FileRecompressErrorKind::CompressChunk {
            chunk,
            algorithm: CompressionAlgorithm::Lz4,
            cause: failed(),
        }),
        "Compression failure for chunk (3, 4)"
    );
    assert_eq!(
        chunk_fail(FileRecompressErrorKind::WriteChunk { chunk, cause: RegionError::ChunkTooLarge }),
        "Failed to write chunk (3, 4) to O"
    );
    assert_eq!(
        chunk_fail(FileRecompressErrorKind::WriteOutput { cause: RegionError::InvalidOffset(1, 2) }),
        "Failed to write output region"
    );
}

#[test]
fn standalone_compression_goes_by_the_level() {
    let mut cli = standalone(true);
    let data = vec![3; 4000];
    let compress = |cli: &StandaloneCli<&'static str>| {
        cli.compress(&data).unwrap().as_slice().to_vec()
    };
    let payload = compress(&cli);
    let mut read = Vec::new();
    flate2::read::ZlibDecoder::new(payload.as_slice()).read_to_end(&mut read).unwrap();
    assert_eq!(read, data);
    cli.compression_level = Some(0);
    assert!(compress(&cli).len() > payload.len());
    cli.compression = CompressionAlgorithm::Gzip;
    assert_eq!(compress(&cli)[0], 0x1f);
    // a level without an algorithm is passed over
    cli.compression = CompressionAlgorithm::Uncompressed;
    assert_eq!(cli.compress(&data).unwrap().as_slice().as_ptr(), data.as_ptr());
    assert_eq!(compress(&cli), data);
    cli.compression = CompressionAlgorithm::Lz4;
    let mut region = fastanvil::Region::create(Cursor::new(Vec::new())).unwrap();
    region
        .write_compressed_chunk(0, 0, fastanvil::CompressionScheme::Lz4, &compress(&cli))
        .unwrap();
    assert_eq!(region.read_chunk(0, 0).unwrap().unwrap(), data);
}

#[test]
fn standalone_recompression_keeps_every_chunk() {
    let mut region = fastanvil::Region::create(Cursor::new(Vec::new())).unwrap();
    region.write_chunk(2, 3, b"some data").unwrap();
    let image = region.into_inner().unwrap().into_inner();
    let mut cli = standalone(true);
    cli.compression = CompressionAlgorithm::Gzip;
    cli.compression_level = Some(9);
    let input = StandaloneInput::open(image).ok().unwrap();
    let (outcome, output) = cli.recompress_chunks(input, Vec::new());
    assert!(outcome.is_ok());
    let mut region = fastanvil::Region::from_stream(Cursor::new(output)).unwrap();
    assert_eq!(region.read_chunk(2, 3).unwrap(), Some(b"some data".to_vec()));
    assert_eq!(region.read_chunk(0, 0).unwrap(), None);
    assert!(matches!(StandaloneInput::open(vec![0; 100]).err(), Some(RegionError::Io(_))));
}
