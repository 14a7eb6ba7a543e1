use anvil_recompress::cache::column::ColumnError;
use anvil_recompress::cache::hashing::{
    InputHashing, InputTimed, LoadError, OutputHashing, OutputTime, OutputTimed,
};
use anvil_recompress::cache::incremental::{Decision, Emptied};
use anvil_recompress::cache::lock::LockKind;
use anvil_recompress::cache::open::{OpenAction, OpenEvent};
use anvil_recompress::cache::{
    json_column_result, CacheGcError, CacheGcOpts, CacheOpenErrorReason, CachePaths, CachedHash,
    CachedRecompressErrorReason, Checksum, ColumnValue, FileLockErrorReason, FileModificationTime,
    FileRewindError, HashFileError, HashFileErrorReason, HashFileKind, HashRow, IncrementalCache,
    IncrementalRecompression, ModTimeResolveError, OpenPhase, OptionsJson, OutputRow, Statement,
    CACHEDIR_TAG_CONTENTS,
};
use anvil_recompress::recompress::RecompressedFile;
use anvil_recompress::{
    recompress_region_file, CompressionAlgorithm, CompressionLevel, FileRecompressError,
    RecompressFileOptions,
};
use std::io::{Error, ErrorKind};

#[test]
fn cachedir_tag_no_leading_whitespace() {
    // ensures the signature line has no leading whitespace
    assert!(CACHEDIR_TAG_CONTENTS.starts_with("Signature: 8a477"));
}

const EMPTY_HASH: &str = "af1349b9f5f9a1a6a0404dea36dcc9499bcb25c9adc112b7cc9a93cae41f3262";

fn text(text: &str) -> ColumnValue {
    ColumnValue::Text(text.as_bytes().to_vec())
}

fn text_of(value: &ColumnValue) -> String {
    match value {
        ColumnValue::Text(bytes) => String::from_utf8(bytes.clone()).unwrap(),
        _ => panic!("text expected"),
    }
}

fn time(seconds: i64) -> FileModificationTime {
    FileModificationTime::for_meta(seconds, 0).unwrap()
}

fn params(statement: &Statement) -> Vec<(Option<&'static str>, String)> {
    statement.params.iter().map(|param| (param.name, text_of(&param.value))).collect()
}

#[test]
fn checksums_are_blake3_hashes() {
    assert_eq!(Checksum::of_contents(b"").to_text(), EMPTY_HASH);
    assert_eq!(
        Checksum::of_contents(b"abc").to_text(),
        blake3::hash(b"abc").to_hex().to_string()
    );
    assert_ne!(Checksum::of_contents(b"abc"), Checksum::of_contents(b"abd"));
}

#[test]
fn checksums_come_back_from_columns() {
    let checksum = Checksum::of_contents(b"some contents");
    let value = checksum.to_sql();
    assert_eq!(text_of(&value), checksum.to_text());
    assert_eq!(Checksum::column_result(&value).unwrap(), checksum);
    let upper = text(&checksum.to_text().to_uppercase());
    assert_eq!(Checksum::column_result(&upper).unwrap(), checksum);
}

#[test]
fn columns_without_a_checksum_are_refused() {
    let error = |value: ColumnValue| Checksum::column_result(&value).unwrap_err();
    assert!(matches!(error(ColumnValue::Null), ColumnError::InvalidType));
    assert!(matches!(error(ColumnValue::Integer(3)), ColumnError::InvalidType));
    assert!(matches!(error(ColumnValue::Blob(vec![0; 64])), ColumnError::InvalidType));
    assert!(matches!(error(ColumnValue::Text(vec![0xff])), ColumnError::InvalidUtf8));
    assert!(matches!(error(text("")), ColumnError::InvalidChecksum));
    assert!(matches!(error(text(&EMPTY_HASH[1..])), ColumnError::InvalidChecksum));
    assert!(matches!(error(text(&EMPTY_HASH.replace('a', "g"))), ColumnError::InvalidChecksum));
    assert!(matches!(error(text(&"é".repeat(32))), ColumnError::InvalidChecksum));
}

#[test]
fn times_are_written_with_nanoseconds() {
    let time = FileModificationTime::for_meta(1_546_398_245, 6_007_008).unwrap();
    assert_eq!(time.to_text(), "2019-01-02T03:04:05.006007008Z");
    assert_eq!(time.to_timestamp(), 1_546_398_245_006_007_008);
    assert_eq!(FileModificationTime::for_meta(0, 0).unwrap().to_text(), "1970-01-01T00:00:00.000000000Z");
    assert_eq!(FileModificationTime::for_meta(-1, 999_999_999).unwrap().to_timestamp(), -1);
}

#[test]
fn times_come_back_from_columns() {
    for (seconds, nanoseconds) in [
        (0, 0),
        (1_700_000_000, 123_456_789),
        (1_700_000_000, 1),
        (1_700_000_000, 999_999_999),
        (-62_167_219_200, 0),
        (253_402_300_799, 999_999_999),
    ] {
        let time = FileModificationTime::for_meta(seconds, nanoseconds).unwrap();
        assert!(time.is_writable());
        assert_eq!(FileModificationTime::column_result(&time.to_sql()).unwrap(), time);
    }
}

#[test]
fn old_databases_hold_times_as_blobs() {
    let blob = |nanos: i128| {
        ColumnValue::Blob((nanos ^ (1_i128 << 127)).to_be_bytes().to_vec())
    };
    let nanos = 1_546_398_245_006_007_008;
    let time = FileModificationTime::column_result(&blob(nanos)).unwrap();
    assert_eq!(time.to_timestamp(), nanos);
    assert_eq!(FileModificationTime::column_result(&blob(-5)).unwrap().to_timestamp(), -5);
    let error = |value: ColumnValue| FileModificationTime::column_result(&value).unwrap_err();
    assert!(matches!(error(blob(i128::MAX)), ColumnError::TimeOutOfRange));
    assert!(matches!(error(blob(253_402_300_800_000_000_000)), ColumnError::TimeOutOfRange));
    assert!(matches!(error(ColumnValue::Blob(vec![0; 15])), ColumnError::InvalidBlobSize));
}

#[test]
fn times_with_an_offset_are_read() {
    let read = |notation: &str| FileModificationTime::column_result(&text(notation));
    let moment = |notation: &str| read(notation).unwrap().to_timestamp();
    assert_eq!(moment("1970-01-01T01:00:00+01:00"), 0);
    assert_eq!(moment("1969-12-31T23:00:00-01:00"), 0);
    assert_eq!(moment("1970-01-01T00:00:01Z"), 1_000_000_000);
    // without an offset it is a time in UTC
    assert_eq!(moment("1970-01-01T00:00:01"), 1_000_000_000);
    assert_eq!(moment("9999-12-31T23:59:59Z"), 253_402_300_799_000_000_000);
    assert_eq!(moment("9999-12-31T23:59:59+01:00"), 253_402_297_199_000_000_000);
    // the offset moves these out of range
    for notation in [
        "9999-12-31T23:59:59-01:00",
        "-009999-01-01T00:00:00+01:00",
        "9999-12-31T23:59:60-01:00",
    ] {
        assert!(matches!(read(notation), Err(ColumnError::InvalidTime)));
    }
}

#[test]
fn columns_without_a_time_are_refused() {
    let error = |value: ColumnValue| FileModificationTime::column_result(&value).unwrap_err();
    assert!(matches!(error(ColumnValue::Null), ColumnError::InvalidType));
    assert!(matches!(error(ColumnValue::Integer(0)), ColumnError::InvalidType));
    assert!(matches!(error(ColumnValue::Real(None)), ColumnError::InvalidType));
    assert!(matches!(error(text("yesterday")), ColumnError::InvalidTime));
    assert!(matches!(error(ColumnValue::Text(vec![0xc0])), ColumnError::InvalidUtf8));
}

#[test]
fn metadata_without_a_time_is_explained() {
    let message = |seconds, nanos| FileModificationTime::for_meta(seconds, nanos).unwrap_err();
    assert_eq!(message(3, -1), "ctime (3, -1) is not valid: nanoseconds don't fit in u32");
    assert_eq!(
        message(3, 4_294_967_296),
        "ctime (3, 4294967296) is not valid: nanoseconds don't fit in u32"
    );
    assert_eq!(
        message(3, 1_000_000_000),
        "ctime (3, 1000000000) is not valid: nanoseconds was not in range"
    );
    assert_eq!(
        message(253_402_300_800, 0),
        "ctime (253402300800, 0) is not valid: seconds was not in range"
    );
    assert_eq!(
        message(-377_705_116_801, 1_000_000_000),
        "ctime (-377705116801, 1000000000) is not valid: seconds was not in range"
    );
}

#[test]
fn times_before_the_year_zero_have_no_text() {
    let time = FileModificationTime::for_meta(-377_705_116_800, 0).unwrap();
    assert!(!time.is_writable());
    assert!(!FileModificationTime::for_meta(-62_167_219_201, 999_999_999).unwrap().is_writable());
    assert_eq!(FileModificationTime::from_timestamp(7).unwrap().to_timestamp(), 7);
    assert!(FileModificationTime::from_timestamp(i128::MIN).is_none());
}

fn all_options() -> Vec<RecompressFileOptions> {
    let mut all = Vec::new();
    for algorithm in [
        CompressionAlgorithm::Zlib,
        CompressionAlgorithm::Gzip,
        CompressionAlgorithm::Uncompressed,
        CompressionAlgorithm::Lz4,
    ] {
        for level in [
            CompressionLevel::Default,
            CompressionLevel::Best,
            CompressionLevel::Fast,
            CompressionLevel::Standard(0),
            CompressionLevel::Standard(10),
            CompressionLevel::ExtraFast(10),
            CompressionLevel::ExtraFast(u32::MAX),
        ] {
            for override_existing in [false, true] {
                let mut opts = RecompressFileOptions::new(algorithm);
                opts.compression_level = level;
                opts.override_existing = override_existing;
                all.push(opts);
            }
        }
    }
    all
}

#[test]
fn options_are_written_in_order() {
    let mut opts = RecompressFileOptions::new(CompressionAlgorithm::Uncompressed);
    let notation = |opts: &RecompressFileOptions| text_of(&OptionsJson::new(opts).to_sql());
    assert_eq!(
        notation(&opts),
        r#"{"compression_algorithm":"None","compression_level":"Default","override_existing":false}"#
    );
    opts.compression_level = CompressionLevel::Standard(12);
    opts.override_existing = true;
    assert_eq!(
        notation(&opts),
        r#"{"compression_algorithm":"None","compression_level":{"Standard":12},"override_existing":true}"#
    );
}

#[test]
fn options_come_back_from_columns() {
    for opts in all_options() {
        let options = OptionsJson::new(&opts);
        let read = json_column_result(&options.to_sql()).unwrap();
        assert!(options.has_notation(&read));
        // also where the members come in another order
        let value: serde_json::Value = serde_json::from_str(&read).unwrap();
        assert_eq!(serde_json::to_string(&value).unwrap(), read);
    }
}

#[test]
fn different_options_have_different_notations() {
    let mut notations: Vec<String> =
        all_options().iter().map(|opts| text_of(&OptionsJson::new(opts).to_sql())).collect();
    let count = notations.len();
    notations.sort();
    notations.dedup();
    assert_eq!(notations.len(), count);
}

#[test]
fn columns_hold_json_in_several_ways() {
    let read = |value: ColumnValue| json_column_result(&value).unwrap();
    assert_eq!(read(text("[ 1, 2 ]")), "[1,2]");
    assert_eq!(read(ColumnValue::Blob(b"{\"b\":1,\"a\":2}".to_vec())), "{\"a\":2,\"b\":1}");
    assert_eq!(read(ColumnValue::Integer(-12)), "-12");
    assert_eq!(read(ColumnValue::Real(Some("0.5".to_string()))), "0.5");
    assert_eq!(read(ColumnValue::Null), "null");
    assert!(matches!(json_column_result(&text("text")), Err(ColumnError::InvalidJson)));
    assert!(matches!(
        json_column_result(&ColumnValue::Real(None)),
        Err(ColumnError::InvalidType)
    ));
}

#[test]
fn garbage_collection_without_outputs_removes_inputs_only() {
    let statements = IncrementalCache::garbage_collect(&CacheGcOpts::default());
    assert_eq!(statements.len(), 1);
    assert!(statements[0].sql.starts_with("-- delete input files whose hash is not used\nDELETE FROM cached_input_files AS input\n"));
    assert!(statements[0].sql.contains("WHERE rn > 5"));
    assert!(statements[0].params.is_empty());
    assert_eq!(CacheGcError("x").to_text(), "Failed to GC cache database");
}

#[test]
fn garbage_collection_keeps_the_outputs_that_it_is_told() {
    let mut opts = CacheGcOpts::default();
    opts.remove_all_outputs_except =
        Some(vec![Some("a.mca".to_string()), None, Some("b.mca".to_string())]);
    let statements = IncrementalCache::garbage_collect(&opts);
    assert_eq!(statements.len(), 5);
    assert_eq!(
        statements[0].sql,
        "CREATE TEMPORARY TABLE output_files_to_keep(\n    relative_path TEXT\n);\n"
    );
    assert_eq!(statements[1].sql, "INSERT INTO output_files_to_keep VALUES (?);");
    assert_eq!(params(&statements[1]), vec![(None, "a.mca".to_string())]);
    assert_eq!(params(&statements[2]), vec![(None, "b.mca".to_string())]);
    assert!(statements[3].sql.starts_with("DELETE FROM cached_output_files\n"));
    assert!(statements[3].sql.ends_with("DROP TABLE output_files_to_keep;\n"));
    assert!(statements[4].sql.starts_with("-- delete input files"));
}

fn paths() -> CachePaths<&'static str> {
    CachePaths { cache_subdir: "dir", lockfile_path: "lock", database_file: "db" }
}

fn open_with(tag_file: bool, version: u32) -> (Vec<OpenPhase>, Vec<String>, Option<String>) {
    let mut phase = IncrementalCache::open();
    let mut phases = Vec::new();
    let mut executed = Vec::new();
    let mut paths = paths();
    loop {
        phases.push(phase);
        let event: OpenEvent<&'static str> = match phase.action() {
            OpenAction::CheckTagFile => OpenEvent::TagFile(tag_file),
            OpenAction::WriteTagFile(contents) => {
                assert_eq!(contents, CACHEDIR_TAG_CONTENTS);
                OpenEvent::Done
            }
            OpenAction::ReadVersion(sql) => {
                assert_eq!(sql, "PRAGMA user_version;");
                OpenEvent::Version(version)
            }
            OpenAction::Execute(statement) => {
                executed.push(statement.sql);
                OpenEvent::Done
            }
            OpenAction::Lock(kind) => {
                assert_eq!(kind, LockKind::Shared);
                OpenEvent::Done
            }
            OpenAction::Opened => return (phases, executed, None),
            _ => OpenEvent::Done,
        };
        match phase.next(paths, event) {
            Ok((next, same_paths)) => {
                phase = next;
                paths = same_paths;
            }
            Err(reason) => return (phases, executed, Some(reason.to_text("\"db\""))),
        }
    }
}

#[test]
fn new_caches_are_set_up() {
    let (phases, executed, error) = open_with(false, 0);
    assert_eq!(
        phases,
        vec![
            OpenPhase::CreateCacheDir,
            OpenPhase::CheckTagFile,
            OpenPhase::WriteTagFile,
            OpenPhase::CreateLockfile,
            OpenPhase::LockShared,
            OpenPhase::OpenDatabase,
            OpenPhase::ReadVersion,
            OpenPhase::Configure(0),
            OpenPhase::SetUp(0),
            OpenPhase::SetUp(1),
            OpenPhase::SetUp(2),
            OpenPhase::SetUp(3),
            OpenPhase::Opened,
        ]
    );
    assert!(error.is_none());
    assert!(executed[0].starts_with("PRAGMA foreign_keys = ON;\nPRAGMA journal_mode = WAL;\n"));
    assert_eq!(executed[1], "DROP TABLE IF EXISTS cached_input_files");
    assert_eq!(executed[2], "DROP TABLE IF EXISTS cached_output_files");
    assert!(executed[3].starts_with("CREATE TABLE cached_input_files (\n    path TEXT PRIMARY KEY,\n"));
    assert_eq!(executed[4], "PRAGMA user_version = 1;");
}

#[test]
fn current_caches_are_used_as_they_are() {
    let (phases, executed, error) = open_with(true, 1);
    assert!(!phases.contains(&OpenPhase::WriteTagFile));
    assert_eq!(phases.last(), Some(&OpenPhase::Opened));
    assert_eq!(executed.len(), 1);
    assert!(error.is_none());
}

#[test]
fn newer_caches_are_refused() {
    let (phases, executed, error) = open_with(true, 2);
    assert_eq!(phases.last(), Some(&OpenPhase::Configure(2)));
    assert_eq!(executed.len(), 1);
    assert_eq!(
        error.unwrap(),
        "Database file has version 2, newer then expected 1 at \"db\""
    );
}

#[test]
fn sql_of_the_cache_is_understood_by_sqlite() {
    let database = rusqlite::Connection::open_in_memory().unwrap();
    let (_, executed, _) = open_with(false, 0);
    for sql in executed {
        database.execute_batch(&sql).unwrap();
    }
    let version: u32 = database.query_row("PRAGMA user_version;", (), |row| row.get(0)).unwrap();
    assert_eq!(version, 1);
    let mut opts = CacheGcOpts::default();
    opts.remove_all_outputs_except = Some(Vec::new());
    for statement in IncrementalCache::garbage_collect(&opts) {
        database.execute_batch(&statement.sql).unwrap();
    }
    let input = InputHashing::new("in")
        .path_converted::<()>(Ok("in".to_string()))
        .unwrap();
    assert!(database.prepare(&input.query().sql).is_ok());
    assert!(database.prepare(&files().query().sql).is_ok());
}

fn collect_garbage(database: &rusqlite::Connection, opts: &CacheGcOpts) {
    for statement in IncrementalCache::garbage_collect(opts) {
        match statement.params.first() {
            Some(param) => {
                database.execute(&statement.sql, [text_of(&param.value)]).unwrap();
            }
            None => database.execute_batch(&statement.sql).unwrap(),
        }
    }
}

fn column(database: &rusqlite::Connection, sql: &str) -> Vec<String> {
    let mut statement = database.prepare(sql).unwrap();
    let rows = statement.query_map((), |row| row.get(0)).unwrap();
    rows.map(|row| row.unwrap()).collect()
}

fn entries(database: &rusqlite::Connection) -> (Vec<String>, Vec<String>) {
    (
        column(database, "SELECT path FROM cached_input_files ORDER BY path"),
        column(database, "SELECT relative_path FROM cached_output_files ORDER BY relative_path"),
    )
}

#[test]
fn a_second_collection_changes_nothing() {
    let database = rusqlite::Connection::open_in_memory().unwrap();
    for sql in open_with(false, 0).1 {
        database.execute_batch(&sql).unwrap();
    }
    for (path, hash, used) in [
        ("a", "h1", Some("2024-01-05")),
        ("b", "h1", Some("2024-01-03")),
        ("c", "h1", None),
        ("d", "h1", Some("2024-01-04")),
        ("e", "h1", Some("2024-01-01")),
        ("f", "h1", Some("2024-01-02")),
        ("g", "h1", Some("2023-12-31")),
        ("h", "h2", None),
        ("i", "h3", Some("2024-01-09")),
        ("j", "h4", Some("2024-01-09")),
    ] {
        database
            .execute("INSERT INTO cached_input_files VALUES (?, ?, x'00', ?)", (path, hash, used))
            .unwrap();
    }
    for (path, hash) in [("x", "h1"), ("y", "h2"), ("z", "h3")] {
        database
            .execute("INSERT INTO cached_output_files VALUES (?, 'o', x'00', NULL, ?)", (path, hash))
            .unwrap();
    }
    // without paths to keep, every output file stays
    let collected = |opts: &CacheGcOpts| {
        collect_garbage(&database, opts);
        let once = entries(&database);
        collect_garbage(&database, opts);
        assert_eq!(entries(&database), once);
        once
    };
    let (inputs, outputs) = collected(&CacheGcOpts::default());
    assert_eq!(inputs, ["a", "b", "d", "e", "f", "h", "i"]);
    assert_eq!(outputs, ["x", "y", "z"]);
    let mut opts = CacheGcOpts::default();
    let keep = vec![Some("y".to_string()), None, Some("x".to_string()), Some("w".to_string())];
    opts.remove_all_outputs_except = Some(keep);
    let (inputs, outputs) = collected(&opts);
    assert_eq!(inputs, ["a", "b", "d", "e", "f", "h"]);
    assert_eq!(outputs, ["x", "y"]);
    opts.remove_all_outputs_except = Some(Vec::new());
    let (inputs, outputs) = collected(&opts);
    assert!(inputs.is_empty() && outputs.is_empty());
}

#[test]
fn failures_to_open_name_their_path() {
    let io = |phase: OpenPhase| {
        let event: OpenEvent<&'static str> = OpenEvent::IoFailed(Error::from(ErrorKind::Other));
        phase.next(paths(), event).unwrap_err()
    };
    let reason = io(OpenPhase::CreateCacheDir);
    assert!(matches!(reason, CacheOpenErrorReason::CreateCacheDir { cache_subdir: "dir", .. }));
    assert_eq!(reason.to_text("\"dir\""), "Failed to create cache directory \"dir\"");
    let reason = io(OpenPhase::WriteTagFile);
    assert!(matches!(reason, CacheOpenErrorReason::CreateCacheTag { cache_subdir: "dir", .. }));
    assert_eq!(reason.to_text("\"dir\""), "Failed to create CACHEDIR.TAG in \"dir\"");
    let reason = io(OpenPhase::CreateLockfile);
    assert!(matches!(reason, CacheOpenErrorReason::LockfileCreate { lockfile_path: "lock", .. }));
    assert_eq!(reason.to_text("\"lock\""), "Failed to create lockfile at \"lock\"");
    let reason = io(OpenPhase::LockShared);
    assert!(matches!(reason, CacheOpenErrorReason::LockfileLock { lockfile_path: "lock", .. }));
    assert_eq!(reason.to_text("\"lock\""), "Failed to lock the cache (lockfile: \"lock\")");
    assert_eq!(*reason.path(), "lock");
    let database = |phase: OpenPhase| {
        phase.next(paths(), OpenEvent::DatabaseFailed("busy")).unwrap_err()
    };
    let reason = database(OpenPhase::OpenDatabase);
    assert!(matches!(
        reason,
        CacheOpenErrorReason::DatabaseOpen { database_file: "db", cause: "busy" }
    ));
    assert_eq!(reason.to_text("\"db\""), "Failed to open database at \"db\"");
    for phase in [OpenPhase::ReadVersion, OpenPhase::Configure(0), OpenPhase::SetUp(2)] {
        let reason = database(phase);
        assert!(matches!(
            reason,
            CacheOpenErrorReason::DatabaseSetupError { database_file: "db", cause: "busy" }
        ));
        assert_eq!(reason.to_text("\"db\""), "Failed to setup database at \"db\"");
    }
}

#[test]
fn output_files_are_opened_and_locked() {
    let locking = IncrementalCache::lock_out_file("r.mca".to_string(), "out");
    let opening = locking.resolved(Ok("out/r.mca".to_string())).unwrap();
    let flags = opening.flags();
    assert!(flags.read && flags.write && flags.create);
    assert!(!flags.truncate && !flags.create_new);
    assert_eq!(opening.path(), "out/r.mca");
    let acquiring = opening.opened(Ok(())).unwrap();
    assert_eq!(acquiring.lock_kind(), LockKind::Exclusive);
    let locked = acquiring.locked(Ok(())).unwrap();
    assert_eq!(locked.output_path(), "r.mca");
    assert_eq!(locked.resolved_output_path(), "out/r.mca");
    let files = locked.recompress_region_file("in.mca", "out/r.mca", &options(1));
    assert_eq!(params(&files.query()), vec![(Some(":path"), "r.mca".to_string())]);
}

#[test]
fn output_files_that_cannot_be_locked_are_reported() {
    let locking = || IncrementalCache::lock_out_file("r.mca".to_string(), "out");
    let error = locking().resolved(Err("bad")).unwrap_err();
    assert_eq!((error.entry.as_str(), error.output_dir), ("r.mca", "out"));
    assert_eq!(
        error.to_text("\"r.mca\"", "\"out\""),
        "Failed to lock output file \"r.mca\" in directory \"out\""
    );
    assert!(matches!(error.cause, FileLockErrorReason::OutputInvalidUtf8("bad")));
    assert_eq!(error.cause.to_text(""), "Resolved path contains invalid UtF8");
    let opening = || locking().resolved(Ok("out/r.mca".to_string())).unwrap();
    let error = opening().opened(Err(Error::from(ErrorKind::Other))).unwrap_err();
    assert_eq!(error.cause.to_text("\"out/r.mca\""), "Failed to open file \"out/r.mca\"");
    assert!(matches!(error.cause, FileLockErrorReason::OpenFile { .. }));
    let error = opening()
        .opened(Ok(()))
        .unwrap()
        .locked(Err(Error::from(ErrorKind::Other)))
        .unwrap_err();
    assert!(matches!(error.cause, FileLockErrorReason::AcquireLock { .. }));
    assert_eq!(error.cause.to_text(""), "Failed to acquire lock");
}

type HashError = HashFileError<&'static str, &'static str>;

fn hash_row(contents: &[u8], modified: &FileModificationTime) -> HashRow {
    HashRow { modified_time: modified.to_sql(), hash: Checksum::of_contents(contents).to_sql() }
}

fn hash_input(
    row: Option<HashRow>,
    modified: FileModificationTime,
    contents: &[u8],
) -> (bool, Statement, Checksum) {
    let lookup = InputHashing::new("in")
        .path_converted::<&'static str>(Ok("in".to_string()))
        .unwrap();
    let query = lookup.query();
    assert_eq!(query.sql, "SELECT * FROM cached_input_files WHERE path = ?");
    assert_eq!(params(&query), vec![(None, "in".to_string())]);
    let timing = lookup.loaded::<&'static str>(Ok(row)).unwrap();
    let (read, hashed) = match timing.timed::<&'static str>(Ok(modified)).unwrap() {
        InputTimed::Current(hashed) => (false, hashed),
        InputTimed::Outdated(reading) => {
            (true, reading.contents_read::<&'static str>(Ok(contents.to_vec())).unwrap())
        }
    };
    let update = hashed.update();
    (read, update, hashed.updated::<&'static str>(Ok(())).unwrap())
}

#[test]
fn inputs_without_a_known_hash_are_read() {
    let (read, update, hash) = hash_input(None, time(50), b"abc");
    assert!(read);
    assert_eq!(hash, Checksum::of_contents(b"abc"));
    assert!(update.sql.starts_with(
        "INSERT INTO cached_input_files(path, hash, modified_time, last_used_time)\nVALUES (:path, :hash, :modified_time, datetime('now', 'subsec'))\n"
    ));
    assert_eq!(
        params(&update),
        vec![
            (Some(":path"), "in".to_string()),
            (Some(":hash"), hash.to_text()),
            (Some(":modified_time"), "1970-01-01T00:00:50.000000000Z".to_string()),
        ]
    );
}

#[test]
fn inputs_that_were_not_modified_are_not_read() {
    let (read, _, hash) = hash_input(Some(hash_row(b"abc", &time(50))), time(50), b"unread");
    assert!(!read);
    assert_eq!(hash, Checksum::of_contents(b"abc"));
}

#[test]
fn inputs_that_were_modified_are_read_again() {
    let (read, _, hash) = hash_input(Some(hash_row(b"abc", &time(50))), time(51), b"new");
    assert!(read);
    assert_eq!(hash, Checksum::of_contents(b"new"));
    // the contents may be the same all the same
    let (read, _, hash) = hash_input(Some(hash_row(b"abc", &time(50))), time(51), b"abc");
    assert!(read);
    assert_eq!(hash, Checksum::of_contents(b"abc"));
}

#[test]
fn kept_input_hashes_are_found_again() {
    let (_, update, hash) = hash_input(None, time(50), b"abc");
    let value = |name| {
        let param = update.params.iter().find(|param| param.name == Some(name)).unwrap();
        text(&text_of(&param.value))
    };
    let row = HashRow { modified_time: value(":modified_time"), hash: value(":hash") };
    assert_eq!(hash_input(Some(row), time(50), b"unread").2, hash);
}

#[test]
fn failures_to_hash_inputs_are_reported() {
    let hashing = || InputHashing::new("in");
    let error: HashError = hashing().path_converted(Err("bad")).unwrap_err();
    assert!(matches!(error.reason, HashFileErrorReason::InvalidUTF8("bad")));
    assert!(matches!(error.kind, HashFileKind::Input));
    assert_eq!(error.to_text("\"in\""), "Failed to hash input file \"in\"");
    assert!(error.reason.to_text("").is_none());
    let lookup = || hashing().path_converted::<&'static str>(Ok("in".to_string())).unwrap();
    let error: HashError = lookup().loaded(Err("busy")).unwrap_err();
    assert!(matches!(
        error.reason,
        HashFileErrorReason::DatabaseLoad(LoadError::Database("busy"))
    ));
    assert_eq!(error.reason.to_text("").unwrap(), "Failed to load from database");
    let row = HashRow { modified_time: text("never"), hash: text("nothing") };
    let error: HashError = lookup().loaded(Ok(Some(row))).unwrap_err();
    match error.reason {
        HashFileErrorReason::DatabaseLoad(LoadError::Row(error)) => {
            assert_eq!(error.column, "modified_time");
            assert!(matches!(error.error, ColumnError::InvalidTime));
        }
        _ => panic!("unexpected error"),
    }
    let timing = || lookup().loaded::<&'static str>(Ok(None)).unwrap();
    let cause = ModTimeResolveError { path: "in", cause: Error::from(ErrorKind::NotFound) };
    let error: HashError = timing().timed(Err(cause)).unwrap_err();
    assert_eq!(error.reason.to_text("\"in\"").unwrap(), "Failed to get ctime/mtime for \"in\"");
    assert!(matches!(error.reason, HashFileErrorReason::Timestamp(_)));
    let reading = || match timing().timed::<&'static str>(Ok(time(1))).unwrap() {
        InputTimed::Outdated(reading) => reading,
        InputTimed::Current(_) => panic!("nothing is known"),
    };
    let error: HashError =
        reading().contents_read(Err(Error::from(ErrorKind::Other))).unwrap_err();
    assert!(matches!(error.reason, HashFileErrorReason::Hash(_)));
    let hashed = reading().contents_read::<&'static str>(Ok(Vec::new())).unwrap();
    let error: HashError = hashed.updated(Err("full")).unwrap_err();
    assert!(matches!(error.reason, HashFileErrorReason::DatabaseUpdate("full")));
    assert_eq!(error.reason.to_text("").unwrap(), "Failed to update database");
}

fn hash_output(
    cached: Option<CachedHash>,
    output_time: OutputTime<&'static str>,
    contents: &[u8],
) -> (bool, Option<CachedHash>) {
    finish_hash(OutputHashing::new("out", cached), output_time, contents)
}

fn finish_hash(
    hashing: OutputHashing<&'static str>,
    output_time: OutputTime<&'static str>,
    contents: &[u8],
) -> (bool, Option<CachedHash>) {
    match hashing.timed::<&'static str>(output_time).unwrap() {
        OutputTimed::Known(hash) => (false, hash),
        OutputTimed::Outdated(rewinding) => {
            let reading = rewinding.rewound::<&'static str>(Ok(())).unwrap();
            (true, Some(reading.contents_read::<&'static str>(Ok(contents.to_vec())).unwrap()))
        }
    }
}

#[test]
fn outputs_are_read_only_where_they_were_modified() {
    let cached = CachedHash { hash: Checksum::of_contents(b"abc"), timestamp: time(9) };
    let (read, hash) = hash_output(Some(cached), OutputTime::Modified(time(9)), b"unread");
    assert!(!read);
    assert_eq!(hash.unwrap().hash, Checksum::of_contents(b"abc"));
    let (read, hash) = hash_output(Some(cached), OutputTime::Modified(time(10)), b"new");
    assert!(read);
    assert_eq!(hash.unwrap().hash, Checksum::of_contents(b"new"));
    assert_eq!(hash.unwrap().timestamp, time(10));
    let (read, hash) = hash_output(None, OutputTime::Modified(time(9)), b"new");
    assert!(read);
    assert_eq!(hash.unwrap().hash, Checksum::of_contents(b"new"));
}

#[test]
fn outputs_that_do_not_exist_have_no_hash() {
    let cached = CachedHash { hash: Checksum::of_contents(b"abc"), timestamp: time(9) };
    let (read, hash) = hash_output(Some(cached), OutputTime::NotFound, b"");
    assert!(!read);
    assert!(hash.is_none());
}

#[test]
fn failures_to_hash_outputs_are_reported() {
    let hashing = || OutputHashing::new("out", None);
    let cause = ModTimeResolveError { path: "out", cause: Error::from(ErrorKind::Other) };
    let error: HashError = hashing().timed(OutputTime::Failed(cause)).unwrap_err();
    assert!(matches!(error.kind, HashFileKind::Output));
    assert!(matches!(error.reason, HashFileErrorReason::Timestamp(_)));
    assert_eq!(error.to_text("\"out\""), "Failed to hash output file \"out\"");
    let rewinding = || match hashing().timed::<&'static str>(OutputTime::Modified(time(1))).unwrap() {
        OutputTimed::Outdated(rewinding) => rewinding,
        OutputTimed::Known(_) => panic!("nothing is known"),
    };
    let reading = || rewinding().rewound::<&'static str>(Ok(())).unwrap();
    let cause = FileRewindError { path: "out", cause: Error::from(ErrorKind::Other) };
    let error: HashError = rewinding().rewound(Err(cause)).unwrap_err();
    assert_eq!(
        error.reason.to_text("\"out\"").unwrap(),
        "Failed to rewind file handle for \"out\""
    );
    assert!(matches!(error.reason, HashFileErrorReason::Rewind(_)));
    let error: HashError =
        reading().contents_read(Err(Error::from(ErrorKind::Other))).unwrap_err();
    assert!(matches!(error.reason, HashFileErrorReason::Hash(_)));
}

fn files_with(opts: &RecompressFileOptions) -> IncrementalRecompression<&'static str> {
    IncrementalCache::lock_out_file("r.mca".to_string(), "out")
        .resolved(Ok("out/r.mca".to_string()))
        .unwrap()
        .opened(Ok(()))
        .unwrap()
        .locked(Ok(()))
        .unwrap()
        .recompress_region_file("in.mca", "out/r.mca", opts)
}

fn files() -> IncrementalRecompression<&'static str> {
    files_with(&options(1))
}

fn options(level: u32) -> RecompressFileOptions {
    let mut opts = RecompressFileOptions::new(CompressionAlgorithm::Zlib);
    opts.compression_level = CompressionLevel::Standard(level);
    opts
}

/// Carry out a recompression of a region without chunks.
fn engine(
    emptied: &Emptied<&'static str>,
) -> Result<RecompressedFile<&'static str>, FileRecompressError<&'static str>> {
    let input = emptied
        .recompression()?
        .files_compared(None)?
        .input_read(vec![0; 8192])?;
    let (output, image) = input.output_opened(Vec::new());
    assert_eq!(image, vec![0; 8192]);
    output.output_written(Ok(()))
}

fn output_row(statement: &Statement) -> OutputRow {
    let value = |name| {
        let param = statement.params.iter().find(|param| param.name == Some(name)).unwrap();
        text(&text_of(&param.value))
    };
    OutputRow {
        input_hash: value(":input_hash"),
        hash: value(":output_hash"),
        compression_options: value(":compress_opts"),
        modified_time: value(":modified_time"),
    }
}

/// Decide on an output file, and keep what is known of it where it is made anew.
fn recompress(
    row: Option<OutputRow>,
    input: &[u8],
    output: Option<(i64, &[u8])>,
    level: u32,
) -> Option<Statement> {
    let opts = options(level);
    let loaded = files_with(&opts).loaded::<&'static str>(Ok(row)).unwrap();
    let known = loaded
        .input_hashed::<&'static str>(Ok(Checksum::of_contents(input)))
        .unwrap();
    let hashing = known.output_hashing();
    let existing = match output {
        Some((seconds, contents)) => {
            finish_hash(hashing, OutputTime::Modified(time(seconds)), contents).1
        }
        None => finish_hash(hashing, OutputTime::NotFound, &[]).1,
    };
    match known.output_hashed::<&'static str>(Ok(existing)).unwrap() {
        Decision::Reuse => None,
        Decision::Recompute(job) => {
            let emptied = job
                .rewound::<&'static str>(Ok(()))
                .unwrap()
                .truncated::<&'static str>(Ok(()))
                .unwrap();
            let outcome = engine(&emptied);
            let filled = emptied.recompressed::<&'static str>(outcome).unwrap();
            let hashing = filled.output_hashing();
            let (read, hash) = finish_hash(hashing, OutputTime::Modified(time(70)), b"made");
            assert!(read);
            let done = filled.hashed::<&'static str>(Ok(hash)).unwrap();
            assert_eq!(done.modified(), time(70));
            let update = done.update();
            done.updated::<&'static str>(Ok(())).unwrap();
            Some(update)
        }
    }
}

#[test]
fn unknown_outputs_are_made() {
    let update = recompress(None, b"input", Some((60, b"old")), 3).unwrap();
    assert!(update.sql.starts_with("INSERT OR REPLACE INTO cached_output_files\n"));
    assert_eq!(
        params(&update),
        vec![
            (Some(":rel_path"), "r.mca".to_string()),
            (Some(":output_hash"), Checksum::of_contents(b"made").to_text()),
            (Some(":modified_time"), "1970-01-01T00:01:10.000000000Z".to_string()),
            (
                Some(":compress_opts"),
                r#"{"compression_algorithm":"Zlib","compression_level":{"Standard":3},"override_existing":false}"#
                    .to_string(),
            ),
            (Some(":input_hash"), Checksum::of_contents(b"input").to_text()),
        ]
    );
    let query = files().query();
    assert_eq!(query.sql, "SELECT * FROM cached_output_files WHERE relative_path = :path");
    assert_eq!(params(&query), vec![(Some(":path"), "r.mca".to_string())]);
}

#[test]
fn unchanged_outputs_are_not_made_again() {
    let update = recompress(None, b"input", None, 3).unwrap();
    // neither the time nor the contents of the output have changed
    assert!(recompress(Some(output_row(&update)), b"input", Some((70, b"made")), 3).is_none());
    // only the time has changed
    assert!(recompress(Some(output_row(&update)), b"input", Some((99, b"made")), 3).is_none());
    // with an unchanged time the contents are not looked at
    assert!(recompress(Some(output_row(&update)), b"input", Some((70, b"unread")), 3).is_none());
}

#[test]
fn changed_outputs_are_made_again() {
    let update = recompress(None, b"input", None, 3).unwrap();
    let row = || Some(output_row(&update));
    assert!(recompress(row(), b"changed", Some((70, b"made")), 3).is_some());
    assert!(recompress(row(), b"input", Some((70, b"made")), 4).is_some());
    assert!(recompress(row(), b"input", Some((71, b"changed")), 3).is_some());
    assert!(recompress(row(), b"input", None, 3).is_some());
}

type CachedError =
    anvil_recompress::cache::CachedFileRecompressError<&'static str, &'static str>;

fn hash_failure() -> HashError {
    HashFileError {
        path: "file",
        kind: HashFileKind::Input,
        reason: HashFileErrorReason::InvalidUTF8("file"),
    }
}

#[test]
fn failures_before_the_decision_are_reported() {
    let error: CachedError = files().loaded(Err("busy")).unwrap_err();
    assert_eq!(error.input_file, "in.mca");
    assert_eq!(error.output_file, "r.mca");
    assert_eq!(
        error.to_text("\"in.mca\"", "\"r.mca\""),
        "Failed incremental recompress of \"in.mca\" into \"r.mca\""
    );
    assert_eq!(error.reason.to_text("").unwrap(), "Failed to load cached output info");
    match error.reason {
        CachedRecompressErrorReason::LoadCachedOutputInfo(error) => {
            assert_eq!(error.to_text(), "Failed to lookup data from cache");
            assert!(matches!(error.cause, LoadError::Database("busy")));
        }
        _ => panic!("unexpected error"),
    }
    let row = |broken: &str| {
        let value = |name: &str, good: ColumnValue| if name == broken { text("?") } else { good };
        OutputRow {
            input_hash: value("input_hash", text(EMPTY_HASH)),
            hash: value("hash", text(EMPTY_HASH)),
            compression_options: value("compression_options", text("{}")),
            modified_time: value("modified_time", time(0).to_sql()),
        }
    };
    for column in ["input_hash", "hash", "compression_options", "modified_time"] {
        let error: CachedError = files().loaded(Ok(Some(row(column)))).unwrap_err();
        match error.reason {
            CachedRecompressErrorReason::LoadCachedOutputInfo(error) => match error.cause {
                LoadError::Row(error) => assert_eq!(error.column, column),
                LoadError::Database(_) => panic!("unexpected error"),
            },
            _ => panic!("unexpected error"),
        }
    }
    let loaded = || files().loaded::<&'static str>(Ok(Some(row("")))).unwrap();
    let error: CachedError = loaded().input_hashed(Err(hash_failure())).unwrap_err();
    assert!(matches!(error.reason, CachedRecompressErrorReason::HashInput(_)));
    assert_eq!(error.reason.to_text("").unwrap(), "Failed to hash input file");
    let hashed = || {
        loaded()
            .input_hashed::<&'static str>(Ok(Checksum::of_contents(b"")))
            .unwrap()
    };
    let error: CachedError = hashed().output_hashed(Err(hash_failure())).unwrap_err();
    assert!(matches!(error.reason, CachedRecompressErrorReason::HashOutput(_)));
    assert_eq!(error.reason.to_text("").unwrap(), "Failed to hash output file");
}

#[test]
fn failures_after_the_decision_are_reported() {
    let job = || {
        let loaded = files().loaded::<&'static str>(Ok(None)).unwrap();
        let known = loaded
            .input_hashed::<&'static str>(Ok(Checksum::of_contents(b"")))
            .unwrap();
        match known.output_hashed::<&'static str>(Ok(None)).unwrap() {
            Decision::Recompute(job) => job,
            Decision::Reuse => panic!("nothing is known"),
        }
    };
    let cause = FileRewindError { path: "out/r.mca", cause: Error::from(ErrorKind::Other) };
    let error: CachedError = job().rewound(Err(cause)).unwrap_err();
    assert_eq!(
        error.reason.to_text("\"out/r.mca\"").unwrap(),
        "Failed to rewind file handle for \"out/r.mca\""
    );
    let rewound = || job().rewound::<&'static str>(Ok(())).unwrap();
    let error: CachedError =
        rewound().truncated(Err(Error::from(ErrorKind::Other))).unwrap_err();
    assert_eq!(error.reason.to_text("").unwrap(), "Failed to truncate output file");
    let emptied = || rewound().truncated::<&'static str>(Ok(())).unwrap();
    let mut opts = RecompressFileOptions::new(CompressionAlgorithm::Uncompressed);
    opts.compression_level = CompressionLevel::Best;
    let cause = recompress_region_file("in.mca", "out/r.mca", &opts).unwrap_err();
    let error: CachedError = emptied().recompressed(Err(cause)).unwrap_err();
    assert!(matches!(error.reason, CachedRecompressErrorReason::Recompress(_)));
    assert!(error.reason.to_text("").is_none());
    let filled = || {
        let emptied = emptied();
        let outcome = engine(&emptied);
        emptied.recompressed::<&'static str>(outcome).unwrap()
    };
    let error: CachedError = filled().hashed(Err(hash_failure())).unwrap_err();
    assert!(matches!(error.reason, CachedRecompressErrorReason::HashOutput(_)));
    let error: CachedError = filled().hashed(Ok(None)).unwrap_err();
    assert_eq!(
        error.reason.to_text("\"out/r.mca\"").unwrap(),
        "Output file removed while running (\"out/r.mca\")"
    );
    match error.reason {
        CachedRecompressErrorReason::DeletedOutputFile { path } => assert_eq!(path, "out/r.mca"),
        _ => panic!("unexpected error"),
    }
    let hash = CachedHash { hash: Checksum::of_contents(b""), timestamp: time(0) };
    let done = filled().hashed::<&'static str>(Ok(Some(hash))).unwrap();
    let error: CachedError = done.updated(Err("full")).unwrap_err();
    assert!(matches!(error.reason, CachedRecompressErrorReason::UpdateCachedOutput("full")));
    assert_eq!(
        error.reason.to_text("").unwrap(),
        "Failed to update cached output in database"
    );
}

#[test]
fn kinds_of_files_have_tables() {
    assert_eq!(HashFileKind::Input.name(), "input");
    assert_eq!(HashFileKind::Output.name(), "output");
    assert_eq!(HashFileKind::Input.table_name(), "cached_input_files");
    assert_eq!(HashFileKind::Output.table_name(), "cached_output_files");
    assert_eq!(HashFileKind::Input.path_field_name(), "path");
    assert_eq!(HashFileKind::Output.path_field_name(), "relative_path");
}
