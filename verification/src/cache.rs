//! Incremental recompression: what is unchanged is not recompressed.
//!
//! The files and the database themselves stay outside. Every step takes what the system or the
//! database said, and gives what has to be done next.
use vstd::prelude::*;

pub mod checksum;
pub mod column;
pub mod gc;
pub mod gc_model;
pub mod hashing;
pub mod incremental;
pub mod lock;
pub mod modified;
pub mod open;
pub mod options_json;
pub mod rows;
pub mod statement;

pub use self::checksum::{blake3_digest, digest_text, Checksum};
pub use self::column::{text_column_round_trip, ColumnError, ColumnValue, ColumnView};
pub use self::gc::{CacheGcError, CacheGcOpts};
pub use self::hashing::{FileRewindError, HashFileError, HashFileErrorReason, ModTimeResolveError};
pub use self::incremental::{
    CacheLookupError, CachedFileRecompressError, CachedRecompressErrorReason,
    IncrementalRecompression,
};
pub use self::lock::{FileLockError, FileLockErrorReason, LockedOutputFile, OutputLocking};
pub use self::modified::{iso8601_moment, iso8601_text, FileModificationTime};
pub use self::open::{
    CacheOpenError, CacheOpenErrorReason, CachePaths, OpenPhase, CACHEDIR_TAG_CONTENTS,
};
pub use self::options_json::{canonical_json, json_column_result, json_in_column, OptionsJson};
pub use self::rows::{
    CachedHash, CachedOutputFileInfo, HashRow, HashRowView, HashView, OutputInfoView, OutputRow,
    OutputRowView, RowError, RowErrorView,
};
pub use self::statement::{HashFileKind, Param, ParamView, Statement, StatementView};
use self::gc::{gc_plan, outputs_to_keep, views};

verus! {

/// The cache of an output directory.
#[derive(Copy, Clone, Debug)]
pub struct IncrementalCache;

impl IncrementalCache {
    /// Begin to open the cache of an output directory.
    pub fn open() -> (r: OpenPhase)
        ensures
            r == OpenPhase::CreateCacheDir,
    {
        OpenPhase::CreateCacheDir
    }

    /// Begin to lock the output file with this path, relative to the output directory.
    pub fn lock_out_file<P>(output_path: String, output_dir: P) -> (r: OutputLocking<P>)
        ensures
            r.spec_entry() == output_path,
            r.dir() == output_dir,
    {
        OutputLocking::new(output_path, output_dir)
    }

    /// The statements that remove old entries from the database of the cache.
    ///
    /// They are executed in order, up to the first that fails.
    pub fn garbage_collect(opts: &CacheGcOpts) -> (r: Vec<Statement>)
        ensures
            views(r@) == gc_plan(outputs_to_keep(*opts)),
    {
        self::gc::gc_statements(opts)
    }
}

} // verus!
