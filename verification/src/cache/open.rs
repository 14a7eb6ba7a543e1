//! How the cache of an output directory is opened, step by step.
use vstd::prelude::*;
use crate::cache::lock::LockKind;
use crate::cache::statement::{plain, INPUT_FILE_TABLE, OUTPUT_FILE_TABLE};
use crate::cache::{IncrementalCache, Statement, StatementView};
use crate::text::{
    contained_in_longer, contains_text, decimal, decimal_of, end_is_contained, part_is_contained,
};

verus! {

/// The version of the database.
///
/// v1 - Initial format
pub const CACHE_DATABASE_VERSION: u32 = 1;

/// The directory of the cache, inside the output directory.
pub const CACHE_SUBDIR: &'static str = ".cache/anvil-recompress";

/// The file that marks a cache, inside the output directory.
pub const CACHEDIR_TAG: &'static str = "CACHEDIR.TAG";

/// The file that is locked, inside the directory of the cache.
pub const LOCKFILE: &'static str = "cache.lock";

/// The file of the database, inside the directory of the cache.
pub const DATABASE_FILE: &'static str = "cache.sqlite";

/// What stands in the file that marks a cache.
pub const CACHEDIR_TAG_CONTENTS: &'static str = "Signature: 8a477f597d28d172789f06886806bc55
# This directory is a cache for the anvil-recompress tool
# See https://github.com/Techcable/anvil-recompress.mc/
";

/// Asks for the version of the database.
pub const QUERY_VERSION: &'static str = "PRAGMA user_version;";

/// Configures a connection to the database.
pub const CONFIGURE: &'static str = "PRAGMA foreign_keys = ON;
PRAGMA journal_mode = WAL;
-- wait up to 1s if the db is locked (better than immediate error)
PRAGMA busy_timeout = 1000;
";

/// Creates the tables and what makes searching them fast.
pub const CREATE_TABLES: &'static str = "CREATE TABLE cached_input_files (
    path TEXT PRIMARY KEY,
    hash TEXT NOT NULL,
    modified_time BLOB NOT NULL,
    last_used_time TEXT
);
CREATE INDEX inputs_by_hash ON cached_input_files(hash);
CREATE TABLE cached_output_files (
    relative_path TEXT PRIMARY KEY,
    hash TEXT NOT NULL,
    modified_time BLOB NOT NULL,
    compression_options BLOB,
    input_hash TEXT NOT NULL
);
-- this is needed to allow efficient gc
CREATE INDEX outputs_by_input_hash ON cached_output_files(input_hash);
";

/// How many statements set up a database.
pub const SETUP_STATEMENTS: usize = 4;

/// The statements that set up a database, in order: what an older version left is dropped,
/// the tables are created, and the version is noted last.
pub open spec fn setup_statement(index: int) -> StatementView {
    if index == 0 {
        plain("DROP TABLE IF EXISTS "@ + INPUT_FILE_TABLE@)
    } else if index == 1 {
        plain("DROP TABLE IF EXISTS "@ + OUTPUT_FILE_TABLE@)
    } else if index == 2 {
        plain(CREATE_TABLES@)
    } else {
        plain("PRAGMA user_version = "@ + decimal_of(CACHE_DATABASE_VERSION as nat) + ";"@)
    }
}

/// What comes next while a cache is opened.
#[derive(Copy, Clone, Debug, PartialEq, Eq, Structural)]
pub enum OpenPhase {
    /// The directory of the cache has to be created.
    CreateCacheDir,
    /// Is there a file that marks the cache?
    CheckTagFile,
    /// The file that marks the cache has to be written.
    WriteTagFile,
    /// The lockfile has to be created.
    CreateLockfile,
    /// The lockfile has to be locked, shared with others.
    LockShared,
    /// The database has to be opened.
    OpenDatabase,
    /// The version of the database has to be read.
    ReadVersion,
    /// The connection has to be configured. The database has this version.
    Configure(u32),
    /// This statement of those that set up the database has to be executed.
    SetUp(usize),
    /// The cache is open.
    Opened,
}

/// What became of what had to be done next.
#[derive(Debug)]
pub enum OpenEvent<D> {
    /// It is done.
    Done,
    /// Whether there is a file that marks the cache.
    TagFile(bool),
    /// The version of the database.
    Version(u32),
    /// A file or directory made trouble.
    IoFailed(std::io::Error),
    /// The database made trouble.
    DatabaseFailed(D),
}

/// The paths of a cache.
#[derive(Debug)]
pub struct CachePaths<P> {
    pub cache_subdir: P,
    pub lockfile_path: P,
    pub database_file: P,
}

/// Failure to open a cache.
#[derive(Debug)]
pub struct CacheOpenError<P, D>(pub CacheOpenErrorReason<P, D>);

/// Why a cache could not be opened.
#[derive(Debug)]
#[non_exhaustive]
#[allow(inconsistent_fields)]
pub enum CacheOpenErrorReason<P, D> {
    CreateCacheDir { cache_subdir: P, cause: std::io::Error },
    CreateCacheTag { cache_subdir: P, cause: std::io::Error },
    LockfileCreate { lockfile_path: P, cause: std::io::Error },
    LockfileLock { lockfile_path: P, cause: std::io::Error },
    DatabaseOpen { database_file: P, cause: D },
    DatabaseSetupError { database_file: P, cause: D },
    UnsupportedDatabaseVersion { actual_version: u32, expected_version: u32, database_file: P },
}

impl OpenPhase {
    /// Files and directories are at work.
    pub open spec fn uses_files(self) -> bool {
        self is CreateCacheDir || self is WriteTagFile || self is CreateLockfile
            || self is LockShared
    }

    /// The database is at work.
    pub open spec fn uses_database(self) -> bool {
        self is OpenDatabase || self is ReadVersion || self is Configure || self is SetUp
    }

    /// This can become of what has to be done next.
    pub open spec fn awaits<D>(self, event: OpenEvent<D>) -> bool {
        match event {
            OpenEvent::Done => self !is CheckTagFile && self !is ReadVersion && self !is Opened,
            OpenEvent::TagFile(_) => self is CheckTagFile,
            OpenEvent::Version(_) => self is ReadVersion,
            OpenEvent::IoFailed(_) => self.uses_files(),
            OpenEvent::DatabaseFailed(_) => self.uses_database(),
        }
    }

    /// What comes next once everything went well, where the file that marks the cache is
    /// there or not and the database has a version. There is no next phase for a database
    /// that is newer than this library.
    pub open spec fn follower(self, tag_file: bool, version: u32) -> Option<OpenPhase> {
        match self {
            OpenPhase::CreateCacheDir => Some(OpenPhase::CheckTagFile),
            OpenPhase::CheckTagFile => Some(
                if tag_file {
                    OpenPhase::CreateLockfile
                } else {
                    OpenPhase::WriteTagFile
                },
            ),
            OpenPhase::WriteTagFile => Some(OpenPhase::CreateLockfile),
            OpenPhase::CreateLockfile => Some(OpenPhase::LockShared),
            OpenPhase::LockShared => Some(OpenPhase::OpenDatabase),
            OpenPhase::OpenDatabase => Some(OpenPhase::ReadVersion),
            OpenPhase::ReadVersion => Some(OpenPhase::Configure(version)),
            OpenPhase::Configure(version) => if version > CACHE_DATABASE_VERSION {
                None
            } else if version == CACHE_DATABASE_VERSION {
                Some(OpenPhase::Opened)
            } else {
                Some(OpenPhase::SetUp(0))
            },
            OpenPhase::SetUp(index) => Some(
                if index + 1 < SETUP_STATEMENTS {
                    OpenPhase::SetUp((index + 1) as usize)
                } else {
                    OpenPhase::Opened
                },
            ),
            OpenPhase::Opened => None,
        }
    }
}

/// The error to which a failed file operation leads.
pub open spec fn file_failure<P, D>(
    phase: OpenPhase,
    paths: CachePaths<P>,
    cause: std::io::Error,
) -> CacheOpenErrorReason<P, D> {
    match phase {
        OpenPhase::CreateCacheDir => CacheOpenErrorReason::CreateCacheDir {
            cache_subdir: paths.cache_subdir,
            cause,
        },
        OpenPhase::WriteTagFile => CacheOpenErrorReason::CreateCacheTag {
            cache_subdir: paths.cache_subdir,
            cause,
        },
        OpenPhase::CreateLockfile => CacheOpenErrorReason::LockfileCreate {
            lockfile_path: paths.lockfile_path,
            cause,
        },
        _ => CacheOpenErrorReason::LockfileLock { lockfile_path: paths.lockfile_path, cause },
    }
}

/// The error to which a failed database operation leads.
pub open spec fn database_failure<P, D>(
    phase: OpenPhase,
    paths: CachePaths<P>,
    cause: D,
) -> CacheOpenErrorReason<P, D> {
    if phase is OpenDatabase {
        CacheOpenErrorReason::DatabaseOpen { database_file: paths.database_file, cause }
    } else {
        CacheOpenErrorReason::DatabaseSetupError { database_file: paths.database_file, cause }
    }
}

/// What has to be done to open a cache.
#[derive(Debug)]
pub enum OpenAction {
    CreateCacheDir,
    CheckTagFile,
    /// Write this to the file that marks the cache.
    WriteTagFile(&'static str),
    CreateLockfile,
    /// Lock the lockfile.
    Lock(LockKind),
    OpenDatabase,
    /// Read the version of the database with this query.
    ReadVersion(&'static str),
    /// Execute this on the database.
    Execute(Statement),
    /// There is nothing left to do.
    Opened,
}

impl OpenAction {
    /// This is what has to be done in a phase.
    pub open spec fn belongs_to(self, phase: OpenPhase) -> bool {
        match phase {
            OpenPhase::CreateCacheDir => self is CreateCacheDir,
            OpenPhase::CheckTagFile => self is CheckTagFile,
            OpenPhase::WriteTagFile => self matches OpenAction::WriteTagFile(contents) && contents@
                == CACHEDIR_TAG_CONTENTS@,
            OpenPhase::CreateLockfile => self is CreateLockfile,
            OpenPhase::LockShared => self == OpenAction::Lock(LockKind::Shared),
            OpenPhase::OpenDatabase => self is OpenDatabase,
            OpenPhase::ReadVersion => self matches OpenAction::ReadVersion(sql) && sql@
                == QUERY_VERSION@,
            OpenPhase::Configure(_) => self matches OpenAction::Execute(statement) && statement@
                == plain(CONFIGURE@),
            OpenPhase::SetUp(index) => self matches OpenAction::Execute(statement) && statement@
                == setup_statement(index as int),
            OpenPhase::Opened => self is Opened,
        }
    }
}

impl OpenPhase {
    /// What has to be done now.
    pub fn action(&self) -> (r: OpenAction)
        ensures
            r.belongs_to(*self),
    {
        match *self {
            OpenPhase::CreateCacheDir => OpenAction::CreateCacheDir,
            OpenPhase::CheckTagFile => OpenAction::CheckTagFile,
            OpenPhase::WriteTagFile => OpenAction::WriteTagFile(CACHEDIR_TAG_CONTENTS),
            OpenPhase::CreateLockfile => OpenAction::CreateLockfile,
            OpenPhase::LockShared => OpenAction::Lock(LockKind::Shared),
            OpenPhase::OpenDatabase => OpenAction::OpenDatabase,
            OpenPhase::ReadVersion => OpenAction::ReadVersion(QUERY_VERSION),
            OpenPhase::Configure(_) => OpenAction::Execute(Statement::plain(CONFIGURE)),
            OpenPhase::SetUp(index) => {
                if index < 2 {
                    // delete existing tables
                    let mut sql = "DROP TABLE IF EXISTS ".to_owned();
                    sql.append(
                        if index == 0 {
                            INPUT_FILE_TABLE
                        } else {
                            OUTPUT_FILE_TABLE
                        },
                    );
                    OpenAction::Execute(Statement::plain(sql.as_str()))
                } else if index == 2 {
                    OpenAction::Execute(Statement::plain(CREATE_TABLES))
                } else {
                    // a pragma cannot have parameters
                    let mut sql = "PRAGMA user_version = ".to_owned();
                    sql.append(decimal(CACHE_DATABASE_VERSION as u64).as_str());
                    sql.append(";");
                    OpenAction::Execute(Statement::plain(sql.as_str()))
                }
            },
            OpenPhase::Opened => OpenAction::Opened,
        }
    }

    /// Go on from what became of what had to be done.
    pub fn next<P, D>(self, paths: CachePaths<P>, event: OpenEvent<D>) -> (r: Result<
        (OpenPhase, CachePaths<P>),
        CacheOpenErrorReason<P, D>,
    >)
        requires
            self.awaits(event),
            self matches OpenPhase::SetUp(index) ==> index < SETUP_STATEMENTS,
        ensures
            match event {
                OpenEvent::Done => match self.follower(false, 0) {
                    Some(phase) => r == Ok::<_, CacheOpenErrorReason<P, D>>((phase, paths)),
                    None => r == Err::<(OpenPhase, CachePaths<P>), _>(
                        CacheOpenErrorReason::<P, D>::UnsupportedDatabaseVersion {
                            actual_version: self->Configure_0,
                            expected_version: CACHE_DATABASE_VERSION,
                            database_file: paths.database_file,
                        },
                    ),
                },
                OpenEvent::TagFile(there) => r == Ok::<_, CacheOpenErrorReason<P, D>>(
                    (self.follower(there, 0)->0, paths),
                ),
                OpenEvent::Version(version) => r == Ok::<_, CacheOpenErrorReason<P, D>>(
                    (self.follower(false, version)->0, paths),
                ),
                OpenEvent::IoFailed(cause) => r == Err::<(OpenPhase, CachePaths<P>), _>(
                    file_failure::<P, D>(self, paths, cause),
                ),
                OpenEvent::DatabaseFailed(cause) => r == Err::<(OpenPhase, CachePaths<P>), _>(
                    database_failure::<P, D>(self, paths, cause),
                ),
            },
            r matches Ok((OpenPhase::SetUp(index), _)) ==> index < SETUP_STATEMENTS,
    {
        match event {
            OpenEvent::TagFile(there) => {
                let phase = if there {
                    OpenPhase::CreateLockfile
                } else {
                    OpenPhase::WriteTagFile
                };
                Ok((phase, paths))
            },
            OpenEvent::Version(version) => Ok((OpenPhase::Configure(version), paths)),
            OpenEvent::IoFailed(cause) => {
                let CachePaths { cache_subdir, lockfile_path, .. } = paths;
                Err(
                    match self {
                        OpenPhase::CreateCacheDir => CacheOpenErrorReason::CreateCacheDir {
                            cache_subdir,
                            cause,
                        },
                        OpenPhase::WriteTagFile => CacheOpenErrorReason::CreateCacheTag {
                            cache_subdir,
                            cause,
                        },
                        OpenPhase::CreateLockfile => CacheOpenErrorReason::LockfileCreate {
                            lockfile_path,
                            cause,
                        },
                        _ => CacheOpenErrorReason::LockfileLock { lockfile_path, cause },
                    },
                )
            },
            OpenEvent::DatabaseFailed(cause) => {
                let database_file = paths.database_file;
                Err(
                    match self {
                        OpenPhase::OpenDatabase => CacheOpenErrorReason::DatabaseOpen {
                            database_file,
                            cause,
                        },
                        _ => CacheOpenErrorReason::DatabaseSetupError { database_file, cause },
                    },
                )
            },
            OpenEvent::Done => {
                let phase = match self {
                    OpenPhase::CreateCacheDir => OpenPhase::CheckTagFile,
                    OpenPhase::WriteTagFile => OpenPhase::CreateLockfile,
                    OpenPhase::CreateLockfile => OpenPhase::LockShared,
                    OpenPhase::LockShared => OpenPhase::OpenDatabase,
                    OpenPhase::OpenDatabase => OpenPhase::ReadVersion,
                    OpenPhase::Configure(version) => {
                        if version > CACHE_DATABASE_VERSION {
                            return Err(
                                CacheOpenErrorReason::UnsupportedDatabaseVersion {
                                    actual_version: version,
                                    expected_version: CACHE_DATABASE_VERSION,
                                    database_file: paths.database_file,
                                },
                            );
                        }
                        if version == CACHE_DATABASE_VERSION {
                            // do nothing
                            OpenPhase::Opened
                        } else {
                            OpenPhase::SetUp(0)
                        }
                    },
                    OpenPhase::SetUp(index) => {
                        if index + 1 < SETUP_STATEMENTS {
                            OpenPhase::SetUp(index + 1)
                        } else {
                            OpenPhase::Opened
                        }
                    },
                    _ => OpenPhase::Opened,
                };
                Ok((phase, paths))
            },
        }
    }
}

/// The phases through which an opening goes as long as nothing fails, at most `steps` of them.
pub open spec fn phases_from(
    phase: OpenPhase,
    tag_file: bool,
    version: u32,
    steps: nat,
) -> Seq<OpenPhase>
    decreases steps,
{
    if steps == 0 {
        Seq::empty()
    } else {
        seq![phase] + match phase.follower(tag_file, version) {
            Some(next) => phases_from(next, tag_file, version, (steps - 1) as nat),
            None => Seq::empty(),
        }
    }
}

/// The phases of an opening as they have to come: the file that marks the cache is written only
/// where there is none, and the lock is held before the database is opened. A database of a
/// newer version is left as it is. One of this version is used as it is. One of an older
/// version, as a new database has it, is set up from scratch.
pub open spec fn opening(tag_file: bool, version: u32) -> Seq<OpenPhase> {
    seq![OpenPhase::CreateCacheDir, OpenPhase::CheckTagFile] + (if tag_file {
        Seq::<OpenPhase>::empty()
    } else {
        seq![OpenPhase::WriteTagFile]
    }) + opening_middle(version) + opening_end(version)
}

/// The phases of an opening up to the point where the version of the database decides.
pub open spec fn opening_middle(version: u32) -> Seq<OpenPhase> {
    seq![
        OpenPhase::CreateLockfile,
        OpenPhase::LockShared,
        OpenPhase::OpenDatabase,
        OpenPhase::ReadVersion,
        OpenPhase::Configure(version),
    ]
}

/// The phases of an opening on which the version of the database decides.
pub open spec fn opening_end(version: u32) -> Seq<OpenPhase> {
    if version > CACHE_DATABASE_VERSION {
        Seq::empty()
    } else if version == CACHE_DATABASE_VERSION {
        seq![OpenPhase::Opened]
    } else {
        seq![
            OpenPhase::SetUp(0),
            OpenPhase::SetUp(1),
            OpenPhase::SetUp(2),
            OpenPhase::SetUp(3),
            OpenPhase::Opened,
        ]
    }
}

/// An opening goes through its phases in order, and however many more steps it is given,
/// it ends with the last of them.
#[verifier::rlimit(40)]
pub proof fn opening_goes_in_order(tag_file: bool, version: u32, steps: nat)
    requires
        steps >= 13,
    ensures
        phases_from(OpenPhase::CreateCacheDir, tag_file, version, steps) == opening(
            tag_file,
            version,
        ),
{
    let from = |phase: OpenPhase, left: nat| phases_from(phase, tag_file, version, left);
    let tail = opening_end(version);
    let n = if tag_file {
        (steps - 7) as nat
    } else {
        (steps - 8) as nat
    };
    // the last phases, from the configuration on
    assert(from(OpenPhase::Configure(version), n + 1) =~= seq![OpenPhase::Configure(version)]
        + tail) by {
        if version < CACHE_DATABASE_VERSION {
            assert(from(OpenPhase::Opened, (n - 4) as nat) =~= seq![OpenPhase::Opened]);
            assert(from(OpenPhase::SetUp(3), (n - 3) as nat) =~= seq![
                OpenPhase::SetUp(3),
                OpenPhase::Opened,
            ]);
            assert(from(OpenPhase::SetUp(2), (n - 2) as nat) =~= seq![
                OpenPhase::SetUp(2),
                OpenPhase::SetUp(3),
                OpenPhase::Opened,
            ]);
            assert(from(OpenPhase::SetUp(1), (n - 1) as nat) =~= seq![
                OpenPhase::SetUp(1),
                OpenPhase::SetUp(2),
                OpenPhase::SetUp(3),
                OpenPhase::Opened,
            ]);
            assert(from(OpenPhase::SetUp(0), n) =~= tail);
        } else if version == CACHE_DATABASE_VERSION {
            assert(from(OpenPhase::Opened, n) =~= tail);
        }
    }
    // the phases before them
    assert(from(OpenPhase::ReadVersion, n + 2) =~= seq![OpenPhase::ReadVersion] + from(
        OpenPhase::Configure(version),
        n + 1,
    ));
    assert(from(OpenPhase::OpenDatabase, n + 3) =~= seq![OpenPhase::OpenDatabase] + from(
        OpenPhase::ReadVersion,
        n + 2,
    ));
    assert(from(OpenPhase::LockShared, n + 4) =~= seq![OpenPhase::LockShared] + from(
        OpenPhase::OpenDatabase,
        n + 3,
    ));
    assert(from(OpenPhase::CreateLockfile, n + 5) =~= seq![OpenPhase::CreateLockfile] + from(
        OpenPhase::LockShared,
        n + 4,
    ));
    assert(from(OpenPhase::CreateLockfile, n + 5) =~= opening_middle(version) + tail);
    if tag_file {
        assert(from(OpenPhase::CheckTagFile, n + 6) =~= seq![OpenPhase::CheckTagFile] + from(
            OpenPhase::CreateLockfile,
            n + 5,
        ));
        assert(from(OpenPhase::CreateCacheDir, n + 7) =~= seq![OpenPhase::CreateCacheDir] + from(
            OpenPhase::CheckTagFile,
            n + 6,
        ));
    } else {
        assert(from(OpenPhase::WriteTagFile, n + 6) =~= seq![OpenPhase::WriteTagFile] + from(
            OpenPhase::CreateLockfile,
            n + 5,
        ));
        assert(from(OpenPhase::CheckTagFile, n + 7) =~= seq![OpenPhase::CheckTagFile] + from(
            OpenPhase::WriteTagFile,
            n + 6,
        ));
        assert(from(OpenPhase::CreateCacheDir, n + 8) =~= seq![OpenPhase::CreateCacheDir] + from(
            OpenPhase::CheckTagFile,
            n + 7,
        ));
    }
    assert(from(OpenPhase::CreateCacheDir, steps) =~= opening(tag_file, version));
}

impl<P, D> CacheOpenErrorReason<P, D> {
    /// The message, in which the path is shown as given.
    pub open spec fn message(self, path: Seq<char>) -> Seq<char> {
        match self {
            CacheOpenErrorReason::CreateCacheDir { .. } => "Failed to create cache directory "@
                + path,
            CacheOpenErrorReason::CreateCacheTag { .. } => "Failed to create CACHEDIR.TAG in "@
                + path,
            CacheOpenErrorReason::LockfileCreate { .. } => "Failed to create lockfile at "@ + path,
            CacheOpenErrorReason::LockfileLock { .. } => {
                "Failed to lock the cache (lockfile: "@ + path + ")"@
            },
            CacheOpenErrorReason::DatabaseOpen { .. } => "Failed to open database at "@ + path,
            CacheOpenErrorReason::DatabaseSetupError { .. } => "Failed to setup database at "@
                + path,
            CacheOpenErrorReason::UnsupportedDatabaseVersion {
                actual_version,
                expected_version,
                ..
            } => {
                "Database file has version "@ + decimal_of(actual_version as nat)
                    + ", newer then expected "@ + decimal_of(expected_version as nat) + " at "@
                    + path
            },
        }
    }

    /// The path that the error is about.
    pub open spec fn spec_path(self) -> P {
        match self {
            CacheOpenErrorReason::CreateCacheDir { cache_subdir, .. } => cache_subdir,
            CacheOpenErrorReason::CreateCacheTag { cache_subdir, .. } => cache_subdir,
            CacheOpenErrorReason::LockfileCreate { lockfile_path, .. } => lockfile_path,
            CacheOpenErrorReason::LockfileLock { lockfile_path, .. } => lockfile_path,
            CacheOpenErrorReason::DatabaseOpen { database_file, .. } => database_file,
            CacheOpenErrorReason::DatabaseSetupError { database_file, .. } => database_file,
            CacheOpenErrorReason::UnsupportedDatabaseVersion { database_file, .. } => database_file,
        }
    }

    /// The path that the error is about.
    pub fn path(&self) -> (r: &P)
        ensures
            *r == self.spec_path(),
    {
        match self {
            CacheOpenErrorReason::CreateCacheDir { cache_subdir, .. } => cache_subdir,
            CacheOpenErrorReason::CreateCacheTag { cache_subdir, .. } => cache_subdir,
            CacheOpenErrorReason::LockfileCreate { lockfile_path, .. } => lockfile_path,
            CacheOpenErrorReason::LockfileLock { lockfile_path, .. } => lockfile_path,
            CacheOpenErrorReason::DatabaseOpen { database_file, .. } => database_file,
            CacheOpenErrorReason::DatabaseSetupError { database_file, .. } => database_file,
            CacheOpenErrorReason::UnsupportedDatabaseVersion { database_file, .. } => database_file,
        }
    }

    /// The message, in which the path is shown as given.
    pub fn to_text(&self, path: &str) -> (r: String)
        ensures
            r@ == self.message(path@),
    {
        let mut text = match self {
            CacheOpenErrorReason::CreateCacheDir { .. } => {
                "Failed to create cache directory ".to_owned()
            },
            CacheOpenErrorReason::CreateCacheTag { .. } => {
                "Failed to create CACHEDIR.TAG in ".to_owned()
            },
            CacheOpenErrorReason::LockfileCreate { .. } => {
                "Failed to create lockfile at ".to_owned()
            },
            CacheOpenErrorReason::LockfileLock { .. } => {
                let mut text = "Failed to lock the cache (lockfile: ".to_owned();
                text.append(path);
                text.append(")");
                return text;
            },
            CacheOpenErrorReason::DatabaseOpen { .. } => "Failed to open database at ".to_owned(),
            CacheOpenErrorReason::DatabaseSetupError { .. } => {
                "Failed to setup database at ".to_owned()
            },
            CacheOpenErrorReason::UnsupportedDatabaseVersion {
                actual_version,
                expected_version,
                ..
            } => {
                let mut text = "Database file has version ".to_owned();
                text.append(decimal(*actual_version as u64).as_str());
                text.append(", newer then expected ");
                text.append(decimal(*expected_version as u64).as_str());
                text.append(" at ");
                text
            },
        };
        text.append(path);
        text
    }
}

/// A database is refused if and only if it is newer than this library, and it is left as it is
/// then. The error names the database and both versions.
pub proof fn newer_databases_are_refused<P, D>(
    version: u32,
    paths: CachePaths<P>,
    r: Result<(OpenPhase, CachePaths<P>), CacheOpenErrorReason<P, D>>,
)
    requires
        call_ensures(
            OpenPhase::next::<P, D>,
            (OpenPhase::Configure(version), paths, OpenEvent::<D>::Done),
            r,
        ),
    ensures
        r is Err <==> version > CACHE_DATABASE_VERSION,
        r matches Ok((phase, _)) ==> (phase is Opened <==> version == CACHE_DATABASE_VERSION),
        r matches Ok((phase, _)) ==> phase is Opened || phase == OpenPhase::SetUp(0),
        r matches Err(e) ==> e == (CacheOpenErrorReason::<P, D>::UnsupportedDatabaseVersion {
            actual_version: version,
            expected_version: CACHE_DATABASE_VERSION,
            database_file: paths.database_file,
        }),
{
}

/// Setting up a database drops both tables, creates them anew, and notes last the version with
/// which the database is used as it is the next time.
pub proof fn setting_up_starts_from_nothing(index: usize, r: OpenAction)
    requires
        index < SETUP_STATEMENTS,
        call_ensures(OpenPhase::action, (&OpenPhase::SetUp(index),), r),
    ensures
        r is Execute,
        r->Execute_0@.params.len() == 0,
        index == 0 ==> r->Execute_0@.sql == "DROP TABLE IF EXISTS "@ + "cached_input_files"@,
        index == 1 ==> r->Execute_0@.sql == "DROP TABLE IF EXISTS "@ + "cached_output_files"@,
        index == 2 ==> r->Execute_0@.sql == CREATE_TABLES@,
        index == 3 ==> exists|version: u32|
            r->Execute_0@.sql == "PRAGMA user_version = "@ + #[trigger] decimal_of(version as nat)
                + ";"@ && OpenPhase::Configure(version).follower(false, 0) == Some(
                OpenPhase::Opened,
            ),
        OpenPhase::SetUp(index).follower(false, 0) is Some,
        SETUP_STATEMENTS == 4,
{
    if index == 3 {
        let version = CACHE_DATABASE_VERSION;
        assert(r->Execute_0@.sql == "PRAGMA user_version = "@ + decimal_of(version as nat) + ";"@);
    }
}

/// The lockfile is locked so that others can use the cache as well, and the file that marks the
/// cache is filled with what marks one.
pub proof fn caches_are_shared_and_marked(phase: OpenPhase, r: OpenAction)
    requires
        call_ensures(OpenPhase::action, (&phase,), r),
    ensures
        phase is LockShared <==> r is Lock,
        r matches OpenAction::Lock(kind) ==> kind is Shared,
        phase is WriteTagFile <==> r is WriteTagFile,
        r matches OpenAction::WriteTagFile(contents) ==> contents@ == CACHEDIR_TAG_CONTENTS@,
        phase is CreateCacheDir <==> r is CreateCacheDir,
        phase is CheckTagFile <==> r is CheckTagFile,
        phase is CreateLockfile <==> r is CreateLockfile,
        phase is OpenDatabase <==> r is OpenDatabase,
        phase is ReadVersion <==> r is ReadVersion,
        r matches OpenAction::ReadVersion(sql) ==> sql@ == "PRAGMA user_version;"@,
        phase is Configure || phase is SetUp <==> r is Execute,
        phase is Configure ==> r->Execute_0@ == plain(CONFIGURE@),
        phase is Opened <==> r is Opened,
{
}

/// A failure ends the opening. It is reported with what caused it and the path that was used.
pub proof fn opening_failures_are_reported<P, D>(
    phase: OpenPhase,
    paths: CachePaths<P>,
    event: OpenEvent<D>,
    r: Result<(OpenPhase, CachePaths<P>), CacheOpenErrorReason<P, D>>,
)
    requires
        phase.awaits(event),
        call_ensures(OpenPhase::next::<P, D>, (phase, paths, event), r),
    ensures
        r matches Ok((_, kept)) ==> kept == paths,
        event is TagFile || event is Version ==> r is Ok,
        event is Done && phase !is Configure ==> r is Ok,
        event matches OpenEvent::IoFailed(cause) ==> r is Err && match r->Err_0 {
            CacheOpenErrorReason::CreateCacheDir { cache_subdir, cause: reported } => {
                phase is CreateCacheDir && cache_subdir == paths.cache_subdir && reported == cause
            },
            CacheOpenErrorReason::CreateCacheTag { cache_subdir, cause: reported } => {
                phase is WriteTagFile && cache_subdir == paths.cache_subdir && reported == cause
            },
            CacheOpenErrorReason::LockfileCreate { lockfile_path, cause: reported } => {
                phase is CreateLockfile && lockfile_path == paths.lockfile_path && reported == cause
            },
            CacheOpenErrorReason::LockfileLock { lockfile_path, cause: reported } => {
                phase is LockShared && lockfile_path == paths.lockfile_path && reported == cause
            },
            _ => false,
        },
        event matches OpenEvent::DatabaseFailed(cause) ==> r is Err && match r->Err_0 {
            CacheOpenErrorReason::DatabaseOpen { database_file, cause: reported } => {
                phase is OpenDatabase && database_file == paths.database_file && reported == cause
            },
            CacheOpenErrorReason::DatabaseSetupError { database_file, cause: reported } => {
                phase !is OpenDatabase && database_file == paths.database_file && reported == cause
            },
            _ => false,
        },
{
}

/// What a phase comes to where the file that marks the cache is there or not, the database has a
/// version, and nothing fails.
pub open spec fn good_event<D>(phase: OpenPhase, tag_file: bool, version: u32) -> OpenEvent<D> {
    if phase is CheckTagFile {
        OpenEvent::TagFile(tag_file)
    } else if phase is ReadVersion {
        OpenEvent::Version(version)
    } else {
        OpenEvent::Done
    }
}

/// The opening goes on from one phase to the other, as nothing fails.
pub open spec fn opening_goes_on<P, D>(
    paths: CachePaths<P>,
    tag_file: bool,
    version: u32,
    phase: OpenPhase,
    next: OpenPhase,
) -> bool {
    &&& phase !is Opened
    &&& call_ensures(
        OpenPhase::next::<P, D>,
        (phase, paths, good_event::<D>(phase, tag_file, version)),
        Ok::<_, CacheOpenErrorReason<P, D>>((next, paths)),
    )
}

/// The phases are those of an opening in which nothing fails, from its start on.
pub open spec fn is_opening<P, D>(
    paths: CachePaths<P>,
    tag_file: bool,
    version: u32,
    phases: Seq<OpenPhase>,
) -> bool {
    &&& phases.len() > 0
    &&& call_ensures(IncrementalCache::open, (), phases[0])
    &&& forall|k: int, next: int|
        0 <= k && next == k + 1 && next < phases.len() ==> #[trigger] opening_goes_on::<P, D>(
            paths,
            tag_file,
            version,
            phases[k],
            phases[next],
        )
}

/// Each phase of an opening is followed by the next of those that have to come.
proof fn lemma_phase_of_opening(tag_file: bool, version: u32, k: int)
    requires
        0 <= k < opening(tag_file, version).len(),
        opening(tag_file, version)[k] !is Opened,
    ensures
        opening(tag_file, version)[0] is CreateCacheDir,
        ({
            let next = opening(tag_file, version)[k].follower(tag_file, version);
            next is Some ==> k + 1 < opening(tag_file, version).len() && next == Some(
                opening(tag_file, version)[k + 1],
            )
        }),
{
    let whole = opening(tag_file, version);
    let start = if tag_file {
        seq![OpenPhase::CreateCacheDir, OpenPhase::CheckTagFile]
    } else {
        seq![OpenPhase::CreateCacheDir, OpenPhase::CheckTagFile, OpenPhase::WriteTagFile]
    };
    assert(whole =~= start + opening_middle(version) + opening_end(version));
}

/// An opening goes on to what has to come next.
proof fn lemma_opening_goes_on<P, D>(
    paths: CachePaths<P>,
    tag_file: bool,
    version: u32,
    phase: OpenPhase,
    next: OpenPhase,
)
    requires
        opening_goes_on::<P, D>(paths, tag_file, version, phase, next),
    ensures
        phase !is Opened,
        phase.follower(tag_file, version) == Some(next),
{
}

/// However far an opening has come, it has gone through the phases in the order in which they
/// have to come. It is the lock that comes before the database, and the version of the database
/// that decides what comes then.
pub proof fn openings_go_in_order<P, D>(
    paths: CachePaths<P>,
    tag_file: bool,
    version: u32,
    phases: Seq<OpenPhase>,
    index: int,
)
    requires
        is_opening::<P, D>(paths, tag_file, version, phases),
        0 <= index < phases.len(),
    ensures
        index < opening(tag_file, version).len(),
        phases[index] == opening(tag_file, version)[index],
    decreases index,
{
    if index == 0 {
        lemma_phase_of_opening(tag_file, version, 0);
    } else {
        openings_go_in_order::<P, D>(paths, tag_file, version, phases, index - 1);
        lemma_opening_goes_on::<P, D>(
            paths,
            tag_file,
            version,
            phases[index - 1],
            phases[index],
        );
        lemma_phase_of_opening(tag_file, version, index - 1);
    }
}

/// The message about a cache that could not be opened names the path, and for a newer database
/// both versions.
pub proof fn opening_messages_name_the_path<P, D>(
    error: CacheOpenErrorReason<P, D>,
    path: &str,
    text: String,
)
    requires
        call_ensures(CacheOpenErrorReason::<P, D>::to_text, (&error, path), text),
    ensures
        contains_text(text@, path@),
        error matches CacheOpenErrorReason::UnsupportedDatabaseVersion {
            actual_version,
            expected_version,
            ..
        } ==> contains_text(text@, decimal_of(actual_version as nat)) && contains_text(
            text@,
            decimal_of(expected_version as nat),
        ),
{
    end_is_contained("Failed to create cache directory "@, path@);
    end_is_contained("Failed to create CACHEDIR.TAG in "@, path@);
    end_is_contained("Failed to create lockfile at "@, path@);
    part_is_contained("Failed to lock the cache (lockfile: "@, path@, ")"@);
    end_is_contained("Failed to open database at "@, path@);
    end_is_contained("Failed to setup database at "@, path@);
    if let CacheOpenErrorReason::UnsupportedDatabaseVersion {
        actual_version,
        expected_version,
        ..
    } = error {
        let actual = decimal_of(actual_version as nat);
        let expected = decimal_of(expected_version as nat);
        let start = "Database file has version "@ + actual + ", newer then expected "@;
        let middle = start + expected + " at "@;
        part_is_contained("Database file has version "@, actual, ", newer then expected "@);
        contained_in_longer(start, actual, expected + " at "@ + path@);
        part_is_contained(start, expected, " at "@);
        contained_in_longer(middle, expected, path@);
        end_is_contained(middle, path@);
        assert(text@ =~= start + (expected + " at "@ + path@));
        assert(text@ =~= middle + path@);
    }
}

/// What every phase of an opening can come to.
pub proof fn openings_await_every_outcome<D>(phase: OpenPhase, event: OpenEvent<D>)
    ensures
        phase is CheckTagFile ==> (phase.awaits(event) <==> event is TagFile),
        phase is ReadVersion ==> (phase.awaits(event) <==> event is Version
            || event is DatabaseFailed),
        phase is CreateCacheDir || phase is WriteTagFile || phase is CreateLockfile || phase
            is LockShared ==> (phase.awaits(event) <==> event is Done || event is IoFailed),
        phase is OpenDatabase || phase is Configure || phase is SetUp ==> (phase.awaits(event)
            <==> event is Done || event is DatabaseFailed),
        phase is Opened ==> !phase.awaits(event),
{
}

/// Both tables are found by their paths, and a connection waits where the database is locked. The
/// mark of a cache is the one by which caches are known.
pub proof fn databases_have_both_tables()
    ensures
        contains_text(CREATE_TABLES@, "CREATE TABLE cached_input_files (\n    path TEXT PRIMARY KEY,"@),
        contains_text(CREATE_TABLES@, "CREATE TABLE cached_output_files (\n    relative_path TEXT PRIMARY KEY,"@),
        contains_text(CONFIGURE@, "PRAGMA foreign_keys = ON;"@),
        contains_text(CONFIGURE@, "PRAGMA journal_mode = WAL;"@),
        contains_text(CONFIGURE@, "PRAGMA busy_timeout = 1000;"@),
        contains_text(CACHEDIR_TAG_CONTENTS@, "Signature: 8a477f597d28d172789f06886806bc55\n"@),
{
    reveal_strlit("CREATE TABLE cached_input_files (\n    path TEXT PRIMARY KEY,\n    hash TEXT NOT NULL,\n    modified_time BLOB NOT NULL,\n    last_used_time TEXT\n);\nCREATE INDEX inputs_by_hash ON cached_input_files(hash);\nCREATE TABLE cached_output_files (\n    relative_path TEXT PRIMARY KEY,\n    hash TEXT NOT NULL,\n    modified_time BLOB NOT NULL,\n    compression_options BLOB,\n    input_hash TEXT NOT NULL\n);\n-- this is needed to allow efficient gc\nCREATE INDEX outputs_by_input_hash ON cached_output_files(input_hash);\n");
    reveal_strlit("CREATE TABLE cached_input_files (\n    path TEXT PRIMARY KEY,");
    reveal_strlit("CREATE TABLE cached_output_files (\n    relative_path TEXT PRIMARY KEY,");
    reveal_strlit("PRAGMA foreign_keys = ON;\nPRAGMA journal_mode = WAL;\n-- wait up to 1s if the db is locked (better than immediate error)\nPRAGMA busy_timeout = 1000;\n");
    reveal_strlit("PRAGMA foreign_keys = ON;");
    reveal_strlit("PRAGMA journal_mode = WAL;");
    reveal_strlit("PRAGMA busy_timeout = 1000;");
    reveal_strlit("Signature: 8a477f597d28d172789f06886806bc55\n# This directory is a cache for the anvil-recompress tool\n# See https://github.com/Techcable/anvil-recompress.mc/\n");
    reveal_strlit("Signature: 8a477f597d28d172789f06886806bc55\n");
    assert(CREATE_TABLES@.subrange(0int, 0int + "CREATE TABLE cached_input_files (\n    path TEXT PRIMARY KEY,"@.len()) =~= "CREATE TABLE cached_input_files (\n    path TEXT PRIMARY KEY,"@);
    assert(CREATE_TABLES@.subrange(202int, 202int + "CREATE TABLE cached_output_files (\n    relative_path TEXT PRIMARY KEY,"@.len()) =~= "CREATE TABLE cached_output_files (\n    relative_path TEXT PRIMARY KEY,"@);
    assert(CONFIGURE@.subrange(0int, 0int + "PRAGMA foreign_keys = ON;"@.len()) =~= "PRAGMA foreign_keys = ON;"@);
    assert(CONFIGURE@.subrange(26int, 26int + "PRAGMA journal_mode = WAL;"@.len()) =~= "PRAGMA journal_mode = WAL;"@);
    assert(CONFIGURE@.subrange(120int, 120int + "PRAGMA busy_timeout = 1000;"@.len()) =~= "PRAGMA busy_timeout = 1000;"@);
    assert(CACHEDIR_TAG_CONTENTS@.subrange(0int, 0int + "Signature: 8a477f597d28d172789f06886806bc55\n"@.len()) =~= "Signature: 8a477f597d28d172789f06886806bc55\n"@);
}

} // verus!
