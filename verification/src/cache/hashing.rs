//! How the hashes of input and output files are found, step by step.
//!
//! A file that still has the modification time that goes with a known hash is not read.
use vstd::prelude::*;
use crate::cache::statement::{
    hash_query, input_row, input_update, query_hash, update_input,
};
use crate::cache::{blake3_digest, HashRowView};
use crate::cache::{
    CachedHash, Checksum, FileModificationTime, HashFileKind, HashRow, HashView, RowError,
    RowErrorView, Statement,
};
use crate::text::{contains_text, end_is_contained, joined};

verus! {

/// The time at which a file was modified is not known.
#[derive(Debug)]
pub struct ModTimeResolveError<P> {
    pub path: P,
    pub cause: std::io::Error,
}

/// A file could not be read from its start.
#[derive(Debug)]
pub struct FileRewindError<P> {
    pub path: P,
    pub cause: std::io::Error,
}

/// Nothing could be loaded from the database.
#[derive(Debug)]
pub enum LoadError<D> {
    /// The database made trouble.
    Database(D),
    /// The row makes no sense.
    Row(RowError),
}

/// Failure to find the hash of a file.
#[derive(Debug)]
pub struct HashFileError<P, D> {
    pub path: P,
    pub kind: HashFileKind,
    pub reason: HashFileErrorReason<P, D>,
}

/// Why the hash of a file could not be found.
#[derive(Debug)]
pub enum HashFileErrorReason<P, D> {
    DatabaseLoad(LoadError<D>),
    DatabaseUpdate(D),
    Timestamp(ModTimeResolveError<P>),
    Hash(std::io::Error),
    InvalidUTF8(P),
    Rewind(FileRewindError<P>),
}

impl<P> ModTimeResolveError<P> {
    /// The message, in which the path is shown as given.
    pub fn to_text(&self, path: &str) -> (r: String)
        ensures
            r@ == "Failed to get ctime/mtime for "@ + path@,
    {
        let mut text = "Failed to get ctime/mtime for ".to_owned();
        text.append(path);
        text
    }
}

impl<P> FileRewindError<P> {
    /// The message, in which the path is shown as given.
    pub fn to_text(&self, path: &str) -> (r: String)
        ensures
            r@ == "Failed to rewind file handle for "@ + path@,
    {
        let mut text = "Failed to rewind file handle for ".to_owned();
        text.append(path);
        text
    }
}

impl<P, D> HashFileError<P, D> {
    /// The message, in which the path is shown as given.
    pub fn to_text(&self, path: &str) -> (r: String)
        ensures
            r@ == "Failed to hash "@ + self.kind.spec_name() + " file "@ + path@,
    {
        let mut text = joined("Failed to hash ", self.kind.name(), " file ");
        text.append(path);
        text
    }
}

impl<P, D> HashFileErrorReason<P, D> {
    /// The message, in which the path is shown as given, or `None` where what caused the
    /// failure speaks for itself.
    pub open spec fn message(self, path: Seq<char>) -> Option<Seq<char>> {
        match self {
            HashFileErrorReason::DatabaseLoad(_) => Some("Failed to load from database"@),
            HashFileErrorReason::DatabaseUpdate(_) => Some("Failed to update database"@),
            HashFileErrorReason::Timestamp(_) => Some("Failed to get ctime/mtime for "@ + path),
            HashFileErrorReason::Rewind(_) => Some("Failed to rewind file handle for "@ + path),
            HashFileErrorReason::Hash(_) | HashFileErrorReason::InvalidUTF8(_) => None,
        }
    }

    /// The message, in which the path is shown as given, or `None` where what caused the
    /// failure speaks for itself.
    pub fn to_text(&self, path: &str) -> (r: Option<String>)
        ensures
            match r {
                Some(text) => self.message(path@) == Some(text@),
                None => self.message(path@) is None,
            },
    {
        match self {
            HashFileErrorReason::DatabaseLoad(_) => Some("Failed to load from database".to_owned()),
            HashFileErrorReason::DatabaseUpdate(_) => Some("Failed to update database".to_owned()),
            HashFileErrorReason::Timestamp(error) => Some(error.to_text(path)),
            HashFileErrorReason::Rewind(error) => Some(error.to_text(path)),
            HashFileErrorReason::Hash(_) | HashFileErrorReason::InvalidUTF8(_) => None,
        }
    }
}

/// A known hash is still that of a file which was modified at this moment.
pub open spec fn is_current(cached: Option<HashView>, modified: int) -> bool {
    cached matches Some(cached) && cached.timestamp == modified
}

/// The hash of a file that was modified at some moment and has some contents: the known one
/// where it is current, and that of the contents otherwise.
pub open spec fn hash_of_file(
    cached: Option<HashView>,
    modified: int,
    contents: Seq<u8>,
) -> HashView {
    if is_current(cached, modified) {
        cached->0
    } else {
        HashView { hash: blake3_digest(contents), timestamp: modified }
    }
}

/// What is known of a hash.
pub open spec fn known(cached: Option<CachedHash>) -> Option<HashView> {
    match cached {
        Some(cached) => Some(cached@),
        None => None,
    }
}

/// Whether a known hash is still that of a file which was modified at this time.
fn still_current(cached: &Option<CachedHash>, modified: &FileModificationTime) -> (r: bool)
    ensures
        r == is_current(known(*cached), modified.moment()),
{
    match cached {
        Some(cached) => cached.timestamp.to_timestamp() == modified.to_timestamp(),
        None => false,
    }
}

/// An input file whose hash is wanted.
#[derive(Debug)]
pub struct InputHashing<P> {
    path: P,
}

/// An input file that the database can be asked about.
#[derive(Debug)]
pub struct InputLookup<P> {
    path: P,
    text: String,
}

/// An input file of which it has to be found out when it was modified.
#[derive(Debug)]
pub struct InputTiming<P> {
    path: P,
    text: String,
    cached: Option<CachedHash>,
}

/// An input file that has to be read.
#[derive(Debug)]
pub struct InputReading<P> {
    path: P,
    text: String,
    modified: FileModificationTime,
}

/// An input file whose hash is known and has to be kept.
#[derive(Debug)]
pub struct InputHashed<P> {
    path: P,
    text: String,
    hash: Checksum,
    modified: FileModificationTime,
}

/// What comes after the time at which an input file was modified.
#[derive(Debug)]
pub enum InputTimed<P> {
    /// The hash that is known is current.
    Current(InputHashed<P>),
    /// The file has to be read.
    Outdated(InputReading<P>),
}

/// The failure to find the hash of an input file.
pub open spec fn input_failure<P, D>(
    path: P,
    reason: HashFileErrorReason<P, D>,
) -> HashFileError<P, D> {
    HashFileError { path, kind: HashFileKind::Input, reason }
}

impl<P> InputHashing<P> {
    /// The path of the file.
    pub closed spec fn file(self) -> P {
        self.path
    }

    /// The hash of the input file at this path is wanted.
    pub fn new(path: P) -> (r: Self)
        ensures
            r.file() == path,
    {
        InputHashing { path }
    }

    /// The path as text, or the path itself where it is not UTF-8.
    pub fn path_converted<D>(self, text: Result<String, P>) -> (r: Result<
        InputLookup<P>,
        HashFileError<P, D>,
    >)
        ensures
            match text {
                Ok(text) => {
                    &&& r matches Ok(next)
                    &&& next.file() == self.file()
                    &&& next.path_text() == text
                },
                Err(invalid) => r == Err::<InputLookup<P>, _>(
                    input_failure(
                        self.file(),
                        HashFileErrorReason::<P, D>::InvalidUTF8(invalid),
                    ),
                ),
            },
    {
        match text {
            Ok(text) => Ok(InputLookup { path: self.path, text }),
            Err(invalid) => Err(
                HashFileError {
                    path: self.path,
                    kind: HashFileKind::Input,
                    reason: HashFileErrorReason::InvalidUTF8(invalid),
                },
            ),
        }
    }
}

impl<P> InputLookup<P> {
    /// The path of the file.
    pub closed spec fn file(self) -> P {
        self.path
    }

    /// The path as text.
    pub closed spec fn path_text(self) -> String {
        self.text
    }

    /// The statement with which the database is asked.
    pub fn query(&self) -> (r: Statement)
        ensures
            r@ == hash_query(HashFileKind::Input, self.path_text()@),
    {
        query_hash(HashFileKind::Input, self.text.as_str())
    }

    /// The row that the database has, if it has one.
    pub fn loaded<D>(self, row: Result<Option<HashRow>, D>) -> (r: Result<
        InputTiming<P>,
        HashFileError<P, D>,
    >)
        ensures
            r matches Ok(next) ==> {
                &&& next.file() == self.file()
                &&& next.path_text() == self.path_text()
                &&& row is Ok
                &&& match row->Ok_0 {
                    Some(row) => next.known_hash() matches Some(cached) && row@.content() == Ok::<
                        HashView,
                        RowErrorView,
                    >(cached@),
                    None => next.known_hash() is None,
                }
            },
            r matches Err(e) ==> {
                &&& e.path == self.file()
                &&& e.kind == HashFileKind::Input
                &&& e.reason matches HashFileErrorReason::DatabaseLoad(cause)
                &&& match row {
                    Err(cause2) => cause == LoadError::Database(cause2),
                    Ok(row) => {
                        &&& cause matches LoadError::Row(error)
                        &&& row matches Some(row)
                        &&& row@.content() == Err::<HashView, RowErrorView>(error@)
                    },
                }
            },
    {
        let cause = match row {
            Ok(None) => {
                return Ok(InputTiming { path: self.path, text: self.text, cached: None });
            },
            Ok(Some(row)) => match row.read() {
                Ok(cached) => {
                    return Ok(
                        InputTiming { path: self.path, text: self.text, cached: Some(cached) },
                    );
                },
                Err(error) => LoadError::Row(error),
            },
            Err(cause) => LoadError::Database(cause),
        };
        Err(
            HashFileError {
                path: self.path,
                kind: HashFileKind::Input,
                reason: HashFileErrorReason::DatabaseLoad(cause),
            },
        )
    }
}

impl<P> InputTiming<P> {
    /// The path of the file.
    pub closed spec fn file(self) -> P {
        self.path
    }

    /// The path as text.
    pub closed spec fn path_text(self) -> String {
        self.text
    }

    /// The hash that is known.
    pub closed spec fn known_hash(self) -> Option<CachedHash> {
        self.cached
    }

    /// The time at which the file was modified.
    pub fn timed<D>(self, modified: Result<FileModificationTime, ModTimeResolveError<P>>) -> (r:
        Result<InputTimed<P>, HashFileError<P, D>>)
        ensures
            match modified {
                Err(cause) => r == Err::<InputTimed<P>, _>(
                    input_failure(self.file(), HashFileErrorReason::<P, D>::Timestamp(cause)),
                ),
                Ok(modified) => match r {
                    Ok(InputTimed::Current(hashed)) => {
                        &&& is_current(known(self.known_hash()), modified.moment())
                        &&& hashed.file() == self.file()
                        &&& hashed.path_text() == self.path_text()
                        &&& hashed.spec_modified() == modified
                        &&& hashed.spec_hash() == self.known_hash()->0.hash
                        &&& forall|contents: Seq<u8>|
                            hashed.spec_hash().digest() == #[trigger] hash_of_file(
                                known(self.known_hash()),
                                modified.moment(),
                                contents,
                            ).hash
                    },
                    Ok(InputTimed::Outdated(reading)) => {
                        &&& !is_current(known(self.known_hash()), modified.moment())
                        &&& reading.file() == self.file()
                        &&& reading.path_text() == self.path_text()
                        &&& reading.spec_modified() == modified
                    },
                    Err(_) => false,
                },
            },
    {
        let modified = match modified {
            Ok(modified) => modified,
            Err(cause) => {
                return Err(
                    HashFileError {
                        path: self.path,
                        kind: HashFileKind::Input,
                        reason: HashFileErrorReason::Timestamp(cause),
                    },
                );
            },
        };
        if still_current(&self.cached, &modified) {
            if let Some(cached) = self.cached {
                // no need to update as the timestamp matches
                return Ok(
                    InputTimed::Current(
                        InputHashed { path: self.path, text: self.text, hash: cached.hash, modified },
                    ),
                );
            }
        }
        Ok(InputTimed::Outdated(InputReading { path: self.path, text: self.text, modified }))
    }
}

impl<P> InputReading<P> {
    /// The path of the file.
    pub closed spec fn file(self) -> P {
        self.path
    }

    /// The path as text.
    pub closed spec fn path_text(self) -> String {
        self.text
    }

    /// When the file was modified.
    pub closed spec fn spec_modified(self) -> FileModificationTime {
        self.modified
    }

    /// The contents of the file.
    pub fn contents_read<D>(self, contents: Result<Vec<u8>, std::io::Error>) -> (r: Result<
        InputHashed<P>,
        HashFileError<P, D>,
    >)
        ensures
            match contents {
                Err(cause) => r == Err::<InputHashed<P>, _>(
                    input_failure(self.file(), HashFileErrorReason::<P, D>::Hash(cause)),
                ),
                Ok(contents) => {
                    &&& r matches Ok(next)
                    &&& next.file() == self.file()
                    &&& next.path_text() == self.path_text()
                    &&& next.spec_modified() == self.spec_modified()
                    &&& next.spec_hash().digest() == blake3_digest(contents@)
                    &&& forall|cached: Option<HashView>|
                        !is_current(cached, self.spec_modified().moment())
                            ==> next.spec_hash().digest() == #[trigger] hash_of_file(
                            cached,
                            self.spec_modified().moment(),
                            contents@,
                        ).hash
                },
            },
    {
        match contents {
            Ok(contents) => Ok(
                InputHashed {
                    path: self.path,
                    text: self.text,
                    hash: Checksum::of_contents(contents.as_slice()),
                    modified: self.modified,
                },
            ),
            Err(cause) => Err(
                HashFileError {
                    path: self.path,
                    kind: HashFileKind::Input,
                    reason: HashFileErrorReason::Hash(cause),
                },
            ),
        }
    }
}

impl<P> InputHashed<P> {
    /// The path of the file.
    pub closed spec fn file(self) -> P {
        self.path
    }

    /// The path as text.
    pub closed spec fn path_text(self) -> String {
        self.text
    }

    /// The hash of the file.
    pub closed spec fn spec_hash(self) -> Checksum {
        self.hash
    }

    /// When the file was modified.
    pub closed spec fn spec_modified(self) -> FileModificationTime {
        self.modified
    }

    /// When the file was modified.
    pub fn modified(&self) -> (r: FileModificationTime)
        ensures
            r == self.spec_modified(),
    {
        self.modified
    }

    /// The statement with which the database keeps the hash.
    pub fn update(&self) -> (r: Statement)
        requires
            self.spec_modified().writable(),
        ensures
            r@ == input_update(self.path_text()@, self.spec_hash(), self.spec_modified()),
            input_row(r@).content() == Ok::<HashView, RowErrorView>(
                HashView {
                    hash: self.spec_hash().digest(),
                    timestamp: self.spec_modified().moment(),
                },
            ),
    {
        update_input(self.text.as_str(), &self.hash, &self.modified)
    }

    /// The database has kept the hash, or not.
    pub fn updated<D>(self, outcome: Result<(), D>) -> (r: Result<Checksum, HashFileError<P, D>>)
        ensures
            match outcome {
                Ok(()) => r == Ok::<_, HashFileError<P, D>>(self.spec_hash()),
                Err(cause) => r == Err::<Checksum, _>(
                    input_failure(self.file(), HashFileErrorReason::<P, D>::DatabaseUpdate(cause)),
                ),
            },
    {
        match outcome {
            Ok(()) => Ok(self.hash),
            Err(cause) => Err(
                HashFileError {
                    path: self.path,
                    kind: HashFileKind::Input,
                    reason: HashFileErrorReason::DatabaseUpdate(cause),
                },
            ),
        }
    }
}

/// What is known of when an output file was modified.
#[derive(Debug)]
pub enum OutputTime<P> {
    Modified(FileModificationTime),
    /// There is no such file.
    NotFound,
    Failed(ModTimeResolveError<P>),
}

/// An output file whose hash is wanted, and the hash that is known.
#[derive(Debug)]
pub struct OutputHashing<P> {
    path: P,
    cached: Option<CachedHash>,
}

/// An output file that has to be rewound and read.
#[derive(Debug)]
pub struct OutputRewinding<P> {
    path: P,
    modified: FileModificationTime,
}

/// An output file that has to be read from its start.
#[derive(Debug)]
pub struct OutputReading<P> {
    path: P,
    modified: FileModificationTime,
}

/// What comes after the time at which an output file was modified.
#[derive(Debug)]
pub enum OutputTimed<P> {
    /// The hash, unless there is no file.
    Known(Option<CachedHash>),
    /// The file has to be read.
    Outdated(OutputRewinding<P>),
}

/// The failure to find the hash of an output file.
pub open spec fn output_failure<P, D>(
    path: P,
    reason: HashFileErrorReason<P, D>,
) -> HashFileError<P, D> {
    HashFileError { path, kind: HashFileKind::Output, reason }
}

impl<P> OutputHashing<P> {
    /// The path of the file.
    pub closed spec fn file(self) -> P {
        self.path
    }

    /// The hash that is known.
    pub closed spec fn known_hash(self) -> Option<CachedHash> {
        self.cached
    }

    /// The hash of the output file at this path is wanted.
    pub fn new(path: P, cached: Option<CachedHash>) -> (r: Self)
        ensures
            r.file() == path,
            r.known_hash() == cached,
    {
        OutputHashing { path, cached }
    }

    /// The time at which the file was modified.
    pub fn timed<D>(self, time: OutputTime<P>) -> (r: Result<OutputTimed<P>, HashFileError<P, D>>)
        ensures
            match time {
                OutputTime::NotFound => r == Ok::<_, HashFileError<P, D>>(
                    OutputTimed::<P>::Known(None),
                ),
                OutputTime::Failed(cause) => r == Err::<OutputTimed<P>, _>(
                    output_failure(self.file(), HashFileErrorReason::<P, D>::Timestamp(cause)),
                ),
                OutputTime::Modified(modified) => match r {
                    Ok(OutputTimed::Known(hash)) => {
                        &&& is_current(known(self.known_hash()), modified.moment())
                        &&& hash == self.known_hash()
                        &&& forall|contents: Seq<u8>|
                            known(hash) == Some(
                                #[trigger] hash_of_file(
                                    known(self.known_hash()),
                                    modified.moment(),
                                    contents,
                                ),
                            )
                    },
                    Ok(OutputTimed::Outdated(rewinding)) => {
                        &&& !is_current(known(self.known_hash()), modified.moment())
                        &&& rewinding.file() == self.file()
                        &&& rewinding.spec_modified() == modified
                    },
                    Err(_) => false,
                },
            },
    {
        match time {
            OutputTime::NotFound => {
                // file isn't found => there is no hash
                Ok(OutputTimed::Known(None))
            },
            OutputTime::Failed(cause) => Err(
                HashFileError {
                    path: self.path,
                    kind: HashFileKind::Output,
                    reason: HashFileErrorReason::Timestamp(cause),
                },
            ),
            OutputTime::Modified(modified) => {
                if still_current(&self.cached, &modified) {
                    Ok(OutputTimed::Known(self.cached))
                } else {
                    Ok(OutputTimed::Outdated(OutputRewinding { path: self.path, modified }))
                }
            },
        }
    }
}

impl<P> OutputRewinding<P> {
    /// The path of the file.
    pub closed spec fn file(self) -> P {
        self.path
    }

    /// When the file was modified.
    pub closed spec fn spec_modified(self) -> FileModificationTime {
        self.modified
    }

    /// The file is to be read from its start, or cannot be.
    pub fn rewound<D>(self, outcome: Result<(), FileRewindError<P>>) -> (r: Result<
        OutputReading<P>,
        HashFileError<P, D>,
    >)
        ensures
            match outcome {
                Ok(()) => {
                    &&& r matches Ok(next)
                    &&& next.file() == self.file()
                    &&& next.spec_modified() == self.spec_modified()
                },
                Err(cause) => r == Err::<OutputReading<P>, _>(
                    output_failure(self.file(), HashFileErrorReason::<P, D>::Rewind(cause)),
                ),
            },
    {
        match outcome {
            Ok(()) => Ok(OutputReading { path: self.path, modified: self.modified }),
            Err(cause) => Err(
                HashFileError {
                    path: self.path,
                    kind: HashFileKind::Output,
                    reason: HashFileErrorReason::Rewind(cause),
                },
            ),
        }
    }
}

impl<P> OutputReading<P> {
    /// The path of the file.
    pub closed spec fn file(self) -> P {
        self.path
    }

    /// When the file was modified.
    pub closed spec fn spec_modified(self) -> FileModificationTime {
        self.modified
    }

    /// The contents of the file.
    pub fn contents_read<D>(self, contents: Result<Vec<u8>, std::io::Error>) -> (r: Result<
        CachedHash,
        HashFileError<P, D>,
    >)
        ensures
            match contents {
                Err(cause) => r == Err::<CachedHash, _>(
                    output_failure(self.file(), HashFileErrorReason::<P, D>::Hash(cause)),
                ),
                Ok(contents) => {
                    &&& r matches Ok(hash)
                    &&& hash.hash.digest() == blake3_digest(contents@)
                    &&& hash.timestamp == self.spec_modified()
                    &&& forall|cached: Option<HashView>|
                        !is_current(cached, self.spec_modified().moment()) ==> hash@
                            == #[trigger] hash_of_file(
                            cached,
                            self.spec_modified().moment(),
                            contents@,
                        )
                },
            },
    {
        match contents {
            Ok(contents) => Ok(
                CachedHash {
                    hash: Checksum::of_contents(contents.as_slice()),
                    timestamp: self.modified,
                },
            ),
            Err(cause) => Err(
                HashFileError {
                    path: self.path,
                    kind: HashFileKind::Output,
                    reason: HashFileErrorReason::Hash(cause),
                },
            ),
        }
    }
}

/// A file whose contents have not changed keeps its hash, whatever has become of the time at
/// which it was modified; and a file whose time has not changed keeps it unread.
pub proof fn unchanged_file_keeps_hash(cached: HashView, modified: int, contents: Seq<u8>)
    requires
        modified == cached.timestamp || blake3_digest(contents) == cached.hash,
    ensures
        hash_of_file(Some(cached), modified, contents).hash == cached.hash,
{
}

/// The hash of an input file that was kept is the one that is found when the file is asked for
/// again, as long as the file has not been modified.
pub proof fn kept_input_hash_is_found(row: HashRowView, kept: HashView, contents: Seq<u8>)
    requires
        row.content() == Ok::<HashView, RowErrorView>(kept),
    ensures
        hash_of_file(Some(row.content()->Ok_0), kept.timestamp, contents) == kept,
{
}

/// A file whose time is not the one that goes with a known hash, be it earlier or later and by
/// however much, has the hash of the contents that it has now.
pub proof fn modified_file_is_hashed_anew(
    cached: Option<HashView>,
    modified: int,
    contents: Seq<u8>,
)
    requires
        cached matches Some(cached) ==> cached.timestamp != modified,
    ensures
        hash_of_file(cached, modified, contents).hash == blake3_digest(contents),
        hash_of_file(cached, modified, contents).timestamp == modified,
{
}

/// An input file is read unless its time is exactly the one that goes with the known hash.
pub proof fn input_is_read_unless_unmodified<P, D>(
    timing: InputTiming<P>,
    modified: FileModificationTime,
    r: Result<InputTimed<P>, HashFileError<P, D>>,
)
    requires
        call_ensures(
            InputTiming::<P>::timed::<D>,
            (timing, Ok::<FileModificationTime, ModTimeResolveError<P>>(modified)),
            r,
        ),
    ensures
        r is Ok,
        r->Ok_0 is Current <==> timing.known_hash() is Some
            && timing.known_hash()->0.timestamp.moment() == modified.moment(),
        r matches Ok(InputTimed::Current(hashed)) ==> hashed.spec_hash()
            == timing.known_hash()->0.hash && hashed.spec_modified() == modified,
        r matches Ok(InputTimed::Outdated(reading)) ==> reading.spec_modified() == modified,
{
}

/// The hash of an input file that was read is that of what was read.
pub proof fn read_input_has_hash_of_contents<P, D>(
    reading: InputReading<P>,
    contents: Vec<u8>,
    hashed: InputHashed<P>,
    r: Result<Checksum, HashFileError<P, D>>,
)
    requires
        call_ensures(
            InputReading::<P>::contents_read::<D>,
            (reading, Ok::<Vec<u8>, std::io::Error>(contents)),
            Ok::<InputHashed<P>, HashFileError<P, D>>(hashed),
        ),
        call_ensures(InputHashed::<P>::updated::<D>, (hashed, Ok::<(), D>(())), r),
    ensures
        r matches Ok(hash) && hash.digest() == blake3_digest(contents@),
        hashed.spec_modified() == reading.spec_modified(),
{
}

/// An output file is read unless it is gone or its time is exactly the one that goes with the
/// known hash.
pub proof fn output_is_read_unless_unmodified<P, D>(
    hashing: OutputHashing<P>,
    time: OutputTime<P>,
    r: Result<OutputTimed<P>, HashFileError<P, D>>,
)
    requires
        call_ensures(OutputHashing::<P>::timed::<D>, (hashing, time), r),
    ensures
        r is Err <==> time is Failed,
        time is NotFound ==> r == Ok::<_, HashFileError<P, D>>(OutputTimed::<P>::Known(None)),
        time matches OutputTime::Modified(modified) ==> (r->Ok_0 is Known
            <==> hashing.known_hash() is Some && hashing.known_hash()->0.timestamp.moment()
            == modified.moment()),
        time is Modified && r->Ok_0 is Known ==> r->Ok_0->Known_0 == hashing.known_hash(),
        time matches OutputTime::Modified(modified) ==> (r->Ok_0 is Outdated
            ==> r->Ok_0->Outdated_0.spec_modified() == modified),
{
}

/// The hash of an output file that was read is that of what was read, and goes with the time that
/// the file had before.
pub proof fn read_output_has_hash_of_contents<P, D>(
    rewinding: OutputRewinding<P>,
    reading: OutputReading<P>,
    contents: Vec<u8>,
    r: Result<CachedHash, HashFileError<P, D>>,
)
    requires
        call_ensures(
            OutputRewinding::<P>::rewound::<D>,
            (rewinding, Ok::<(), FileRewindError<P>>(())),
            Ok::<OutputReading<P>, HashFileError<P, D>>(reading),
        ),
        call_ensures(
            OutputReading::<P>::contents_read::<D>,
            (reading, Ok::<Vec<u8>, std::io::Error>(contents)),
            r,
        ),
    ensures
        r matches Ok(hash) && hash.hash.digest() == blake3_digest(contents@) && hash.timestamp
            == rewinding.spec_modified(),
{
}

/// A failure to find a hash names the file and the sort of file that it is.
pub proof fn hash_failures_name_the_file<P, D>(path: P, reason: HashFileErrorReason<P, D>)
    ensures
        input_failure(path, reason).path == path,
        input_failure(path, reason).kind is Input,
        input_failure(path, reason).reason == reason,
        output_failure(path, reason).path == path,
        output_failure(path, reason).kind is Output,
        output_failure(path, reason).reason == reason,
{
}

/// What is known of an input file is what its row holds, and nothing where there is no row. A row
/// that makes no sense is an error, as is one that could not be loaded.
pub proof fn known_hash_is_that_of_the_row<P, D>(
    lookup: InputLookup<P>,
    row: Result<Option<HashRow>, D>,
    read: Result<CachedHash, RowError>,
    r: Result<InputTiming<P>, HashFileError<P, D>>,
)
    requires
        call_ensures(InputLookup::<P>::loaded::<D>, (lookup, row), r),
        row matches Ok(Some(row)) ==> call_ensures(HashRow::read, (&row,), read),
    ensures
        row is Err ==> r is Err,
        row matches Ok(None) ==> r is Ok && r->Ok_0.known_hash() is None,
        row matches Ok(Some(_)) ==> (r is Ok <==> read is Ok),
        row matches Ok(Some(_)) ==> (r is Ok ==> known(r->Ok_0.known_hash()) == Some(
            read->Ok_0@,
        )),
        r matches Ok(timing) ==> timing.file() == lookup.file() && timing.path_text()
            == lookup.path_text(),
        r matches Err(e) ==> e.path == lookup.file() && e.kind is Input && e.reason is DatabaseLoad,
{
}

/// Every step towards the hash of an input file goes well if and only if the system and the
/// database say so, and a failure names the file.
pub proof fn input_hashing_fails_only_with_the_system<P, D>(
    hashing: InputHashing<P>,
    text: Result<String, P>,
    converted: Result<InputLookup<P>, HashFileError<P, D>>,
    timing: InputTiming<P>,
    modified: Result<FileModificationTime, ModTimeResolveError<P>>,
    timed: Result<InputTimed<P>, HashFileError<P, D>>,
    reading: InputReading<P>,
    contents: Result<Vec<u8>, std::io::Error>,
    read: Result<InputHashed<P>, HashFileError<P, D>>,
    hashed: InputHashed<P>,
    outcome: Result<(), D>,
    updated: Result<Checksum, HashFileError<P, D>>,
)
    requires
        call_ensures(InputHashing::<P>::path_converted::<D>, (hashing, text), converted),
        call_ensures(InputTiming::<P>::timed::<D>, (timing, modified), timed),
        call_ensures(InputReading::<P>::contents_read::<D>, (reading, contents), read),
        call_ensures(InputHashed::<P>::updated::<D>, (hashed, outcome), updated),
    ensures
        converted is Ok <==> text is Ok,
        converted matches Err(e) ==> e.path == hashing.file() && e.kind is Input && e.reason
            is InvalidUTF8,
        converted matches Ok(lookup) ==> lookup.file() == hashing.file() && lookup.path_text()
            == text->Ok_0,
        timed is Ok <==> modified is Ok,
        timed matches Err(e) ==> e.path == timing.file() && e.kind is Input && e.reason
            is Timestamp,
        read is Ok <==> contents is Ok,
        read matches Err(e) ==> e.path == reading.file() && e.kind is Input && e.reason is Hash,
        updated is Ok <==> outcome is Ok,
        updated matches Err(e) ==> e.path == hashed.file() && e.kind is Input && e.reason
            is DatabaseUpdate,
        updated matches Ok(hash) ==> hash == hashed.spec_hash(),
{
}

/// Every step towards the hash of an output file goes well if and only if the system says so, and
/// a failure names the file.
pub proof fn output_hashing_fails_only_with_the_system<P, D>(
    hashing: OutputHashing<P>,
    time: OutputTime<P>,
    timed: Result<OutputTimed<P>, HashFileError<P, D>>,
    rewinding: OutputRewinding<P>,
    outcome: Result<(), FileRewindError<P>>,
    rewound: Result<OutputReading<P>, HashFileError<P, D>>,
    reading: OutputReading<P>,
    contents: Result<Vec<u8>, std::io::Error>,
    read: Result<CachedHash, HashFileError<P, D>>,
)
    requires
        call_ensures(OutputHashing::<P>::timed::<D>, (hashing, time), timed),
        call_ensures(OutputRewinding::<P>::rewound::<D>, (rewinding, outcome), rewound),
        call_ensures(OutputReading::<P>::contents_read::<D>, (reading, contents), read),
    ensures
        timed is Err <==> time is Failed,
        timed matches Err(e) ==> e.path == hashing.file() && e.kind is Output && e.reason
            is Timestamp,
        rewound is Ok <==> outcome is Ok,
        rewound matches Err(e) ==> e.path == rewinding.file() && e.kind is Output && e.reason
            is Rewind,
        read is Ok <==> contents is Ok,
        read matches Err(e) ==> e.path == reading.file() && e.kind is Output && e.reason is Hash,
{
}

/// The message about a time that is not known, or a file that could not be rewound, names the file.
pub proof fn hash_messages_name_the_file<P, D>(
    reason: HashFileErrorReason<P, D>,
    path: &str,
    r: Option<String>,
)
    requires
        call_ensures(HashFileErrorReason::<P, D>::to_text, (&reason, path), r),
    ensures
        r is None <==> reason is Hash || reason is InvalidUTF8,
        reason is Timestamp || reason is Rewind ==> contains_text(r->0@, path@),
{
    end_is_contained("Failed to get ctime/mtime for "@, path@);
    end_is_contained("Failed to rewind file handle for "@, path@);
}

} // verus!
