//! How an output file is locked, step by step.
use vstd::prelude::*;
use crate::cache::incremental::IncrementalRecompression;
use crate::file_spec::OpenFlags;
use crate::options::RecompressFileOptions;
use crate::text::{
    contained_in_longer, contains_text, end_is_contained, joined, part_is_contained,
};

verus! {

/// Failure to lock an output file.
#[derive(Debug)]
pub struct FileLockError<P> {
    /// The path of the output file, relative to the output directory.
    pub entry: String,
    pub output_dir: P,
    pub cause: FileLockErrorReason<P>,
}

/// Why an output file could not be locked.
#[derive(Debug)]
pub enum FileLockErrorReason<P> {
    OpenFile { path: String, cause: std::io::Error },
    AcquireLock { path: String, cause: std::io::Error },
    /// The path of the output file is not UTF-8.
    OutputInvalidUtf8(P),
}

/// How a file is locked.
#[derive(Copy, Clone, Debug, PartialEq, Eq, Structural)]
pub enum LockKind {
    /// Others may hold the lock as well.
    Shared,
    /// Nobody else may hold the lock.
    Exclusive,
}

/// An output file that is to be locked.
#[derive(Debug)]
pub struct OutputLocking<P> {
    entry: String,
    output_dir: P,
}

/// An output file that is to be locked and has to be opened.
#[derive(Debug)]
pub struct OutputOpening<P> {
    file: OutputLocking<P>,
    path: String,
}

/// An output file that is open and has to be locked.
#[derive(Debug)]
pub struct OutputAcquiring<P> {
    file: OutputLocking<P>,
    path: String,
}

/// An output file that is locked, by its paths.
#[derive(Debug)]
pub struct LockedOutputFile {
    output_path: String,
    resolved_output_path: String,
}

impl<P> OutputLocking<P> {
    /// The path of the output file, relative to the output directory.
    pub closed spec fn spec_entry(self) -> String {
        self.entry
    }

    /// The output directory.
    pub closed spec fn dir(self) -> P {
        self.output_dir
    }

    /// What a failure is reported as.
    pub open spec fn failure(self, cause: FileLockErrorReason<P>) -> FileLockError<P> {
        FileLockError { entry: self.spec_entry(), output_dir: self.dir(), cause }
    }

    /// Begin to lock an output file.
    pub fn new(entry: String, output_dir: P) -> (r: Self)
        ensures
            r.spec_entry() == entry,
            r.dir() == output_dir,
    {
        OutputLocking { entry, output_dir }
    }

    fn fail(self, cause: FileLockErrorReason<P>) -> (r: FileLockError<P>)
        ensures
            r == self.failure(cause),
    {
        FileLockError { entry: self.entry, output_dir: self.output_dir, cause }
    }

    /// The path of the output file as text, or the path itself where it is not UTF-8.
    pub fn resolved(self, path: Result<String, P>) -> (r: Result<
        OutputOpening<P>,
        FileLockError<P>,
    >)
        ensures
            match path {
                Ok(path) => r matches Ok(next) && next.locking() == self && next.spec_path() == path,
                Err(invalid) => r == Err::<OutputOpening<P>, _>(
                    self.failure(FileLockErrorReason::OutputInvalidUtf8(invalid)),
                ),
            },
    {
        match path {
            Ok(path) => Ok(OutputOpening { file: self, path }),
            Err(invalid) => Err(self.fail(FileLockErrorReason::OutputInvalidUtf8(invalid))),
        }
    }
}

impl<P> OutputOpening<P> {
    /// The output file.
    pub closed spec fn locking(self) -> OutputLocking<P> {
        self.file
    }

    /// The path of the output file.
    pub closed spec fn spec_path(self) -> String {
        self.path
    }

    /// The path of the output file.
    pub fn path(&self) -> (r: &str)
        ensures
            r@ == self.spec_path()@,
    {
        self.path.as_str()
    }

    /// How the output file is opened. It keeps what it holds, as it may not have to be made anew.
    pub fn flags(&self) -> (r: OpenFlags)
        ensures
            r == (OpenFlags {
                read: true,
                write: true,
                create: true,
                truncate: false,
                create_new: false,
            }),
    {
        OpenFlags { read: true, write: true, create: true, truncate: false, create_new: false }
    }

    /// The output file is open, or not.
    pub fn opened(self, outcome: Result<(), std::io::Error>) -> (r: Result<
        OutputAcquiring<P>,
        FileLockError<P>,
    >)
        ensures
            match outcome {
                Ok(()) => {
                    &&& r matches Ok(next)
                    &&& next.locking() == self.locking()
                    &&& next.spec_path() == self.spec_path()
                },
                Err(cause) => r == Err::<OutputAcquiring<P>, _>(
                    self.locking().failure(
                        FileLockErrorReason::OpenFile { path: self.spec_path(), cause },
                    ),
                ),
            },
    {
        let path = self.path;
        match outcome {
            Ok(()) => Ok(OutputAcquiring { file: self.file, path }),
            Err(cause) => Err(self.file.fail(FileLockErrorReason::OpenFile { path, cause })),
        }
    }
}

impl<P> OutputAcquiring<P> {
    /// The output file.
    pub closed spec fn locking(self) -> OutputLocking<P> {
        self.file
    }

    /// The path of the output file.
    pub closed spec fn spec_path(self) -> String {
        self.path
    }

    /// How the output file is locked: nobody else may change it meanwhile.
    pub fn lock_kind(&self) -> (r: LockKind)
        ensures
            r == LockKind::Exclusive,
    {
        LockKind::Exclusive
    }

    /// The output file is locked, or not.
    pub fn locked(self, outcome: Result<(), std::io::Error>) -> (r: Result<
        LockedOutputFile,
        FileLockError<P>,
    >)
        ensures
            match outcome {
                Ok(()) => {
                    &&& r matches Ok(next)
                    &&& next.spec_output_path() == self.locking().spec_entry()
                    &&& next.spec_resolved_path() == self.spec_path()
                },
                Err(cause) => r == Err::<LockedOutputFile, _>(
                    self.locking().failure(
                        FileLockErrorReason::AcquireLock { path: self.spec_path(), cause },
                    ),
                ),
            },
    {
        let path = self.path;
        match outcome {
            Ok(()) => Ok(
                LockedOutputFile { output_path: self.file.entry, resolved_output_path: path },
            ),
            Err(cause) => Err(self.file.fail(FileLockErrorReason::AcquireLock { path, cause })),
        }
    }
}

impl LockedOutputFile {
    /// The path of the output file, relative to the output directory.
    pub closed spec fn spec_output_path(self) -> String {
        self.output_path
    }

    /// The path of the output file.
    pub closed spec fn spec_resolved_path(self) -> String {
        self.resolved_output_path
    }

    /// The path of the output file, relative to the output directory.
    pub fn output_path(&self) -> (r: &str)
        ensures
            r@ == self.spec_output_path()@,
    {
        self.output_path.as_str()
    }

    /// The path of the output file.
    pub fn resolved_output_path(&self) -> (r: &str)
        ensures
            r@ == self.spec_resolved_path()@,
    {
        self.resolved_output_path.as_str()
    }

    /// Begin to recompress an input file into the output file, unless that is made from it
    /// already under these options. `output_file` names the output file as `input_file` does
    /// the input file.
    pub fn recompress_region_file<P: Copy>(
        &self,
        input_file: P,
        output_file: P,
        opts: &RecompressFileOptions,
    ) -> (r: IncrementalRecompression<P>)
        ensures
            r.input() == input_file,
            r.output() == output_file,
            r.relative_path() == self.spec_output_path()@,
            r.resolved_path() == self.spec_resolved_path()@,
            r.options() == *opts,
    {
        IncrementalRecompression::new(
            input_file,
            output_file,
            self.output_path.as_str().to_owned(),
            self.resolved_output_path.as_str().to_owned(),
            opts.clone(),
        )
    }
}

impl<P> FileLockError<P> {
    /// The message, in which the paths are shown as given.
    pub open spec fn message(entry: Seq<char>, output_dir: Seq<char>) -> Seq<char> {
        "Failed to lock output file "@ + entry + " in directory "@ + output_dir
    }

    /// The message, in which the paths are shown as given.
    pub fn to_text(&self, entry: &str, output_dir: &str) -> (r: String)
        ensures
            r@ == Self::message(entry@, output_dir@),
    {
        let mut text = joined("Failed to lock output file ", entry, " in directory ");
        text.append(output_dir);
        text
    }
}

impl<P> FileLockErrorReason<P> {
    /// The message, in which the path is shown as given.
    pub open spec fn message(self, path: Seq<char>) -> Seq<char> {
        match self {
            FileLockErrorReason::OpenFile { .. } => "Failed to open file "@ + path,
            FileLockErrorReason::AcquireLock { .. } => "Failed to acquire lock"@,
            FileLockErrorReason::OutputInvalidUtf8(_) => "Resolved path contains invalid UtF8"@,
        }
    }

    /// The message, in which the path is shown as given.
    pub fn to_text(&self, path: &str) -> (r: String)
        ensures
            r@ == self.message(path@),
    {
        match self {
            FileLockErrorReason::OpenFile { .. } => {
                let mut text = "Failed to open file ".to_owned();
                text.append(path);
                text
            },
            FileLockErrorReason::AcquireLock { .. } => "Failed to acquire lock".to_owned(),
            FileLockErrorReason::OutputInvalidUtf8(_) => {
                "Resolved path contains invalid UtF8".to_owned()
            },
        }
    }
}

/// An output file that is to be locked keeps what it holds, and is created where there is none.
pub proof fn locking_keeps_contents<P>(file: OutputOpening<P>, r: OpenFlags)
    requires
        call_ensures(OutputOpening::<P>::flags, (&file,), r),
    ensures
        !r.truncate && !r.create_new,
        r.read && r.write && r.create,
{
}

/// Nobody else can hold the lock of an output file.
pub proof fn output_lock_is_exclusive<P>(file: OutputAcquiring<P>, r: LockKind)
    requires
        call_ensures(OutputAcquiring::<P>::lock_kind, (&file,), r),
    ensures
        r is Exclusive,
{
}

/// An output file that was locked is the one that was asked for, and what is recompressed into it
/// goes by both of its paths and the options that were handed over.
pub proof fn locked_file_is_the_one_asked_for<P: Copy>(
    entry: String,
    dir: P,
    path: String,
    locking: OutputLocking<P>,
    opening: OutputOpening<P>,
    acquiring: OutputAcquiring<P>,
    locked: LockedOutputFile,
    input_file: P,
    output_file: P,
    opts: RecompressFileOptions,
    job: IncrementalRecompression<P>,
)
    requires
        call_ensures(OutputLocking::<P>::new, (entry, dir), locking),
        call_ensures(
            OutputLocking::<P>::resolved,
            (locking, Ok::<String, P>(path)),
            Ok::<OutputOpening<P>, FileLockError<P>>(opening),
        ),
        call_ensures(
            OutputOpening::<P>::opened,
            (opening, Ok::<(), std::io::Error>(())),
            Ok::<OutputAcquiring<P>, FileLockError<P>>(acquiring),
        ),
        call_ensures(
            OutputAcquiring::<P>::locked,
            (acquiring, Ok::<(), std::io::Error>(())),
            Ok::<LockedOutputFile, FileLockError<P>>(locked),
        ),
        call_ensures(
            LockedOutputFile::recompress_region_file::<P>,
            (&locked, input_file, output_file, &opts),
            job,
        ),
    ensures
        job.relative_path() == entry@,
        job.resolved_path() == path@,
        job.input() == input_file,
        job.output() == output_file,
        job.options() == opts,
{
}

/// A failure to lock an output file names the file and the directory, and is not hidden.
pub proof fn lock_failures_are_reported<P>(
    file: OutputAcquiring<P>,
    cause: std::io::Error,
    r: Result<LockedOutputFile, FileLockError<P>>,
)
    requires
        call_ensures(
            OutputAcquiring::<P>::locked,
            (file, Err::<(), std::io::Error>(cause)),
            r,
        ),
    ensures
        r matches Err(e) && e.entry == file.locking().spec_entry() && e.output_dir
            == file.locking().dir() && e.cause == (FileLockErrorReason::<P>::AcquireLock {
            path: file.spec_path(),
            cause,
        }),
{
}

/// The message about a file that could not be locked names the file and the directory.
pub proof fn lock_messages_name_the_file<P>(
    error: FileLockError<P>,
    entry: &str,
    output_dir: &str,
    text: String,
)
    requires
        call_ensures(FileLockError::<P>::to_text, (&error, entry, output_dir), text),
    ensures
        contains_text(text@, entry@),
        contains_text(text@, output_dir@),
{
    let start = "Failed to lock output file "@ + entry@ + " in directory "@;
    part_is_contained("Failed to lock output file "@, entry@, " in directory "@);
    contained_in_longer(start, entry@, output_dir@);
    end_is_contained(start, output_dir@);
}

/// Every step towards a lock goes well if and only if the system says so.
pub proof fn locking_fails_only_with_the_system<P>(
    locking: OutputLocking<P>,
    path: Result<String, P>,
    resolved: Result<OutputOpening<P>, FileLockError<P>>,
    opening: OutputOpening<P>,
    open_outcome: Result<(), std::io::Error>,
    opened: Result<OutputAcquiring<P>, FileLockError<P>>,
    acquiring: OutputAcquiring<P>,
    lock_outcome: Result<(), std::io::Error>,
    locked: Result<LockedOutputFile, FileLockError<P>>,
)
    requires
        call_ensures(OutputLocking::<P>::resolved, (locking, path), resolved),
        call_ensures(OutputOpening::<P>::opened, (opening, open_outcome), opened),
        call_ensures(OutputAcquiring::<P>::locked, (acquiring, lock_outcome), locked),
    ensures
        resolved is Ok <==> path is Ok,
        opened is Ok <==> open_outcome is Ok,
        locked is Ok <==> lock_outcome is Ok,
        resolved matches Err(e) ==> e.entry == locking.spec_entry() && e.output_dir
            == locking.dir() && e.cause == FileLockErrorReason::OutputInvalidUtf8(path->Err_0),
        opened matches Err(e) ==> e.entry == opening.locking().spec_entry() && e.output_dir
            == opening.locking().dir() && e.cause == (FileLockErrorReason::<P>::OpenFile {
            path: opening.spec_path(),
            cause: open_outcome->Err_0,
        }),
{
}

} // verus!
