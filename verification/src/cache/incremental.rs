//! How a region file is recompressed only where it has to be, step by step.
use vstd::prelude::*;
use crate::cache::hashing::{
    hash_of_file, known, FileRewindError, HashFileError, InputHashing, LoadError, OutputHashing,
};
use crate::cache::options_json::{different_options_have_different_texts, options_text};
use crate::cache::statement::{
    named, output_row, output_update, query_output, update_output, SELECT_OUTPUT,
};
use crate::cache::{blake3_digest, ColumnView, HashRowView, HashView, OutputInfoView};
use crate::cache::{
    CachedHash, CachedOutputFileInfo, Checksum, FileModificationTime, OptionsJson, OutputRow,
    RowError, Statement,
};
use crate::cache::{OutputRowView, RowErrorView, StatementView};
use crate::errors::FileRecompressError;
use crate::options::RecompressFileOptions;
use crate::recompress::{begins, recompress_region_file, RecompressedFile, Recompression};
use crate::text::{
    contained_in_longer, contains_text, end_is_contained, joined, part_is_contained,
};

verus! {

/// Failure to look up what is known of an output file.
#[derive(Debug)]
pub struct CacheLookupError<D> {
    pub cause: LoadError<D>,
}

/// Failure to recompress a file incrementally.
#[derive(Debug)]
pub struct CachedFileRecompressError<P, D> {
    pub input_file: P,
    pub output_file: String,
    pub reason: CachedRecompressErrorReason<P, D>,
}

/// Why a file could not be recompressed incrementally.
#[derive(Debug)]
pub enum CachedRecompressErrorReason<P, D> {
    Recompress(FileRecompressError<P>),
    LoadCachedOutputInfo(CacheLookupError<D>),
    HashOutput(HashFileError<P, D>),
    HashInput(HashFileError<P, D>),
    /// The output file was removed in between.
    DeletedOutputFile { path: String },
    UpdateCachedOutput(D),
    Rewind(FileRewindError<P>),
    TruncateOutput(std::io::Error),
}

impl<D> CacheLookupError<D> {
    /// The message.
    pub fn to_text(&self) -> (r: String)
        ensures
            r@ == "Failed to lookup data from cache"@,
    {
        "Failed to lookup data from cache".to_owned()
    }
}

impl<P, D> CachedFileRecompressError<P, D> {
    /// The message, in which the two files are shown as given. It names both.
    pub open spec fn message(input_file: Seq<char>, output_file: Seq<char>) -> Seq<char> {
        "Failed incremental recompress of "@ + input_file + " into "@ + output_file
    }

    /// The message, in which the two files are shown as given.
    pub fn to_text(&self, input_file: &str, output_file: &str) -> (r: String)
        ensures
            r@ == Self::message(input_file@, output_file@),
    {
        let mut text = joined("Failed incremental recompress of ", input_file, " into ");
        text.append(output_file);
        text
    }
}

impl<P, D> CachedRecompressErrorReason<P, D> {
    /// The message, in which the path of the output file is shown as given, or `None` where the
    /// failure of the recompression speaks for itself.
    pub open spec fn message(self, path: Seq<char>) -> Option<Seq<char>> {
        match self {
            CachedRecompressErrorReason::Recompress(_) => None,
            CachedRecompressErrorReason::LoadCachedOutputInfo(_) => Some(
                "Failed to load cached output info"@,
            ),
            CachedRecompressErrorReason::HashOutput(_) => Some("Failed to hash output file"@),
            CachedRecompressErrorReason::HashInput(_) => Some("Failed to hash input file"@),
            CachedRecompressErrorReason::DeletedOutputFile { .. } => Some(
                "Output file removed while running ("@ + path + ")"@,
            ),
            CachedRecompressErrorReason::UpdateCachedOutput(_) => Some(
                "Failed to update cached output in database"@,
            ),
            CachedRecompressErrorReason::Rewind(_) => Some(
                "Failed to rewind file handle for "@ + path,
            ),
            CachedRecompressErrorReason::TruncateOutput(_) => Some(
                "Failed to truncate output file"@,
            ),
        }
    }

    /// The message, in which the path of the output file is shown as given, or `None` where the
    /// failure of the recompression speaks for itself.
    pub fn to_text(&self, path: &str) -> (r: Option<String>)
        ensures
            match r {
                Some(text) => self.message(path@) == Some(text@),
                None => self.message(path@) is None,
            },
    {
        let text = match self {
            CachedRecompressErrorReason::Recompress(_) => {
                return None;
            },
            CachedRecompressErrorReason::LoadCachedOutputInfo(_) => {
                "Failed to load cached output info".to_owned()
            },
            CachedRecompressErrorReason::HashOutput(_) => "Failed to hash output file".to_owned(),
            CachedRecompressErrorReason::HashInput(_) => "Failed to hash input file".to_owned(),
            CachedRecompressErrorReason::DeletedOutputFile { .. } => {
                joined("Output file removed while running (", path, ")")
            },
            CachedRecompressErrorReason::UpdateCachedOutput(_) => {
                "Failed to update cached output in database".to_owned()
            },
            CachedRecompressErrorReason::Rewind(error) => error.to_text(path),
            CachedRecompressErrorReason::TruncateOutput(_) => {
                "Failed to truncate output file".to_owned()
            },
        };
        Some(text)
    }
}

/// An input file, and the locked output file that it is to be recompressed into.
#[derive(Debug)]
pub struct IncrementalRecompression<P> {
    input_file: P,
    output_file: P,
    output_path: String,
    resolved_output_path: String,
    opts: RecompressFileOptions,
}

/// What is known of an output file.
pub open spec fn known_output(cached: Option<CachedOutputFileInfo>) -> Option<OutputInfoView> {
    match cached {
        Some(cached) => Some(cached@),
        None => None,
    }
}

/// The hash that is known of an output file.
pub open spec fn known_output_hash(cached: Option<OutputInfoView>) -> Option<HashView> {
    match cached {
        Some(cached) => Some(
            HashView { hash: cached.output_hash, timestamp: cached.output_modified },
        ),
        None => None,
    }
}

/// The output file can be used as it is: it is the one that is known, and it was made from
/// an input file with the same hash under the same options.
pub open spec fn reusable(
    cached: Option<OutputInfoView>,
    existing: Option<HashView>,
    options: Seq<char>,
    input_hash: Seq<u8>,
) -> bool {
    &&& cached matches Some(cached)
    &&& existing matches Some(existing)
    &&& cached.output_hash == existing.hash
    &&& cached.compression_opts == options
    &&& cached.input_hash == input_hash
}

impl<P: Copy> IncrementalRecompression<P> {
    /// The file that is read.
    pub closed spec fn input(self) -> P {
        self.input_file
    }

    /// The file that is written.
    pub closed spec fn output(self) -> P {
        self.output_file
    }

    /// The path of the output file, relative to the output directory.
    pub closed spec fn relative_path(self) -> Seq<char> {
        self.output_path@
    }

    /// The path of the output file as text.
    pub closed spec fn resolved_path(self) -> Seq<char> {
        self.resolved_output_path@
    }

    /// How the chunks are compressed.
    pub closed spec fn options(self) -> RecompressFileOptions {
        self.opts
    }

    /// The error names the two files.
    pub open spec fn reported<D>(self, error: CachedFileRecompressError<P, D>) -> bool {
        &&& error.input_file == self.input()
        &&& error.output_file@ == self.relative_path()
    }

    pub(crate) fn new(
        input_file: P,
        output_file: P,
        output_path: String,
        resolved_output_path: String,
        opts: RecompressFileOptions,
    ) -> (r: Self)
        ensures
            r.input() == input_file,
            r.output() == output_file,
            r.relative_path() == output_path@,
            r.resolved_path() == resolved_output_path@,
            r.options() == opts,
    {
        IncrementalRecompression { input_file, output_file, output_path, resolved_output_path, opts }
    }

    fn fail<D>(self, reason: CachedRecompressErrorReason<P, D>) -> (r: CachedFileRecompressError<
        P,
        D,
    >)
        ensures
            self.reported(r),
            r.reason == reason,
    {
        CachedFileRecompressError {
            input_file: self.input_file,
            output_file: self.output_path,
            reason,
        }
    }

    /// The statement with which the database is asked what is known of the output file.
    pub fn query(&self) -> (r: Statement)
        ensures
            r@ == (StatementView {
                sql: SELECT_OUTPUT@,
                params: seq![named(":path"@, ColumnView::of_text(self.relative_path()))],
            }),
    {
        query_output(self.output_path.as_str())
    }

    /// The row that the database has, if it has one.
    pub fn loaded<D>(self, row: Result<Option<OutputRow>, D>) -> (r: Result<
        OutputLoaded<P>,
        CachedFileRecompressError<P, D>,
    >)
        ensures
            r matches Ok(next) ==> {
                &&& next.files() == self
                &&& row is Ok
                &&& match row->Ok_0 {
                    Some(row) => next.known_info() matches Some(cached) && row@.content() == Ok::<
                        OutputInfoView,
                        RowErrorView,
                    >(cached),
                    None => next.known_info() is None,
                }
            },
            r matches Err(e) ==> {
                &&& self.reported(e)
                &&& e.reason matches CachedRecompressErrorReason::LoadCachedOutputInfo(error)
                &&& match row {
                    Err(cause) => error.cause == LoadError::Database(cause),
                    Ok(row) => {
                        &&& error.cause matches LoadError::Row(error)
                        &&& row matches Some(row)
                        &&& row@.content() == Err::<OutputInfoView, RowErrorView>(error@)
                    },
                }
            },
    {
        let cause = match row {
            Ok(None) => {
                return Ok(OutputLoaded { files: self, cached: None });
            },
            Ok(Some(row)) => match row.read() {
                Ok(cached) => {
                    return Ok(OutputLoaded { files: self, cached: Some(cached) });
                },
                Err(error) => LoadError::Row(error),
            },
            Err(cause) => LoadError::Database(cause),
        };
        Err(
            self.fail(
                CachedRecompressErrorReason::LoadCachedOutputInfo(CacheLookupError { cause }),
            ),
        )
    }
}

/// A recompression for which it has been looked up what is known of the output file.
/// The hash of the input file comes next.
#[derive(Debug)]
pub struct OutputLoaded<P> {
    files: IncrementalRecompression<P>,
    cached: Option<CachedOutputFileInfo>,
}

/// A recompression whose input file has been hashed. The hash of the output file comes next.
#[derive(Debug)]
pub struct InputKnown<P> {
    files: IncrementalRecompression<P>,
    cached: Option<CachedOutputFileInfo>,
    input_hash: Checksum,
}

impl<P: Copy> OutputLoaded<P> {
    /// The files and the options.
    pub closed spec fn files(self) -> IncrementalRecompression<P> {
        self.files
    }

    /// What is known of the output file.
    pub closed spec fn known_info(self) -> Option<OutputInfoView> {
        known_output(self.cached)
    }

    /// The hash of the input file is wanted.
    pub fn input_hashing(&self) -> (r: InputHashing<P>)
        ensures
            r.file() == self.files().input(),
    {
        InputHashing::new(self.files.input_file)
    }

    /// The input file has been hashed, or not.
    pub fn input_hashed<D>(self, outcome: Result<Checksum, HashFileError<P, D>>) -> (r: Result<
        InputKnown<P>,
        CachedFileRecompressError<P, D>,
    >)
        ensures
            match outcome {
                Ok(input_hash) => {
                    &&& r matches Ok(next)
                    &&& next.files() == self.files()
                    &&& next.known_info() == self.known_info()
                    &&& next.spec_input_hash() == input_hash
                },
                Err(cause) => r matches Err(e) && self.files().reported(e) && e.reason
                    == CachedRecompressErrorReason::<P, D>::HashInput(cause),
            },
    {
        match outcome {
            Ok(input_hash) => Ok(
                InputKnown { files: self.files, cached: self.cached, input_hash },
            ),
            Err(cause) => Err(self.files.fail(CachedRecompressErrorReason::HashInput(cause))),
        }
    }
}

impl<P: Copy> InputKnown<P> {
    /// The files and the options.
    pub closed spec fn files(self) -> IncrementalRecompression<P> {
        self.files
    }

    /// What is known of the output file.
    pub closed spec fn known_info(self) -> Option<OutputInfoView> {
        known_output(self.cached)
    }

    /// The hash of the input file.
    pub closed spec fn spec_input_hash(self) -> Checksum {
        self.input_hash
    }

    /// The hash of the output file is wanted, of which something may be known.
    pub fn output_hashing(&self) -> (r: OutputHashing<P>)
        ensures
            r.file() == self.files().output(),
            known(r.known_hash()) == known_output_hash(self.known_info()),
    {
        let cached = match &self.cached {
            Some(info) => Some(
                CachedHash { hash: info.output_hash, timestamp: info.output_modified },
            ),
            None => None,
        };
        OutputHashing::new(self.files.output_file, cached)
    }

    /// The output file can be used as it is, if it has this hash.
    pub open spec fn reusable_with(self, existing: Option<CachedHash>) -> bool {
        reusable(
            self.known_info(),
            known(existing),
            options_text(self.files().options()),
            self.spec_input_hash().digest(),
        )
    }

    /// The output file has been hashed, or not. Decide whether it can be used as it is.
    pub fn output_hashed<D>(
        self,
        outcome: Result<Option<CachedHash>, HashFileError<P, D>>,
    ) -> (r: Result<Decision<P>, CachedFileRecompressError<P, D>>)
        ensures
            match outcome {
                Ok(existing) => match r {
                    Ok(Decision::Reuse) => self.reusable_with(existing),
                    Ok(Decision::Recompute(job)) => {
                        &&& !self.reusable_with(existing)
                        &&& job.files() == self.files()
                        &&& job.spec_input_hash() == self.spec_input_hash()
                    },
                    Err(_) => false,
                },
                Err(cause) => r matches Err(e) && self.files().reported(e) && e.reason
                    == CachedRecompressErrorReason::<P, D>::HashOutput(cause),
            },
    {
        let existing = match outcome {
            Ok(existing) => existing,
            Err(cause) => {
                return Err(self.files.fail(CachedRecompressErrorReason::HashOutput(cause)));
            },
        };
        let options = OptionsJson::new(&self.files.opts);
        if let Some(cached) = &self.cached {
            if let Some(existing) = &existing {
                if cached.output_hash == existing.hash && options.has_notation(
                    &cached.compression_opts,
                ) && cached.input_hash == self.input_hash {
                    return Ok(Decision::Reuse);
                }
            }
        }
        Ok(
            Decision::Recompute(
                Recomputation { files: self.files, options, input_hash: self.input_hash },
            ),
        )
    }
}

/// Whether an output file is recompressed.
#[derive(Debug)]
pub enum Decision<P> {
    /// The output file stays as it is.
    Reuse,
    /// The output file is made anew.
    Recompute(Recomputation<P>),
}

/// An output file that is made anew: it is rewound, emptied, filled and hashed,
/// and what is known of it is kept, in this order.
#[derive(Debug)]
pub struct Recomputation<P> {
    files: IncrementalRecompression<P>,
    options: OptionsJson,
    input_hash: Checksum,
}

/// An output file that was rewound. It has to be emptied next.
#[derive(Debug)]
pub struct Rewound<P> {
    job: Recomputation<P>,
}

/// An output file that was emptied. It has to be filled next.
#[derive(Debug)]
pub struct Emptied<P> {
    job: Recomputation<P>,
}

/// An output file that was filled. It has to be hashed next.
#[derive(Debug)]
pub struct Filled<P> {
    job: Recomputation<P>,
}

/// An output file that was made anew, with its hash.
#[derive(Debug)]
pub struct Recomputed<P> {
    job: Recomputation<P>,
    output: CachedHash,
}

impl<P> Recomputation<P> {
    /// What will be kept of the options is what they are.
    #[verifier::type_invariant]
    spec fn well_formed(self) -> bool {
        self.options.notation() == options_text(self.files.opts)
    }
}

impl<P: Copy> Recomputation<P> {
    /// The files and the options.
    pub closed spec fn files(self) -> IncrementalRecompression<P> {
        self.files
    }

    /// The hash of the input file.
    pub closed spec fn spec_input_hash(self) -> Checksum {
        self.input_hash
    }

    /// The output file has been rewound, or not.
    pub fn rewound<D>(self, outcome: Result<(), FileRewindError<P>>) -> (r: Result<
        Rewound<P>,
        CachedFileRecompressError<P, D>,
    >)
        ensures
            match outcome {
                Ok(()) => r matches Ok(next) && next.job() == self,
                Err(cause) => r matches Err(e) && self.files().reported(e) && e.reason
                    == CachedRecompressErrorReason::<P, D>::Rewind(cause),
            },
    {
        match outcome {
            Ok(()) => Ok(Rewound { job: self }),
            Err(cause) => Err(self.files.fail(CachedRecompressErrorReason::Rewind(cause))),
        }
    }
}

impl<P: Copy> Rewound<P> {
    /// The recompression.
    pub closed spec fn job(self) -> Recomputation<P> {
        self.job
    }

    /// The output file has been emptied, or not.
    pub fn truncated<D>(self, outcome: Result<(), std::io::Error>) -> (r: Result<
        Emptied<P>,
        CachedFileRecompressError<P, D>,
    >)
        ensures
            match outcome {
                Ok(()) => r matches Ok(next) && next.job() == self.job(),
                Err(cause) => r matches Err(e) && self.job().files().reported(e)
                    && e.reason == CachedRecompressErrorReason::<P, D>::TruncateOutput(cause),
            },
    {
        match outcome {
            Ok(()) => Ok(Emptied { job: self.job }),
            Err(cause) => Err(self.job.files.fail(CachedRecompressErrorReason::TruncateOutput(cause))),
        }
    }
}

impl<P: Copy> Emptied<P> {
    /// The recompression.
    pub closed spec fn job(self) -> Recomputation<P> {
        self.job
    }

    /// Begin to recompress the input file into the output file.
    pub fn recompression(&self) -> (r: Result<Recompression<P>, FileRecompressError<P>>)
        ensures
            begins(
                self.job().files().input(),
                self.job().files().output(),
                self.job().files().options(),
                r,
            ),
    {
        recompress_region_file(
            self.job.files.input_file,
            self.job.files.output_file,
            &self.job.files.opts,
        )
    }

    /// The input file has been recompressed into the output file, or not. What is handed in is
    /// the end of the recompression that [`Self::recompression`] began.
    pub fn recompressed<D>(
        self,
        outcome: Result<RecompressedFile<P>, FileRecompressError<P>>,
    ) -> (r: Result<Filled<P>, CachedFileRecompressError<P, D>>)
        requires
            outcome matches Ok(done) ==> {
                &&& done.job().input() == self.job().files().input()
                &&& done.job().output() == self.job().files().output()
                &&& done.job().options() == self.job().files().options()
            },
        ensures
            match outcome {
                Ok(_) => r matches Ok(next) && next.job() == self.job(),
                Err(cause) => r matches Err(e) && self.job().files().reported(e) && e.reason
                    == CachedRecompressErrorReason::<P, D>::Recompress(cause),
            },
    {
        match outcome {
            Ok(_) => Ok(Filled { job: self.job }),
            Err(cause) => Err(self.job.files.fail(CachedRecompressErrorReason::Recompress(cause))),
        }
    }
}

impl<P: Copy> Filled<P> {
    /// The recompression.
    pub closed spec fn job(self) -> Recomputation<P> {
        self.job
    }

    /// The hash of the output file is wanted. Nothing is known of it any more.
    pub fn output_hashing(&self) -> (r: OutputHashing<P>)
        ensures
            r.file() == self.job().files().output(),
            r.known_hash() is None,
    {
        OutputHashing::new(self.job.files.output_file, None)
    }

    /// The output file has been hashed, unless it is gone.
    pub fn hashed<D>(self, outcome: Result<Option<CachedHash>, HashFileError<P, D>>) -> (r: Result<
        Recomputed<P>,
        CachedFileRecompressError<P, D>,
    >)
        ensures
            match outcome {
                Ok(Some(output)) => {
                    &&& r matches Ok(next)
                    &&& next.job() == self.job()
                    &&& next.spec_output() == output
                },
                Ok(None) => {
                    &&& r matches Err(e)
                    &&& self.job().files().reported(e)
                    &&& e.reason matches CachedRecompressErrorReason::DeletedOutputFile { path }
                    &&& path@ == self.job().files().resolved_path()
                },
                Err(cause) => r matches Err(e) && self.job().files().reported(e) && e.reason
                    == CachedRecompressErrorReason::<P, D>::HashOutput(cause),
            },
    {
        match outcome {
            Ok(Some(output)) => Ok(Recomputed { job: self.job, output }),
            Ok(None) => {
                let path = self.job.files.resolved_output_path.as_str().to_owned();
                Err(
                    self.job.files.fail(
                        CachedRecompressErrorReason::DeletedOutputFile { path },
                    ),
                )
            },
            Err(cause) => Err(self.job.files.fail(CachedRecompressErrorReason::HashOutput(cause))),
        }
    }
}

/// What is known of an output file that was made anew.
pub open spec fn recomputed_info<P: Copy>(done: Recomputed<P>) -> OutputInfoView {
    OutputInfoView {
        input_hash: done.job().spec_input_hash().digest(),
        compression_opts: options_text(done.job().files().options()),
        output_hash: done.spec_output().hash.digest(),
        output_modified: done.spec_output().timestamp.moment(),
    }
}

impl<P: Copy> Recomputed<P> {
    /// The recompression.
    pub closed spec fn job(self) -> Recomputation<P> {
        self.job
    }

    /// The hash of the output file.
    pub closed spec fn spec_output(self) -> CachedHash {
        self.output
    }

    /// When the output file was modified.
    pub fn modified(&self) -> (r: FileModificationTime)
        ensures
            r == self.spec_output().timestamp,
    {
        self.output.timestamp
    }

    /// The statement with which the database keeps what is known of the output file: its hash, the
    /// options under which it was made, and the hash of the input file that it was made from.
    pub fn update(&self) -> (r: Statement)
        requires
            self.spec_output().timestamp.writable(),
        ensures
            r@ == output_update(
                self.job().files().relative_path(),
                self.spec_output().hash,
                self.spec_output().timestamp,
                options_text(self.job().files().options()),
                self.job().spec_input_hash(),
            ),
            output_row(r@).content() == Ok::<OutputInfoView, RowErrorView>(recomputed_info(*self)),
    {
        proof {
            use_type_invariant(&self.job);
        }
        update_output(
            self.job.files.output_path.as_str(),
            &self.output.hash,
            &self.output.timestamp,
            &self.job.options,
            &self.job.input_hash,
        )
    }

    /// The database has kept what is known of the output file, or not.
    pub fn updated<D>(self, outcome: Result<(), D>) -> (r: Result<
        (),
        CachedFileRecompressError<P, D>,
    >)
        ensures
            match outcome {
                Ok(()) => r is Ok,
                Err(cause) => r matches Err(e) && self.job().files().reported(e) && e.reason
                    == CachedRecompressErrorReason::<P, D>::UpdateCachedOutput(cause),
            },
    {
        match outcome {
            Ok(()) => Ok(()),
            Err(cause) => Err(
                self.job.files.fail(CachedRecompressErrorReason::UpdateCachedOutput(cause)),
            ),
        }
    }
}

/// An output file that was made anew is not made again as long as nothing has changed.
///
/// `input_row` and `output_row` are the rows that were kept of the input and the output file. Of
/// each of the two files it is enough that either the time at which it was modified or the hash of
/// its contents is still the same: a changed time alone does no harm.
pub proof fn unchanged_output_is_reused<P: Copy>(
    done: Recomputed<P>,
    input_row: HashRowView,
    output_row: OutputRowView,
    input: HashView,
    input_modified: int,
    input_contents: Seq<u8>,
    output_modified: int,
    output_contents: Seq<u8>,
)
    requires
        input_row.content() == Ok::<HashView, RowErrorView>(input),
        input.hash == done.job().spec_input_hash().digest(),
        output_row.content() == Ok::<OutputInfoView, RowErrorView>(recomputed_info(done)),
        input_modified == input.timestamp || blake3_digest(input_contents) == input.hash,
        output_modified == done.spec_output().timestamp.moment() || blake3_digest(output_contents)
            == done.spec_output().hash.digest(),
    ensures
        reusable(
            Some(output_row.content()->Ok_0),
            Some(
                hash_of_file(
                    known_output_hash(Some(output_row.content()->Ok_0)),
                    output_modified,
                    output_contents,
                ),
            ),
            options_text(done.job().files().options()),
            hash_of_file(
                Some(input_row.content()->Ok_0),
                input_modified,
                input_contents,
            ).hash,
        ),
{
}

/// An output file is made anew whenever the hash of the input file, the options or the hash of
/// the output file itself differ from what is known, and whenever the output file is gone or
/// nothing is known of it.
pub proof fn changed_output_is_made_anew(
    cached: Option<OutputInfoView>,
    existing: Option<HashView>,
    options: Seq<char>,
    input_hash: Seq<u8>,
)
    requires
        cached is None || existing is None || cached->0.input_hash != input_hash
            || cached->0.compression_opts != options || cached->0.output_hash != existing->0.hash,
    ensures
        !reusable(cached, existing, options, input_hash),
{
}

/// An output file that was made under other options is made anew.
pub proof fn changed_options_are_noticed<P: Copy>(
    done: Recomputed<P>,
    opts: RecompressFileOptions,
    existing: Option<HashView>,
    input_hash: Seq<u8>,
)
    requires
        opts != done.job().files().options(),
    ensures
        !reusable(Some(recomputed_info(done)), existing, options_text(opts), input_hash),
{
    different_options_have_different_texts(opts, done.job().files().options());
}

/// An output file stays as it is if and only if it is there with the hash that is known of it, and
/// the known hash of the input file and the known options are those of now.
pub proof fn output_is_reused_only_unchanged<P: Copy, D>(
    input: InputKnown<P>,
    existing: Option<CachedHash>,
    r: Result<Decision<P>, CachedFileRecompressError<P, D>>,
)
    requires
        call_ensures(
            InputKnown::<P>::output_hashed::<D>,
            (input, Ok::<Option<CachedHash>, HashFileError<P, D>>(existing)),
            r,
        ),
    ensures
        r is Ok,
        r->Ok_0 is Reuse <==> {
            &&& input.known_info() matches Some(info)
            &&& existing matches Some(hash)
            &&& info.output_hash == hash.hash.digest()
            &&& info.input_hash == input.spec_input_hash().digest()
            &&& info.compression_opts == options_text(input.files().options())
        },
{
}

/// An input file whose time and whose contents have both changed makes the output file be made
/// anew, whatever else is known.
pub proof fn changed_input_is_noticed(
    info: OutputInfoView,
    kept: HashView,
    modified: int,
    contents: Seq<u8>,
    existing: Option<HashView>,
    options: Seq<char>,
)
    requires
        modified != kept.timestamp,
        blake3_digest(contents) != info.input_hash,
    ensures
        !reusable(
            Some(info),
            existing,
            options,
            hash_of_file(Some(kept), modified, contents).hash,
        ),
{
}

/// An output file whose time and whose contents have both changed is made anew, whatever else is
/// known.
pub proof fn changed_output_is_noticed(
    info: OutputInfoView,
    modified: int,
    contents: Seq<u8>,
    options: Seq<char>,
    input_hash: Seq<u8>,
)
    requires
        modified != info.output_modified,
        blake3_digest(contents) != info.output_hash,
    ensures
        !reusable(
            Some(info),
            Some(hash_of_file(known_output_hash(Some(info)), modified, contents)),
            options,
            input_hash,
        ),
{
}

/// What is recompressed is the input file into the output file, under the options that the
/// decision was made for.
pub proof fn recomputation_goes_by_the_decision<P: Copy, D>(
    input: InputKnown<P>,
    existing: Option<CachedHash>,
    job: Recomputation<P>,
    rewound: Rewound<P>,
    emptied: Emptied<P>,
    r: Result<Recompression<P>, FileRecompressError<P>>,
)
    requires
        call_ensures(
            InputKnown::<P>::output_hashed::<D>,
            (input, Ok::<Option<CachedHash>, HashFileError<P, D>>(existing)),
            Ok::<Decision<P>, CachedFileRecompressError<P, D>>(Decision::Recompute(job)),
        ),
        call_ensures(
            Recomputation::<P>::rewound::<D>,
            (job, Ok::<(), FileRewindError<P>>(())),
            Ok::<Rewound<P>, CachedFileRecompressError<P, D>>(rewound),
        ),
        call_ensures(
            Rewound::<P>::truncated::<D>,
            (rewound, Ok::<(), std::io::Error>(())),
            Ok::<Emptied<P>, CachedFileRecompressError<P, D>>(emptied),
        ),
        call_ensures(Emptied::<P>::recompression, (&emptied,), r),
    ensures
        r is Ok <==> input.files().options().valid(),
        r matches Ok(started) ==> {
            &&& started.input() == input.files().input()
            &&& started.output() == input.files().output()
            &&& started.options() == input.files().options()
        },
        job.spec_input_hash() == input.spec_input_hash(),
{
}

/// What is kept of an output file that was made anew is its own hash and time, the hash of the
/// input file and the options, and it is kept under the path of the output file.
pub proof fn recomputed_output_is_kept<P: Copy>(done: Recomputed<P>, r: Statement)
    requires
        call_ensures(Recomputed::<P>::update, (&done,), r),
    ensures
        output_row(r@).content() is Ok,
        output_row(r@).content()->Ok_0.output_hash == done.spec_output().hash.digest(),
        output_row(r@).content()->Ok_0.output_modified == done.spec_output().timestamp.moment(),
        output_row(r@).content()->Ok_0.input_hash == done.job().spec_input_hash().digest(),
        output_row(r@).content()->Ok_0.compression_opts == options_text(
            done.job().files().options(),
        ),
        r@.params[0].value == ColumnView::of_text(done.job().files().relative_path()),
{
}

/// The message about a file that could not be recompressed names both files, and the one about an
/// output file that was removed names that.
pub proof fn incremental_messages_name_the_files<P, D>(
    error: CachedFileRecompressError<P, D>,
    input_file: &str,
    output_file: &str,
    text: String,
    reason: CachedRecompressErrorReason<P, D>,
    path: &str,
    reason_text: Option<String>,
)
    requires
        call_ensures(
            CachedFileRecompressError::<P, D>::to_text,
            (&error, input_file, output_file),
            text,
        ),
        call_ensures(CachedRecompressErrorReason::<P, D>::to_text, (&reason, path), reason_text),
    ensures
        contains_text(text@, input_file@),
        contains_text(text@, output_file@),
        reason_text is None <==> reason is Recompress,
        reason is DeletedOutputFile || reason is Rewind ==> contains_text(reason_text->0@, path@),
{
    let start = "Failed incremental recompress of "@ + input_file@ + " into "@;
    part_is_contained("Failed incremental recompress of "@, input_file@, " into "@);
    contained_in_longer(start, input_file@, output_file@);
    end_is_contained(start, output_file@);
    part_is_contained("Output file removed while running ("@, path@, ")"@);
    end_is_contained("Failed to rewind file handle for "@, path@);
}

/// Every step of a recompression goes well if and only if what it stands on did, and a failure
/// names the input file and the output file. An output file that is gone cannot be hashed.
pub proof fn incremental_steps_fail_only_with_their_cause<P: Copy, D>(
    loaded: OutputLoaded<P>,
    input_outcome: Result<Checksum, HashFileError<P, D>>,
    known_input: Result<InputKnown<P>, CachedFileRecompressError<P, D>>,
    input: InputKnown<P>,
    output_outcome: Result<Option<CachedHash>, HashFileError<P, D>>,
    decision: Result<Decision<P>, CachedFileRecompressError<P, D>>,
    filled: Filled<P>,
    hash_outcome: Result<Option<CachedHash>, HashFileError<P, D>>,
    hashed: Result<Recomputed<P>, CachedFileRecompressError<P, D>>,
    done: Recomputed<P>,
    update_outcome: Result<(), D>,
    updated: Result<(), CachedFileRecompressError<P, D>>,
)
    requires
        call_ensures(
            OutputLoaded::<P>::input_hashed::<D>,
            (loaded, input_outcome),
            known_input,
        ),
        call_ensures(InputKnown::<P>::output_hashed::<D>, (input, output_outcome), decision),
        call_ensures(Filled::<P>::hashed::<D>, (filled, hash_outcome), hashed),
        call_ensures(Recomputed::<P>::updated::<D>, (done, update_outcome), updated),
    ensures
        known_input is Ok <==> input_outcome is Ok,
        known_input matches Ok(next) ==> next.spec_input_hash() == input_outcome->Ok_0
            && next.files() == loaded.files() && next.known_info() == loaded.known_info(),
        known_input matches Err(e) ==> e.input_file == loaded.files().input() && e.output_file@
            == loaded.files().relative_path() && e.reason is HashInput,
        decision is Ok <==> output_outcome is Ok,
        decision matches Err(e) ==> e.input_file == input.files().input() && e.output_file@
            == input.files().relative_path() && e.reason is HashOutput,
        hashed is Ok <==> hash_outcome matches Ok(Some(_)),
        hashed matches Ok(next) ==> Some(next.spec_output()) == hash_outcome->Ok_0 && next.job()
            == filled.job(),
        hash_outcome matches Ok(None) ==> hashed->Err_0.reason is DeletedOutputFile,
        updated is Ok <==> update_outcome is Ok,
{
}

/// An output file that is made anew is rewound, emptied and filled, each if and only if the step
/// before went well, and is not taken to be filled where the recompression failed.
pub proof fn recomputation_fails_only_with_its_cause<P: Copy, D>(
    job: Recomputation<P>,
    rewind: Result<(), FileRewindError<P>>,
    rewound: Result<Rewound<P>, CachedFileRecompressError<P, D>>,
    rewound_file: Rewound<P>,
    truncate: Result<(), std::io::Error>,
    truncated: Result<Emptied<P>, CachedFileRecompressError<P, D>>,
    emptied: Emptied<P>,
    outcome: Result<RecompressedFile<P>, FileRecompressError<P>>,
    filled: Result<Filled<P>, CachedFileRecompressError<P, D>>,
)
    requires
        call_ensures(Recomputation::<P>::rewound::<D>, (job, rewind), rewound),
        call_ensures(Rewound::<P>::truncated::<D>, (rewound_file, truncate), truncated),
        call_ensures(Emptied::<P>::recompressed::<D>, (emptied, outcome), filled),
    ensures
        rewound is Ok <==> rewind is Ok,
        rewound matches Ok(next) ==> next.job() == job,
        truncated is Ok <==> truncate is Ok,
        truncated matches Ok(next) ==> next.job() == rewound_file.job(),
        filled is Ok <==> outcome is Ok,
        filled matches Ok(next) ==> next.job() == emptied.job(),
        filled matches Err(e) ==> e.input_file == emptied.job().files().input() && e.output_file@
            == emptied.job().files().relative_path() && e.reason
            == CachedRecompressErrorReason::<P, D>::Recompress(outcome->Err_0),
{
}

/// What is known of an output file is what its row holds, and nothing where there is no row.
pub proof fn known_output_is_that_of_the_row<P: Copy, D>(
    files: IncrementalRecompression<P>,
    row: Result<Option<OutputRow>, D>,
    read: Result<CachedOutputFileInfo, RowError>,
    r: Result<OutputLoaded<P>, CachedFileRecompressError<P, D>>,
)
    requires
        call_ensures(IncrementalRecompression::<P>::loaded::<D>, (files, row), r),
        row matches Ok(Some(row)) ==> call_ensures(OutputRow::read, (&row,), read),
    ensures
        row is Err ==> r is Err,
        row matches Ok(None) ==> r is Ok && r->Ok_0.known_info() is None,
        row matches Ok(Some(_)) ==> (r is Ok <==> read is Ok),
        row matches Ok(Some(_)) ==> (r is Ok ==> r->Ok_0.known_info() == Some(read->Ok_0@)),
        r matches Ok(loaded) ==> loaded.files() == files,
        r matches Err(e) ==> e.input_file == files.input() && e.output_file@
            == files.relative_path() && e.reason is LoadCachedOutputInfo,
{
}

/// The hash of the output file is looked for with the hash and the time that are known of it, and
/// of one that was just made nothing is known.
pub proof fn output_is_hashed_with_what_is_known<P: Copy>(
    input: InputKnown<P>,
    hashing: OutputHashing<P>,
    filled: Filled<P>,
    again: OutputHashing<P>,
)
    requires
        call_ensures(InputKnown::<P>::output_hashing, (&input,), hashing),
        call_ensures(Filled::<P>::output_hashing, (&filled,), again),
    ensures
        hashing.file() == input.files().output(),
        hashing.known_hash() is Some <==> input.known_info() is Some,
        input.known_info() matches Some(info) ==> hashing.known_hash()->0.hash.digest()
            == info.output_hash && hashing.known_hash()->0.timestamp.moment()
            == info.output_modified,
        again.file() == filled.job().files().output(),
        again.known_hash() is None,
{
}

} // verus!
