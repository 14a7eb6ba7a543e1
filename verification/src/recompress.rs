//! Recompression of one region file into another, step by step.
//!
//! The files themselves stay outside: every step takes what the system said,
//! and gives what has to be done next.
use vstd::prelude::*;
use std::io::Cursor;
use crate::errors::{FileRecompressError, FileRecompressErrorKind};
use crate::file_spec::FileSpecOpenError;
use crate::options::{OptionsValidateError, RecompressFileOptions};
use crate::region::{
    chunk_content, chunks_are_sound, open_region, recompress_into, recompressed, region_image, same_chunks,
    RegionError, HEADER_SIZE, SECTOR_SIZE,
};

verus! {

/// A region file that is to be recompressed, and the file that it goes to.
///
/// The options have passed validation.
#[derive(Debug)]
pub struct Recompression<P> {
    input_file: P,
    output_file: P,
    opts: RecompressFileOptions,
}

/// A recompression begins if and only if the options are valid.
pub open spec fn begins<P>(
    input_file: P,
    output_file: P,
    opts: RecompressFileOptions,
    r: Result<Recompression<P>, FileRecompressError<P>>,
) -> bool {
    match r {
        Ok(job) => {
            &&& opts.valid()
            &&& job.input() == input_file
            &&& job.output() == output_file
            &&& job.options() == opts
        },
        Err(e) => {
            &&& !opts.valid()
            &&& e.input_file == input_file
            &&& e.output_file == output_file
            &&& e.kind matches FileRecompressErrorKind::InvalidOptions(invalid)
            &&& invalid.reason.explains(opts.compression_level, opts.compression_algorithm)
        },
    }
}

/// Recompress a region file: begin with the options, which have to be valid.
///
/// The input and output file must be distinct. All errors name both.
pub fn recompress_region_file<P>(
    input_file: P,
    output_file: P,
    opts: &RecompressFileOptions,
) -> (r: Result<Recompression<P>, FileRecompressError<P>>)
    ensures
        begins(input_file, output_file, *opts, r),
{
    match opts.validate() {
        Ok(()) => Ok(Recompression { input_file, output_file, opts: opts.clone() }),
        Err(cause) => Err(
            FileRecompressError {
                input_file,
                output_file,
                kind: FileRecompressErrorKind::InvalidOptions(cause),
            },
        ),
    }
}

/// What a failure of `job` is reported as.
pub open spec fn failure<P>(
    job: Recompression<P>,
    kind: FileRecompressErrorKind,
) -> FileRecompressError<P> {
    FileRecompressError { input_file: job.input(), output_file: job.output(), kind }
}

impl<P> Recompression<P> {
    /// The file that is read.
    pub closed spec fn input(self) -> P {
        self.input_file
    }

    /// The file that is written.
    pub closed spec fn output(self) -> P {
        self.output_file
    }

    /// How the chunks are compressed.
    pub closed spec fn options(self) -> RecompressFileOptions {
        self.opts
    }

    #[verifier::type_invariant]
    spec fn well_formed(self) -> bool {
        self.opts.valid()
    }

    fn fail(self, kind: FileRecompressErrorKind) -> (r: FileRecompressError<P>)
        ensures
            r == failure(self, kind),
    {
        FileRecompressError { input_file: self.input_file, output_file: self.output_file, kind }
    }

    /// The two files have been compared, if that was possible.
    ///
    /// They must not be the same file. Where nothing is known, as for an output that does not
    /// exist yet, they are taken to differ.
    pub fn files_compared(self, same_file: Option<bool>) -> (r: Result<
        DistinctFiles<P>,
        FileRecompressError<P>,
    >)
        ensures
            r is Err <==> same_file == Some(true),
            r matches Ok(files) ==> files.job() == self,
            r matches Err(e) ==> e == failure(self, FileRecompressErrorKind::SameFile),
    {
        if let Some(true) = same_file {
            return Err(self.fail(FileRecompressErrorKind::SameFile));
        }
        Ok(DistinctFiles { job: self })
    }
}

/// A recompression between two files that differ. The input file comes next.
#[derive(Debug)]
pub struct DistinctFiles<P> {
    job: Recompression<P>,
}

impl<P> DistinctFiles<P> {
    /// The recompression.
    pub closed spec fn job(self) -> Recompression<P> {
        self.job
    }

    /// The input file could not be opened.
    pub fn input_refused(self, cause: FileSpecOpenError) -> (r: FileRecompressError<P>)
        ensures
            r == failure(self.job(), cause.0),
    {
        self.job.fail(cause.0)
    }

    /// The input file could not be read.
    pub fn input_unreadable(self, cause: std::io::Error) -> (r: FileRecompressError<P>)
        ensures
            r == failure(
                self.job(),
                FileRecompressErrorKind::ReadInput { cause: RegionError::Io(cause) },
            ),
    {
        self.job.fail(FileRecompressErrorKind::ReadInput { cause: RegionError::Io(cause) })
    }

    /// The input file holds these bytes. A region starts with a complete table of locations.
    pub fn input_read(self, image: Vec<u8>) -> (r: Result<InputRegion<P>, FileRecompressError<P>>)
        ensures
            r is Ok <==> image@.len() >= SECTOR_SIZE,
            r matches Ok(input) ==> input.job() == self.job() && input.image() == image@,
            r matches Err(e) ==> {
                &&& e.input_file == self.job().input()
                &&& e.output_file == self.job().output()
                &&& e.kind matches FileRecompressErrorKind::ReadInput { cause }
                &&& cause is Io
            },
    {
        match open_region(image) {
            Ok(region) => Ok(InputRegion { job: self.job, region }),
            Err(cause) => Err(self.job.fail(FileRecompressErrorKind::ReadInput { cause })),
        }
    }
}

/// A recompression whose input is a region. The output file comes next.
pub struct InputRegion<P> {
    job: Recompression<P>,
    region: fastanvil::Region<Cursor<Vec<u8>>>,
}

impl<P> InputRegion<P> {
    /// The recompression.
    pub closed spec fn job(self) -> Recompression<P> {
        self.job
    }

    /// The bytes of the input region.
    pub closed spec fn image(self) -> Seq<u8> {
        region_image(self.region)
    }

    #[verifier::type_invariant]
    spec fn well_formed(self) -> bool {
        region_image(self.region).len() >= SECTOR_SIZE
    }

    /// The output file could not be opened.
    pub fn output_refused(self, cause: FileSpecOpenError) -> (r: FileRecompressError<P>)
        ensures
            r == failure(self.job(), cause.0),
    {
        self.job.fail(cause.0)
    }

    /// The output file is open and holds these bytes, nothing as a rule.
    /// Recompress the input region into it. The second part of the result are the bytes
    /// that the output file has to hold from its start.
    ///
    /// Where the recompression succeeds, every chunk of the new region has the content that it
    /// has in the input region. Where it fails, the new region still has to be written: it holds
    /// the chunks up to the first that could not be taken over.
    pub fn output_opened(self, existing: Vec<u8>) -> (r: (OutputRegion<P>, Vec<u8>))
        requires
            self.job().options().encodable(),
            chunks_are_sound(self.image()),
        ensures
            r.0.job() == self.job(),
            recompressed(
                self.image(),
                self.job().options(),
                existing@.len() <= HEADER_SIZE,
                r.1@,
                r.0.outcome(),
            ),
            r.0.outcome() is Ok ==> same_chunks(self.image(), r.1@),
    {
        proof {
            use_type_invariant(&self);
        }
        let InputRegion { job, region } = self;
        let (outcome, image) = recompress_into(region, existing, &job.opts);
        (OutputRegion { job, outcome }, image)
    }
}

/// A recompression whose output stands in memory.
#[derive(Debug)]
pub struct OutputRegion<P> {
    job: Recompression<P>,
    outcome: Result<(), FileRecompressErrorKind>,
}

impl<P> OutputRegion<P> {
    /// The recompression.
    pub closed spec fn job(self) -> Recompression<P> {
        self.job
    }

    /// How it went.
    pub closed spec fn outcome(self) -> Result<(), FileRecompressErrorKind> {
        self.outcome
    }

    /// The output file has been written, or not.
    pub fn output_written(self, written: Result<(), std::io::Error>) -> (r: Result<
        RecompressedFile<P>,
        FileRecompressError<P>,
    >)
        ensures
            r is Ok <==> self.outcome() is Ok && written is Ok,
            r matches Ok(done) ==> done.job() == self.job(),
            r matches Err(e) ==> e == failure(
                self.job(),
                match self.outcome() {
                    Err(kind) => kind,
                    Ok(()) => FileRecompressErrorKind::WriteOutput {
                        cause: RegionError::Io(written->Err_0),
                    },
                },
            ),
    {
        match self.outcome {
            Err(kind) => Err(self.job.fail(kind)),
            Ok(()) => match written {
                Ok(()) => Ok(RecompressedFile { job: self.job }),
                Err(cause) => Err(
                    self.job.fail(
                        FileRecompressErrorKind::WriteOutput { cause: RegionError::Io(cause) },
                    ),
                ),
            },
        }
    }
}

/// A recompression that is done.
#[derive(Debug)]
pub struct RecompressedFile<P> {
    job: Recompression<P>,
}

impl<P> RecompressedFile<P> {
    /// The recompression.
    pub closed spec fn job(self) -> Recompression<P> {
        self.job
    }
}

/// A recompression begins if and only if its options are valid, with the files and the options
/// that were handed over; and otherwise the error names both files.
pub proof fn recompression_begins_with_valid_options<P>(
    input_file: P,
    output_file: P,
    opts: RecompressFileOptions,
    valid: Result<(), OptionsValidateError>,
    r: Result<Recompression<P>, FileRecompressError<P>>,
)
    requires
        call_ensures(RecompressFileOptions::validate, (&opts,), valid),
        call_ensures(recompress_region_file::<P>, (input_file, output_file, &opts), r),
    ensures
        r is Ok <==> valid is Ok,
        r matches Ok(job) ==> job.input() == input_file && job.output() == output_file
            && job.options() == opts,
        r matches Err(e) ==> e.input_file == input_file && e.output_file == output_file && e.kind
            is InvalidOptions,
{
}

/// Two files that are known to be one are refused, and no others.
pub proof fn same_files_are_refused<P>(
    job: Recompression<P>,
    same_file: Option<bool>,
    r: Result<DistinctFiles<P>, FileRecompressError<P>>,
)
    requires
        call_ensures(Recompression::<P>::files_compared, (job, same_file), r),
    ensures
        same_file == Some(true) ==> r is Err && r->Err_0.kind is SameFile,
        same_file != Some(true) ==> r is Ok && r->Ok_0.job() == job,
        r matches Err(e) ==> e.input_file == job.input() && e.output_file == job.output(),
{
}

/// What is recompressed is what was read, under the options with which the recompression began;
/// and it is a success only where every chunk has the content that it had and the output was
/// written.
pub proof fn recompression_takes_what_was_read<P>(
    files: DistinctFiles<P>,
    image: Vec<u8>,
    input: InputRegion<P>,
    existing: Vec<u8>,
    output: OutputRegion<P>,
    after: Vec<u8>,
    written: Result<(), std::io::Error>,
    r: Result<RecompressedFile<P>, FileRecompressError<P>>,
    x: int,
    z: int,
)
    requires
        0 <= x < 32,
        0 <= z < 32,
        call_ensures(
            DistinctFiles::<P>::input_read,
            (files, image),
            Ok::<InputRegion<P>, FileRecompressError<P>>(input),
        ),
        call_ensures(InputRegion::<P>::output_opened, (input, existing), (output, after)),
        call_ensures(OutputRegion::<P>::output_written, (output, written), r),
    ensures
        r is Ok ==> chunk_content(after@, x, z) == chunk_content(image@, x, z),
        r is Ok ==> written is Ok && recompressed(
            image@,
            files.job().options(),
            existing@.len() <= HEADER_SIZE,
            after@,
            Ok(()),
        ),
        r is Err ==> written is Err || recompressed(
            image@,
            files.job().options(),
            existing@.len() <= HEADER_SIZE,
            after@,
            Err(r->Err_0.kind),
        ),
        r matches Ok(done) ==> done.job() == files.job(),
        r matches Err(e) ==> e.input_file == files.job().input() && e.output_file
            == files.job().output(),
{
    if let Ok(done) = output.outcome() {
        assert(done == ());
    }
}

} // verus!
