//! The files that a recompression can be handed: a path, or a file that is open already.
use vstd::prelude::*;
use crate::errors::{FileRecompressErrorKind, OpenOutputError};
use crate::options::RecompressFileOptions;

verus! {

/// How a file has to be opened.
#[derive(Copy, Clone, Debug, PartialEq, Eq, Structural)]
pub struct OpenFlags {
    pub read: bool,
    pub write: bool,
    /// Create the file where there is none.
    pub create: bool,
    /// Empty the file where there is one.
    pub truncate: bool,
    /// Refuse the file where there is one.
    pub create_new: bool,
}

/// How to come by an open file.
pub enum OpenRequest<H> {
    /// This is the open file.
    Opened(H),
    /// Open the path with these flags.
    Open(OpenFlags),
}

/// The flags under which an input file is opened.
pub open spec fn input_flags() -> OpenFlags {
    OpenFlags { read: true, write: false, create: false, truncate: false, create_new: false }
}

/// The flags under which an output file is opened: an existing file is emptied
/// if it may be overridden, and refused otherwise. What was written is read again,
/// so the file has to be readable.
pub open spec fn output_flags(opts: RecompressFileOptions) -> OpenFlags {
    OpenFlags {
        read: true,
        write: true,
        create: true,
        truncate: opts.override_existing,
        create_new: !opts.override_existing,
    }
}

/// A file could not be opened.
#[derive(Debug)]
pub struct FileSpecOpenError(pub FileRecompressErrorKind);

impl FileSpecOpenError {
    /// The system refused to open an input file.
    pub fn input(cause: std::io::Error) -> (r: Self)
        ensures
            r.0 == (FileRecompressErrorKind::OpenInputFile { cause }),
    {
        FileSpecOpenError(FileRecompressErrorKind::OpenInputFile { cause })
    }

    /// The system refused to open an output file.
    pub fn output(opts: &RecompressFileOptions, cause: std::io::Error) -> (r: Self)
        ensures
            r.0 == FileRecompressErrorKind::OpenOutput(
                OpenOutputError { create_new: output_flags(*opts).create_new, cause },
            ),
    {
        let create_new = !opts.override_existing;
        FileSpecOpenError(
            FileRecompressErrorKind::OpenOutput(OpenOutputError { create_new, cause }),
        )
    }
}

/// How a file is opened for reading and for writing.
///
/// `H` is what stands for an open file.
pub trait FileSpecInternal<H>: Sized {
    /// How the file is opened for reading.
    spec fn input_request(self) -> OpenRequest<H>;

    /// How the file is opened for writing.
    spec fn output_request(self, opts: RecompressFileOptions) -> OpenRequest<H>;

    /// Ask for the file as an input.
    fn open_input_file(self, opts: &RecompressFileOptions) -> (r: OpenRequest<H>)
        ensures
            r == self.input_request(),
    ;

    /// Ask for the file as an output.
    fn open_output_file(self, opts: &RecompressFileOptions) -> (r: OpenRequest<H>)
        ensures
            r == self.output_request(*opts),
    ;
}

/// A file that can be recompressed, or recompressed into.
pub trait FileSpec<H>: FileSpecInternal<H> {
    /// What names a file.
    type Path;

    /// The path that this file refers to.
    spec fn spec_path(&self) -> Self::Path;

    /// The path that this file refers to.
    fn path(&self) -> (r: &Self::Path)
        ensures
            *r == self.spec_path(),
    ;
}

/// A file that has already been opened.
///
/// Note that the "output" file must be readable as well as writable.
#[derive(Debug)]
pub struct OpenedFile<H, P> {
    /// A handle to the opened file.
    pub file: H,
    /// The path of the opened file.
    pub path: P,
}

impl<H, P> FileSpecInternal<H> for OpenedFile<H, P> {
    open spec fn input_request(self) -> OpenRequest<H> {
        OpenRequest::Opened(self.file)
    }

    open spec fn output_request(self, opts: RecompressFileOptions) -> OpenRequest<H> {
        OpenRequest::Opened(self.file)
    }

    fn open_input_file(self, _opts: &RecompressFileOptions) -> (r: OpenRequest<H>) {
        OpenRequest::Opened(self.file)
    }

    fn open_output_file(self, _opts: &RecompressFileOptions) -> (r: OpenRequest<H>) {
        OpenRequest::Opened(self.file)
    }
}

impl<H, P> FileSpec<H> for OpenedFile<H, P> {
    type Path = P;

    open spec fn spec_path(&self) -> P {
        self.path
    }

    fn path(&self) -> (r: &P) {
        &self.path
    }
}

/// A file that is known by its path, and still has to be opened.
#[derive(Debug)]
pub struct PathFile<P> {
    /// The path of the file.
    pub path: P,
}

impl<H, P> FileSpecInternal<H> for PathFile<P> {
    open spec fn input_request(self) -> OpenRequest<H> {
        OpenRequest::Open(input_flags())
    }

    open spec fn output_request(self, opts: RecompressFileOptions) -> OpenRequest<H> {
        OpenRequest::Open(output_flags(opts))
    }

    fn open_input_file(self, _opts: &RecompressFileOptions) -> (r: OpenRequest<H>) {
        OpenRequest::Open(
            OpenFlags {
                read: true,
                write: false,
                create: false,
                truncate: false,
                create_new: false,
            },
        )
    }

    fn open_output_file(self, opts: &RecompressFileOptions) -> (r: OpenRequest<H>) {
        let create_new = !opts.override_existing;
        OpenRequest::Open(
            OpenFlags { read: true, write: true, create: true, truncate: !create_new, create_new },
        )
    }
}

impl<H, P> FileSpec<H> for PathFile<P> {
    type Path = P;

    open spec fn spec_path(&self) -> P {
        self.path
    }

    fn path(&self) -> (r: &P) {
        &self.path
    }
}

/// An output file that exists already is never changed unless the options allow it:
/// a path is opened so that the system either refuses such a file or empties it,
/// and it empties it if and only if existing files may be overridden.
pub proof fn existing_output_is_refused_or_overridden<H, P>(
    file: PathFile<P>,
    opts: RecompressFileOptions,
)
    ensures
        FileSpecInternal::<H>::output_request(file, opts) matches OpenRequest::Open(flags) && {
            &&& flags.create_new <==> !opts.override_existing
            &&& flags.truncate <==> opts.override_existing
            &&& flags.read && flags.write && flags.create
        },
{
}

/// An input file that is known by its path is only read: it is neither created nor changed.
pub proof fn input_is_left_alone<H, P>(
    file: PathFile<P>,
    opts: RecompressFileOptions,
    r: OpenRequest<H>,
)
    requires
        call_ensures(
            <PathFile<P> as FileSpecInternal<H>>::open_input_file,
            (file, &opts),
            r,
        ),
    ensures
        r matches OpenRequest::Open(flags) && {
            &&& flags.read
            &&& !flags.write && !flags.create && !flags.truncate && !flags.create_new
        },
{
}

/// An output file that is known by its path is emptied if it may be overridden, and otherwise it
/// has to be a new one.
pub proof fn output_is_new_or_emptied<H, P>(
    file: PathFile<P>,
    opts: RecompressFileOptions,
    r: OpenRequest<H>,
)
    requires
        call_ensures(
            <PathFile<P> as FileSpecInternal<H>>::open_output_file,
            (file, &opts),
            r,
        ),
    ensures
        r matches OpenRequest::Open(flags) && {
            &&& flags.read && flags.write && flags.create
            &&& flags.truncate == opts.override_existing
            &&& flags.create_new == !opts.override_existing
        },
{
}

/// A file that is open already is used as it is, for reading and for writing.
pub proof fn open_files_are_used_as_they_are<H, P>(
    file: OpenedFile<H, P>,
    opts: RecompressFileOptions,
    input: OpenRequest<H>,
    output: OpenRequest<H>,
)
    requires
        call_ensures(
            <OpenedFile<H, P> as FileSpecInternal<H>>::open_input_file,
            (file, &opts),
            input,
        ),
        call_ensures(
            <OpenedFile<H, P> as FileSpecInternal<H>>::open_output_file,
            (file, &opts),
            output,
        ),
    ensures
        input == OpenRequest::Opened(file.file),
        output == OpenRequest::Opened(file.file),
{
}

/// An output file that was refused is said to have had to be new if and only if it must not be
/// overridden.
pub proof fn refused_outputs_had_to_be_new(
    opts: RecompressFileOptions,
    cause: std::io::Error,
    r: FileSpecOpenError,
)
    requires
        call_ensures(FileSpecOpenError::output, (&opts, cause), r),
    ensures
        r.0 matches FileRecompressErrorKind::OpenOutput(error) && error.cause == cause && (
        error.create_new <==> !opts.override_existing),
{
}

} // verus!
