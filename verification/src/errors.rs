//! Defines the errors that can occur.
use vstd::prelude::*;
use crate::chunk::RelativeChunkPos;
use crate::options::{CompressionAlgorithm, OptionsValidateError};
use crate::region::RegionError;
use crate::text::{contained_in_longer, contains_text, end_is_contained, part_is_contained};

verus! {

/// Failure to recompress a region file.
#[derive(Debug)]
pub struct FileRecompressError<P> {
    /// The file that was read.
    pub input_file: P,
    /// The file that was written.
    pub output_file: P,
    /// What went wrong.
    pub kind: FileRecompressErrorKind,
}

/// What went wrong while a region file was recompressed.
#[derive(Debug)]
#[non_exhaustive]
#[allow(inconsistent_fields)]
pub enum FileRecompressErrorKind {
    InvalidOptions(OptionsValidateError),
    OpenInputFile { cause: std::io::Error },
    ReadInput { cause: RegionError },
    ReadChunk { chunk: RelativeChunkPos, cause: RegionError },
    CompressChunk {
        chunk: RelativeChunkPos,
        algorithm: CompressionAlgorithm,
        cause: std::io::Error,
    },
    WriteChunk { chunk: RelativeChunkPos, cause: RegionError },
    WriteOutput { cause: RegionError },
    OpenOutput(OpenOutputError),
    SameFile,
}

/// The output file could not be opened.
#[derive(Debug)]
pub struct OpenOutputError {
    /// The file had to be a new one.
    pub create_new: bool,
    /// What the system said.
    pub cause: std::io::Error,
}

impl<P> FileRecompressError<P> {
    /// The message, in which the two files are shown as given. It names both.
    pub open spec fn message(input_file: Seq<char>, output_file: Seq<char>) -> Seq<char> {
        "Failed to recompress region file "@ + input_file + " into "@ + output_file
    }

    /// The message of every error names the input and the output file.
    pub proof fn message_names_both_files(input_file: Seq<char>, output_file: Seq<char>)
        ensures
            contains_text(Self::message(input_file, output_file), input_file),
            contains_text(Self::message(input_file, output_file), output_file),
    {
        let message = Self::message(input_file, output_file);
        let start = "Failed to recompress region file "@;
        part_is_contained(start, input_file, " into "@ + output_file);
        assert(message =~= start + input_file + (" into "@ + output_file));
        part_is_contained(start + input_file + " into "@, output_file, Seq::empty());
        assert(message =~= start + input_file + " into "@ + output_file + Seq::<char>::empty());
    }

    /// The message, in which the two files are shown as given.
    pub fn to_text(&self, input_file: &str, output_file: &str) -> (r: String)
        ensures
            r@ == Self::message(input_file@, output_file@),
    {
        let mut text = "Failed to recompress region file ".to_owned();
        text.append(input_file);
        text.append(" into ");
        text.append(output_file);
        text
    }
}

impl FileRecompressErrorKind {
    /// The message that says what went wrong.
    pub open spec fn message(self) -> Seq<char> {
        match self {
            FileRecompressErrorKind::InvalidOptions(_) => "Specified invalid options"@,
            FileRecompressErrorKind::OpenInputFile { .. } => "Failed to open input file"@,
            FileRecompressErrorKind::ReadInput { .. } => "Failed to read input region"@,
            FileRecompressErrorKind::ReadChunk { chunk, .. } => "Failed to read chunk "@
                + chunk.coordinate_text(),
            FileRecompressErrorKind::CompressChunk { chunk, algorithm, .. } => {
                "Failed to compress chunk "@ + chunk.coordinate_text() + " with "@
                    + algorithm.spec_name()
            },
            FileRecompressErrorKind::WriteChunk { chunk, .. } => "Failed to write chunk "@
                + chunk.coordinate_text(),
            FileRecompressErrorKind::WriteOutput { .. } => "Failed to write output region"@,
            FileRecompressErrorKind::OpenOutput(error) => error.message(),
            FileRecompressErrorKind::SameFile => {
                "Input and output files are actually the same file"@
            },
        }
    }

    /// The message that says what went wrong.
    pub fn to_text(&self) -> (r: String)
        ensures
            r@ == self.message(),
    {
        match self {
            FileRecompressErrorKind::InvalidOptions(error) => error.to_text(),
            FileRecompressErrorKind::OpenInputFile { .. } => "Failed to open input file".to_owned(),
            FileRecompressErrorKind::ReadInput { .. } => "Failed to read input region".to_owned(),
            FileRecompressErrorKind::ReadChunk { chunk, .. } => {
                let mut text = "Failed to read chunk ".to_owned();
                text.append(chunk.to_text().as_str());
                text
            },
            FileRecompressErrorKind::CompressChunk { chunk, algorithm, .. } => {
                let mut text = "Failed to compress chunk ".to_owned();
                text.append(chunk.to_text().as_str());
                text.append(" with ");
                text.append(algorithm.name());
                text
            },
            FileRecompressErrorKind::WriteChunk { chunk, .. } => {
                let mut text = "Failed to write chunk ".to_owned();
                text.append(chunk.to_text().as_str());
                text
            },
            FileRecompressErrorKind::WriteOutput { .. } => {
                "Failed to write output region".to_owned()
            },
            FileRecompressErrorKind::OpenOutput(error) => error.to_text(),
            FileRecompressErrorKind::SameFile => {
                "Input and output files are actually the same file".to_owned()
            },
        }
    }
}

impl OpenOutputError {
    /// The message, which hints at an existing file where a new one was asked for.
    pub open spec fn message(self) -> Seq<char> {
        if self.create_new {
            "Failed to create new output file (is there already an existing file?)"@
        } else {
            "Failed to open output file"@
        }
    }

    /// The message, which hints at an existing file where a new one was asked for.
    pub fn to_text(&self) -> (r: String)
        ensures
            r@ == self.message(),
    {
        if self.create_new {
            "Failed to create new output file (is there already an existing file?)".to_owned()
        } else {
            "Failed to open output file".to_owned()
        }
    }
}

/// A failure with a chunk names the chunk, and a failure to compress it the algorithm as well.
pub proof fn chunk_failures_name_the_chunk(kind: FileRecompressErrorKind, text: String)
    requires
        call_ensures(FileRecompressErrorKind::to_text, (&kind,), text),
    ensures
        match kind {
            FileRecompressErrorKind::ReadChunk { chunk, .. } => contains_text(
                text@,
                chunk.coordinate_text(),
            ),
            FileRecompressErrorKind::WriteChunk { chunk, .. } => contains_text(
                text@,
                chunk.coordinate_text(),
            ),
            FileRecompressErrorKind::CompressChunk { chunk, algorithm, .. } => contains_text(
                text@,
                chunk.coordinate_text(),
            ) && contains_text(text@, algorithm.spec_name()),
            _ => true,
        },
{
    match kind {
        FileRecompressErrorKind::ReadChunk { chunk, .. } => {
            end_is_contained("Failed to read chunk "@, chunk.coordinate_text());
        },
        FileRecompressErrorKind::WriteChunk { chunk, .. } => {
            end_is_contained("Failed to write chunk "@, chunk.coordinate_text());
        },
        FileRecompressErrorKind::CompressChunk { chunk, algorithm, .. } => {
            let start = "Failed to compress chunk "@ + chunk.coordinate_text() + " with "@;
            part_is_contained("Failed to compress chunk "@, chunk.coordinate_text(), " with "@);
            contained_in_longer(start, chunk.coordinate_text(), algorithm.spec_name());
            end_is_contained(start, algorithm.spec_name());
        },
        _ => {},
    }
}

/// An output file that had to be new is refused with another message than one that did not.
pub proof fn existing_outputs_are_hinted_at(
    error: OpenOutputError,
    other: OpenOutputError,
    text: String,
    other_text: String,
)
    requires
        call_ensures(OpenOutputError::to_text, (&error,), text),
        call_ensures(OpenOutputError::to_text, (&other,), other_text),
    ensures
        text@ == other_text@ <==> error.create_new == other.create_new,
        error.create_new ==> contains_text(text@, "is there already an existing file?"@),
{
    reveal_strlit("Failed to create new output file (is there already an existing file?)");
    reveal_strlit("Failed to open output file");
    reveal_strlit("is there already an existing file?");
    if error.create_new != other.create_new {
        assert(text@.len() != other_text@.len());
    }
    if error.create_new {
        let part = "is there already an existing file?"@;
        assert(text@.subrange(34int, 34int + part.len()) =~= part);
    }
}

} // verus!
