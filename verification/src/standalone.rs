//! What the standalone command line tool decides.
//!
//! It does the work on regions itself: options are not validated, and an existing output file is
//! always emptied.
use vstd::prelude::*;
use std::io::Cursor;
use crate::cli::{entry_files, level_of, EntryFile, EntryFiles, OutputSpec};
use crate::errors::FileRecompressErrorKind;
use crate::file_spec::OpenFlags;
use crate::options::{
    decoded, CompressionAlgorithm, CompressionLevel, Payload, RecompressFileOptions,
};
use crate::region::{
    chunk_content, chunks_are_sound, open_region, recompress_into, recompressed, region_image, same_chunks,
    RegionError, HEADER_SIZE, SECTOR_SIZE,
};
use crate::text::{
    contained_in_longer, contains_text, end_is_contained, joined, part_is_contained,
};

verus! {

/// The arguments of the standalone tool.
#[derive(Debug)]
pub struct StandaloneCli<P> {
    /// Recursively process directories.
    pub recurse: bool,
    pub compression: CompressionAlgorithm,
    pub compression_level: Option<u32>,
    /// The files or directories to recompress.
    pub targets: Vec<P>,
    pub output: OutputSpec<P>,
    /// Ignore and override existing backups.
    pub override_backups: bool,
    /// Suppress the normal printing of progress.
    pub quiet: bool,
}

/// What comes next for an entry.
#[derive(Copy, Clone, Debug, PartialEq, Eq, Structural)]
pub enum StandalonePhase {
    /// Is there a backup already?
    CheckBackup,
    /// The target has to be renamed to its backup. There may be a backup that is overridden,
    /// of which the user is warned.
    CreateBackup { overriding: bool },
    /// The two files have to be compared.
    CompareFiles(EntryFiles),
    /// The input has to be opened as a region.
    OpenInput(EntryFiles),
    /// The directory of the destination file has to be created, if it has one.
    CreateParent(EntryFiles),
    /// The output has to be opened.
    OpenOutput(EntryFiles),
    /// The chunks have to be recompressed.
    Recompress(EntryFiles),
    /// The entry has to be reported as finished.
    Report,
    /// The entry is done.
    Finished,
}

/// What became of what had to be done next for an entry.
#[derive(Debug)]
pub enum StandaloneEvent {
    /// It is done.
    Done,
    /// Whether there is a backup already.
    BackupExists(bool),
    /// Whether the two files are the same, if that could be found out.
    Compared(Option<bool>),
    /// A file or directory made trouble.
    IoFailed(std::io::Error),
    /// The file is no region.
    RegionFailed(RegionError),
    /// A chunk made trouble.
    ChunkFailed(FileRecompressErrorKind),
}

/// Why an entry was not processed.
#[derive(Debug)]
pub enum StandaloneError {
    /// There is a backup already.
    BackupExists,
    CreateBackup(std::io::Error),
    /// Only a relative path has a place in the destination.
    NotRelative,
    /// Input and output are one file.
    SameFile,
    OpenInput(std::io::Error),
    ReadInput(RegionError),
    CreateParent(std::io::Error),
    OpenOutput(std::io::Error),
    CreateOutput(RegionError),
    Recompress(FileRecompressErrorKind),
}

/// The message about a chunk that could not be taken over.
pub open spec fn chunk_message(
    kind: FileRecompressErrorKind,
    input_file: Seq<char>,
    output_file: Seq<char>,
) -> Seq<char> {
    match kind {
        FileRecompressErrorKind::ReadChunk { chunk, .. } => "Failed to read chunk "@
            + chunk.coordinate_text() + " from "@ + input_file,
        FileRecompressErrorKind::CompressChunk { chunk, .. } => "Compression failure for chunk "@
            + chunk.coordinate_text(),
        FileRecompressErrorKind::WriteChunk { chunk, .. } => "Failed to write chunk "@
            + chunk.coordinate_text() + " to "@ + output_file,
        _ => kind.message(),
    }
}

impl StandaloneError {
    /// The message, in which the files are shown as given. `parent` is the directory that was
    /// to be created, and `target` the file that was found.
    pub open spec fn message(
        self,
        target: Seq<char>,
        input_file: Seq<char>,
        output_file: Seq<char>,
        parent: Seq<char>,
    ) -> Seq<char> {
        match self {
            StandaloneError::BackupExists => {
                "Cannot process "@ + target + " inplace as a backup file already exists"@
            },
            StandaloneError::CreateBackup(_) => "Failed to create backup"@,
            StandaloneError::NotRelative => "A relative path is required (got "@ + target + ")"@,
            StandaloneError::SameFile => {
                "Internal Error: Cannot process file "@ + input_file + " as output "@ + output_file
                    + " is actually the same file"@
            },
            StandaloneError::OpenInput(_) | StandaloneError::ReadInput(_) => {
                "Failed to open region file "@ + input_file
            },
            StandaloneError::CreateParent(_) => {
                "Failed to create parent "@ + parent + " for "@ + output_file
            },
            StandaloneError::OpenOutput(_) | StandaloneError::CreateOutput(_) => {
                "Failed to create region file "@ + output_file
            },
            StandaloneError::Recompress(kind) => chunk_message(kind, input_file, output_file),
        }
    }

    /// The message, in which the files are shown as given. `parent` is the directory that was
    /// to be created, and `target` the file that was found.
    pub fn to_text(
        &self,
        target: &str,
        input_file: &str,
        output_file: &str,
        parent: &str,
    ) -> (r: String)
        ensures
            r@ == self.message(target@, input_file@, output_file@, parent@),
    {
        match self {
            StandaloneError::BackupExists => {
                joined("Cannot process ", target, " inplace as a backup file already exists")
            },
            StandaloneError::CreateBackup(_) => "Failed to create backup".to_owned(),
            StandaloneError::NotRelative => joined("A relative path is required (got ", target, ")"),
            StandaloneError::SameFile => {
                let mut text = joined(
                    "Internal Error: Cannot process file ",
                    input_file,
                    " as output ",
                );
                text.append(output_file);
                text.append(" is actually the same file");
                text
            },
            StandaloneError::OpenInput(_) | StandaloneError::ReadInput(_) => {
                let mut text = "Failed to open region file ".to_owned();
                text.append(input_file);
                text
            },
            StandaloneError::CreateParent(_) => {
                let mut text = joined("Failed to create parent ", parent, " for ");
                text.append(output_file);
                text
            },
            StandaloneError::OpenOutput(_) | StandaloneError::CreateOutput(_) => {
                let mut text = "Failed to create region file ".to_owned();
                text.append(output_file);
                text
            },
            StandaloneError::Recompress(kind) => match kind {
                FileRecompressErrorKind::ReadChunk { chunk, .. } => {
                    let mut text = joined(
                        "Failed to read chunk ",
                        chunk.to_text().as_str(),
                        " from ",
                    );
                    text.append(input_file);
                    text
                },
                FileRecompressErrorKind::CompressChunk { chunk, .. } => {
                    let mut text = "Compression failure for chunk ".to_owned();
                    text.append(chunk.to_text().as_str());
                    text
                },
                FileRecompressErrorKind::WriteChunk { chunk, .. } => {
                    let mut text = joined(
                        "Failed to write chunk ",
                        chunk.to_text().as_str(),
                        " to ",
                    );
                    text.append(output_file);
                    text
                },
                other => other.to_text(),
            },
        }
    }
}

impl StandalonePhase {
    /// This can become of what has to be done next.
    pub open spec fn awaits(self, event: StandaloneEvent) -> bool {
        match event {
            StandaloneEvent::Done => self !is CheckBackup && self !is CompareFiles
                && self !is Finished,
            StandaloneEvent::BackupExists(_) => self is CheckBackup,
            StandaloneEvent::Compared(_) => self is CompareFiles,
            StandaloneEvent::IoFailed(_) => self is CreateBackup || self is OpenInput
                || self is CreateParent || self is OpenOutput,
            StandaloneEvent::RegionFailed(_) => self is OpenInput || self is OpenOutput,
            StandaloneEvent::ChunkFailed(_) => self is Recompress,
        }
    }
}

impl<P> StandaloneCli<P> {
    /// The first phase of an entry with a relative path or another, or why there is none.
    pub open spec fn entry_start(self, relative: bool) -> Result<StandalonePhase, StandaloneError> {
        if self.output.inplace {
            Ok(StandalonePhase::CheckBackup)
        } else if !relative {
            Err(StandaloneError::NotRelative)
        } else {
            Ok(StandalonePhase::CompareFiles(entry_files(false)))
        }
    }

    /// The phase that follows another once that is done.
    pub open spec fn follower(self, phase: StandalonePhase) -> StandalonePhase {
        match phase {
            StandalonePhase::CreateBackup { .. } => StandalonePhase::CompareFiles(
                entry_files(true),
            ),
            StandalonePhase::CompareFiles(files) => StandalonePhase::OpenInput(files),
            StandalonePhase::OpenInput(files) => if self.output.inplace {
                StandalonePhase::OpenOutput(files)
            } else {
                StandalonePhase::CreateParent(files)
            },
            StandalonePhase::CreateParent(files) => StandalonePhase::OpenOutput(files),
            StandalonePhase::OpenOutput(files) => StandalonePhase::Recompress(files),
            StandalonePhase::Recompress(_) if !self.quiet => StandalonePhase::Report,
            _ => StandalonePhase::Finished,
        }
    }

    /// The phase after another, or why there is none.
    pub open spec fn entry_after(self, phase: StandalonePhase, event: StandaloneEvent) -> Result<
        StandalonePhase,
        StandaloneError,
    > {
        match event {
            StandaloneEvent::Done => Ok(self.follower(phase)),
            StandaloneEvent::BackupExists(exists) => if exists && !self.override_backups {
                Err(StandaloneError::BackupExists)
            } else {
                Ok(StandalonePhase::CreateBackup { overriding: exists })
            },
            StandaloneEvent::Compared(same) => if same == Some(true) {
                Err(StandaloneError::SameFile)
            } else {
                Ok(self.follower(phase))
            },
            StandaloneEvent::IoFailed(cause) => Err(
                match phase {
                    StandalonePhase::CreateBackup { .. } => StandaloneError::CreateBackup(cause),
                    StandalonePhase::OpenInput(_) => StandaloneError::OpenInput(cause),
                    StandalonePhase::CreateParent(_) => StandaloneError::CreateParent(cause),
                    _ => StandaloneError::OpenOutput(cause),
                },
            ),
            StandaloneEvent::RegionFailed(cause) => Err(
                match phase {
                    StandalonePhase::OpenInput(_) => StandaloneError::ReadInput(cause),
                    _ => StandaloneError::CreateOutput(cause),
                },
            ),
            StandaloneEvent::ChunkFailed(kind) => Err(StandaloneError::Recompress(kind)),
        }
    }

    /// Begin to process an entry.
    pub fn process_entry(&self, relative: bool) -> (r: Result<StandalonePhase, StandaloneError>)
        requires
            self.output.inplace || self.output.dest is Some,
        ensures
            r == self.entry_start(relative),
    {
        if self.output.inplace {
            return Ok(StandalonePhase::CheckBackup);
        }
        if !relative {
            return Err(StandaloneError::NotRelative);
        }
        let files = EntryFiles { input: EntryFile::Target, output: EntryFile::Destination };
        Ok(StandalonePhase::CompareFiles(files))
    }

    fn follow(&self, phase: StandalonePhase) -> (r: StandalonePhase)
        ensures
            r == self.follower(phase),
    {
        match phase {
            StandalonePhase::CreateBackup { .. } => {
                let files = EntryFiles { input: EntryFile::Backup, output: EntryFile::Target };
                StandalonePhase::CompareFiles(files)
            },
            StandalonePhase::CompareFiles(files) => StandalonePhase::OpenInput(files),
            StandalonePhase::OpenInput(files) => {
                if self.output.inplace {
                    StandalonePhase::OpenOutput(files)
                } else {
                    StandalonePhase::CreateParent(files)
                }
            },
            StandalonePhase::CreateParent(files) => StandalonePhase::OpenOutput(files),
            StandalonePhase::OpenOutput(files) => StandalonePhase::Recompress(files),
            StandalonePhase::Recompress(_) => {
                if self.quiet {
                    StandalonePhase::Finished
                } else {
                    StandalonePhase::Report
                }
            },
            _ => StandalonePhase::Finished,
        }
    }

    /// Go on from what became of what had to be done for an entry.
    pub fn continue_entry(&self, phase: StandalonePhase, event: StandaloneEvent) -> (r: Result<
        StandalonePhase,
        StandaloneError,
    >)
        requires
            phase.awaits(event),
        ensures
            r == self.entry_after(phase, event),
    {
        match event {
            StandaloneEvent::Done => Ok(self.follow(phase)),
            StandaloneEvent::BackupExists(exists) => {
                if exists && !self.override_backups {
                    Err(StandaloneError::BackupExists)
                } else {
                    // renaming will override the old backup
                    Ok(StandalonePhase::CreateBackup { overriding: exists })
                }
            },
            StandaloneEvent::Compared(same) => {
                if let Some(true) = same {
                    return Err(StandaloneError::SameFile);
                }
                Ok(self.follow(phase))
            },
            StandaloneEvent::IoFailed(cause) => Err(
                match phase {
                    StandalonePhase::CreateBackup { .. } => StandaloneError::CreateBackup(cause),
                    StandalonePhase::OpenInput(_) => StandaloneError::OpenInput(cause),
                    StandalonePhase::CreateParent(_) => StandaloneError::CreateParent(cause),
                    _ => StandaloneError::OpenOutput(cause),
                },
            ),
            StandaloneEvent::RegionFailed(cause) => Err(
                match phase {
                    StandalonePhase::OpenInput(_) => StandaloneError::ReadInput(cause),
                    _ => StandaloneError::CreateOutput(cause),
                },
            ),
            StandaloneEvent::ChunkFailed(kind) => Err(StandaloneError::Recompress(kind)),
        }
    }

    /// How the output file is opened.
    pub fn output_flags(&self) -> (r: OpenFlags)
        ensures
            r == (OpenFlags {
                read: true,
                write: true,
                create: true,
                truncate: true,
                create_new: false,
            }),
    {
        OpenFlags { read: true, write: true, create: true, truncate: true, create_new: false }
    }

    /// The options that the arguments stand for.
    pub open spec fn options(self) -> RecompressFileOptions {
        RecompressFileOptions {
            compression_algorithm: self.compression,
            compression_level: level_of(self.compression_level),
            override_existing: false,
        }
    }

    /// The options that the arguments stand for.
    pub fn compression_options(&self) -> (r: RecompressFileOptions)
        ensures
            r == self.options(),
    {
        let mut opts = RecompressFileOptions::new(self.compression);
        opts.compression_level = match self.compression_level {
            Some(level) => CompressionLevel::Standard(level),
            None => CompressionLevel::default(),
        };
        opts
    }

    /// Compress the data of one chunk.
    pub fn compress<'a>(&self, input: &'a [u8]) -> (r: Result<Payload<'a>, std::io::Error>)
        requires
            self.options().encodable(),
        ensures
            r is Ok,
            r matches Ok(payload) ==> self.options().is_payload(input@, payload@),
            r matches Ok(payload) ==> (payload is Borrowed <==> self.compression is Uncompressed),
            r matches Ok(payload) ==> decoded(self.compression.scheme().code(), payload@) == Some(
                input@,
            ),
    {
        self.compression_options().compress(input)
    }

    /// Recompress every chunk of a region into a file that holds `existing`, nothing as a rule.
    /// The second part of the result is what the file has to hold afterwards.
    pub fn recompress_chunks(&self, input: StandaloneInput, existing: Vec<u8>) -> (r: (
        Result<(), FileRecompressErrorKind>,
        Vec<u8>,
    ))
        requires
            self.options().encodable(),
            chunks_are_sound(input.image()),
        ensures
            recompressed(
                input.image(),
                self.options(),
                existing@.len() <= HEADER_SIZE,
                r.1@,
                r.0,
            ),
            r.0 is Ok ==> same_chunks(input.image(), r.1@),
    {
        proof {
            use_type_invariant(&input);
        }
        recompress_into(input.region, existing, &self.compression_options())
    }
}

/// An input file that is a region.
pub struct StandaloneInput {
    region: fastanvil::Region<Cursor<Vec<u8>>>,
}

impl StandaloneInput {
    /// The bytes of the region.
    pub closed spec fn image(self) -> Seq<u8> {
        region_image(self.region)
    }

    #[verifier::type_invariant]
    spec fn well_formed(self) -> bool {
        region_image(self.region).len() >= SECTOR_SIZE
    }

    /// Open the bytes of a file as a region, which starts with a complete table of locations.
    pub fn open(image: Vec<u8>) -> (r: Result<Self, RegionError>)
        ensures
            r is Ok <==> image@.len() >= SECTOR_SIZE,
            r matches Ok(input) ==> input.image() == image@,
            r matches Err(cause) ==> cause is Io,
    {
        match open_region(image) {
            Ok(region) => Ok(StandaloneInput { region }),
            Err(cause) => Err(cause),
        }
    }
}

/// The output file is opened, and so emptied, only after the two files have been compared and
/// the input is known to be a region.
pub proof fn output_is_opened_last<P>(
    cli: StandaloneCli<P>,
    phase: StandalonePhase,
    event: StandaloneEvent,
)
    requires
        phase.awaits(event),
    ensures
        cli.entry_after(phase, event) matches Ok(StandalonePhase::OpenOutput(_)) ==> event is Done
            && (phase is OpenInput || phase is CreateParent),
        cli.entry_after(phase, event) matches Ok(StandalonePhase::CreateParent(_)) ==> event is Done
            && phase is OpenInput,
        cli.entry_after(phase, event) matches Ok(StandalonePhase::OpenInput(_)) ==> (
        event matches StandaloneEvent::Compared(same) && same != Some(true)),
{
}

/// The phases are those of an entry, from its start on, and the events have led from each to
/// the next.
pub open spec fn is_standalone_entry<P>(
    cli: StandaloneCli<P>,
    relative: bool,
    phases: Seq<StandalonePhase>,
    events: Seq<StandaloneEvent>,
) -> bool {
    &&& phases.len() == events.len() + 1
    &&& call_ensures(
        StandaloneCli::<P>::process_entry,
        (&cli, relative),
        Ok::<StandalonePhase, StandaloneError>(phases[0]),
    )
    &&& forall|k: int|
        0 <= k < events.len() ==> phases[k].awaits(#[trigger] events[k]) && call_ensures(
            StandaloneCli::<P>::continue_entry,
            (&cli, phases[k], events[k]),
            Ok::<StandalonePhase, StandaloneError>(phases[k + 1]),
        )
}

/// What an entry ends with once it is recompressed.
pub open spec fn standalone_end(quiet: bool) -> Seq<StandalonePhase> {
    if quiet {
        seq![StandalonePhase::Finished]
    } else {
        seq![StandalonePhase::Report, StandalonePhase::Finished]
    }
}

/// The phases of an entry that is replaced. There was a backup before, or not.
pub open spec fn replaced_phases(exists: bool, quiet: bool) -> Seq<StandalonePhase> {
    let files = EntryFiles { input: EntryFile::Backup, output: EntryFile::Target };
    seq![
        StandalonePhase::CheckBackup,
        StandalonePhase::CreateBackup { overriding: exists },
        StandalonePhase::CompareFiles(files),
        StandalonePhase::OpenInput(files),
        StandalonePhase::OpenOutput(files),
        StandalonePhase::Recompress(files),
    ] + standalone_end(quiet)
}

/// The phases of an entry that goes to a destination.
pub open spec fn placed_phases(quiet: bool) -> Seq<StandalonePhase> {
    let files = EntryFiles { input: EntryFile::Target, output: EntryFile::Destination };
    seq![
        StandalonePhase::CompareFiles(files),
        StandalonePhase::OpenInput(files),
        StandalonePhase::CreateParent(files),
        StandalonePhase::OpenOutput(files),
        StandalonePhase::Recompress(files),
    ] + standalone_end(quiet)
}

/// An entry that is finished was recompressed on the way, from its backup into its place where
/// files are replaced, and into the destination otherwise. An old backup was overridden only by
/// leave of the arguments, and the two files were not known to be the same.
pub proof fn finished_standalone_entries_are_recompressed<P>(
    cli: StandaloneCli<P>,
    relative: bool,
    phases: Seq<StandalonePhase>,
    events: Seq<StandaloneEvent>,
)
    requires
        is_standalone_entry(cli, relative, phases, events),
        phases.last() is Finished,
    ensures
        cli.output.inplace ==> {
            &&& events[0] matches StandaloneEvent::BackupExists(exists)
            &&& exists ==> cli.override_backups
            &&& phases == replaced_phases(exists, cli.quiet)
            &&& events[2] is Compared && events[2]->Compared_0 != Some(true)
        },
        !cli.output.inplace ==> {
            &&& relative
            &&& phases == placed_phases(cli.quiet)
            &&& events[0] is Compared && events[0]->Compared_0 != Some(true)
        },
        forall|k: int|
            0 <= k < events.len() ==> !(#[trigger] events[k] is IoFailed || events[k] is RegionFailed
                || events[k] is ChunkFailed),
{
    let n = events.len();
    assert(n > 0 ==> phases[0].awaits(events[0]));
    assert(n > 1 ==> phases[1].awaits(events[1]));
    assert(n > 2 ==> phases[2].awaits(events[2]));
    assert(n > 3 ==> phases[3].awaits(events[3]));
    assert(n > 4 ==> phases[4].awaits(events[4]));
    assert(n > 5 ==> phases[5].awaits(events[5]));
    assert(n > 6 ==> phases[6].awaits(events[6]));
    assert(n > 7 ==> phases[7].awaits(events[7]));
    if cli.output.inplace {
        assert(phases =~= replaced_phases(events[0]->BackupExists_0, cli.quiet));
    } else {
        assert(phases =~= placed_phases(cli.quiet));
    }
}

/// An entry can start unless it has no place in the destination.
pub proof fn standalone_entries_start<P>(
    cli: StandaloneCli<P>,
    relative: bool,
    r: Result<StandalonePhase, StandaloneError>,
)
    requires
        call_ensures(StandaloneCli::<P>::process_entry, (&cli, relative), r),
    ensures
        r is Err <==> !cli.output.inplace && !relative,
        r matches Err(error) ==> error is NotRelative,
{
}

/// A backup that exists is overridden if and only if the arguments say so, whatever else they say:
/// otherwise the entry fails before anything has changed.
pub proof fn standalone_backups_are_kept<P>(
    cli: StandaloneCli<P>,
    exists: bool,
    r: Result<StandalonePhase, StandaloneError>,
)
    requires
        call_ensures(
            StandaloneCli::<P>::continue_entry,
            (&cli, StandalonePhase::CheckBackup, StandaloneEvent::BackupExists(exists)),
            r,
        ),
    ensures
        !exists ==> r == Ok::<StandalonePhase, StandaloneError>(
            StandalonePhase::CreateBackup { overriding: false },
        ),
        exists && cli.override_backups ==> r == Ok::<StandalonePhase, StandaloneError>(
            StandalonePhase::CreateBackup { overriding: true },
        ),
        exists && !cli.override_backups ==> r == Err::<StandalonePhase, StandaloneError>(
            StandaloneError::BackupExists,
        ),
{
}

/// Nothing but trouble ends an entry early: a failure, which is reported for what was done when
/// it came, a backup that must not be overridden, or two files that are one.
pub proof fn only_trouble_ends_standalone_entries<P>(
    cli: StandaloneCli<P>,
    phase: StandalonePhase,
    event: StandaloneEvent,
    r: Result<StandalonePhase, StandaloneError>,
)
    requires
        phase.awaits(event),
        call_ensures(StandaloneCli::<P>::continue_entry, (&cli, phase, event), r),
    ensures
        event is Done ==> r is Ok,
        event matches StandaloneEvent::Compared(same) ==> (r is Err <==> same == Some(true)),
        event is Compared && r is Err ==> r->Err_0 is SameFile,
        event matches StandaloneEvent::IoFailed(cause) ==> r is Err && match phase {
            StandalonePhase::CreateBackup { .. } => r->Err_0 == StandaloneError::CreateBackup(
                cause,
            ),
            StandalonePhase::OpenInput(_) => r->Err_0 == StandaloneError::OpenInput(cause),
            StandalonePhase::CreateParent(_) => r->Err_0 == StandaloneError::CreateParent(cause),
            _ => phase is OpenOutput && r->Err_0 == StandaloneError::OpenOutput(cause),
        },
        event matches StandaloneEvent::RegionFailed(cause) ==> r is Err && match phase {
            StandalonePhase::OpenInput(_) => r->Err_0 == StandaloneError::ReadInput(cause),
            _ => phase is OpenOutput && r->Err_0 == StandaloneError::CreateOutput(cause),
        },
        event matches StandaloneEvent::ChunkFailed(kind) ==> r == Err::<
            StandalonePhase,
            StandaloneError,
        >(StandaloneError::Recompress(kind)),
{
}

/// What every phase of an entry can come to.
pub proof fn standalone_entries_await_every_outcome(phase: StandalonePhase, event: StandaloneEvent)
    ensures
        phase is CheckBackup ==> (phase.awaits(event) <==> event is BackupExists),
        phase is CompareFiles ==> (phase.awaits(event) <==> event is Compared),
        phase is CreateBackup || phase is CreateParent ==> (phase.awaits(event) <==> event is Done
            || event is IoFailed),
        phase is OpenInput || phase is OpenOutput ==> (phase.awaits(event) <==> event is Done
            || event is IoFailed || event is RegionFailed),
        phase is Recompress ==> (phase.awaits(event) <==> event is Done || event is ChunkFailed),
        phase is Report ==> (phase.awaits(event) <==> event is Done),
        phase is Finished ==> !phase.awaits(event),
{
}

/// Arguments that differ in nothing but whether progress is printed lead an entry through the same
/// phases, but for the report.
pub proof fn quiet_changes_nothing_but_standalone_reports<P>(
    cli: StandaloneCli<P>,
    other: StandaloneCli<P>,
    phase: StandalonePhase,
    event: StandaloneEvent,
    r: Result<StandalonePhase, StandaloneError>,
    other_r: Result<StandalonePhase, StandaloneError>,
)
    requires
        cli.output.inplace == other.output.inplace,
        cli.override_backups == other.override_backups,
        phase.awaits(event),
        call_ensures(StandaloneCli::<P>::continue_entry, (&cli, phase, event), r),
        call_ensures(StandaloneCli::<P>::continue_entry, (&other, phase, event), other_r),
    ensures
        r == other_r || phase is Recompress && event is Done,
        phase is Recompress && event is Done ==> r == Ok::<StandalonePhase, StandaloneError>(
            if cli.quiet {
                StandalonePhase::Finished
            } else {
                StandalonePhase::Report
            },
        ),
{
}

/// The options are those that were asked for: the algorithm, the integer as the level, and the
/// default level where there is none.
pub proof fn standalone_arguments_become_options<P>(
    cli: StandaloneCli<P>,
    r: RecompressFileOptions,
    n: u32,
)
    requires
        call_ensures(StandaloneCli::<P>::compression_options, (&cli,), r),
    ensures
        r.compression_algorithm == cli.compression,
        cli.compression_level == Some(n) ==> r.compression_level == CompressionLevel::Standard(n),
        cli.compression_level is None ==> r.compression_level is Default,
        r == cli.options(),
{
}

/// The data of a chunk is compressed just as it is under the options that the arguments stand for.
pub proof fn standalone_compresses_under_options<'a, P>(
    cli: StandaloneCli<P>,
    opts: RecompressFileOptions,
    input: &'a [u8],
    payload: Payload<'a>,
)
    requires
        call_ensures(StandaloneCli::<P>::compression_options, (&cli,), opts),
        call_ensures(
            StandaloneCli::<P>::compress,
            (&cli, input),
            Ok::<Payload<'a>, std::io::Error>(payload),
        ),
    ensures
        opts.is_payload(input@, payload@),
        decoded(opts.compression_algorithm.scheme().code(), payload@) == Some(input@),
{
}

/// What an output file held is always thrown away, and it is created where there is none.
pub proof fn standalone_output_is_emptied<P>(cli: StandaloneCli<P>, r: OpenFlags)
    requires
        call_ensures(StandaloneCli::<P>::output_flags, (&cli,), r),
    ensures
        r.truncate && r.create && !r.create_new,
        r.read && r.write,
{
}

/// A region that was recompressed without a failure has every chunk with the content that it had,
/// recompressed under the options that the arguments stand for.
pub proof fn standalone_recompression_keeps_contents<P>(
    cli: StandaloneCli<P>,
    opts: RecompressFileOptions,
    image: Vec<u8>,
    input: StandaloneInput,
    existing: Vec<u8>,
    result: Result<(), FileRecompressErrorKind>,
    after: Vec<u8>,
    x: int,
    z: int,
)
    requires
        0 <= x < 32,
        0 <= z < 32,
        call_ensures(StandaloneCli::<P>::compression_options, (&cli,), opts),
        call_ensures(
            StandaloneInput::open,
            (image,),
            Ok::<StandaloneInput, RegionError>(input),
        ),
        call_ensures(
            StandaloneCli::<P>::recompress_chunks,
            (&cli, input, existing),
            (result, after),
        ),
    ensures
        result is Ok ==> chunk_content(after@, x, z) == chunk_content(image@, x, z),
        recompressed(image@, opts, existing@.len() <= HEADER_SIZE, after@, result),
{
}

/// The message about an entry names the file that it is about.
pub proof fn standalone_messages_name_the_file(
    error: StandaloneError,
    target: &str,
    input_file: &str,
    output_file: &str,
    parent: &str,
    text: String,
)
    requires
        call_ensures(
            StandaloneError::to_text,
            (&error, target, input_file, output_file, parent),
            text,
        ),
    ensures
        match error {
            StandaloneError::BackupExists => contains_text(text@, target@),
            StandaloneError::NotRelative => contains_text(text@, target@),
            StandaloneError::SameFile => contains_text(text@, input_file@) && contains_text(
                text@,
                output_file@,
            ),
            StandaloneError::OpenInput(_) => contains_text(text@, input_file@),
            StandaloneError::ReadInput(_) => contains_text(text@, input_file@),
            StandaloneError::CreateParent(_) => contains_text(text@, parent@) && contains_text(
                text@,
                output_file@,
            ),
            StandaloneError::OpenOutput(_) => contains_text(text@, output_file@),
            StandaloneError::CreateOutput(_) => contains_text(text@, output_file@),
            StandaloneError::Recompress(FileRecompressErrorKind::ReadChunk { chunk, .. }) => {
                contains_text(text@, chunk.coordinate_text()) && contains_text(text@, input_file@)
            },
            StandaloneError::Recompress(FileRecompressErrorKind::WriteChunk { chunk, .. }) => {
                contains_text(text@, chunk.coordinate_text()) && contains_text(text@, output_file@)
            },
            StandaloneError::Recompress(FileRecompressErrorKind::CompressChunk { chunk, .. }) => {
                contains_text(text@, chunk.coordinate_text())
            },
            _ => true,
        },
{
    match error {
        StandaloneError::BackupExists => {
            part_is_contained(
                "Cannot process "@,
                target@,
                " inplace as a backup file already exists"@,
            );
        },
        StandaloneError::NotRelative => {
            part_is_contained("A relative path is required (got "@, target@, ")"@);
        },
        StandaloneError::SameFile => {
            let start = "Internal Error: Cannot process file "@ + input_file@ + " as output "@;
            let end = " is actually the same file"@;
            part_is_contained("Internal Error: Cannot process file "@, input_file@, " as output "@);
            contained_in_longer(start, input_file@, output_file@);
            contained_in_longer(start + output_file@, input_file@, end);
            part_is_contained(start, output_file@, end);
        },
        StandaloneError::OpenInput(_) | StandaloneError::ReadInput(_) => {
            end_is_contained("Failed to open region file "@, input_file@);
        },
        StandaloneError::CreateParent(_) => {
            let start = "Failed to create parent "@ + parent@ + " for "@;
            part_is_contained("Failed to create parent "@, parent@, " for "@);
            contained_in_longer(start, parent@, output_file@);
            end_is_contained(start, output_file@);
        },
        StandaloneError::OpenOutput(_) | StandaloneError::CreateOutput(_) => {
            end_is_contained("Failed to create region file "@, output_file@);
        },
        StandaloneError::Recompress(kind) => match kind {
            FileRecompressErrorKind::ReadChunk { chunk, .. } => {
                let start = "Failed to read chunk "@ + chunk.coordinate_text() + " from "@;
                part_is_contained("Failed to read chunk "@, chunk.coordinate_text(), " from "@);
                contained_in_longer(start, chunk.coordinate_text(), input_file@);
                end_is_contained(start, input_file@);
            },
            FileRecompressErrorKind::WriteChunk { chunk, .. } => {
                let start = "Failed to write chunk "@ + chunk.coordinate_text() + " to "@;
                part_is_contained("Failed to write chunk "@, chunk.coordinate_text(), " to "@);
                contained_in_longer(start, chunk.coordinate_text(), output_file@);
                end_is_contained(start, output_file@);
            },
            FileRecompressErrorKind::CompressChunk { chunk, .. } => {
                end_is_contained("Compression failure for chunk "@, chunk.coordinate_text());
            },
            _ => {},
        },
        _ => {},
    }
}

} // verus!
