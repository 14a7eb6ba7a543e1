//! What the command line tool decides.
//!
//! The files and directories themselves stay outside.
use vstd::prelude::*;
use crate::errors::FileRecompressError;
use crate::options::{CompressionAlgorithm, CompressionLevel, RecompressFileOptions};
use crate::text::{
    contained_in_longer, contains_text, end_is_contained, ends_with, has_suffix, joined,
    part_is_contained, suffix_stands_at_the_end,
};

verus! {

/// The names of region files end in this.
pub const REGION_FILE_EXTENSION: &'static str = ".mca";

/// The extension that is added to the name of a file to get the name of its backup.
pub const BACKUP_EXTENSION: &'static str = ".bak";

/// Where the output goes. Exactly one of the two is given.
#[derive(Debug)]
pub struct OutputSpec<P> {
    /// Replace the original files with the output files.
    pub inplace: bool,
    /// Place the output in this directory.
    pub dest: Option<P>,
}

/// The arguments of the command line tool.
#[derive(Debug)]
pub struct Cli<P> {
    /// Recursively process directories.
    pub recurse: bool,
    pub compression: CompressionAlgorithm,
    pub compression_level: Option<u32>,
    /// The files or directories to recompress.
    pub targets: Vec<P>,
    pub output: OutputSpec<P>,
    /// Ignore and override existing backups.
    pub override_backups: bool,
    /// Override existing destination files.
    pub override_existing_dest: bool,
    /// Suppress the normal printing of progress.
    pub quiet: bool,
}

/// The level that the arguments ask for.
pub open spec fn level_of(compression_level: Option<u32>) -> CompressionLevel {
    match compression_level {
        Some(level) => CompressionLevel::Standard(level),
        None => CompressionLevel::Default,
    }
}

impl<P> Cli<P> {
    /// The options under which files are recompressed.
    ///
    /// An existing output file may be overridden where backups may be, if files are replaced,
    /// and where existing files of the destination may be, if there is one.
    pub fn recompression_opts(&self) -> (r: RecompressFileOptions)
        ensures
            r.compression_algorithm == self.compression,
            r.compression_level == level_of(self.compression_level),
            r.override_existing <==> (self.output.inplace && self.override_backups) || (
            self.output.dest is Some && self.override_existing_dest),
    {
        let mut opts = RecompressFileOptions::new(self.compression);
        opts.compression_level = match self.compression_level {
            Some(level) => CompressionLevel::Standard(level),
            None => CompressionLevel::default(),
        };
        opts.override_existing = (self.output.inplace && self.override_backups) || (
        self.output.dest.is_some() && self.override_existing_dest);
        opts
    }
}

/// The options are those that were asked for: the algorithm, the integer as the level, and the
/// default level where there is none. An existing output file may be overridden only by the flag
/// that goes with where the output goes.
pub proof fn arguments_become_options<P>(cli: Cli<P>, r: RecompressFileOptions, n: u32)
    requires
        call_ensures(Cli::<P>::recompression_opts, (&cli,), r),
    ensures
        r.compression_algorithm == cli.compression,
        cli.compression_level == Some(n) ==> r.compression_level == CompressionLevel::Standard(n),
        cli.compression_level is None ==> r.compression_level is Default,
        cli.output.inplace && cli.output.dest is None ==> (r.override_existing
            <==> cli.override_backups),
        !cli.output.inplace && cli.output.dest is Some ==> (r.override_existing
            <==> cli.override_existing_dest),
        !cli.override_backups && !cli.override_existing_dest ==> !r.override_existing,
{
}

/// What there is to warn of before anything is done.
pub fn compression_warning(compression: CompressionAlgorithm) -> (r: Option<&'static str>)
    ensures
        match r {
            Some(text) => {
                &&& compression is Lz4
                &&& text@ == "WARN: Compression choice 'lz4' has not been tested."@
            },
            None => compression !is Lz4,
        },
{
    match compression {
        CompressionAlgorithm::Lz4 => Some("WARN: Compression choice 'lz4' has not been tested."),
        _ => None,
    }
}

/// Whether a file that was found in a directory is a region file, by its name.
pub fn is_region_file_name(name: &str) -> (r: bool)
    ensures
        r == has_suffix(name@, REGION_FILE_EXTENSION@),
{
    ends_with(name, REGION_FILE_EXTENSION)
}

/// The region files are those whose names end in `.mca`, whatever stands before it.
pub proof fn region_files_end_in_mca(name: &str, r: bool)
    requires
        call_ensures(is_region_file_name, (name,), r),
    ensures
        r <==> exists|stem: Seq<char>| name@ == #[trigger] (stem + ".mca"@),
{
    suffix_stands_at_the_end(name@, ".mca"@);
}

/// What comes next for the targets.
#[derive(Copy, Clone, Debug, PartialEq, Eq, Structural)]
pub enum RunPhase {
    /// Search this target, and process every region file in it.
    Walk(usize),
    /// Find out of this target whether it can be processed.
    Check(usize),
    /// Process this target.
    Process(usize),
    /// All is done.
    Finished,
}

/// Why the targets are not processed.
#[derive(Copy, Clone, Debug, PartialEq, Eq, Structural)]
pub enum TargetError {
    /// Only one directory can be searched.
    SeveralTargets,
    /// This target would have to be relative.
    NotRelative(usize),
    /// This target is not an existing file.
    NotAFile(usize),
}

impl TargetError {
    /// The message, in which the target is shown as given.
    pub open spec fn message(self, target: Seq<char>) -> Seq<char> {
        match self {
            TargetError::SeveralTargets => "When recursing, cannot have more than one target"@,
            TargetError::NotRelative(_) => {
                "When using --dest option, only relative paths are allowed: "@ + target
            },
            TargetError::NotAFile(_) => "Target must be an existing file: "@ + target,
        }
    }

    /// The message, in which the target is shown as given.
    pub fn to_text(&self, target: &str) -> (r: String)
        ensures
            r@ == self.message(target@),
    {
        let mut text = match self {
            TargetError::SeveralTargets => {
                return "When recursing, cannot have more than one target".to_owned();
            },
            TargetError::NotRelative(_) => {
                "When using --dest option, only relative paths are allowed: ".to_owned()
            },
            TargetError::NotAFile(_) => "Target must be an existing file: ".to_owned(),
        };
        text.append(target);
        text
    }
}

/// The message of an error about a target names the target.
pub proof fn target_message_names_target(error: TargetError, target: Seq<char>)
    requires
        error !is SeveralTargets,
    ensures
        contains_text(error.message(target), target),
{
    let start = match error {
        TargetError::NotAFile(_) => "Target must be an existing file: "@,
        _ => "When using --dest option, only relative paths are allowed: "@,
    };
    part_is_contained(start, target, Seq::empty());
    assert(error.message(target) =~= start + target + Seq::<char>::empty());
}

/// The first phase: a search needs exactly one target, and otherwise all targets are checked
/// before the first is processed.
pub open spec fn first_phase(recurse: bool, targets: int) -> Result<RunPhase, TargetError> {
    if recurse {
        if targets == 1 {
            Ok(RunPhase::Walk(0))
        } else {
            Err(TargetError::SeveralTargets)
        }
    } else if targets == 0 {
        Ok(RunPhase::Finished)
    } else {
        Ok(RunPhase::Check(0))
    }
}

/// What is wrong with a target. The path is looked at before the file.
pub open spec fn target_error(
    inplace: bool,
    index: usize,
    relative: bool,
    is_file: bool,
) -> Option<TargetError> {
    if !inplace && !relative {
        Some(TargetError::NotRelative(index))
    } else if !is_file {
        Some(TargetError::NotAFile(index))
    } else {
        None
    }
}

/// The phase that follows one that went well.
pub open spec fn next_phase(phase: RunPhase, targets: int) -> RunPhase {
    match phase {
        RunPhase::Check(i) => if i + 1 < targets {
            RunPhase::Check((i + 1) as usize)
        } else {
            RunPhase::Process(0)
        },
        RunPhase::Process(i) => if i + 1 < targets {
            RunPhase::Process((i + 1) as usize)
        } else {
            RunPhase::Finished
        },
        _ => RunPhase::Finished,
    }
}

impl RunPhase {
    /// The phase is about a target that there is.
    pub open spec fn within(self, targets: int) -> bool {
        match self {
            RunPhase::Walk(i) => i < targets,
            RunPhase::Check(i) => i < targets,
            RunPhase::Process(i) => i < targets,
            RunPhase::Finished => true,
        }
    }
}

/// Begin with the targets.
pub fn start_run(recurse: bool, targets: usize) -> (r: Result<RunPhase, TargetError>)
    ensures
        r == first_phase(recurse, targets as int),
        r matches Ok(phase) ==> phase.within(targets as int),
{
    if recurse {
        if targets == 1 {
            Ok(RunPhase::Walk(0))
        } else {
            Err(TargetError::SeveralTargets)
        }
    } else if targets == 0 {
        Ok(RunPhase::Finished)
    } else {
        Ok(RunPhase::Check(0))
    }
}

/// Do some basic validation of a target.
pub fn check_target(inplace: bool, index: usize, relative: bool, is_file: bool) -> (r: Result<
    (),
    TargetError,
>)
    ensures
        match target_error(inplace, index, relative, is_file) {
            Some(error) => r == Err::<(), TargetError>(error),
            None => r is Ok,
        },
{
    if !inplace && !relative {
        return Err(TargetError::NotRelative(index));
    }
    if !is_file {
        return Err(TargetError::NotAFile(index));
    }
    Ok(())
}

/// Go on after a phase that went well.
pub fn continue_run(phase: RunPhase, targets: usize) -> (r: RunPhase)
    requires
        phase.within(targets as int),
    ensures
        r == next_phase(phase, targets as int),
        r.within(targets as int),
{
    match phase {
        RunPhase::Check(i) => {
            if i + 1 < targets {
                RunPhase::Check(i + 1)
            } else {
                RunPhase::Process(0)
            }
        },
        RunPhase::Process(i) => {
            if i + 1 < targets {
                RunPhase::Process(i + 1)
            } else {
                RunPhase::Finished
            }
        },
        _ => RunPhase::Finished,
    }
}

/// The phase that comes after this many phases that went well.
pub open spec fn phase_after(phase: RunPhase, targets: int, steps: nat) -> RunPhase
    decreases steps,
{
    if steps == 0 {
        phase
    } else {
        next_phase(phase_after(phase, targets, (steps - 1) as nat), targets)
    }
}

/// Every target is checked before the first is processed, and every target is processed once,
/// in order.
pub proof fn targets_are_checked_first(targets: int, index: int)
    requires
        0 <= index < targets <= usize::MAX,
    ensures
        phase_after(RunPhase::Check(0), targets, index as nat) == RunPhase::Check(index as usize),
        phase_after(RunPhase::Check(0), targets, (targets + index) as nat) == RunPhase::Process(
            index as usize,
        ),
        phase_after(RunPhase::Check(0), targets, (2 * targets) as nat) == RunPhase::Finished,
{
    lemma_check_phases(targets, index);
    lemma_process_phases(targets, index);
    lemma_process_phases(targets, targets - 1);
}

proof fn lemma_check_phases(targets: int, index: int)
    requires
        0 <= index < targets <= usize::MAX,
    ensures
        phase_after(RunPhase::Check(0), targets, index as nat) == RunPhase::Check(index as usize),
    decreases index,
{
    if index > 0 {
        lemma_check_phases(targets, index - 1);
    }
}

proof fn lemma_process_phases(targets: int, index: int)
    requires
        0 <= index < targets <= usize::MAX,
    ensures
        phase_after(RunPhase::Check(0), targets, (targets + index) as nat) == RunPhase::Process(
            index as usize,
        ),
    decreases index,
{
    if index > 0 {
        lemma_process_phases(targets, index - 1);
    } else {
        lemma_check_phases(targets, targets - 1);
    }
}

/// The phases are those of a run, from its start on, one after the other.
pub open spec fn is_run(recurse: bool, targets: usize, phases: Seq<RunPhase>) -> bool {
    &&& phases.len() > 0
    &&& call_ensures(start_run, (recurse, targets), Ok::<RunPhase, TargetError>(phases[0]))
    &&& forall|k: int|
        0 < k < phases.len() ==> call_ensures(
            continue_run,
            (phases[k - 1], targets),
            #[trigger] phases[k],
        )
}

/// A run can start unless it is a search with any other number of targets than one.
pub proof fn runs_start(recurse: bool, targets: usize, r: Result<RunPhase, TargetError>)
    requires
        call_ensures(start_run, (recurse, targets), r),
    ensures
        r is Err <==> recurse && targets != 1,
        r matches Err(error) ==> error is SeveralTargets,
{
}

/// A run without a search checks every target, from the first to the last, then processes every
/// target, from the first to the last, and then it is finished.
pub proof fn runs_process_every_target(targets: usize, phases: Seq<RunPhase>, index: int)
    requires
        is_run(false, targets, phases),
        0 <= index < phases.len(),
    ensures
        index < targets ==> phases[index] == RunPhase::Check(index as usize),
        targets <= index < 2 * targets ==> phases[index] == RunPhase::Process(
            (index - targets) as usize,
        ),
        2 * targets <= index ==> phases[index] is Finished,
    decreases index,
{
    if index > 0 {
        runs_process_every_target(targets, phases, index - 1);
        assert(call_ensures(continue_run, (phases[index - 1], targets), phases[index]));
    }
}

/// A search goes through its one target, and then it is finished.
pub proof fn searches_walk_their_target(targets: usize, phases: Seq<RunPhase>, index: int)
    requires
        is_run(true, targets, phases),
        0 <= index < phases.len(),
    ensures
        phases[0] == RunPhase::Walk(0),
        index > 0 ==> phases[index] is Finished,
    decreases index,
{
    if index > 0 {
        searches_walk_their_target(targets, phases, index - 1);
        assert(call_ensures(continue_run, (phases[index - 1], targets), phases[index]));
    }
}

/// A target passes if and only if it is a file and, for a destination, has a relative path.
/// The error names the target.
pub proof fn targets_are_files(
    inplace: bool,
    index: usize,
    relative: bool,
    is_file: bool,
    r: Result<(), TargetError>,
)
    requires
        call_ensures(check_target, (inplace, index, relative, is_file), r),
    ensures
        r is Ok <==> is_file && (inplace || relative),
        r matches Err(error) ==> error == TargetError::NotRelative(index) || error
            == TargetError::NotAFile(index),
        r matches Err(TargetError::NotRelative(_)) <==> !inplace && !relative,
{
}

/// The files that play a part when an entry is processed.
#[derive(Copy, Clone, Debug, PartialEq, Eq, Structural)]
pub enum EntryFile {
    /// The file that was found.
    Target,
    /// The file that was found, with [`BACKUP_EXTENSION`] added to its name.
    Backup,
    /// The file of the same relative path in the destination.
    Destination,
}

/// Where the entry is read from and where it is written to.
#[derive(Copy, Clone, Debug, PartialEq, Eq, Structural)]
pub struct EntryFiles {
    pub input: EntryFile,
    pub output: EntryFile,
}

/// The files of an entry: a file that is replaced is read from its backup.
pub open spec fn entry_files(inplace: bool) -> EntryFiles {
    if inplace {
        EntryFiles { input: EntryFile::Backup, output: EntryFile::Target }
    } else {
        EntryFiles { input: EntryFile::Target, output: EntryFile::Destination }
    }
}

/// What comes next for an entry.
#[derive(Copy, Clone, Debug, PartialEq, Eq, Structural)]
pub enum EntryPhase {
    /// Is there a backup already?
    CheckBackup,
    /// The target has to be renamed to its backup. There may be a backup that is overridden,
    /// of which the user is warned.
    CreateBackup { overriding: bool },
    /// The directory of the destination file has to be created, if it has one.
    CreateParent,
    /// The file has to be recompressed.
    Recompress(EntryFiles),
    /// The entry has to be reported as finished.
    Report,
    /// The entry is done.
    Finished,
}

/// What became of what had to be done next for an entry.
#[derive(Debug)]
pub enum EntryEvent<P> {
    /// It is done.
    Done,
    /// Whether there is a backup already.
    BackupExists(bool),
    /// A file or directory made trouble.
    IoFailed(std::io::Error),
    /// The file could not be recompressed.
    RecompressFailed(FileRecompressError<P>),
}

/// Why an entry was not processed.
#[derive(Debug)]
pub enum EntryError<P> {
    /// There is a backup already.
    BackupExists,
    CreateBackup(std::io::Error),
    /// Only a relative path has a place in the destination.
    NotRelative,
    CreateParent(std::io::Error),
    Recompress(FileRecompressError<P>),
}

impl<P> EntryError<P> {
    /// The message, in which the path is shown as given, or `None` where the failure of the
    /// recompression speaks for itself. The path is that of the target, or of what was to be
    /// created for the destination file.
    pub open spec fn message(self, path: Seq<char>, output_file: Seq<char>) -> Option<Seq<char>> {
        match self {
            EntryError::BackupExists => Some(
                "Cannot process "@ + path + " inplace as a backup file already exists"@,
            ),
            EntryError::CreateBackup(_) => Some("Failed to create backup"@),
            EntryError::NotRelative => Some("A relative path is required (got "@ + path + ")"@),
            EntryError::CreateParent(_) => Some(
                "Failed to create parent "@ + path + " for "@ + output_file,
            ),
            EntryError::Recompress(_) => None,
        }
    }

    /// The message, in which the paths are shown as given, or `None` where the failure of the
    /// recompression speaks for itself.
    pub fn to_text(&self, path: &str, output_file: &str) -> (r: Option<String>)
        ensures
            match r {
                Some(text) => self.message(path@, output_file@) == Some(text@),
                None => self.message(path@, output_file@) is None,
            },
    {
        match self {
            EntryError::BackupExists => Some(
                joined("Cannot process ", path, " inplace as a backup file already exists"),
            ),
            EntryError::CreateBackup(_) => Some("Failed to create backup".to_owned()),
            EntryError::NotRelative => Some(joined("A relative path is required (got ", path, ")")),
            EntryError::CreateParent(_) => {
                let mut text = joined("Failed to create parent ", path, " for ");
                text.append(output_file);
                Some(text)
            },
            EntryError::Recompress(_) => None,
        }
    }
}

impl EntryPhase {
    /// This can become of what has to be done next.
    pub open spec fn awaits<P>(self, event: EntryEvent<P>) -> bool {
        match event {
            EntryEvent::Done => self !is CheckBackup && self !is Finished,
            EntryEvent::BackupExists(_) => self is CheckBackup,
            EntryEvent::IoFailed(_) => self is CreateBackup || self is CreateParent,
            EntryEvent::RecompressFailed(_) => self is Recompress,
        }
    }
}

impl<P> Cli<P> {
    /// The first phase of an entry with a relative path or another, or why there is none.
    pub open spec fn entry_start(self, relative: bool) -> Result<EntryPhase, EntryError<P>> {
        if self.output.inplace {
            Ok(EntryPhase::CheckBackup)
        } else if !relative {
            Err(EntryError::NotRelative)
        } else {
            Ok(EntryPhase::CreateParent)
        }
    }

    /// The phase after another, or why there is none.
    pub open spec fn entry_after(self, phase: EntryPhase, event: EntryEvent<P>) -> Result<
        EntryPhase,
        EntryError<P>,
    > {
        match event {
            EntryEvent::BackupExists(exists) => if exists && !self.override_backups {
                Err(EntryError::BackupExists)
            } else {
                Ok(EntryPhase::CreateBackup { overriding: exists })
            },
            EntryEvent::IoFailed(cause) => if phase is CreateBackup {
                Err(EntryError::CreateBackup(cause))
            } else {
                Err(EntryError::CreateParent(cause))
            },
            EntryEvent::RecompressFailed(cause) => Err(EntryError::Recompress(cause)),
            EntryEvent::Done => match phase {
                EntryPhase::CreateBackup { .. } | EntryPhase::CreateParent => Ok(
                    EntryPhase::Recompress(entry_files(self.output.inplace)),
                ),
                EntryPhase::Recompress(_) if !self.quiet => Ok(EntryPhase::Report),
                _ => Ok(EntryPhase::Finished),
            },
        }
    }

    /// Begin to process an entry.
    pub fn process_entry(&self, relative: bool) -> (r: Result<EntryPhase, EntryError<P>>)
        requires
            self.output.inplace || self.output.dest is Some,
        ensures
            r == self.entry_start(relative),
    {
        if self.output.inplace {
            return Ok(EntryPhase::CheckBackup);
        }
        if !relative {
            return Err(EntryError::NotRelative);
        }
        Ok(EntryPhase::CreateParent)
    }

    /// Go on from what became of what had to be done for an entry.
    pub fn continue_entry(&self, phase: EntryPhase, event: EntryEvent<P>) -> (r: Result<
        EntryPhase,
        EntryError<P>,
    >)
        requires
            phase.awaits(event),
        ensures
            r == self.entry_after(phase, event),
    {
        match event {
            EntryEvent::BackupExists(exists) => {
                if exists && !self.override_backups {
                    Err(EntryError::BackupExists)
                } else {
                    // renaming will override the old backup
                    Ok(EntryPhase::CreateBackup { overriding: exists })
                }
            },
            EntryEvent::IoFailed(cause) => match phase {
                EntryPhase::CreateBackup { .. } => Err(EntryError::CreateBackup(cause)),
                _ => Err(EntryError::CreateParent(cause)),
            },
            EntryEvent::RecompressFailed(cause) => Err(EntryError::Recompress(cause)),
            EntryEvent::Done => match phase {
                EntryPhase::CreateBackup { .. } | EntryPhase::CreateParent => {
                    let files = if self.output.inplace {
                        EntryFiles { input: EntryFile::Backup, output: EntryFile::Target }
                    } else {
                        EntryFiles { input: EntryFile::Target, output: EntryFile::Destination }
                    };
                    Ok(EntryPhase::Recompress(files))
                },
                EntryPhase::Recompress(_) => {
                    if self.quiet {
                        Ok(EntryPhase::Finished)
                    } else {
                        Ok(EntryPhase::Report)
                    }
                },
                _ => Ok(EntryPhase::Finished),
            },
        }
    }

    /// A backup that exists is overridden only where the arguments allow it: otherwise the
    /// entry fails before anything has changed.
    pub proof fn backups_are_kept(self, exists: bool)
        ensures
            self.entry_after(EntryPhase::CheckBackup, EntryEvent::BackupExists(exists)) is Err
                <==> exists && !self.override_backups,
            exists && !self.override_backups ==> self.entry_after(
                EntryPhase::CheckBackup,
                EntryEvent::BackupExists(exists),
            ) == Err::<EntryPhase, EntryError<P>>(EntryError::BackupExists),
    {
    }

    /// A file that is replaced is renamed to its backup first, and then read from there.
    pub proof fn replaced_files_are_read_from_backups(self, relative: bool, exists: bool)
        requires
            self.output.inplace,
            exists ==> self.override_backups,
        ensures
            self.entry_start(relative) == Ok::<EntryPhase, EntryError<P>>(EntryPhase::CheckBackup),
            self.entry_after(EntryPhase::CheckBackup, EntryEvent::BackupExists(exists)) == Ok::<
                EntryPhase,
                EntryError<P>,
            >(EntryPhase::CreateBackup { overriding: exists }),
            self.entry_after(
                EntryPhase::CreateBackup { overriding: exists },
                EntryEvent::Done,
            ) == Ok::<EntryPhase, EntryError<P>>(
                EntryPhase::Recompress(
                    EntryFiles { input: EntryFile::Backup, output: EntryFile::Target },
                ),
            ),
    {
    }

    /// Where there is a destination, the files that were found are never written to.
    pub proof fn destination_leaves_targets_alone(self, phase: EntryPhase, event: EntryEvent<P>)
        requires
            !self.output.inplace,
        ensures
            self.entry_start(true) == Ok::<EntryPhase, EntryError<P>>(EntryPhase::CreateParent),
            self.entry_after(phase, event) matches Ok(EntryPhase::Recompress(files))
                ==> files.output == EntryFile::Destination,
            phase !is CheckBackup && phase.awaits(event) ==> !(self.entry_after(
                phase,
                event,
            ) matches Ok(EntryPhase::CreateBackup { .. })),
    {
    }
}

/// The phases are those of an entry, from its start on, and the events have led from each to
/// the next.
pub open spec fn is_entry<P>(
    cli: Cli<P>,
    relative: bool,
    phases: Seq<EntryPhase>,
    events: Seq<EntryEvent<P>>,
) -> bool {
    &&& phases.len() == events.len() + 1
    &&& call_ensures(
        Cli::<P>::process_entry,
        (&cli, relative),
        Ok::<EntryPhase, EntryError<P>>(phases[0]),
    )
    &&& forall|k: int|
        0 <= k < events.len() ==> phases[k].awaits(#[trigger] events[k]) && call_ensures(
            Cli::<P>::continue_entry,
            (&cli, phases[k], events[k]),
            Ok::<EntryPhase, EntryError<P>>(phases[k + 1]),
        )
}

/// What an entry ends with once it is recompressed.
pub open spec fn entry_end(quiet: bool) -> Seq<EntryPhase> {
    if quiet {
        seq![EntryPhase::Finished]
    } else {
        seq![EntryPhase::Report, EntryPhase::Finished]
    }
}

/// An entry that is finished was recompressed on the way. A file that is replaced was looked for
/// a backup and renamed to it first, over an old one only by leave of the arguments, and read from
/// there. For a destination the parent directory was created first.
pub proof fn finished_entries_are_recompressed<P>(
    cli: Cli<P>,
    relative: bool,
    phases: Seq<EntryPhase>,
    events: Seq<EntryEvent<P>>,
)
    requires
        is_entry(cli, relative, phases, events),
        phases.last() is Finished,
    ensures
        cli.output.inplace ==> {
            &&& events[0] matches EntryEvent::BackupExists(exists)
            &&& exists ==> cli.override_backups
            &&& phases == seq![
                EntryPhase::CheckBackup,
                EntryPhase::CreateBackup { overriding: exists },
                EntryPhase::Recompress(
                    EntryFiles { input: EntryFile::Backup, output: EntryFile::Target },
                ),
            ] + entry_end(cli.quiet)
        },
        !cli.output.inplace ==> {
            &&& relative
            &&& phases == seq![
                EntryPhase::CreateParent,
                EntryPhase::Recompress(
                    EntryFiles { input: EntryFile::Target, output: EntryFile::Destination },
                ),
            ] + entry_end(cli.quiet)
        },
        forall|k: int|
            0 <= k < events.len() ==> #[trigger] events[k] is Done || k == 0 && cli.output.inplace,
{
    let n = events.len();
    assert(n > 0 ==> phases[0].awaits(events[0]));
    assert(n > 1 ==> phases[1].awaits(events[1]));
    assert(n > 2 ==> phases[2].awaits(events[2]));
    assert(n > 3 ==> phases[3].awaits(events[3]));
    assert(n > 4 ==> phases[4].awaits(events[4]));
    if cli.output.inplace {
        let exists = events[0]->BackupExists_0;
        assert(phases =~= seq![
            EntryPhase::CheckBackup,
            EntryPhase::CreateBackup { overriding: exists },
            EntryPhase::Recompress(
                EntryFiles { input: EntryFile::Backup, output: EntryFile::Target },
            ),
        ] + entry_end(cli.quiet));
    } else {
        assert(phases =~= seq![
            EntryPhase::CreateParent,
            EntryPhase::Recompress(
                EntryFiles { input: EntryFile::Target, output: EntryFile::Destination },
            ),
        ] + entry_end(cli.quiet));
    }
}

/// An entry can start unless it has no place in the destination.
pub proof fn entries_start<P>(cli: Cli<P>, relative: bool, r: Result<EntryPhase, EntryError<P>>)
    requires
        call_ensures(Cli::<P>::process_entry, (&cli, relative), r),
    ensures
        r is Err <==> !cli.output.inplace && !relative,
        r matches Err(error) ==> error is NotRelative,
{
}

/// Nothing but trouble ends an entry early: a failure, which is reported for what was done when
/// it came, or a backup that must not be overridden.
pub proof fn only_trouble_ends_entries<P>(
    cli: Cli<P>,
    phase: EntryPhase,
    event: EntryEvent<P>,
    r: Result<EntryPhase, EntryError<P>>,
)
    requires
        phase.awaits(event),
        call_ensures(Cli::<P>::continue_entry, (&cli, phase, event), r),
    ensures
        event is Done ==> r is Ok,
        event == EntryEvent::<P>::BackupExists(false) ==> r == Ok::<EntryPhase, EntryError<P>>(
            EntryPhase::CreateBackup { overriding: false },
        ),
        event == EntryEvent::<P>::BackupExists(true) && cli.override_backups ==> r == Ok::<
            EntryPhase,
            EntryError<P>,
        >(EntryPhase::CreateBackup { overriding: true }),
        event == EntryEvent::<P>::BackupExists(true) && !cli.override_backups ==> r == Err::<
            EntryPhase,
            EntryError<P>,
        >(EntryError::BackupExists),
        event matches EntryEvent::IoFailed(cause) ==> r == Err::<EntryPhase, EntryError<P>>(
            if phase is CreateBackup {
                EntryError::CreateBackup(cause)
            } else {
                EntryError::CreateParent(cause)
            },
        ),
        event matches EntryEvent::RecompressFailed(cause) ==> r == Err::<EntryPhase, EntryError<P>>(
            EntryError::Recompress(cause),
        ),
{
}

/// What every phase of an entry can come to.
pub proof fn entries_await_every_outcome<P>(phase: EntryPhase, event: EntryEvent<P>)
    ensures
        phase is CheckBackup ==> (phase.awaits(event) <==> event is BackupExists),
        phase is CreateBackup || phase is CreateParent ==> (phase.awaits(event) <==> event is Done
            || event is IoFailed),
        phase is Recompress ==> (phase.awaits(event) <==> event is Done
            || event is RecompressFailed),
        phase is Report ==> (phase.awaits(event) <==> event is Done),
        phase is Finished ==> !phase.awaits(event),
{
}

/// Arguments that differ in nothing but whether progress is printed lead an entry through the same
/// phases, but for the report.
pub proof fn quiet_changes_nothing_but_reports<P>(
    cli: Cli<P>,
    other: Cli<P>,
    phase: EntryPhase,
    event: EntryEvent<P>,
    r: Result<EntryPhase, EntryError<P>>,
    other_r: Result<EntryPhase, EntryError<P>>,
)
    requires
        cli.output.inplace == other.output.inplace,
        cli.override_backups == other.override_backups,
        phase.awaits(event),
        call_ensures(Cli::<P>::continue_entry, (&cli, phase, event), r),
        call_ensures(Cli::<P>::continue_entry, (&other, phase, event), other_r),
    ensures
        r == other_r || phase is Recompress && event is Done,
        phase is Recompress && event is Done ==> r == Ok::<EntryPhase, EntryError<P>>(
            if cli.quiet {
                EntryPhase::Finished
            } else {
                EntryPhase::Report
            },
        ),
{
}

/// The message about an entry names the path that it is about, and for a directory that could not
/// be created the output file as well.
pub proof fn entry_messages_name_the_path<P>(
    error: EntryError<P>,
    path: &str,
    output_file: &str,
    r: Option<String>,
)
    requires
        call_ensures(EntryError::<P>::to_text, (&error, path, output_file), r),
    ensures
        r is None <==> error is Recompress,
        error is BackupExists || error is NotRelative || error is CreateParent ==> contains_text(
            r->0@,
            path@,
        ),
        error is CreateParent ==> contains_text(r->0@, output_file@),
{
    part_is_contained(
        "Cannot process "@,
        path@,
        " inplace as a backup file already exists"@,
    );
    part_is_contained("A relative path is required (got "@, path@, ")"@);
    part_is_contained("Failed to create parent "@, path@, " for "@);
    let start = "Failed to create parent "@ + path@ + " for "@;
    contained_in_longer(start, path@, output_file@);
    end_is_contained(start, output_file@);
}

/// There is a warning for lz4, and for no other algorithm.
pub proof fn lz4_is_warned_of(compression: CompressionAlgorithm, r: Option<&'static str>)
    requires
        call_ensures(compression_warning, (compression,), r),
    ensures
        r is Some <==> compression is Lz4,
{
}

} // verus!
