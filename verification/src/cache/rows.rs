//! What the cache knows of files, as rows of its database.
use vstd::prelude::*;
use crate::cache::{
    json_column_result, json_in_column, Checksum, ColumnError, ColumnValue, ColumnView,
    FileModificationTime,
};

verus! {

/// A column of a row cannot be used.
#[derive(Debug)]
pub struct RowError {
    pub column: &'static str,
    pub error: ColumnError,
}

/// A column of a row cannot be used, as the contracts speak of it.
pub struct RowErrorView {
    pub column: Seq<char>,
    pub error: ColumnError,
}

impl View for RowError {
    type V = RowErrorView;

    open spec fn view(&self) -> RowErrorView {
        RowErrorView { column: self.column@, error: self.error }
    }
}

/// The hash of a file, and when the file was modified that has it.
#[derive(Copy, Clone, Debug)]
pub struct CachedHash {
    pub hash: Checksum,
    pub timestamp: FileModificationTime,
}

/// What a [`CachedHash`] holds.
pub struct HashView {
    pub hash: Seq<u8>,
    pub timestamp: int,
}

impl View for CachedHash {
    type V = HashView;

    open spec fn view(&self) -> HashView {
        HashView { hash: self.hash.digest(), timestamp: self.timestamp.moment() }
    }
}

/// The columns of a row that holds the hash of a file.
#[derive(Debug)]
pub struct HashRow {
    pub modified_time: ColumnValue,
    pub hash: ColumnValue,
}

/// What a [`HashRow`] holds.
pub struct HashRowView {
    pub modified_time: ColumnView,
    pub hash: ColumnView,
}

impl View for HashRow {
    type V = HashRowView;

    open spec fn view(&self) -> HashRowView {
        HashRowView { modified_time: self.modified_time@, hash: self.hash@ }
    }
}

impl HashRowView {
    /// The hash that the row holds, or the first column that stands in the way.
    pub open spec fn content(self) -> Result<HashView, RowErrorView> {
        match FileModificationTime::in_column(self.modified_time) {
            Err(error) => Err(RowErrorView { column: "modified_time"@, error }),
            Ok(timestamp) => match Checksum::in_column(self.hash) {
                Err(error) => Err(RowErrorView { column: "hash"@, error }),
                Ok(hash) => Ok(HashView { hash, timestamp }),
            },
        }
    }
}

impl HashRow {
    /// Read the hash that the row holds.
    pub fn read(&self) -> (r: Result<CachedHash, RowError>)
        ensures
            match r {
                Ok(cached) => self@.content() == Ok::<HashView, RowErrorView>(cached@),
                Err(e) => self@.content() == Err::<HashView, RowErrorView>(e@),
            },
    {
        let timestamp = match FileModificationTime::column_result(&self.modified_time) {
            Ok(timestamp) => timestamp,
            Err(error) => return Err(RowError { column: "modified_time", error }),
        };
        let hash = match Checksum::column_result(&self.hash) {
            Ok(hash) => hash,
            Err(error) => return Err(RowError { column: "hash", error }),
        };
        Ok(CachedHash { hash, timestamp })
    }
}

/// What is known of an output file.
#[derive(Debug)]
pub struct CachedOutputFileInfo {
    /// The hash of the input file.
    pub input_hash: Checksum,
    /// The options, in JSON notation.
    pub compression_opts: String,
    /// The hash of the output file.
    pub output_hash: Checksum,
    /// When the output file was last modified.
    ///
    /// Used to avoid hash recalculations wherever possible.
    pub output_modified: FileModificationTime,
}

/// What a [`CachedOutputFileInfo`] holds.
pub struct OutputInfoView {
    pub input_hash: Seq<u8>,
    pub compression_opts: Seq<char>,
    pub output_hash: Seq<u8>,
    pub output_modified: int,
}

impl View for CachedOutputFileInfo {
    type V = OutputInfoView;

    open spec fn view(&self) -> OutputInfoView {
        OutputInfoView {
            input_hash: self.input_hash.digest(),
            compression_opts: self.compression_opts@,
            output_hash: self.output_hash.digest(),
            output_modified: self.output_modified.moment(),
        }
    }
}

/// The columns of a row that holds what is known of an output file.
#[derive(Debug)]
pub struct OutputRow {
    pub input_hash: ColumnValue,
    pub hash: ColumnValue,
    pub compression_options: ColumnValue,
    pub modified_time: ColumnValue,
}

/// What an [`OutputRow`] holds.
pub struct OutputRowView {
    pub input_hash: ColumnView,
    pub hash: ColumnView,
    pub compression_options: ColumnView,
    pub modified_time: ColumnView,
}

impl View for OutputRow {
    type V = OutputRowView;

    open spec fn view(&self) -> OutputRowView {
        OutputRowView {
            input_hash: self.input_hash@,
            hash: self.hash@,
            compression_options: self.compression_options@,
            modified_time: self.modified_time@,
        }
    }
}

impl OutputRowView {
    /// What the row holds, or the first column that stands in the way.
    pub open spec fn content(self) -> Result<OutputInfoView, RowErrorView> {
        match Checksum::in_column(self.input_hash) {
            Err(error) => Err(RowErrorView { column: "input_hash"@, error }),
            Ok(input_hash) => match Checksum::in_column(self.hash) {
                Err(error) => Err(RowErrorView { column: "hash"@, error }),
                Ok(output_hash) => match json_in_column(self.compression_options) {
                    Err(error) => Err(RowErrorView { column: "compression_options"@, error }),
                    Ok(compression_opts) => match FileModificationTime::in_column(
                        self.modified_time,
                    ) {
                        Err(error) => Err(RowErrorView { column: "modified_time"@, error }),
                        Ok(output_modified) => Ok(
                            OutputInfoView {
                                input_hash,
                                compression_opts,
                                output_hash,
                                output_modified,
                            },
                        ),
                    },
                },
            },
        }
    }
}

impl OutputRow {
    /// Read what the row holds.
    pub fn read(&self) -> (r: Result<CachedOutputFileInfo, RowError>)
        ensures
            match r {
                Ok(info) => self@.content() == Ok::<OutputInfoView, RowErrorView>(info@),
                Err(e) => self@.content() == Err::<OutputInfoView, RowErrorView>(e@),
            },
    {
        let input_hash = match Checksum::column_result(&self.input_hash) {
            Ok(hash) => hash,
            Err(error) => return Err(RowError { column: "input_hash", error }),
        };
        let output_hash = match Checksum::column_result(&self.hash) {
            Ok(hash) => hash,
            Err(error) => return Err(RowError { column: "hash", error }),
        };
        let compression_opts = match json_column_result(&self.compression_options) {
            Ok(text) => text,
            Err(error) => return Err(RowError { column: "compression_options", error }),
        };
        let output_modified = match FileModificationTime::column_result(&self.modified_time) {
            Ok(time) => time,
            Err(error) => return Err(RowError { column: "modified_time", error }),
        };
        Ok(CachedOutputFileInfo { input_hash, compression_opts, output_hash, output_modified })
    }
}

/// A hash is read from a row if and only if both columns hold what they should, and it is what
/// they hold. Otherwise the error names the first column that does not.
pub proof fn hash_rows_hold_hash_and_time(row: HashRow, r: Result<CachedHash, RowError>)
    requires
        call_ensures(HashRow::read, (&row,), r),
    ensures
        r is Ok <==> FileModificationTime::in_column(row.modified_time@) is Ok
            && Checksum::in_column(row.hash@) is Ok,
        r matches Ok(cached) ==> {
            &&& FileModificationTime::in_column(row.modified_time@) == Ok::<int, ColumnError>(
                cached.timestamp.moment(),
            )
            &&& Checksum::in_column(row.hash@) == Ok::<Seq<u8>, ColumnError>(cached.hash.digest())
        },
        r matches Err(e) ==> if FileModificationTime::in_column(row.modified_time@) is Err {
            &&& e.column@ == "modified_time"@
            &&& FileModificationTime::in_column(row.modified_time@) == Err::<int, ColumnError>(
                e.error,
            )
        } else {
            &&& e.column@ == "hash"@
            &&& Checksum::in_column(row.hash@) == Err::<Seq<u8>, ColumnError>(e.error)
        },
{
}

/// What is known of an output file is read from a row if and only if all columns hold what they
/// should, and it is what they hold.
pub proof fn output_rows_hold_what_is_known(
    row: OutputRow,
    r: Result<CachedOutputFileInfo, RowError>,
)
    requires
        call_ensures(OutputRow::read, (&row,), r),
    ensures
        r is Ok <==> Checksum::in_column(row.input_hash@) is Ok && Checksum::in_column(row.hash@)
            is Ok && json_in_column(row.compression_options@) is Ok
            && FileModificationTime::in_column(row.modified_time@) is Ok,
        r matches Ok(info) ==> {
            &&& Checksum::in_column(row.input_hash@) == Ok::<Seq<u8>, ColumnError>(
                info.input_hash.digest(),
            )
            &&& Checksum::in_column(row.hash@) == Ok::<Seq<u8>, ColumnError>(
                info.output_hash.digest(),
            )
            &&& json_in_column(row.compression_options@) == Ok::<Seq<char>, ColumnError>(
                info.compression_opts@,
            )
            &&& FileModificationTime::in_column(row.modified_time@) == Ok::<int, ColumnError>(
                info.output_modified.moment(),
            )
        },
        r matches Err(e) ==> {
            ||| e.column@ == "input_hash"@ && Checksum::in_column(row.input_hash@) == Err::<
                Seq<u8>,
                ColumnError,
            >(e.error)
            ||| e.column@ == "hash"@ && Checksum::in_column(row.hash@) == Err::<
                Seq<u8>,
                ColumnError,
            >(e.error)
            ||| e.column@ == "compression_options"@ && json_in_column(row.compression_options@)
                == Err::<Seq<char>, ColumnError>(e.error)
            ||| e.column@ == "modified_time"@ && FileModificationTime::in_column(row.modified_time@)
                == Err::<int, ColumnError>(e.error)
        },
{
}

} // verus!
