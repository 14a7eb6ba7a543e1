//! When files were modified.
use vstd::prelude::*;
use vstd::utf8::encode_utf8;
use crate::cache::{text_column_round_trip, ColumnError, ColumnValue, ColumnView};
use crate::text::{
    contained_in_longer, contains_text, part_is_contained, signed_decimal, signed_decimal_of,
};

verus! {

/// A second has this many nanoseconds.
pub const NANOS_PER_SECOND: i128 = 1_000_000_000;

/// The first second that a timestamp can name: the start of the year -9999.
pub const FIRST_SECOND: i64 = -377_705_116_800;

/// The last second that a timestamp can name: the end of the year 9999.
pub const LAST_SECOND: i64 = 253_402_300_799;

/// The first second of the year 0, before which a time has no ISO 8601 notation.
pub const FIRST_WRITABLE_SECOND: i64 = -62_167_219_200;

/// A timestamp can name this moment.
pub open spec fn is_timestamp(nanos: int) -> bool {
    FIRST_SECOND * NANOS_PER_SECOND <= nanos < (LAST_SECOND + 1) * NANOS_PER_SECOND
}

/// The ISO 8601 notation of a moment, with date, time and offset.
pub uninterp spec fn iso8601_text(nanos: int) -> Seq<char>;

/// The moment that a text in ISO 8601 notation names when it is read as a time in UTC,
/// or `None` where it names none.
pub uninterp spec fn utc_moment(text: Seq<char>) -> Option<int>;

/// The moment that a text in ISO 8601 notation names when it is read as a time with an offset,
/// or `None` where it names none, or one that a timestamp cannot name.
pub uninterp spec fn offset_moment(text: Seq<char>) -> Option<int>;

/// A sign follows a `T`: the time has an offset other than `Z`, if these are the bytes of a time.
pub open spec fn has_numeric_offset(bytes: Seq<u8>) -> bool {
    exists|i: int, j: int|
        0 <= i < j < bytes.len() && #[trigger] bytes[i] == 0x54 && is_sign(#[trigger] bytes[j])
}

/// The byte is that of a plus or a minus sign.
pub open spec fn is_sign(byte: u8) -> bool {
    byte == 0x2b || byte == 0x2d
}

/// The moment that a text in ISO 8601 notation names, or `None` where it names none.
/// Without an offset it is a time in UTC.
pub open spec fn iso8601_moment(text: Seq<char>) -> Option<int> {
    if has_numeric_offset(encode_utf8(text)) {
        offset_moment(text)
    } else {
        utc_moment(text)
    }
}

/// The number that a blob of 16 bytes holds: big endian, and with the sign bit turned over,
/// so that the order of the bytes is that of the numbers.
pub open spec fn blob_number(bytes: Seq<u8>) -> int {
    be_number(bytes) - 0x8000_0000_0000_0000_0000_0000_0000_0000int
}

/// The big endian number in some bytes.
pub open spec fn be_number(bytes: Seq<u8>) -> int
    decreases bytes.len(),
{
    if bytes.len() == 0 {
        0
    } else {
        256 * be_number(bytes.drop_last()) + bytes.last()
    }
}

/// A timestamp can have these seconds, and nanoseconds past them.
pub open spec fn parts_in_range(seconds: i64, nanoseconds: u32) -> bool {
    FIRST_SECOND <= seconds <= LAST_SECOND && nanoseconds < NANOS_PER_SECOND
}

/// The part of a timestamp that is to blame when it is out of range.
pub open spec fn offending_part(seconds: i64) -> Seq<char> {
    if FIRST_SECOND <= seconds <= LAST_SECOND {
        "nanoseconds"@
    } else {
        "seconds"@
    }
}

/// Calls [`time::Timestamp::new`]: seconds and nanoseconds both have to be in range,
/// and the one that is not is named, the seconds first.
#[verifier::external_body]
fn timestamp_of_parts(seconds: i64, nanoseconds: u32) -> (r: Result<i128, &'static str>)
    ensures
        r is Ok <==> parts_in_range(seconds, nanoseconds),
        r matches Ok(nanos) ==> nanos == seconds * NANOS_PER_SECOND + nanoseconds,
        r matches Err(name) ==> name@ == offending_part(seconds),
{
    time::Timestamp::new(seconds, nanoseconds).map(|t| t.as_nanoseconds()).map_err(|e| e.name())
}

/// Calls [`time::Timestamp::from_nanoseconds`]: the moment has to be in range.
#[verifier::external_body]
fn timestamp_of_nanos(nanos: i128) -> (r: Option<i128>)
    ensures
        r is Some <==> is_timestamp(nanos as int),
        r matches Some(t) ==> t == nanos,
{
    time::Timestamp::from_nanoseconds(nanos).ok().map(|t| t.as_nanoseconds())
}

/// Calls [`time::Timestamp::format`] with the format `Iso8601::DATE_TIME_OFFSET`.
///
/// The text is named; besides it is claimed that it ends in `Z` rather than a numeric offset, and
/// that it names the moment again, since the format writes all nine digits of the nanoseconds.
/// Years before 0 do not have four digits and cannot be written.
#[verifier::external_body]
fn write_iso8601(nanos: i128) -> (r: String)
    requires
        is_timestamp(nanos as int),
        nanos >= FIRST_WRITABLE_SECOND * NANOS_PER_SECOND,
    ensures
        r@ == iso8601_text(nanos as int),
        !has_numeric_offset(encode_utf8(r@)),
        utc_moment(r@) == Some(nanos as int),
{
    let format = time::format_description::well_known::Iso8601::DATE_TIME_OFFSET;
    let timestamp = time::Timestamp::from_nanoseconds(nanos).expect("checked range");
    timestamp.format(&format).expect("time format error")
}

/// Calls [`time::UtcDateTime::parse`] with the format `Iso8601::DATE_TIME_OFFSET`.
///
/// The moment is named; besides it is claimed that it is one that a timestamp can name.
/// A numeric offset could move the moment out of range, on which the call panics.
#[verifier::external_body]
fn read_utc(text: &str) -> (r: Option<i128>)
    requires
        !has_numeric_offset(encode_utf8(text@)),
    ensures
        r is Some <==> utc_moment(text@) is Some,
        r matches Some(nanos) ==> utc_moment(text@) == Some(nanos as int),
        r matches Some(nanos) ==> is_timestamp(nanos as int),
{
    let format = time::format_description::well_known::Iso8601::DATE_TIME_OFFSET;
    let date = time::UtcDateTime::parse(text, &format).ok()?;
    Some(time::Timestamp::from(date).as_nanoseconds())
}

/// Calls [`time::OffsetDateTime::parse`] with the format `Iso8601::DATE_TIME_OFFSET`, and
/// [`time::OffsetDateTime::checked_to_utc`] on what comes out.
///
/// The moment is named; besides it is claimed that it is one that a timestamp can name.
#[verifier::external_body]
fn read_with_offset(text: &str) -> (r: Option<i128>)
    ensures
        r is Some <==> offset_moment(text@) is Some,
        r matches Some(nanos) ==> offset_moment(text@) == Some(nanos as int),
        r matches Some(nanos) ==> is_timestamp(nanos as int),
{
    let format = time::format_description::well_known::Iso8601::DATE_TIME_OFFSET;
    let date = time::OffsetDateTime::parse(text, &format).ok()?.checked_to_utc()?;
    Some(time::Timestamp::from(date).as_nanoseconds())
}

/// Whether a sign follows a `T`.
fn numeric_offset(bytes: &[u8]) -> (r: bool)
    ensures
        r == has_numeric_offset(bytes@),
{
    let mut seen: bool = false;
    let mut k: usize = 0;
    while k < bytes.len()
        invariant
            k <= bytes@.len(),
            seen <==> exists|i: int| 0 <= i < k && #[trigger] bytes@[i] == 0x54,
            forall|i: int, j: int|
                0 <= i < j < k && #[trigger] bytes@[i] == 0x54 ==> !is_sign(#[trigger] bytes@[j]),
        decreases bytes@.len() - k,
    {
        let byte: u8 = bytes[k];
        if seen && (byte == 0x2b || byte == 0x2d) {
            assert(is_sign(bytes@[k as int]));
            return true;
        }
        if byte == 0x54 {
            seen = true;
            assert(bytes@[k as int] == 0x54);
        }
        k += 1;
    }
    false
}

/// Read a time in ISO 8601 notation.
fn read_iso8601(text: &str) -> (r: Option<i128>)
    ensures
        match r {
            Some(nanos) => iso8601_moment(text@) == Some(nanos as int) && is_timestamp(
                nanos as int,
            ),
            None => iso8601_moment(text@) is None,
        },
{
    if numeric_offset(text.as_bytes()) {
        read_with_offset(text)
    } else {
        read_utc(text)
    }
}

/// Calls the `FromSql` impl of `i128` in [`rusqlite`] on a blob: it takes 16 bytes.
#[verifier::external_body]
fn blob_i128(bytes: &[u8]) -> (r: Option<i128>)
    ensures
        r is Some <==> bytes@.len() == 16,
        r matches Some(n) ==> n == blob_number(bytes@),
{
    rusqlite::types::FromSql::column_result(rusqlite::types::ValueRef::Blob(bytes)).ok()
}

/// A timestamp of when a certain file was modified.
///
/// On unix this is the time at which the file changed (ctime), which is set by the kernel and
/// cannot be set by users. False positive changes are fine as hashes are compared then.
#[derive(Copy, Clone, Debug, PartialEq, Eq, Structural)]
pub struct FileModificationTime {
    nanos: i128,
}

/// Why the system's idea of when a file changed is no timestamp.
pub open spec fn invalid_ctime(seconds: int, nanoseconds: int) -> Option<Seq<char>> {
    let prefix = "ctime ("@ + signed_decimal_of(seconds) + ", "@ + signed_decimal_of(nanoseconds)
        + ") is not valid: "@;
    if !(0 <= nanoseconds <= u32::MAX) {
        Some(prefix + "nanoseconds don't fit in u32"@)
    } else if !(FIRST_SECOND <= seconds <= LAST_SECOND) {
        Some(prefix + "seconds"@ + " was not in range"@)
    } else if nanoseconds >= NANOS_PER_SECOND {
        Some(prefix + "nanoseconds"@ + " was not in range"@)
    } else {
        None
    }
}

impl FileModificationTime {
    /// The moment, in nanoseconds since the start of 1970.
    pub closed spec fn moment(self) -> int {
        self.nanos as int
    }

    #[verifier::type_invariant]
    spec fn well_formed(self) -> bool {
        is_timestamp(self.nanos as int)
    }

    /// The time has an ISO 8601 notation.
    pub open spec fn writable(self) -> bool {
        self.moment() >= FIRST_WRITABLE_SECOND * NANOS_PER_SECOND
    }

    /// Two times at the same moment are the same time.
    pub proof fn determined_by_moment(a: FileModificationTime, b: FileModificationTime)
        requires
            a.moment() == b.moment(),
        ensures
            a == b,
    {
    }

    /// The moment that a column holds, or why it holds none.
    ///
    /// Text holds a moment in ISO 8601 notation. A blob, which old databases have,
    /// holds the nanoseconds.
    pub open spec fn in_column(value: ColumnView) -> Result<int, ColumnError> {
        match value {
            ColumnView::Blob(bytes) => if bytes.len() != 16 {
                Err(ColumnError::InvalidBlobSize)
            } else if is_timestamp(blob_number(bytes)) {
                Ok(blob_number(bytes))
            } else {
                Err(ColumnError::TimeOutOfRange)
            },
            ColumnView::Text(_) => match value.text() {
                Ok(text) => match iso8601_moment(text) {
                    Some(nanos) => Ok(nanos),
                    None => Err(ColumnError::InvalidTime),
                },
                Err(e) => Err(e),
            },
            _ => Err(ColumnError::InvalidType),
        }
    }

    /// Read a time from a column of the database.
    pub fn column_result(value: &ColumnValue) -> (r: Result<Self, ColumnError>)
        ensures
            match r {
                Ok(time) => Self::in_column(value@) == Ok::<int, ColumnError>(time.moment()),
                Err(e) => Self::in_column(value@) == Err::<int, ColumnError>(e),
            },
    {
        match value {
            ColumnValue::Blob(bytes) => {
                // old version
                let nanos: i128 = match blob_i128(bytes.as_slice()) {
                    Some(nanos) => nanos,
                    None => return Err(ColumnError::InvalidBlobSize),
                };
                match timestamp_of_nanos(nanos) {
                    Some(nanos) => Ok(FileModificationTime { nanos }),
                    None => Err(ColumnError::TimeOutOfRange),
                }
            },
            ColumnValue::Text(_) => {
                let text = value.as_str()?;
                match read_iso8601(text) {
                    Some(nanos) => Ok(FileModificationTime { nanos }),
                    None => Err(ColumnError::InvalidTime),
                }
            },
            _ => Err(ColumnError::InvalidType),
        }
    }

    /// Write a time in ISO 8601 notation.
    pub fn to_text(&self) -> (r: String)
        requires
            self.writable(),
        ensures
            r@ == iso8601_text(self.moment()),
    {
        proof {
            use_type_invariant(self);
        }
        write_iso8601(self.nanos)
    }

    /// Whether the time has an ISO 8601 notation.
    pub fn is_writable(&self) -> (r: bool)
        ensures
            r == self.writable(),
    {
        self.nanos >= -62_167_219_200_000_000_000
    }

    /// Write a time to a column of the database. It can be read again.
    pub fn to_sql(&self) -> (r: ColumnValue)
        requires
            self.writable(),
        ensures
            r@ == ColumnView::of_text(iso8601_text(self.moment())),
            Self::in_column(r@) == Ok::<int, ColumnError>(self.moment()),
    {
        proof {
            use_type_invariant(self);
        }
        let text = write_iso8601(self.nanos);
        proof {
            text_column_round_trip(text@);
        }
        ColumnValue::from_text(text.as_str())
    }

    /// The timestamp for when the file was modified, in nanoseconds since the start of 1970.
    pub fn to_timestamp(&self) -> (r: i128)
        ensures
            r == self.moment(),
            is_timestamp(r as int),
    {
        proof {
            use_type_invariant(self);
        }
        self.nanos
    }

    /// The time that lies this many nanoseconds after the start of 1970.
    pub fn from_timestamp(nanos: i128) -> (r: Option<Self>)
        ensures
            r is Some <==> is_timestamp(nanos as int),
            r matches Some(time) ==> time.moment() == nanos,
    {
        match timestamp_of_nanos(nanos) {
            Some(nanos) => Some(FileModificationTime { nanos }),
            None => None,
        }
    }

    /// The time that the metadata of a file gives, or a message why there is none.
    pub fn for_meta(seconds: i64, nanoseconds: i64) -> (r: Result<Self, String>)
        ensures
            r is Ok <==> invalid_ctime(seconds as int, nanoseconds as int) is None,
            r matches Ok(time) ==> time.moment() == seconds * NANOS_PER_SECOND + nanoseconds,
            r matches Err(message) ==> invalid_ctime(seconds as int, nanoseconds as int) == Some(
                message@,
            ),
    {
        let mut message = "ctime (".to_owned();
        message.append(signed_decimal(seconds).as_str());
        message.append(", ");
        message.append(signed_decimal(nanoseconds).as_str());
        message.append(") is not valid: ");
        if nanoseconds < 0 || nanoseconds > u32::MAX as i64 {
            message.append("nanoseconds don't fit in u32");
            return Err(message);
        }
        match timestamp_of_parts(seconds, nanoseconds as u32) {
            Ok(nanos) => Ok(FileModificationTime { nanos }),
            Err(name) => {
                message.append(name);
                message.append(" was not in range");
                Err(message)
            },
        }
    }
}

/// The times that the metadata of files can give are those whose seconds lie in the years from
/// -9999 to 9999 and whose nanoseconds make up less than a second, and different metadata gives
/// different times.
pub proof fn metadata_gives_the_moment(
    seconds: i64,
    nanoseconds: i64,
    r: Result<FileModificationTime, String>,
    other_seconds: i64,
    other_nanoseconds: i64,
    other: Result<FileModificationTime, String>,
)
    requires
        call_ensures(FileModificationTime::for_meta, (seconds, nanoseconds), r),
        call_ensures(FileModificationTime::for_meta, (other_seconds, other_nanoseconds), other),
    ensures
        r is Ok <==> -377_705_116_800 <= seconds <= 253_402_300_799 && 0 <= nanoseconds
            < 1_000_000_000,
        r matches Ok(time) ==> time.moment() == seconds * 1_000_000_000 + nanoseconds,
        r is Ok && other is Ok && (seconds, nanoseconds) != (other_seconds, other_nanoseconds)
            ==> r->Ok_0.moment() != other->Ok_0.moment(),
{
}

/// The nanoseconds of a timestamp are those that it was made of.
pub proof fn timestamp_round_trip(nanos: i128, time: Option<FileModificationTime>, again: i128)
    requires
        call_ensures(FileModificationTime::from_timestamp, (nanos,), time),
        time matches Some(time) ==> call_ensures(
            FileModificationTime::to_timestamp,
            (&time,),
            again,
        ),
    ensures
        time is Some <==> -377_705_116_800_000_000_000 <= nanos < 253_402_300_800_000_000_000,
        time is Some ==> again == nanos,
{
}

/// A time that was written to a column is the one that is read from there.
pub proof fn time_column_round_trip(
    time: FileModificationTime,
    value: ColumnValue,
    r: Result<FileModificationTime, ColumnError>,
)
    requires
        call_ensures(FileModificationTime::to_sql, (&time,), value),
        call_ensures(FileModificationTime::column_result, (&value,), r),
    ensures
        r == Ok::<FileModificationTime, ColumnError>(time),
{
    if let Ok(read) = r {
        FileModificationTime::determined_by_moment(time, read);
    }
}

/// A time is read from a text that names it, with an offset or in UTC, or from a blob of
/// 16 bytes that holds its nanoseconds. Nothing else holds a time.
pub proof fn times_are_texts_or_blobs(
    value: ColumnValue,
    r: Result<FileModificationTime, ColumnError>,
)
    requires
        call_ensures(FileModificationTime::column_result, (&value,), r),
    ensures
        value is Null || value is Integer || value is Real ==> r == Err::<
            FileModificationTime,
            ColumnError,
        >(ColumnError::InvalidType),
        value matches ColumnValue::Blob(bytes) ==> (r is Ok <==> bytes@.len() == 16
            && -377_705_116_800_000_000_000 <= blob_number(bytes@)
            < 253_402_300_800_000_000_000),
        value matches ColumnValue::Blob(bytes) ==> (r matches Ok(time) ==> time.moment()
            == blob_number(bytes@)),
        value@.text() matches Ok(text) ==> (r matches Ok(time) ==> Some(time.moment()) == if (
        exists|i: int, j: int|
            0 <= i < j < encode_utf8(text).len() && #[trigger] encode_utf8(text)[i] == 0x54 && (
            #[trigger] encode_utf8(text)[j] == 0x2b || encode_utf8(text)[j] == 0x2d)) {
            offset_moment(text)
        } else {
            utc_moment(text)
        }),
        value@.text() matches Ok(text) ==> (offset_moment(text) is Some && utc_moment(text) is Some
            ==> r is Ok),
{
    if let Ok(text) = value@.text() {
        let bytes = encode_utf8(text);
        if exists|i: int, j: int|
            0 <= i < j < bytes.len() && #[trigger] bytes[i] == 0x54 && (#[trigger] bytes[j] == 0x2b
                || bytes[j] == 0x2d) {
            let (i, j) = choose|i: int, j: int|
                0 <= i < j < bytes.len() && #[trigger] bytes[i] == 0x54 && (#[trigger] bytes[j]
                    == 0x2b || bytes[j] == 0x2d);
            assert(is_sign(bytes[j]));
        }
    }
}

/// The times that have a notation are those from the start of the year 0 on.
pub proof fn times_from_the_year_zero_are_writable(time: FileModificationTime, r: bool)
    requires
        call_ensures(FileModificationTime::is_writable, (&time,), r),
    ensures
        r <==> time.moment() >= -62_167_219_200_000_000_000,
{
}

/// The message about metadata that gives no time shows what it gives.
pub proof fn invalid_metadata_is_shown(
    seconds: i64,
    nanoseconds: i64,
    r: Result<FileModificationTime, String>,
)
    requires
        call_ensures(FileModificationTime::for_meta, (seconds, nanoseconds), r),
    ensures
        r matches Err(message) ==> contains_text(message@, signed_decimal_of(seconds as int))
            && contains_text(message@, signed_decimal_of(nanoseconds as int)),
{
    if let Err(message) = r {
        let s = signed_decimal_of(seconds as int);
        let n = signed_decimal_of(nanoseconds as int);
        let start = "ctime ("@ + s + ", "@;
        let prefix = start + n + ") is not valid: "@;
        part_is_contained("ctime ("@, s, ", "@);
        contained_in_longer(start, s, n);
        contained_in_longer(start + n, s, ") is not valid: "@);
        part_is_contained(start, n, ") is not valid: "@);
        let end = if !(0 <= nanoseconds <= u32::MAX) {
            "nanoseconds don't fit in u32"@
        } else if !(FIRST_SECOND <= seconds <= LAST_SECOND) {
            "seconds"@ + " was not in range"@
        } else {
            "nanoseconds"@ + " was not in range"@
        };
        assert(message@ =~= prefix + end);
        contained_in_longer(prefix, s, end);
        contained_in_longer(prefix, n, end);
    }
}

} // verus!
