//! The values that the cache database holds.
use vstd::prelude::*;
use vstd::string::StrSliceExecFns;
use vstd::utf8::{
    decode_utf8, encode_utf8, encode_utf8_decode_utf8, encode_utf8_valid_utf8, valid_utf8,
};

verus! {

/// A value in a column of a database row.
#[derive(Debug)]
pub enum ColumnValue {
    Null,
    Integer(i64),
    /// A floating point number in JSON notation, which exists for the finite ones only.
    Real(Option<String>),
    /// Text, which may fail to be UTF-8.
    Text(Vec<u8>),
    Blob(Vec<u8>),
}

/// Why a value of a column cannot be used.
#[derive(Debug)]
pub enum ColumnError {
    /// The column holds a value of another type.
    InvalidType,
    /// The text is not UTF-8.
    InvalidUtf8,
    /// The text is not a checksum.
    InvalidChecksum,
    /// The blob does not have the size of the value that it should hold.
    InvalidBlobSize,
    /// The time is out of range.
    TimeOutOfRange,
    /// The text is not a time.
    InvalidTime,
    /// The text is not JSON.
    InvalidJson,
}

/// What a [`ColumnValue`] holds.
pub enum ColumnView {
    Null,
    Integer(int),
    Real(Option<Seq<char>>),
    Text(Seq<u8>),
    Blob(Seq<u8>),
}

impl View for ColumnValue {
    type V = ColumnView;

    open spec fn view(&self) -> ColumnView {
        match self {
            ColumnValue::Null => ColumnView::Null,
            ColumnValue::Integer(n) => ColumnView::Integer(*n as int),
            ColumnValue::Real(Some(notation)) => ColumnView::Real(Some(notation@)),
            ColumnValue::Real(None) => ColumnView::Real(None),
            ColumnValue::Text(bytes) => ColumnView::Text(bytes@),
            ColumnValue::Blob(bytes) => ColumnView::Blob(bytes@),
        }
    }
}

impl ColumnView {
    /// The value that holds a text.
    pub open spec fn of_text(text: Seq<char>) -> ColumnView {
        ColumnView::Text(encode_utf8(text))
    }

    /// The text that the value holds, or why it holds none.
    pub open spec fn text(self) -> Result<Seq<char>, ColumnError> {
        match self {
            ColumnView::Text(bytes) => if valid_utf8(bytes) {
                Ok(decode_utf8(bytes))
            } else {
                Err(ColumnError::InvalidUtf8)
            },
            _ => Err(ColumnError::InvalidType),
        }
    }
}

/// A text that was written to a column can be read again.
pub proof fn text_column_round_trip(text: Seq<char>)
    ensures
        ColumnView::of_text(text).text() == Ok::<Seq<char>, ColumnError>(text),
{
    encode_utf8_valid_utf8(text);
    encode_utf8_decode_utf8(text);
}

impl ColumnValue {
    /// Read the value as text.
    pub fn as_str(&self) -> (r: Result<&str, ColumnError>)
        ensures
            match r {
                Ok(text) => self@.text() == Ok::<Seq<char>, ColumnError>(text@),
                Err(e) => self@.text() == Err::<Seq<char>, ColumnError>(e),
            },
    {
        match self {
            ColumnValue::Text(bytes) => match text_of_bytes(bytes.as_slice()) {
                Some(text) => Ok(text),
                None => Err(ColumnError::InvalidUtf8),
            },
            _ => Err(ColumnError::InvalidType),
        }
    }

    /// Make a value of a text.
    pub fn from_text(text: &str) -> (r: Self)
        ensures
            r@ == ColumnView::of_text(text@),
    {
        ColumnValue::Text(text.as_bytes_vec())
    }
}

/// Calls [`rusqlite::types::ValueRef::as_str`] on text: it is handed out if and only if
/// the bytes are UTF-8, and it is the text that they encode.
#[verifier::external_body]
fn text_of_bytes(bytes: &[u8]) -> (r: Option<&str>)
    ensures
        r is Some <==> valid_utf8(bytes@),
        r matches Some(text) ==> text@ == decode_utf8(bytes@),
{
    rusqlite::types::ValueRef::Text(bytes).as_str().ok()
}

/// A value is read as text if and only if it is text in UTF-8, and it is that text.
pub proof fn only_utf8_is_text(value: ColumnValue, r: Result<&str, ColumnError>)
    requires
        call_ensures(ColumnValue::as_str, (&value,), r),
    ensures
        match value {
            ColumnValue::Text(bytes) => if valid_utf8(bytes@) {
                r matches Ok(text) && text@ == decode_utf8(bytes@)
            } else {
                r matches Err(e) && e is InvalidUtf8
            },
            _ => r matches Err(e) && e is InvalidType,
        },
{
}

} // verus!
