//! Checksums of files.
use vstd::prelude::*;
use crate::cache::{text_column_round_trip, ColumnError, ColumnValue, ColumnView};

verus! {

/// How many bytes a checksum has.
pub const CHECKSUM_LEN: usize = 32;

/// The blake3 hash of some bytes.
pub uninterp spec fn blake3_digest(data: Seq<u8>) -> Seq<u8>;

/// The value of a hexadecimal digit, of either case.
pub open spec fn hex_value(c: char) -> Option<int> {
    if '0' <= c && c <= '9' {
        Some(c as int - '0' as int)
    } else if 'a' <= c && c <= 'f' {
        Some(c as int - 'a' as int + 10)
    } else if 'A' <= c && c <= 'F' {
        Some(c as int - 'A' as int + 10)
    } else {
        None
    }
}

/// The lower case hexadecimal digit of a value.
pub open spec fn hex_char(value: int) -> char {
    if value < 10 {
        (value + '0' as int) as char
    } else {
        (value - 10 + 'a' as int) as char
    }
}

/// The text of a checksum with these bytes: two digits for each byte, the higher one first.
pub open spec fn digest_text(digest: Seq<u8>) -> Seq<char> {
    Seq::new(
        2 * digest.len(),
        |i: int|
            if i % 2 == 0 {
                hex_char(digest[i / 2] as int / 16)
            } else {
                hex_char(digest[i / 2] as int % 16)
            },
    )
}

/// The text is that of a checksum: digits of either case, and as many as it takes.
pub open spec fn is_digest_text(text: Seq<char>) -> bool {
    &&& text.len() == 2 * CHECKSUM_LEN
    &&& forall|i: int| 0 <= i < text.len() ==> hex_value(#[trigger] text[i]) is Some
}

/// The bytes of the checksum that a text stands for.
pub open spec fn digest_of_text(text: Seq<char>) -> Seq<u8> {
    Seq::new(
        CHECKSUM_LEN as nat,
        |i: int| (16 * hex_value(text[2 * i])->0 + hex_value(text[2 * i + 1])->0) as u8,
    )
}

/// The text of a checksum stands for that checksum.
pub proof fn digest_text_round_trip(digest: Seq<u8>)
    requires
        digest.len() == CHECKSUM_LEN,
    ensures
        is_digest_text(digest_text(digest)),
        digest_of_text(digest_text(digest)) == digest,
{
    let text = digest_text(digest);
    assert forall|i: int| 0 <= i < 32 implies digest_of_text(text)[i] == digest[i] by {
        assert(text[2 * i] == hex_char(digest[i] as int / 16));
        assert(text[2 * i + 1] == hex_char(digest[i] as int % 16));
    }
    assert(digest_of_text(text) =~= digest);
}

/// Feeds `data` to a [`blake3::Hasher`] and finalizes it.
///
/// The hash is named; besides it is claimed that it has 32 bytes.
#[verifier::external_body]
fn blake3_hash(data: &[u8]) -> (r: [u8; 32])
    ensures
        r@ == blake3_digest(data@),
{
    let mut hasher = blake3::Hasher::new();
    hasher.update(data);
    hasher.finalize().into()
}

/// Calls the `FromStr` impl of [`blake3::Hash`]: it takes 64 hexadecimal digits of either case.
#[verifier::external_body]
fn parse_digest(text: &str) -> (r: Option<[u8; 32]>)
    ensures
        r is Some <==> is_digest_text(text@),
        r matches Some(digest) ==> digest@ == digest_of_text(text@),
{
    text.parse::<blake3::Hash>().ok().map(Into::into)
}

/// Calls the `Display` impl of [`blake3::Hash`]: it writes lower case hexadecimal digits.
#[verifier::external_body]
fn write_digest(digest: [u8; 32]) -> (r: String)
    ensures
        r@ == digest_text(digest@),
{
    blake3::Hash::from(digest).to_string()
}

/// The checksum of the contents of a file.
#[derive(Copy, Clone, Debug, Eq)]
pub struct Checksum([u8; 32]);

impl PartialEq for Checksum {
    fn eq(&self, other: &Self) -> (r: bool) {
        let mut i: usize = 0;
        while i < 32
            invariant
                i <= 32,
                forall|j: int| 0 <= j < i ==> self.0@[j] == other.0@[j],
            decreases 32 - i,
        {
            if self.0[i] != other.0[i] {
                return false;
            }
            i += 1;
        }
        assert(self.0@ =~= other.0@);
        true
    }
}

impl vstd::std_specs::cmp::PartialEqSpecImpl for Checksum {
    open spec fn obeys_eq_spec() -> bool {
        true
    }

    open spec fn eq_spec(&self, other: &Self) -> bool {
        self.digest() == other.digest()
    }
}

impl Checksum {
    /// The bytes of the checksum.
    pub closed spec fn digest(self) -> Seq<u8> {
        self.0@
    }

    /// The checksum that a column holds, or why it holds none.
    pub open spec fn in_column(value: ColumnView) -> Result<Seq<u8>, ColumnError> {
        match value.text() {
            Ok(text) => if is_digest_text(text) {
                Ok(digest_of_text(text))
            } else {
                Err(ColumnError::InvalidChecksum)
            },
            Err(e) => Err(e),
        }
    }

    /// The checksum of these contents.
    pub fn of_contents(contents: &[u8]) -> (r: Self)
        ensures
            r.digest() == blake3_digest(contents@),
            r.digest().len() == CHECKSUM_LEN,
    {
        Checksum(blake3_hash(contents))
    }

    /// Read a checksum from a column of the database.
    pub fn column_result(value: &ColumnValue) -> (r: Result<Self, ColumnError>)
        ensures
            match r {
                Ok(checksum) => Self::in_column(value@) == Ok::<Seq<u8>, ColumnError>(
                    checksum.digest(),
                ) && checksum.digest().len() == CHECKSUM_LEN,
                Err(e) => Self::in_column(value@) == Err::<Seq<u8>, ColumnError>(e),
            },
    {
        let text = value.as_str()?;
        match parse_digest(text) {
            Some(digest) => Ok(Checksum(digest)),
            None => Err(ColumnError::InvalidChecksum),
        }
    }

    /// Write a checksum as text.
    pub fn to_text(&self) -> (r: String)
        ensures
            r@ == digest_text(self.digest()),
    {
        write_digest(self.0)
    }

    /// Write a checksum to a column of the database. It can be read again.
    pub fn to_sql(&self) -> (r: ColumnValue)
        ensures
            r@ == ColumnView::of_text(digest_text(self.digest())),
            Self::in_column(r@) == Ok::<Seq<u8>, ColumnError>(self.digest()),
    {
        proof {
            digest_text_round_trip(self.digest());
            text_column_round_trip(digest_text(self.digest()));
        }
        ColumnValue::from_text(self.to_text().as_str())
    }
}

/// A checksum that was written to a column is the one that is read from there.
pub proof fn checksum_column_round_trip(
    checksum: Checksum,
    value: ColumnValue,
    r: Result<Checksum, ColumnError>,
)
    requires
        call_ensures(Checksum::to_sql, (&checksum,), value),
        call_ensures(Checksum::column_result, (&value,), r),
    ensures
        r matches Ok(read) && read.digest() == checksum.digest(),
{
}

/// The checksum of some contents is their blake3 hash, and it reads as such from its text.
pub proof fn checksums_are_blake3_hashes(contents: &[u8], checksum: Checksum, text: String)
    requires
        call_ensures(Checksum::of_contents, (contents,), checksum),
        call_ensures(Checksum::to_text, (&checksum,), text),
    ensures
        checksum.digest() == blake3_digest(contents@),
        is_digest_text(text@),
        digest_of_text(text@) == blake3_digest(contents@),
{
    digest_text_round_trip(checksum.digest());
}

/// Two checksums are equal if and only if all of their bytes are.
pub proof fn checksums_are_compared_by_their_bytes(a: Checksum, b: Checksum)
    ensures
        vstd::std_specs::cmp::PartialEqSpec::eq_spec(&a, &b) <==> a.digest() == b.digest(),
{
}

/// A column that is not text holds no checksum, and neither does a text that is not 64 hexadecimal
/// digits.
pub proof fn only_digits_are_checksums(value: ColumnValue, r: Result<Checksum, ColumnError>)
    requires
        call_ensures(Checksum::column_result, (&value,), r),
    ensures
        match value@.text() {
            Err(e) => r == Err::<Checksum, ColumnError>(e),
            Ok(text) => {
                &&& r is Ok <==> text.len() == 64 && forall|i: int|
                    0 <= i < text.len() ==> hex_value(#[trigger] text[i]) is Some
                &&& r matches Err(e) ==> e is InvalidChecksum
                &&& r matches Ok(checksum) ==> checksum.digest() == digest_of_text(text)
            },
        },
{
}

} // verus!
