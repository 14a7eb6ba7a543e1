//! Options as the cache database holds them.
use vstd::prelude::*;
use vstd::utf8::{
    decode_utf8, encode_utf8, encode_utf8_decode_utf8, encode_utf8_valid_utf8, valid_utf8,
};
use crate::cache::{ColumnError, ColumnValue, ColumnView};
use crate::options::{CompressionAlgorithm, CompressionLevel, RecompressFileOptions};
use crate::text::{
    decimal, decimal_is_digits, decimal_is_injective, decimal_of, joined, signed_decimal,
    signed_decimal_of,
};

verus! {

/// The JSON value that some bytes hold, written without blanks and with the members of every
/// object in order, or `None` where the bytes are not JSON.
pub uninterp spec fn canonical_json(bytes: Seq<u8>) -> Option<Seq<char>>;

/// A value of the few sorts that are written in one way only.
pub enum PlainValue {
    /// A text that is a word.
    Word(Seq<char>),
    Flag(bool),
    /// An object with one member, which is a number.
    Counted(Seq<char>, nat),
}

/// The text consists of letters, digits and underscores.
pub open spec fn is_word(text: Seq<char>) -> bool {
    forall|i: int| 0 <= i < text.len() ==> is_word_char(#[trigger] text[i])
}

/// A letter, a digit or an underscore.
pub open spec fn is_word_char(c: char) -> bool {
    ('a' <= c && c <= 'z') || ('A' <= c && c <= 'Z') || ('0' <= c && c <= '9') || c == '_'
}

/// The first of two words comes before the second: where they part, it has the lower character,
/// or it ends there.
pub open spec fn precedes(a: Seq<char>, b: Seq<char>) -> bool {
    exists|k: int| #[trigger] parts_below(a, b, k)
}

/// The two words part at `k`, where the first is the lower one.
pub open spec fn parts_below(a: Seq<char>, b: Seq<char>, k: int) -> bool {
    &&& 0 <= k <= a.len()
    &&& k < b.len()
    &&& a.take(k) == b.take(k)
    &&& k == a.len() || a[k] < b[k]
}

impl PlainValue {
    /// Words are words, and a number fits into 64 bits.
    pub open spec fn well_formed(self) -> bool {
        match self {
            PlainValue::Word(word) => is_word(word),
            PlainValue::Flag(_) => true,
            PlainValue::Counted(name, n) => is_word(name) && n <= u64::MAX,
        }
    }

    /// How the value is written.
    pub open spec fn text(self) -> Seq<char> {
        match self {
            PlainValue::Word(word) => "\""@ + word + "\""@,
            PlainValue::Flag(true) => "true"@,
            PlainValue::Flag(false) => "false"@,
            PlainValue::Counted(name, n) => "{\""@ + name + "\":"@ + decimal_of(n) + "}"@,
        }
    }
}

/// How the members of an object are written, without blanks.
pub open spec fn members_text(members: Seq<(Seq<char>, PlainValue)>) -> Seq<char>
    decreases members.len(),
{
    if members.len() == 0 {
        Seq::empty()
    } else {
        let (name, value) = members.last();
        let member = "\""@ + name + "\":"@ + value.text();
        if members.len() == 1 {
            member
        } else {
            members_text(members.drop_last()) + ","@ + member
        }
    }
}

/// How an object is written, without blanks.
pub open spec fn object_text(members: Seq<(Seq<char>, PlainValue)>) -> Seq<char> {
    "{"@ + members_text(members) + "}"@
}

/// The members are plain and their names come in order, none of them twice.
pub open spec fn in_order(members: Seq<(Seq<char>, PlainValue)>) -> bool {
    &&& forall|i: int|
        0 <= i < members.len() ==> is_word((#[trigger] members[i]).0) && members[i].1.well_formed()
    &&& forall|i: int, j: int|
        0 <= i < j < members.len() ==> precedes((#[trigger] members[i]).0, (#[trigger] members[j]).0)
}

/// The text is that of an object with plain members in order.
pub open spec fn is_plain_object(text: Seq<char>) -> bool {
    exists|members: Seq<(Seq<char>, PlainValue)>| #[trigger]
        in_order(members) && text == object_text(members)
}

/// Parses bytes with [`serde_json::from_slice`], calls [`serde_json::Value::sort_all_objects`]
/// and writes the value with [`serde_json::to_string`].
///
/// The text is named; besides it is claimed that an object that is written without blanks, with
/// its members in order and nothing in it but words, flags and whole numbers, is written as it is.
#[verifier::external_body]
fn sorted_json(bytes: &[u8]) -> (r: Option<String>)
    ensures
        r is Some <==> canonical_json(bytes@) is Some,
        r matches Some(text) ==> canonical_json(bytes@) == Some(text@),
        valid_utf8(bytes@) && is_plain_object(decode_utf8(bytes@)) ==> r is Some,
        r matches Some(text) ==> valid_utf8(bytes@) && is_plain_object(decode_utf8(bytes@))
            ==> text@ == decode_utf8(bytes@),
{
    let mut value: serde_json::Value = serde_json::from_slice(bytes).ok()?;
    value.sort_all_objects();
    serde_json::to_string(&value).ok()
}

/// The JSON value that a column holds, or why it holds none.
pub open spec fn json_in_column(value: ColumnView) -> Result<Seq<char>, ColumnError> {
    match value {
        ColumnView::Text(bytes) | ColumnView::Blob(bytes) => match canonical_json(bytes) {
            Some(text) => Ok(text),
            None => Err(ColumnError::InvalidJson),
        },
        ColumnView::Integer(n) => Ok(signed_decimal_of(n)),
        ColumnView::Real(Some(notation)) => Ok(notation),
        ColumnView::Real(None) => Err(ColumnError::InvalidType),
        ColumnView::Null => Ok("null"@),
    }
}

/// Read a JSON value from a column of the database.
pub fn json_column_result(value: &ColumnValue) -> (r: Result<String, ColumnError>)
    ensures
        match r {
            Ok(text) => json_in_column(value@) == Ok::<Seq<char>, ColumnError>(text@),
            Err(e) => json_in_column(value@) == Err::<Seq<char>, ColumnError>(e),
        },
{
    match value {
        ColumnValue::Text(bytes) | ColumnValue::Blob(bytes) => match sorted_json(bytes.as_slice()) {
            Some(text) => Ok(text),
            None => Err(ColumnError::InvalidJson),
        },
        ColumnValue::Integer(n) => Ok(signed_decimal(*n)),
        ColumnValue::Real(Some(notation)) => Ok(notation.as_str().to_owned()),
        ColumnValue::Real(None) => Err(ColumnError::InvalidType),
        ColumnValue::Null => Ok("null".to_owned()),
    }
}

/// The name of an algorithm in JSON notation.
pub open spec fn algorithm_word(algorithm: CompressionAlgorithm) -> Seq<char> {
    match algorithm {
        CompressionAlgorithm::Zlib => "Zlib"@,
        CompressionAlgorithm::Gzip => "Gzip"@,
        CompressionAlgorithm::Uncompressed => "None"@,
        CompressionAlgorithm::Lz4 => "Lz4"@,
    }
}

/// A level in JSON notation.
pub open spec fn level_value(level: CompressionLevel) -> PlainValue {
    match level {
        CompressionLevel::Default => PlainValue::Word("Default"@),
        CompressionLevel::Best => PlainValue::Word("Best"@),
        CompressionLevel::Fast => PlainValue::Word("Fast"@),
        CompressionLevel::Standard(n) => PlainValue::Counted("Standard"@, n as nat),
        CompressionLevel::ExtraFast(n) => PlainValue::Counted("ExtraFast"@, n as nat),
    }
}

/// The members of options in JSON notation.
pub open spec fn options_members(opts: RecompressFileOptions) -> Seq<(Seq<char>, PlainValue)> {
    seq![
        (
            "compression_algorithm"@,
            PlainValue::Word(algorithm_word(opts.compression_algorithm)),
        ),
        ("compression_level"@, level_value(opts.compression_level)),
        ("override_existing"@, PlainValue::Flag(opts.override_existing)),
    ]
}

/// Options in JSON notation.
pub open spec fn options_text(opts: RecompressFileOptions) -> Seq<char> {
    object_text(options_members(opts))
}

proof fn lemma_options_are_plain(opts: RecompressFileOptions)
    ensures
        is_plain_object(options_text(opts)),
{
    let members = options_members(opts);
    reveal_strlit("compression_algorithm");
    reveal_strlit("compression_level");
    reveal_strlit("override_existing");
    reveal_strlit("Zlib");
    reveal_strlit("Gzip");
    reveal_strlit("None");
    reveal_strlit("Lz4");
    reveal_strlit("Default");
    reveal_strlit("Best");
    reveal_strlit("Fast");
    reveal_strlit("Standard");
    reveal_strlit("ExtraFast");
    let a = "compression_algorithm"@;
    let b = "compression_level"@;
    let c = "override_existing"@;
    assert(a.take(12) =~= b.take(12));
    assert(parts_below(a, b, 12));
    assert(a.take(0) =~= c.take(0));
    assert(parts_below(a, c, 0));
    assert(b.take(0) =~= c.take(0));
    assert(parts_below(b, c, 0));
    assert(in_order(members));
}

/// Options in JSON notation, as the database holds them.
#[derive(Debug)]
pub struct OptionsJson {
    text: String,
}

impl OptionsJson {
    /// The notation.
    pub closed spec fn notation(self) -> Seq<char> {
        self.text@
    }

    /// The notation comes back from the database as it is.
    #[verifier::type_invariant]
    spec fn well_formed(self) -> bool {
        canonical_json(encode_utf8(self.text@)) == Some(self.text@)
    }

    /// Serialize options, with the members in order.
    pub fn new(opts: &RecompressFileOptions) -> (r: Self)
        ensures
            r.notation() == options_text(*opts),
    {
        let mut text = "{\"compression_algorithm\":\"".to_owned();
        text.append(
            match opts.compression_algorithm {
                CompressionAlgorithm::Zlib => "Zlib",
                CompressionAlgorithm::Gzip => "Gzip",
                CompressionAlgorithm::Uncompressed => "None",
                CompressionAlgorithm::Lz4 => "Lz4",
            },
        );
        text.append("\",\"compression_level\":");
        text.append(level_text(opts.compression_level).as_str());
        text.append(",\"override_existing\":");
        text.append(
            if opts.override_existing {
                "true}"
            } else {
                "false}"
            },
        );
        proof {
            lemma_options_text(*opts);
            assert(text@ =~= options_text(*opts));
            lemma_options_are_plain(*opts);
            encode_utf8_valid_utf8(text@);
            encode_utf8_decode_utf8(text@);
        }
        match sorted_json(text.as_str().as_bytes()) {
            Some(text) => OptionsJson { text },
            None => OptionsJson { text },
        }
    }

    /// Whether these are the options that have this notation.
    pub fn has_notation(&self, notation: &String) -> (r: bool)
        ensures
            r == (self.notation() == notation@),
    {
        self.text == *notation
    }

    /// Write the options to a column of the database. They can be read again.
    pub fn to_sql(&self) -> (r: ColumnValue)
        ensures
            r@ == ColumnView::of_text(self.notation()),
            json_in_column(r@) == Ok::<Seq<char>, ColumnError>(self.notation()),
    {
        proof {
            use_type_invariant(self);
        }
        ColumnValue::from_text(self.text.as_str())
    }
}

fn level_text(level: CompressionLevel) -> (r: String)
    ensures
        r@ == level_value(level).text(),
{
    match level {
        CompressionLevel::Default => joined("\"", "Default", "\""),
        CompressionLevel::Best => joined("\"", "Best", "\""),
        CompressionLevel::Fast => joined("\"", "Fast", "\""),
        CompressionLevel::Standard(n) => {
            let mut text = joined("{\"", "Standard", "\":");
            text.append(decimal(n as u64).as_str());
            text.append("}");
            text
        },
        CompressionLevel::ExtraFast(n) => {
            let mut text = joined("{\"", "ExtraFast", "\":");
            text.append(decimal(n as u64).as_str());
            text.append("}");
            text
        },
    }
}

/// The text of options, put together from larger pieces.
proof fn lemma_options_text(opts: RecompressFileOptions)
    ensures
        options_text(opts) == "{\"compression_algorithm\":\""@ + algorithm_word(
            opts.compression_algorithm,
        ) + "\",\"compression_level\":"@ + level_value(opts.compression_level).text()
            + ",\"override_existing\":"@ + if opts.override_existing {
            "true}"@
        } else {
            "false}"@
        },
{
    let members = options_members(opts);
    let two = members.drop_last();
    let one = two.drop_last();
    assert(one =~= seq![members[0]]);
    assert(two =~= seq![members[0], members[1]]);
    reveal_strlit("{\"compression_algorithm\":\"");
    reveal_strlit("\",\"compression_level\":");
    reveal_strlit(",\"override_existing\":");
    reveal_strlit("true}");
    reveal_strlit("false}");
    reveal_strlit("{");
    reveal_strlit("}");
    reveal_strlit("\"");
    reveal_strlit("\":");
    reveal_strlit(",");
    reveal_strlit("true");
    reveal_strlit("false");
    reveal_strlit("compression_algorithm");
    reveal_strlit("compression_level");
    reveal_strlit("override_existing");
    let first = "\""@ + "compression_algorithm"@ + "\":"@ + members[0].1.text();
    let second = "\""@ + "compression_level"@ + "\":"@ + members[1].1.text();
    let third = "\""@ + "override_existing"@ + "\":"@ + members[2].1.text();
    assert(members_text(one) == first);
    assert(members_text(two) == first + ","@ + second);
    assert(members_text(members) == first + ","@ + second + ","@ + third);
    assert("{"@ + ("\""@ + "compression_algorithm"@ + "\":"@) + "\""@
        =~= "{\"compression_algorithm\":\""@);
    assert("\""@ + ","@ + ("\""@ + "compression_level"@ + "\":"@)
        =~= "\",\"compression_level\":"@);
    assert(","@ + ("\""@ + "override_existing"@ + "\":"@) =~= ",\"override_existing\":"@);
    assert("true"@ + "}"@ =~= "true}"@);
    assert("false"@ + "}"@ =~= "false}"@);
    let word = algorithm_word(opts.compression_algorithm);
    let level = members[1].1.text();
    let flag = members[2].1.text();
    let closing = if opts.override_existing {
        "true}"@
    } else {
        "false}"@
    };
    assert(flag + "}"@ =~= closing);
    assert("{"@ + (first + ","@ + second + ","@ + third) + "}"@ =~= ("{"@ + ("\""@
        + "compression_algorithm"@ + "\":"@) + "\""@) + word + ("\""@ + ","@ + ("\""@
        + "compression_level"@ + "\":"@)) + level + (","@ + ("\""@ + "override_existing"@ + "\":"@))
        + (flag + "}"@));
}

/// The level and the flag can be told from the rest of the text.
proof fn lemma_rest_is_injective(a: RecompressFileOptions, b: RecompressFileOptions)
    requires
        level_value(a.compression_level).text() + ending(a) == level_value(
            b.compression_level,
        ).text() + ending(b),
    ensures
        a.compression_level == b.compression_level,
        a.override_existing == b.override_existing,
{
    reveal_strlit("\"");
    reveal_strlit("{\"");
    reveal_strlit("\":");
    reveal_strlit("}");
    reveal_strlit("Default");
    reveal_strlit("Best");
    reveal_strlit("Fast");
    reveal_strlit("Standard");
    reveal_strlit("ExtraFast");
    reveal_strlit(",\"override_existing\":");
    reveal_strlit("true}");
    reveal_strlit("false}");
    let s = level_value(a.compression_level).text();
    let t = level_value(b.compression_level).text();
    let whole = s + ending(a);
    assert(whole[0] == s[0] && whole[1] == s[1] && whole[2] == s[2]);
    let other = t + ending(b);
    assert(other[0] == t[0] && other[1] == t[1] && other[2] == t[2]);
    match (a.compression_level.number(), b.compression_level.number()) {
        (Some(n), Some(m)) => {
            let name = if a.compression_level is Standard {
                "Standard"@
            } else {
                "ExtraFast"@
            };
            let start = "{\""@ + name + "\":"@;
            decimal_is_digits(n as nat);
            decimal_is_digits(m as nat);
            assert(s =~= start + decimal_of(n as nat) + "}"@);
            assert(t =~= start + decimal_of(m as nat) + "}"@);
            let x = decimal_of(n as nat);
            let y = decimal_of(m as nat);
            let k = start.len() as int;
            if x.len() < y.len() {
                assert(whole[k + x.len()] == '}');
                assert(other[k + x.len()] == y[x.len() as int]);
            } else if y.len() < x.len() {
                assert(other[k + y.len()] == '}');
                assert(whole[k + y.len()] == x[y.len() as int]);
            }
            assert forall|i: int| 0 <= i < x.len() implies x[i] == y[i] by {
                assert(whole[k + i] == x[i]);
                assert(other[k + i] == y[i]);
            }
            assert(x =~= y);
            decimal_is_injective(n as nat, m as nat);
        },
        _ => {},
    }
    assert(s == t);
    assert(ending(a) =~= whole.skip(s.len() as int));
    assert(ending(b) =~= other.skip(s.len() as int));
    let e = ",\"override_existing\":"@.len() as int;
    assert(ending(a)[e] == ending(b)[e]);
}

/// The end of the text of options.
spec fn ending(opts: RecompressFileOptions) -> Seq<char> {
    ",\"override_existing\":"@ + if opts.override_existing {
        "true}"@
    } else {
        "false}"@
    }
}

/// All that options say is in their text: different options have different texts.
pub proof fn different_options_have_different_texts(
    a: RecompressFileOptions,
    b: RecompressFileOptions,
)
    requires
        a != b,
    ensures
        options_text(a) != options_text(b),
{
    if options_text(a) == options_text(b) {
        lemma_options_text(a);
        lemma_options_text(b);
        reveal_strlit("{\"compression_algorithm\":\"");
        reveal_strlit("Zlib");
        reveal_strlit("Gzip");
        reveal_strlit("None");
        reveal_strlit("Lz4");
        let start = "{\"compression_algorithm\":\""@;
        let k = start.len() as int;
        let x = algorithm_word(a.compression_algorithm);
        let y = algorithm_word(b.compression_algorithm);
        assert(options_text(a)[k] == x[0]);
        assert(options_text(b)[k] == y[0]);
        assert(a.compression_algorithm == b.compression_algorithm);
        let front = start + x + "\",\"compression_level\":"@;
        let rest_a = level_value(a.compression_level).text() + ending(a);
        let rest_b = level_value(b.compression_level).text() + ending(b);
        assert(options_text(a) =~= front + rest_a);
        assert(options_text(b) =~= front + rest_b);
        assert(rest_a =~= options_text(a).skip(front.len() as int));
        assert(rest_b =~= options_text(b).skip(front.len() as int));
        lemma_rest_is_injective(a, b);
    }
}

/// Options are recognised in the database if and only if they are the same, to the last of them.
pub proof fn kept_options_are_recognised(
    kept: RecompressFileOptions,
    opts: RecompressFileOptions,
    kept_json: OptionsJson,
    json: OptionsJson,
    value: ColumnValue,
    read: String,
    r: bool,
)
    requires
        call_ensures(OptionsJson::new, (&kept,), kept_json),
        call_ensures(OptionsJson::to_sql, (&kept_json,), value),
        call_ensures(json_column_result, (&value,), Ok::<String, ColumnError>(read)),
        call_ensures(OptionsJson::new, (&opts,), json),
        call_ensures(OptionsJson::has_notation, (&json, &read), r),
    ensures
        r <==> opts == kept,
{
    if opts != kept {
        different_options_have_different_texts(opts, kept);
    }
}

/// A column holds the JSON of its bytes, be they text or a blob, or its number, or nothing at all.
pub proof fn columns_hold_json(value: ColumnValue, r: Result<String, ColumnError>)
    requires
        call_ensures(json_column_result, (&value,), r),
    ensures
        match value {
            ColumnValue::Text(bytes) => match canonical_json(bytes@) {
                Some(text) => r matches Ok(read) && read@ == text,
                None => r matches Err(e) && e is InvalidJson,
            },
            ColumnValue::Blob(bytes) => match canonical_json(bytes@) {
                Some(text) => r matches Ok(read) && read@ == text,
                None => r matches Err(e) && e is InvalidJson,
            },
            ColumnValue::Integer(n) => r matches Ok(read) && read@ == signed_decimal_of(n as int),
            ColumnValue::Real(Some(notation)) => r matches Ok(read) && read@ == notation@,
            ColumnValue::Real(None) => r matches Err(e) && e is InvalidType,
            ColumnValue::Null => r matches Ok(read) && read@ == "null"@,
        },
{
}

} // verus!
