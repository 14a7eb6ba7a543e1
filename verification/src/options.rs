//! Defines option types to control recompression.
use vstd::prelude::*;
use crate::codec::{
    best_deflate_level, default_deflate_level, fast_deflate_level, gzip_compress, zlib_compress,
    Lz4Mode, MAX_DEFLATE_LEVEL,
};
use crate::codec::{decompressed, gzip_stream, zlib_stream};
use crate::lz4_stream::{is_lz4_stream, lz4_compress, lz4_stream_bound};
use crate::text::{contained_in_longer, contains_text, end_is_contained, part_is_contained};

mod compress;

pub use self::compress::{
    algorithms_are_told_apart, algorithms_have_schemes, default_level_suits_every_algorithm,
    extra_fast_levels_are_for_lz4, levels_are_told_apart, levels_suit_the_algorithm,
    CompressionAlgorithm, CompressionLevel, CompressionScheme,
};

verus! {

/// Options to control how a region file is recompressed.
///
/// Specifying a [`CompressionAlgorithm`] is mandatory and must be passed to [`RecompressFileOptions::new`].
/// All other options have sensible defaults.
#[derive(Debug, PartialEq, Eq, Structural)]
#[non_exhaustive]
pub struct RecompressFileOptions {
    /// The algorithm to use.
    pub compression_algorithm: CompressionAlgorithm,
    /// The level of compression to use.
    ///
    /// If this is not valid for a certain algorithm,
    /// an error will be returned when it is used.
    pub compression_level: CompressionLevel,
    /// If true, this will override existing output files.
    pub override_existing: bool,
}

impl Clone for RecompressFileOptions {
    fn clone(&self) -> (r: Self)
        ensures
            r == *self,
    {
        RecompressFileOptions {
            compression_algorithm: self.compression_algorithm,
            compression_level: self.compression_level,
            override_existing: self.override_existing,
        }
    }
}

/// Indicates that an instance of [`RecompressFileOptions`] is not valid.
#[derive(Debug)]
#[non_exhaustive]
pub struct OptionsValidateError {
    /// The reason the errors are invalid.
    pub reason: OptionsValidateErrorReason,
}

/// Indicates the underlying reason for an [`OptionsValidateError`].
#[derive(Debug)]
#[non_exhaustive]
pub enum OptionsValidateErrorReason {
    /// Indicates a [`CompressionLevel`] is specified that is not appropriate for a certain algorithm.
    InappropriateCompressionLevel {
        /// The compression level that was attempted to be used.
        level: CompressionLevel,
        /// The algorithm for which the level was used with.
        algorithm: CompressionAlgorithm,
    },
    /// Indicates that a [`CompressionLevel`] overflowed an integer.
    OverflowCompressionLevel {
        /// The compression level that overflowed.
        level: CompressionLevel,
        /// The type of integer that the level overflowed.
        target_type: &'static str,
    },
}

impl OptionsValidateErrorReason {
    /// This is why `level` cannot be used with `algorithm`:
    /// a level of the wrong kind is reported as such, even if its integer overflows as well.
    pub open spec fn explains(
        self,
        level: CompressionLevel,
        algorithm: CompressionAlgorithm,
    ) -> bool {
        if !level.applicable(algorithm) {
            self == (OptionsValidateErrorReason::InappropriateCompressionLevel { level, algorithm })
        } else {
            &&& !level.fits_i32()
            &&& self matches OptionsValidateErrorReason::OverflowCompressionLevel {
                level: reported,
                target_type,
            }
            &&& reported == level
            &&& target_type@ == "i32"@
        }
    }
}

impl OptionsValidateError {
    /// The message. The reason has a message of its own.
    pub fn to_text(&self) -> (r: String)
        ensures
            r@ == "Specified invalid options"@,
    {
        "Specified invalid options".to_owned()
    }
}

impl OptionsValidateErrorReason {
    /// The message that says why.
    pub open spec fn message(self) -> Seq<char> {
        match self {
            OptionsValidateErrorReason::InappropriateCompressionLevel { level, algorithm } => {
                "Compression level "@ + level.option_text() + " is not appropriate for algorithm "@
                    + algorithm.spec_name()
            },
            OptionsValidateErrorReason::OverflowCompressionLevel { level, target_type } => {
                "Compression level "@ + level.option_text() + " overflowed a "@ + target_type@
            },
        }
    }

    /// The message that says why.
    pub fn to_text(&self) -> (r: String)
        ensures
            r@ == self.message(),
    {
        match self {
            OptionsValidateErrorReason::InappropriateCompressionLevel { level, algorithm } => {
                let mut text = "Compression level ".to_owned();
                text.append(level.to_text().as_str());
                text.append(" is not appropriate for algorithm ");
                text.append(algorithm.name());
                text
            },
            OptionsValidateErrorReason::OverflowCompressionLevel { level, target_type } => {
                let mut text = "Compression level ".to_owned();
                text.append(level.to_text().as_str());
                text.append(" overflowed a ");
                text.append(target_type);
                text
            },
        }
    }
}

impl RecompressFileOptions {
    /// The options pass validation.
    pub open spec fn valid(self) -> bool {
        &&& self.compression_level.applicable(self.compression_algorithm)
        &&& self.compression_level.fits_i32()
    }

    /// The level that the deflate encoders are handed, where the options have one for them.
    pub open spec fn deflate_level(self) -> Option<u32> {
        match self.compression_level {
            CompressionLevel::Standard(value) => Some(value),
            CompressionLevel::Best => Some(9),
            CompressionLevel::Default => Some(6),
            CompressionLevel::Fast => Some(1),
            CompressionLevel::ExtraFast(_) => None,
        }
    }

    /// The mode that the lz4 compressor is handed.
    pub open spec fn lz4_mode(self) -> Lz4Mode {
        match self.compression_level {
            CompressionLevel::Standard(value) => Lz4Mode::HighCompression(value as i32),
            CompressionLevel::Best => Lz4Mode::HighCompression(12),
            CompressionLevel::Fast => Lz4Mode::HighCompression(0),
            CompressionLevel::ExtraFast(value) => Lz4Mode::Fast(value as i32),
            CompressionLevel::Default => Lz4Mode::Default,
        }
    }

    /// The encoder that the algorithm stands for takes the level.
    ///
    /// Valid options have this, unless they ask a deflate encoder for a level that does not
    /// fit into a byte.
    pub open spec fn encodable(self) -> bool {
        match self.compression_algorithm {
            CompressionAlgorithm::Zlib | CompressionAlgorithm::Gzip => {
                self.deflate_level() matches Some(level) && level <= u8::MAX
            },
            CompressionAlgorithm::Lz4 => self.compression_level.fits_i32(),
            CompressionAlgorithm::Uncompressed => true,
        }
    }

    /// `data` can be stored under this payload.
    ///
    /// It is what the encoder of the algorithm makes of it at the level. An lz4 stream decodes to
    /// the data and is not longer than need be.
    pub open spec fn is_payload(self, data: Seq<u8>, payload: Seq<u8>) -> bool {
        match self.compression_algorithm {
            CompressionAlgorithm::Zlib => payload == zlib_stream(
                encoder_level(self.deflate_level()->0),
                data,
            ),
            CompressionAlgorithm::Gzip => payload == gzip_stream(
                encoder_level(self.deflate_level()->0),
                data,
            ),
            CompressionAlgorithm::Uncompressed => payload == data,
            CompressionAlgorithm::Lz4 => {
                &&& is_lz4_stream(self.lz4_mode(), data, payload)
                &&& decompressed(4, payload) == Some(data)
                &&& payload.len() <= lz4_stream_bound(data.len() as int)
            },
        }
    }

    /// Create the default set of options for the specified algorithm.
    pub fn new(algorithm: CompressionAlgorithm) -> (r: Self)
        ensures
            r.compression_algorithm == algorithm,
            r.compression_level == CompressionLevel::Default,
            r.override_existing == false,
            r.valid(),
    {
        RecompressFileOptions {
            compression_algorithm: algorithm,
            compression_level: CompressionLevel::default(),
            override_existing: false,
        }
    }

    /// Check that the level of compression suits the algorithm.
    pub fn validate(&self) -> (r: Result<(), OptionsValidateError>)
        ensures
            r is Ok <==> self.valid(),
            r matches Err(e) ==> e.reason.explains(
                self.compression_level,
                self.compression_algorithm,
            ),
    {
        match self.compression_level.validate(self.compression_algorithm) {
            Ok(()) => Ok(()),
            Err(reason) => Err(OptionsValidateError { reason }),
        }
    }

    /// Whether the encoder of the algorithm takes the level.
    pub fn is_encodable(&self) -> (r: bool)
        ensures
            r == self.encodable(),
    {
        match (self.compression_algorithm, self.compression_level) {
            (CompressionAlgorithm::Uncompressed, _) => true,
            (CompressionAlgorithm::Lz4, level) => match level.int_value() {
                Some(value) => value <= i32::MAX as u32,
                None => true,
            },
            (_, CompressionLevel::Standard(value)) => value <= u8::MAX as u32,
            (_, CompressionLevel::ExtraFast(_)) => false,
            (_, _) => true,
        }
    }

    /// The level for the zlib and gzip encoders.
    ///
    /// An extra fast level is not for them, and fails validation.
    pub fn zlib_level(&self) -> (r: u32)
        requires
            self.compression_level !is ExtraFast,
        ensures
            Some(r) == self.deflate_level(),
    {
        match self.compression_level {
            CompressionLevel::Standard(value) => value,
            CompressionLevel::Best => best_deflate_level(),
            CompressionLevel::Fast => fast_deflate_level(),
            _ => default_deflate_level(),
        }
    }

    /// The mode for the lz4 compressor.
    ///
    /// An overflowing level fails validation.
    pub fn lz4_level(&self) -> (r: Lz4Mode)
        requires
            self.compression_level.fits_i32(),
        ensures
            r == self.lz4_mode(),
    {
        match self.compression_level {
            CompressionLevel::Standard(value) => Lz4Mode::HighCompression(value as i32),
            CompressionLevel::Best => Lz4Mode::HighCompression(12),
            CompressionLevel::Fast => Lz4Mode::HighCompression(0),
            CompressionLevel::ExtraFast(fast) => Lz4Mode::Fast(fast as i32),
            CompressionLevel::Default => Lz4Mode::Default,
        }
    }

    /// Compress the data of one chunk.
    ///
    /// What comes out decodes to `input` again. Where nothing is compressed, it is `input` itself.
    pub fn compress<'a>(&self, input: &'a [u8]) -> (r: Result<Payload<'a>, std::io::Error>)
        requires
            self.encodable(),
        ensures
            r is Ok,
            r matches Ok(payload) ==> self.is_payload(input@, payload@),
            r matches Ok(payload) ==> (payload is Borrowed
                <==> self.compression_algorithm is Uncompressed),
            r matches Ok(payload) ==> decoded(
                self.compression_algorithm.scheme().code(),
                payload@,
            ) == Some(input@),
    {
        let buffer = match self.compression_algorithm {
            CompressionAlgorithm::Zlib => zlib_compress(accepted_level(self.zlib_level()), input),
            CompressionAlgorithm::Gzip => gzip_compress(accepted_level(self.zlib_level()), input),
            CompressionAlgorithm::Uncompressed => return Ok(Payload::Borrowed(input)),
            CompressionAlgorithm::Lz4 => lz4_compress(input, self.lz4_level()),
        };
        match buffer {
            Ok(buffer) => Ok(Payload::Owned(buffer)),
            Err(cause) => Err(cause),
        }
    }
}

/// What the level means to lz4: whatever the data is, its blocks are those that the compressor
/// puts out in the mode that the level stands for. An integer is passed on as it is.
pub proof fn lz4_works_at_the_level<'a>(
    opts: RecompressFileOptions,
    input: &'a [u8],
    payload: Payload<'a>,
    n: u32,
)
    requires
        opts.compression_algorithm is Lz4,
        n <= i32::MAX,
        call_ensures(
            RecompressFileOptions::compress,
            (&opts, input),
            Ok::<Payload<'a>, std::io::Error>(payload),
        ),
    ensures
        opts.compression_level == CompressionLevel::Standard(n) ==> is_lz4_stream(
            Lz4Mode::HighCompression(n as i32),
            input@,
            payload@,
        ),
        opts.compression_level == CompressionLevel::ExtraFast(n) ==> is_lz4_stream(
            Lz4Mode::Fast(n as i32),
            input@,
            payload@,
        ),
        opts.compression_level is Best ==> is_lz4_stream(
            Lz4Mode::HighCompression(12),
            input@,
            payload@,
        ),
        opts.compression_level is Fast ==> is_lz4_stream(
            Lz4Mode::HighCompression(0),
            input@,
            payload@,
        ),
        opts.compression_level is Default ==> is_lz4_stream(
            Lz4Mode::Default,
            input@,
            payload@,
        ),
{
}

/// What the level means to zlib: an integer is the level of the encoder, up to the highest that
/// it has, and the other levels are the same as an integer.
pub proof fn zlib_works_at_the_level<'a>(
    opts: RecompressFileOptions,
    input: &'a [u8],
    payload: Payload<'a>,
    n: u32,
)
    requires
        opts.compression_algorithm is Zlib,
        opts.compression_level !is ExtraFast,
        call_ensures(
            RecompressFileOptions::compress,
            (&opts, input),
            Ok::<Payload<'a>, std::io::Error>(payload),
        ),
    ensures
        opts.compression_level == CompressionLevel::Standard(n) && n <= 10 ==> payload@
            == zlib_stream(n, input@),
        opts.compression_level == CompressionLevel::Standard(n) && n > 10 ==> payload@
            == zlib_stream(10, input@),
        opts.compression_level is Best ==> payload@ == zlib_stream(9, input@),
        opts.compression_level is Default ==> payload@ == zlib_stream(6, input@),
        opts.compression_level is Fast ==> payload@ == zlib_stream(1, input@),
{
}

/// What the level means to gzip is what it means to zlib.
pub proof fn gzip_works_at_the_level<'a>(
    opts: RecompressFileOptions,
    input: &'a [u8],
    payload: Payload<'a>,
    n: u32,
)
    requires
        opts.compression_algorithm is Gzip,
        opts.compression_level !is ExtraFast,
        call_ensures(
            RecompressFileOptions::compress,
            (&opts, input),
            Ok::<Payload<'a>, std::io::Error>(payload),
        ),
    ensures
        opts.compression_level == CompressionLevel::Standard(n) && n <= 10 ==> payload@
            == gzip_stream(n, input@),
        opts.compression_level == CompressionLevel::Standard(n) && n > 10 ==> payload@
            == gzip_stream(10, input@),
        opts.compression_level is Best ==> payload@ == gzip_stream(9, input@),
        opts.compression_level is Default ==> payload@ == gzip_stream(6, input@),
        opts.compression_level is Fast ==> payload@ == gzip_stream(1, input@),
{
}

/// The payload under which the data of a chunk is stored.
#[derive(Debug)]
pub enum Payload<'a> {
    /// The data itself.
    Borrowed(&'a [u8]),
    /// Compressed data.
    Owned(Vec<u8>),
}

impl<'a> View for Payload<'a> {
    type V = Seq<u8>;

    open spec fn view(&self) -> Seq<u8> {
        match self {
            Payload::Borrowed(data) => data@,
            Payload::Owned(buffer) => buffer@,
        }
    }
}

impl<'a> Payload<'a> {
    /// The bytes of the payload.
    pub fn as_slice(&self) -> (r: &[u8])
        ensures
            r@ == self@,
    {
        match self {
            Payload::Borrowed(data) => data,
            Payload::Owned(buffer) => buffer.as_slice(),
        }
    }
}

/// The level at which a deflate encoder works when it is asked for another: the levels above
/// the highest one that it has are that one.
pub open spec fn encoder_level(level: u32) -> u32 {
    if level <= MAX_DEFLATE_LEVEL {
        level
    } else {
        MAX_DEFLATE_LEVEL
    }
}

fn accepted_level(level: u32) -> (r: u32)
    ensures
        r == encoder_level(level),
        r <= MAX_DEFLATE_LEVEL,
{
    if level <= MAX_DEFLATE_LEVEL {
        level
    } else {
        MAX_DEFLATE_LEVEL
    }
}

/// The data of a stored chunk with this scheme and payload, or `None` where the payload is
/// damaged. What is stored uncompressed is the data itself.
pub open spec fn decoded(scheme: u8, payload: Seq<u8>) -> Option<Seq<u8>> {
    if scheme == 3 {
        Some(payload)
    } else {
        decompressed(scheme, payload)
    }
}

/// Options pass if and only if their level suits their algorithm, whatever else they say, and
/// those that pass can be used, but for deflate levels that do not fit into a byte.
pub proof fn valid_options_can_be_used(
    opts: RecompressFileOptions,
    r: Result<(), OptionsValidateError>,
    level: Result<(), OptionsValidateErrorReason>,
    encodable: bool,
)
    requires
        call_ensures(RecompressFileOptions::validate, (&opts,), r),
        call_ensures(
            CompressionLevel::validate,
            (&opts.compression_level, opts.compression_algorithm),
            level,
        ),
        call_ensures(RecompressFileOptions::is_encodable, (&opts,), encodable),
    ensures
        r is Ok <==> level is Ok,
        opts.compression_level is Default ==> r is Ok && encodable,
        r is Ok && !encodable ==> {
            &&& opts.compression_algorithm is Zlib || opts.compression_algorithm is Gzip
            &&& opts.compression_level matches CompressionLevel::Standard(n)
            &&& n > 255
        },
        r is Ok && opts.compression_algorithm is Lz4 ==> encodable,
{
}

/// What was compressed under any options decodes to the data that it was made of, and what is not
/// compressed is the data itself.
pub proof fn payloads_decode_to_the_data<'a>(
    opts: RecompressFileOptions,
    input: &'a [u8],
    r: Result<Payload<'a>, std::io::Error>,
)
    requires
        opts.encodable(),
        call_ensures(RecompressFileOptions::compress, (&opts, input), r),
    ensures
        r is Ok,
        opts.compression_algorithm is Gzip ==> decompressed(1, r->Ok_0@) == Some(input@),
        opts.compression_algorithm is Zlib ==> decompressed(2, r->Ok_0@) == Some(input@),
        opts.compression_algorithm is Uncompressed ==> r->Ok_0@ == input@,
        opts.compression_algorithm is Lz4 ==> decompressed(4, r->Ok_0@) == Some(input@),
{
}

/// The message about a level names the level, and the algorithm that does not have it.
pub proof fn invalid_levels_are_named(reason: OptionsValidateErrorReason, text: String)
    requires
        call_ensures(OptionsValidateErrorReason::to_text, (&reason,), text),
    ensures
        match reason {
            OptionsValidateErrorReason::InappropriateCompressionLevel { level, algorithm } => {
                &&& contains_text(text@, level.option_text())
                &&& contains_text(text@, algorithm.spec_name())
            },
            OptionsValidateErrorReason::OverflowCompressionLevel { level, target_type } => {
                &&& contains_text(text@, level.option_text())
                &&& contains_text(text@, target_type@)
            },
        },
{
    let (level, middle, end) = match reason {
        OptionsValidateErrorReason::InappropriateCompressionLevel { level, algorithm } => {
            (level, " is not appropriate for algorithm "@, algorithm.spec_name())
        },
        OptionsValidateErrorReason::OverflowCompressionLevel { level, target_type } => {
            (level, " overflowed a "@, target_type@)
        },
    };
    let start = "Compression level "@ + level.option_text() + middle;
    part_is_contained("Compression level "@, level.option_text(), middle);
    contained_in_longer(start, level.option_text(), end);
    end_is_contained(start, end);
}

/// Options are made for an algorithm with the default level, and leave existing files alone.
pub proof fn new_options_are_cautious(
    algorithm: CompressionAlgorithm,
    opts: RecompressFileOptions,
    r: Result<(), OptionsValidateError>,
)
    requires
        call_ensures(RecompressFileOptions::new, (algorithm,), opts),
        call_ensures(RecompressFileOptions::validate, (&opts,), r),
    ensures
        opts.compression_algorithm == algorithm,
        opts.compression_level is Default,
        !opts.override_existing,
        r is Ok,
{
}

/// The encoders are handed the integer of the level as it is.
pub proof fn levels_are_passed_on(opts: RecompressFileOptions, n: u32, zlib: u32, lz4: Lz4Mode)
    requires
        call_ensures(RecompressFileOptions::zlib_level, (&opts,), zlib),
        call_ensures(RecompressFileOptions::lz4_level, (&opts,), lz4),
        n <= i32::MAX,
    ensures
        opts.compression_level == CompressionLevel::Standard(n) ==> zlib == n && lz4
            == Lz4Mode::HighCompression(n as i32),
        opts.compression_level is Best ==> zlib == 9 && lz4 == Lz4Mode::HighCompression(12),
        opts.compression_level is Fast ==> zlib == 1 && lz4 == Lz4Mode::HighCompression(0),
        opts.compression_level is Default ==> zlib == 6 && lz4 is Default,
{
}

/// An extra fast level makes lz4 fast by as much as it says.
pub proof fn extra_fast_levels_accelerate(opts: RecompressFileOptions, n: u32, lz4: Lz4Mode)
    requires
        opts.compression_level == CompressionLevel::ExtraFast(n),
        n <= i32::MAX,
        call_ensures(RecompressFileOptions::lz4_level, (&opts,), lz4),
    ensures
        lz4 == Lz4Mode::Fast(n as i32),
{
}

/// The encoder of an algorithm takes every level that the algorithm has, but for deflate levels
/// that do not fit into a byte, and where nothing is compressed every level.
pub proof fn encoders_take_levels(opts: RecompressFileOptions, r: bool)
    requires
        call_ensures(RecompressFileOptions::is_encodable, (&opts,), r),
    ensures
        r <==> match (opts.compression_algorithm, opts.compression_level) {
            (CompressionAlgorithm::Uncompressed, _) => true,
            (CompressionAlgorithm::Lz4, CompressionLevel::Standard(n)) => n <= 2_147_483_647,
            (CompressionAlgorithm::Lz4, CompressionLevel::ExtraFast(n)) => n <= 2_147_483_647,
            (CompressionAlgorithm::Lz4, _) => true,
            (_, CompressionLevel::Standard(n)) => n <= 255,
            (_, level) => level !is ExtraFast,
        },
{
}

/// Compressed with lz4, data becomes hardly longer at worst, whatever the level.
pub proof fn lz4_makes_data_hardly_longer<'a>(
    opts: RecompressFileOptions,
    input: &'a [u8],
    payload: Payload<'a>,
)
    requires
        opts.compression_algorithm is Lz4,
        input@.len() <= 33_554_432,
        call_ensures(
            RecompressFileOptions::compress,
            (&opts, input),
            Ok::<Payload<'a>, std::io::Error>(payload),
        ),
    ensures
        payload@.len() <= input@.len() + input@.len() / 255 + 95,
{
}

} // verus!
