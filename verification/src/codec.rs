//! The compressors that chunks go through.
//!
//! Everything that is taken on trust about `flate2`, `lz4` and `twox-hash` stands in this file.
use vstd::prelude::*;
use std::hash::Hasher;
use std::io::Write;
use crate::lz4_stream::{decodes_before_rest, lz4_end_mark, lz4_frame, MAX_LZ4_BLOCK};

verus! {

/// [`std::io::Error`], which the compressors and the region streams report.
#[verifier::external_type_specification]
#[verifier::external_body]
pub struct ExIoError(std::io::Error);

/// The highest level that the deflate encoders of `flate2` have.
pub const MAX_DEFLATE_LEVEL: u32 = 10;

/// The longest input that lz4 can make a block of.
pub const MAX_LZ4_INPUT: usize = 2_113_929_216;

/// What the zlib encoder of `flate2` makes of `data` at a level.
pub uninterp spec fn zlib_stream(level: u32, data: Seq<u8>) -> Seq<u8>;

/// What the gzip encoder of `flate2` makes of `data` at a level.
pub uninterp spec fn gzip_stream(level: u32, data: Seq<u8>) -> Seq<u8>;

/// What `fastanvil` makes of the payload of a stored chunk under one of the schemes
/// that compress (gzip is 1, zlib is 2, lz4 is 4), or `None` where the payload is damaged.
pub uninterp spec fn decompressed(scheme: u8, payload: Seq<u8>) -> Option<Seq<u8>>;

/// The size of a buffer that is sure to hold the block that lz4 makes of this many bytes.
pub open spec fn lz4_bound(len: int) -> int {
    len + len / 255 + 16
}

/// How the lz4 block compressor is to work.
#[derive(Copy, Clone, Debug, PartialEq, Eq, Structural)]
pub enum Lz4Mode {
    /// High compression with a level.
    HighCompression(i32),
    /// Fast compression with an acceleration factor.
    Fast(i32),
    /// Default compression.
    Default,
}

/// Calls [`flate2::Compression::best`]: the level "optimized for size" is 9.
#[verifier::external_body]
pub(crate) fn best_deflate_level() -> (r: u32)
    ensures
        r == 9,
{
    flate2::Compression::best().level()
}

/// Calls [`flate2::Compression::fast`]: the level "optimized for speed" is 1.
#[verifier::external_body]
pub(crate) fn fast_deflate_level() -> (r: u32)
    ensures
        r == 1,
{
    flate2::Compression::fast().level()
}

/// Calls the `Default` impl of [`flate2::Compression`]: the default level is 6.
#[verifier::external_body]
pub(crate) fn default_deflate_level() -> (r: u32)
    ensures
        r == 6,
{
    flate2::Compression::default().level()
}

/// Runs `data` through [`flate2::write::ZlibEncoder`].
///
/// Writing to memory does not fail. The result is named; besides it is claimed that a zlib chunk
/// with this payload decodes to `data` again. Builds of `flate2` with debug assertions panic above
/// the highest level.
#[verifier::external_body]
pub(crate) fn zlib_compress(level: u32, data: &[u8]) -> (r: Result<Vec<u8>, std::io::Error>)
    requires
        level <= MAX_DEFLATE_LEVEL,
    ensures
        r is Ok,
        r matches Ok(stream) ==> stream@ == zlib_stream(level, data@),
        r matches Ok(stream) ==> decompressed(2, stream@) == Some(data@),
{
    let mut buffer = Vec::new();
    let mut encoder = flate2::write::ZlibEncoder::new(&mut buffer, flate2::Compression::new(level));
    encoder.write_all(data)?;
    drop(encoder);
    Ok(buffer)
}

/// Runs `data` through [`flate2::write::GzEncoder`].
///
/// Writing to memory does not fail. The result is named; besides it is claimed that a gzip chunk
/// with this payload decodes to `data` again. Builds of `flate2` with debug assertions panic above
/// the highest level.
#[verifier::external_body]
pub(crate) fn gzip_compress(level: u32, data: &[u8]) -> (r: Result<Vec<u8>, std::io::Error>)
    requires
        level <= MAX_DEFLATE_LEVEL,
    ensures
        r is Ok,
        r matches Ok(stream) ==> stream@ == gzip_stream(level, data@),
        r matches Ok(stream) ==> decompressed(1, stream@) == Some(data@),
{
    let mut buffer = Vec::new();
    let mut encoder = flate2::write::GzEncoder::new(&mut buffer, flate2::Compression::new(level));
    encoder.write_all(data)?;
    drop(encoder);
    Ok(buffer)
}

/// Calls [`lz4::block::compress_bound`]: there is a bound up to the longest input.
#[verifier::external_body]
pub(crate) fn lz4_compress_bound(len: usize) -> (r: Result<usize, std::io::Error>)
    ensures
        r is Ok <==> len <= MAX_LZ4_INPUT,
        r matches Ok(bound) ==> bound == lz4_bound(len as int),
{
    lz4::block::compress_bound(len)
}

/// The xxHash of some bytes with 32 bits.
pub uninterp spec fn xxhash32(seed: u32, data: Seq<u8>) -> u32;

/// Feeds `data` to a [`twox_hash::XxHash32`]. The hash, whose upper bits are zero, is named.
#[verifier::external_body]
pub(crate) fn hash_xx32(seed: u32, data: &[u8]) -> (r: u32)
    ensures
        r == xxhash32(seed, data@),
{
    let mut hasher = twox_hash::XxHash32::with_seed(seed);
    hasher.write(data);
    hasher.finish() as u32
}

/// Calls [`lz4::block::compress_to_buffer`] without a size in front of the block.
///
/// The block goes to the start of `buffer`, which is handed back with its length. A `buffer` as
/// long as the bound has room for it; where there is too little room, or the input is too long,
/// there is an error. Which bytes the block holds is left unsaid: they differ between machines with
/// 32 and with 64 bit words. What is said is that `fastanvil` decodes it to `data`, once it stands
/// in a frame: its decoder goes through a payload frame by frame, up to the mark at the end, and
/// checks length and checksum of each.
///
/// The high compression mode computes an address some bytes before the end of the input, which
/// goes wrong where the input is empty and stands nowhere.
#[verifier::external_body]
pub(crate) fn lz4_compress_to_buffer(data: &[u8], mode: Lz4Mode, buffer: Vec<u8>) -> (r: Result<
    (usize, Vec<u8>),
    std::io::Error,
>)
    requires
        buffer@.len() <= i32::MAX,
        data@.len() <= MAX_LZ4_BLOCK,
        mode is HighCompression ==> data@.len() > 0,
    ensures
        buffer@.len() >= lz4_bound(data@.len() as int) ==> r is Ok,
        r matches Ok((_, filled)) ==> filled@.len() == buffer@.len(),
        r matches Ok((written, _)) ==> 0 < written <= buffer@.len(),
        r matches Ok((written, filled)) ==> decompressed(
            4,
            lz4_frame(filled@.subrange(0, written as int), data@) + lz4_end_mark(),
        ) == Some(data@),
        r matches Ok((written, filled)) ==> decodes_before_rest(
            lz4_frame(filled@.subrange(0, written as int), data@),
            data@,
        ),
{
    let mode = match mode {
        Lz4Mode::HighCompression(level) => lz4::block::CompressionMode::HIGHCOMPRESSION(level),
        Lz4Mode::Fast(acceleration) => lz4::block::CompressionMode::FAST(acceleration),
        Lz4Mode::Default => lz4::block::CompressionMode::DEFAULT,
    };
    let mut buffer = buffer;
    let written = lz4::block::compress_to_buffer(data, Some(mode), false, &mut buffer)?;
    Ok((written, buffer))
}

/// The block is one that the lz4 compressor puts out for `data` in this mode.
///
/// On one machine there is one such block, but another machine may have another.
pub closed spec fn is_lz4_block(mode: Lz4Mode, data: Seq<u8>, block: Seq<u8>) -> bool {
    exists|input: &[u8], buffer: Vec<u8>, written: usize, filled: Vec<u8>|
        input@ == data && block == filled@.subrange(0, written as int) && #[trigger] call_ensures(
            lz4_compress_to_buffer,
            (input, mode, buffer),
            Ok::<(usize, Vec<u8>), std::io::Error>((written, filled)),
        )
}

/// Make the block of some data.
pub(crate) fn lz4_block(data: &[u8], mode: Lz4Mode) -> (r: Result<Vec<u8>, std::io::Error>)
    requires
        data@.len() <= MAX_LZ4_BLOCK,
        mode is HighCompression ==> data@.len() > 0,
    ensures
        r is Ok,
        r matches Ok(block) ==> is_lz4_block(mode, data@, block@),
        r matches Ok(block) ==> 0 < block@.len() <= lz4_bound(data@.len() as int),
        r matches Ok(block) ==> decompressed(4, lz4_frame(block@, data@) + lz4_end_mark()) == Some(
            data@,
        ),
        r matches Ok(block) ==> decodes_before_rest(lz4_frame(block@, data@), data@),
{
    let bound: usize = match lz4_compress_bound(data.len()) {
        Ok(bound) => bound,
        Err(cause) => return Err(cause),
    };
    match lz4_compress_to_buffer(data, mode, vec![0;bound]) {
        Ok((written, block)) => {
            let mut block = block;
            block.truncate(written);
            Ok(block)
        },
        Err(cause) => Err(cause),
    }
}

} // verus!
