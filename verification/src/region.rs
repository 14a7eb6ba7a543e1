//! Region files held in memory.
//!
//! A region file starts with a table of locations, four bytes for each chunk: the sector at which
//! the chunk starts (three bytes, big endian) and how many sectors it takes. At that sector stand
//! the length of what follows (four bytes, big endian), the scheme (one byte) and the payload.
//!
//! Everything that is taken on trust about `fastanvil` stands in this file.
use vstd::prelude::*;
use std::io::Cursor;
use crate::chunk::REGION_SIDE;
use crate::options::{decoded, CompressionScheme};

pub mod recompression;

pub use self::recompression::{recompressed, same_chunks};
pub(crate) use self::recompression::recompress_into;

verus! {

/// [`std::io::Cursor`], over which a region in memory is read and written.
#[verifier::external_type_specification]
#[verifier::external_body]
#[verifier::reject_recursive_types(T)]
pub struct ExCursor<T>(std::io::Cursor<T>);

/// [`fastanvil::Region`], a region file on top of some stream.
#[verifier::external_type_specification]
#[verifier::external_body]
#[verifier::reject_recursive_types(S)]
pub struct ExRegion<S>(fastanvil::Region<S>);

/// The bytes of the stream under a region.
pub uninterp spec fn region_image(region: fastanvil::Region<Cursor<Vec<u8>>>) -> Seq<u8>;

/// The sectors at which the chunks of a region start, in order,
/// and last the sector at which the next new chunk goes.
pub uninterp spec fn region_sectors(region: fastanvil::Region<Cursor<Vec<u8>>>) -> Seq<nat>;

/// What can go wrong with a region file.
#[derive(Debug)]
pub enum RegionError {
    /// The stream ended early, or a payload is damaged.
    Io(std::io::Error),
    /// The coordinates are not those of a chunk in a region.
    InvalidOffset(isize, isize),
    /// No compression scheme has this number.
    UnknownCompression(u8),
    /// The chunk takes more sectors than a location can say.
    ChunkTooLarge,
}

/// The size of a sector in bytes.
pub const SECTOR_SIZE: usize = 4096;

/// The size of the table of locations and the table of times, both of which start a region file.
pub const HEADER_SIZE: usize = 8192;

/// The size of what stands before the payload of a chunk.
pub const CHUNK_HEADER_SIZE: usize = 5;

/// The largest payload whose length still fits into four bytes together with that of what
/// stands before it.
pub const MAX_PAYLOAD_LEN: u64 = 4_294_967_290;

/// The largest number of sectors that a chunk can take.
pub const MAX_CHUNK_SECTORS: usize = 255;

/// The location of a chunk has to name the sector in three bytes.
pub const SECTOR_LIMIT: usize = 16_777_216;

/// Where the location of a chunk stands in the image of a region.
pub open spec fn location_at(x: int, z: int) -> int {
    4 * (x + 32 * z)
}

/// The sector at which a chunk starts, by its location.
pub open spec fn chunk_sector(image: Seq<u8>, x: int, z: int) -> int {
    let at = location_at(x, z);
    image[at] * 65536 + image[at + 1] * 256 + image[at + 2]
}

/// How many sectors a chunk takes, by its location.
pub open spec fn chunk_sector_count(image: Seq<u8>, x: int, z: int) -> int {
    image[location_at(x, z) + 3] as int
}

/// The region has this chunk: its location is not blank.
pub open spec fn has_chunk(image: Seq<u8>, x: int, z: int) -> bool {
    chunk_sector(image, x, z) != 0 || chunk_sector_count(image, x, z) != 0
}

/// Where the header of a chunk starts.
pub open spec fn chunk_start(image: Seq<u8>, x: int, z: int) -> int {
    chunk_sector(image, x, z) * SECTOR_SIZE
}

/// The big endian number in four bytes.
pub open spec fn be_u32(image: Seq<u8>, at: int) -> int {
    image[at] * 16777216 + image[at + 1] * 65536 + image[at + 2] * 256 + image[at + 3]
}

/// The length that a chunk header gives: that of the scheme byte and the payload.
pub open spec fn chunk_length(image: Seq<u8>, x: int, z: int) -> int {
    be_u32(image, chunk_start(image, x, z))
}

/// The scheme that a chunk header gives.
pub open spec fn chunk_scheme(image: Seq<u8>, x: int, z: int) -> u8 {
    image[chunk_start(image, x, z) + 4]
}

/// The header of the chunk lies inside the image.
pub open spec fn has_chunk_header(image: Seq<u8>, x: int, z: int) -> bool {
    chunk_start(image, x, z) + CHUNK_HEADER_SIZE <= image.len()
}

/// The payload of a chunk, cut off where the image ends.
pub open spec fn chunk_payload(image: Seq<u8>, x: int, z: int) -> Seq<u8> {
    let from = chunk_start(image, x, z) + CHUNK_HEADER_SIZE;
    let to = from + chunk_length(image, x, z) - 1;
    image.subrange(
        from,
        if to <= image.len() {
            to
        } else {
            image.len() as int
        },
    )
}

/// What a region has to say about one chunk.
pub enum ChunkContent {
    /// The region does not have the chunk.
    Absent,
    /// The uncompressed data of the chunk.
    Data(Seq<u8>),
    /// The chunk is stored under a scheme that does not exist.
    UnknownScheme(u8),
    /// The chunk cannot be read.
    Damaged,
}

/// What reading a chunk brings to light.
pub open spec fn chunk_content(image: Seq<u8>, x: int, z: int) -> ChunkContent {
    if !has_chunk(image, x, z) {
        ChunkContent::Absent
    } else if !has_chunk_header(image, x, z) {
        ChunkContent::Damaged
    } else if !(1 <= chunk_scheme(image, x, z) <= 4) {
        ChunkContent::UnknownScheme(chunk_scheme(image, x, z))
    } else {
        match decoded(chunk_scheme(image, x, z), chunk_payload(image, x, z)) {
            Some(data) => ChunkContent::Data(data),
            None => ChunkContent::Damaged,
        }
    }
}

/// The longest payload of an lz4 chunk whose decoder is sure not to lose count.
pub const MAX_LZ4_PAYLOAD: usize = 16_000_000;

/// The header of the chunk, if it can be read and gives a scheme, gives a length above zero,
/// as the length counts the scheme byte; and the payload of an lz4 chunk is not excessive.
pub open spec fn chunk_is_sound(image: Seq<u8>, x: int, z: int) -> bool {
    has_chunk(image, x, z) && has_chunk_header(image, x, z) && 1 <= chunk_scheme(image, x, z) <= 4
        ==> {
        &&& chunk_length(image, x, z) > 0
        &&& chunk_scheme(image, x, z) == 4 ==> chunk_payload(image, x, z).len() <= MAX_LZ4_PAYLOAD
    }
}

/// All chunks of the region are sound.
pub open spec fn chunks_are_sound(image: Seq<u8>) -> bool {
    forall|x: int, z: int| 0 <= x < 32 && 0 <= z < 32 ==> #[trigger] chunk_is_sound(image, x, z)
}

/// Whether a chunk of the region is sound.
fn has_sound_chunk(image: &[u8], x: usize, z: usize) -> (r: bool)
    requires
        image@.len() >= SECTOR_SIZE,
        x < 32,
        z < 32,
    ensures
        r == chunk_is_sound(image@, x as int, z as int),
{
    let at: usize = 4 * (x + 32 * z);
    let sector: u64 = image[at] as u64 * 65536 + image[at + 1] as u64 * 256 + image[at + 2] as u64;
    let start: u64 = sector * 4096;
    if (sector == 0 && image[at + 3] == 0) || start + 5 > image.len() as u64 {
        return true;
    }
    let start: usize = start as usize;
    let scheme: u8 = image[start + 4];
    if scheme < 1 || scheme > 4 {
        return true;
    }
    let length: u64 = image[start] as u64 * 16777216 + image[start + 1] as u64 * 65536 + image[start
        + 2] as u64 * 256 + image[start + 3] as u64;
    if length == 0 {
        return false;
    }
    let rest: u64 = image.len() as u64 - start as u64 - 5;
    let payload: u64 = if length - 1 < rest {
        length - 1
    } else {
        rest
    };
    scheme != 4 || payload <= MAX_LZ4_PAYLOAD as u64
}

/// Whether all chunks of the region are sound.
pub fn has_sound_chunks(image: &[u8]) -> (r: bool)
    requires
        image@.len() >= SECTOR_SIZE,
    ensures
        r == chunks_are_sound(image@),
{
    let mut z: usize = 0;
    while z < 32
        invariant
            z <= 32,
            image@.len() >= SECTOR_SIZE,
            forall|x1: int, z1: int|
                0 <= x1 < 32 && 0 <= z1 < z ==> #[trigger] chunk_is_sound(image@, x1, z1),
        decreases 32 - z,
    {
        let mut x: usize = 0;
        while x < 32
            invariant
                z < 32,
                x <= 32,
                image@.len() >= SECTOR_SIZE,
                forall|x1: int, z1: int|
                    0 <= x1 < 32 && 0 <= z1 < z ==> #[trigger] chunk_is_sound(image@, x1, z1),
                forall|x1: int| 0 <= x1 < x ==> #[trigger] chunk_is_sound(image@, x1, z as int),
            decreases 32 - x,
        {
            if !has_sound_chunk(image, x, z) {
                return false;
            }
            x += 1;
        }
        z += 1;
    }
    true
}

/// How many sectors a payload of this length takes, with its header.
pub open spec fn sectors_for(payload_len: int) -> int {
    (payload_len + CHUNK_HEADER_SIZE + 4095) / 4096
}

/// The image stores this chunk under this scheme with this payload.
pub open spec fn stores_chunk(image: Seq<u8>, x: int, z: int, scheme: u8, payload: Seq<u8>) -> bool {
    &&& has_chunk(image, x, z)
    &&& has_chunk_header(image, x, z)
    &&& chunk_scheme(image, x, z) == scheme
    &&& chunk_length(image, x, z) == payload.len() + 1
    &&& chunk_start(image, x, z) + CHUNK_HEADER_SIZE + payload.len() <= image.len()
    &&& chunk_payload(image, x, z) == payload
}

/// Calls [`fastanvil::Region::from_stream`] on a stream in memory.
///
/// It reads the table of locations and nothing else, so that it works if and only if the table
/// is complete.
#[verifier::external_body]
pub(crate) fn open_region(image: Vec<u8>) -> (r: Result<
    fastanvil::Region<Cursor<Vec<u8>>>,
    RegionError,
>)
    ensures
        r is Ok <==> image@.len() >= SECTOR_SIZE,
        r matches Ok(region) ==> region_image(region) == image@,
        r matches Err(cause) ==> cause is Io,
{
    fastanvil::Region::from_stream(Cursor::new(image)).map_err(|cause| match cause {
        fastanvil::Error::IO(cause) => RegionError::Io(cause),
        fastanvil::Error::InvalidOffset(x, z) => RegionError::InvalidOffset(x, z),
        fastanvil::Error::UnknownCompression(scheme) => RegionError::UnknownCompression(scheme),
        fastanvil::Error::ChunkTooLarge => RegionError::ChunkTooLarge,
    })
}

/// Calls [`fastanvil::Region::create`] on a stream in memory.
///
/// It blanks the header and leaves what the stream holds behind it. The first chunk goes behind
/// the header. A stream in memory does not fail.
#[verifier::external_body]
pub(crate) fn create_region(image: Vec<u8>) -> (r: Result<
    fastanvil::Region<Cursor<Vec<u8>>>,
    RegionError,
>)
    ensures
        r is Ok,
        r matches Ok(region) ==> {
            &&& region_sectors(region) == seq![2nat]
            &&& region_image(region).len() == if image@.len() < HEADER_SIZE {
                HEADER_SIZE as nat
            } else {
                image@.len()
            }
            &&& forall|i: int| 0 <= i < HEADER_SIZE ==> region_image(region)[i] == 0
            &&& forall|i: int|
                HEADER_SIZE <= i < image@.len() ==> region_image(region)[i] == image@[i]
        },
{
    fastanvil::Region::create(Cursor::new(image)).map_err(|cause| match cause {
        fastanvil::Error::IO(cause) => RegionError::Io(cause),
        fastanvil::Error::InvalidOffset(x, z) => RegionError::InvalidOffset(x, z),
        fastanvil::Error::UnknownCompression(scheme) => RegionError::UnknownCompression(scheme),
        fastanvil::Error::ChunkTooLarge => RegionError::ChunkTooLarge,
    })
}

/// Calls [`fastanvil::Region::read_chunk`] on a region in memory.
///
/// It follows the location to the chunk header and hands the payload to the decoder of the
/// scheme. Where the chunk header gives a length of zero it computes the length of the payload
/// with an overflow, and the lz4 decoder adds up lengths that may overflow in a payload of more
/// than 16 million bytes.
#[verifier::external_body]
pub(crate) fn read_chunk(region: &mut fastanvil::Region<Cursor<Vec<u8>>>, x: usize, z: usize) -> (r:
    Result<Option<Vec<u8>>, RegionError>)
    requires
        x < REGION_SIDE,
        z < REGION_SIDE,
        region_image(*old(region)).len() >= SECTOR_SIZE,
        chunk_is_sound(region_image(*old(region)), x as int, z as int),
    ensures
        region_image(*final(region)) == region_image(*old(region)),
        region_sectors(*final(region)) == region_sectors(*old(region)),
        match chunk_content(region_image(*old(region)), x as int, z as int) {
            ChunkContent::Absent => r matches Ok(None),
            ChunkContent::Data(data) => r matches Ok(Some(read)) && read@ == data,
            ChunkContent::UnknownScheme(scheme) => r matches Err(
                RegionError::UnknownCompression(reported),
            ) && reported == scheme,
            ChunkContent::Damaged => r matches Err(RegionError::Io(_)),
        },
{
    region.read_chunk(x, z).map_err(|cause| match cause {
        fastanvil::Error::IO(cause) => RegionError::Io(cause),
        fastanvil::Error::InvalidOffset(x, z) => RegionError::InvalidOffset(x, z),
        fastanvil::Error::UnknownCompression(scheme) => RegionError::UnknownCompression(scheme),
        fastanvil::Error::ChunkTooLarge => RegionError::ChunkTooLarge,
    })
}

/// At `sector` the image now holds a chunk header and a payload, and it has become no shorter.
pub open spec fn chunk_appended(
    before: Seq<u8>,
    after: Seq<u8>,
    sector: nat,
    scheme: u8,
    payload: Seq<u8>,
) -> bool {
    let start = sector * SECTOR_SIZE;
    let from = start + CHUNK_HEADER_SIZE;
    &&& after.len() >= before.len()
    &&& after.len() >= from + payload.len()
    &&& be_u32(after, start) == payload.len() + 1
    &&& after[start + 4] == scheme
    &&& after.subrange(from, from + payload.len()) == payload
}

/// The big endian bytes of a number of 32 bits.
pub open spec fn be_bytes(n: int) -> Seq<u8> {
    seq![
        (n / 16777216) as u8,
        (n / 65536 % 256) as u8,
        (n / 256 % 256) as u8,
        (n % 256) as u8,
    ]
}

/// What stands in the sectors of a chunk: the length, the scheme, the payload, and zeros up to
/// the end of the last sector.
pub open spec fn chunk_bytes(scheme: u8, payload: Seq<u8>) -> Seq<u8> {
    let filled = be_bytes((payload.len() + 1) as int) + seq![scheme] + payload;
    let padding = sectors_for(payload.len() as int) * SECTOR_SIZE - filled.len();
    filled + Seq::new(padding as nat, |i: int| 0u8)
}

/// The image with the location of a chunk filled in.
pub open spec fn located(image: Seq<u8>, x: int, z: int, sector: int, sectors: int) -> Seq<u8> {
    let at = location_at(x, z);
    image.update(at, (sector / 65536) as u8).update(at + 1, (sector / 256 % 256) as u8).update(
        at + 2,
        (sector % 256) as u8,
    ).update(at + 3, sectors as u8)
}

/// The image with a chunk added behind its last sector. A chunk that takes more sectors than
/// a location can say does not get a location.
pub open spec fn extended(
    image: Seq<u8>,
    x: int,
    z: int,
    sector: int,
    scheme: u8,
    payload: Seq<u8>,
) -> Seq<u8> {
    let sectors = sectors_for(payload.len() as int);
    if sectors <= MAX_CHUNK_SECTORS {
        located(image, x, z, sector, sectors) + chunk_bytes(scheme, payload)
    } else {
        image + chunk_bytes(scheme, payload)
    }
}

/// Calls [`fastanvil::Region::write_compressed_chunk`] on a region in memory
/// that does not have the chunk yet.
///
/// It puts chunk header and payload at the next free sector, and then the location, unless the
/// chunk takes more sectors than a location can say. Everything before the free sector stays as
/// it was. An image that ends at the free sector is filled up with zeros to the end of a sector.
/// A stream in memory does not fail.
#[verifier::external_body]
pub(crate) fn write_compressed_chunk(
    region: &mut fastanvil::Region<Cursor<Vec<u8>>>,
    x: usize,
    z: usize,
    scheme: CompressionScheme,
    payload: &[u8],
) -> (r: Result<(), RegionError>)
    requires
        x < REGION_SIDE,
        z < REGION_SIDE,
        region_image(*old(region)).len() >= SECTOR_SIZE,
        !has_chunk(region_image(*old(region)), x as int, z as int),
        region_sectors(*old(region)).len() != 0,
        1 <= region_sectors(*old(region)).last() < SECTOR_LIMIT,
        payload@.len() < u32::MAX,
    ensures
        r is Ok <==> sectors_for(payload@.len() as int) <= MAX_CHUNK_SECTORS,
        r matches Err(cause) ==> cause is ChunkTooLarge,
        region_sectors(*final(region)) == region_sectors(*old(region)).push(
            (region_sectors(*old(region)).last() + sectors_for(payload@.len() as int)) as nat,
        ),
        chunk_appended(
            region_image(*old(region)),
            region_image(*final(region)),
            region_sectors(*old(region)).last(),
            scheme.code(),
            payload@,
        ),
        forall|i: int|
            0 <= i < region_image(*old(region)).len() && i < region_sectors(*old(region)).last()
                * SECTOR_SIZE && !(r is Ok && location_at(x as int, z as int) <= i < location_at(
                x as int,
                z as int,
            ) + 4) ==> #[trigger] region_image(*final(region))[i] == region_image(*old(region))[i],
        region_image(*old(region)).len() == region_sectors(*old(region)).last() * SECTOR_SIZE
            ==> region_image(*final(region)) == extended(
            region_image(*old(region)),
            x as int,
            z as int,
            region_sectors(*old(region)).last() as int,
            scheme.code(),
            payload@,
        ),
        r is Ok ==> chunk_sector(region_image(*final(region)), x as int, z as int)
            == region_sectors(*old(region)).last(),
        r is Ok ==> chunk_sector_count(region_image(*final(region)), x as int, z as int)
            == sectors_for(payload@.len() as int),
{
    let scheme = match scheme {
        CompressionScheme::Gzip => fastanvil::CompressionScheme::Gzip,
        CompressionScheme::Zlib => fastanvil::CompressionScheme::Zlib,
        CompressionScheme::Uncompressed => fastanvil::CompressionScheme::Uncompressed,
        CompressionScheme::Lz4 => fastanvil::CompressionScheme::Lz4,
    };
    region.write_compressed_chunk(x, z, scheme, payload).map_err(|cause| match cause {
        fastanvil::Error::IO(cause) => RegionError::Io(cause),
        fastanvil::Error::InvalidOffset(x, z) => RegionError::InvalidOffset(x, z),
        fastanvil::Error::UnknownCompression(scheme) => RegionError::UnknownCompression(scheme),
        fastanvil::Error::ChunkTooLarge => RegionError::ChunkTooLarge,
    })
}

/// The chunk that starts last lies inside the image with all that its header counts.
pub open spec fn last_chunk_complete(image: Seq<u8>, sectors: Seq<nat>) -> bool {
    sectors.len() >= 2 ==> {
        let start = sectors[sectors.len() - 2] * SECTOR_SIZE;
        &&& start + 4 <= image.len()
        &&& start + 4 + be_u32(image, start) <= image.len()
        &&& be_u32(image, start) + 4 <= u32::MAX
    }
}

/// Calls [`fastanvil::Region::into_inner`] on a region in memory.
///
/// It moves the stream to the end of the chunk that starts last, for which it reads the length in
/// its header, and hands out the stream as it is.
#[verifier::external_body]
pub(crate) fn close_region(region: fastanvil::Region<Cursor<Vec<u8>>>) -> (r: Result<
    Vec<u8>,
    std::io::Error,
>)
    requires
        region_sectors(region).len() != 0,
        last_chunk_complete(region_image(region), region_sectors(region)),
    ensures
        r is Ok,
        r matches Ok(image) ==> image@ == region_image(region),
{
    region.into_inner().map(Cursor::into_inner)
}

/// The regions whose chunks are sound are those in which no chunk that can be read has a length of
/// zero, and no lz4 chunk a payload of more than 16 million bytes. A chunk that is missing, lies
/// outside of the file or has an unknown scheme does no harm.
pub proof fn unsound_chunks_are_empty_or_excessive(image: &[u8], r: bool)
    requires
        call_ensures(has_sound_chunks, (image,), r),
    ensures
        !r <==> exists|x: int, z: int|
            0 <= x < 32 && 0 <= z < 32 && #[trigger] has_chunk(image@, x, z) && has_chunk_header(
                image@,
                x,
                z,
            ) && 1 <= chunk_scheme(image@, x, z) <= 4 && (chunk_length(image@, x, z) == 0
                || chunk_scheme(image@, x, z) == 4 && chunk_payload(image@, x, z).len()
                > 16_000_000),
{
    assert forall|x: int, z: int| #![trigger chunk_is_sound(image@, x, z)]
        !chunk_is_sound(image@, x, z) == (has_chunk(image@, x, z) && has_chunk_header(image@, x, z)
            && 1 <= chunk_scheme(image@, x, z) <= 4 && (chunk_length(image@, x, z) == 0
            || chunk_scheme(image@, x, z) == 4 && chunk_payload(image@, x, z).len() > 16_000_000)) by {
        if has_chunk_header(image@, x, z) {
            assert(chunk_length(image@, x, z) >= 0);
        }
    }
    if !chunks_are_sound(image@) {
        let (x, z) = choose|x: int, z: int|
            0 <= x < 32 && 0 <= z < 32 && !#[trigger] chunk_is_sound(image@, x, z);
        assert(has_chunk(image@, x, z));
    }
    if chunks_are_sound(image@) {
        assert forall|x: int, z: int|
            0 <= x < 32 && 0 <= z < 32 && #[trigger] has_chunk(image@, x, z) && has_chunk_header(
                image@,
                x,
                z,
            ) && 1 <= chunk_scheme(image@, x, z) <= 4 implies !(chunk_length(image@, x, z) == 0
            || chunk_scheme(image@, x, z) == 4 && chunk_payload(image@, x, z).len()
            > 16_000_000) by {
            assert(chunk_is_sound(image@, x, z));
        }
    }
}

} // verus!
