//! How one region is rewritten into another.
use vstd::prelude::*;
use std::io::Cursor;
use crate::chunk::{nth_x, nth_z, RelativeChunkPos, REGION_CHUNKS};
use crate::errors::FileRecompressErrorKind;
use crate::options::{decoded, RecompressFileOptions};
use crate::region::{
    chunk_appended, chunk_bytes, chunk_content, chunk_is_sound, chunk_length, chunk_payload,
    chunk_scheme, chunk_sector, chunk_sector_count, chunk_start, chunks_are_sound, extended,
    has_chunk, has_chunk_header, last_chunk_complete, location_at, region_image, region_sectors,
    sectors_for, stores_chunk, ChunkContent,
};
use crate::region::{
    close_region, create_region, read_chunk, write_compressed_chunk, RegionError,
    CHUNK_HEADER_SIZE, HEADER_SIZE, MAX_CHUNK_SECTORS, MAX_PAYLOAD_LEN, SECTOR_SIZE,
};

verus! {

/// A chunk of a region is taken over: one that the region does not have stays away, and another
/// gets a payload that fits.
pub open spec fn takes_over_chunk(
    image: Seq<u8>,
    opts: RecompressFileOptions,
    index: int,
    payload: Option<Seq<u8>>,
) -> bool {
    match chunk_content(image, nth_x(index), nth_z(index)) {
        ChunkContent::Absent => payload is None,
        ChunkContent::Data(data) => {
            &&& payload matches Some(payload)
            &&& opts.is_payload(data, payload)
            &&& sectors_for(payload.len() as int) <= MAX_CHUNK_SECTORS
        },
        _ => false,
    }
}

/// The first chunks of a region, in storage order, are taken over under these payloads.
pub open spec fn takes_over(
    image: Seq<u8>,
    opts: RecompressFileOptions,
    payloads: Seq<Option<Seq<u8>>>,
) -> bool {
    forall|i: int|
        0 <= i < payloads.len() ==> #[trigger] takes_over_chunk(image, opts, i, payloads[i])
}

/// The sector behind the chunks with these payloads. The first goes behind the header, and each
/// where the one before it ends.
pub open spec fn next_sector(payloads: Seq<Option<Seq<u8>>>) -> int
    decreases payloads.len(),
{
    if payloads.len() == 0 {
        2
    } else {
        next_sector(payloads.drop_last()) + match payloads.last() {
            Some(payload) => sectors_for(payload.len() as int),
            None => 0,
        }
    }
}

/// The region file that holds the first chunks under these payloads, and nothing else:
/// the chunks follow each other in storage order.
pub open spec fn packed(scheme: u8, payloads: Seq<Option<Seq<u8>>>) -> Seq<u8>
    decreases payloads.len(),
{
    if payloads.len() == 0 {
        Seq::new(HEADER_SIZE as nat, |i: int| 0u8)
    } else {
        let before = packed(scheme, payloads.drop_last());
        let index = payloads.len() - 1;
        match payloads.last() {
            Some(payload) => extended(
                before,
                nth_x(index),
                nth_z(index),
                next_sector(payloads.drop_last()),
                scheme,
                payload,
            ),
            None => before,
        }
    }
}

/// `after` holds the `i`-th chunk where and as it has to be.
pub open spec fn chunk_laid_out(
    scheme: u8,
    payloads: Seq<Option<Seq<u8>>>,
    after: Seq<u8>,
    i: int,
) -> bool {
    if i < payloads.len() && payloads[i] is Some {
        let payload = payloads[i]->0;
        &&& stores_chunk(after, nth_x(i), nth_z(i), scheme, payload)
        &&& chunk_sector(after, nth_x(i), nth_z(i)) == next_sector(payloads.take(i))
        &&& chunk_sector_count(after, nth_x(i), nth_z(i)) == sectors_for(payload.len() as int)
    } else {
        !has_chunk(after, nth_x(i), nth_z(i))
    }
}

/// `after` holds the first chunks under these payloads, one behind the other, and no other chunk.
/// Its table of times is blank.
pub open spec fn laid_out(scheme: u8, payloads: Seq<Option<Seq<u8>>>, after: Seq<u8>) -> bool {
    &&& after.len() >= HEADER_SIZE
    &&& forall|i: int| SECTOR_SIZE <= i < HEADER_SIZE ==> #[trigger] after[i] == 0
    &&& forall|i: int|
        0 <= i < REGION_CHUNKS ==> #[trigger] chunk_laid_out(scheme, payloads, after, i)
}

/// The error is the one that the chunk which comes `index`-th gives rise to.
pub open spec fn reports(
    image: Seq<u8>,
    opts: RecompressFileOptions,
    error: FileRecompressErrorKind,
    index: int,
) -> bool {
    let content = chunk_content(image, nth_x(index), nth_z(index));
    match error {
        FileRecompressErrorKind::ReadChunk { chunk, cause } => {
            &&& chunk.spec_x() == nth_x(index)
            &&& chunk.spec_z() == nth_z(index)
            &&& match content {
                ChunkContent::UnknownScheme(scheme) => cause == RegionError::UnknownCompression(
                    scheme,
                ),
                ChunkContent::Damaged => cause is Io,
                _ => false,
            }
        },
        FileRecompressErrorKind::WriteChunk { chunk, cause } => {
            &&& chunk.spec_x() == nth_x(index)
            &&& chunk.spec_z() == nth_z(index)
            &&& cause is ChunkTooLarge
            &&& content matches ChunkContent::Data(data)
            &&& exists|payload: Seq<u8>| #[trigger]
                opts.is_payload(data, payload) && sectors_for(payload.len() as int)
                    > MAX_CHUNK_SECTORS
        },
        _ => false,
    }
}

/// The outcome of a recompression under which the first chunks got these payloads.
///
/// The chunks are gone through in storage order, up to the first that cannot be taken over.
/// Where the output held nothing before (`fresh`), its bytes are fixed to the last one, but for
/// a chunk that turned out too large and may stand behind the others without a location.
pub open spec fn outcome(
    image: Seq<u8>,
    opts: RecompressFileOptions,
    fresh: bool,
    after: Seq<u8>,
    result: Result<(), FileRecompressErrorKind>,
    payloads: Seq<Option<Seq<u8>>>,
) -> bool {
    let scheme = opts.compression_algorithm.scheme().code();
    &&& takes_over(image, opts, payloads)
    &&& laid_out(scheme, payloads, after)
    &&& match result {
        Ok(()) => {
            &&& payloads.len() == REGION_CHUNKS
            &&& fresh ==> after == packed(scheme, payloads)
        },
        Err(error) => {
            &&& payloads.len() < REGION_CHUNKS
            &&& reports(image, opts, error, payloads.len() as int)
            &&& fresh ==> if error is WriteChunk {
                packed(scheme, payloads).is_prefix_of(after)
            } else {
                after == packed(scheme, payloads)
            }
        },
    }
}

/// The outcome of recompressing the chunks of `image` into `after`.
pub open spec fn recompressed(
    image: Seq<u8>,
    opts: RecompressFileOptions,
    fresh: bool,
    after: Seq<u8>,
    result: Result<(), FileRecompressErrorKind>,
) -> bool {
    exists|payloads: Seq<Option<Seq<u8>>>| #[trigger]
        outcome(image, opts, fresh, after, result, payloads)
}

/// All chunks of a region have the same content as those of another.
pub open spec fn same_chunks(image: Seq<u8>, after: Seq<u8>) -> bool {
    forall|x: int, z: int|
        0 <= x < 32 && 0 <= z < 32 ==> #[trigger] chunk_content(after, x, z) == chunk_content(
            image,
            x,
            z,
        )
}

/// All chunks of a region written so far lie between its header and the next free sector.
spec fn well_placed(after: Seq<u8>, next_sector: int) -> bool {
    forall|x: int, z: int|
        0 <= x < 32 && 0 <= z < 32 && #[trigger] has_chunk(after, x, z) ==> {
            &&& 2 <= chunk_sector(after, x, z)
            &&& has_chunk_header(after, x, z)
            &&& 1 <= chunk_length(after, x, z)
            &&& chunk_start(after, x, z) + 4 + chunk_length(after, x, z) <= after.len()
            &&& chunk_start(after, x, z) + 4 + chunk_length(after, x, z) <= next_sector
                * SECTOR_SIZE
        }
}

/// The image has not changed before `sector`, but perhaps for the location of one chunk.
spec fn kept_before(before: Seq<u8>, after: Seq<u8>, sector: int, x: int, z: int) -> bool {
    &&& after.len() >= before.len()
    &&& forall|i: int|
        0 <= i < before.len() && i < sector * SECTOR_SIZE && !(location_at(x, z) <= i < location_at(
            x,
            z,
        ) + 4) ==> #[trigger] after[i] == before[i]
}

/// The other chunks stay as they were when a chunk is added at the next free sector.
proof fn lemma_other_chunk_kept(
    before: Seq<u8>,
    after: Seq<u8>,
    sector: int,
    x: int,
    z: int,
    x2: int,
    z2: int,
)
    requires
        kept_before(before, after, sector, x, z),
        well_placed(before, sector),
        before.len() >= HEADER_SIZE,
        2 <= sector,
        0 <= x < 32,
        0 <= z < 32,
        0 <= x2 < 32,
        0 <= z2 < 32,
        (x2, z2) != (x, z),
    ensures
        has_chunk(after, x2, z2) == has_chunk(before, x2, z2),
        chunk_sector(after, x2, z2) == chunk_sector(before, x2, z2),
        chunk_sector_count(after, x2, z2) == chunk_sector_count(before, x2, z2),
        has_chunk(before, x2, z2) ==> {
            &&& has_chunk_header(after, x2, z2)
            &&& chunk_length(after, x2, z2) == chunk_length(before, x2, z2)
            &&& chunk_scheme(after, x2, z2) == chunk_scheme(before, x2, z2)
            &&& chunk_payload(after, x2, z2) == chunk_payload(before, x2, z2)
        },
        chunk_content(after, x2, z2) == chunk_content(before, x2, z2),
{
    let at = location_at(x2, z2);
    assert(after[at] == before[at]);
    assert(after[at + 1] == before[at + 1]);
    assert(after[at + 2] == before[at + 2]);
    assert(after[at + 3] == before[at + 3]);
    if has_chunk(before, x2, z2) {
        let start = chunk_start(before, x2, z2);
        assert(after[start] == before[start]);
        assert(after[start + 1] == before[start + 1]);
        assert(after[start + 2] == before[start + 2]);
        assert(after[start + 3] == before[start + 3]);
        assert(after[start + 4] == before[start + 4]);
        assert(chunk_payload(after, x2, z2) =~= chunk_payload(before, x2, z2));
    }
}

/// A chunk that was added is stored as it was handed over.
proof fn lemma_added_chunk_stored(
    before: Seq<u8>,
    after: Seq<u8>,
    sector: nat,
    x: int,
    z: int,
    scheme: u8,
    payload: Seq<u8>,
)
    requires
        chunk_appended(before, after, sector, scheme, payload),
        chunk_sector(after, x, z) == sector,
        sector >= 2,
    ensures
        stores_chunk(after, x, z, scheme, payload),
{
    assert(chunk_payload(after, x, z) =~= payload);
}

/// A chunk that is stored reads as what its payload decodes to.
proof fn lemma_stored_chunk_content(
    image: Seq<u8>,
    x: int,
    z: int,
    scheme: u8,
    payload: Seq<u8>,
    data: Seq<u8>,
)
    requires
        stores_chunk(image, x, z, scheme, payload),
        1 <= scheme <= 4,
        decoded(scheme, payload) == Some(data),
    ensures
        chunk_content(image, x, z) == ChunkContent::Data(data),
{
}

/// The chunks that an image holds stay where and as they are when something is written behind
/// them, and the table of times stays blank.
proof fn lemma_chunks_kept(
    scheme: u8,
    payloads: Seq<Option<Seq<u8>>>,
    before: Seq<u8>,
    after: Seq<u8>,
    sector: int,
    index: int,
)
    requires
        0 <= index < REGION_CHUNKS,
        payloads.len() == index,
        laid_out(scheme, payloads, before),
        well_placed(before, sector),
        2 <= sector,
        kept_before(before, after, sector, nth_x(index), nth_z(index)),
    ensures
        after.len() >= HEADER_SIZE,
        forall|i: int| SECTOR_SIZE <= i < HEADER_SIZE ==> #[trigger] after[i] == 0,
        forall|i: int|
            0 <= i < REGION_CHUNKS && i != index ==> #[trigger] chunk_laid_out(
                scheme,
                payloads,
                after,
                i,
            ),
{
    assert forall|i: int| SECTOR_SIZE <= i < HEADER_SIZE implies #[trigger] after[i] == 0 by {
        assert(after[i] == before[i]);
    }
    assert forall|i: int| 0 <= i < REGION_CHUNKS && i != index implies #[trigger] chunk_laid_out(
        scheme,
        payloads,
        after,
        i,
    ) by {
        assert(chunk_laid_out(scheme, payloads, before, i));
        lemma_other_chunk_kept(
            before,
            after,
            sector,
            nth_x(index),
            nth_z(index),
            nth_x(i),
            nth_z(i),
        );
    }
}

/// Once a chunk is written, the image holds one more chunk of those that it has to hold.
proof fn lemma_one_more_chunk(
    scheme: u8,
    payloads: Seq<Option<Seq<u8>>>,
    before: Seq<u8>,
    after: Seq<u8>,
    sector: nat,
    index: int,
    payload: Seq<u8>,
)
    requires
        0 <= index < REGION_CHUNKS,
        payloads.len() == index,
        laid_out(scheme, payloads, before),
        well_placed(before, sector as int),
        2 <= sector,
        sector == next_sector(payloads),
        kept_before(before, after, sector as int, nth_x(index), nth_z(index)),
        chunk_appended(before, after, sector, scheme, payload),
        chunk_sector(after, nth_x(index), nth_z(index)) == sector,
        chunk_sector_count(after, nth_x(index), nth_z(index)) == sectors_for(payload.len() as int),
    ensures
        laid_out(scheme, payloads.push(Some(payload)), after),
        next_sector(payloads.push(Some(payload))) == sector + sectors_for(payload.len() as int),
        well_placed(after, sector + sectors_for(payload.len() as int)),
        stores_chunk(after, nth_x(index), nth_z(index), scheme, payload),
{
    let x = nth_x(index);
    let z = nth_z(index);
    let more = payloads.push(Some(payload));
    assert(more.drop_last() =~= payloads);
    lemma_added_chunk_stored(before, after, sector, x, z, scheme, payload);
    lemma_chunks_kept(scheme, payloads, before, after, sector as int, index);
    assert forall|i: int| 0 <= i < REGION_CHUNKS implies #[trigger] chunk_laid_out(
        scheme,
        more,
        after,
        i,
    ) by {
        if i == index {
            assert(more.take(i) =~= payloads);
        } else {
            assert(chunk_laid_out(scheme, payloads, after, i));
            if i < index {
                assert(more.take(i) =~= payloads.take(i));
            }
        }
    }
    assert forall|x2: int, z2: int|
        0 <= x2 < 32 && 0 <= z2 < 32 && #[trigger] has_chunk(after, x2, z2) implies {
        &&& 2 <= chunk_sector(after, x2, z2)
        &&& has_chunk_header(after, x2, z2)
        &&& 1 <= chunk_length(after, x2, z2)
        &&& chunk_start(after, x2, z2) + 4 + chunk_length(after, x2, z2) <= after.len()
        &&& chunk_start(after, x2, z2) + 4 + chunk_length(after, x2, z2) <= (sector + sectors_for(
            payload.len() as int,
        )) * SECTOR_SIZE
    } by {
        if (x2, z2) != (x, z) {
            lemma_other_chunk_kept(before, after, sector as int, x, z, x2, z2);
            assert(has_chunk(before, x2, z2));
        }
    }
}

/// Once a chunk is written, it reads as what its payload decodes to, and those before it read as
/// they did.
proof fn lemma_contents_kept(
    image: Seq<u8>,
    before: Seq<u8>,
    after: Seq<u8>,
    sector: int,
    index: int,
    scheme: u8,
    payload: Seq<u8>,
    data: Seq<u8>,
)
    requires
        0 <= index < REGION_CHUNKS,
        before.len() >= HEADER_SIZE,
        well_placed(before, sector),
        2 <= sector,
        kept_before(before, after, sector, nth_x(index), nth_z(index)),
        stores_chunk(after, nth_x(index), nth_z(index), scheme, payload),
        1 <= scheme <= 4,
        decoded(scheme, payload) == Some(data),
        chunk_content(image, nth_x(index), nth_z(index)) == ChunkContent::Data(data),
        forall|k: int|
            0 <= k < index ==> #[trigger] chunk_content(before, nth_x(k), nth_z(k))
                == chunk_content(image, nth_x(k), nth_z(k)),
    ensures
        forall|k: int|
            0 <= k < index + 1 ==> #[trigger] chunk_content(after, nth_x(k), nth_z(k))
                == chunk_content(image, nth_x(k), nth_z(k)),
{
    let x = nth_x(index);
    let z = nth_z(index);
    lemma_stored_chunk_content(after, x, z, scheme, payload, data);
    assert forall|k: int| 0 <= k < index + 1 implies #[trigger] chunk_content(
        after,
        nth_x(k),
        nth_z(k),
    ) == chunk_content(image, nth_x(k), nth_z(k)) by {
        if k < index {
            lemma_other_chunk_kept(before, after, sector, x, z, nth_x(k), nth_z(k));
            assert(chunk_content(before, nth_x(k), nth_z(k)) == chunk_content(
                image,
                nth_x(k),
                nth_z(k),
            ));
        }
    }
}

/// A chunk that the region does not have changes nothing.
proof fn lemma_absent_chunk(scheme: u8, payloads: Seq<Option<Seq<u8>>>, after: Seq<u8>)
    requires
        payloads.len() < REGION_CHUNKS,
        laid_out(scheme, payloads, after),
    ensures
        laid_out(scheme, payloads.push(None), after),
        next_sector(payloads.push(None)) == next_sector(payloads),
        packed(scheme, payloads.push(None)) == packed(scheme, payloads),
{
    let more = payloads.push(None);
    assert(more.drop_last() =~= payloads);
    assert forall|i: int| 0 <= i < REGION_CHUNKS implies #[trigger] chunk_laid_out(
        scheme,
        more,
        after,
        i,
    ) by {
        assert(chunk_laid_out(scheme, payloads, after, i));
        if i < payloads.len() {
            assert(more.take(i) =~= payloads.take(i));
        }
    }
}

/// One more chunk is taken over.
proof fn lemma_takes_over_more(
    image: Seq<u8>,
    opts: RecompressFileOptions,
    payloads: Seq<Option<Seq<u8>>>,
    payload: Option<Seq<u8>>,
)
    requires
        takes_over(image, opts, payloads),
        takes_over_chunk(image, opts, payloads.len() as int, payload),
    ensures
        takes_over(image, opts, payloads.push(payload)),
{
    let more = payloads.push(payload);
    assert forall|i: int| 0 <= i < more.len() implies #[trigger] takes_over_chunk(
        image,
        opts,
        i,
        more[i],
    ) by {
        if i < payloads.len() {
            assert(takes_over_chunk(image, opts, i, payloads[i]));
        }
    }
}

/// A region without any chunk, behind whose header the first chunk will go.
pub open spec fn blank_region(image: Seq<u8>, sectors: Seq<nat>) -> bool {
    &&& image.len() >= HEADER_SIZE
    &&& sectors == seq![2nat]
    &&& forall|i: int| 0 <= i < HEADER_SIZE ==> #[trigger] image[i] == 0
}

/// Recompress every chunk of a region into another, blank region.
///
/// Chunks that the region does not have are passed over.
#[verifier::rlimit(60)]
pub(crate) fn recompress_regions(
    input_region: &mut fastanvil::Region<Cursor<Vec<u8>>>,
    output_region: &mut fastanvil::Region<Cursor<Vec<u8>>>,
    opts: &RecompressFileOptions,
) -> (r: Result<(), FileRecompressErrorKind>)
    requires
        opts.encodable(),
        region_image(*old(input_region)).len() >= SECTOR_SIZE,
        chunks_are_sound(region_image(*old(input_region))),
        blank_region(region_image(*old(output_region)), region_sectors(*old(output_region))),
    ensures
        region_image(*final(input_region)) == region_image(*old(input_region)),
        recompressed(
            region_image(*old(input_region)),
            *opts,
            region_image(*old(output_region)).len() == HEADER_SIZE,
            region_image(*final(output_region)),
            r,
        ),
        r is Ok ==> same_chunks(
            region_image(*old(input_region)),
            region_image(*final(output_region)),
        ),
        region_sectors(*final(output_region)).len() != 0,
        last_chunk_complete(
            region_image(*final(output_region)),
            region_sectors(*final(output_region)),
        ),
{
    let ghost image = region_image(*input_region);
    let ghost fresh = region_image(*output_region).len() == HEADER_SIZE;
    let ghost scheme = opts.compression_algorithm.scheme().code();
    let ghost mut payloads: Seq<Option<Seq<u8>>> = Seq::empty();
    let positions = RelativeChunkPos::all();
    let mut i: usize = 0;
    proof {
        assert forall|k: int| 0 <= k < REGION_CHUNKS implies #[trigger] chunk_laid_out(
            scheme,
            payloads,
            region_image(*output_region),
            k,
        ) by {
            let at = location_at(nth_x(k), nth_z(k));
            assert(region_image(*output_region)[at] == 0);
            assert(region_image(*output_region)[at + 1] == 0);
            assert(region_image(*output_region)[at + 2] == 0);
            assert(region_image(*output_region)[at + 3] == 0);
        }
        lemma_blank_well_placed(scheme, region_image(*output_region));
        if fresh {
            assert(region_image(*output_region) =~= packed(scheme, payloads));
        }
    }
    while i < REGION_CHUNKS
        invariant
            i <= REGION_CHUNKS,
            opts.encodable(),
            image == region_image(*old(input_region)),
            fresh == (region_image(*old(output_region)).len() == HEADER_SIZE),
            scheme == opts.compression_algorithm.scheme().code(),
            region_image(*input_region) == image,
            image.len() >= SECTOR_SIZE,
            chunks_are_sound(image),
            positions@.len() == REGION_CHUNKS,
            forall|k: int|
                0 <= k < REGION_CHUNKS ==> {
                    &&& (#[trigger] positions@[k]).spec_x() == nth_x(k)
                    &&& positions@[k].spec_z() == nth_z(k)
                },
            region_sectors(*output_region).len() != 0,
            2 <= region_sectors(*output_region).last() <= 2 + 255 * i,
            region_sectors(*output_region).last() == next_sector(payloads),
            payloads.len() == i,
            takes_over(image, *opts, payloads),
            laid_out(scheme, payloads, region_image(*output_region)),
            well_placed(region_image(*output_region), next_sector(payloads)),
            last_chunk_complete(region_image(*output_region), region_sectors(*output_region)),
            fresh ==> region_image(*output_region) == packed(scheme, payloads),
            fresh ==> region_image(*output_region).len() == next_sector(payloads) * SECTOR_SIZE,
            forall|k: int|
                0 <= k < i ==> #[trigger] chunk_content(
                    region_image(*output_region),
                    nth_x(k),
                    nth_z(k),
                ) == chunk_content(image, nth_x(k), nth_z(k)),
        decreases REGION_CHUNKS - i,
    {
        let chunk = positions[i];
        let ghost x = nth_x(i as int);
        let ghost z = nth_z(i as int);
        assert(chunk_is_sound(image, x, z));
        let ghost before = region_image(*output_region);
        let ghost sectors = region_sectors(*output_region);
        assert(chunk_laid_out(scheme, payloads, before, i as int));
        let chunk_data = match read_chunk(input_region, chunk.x(), chunk.z()) {
            Ok(chunk_data) => chunk_data,
            Err(cause) => {
                let r = Err(FileRecompressErrorKind::ReadChunk { chunk, cause });
                assert(outcome(image, *opts, fresh, before, r, payloads));
                return r;
            },
        };
        // skip missing chunks
        if let Some(chunk_data) = chunk_data {
            let compressed_data = match opts.compress(chunk_data.as_slice()) {
                Ok(compressed_data) => compressed_data,
                Err(cause) => {
                    return Err(
                        FileRecompressErrorKind::CompressChunk {
                            chunk,
                            algorithm: opts.compression_algorithm,
                            cause,
                        },
                    );
                },
            };
            let payload = compressed_data.as_slice();
            assert(opts.is_payload(chunk_data@, payload@));
            if payload.len() as u64 > MAX_PAYLOAD_LEN {
                let r = Err(
                    FileRecompressErrorKind::WriteChunk { chunk, cause: RegionError::ChunkTooLarge },
                );
                assert(outcome(image, *opts, fresh, before, r, payloads));
                return r;
            }
            let written = write_compressed_chunk(
                output_region,
                chunk.x(),
                chunk.z(),
                opts.compression_algorithm.fastanvil_scheme(),
                payload,
            );
            let ghost after = region_image(*output_region);
            assert(kept_before(before, after, sectors.last() as int, x, z));
            match written {
                Ok(()) => {
                    proof {
                        let more = payloads.push(Some(payload@));
                        assert(more.drop_last() =~= payloads);
                        lemma_one_more_chunk(
                            scheme,
                            payloads,
                            before,
                            after,
                            sectors.last(),
                            i as int,
                            payload@,
                        );
                        lemma_takes_over_more(image, *opts, payloads, Some(payload@));
                        lemma_contents_kept(
                            image,
                            before,
                            after,
                            sectors.last() as int,
                            i as int,
                            scheme,
                            payload@,
                            chunk_data@,
                        );
                        payloads = more;
                    }
                },
                Err(cause) => {
                    let r = Err(FileRecompressErrorKind::WriteChunk { chunk, cause });
                    proof {
                        lemma_chunks_kept(
                            scheme,
                            payloads,
                            before,
                            after,
                            sectors.last() as int,
                            i as int,
                        );
                        let at = location_at(x, z);
                        assert(after[at] == before[at]);
                        assert(after[at + 1] == before[at + 1]);
                        assert(after[at + 2] == before[at + 2]);
                        assert(after[at + 3] == before[at + 3]);
                        assert(chunk_laid_out(scheme, payloads, after, i as int));
                        if fresh {
                            assert(packed(scheme, payloads).is_prefix_of(after));
                        }
                        assert(outcome(image, *opts, fresh, after, r, payloads));
                    }
                    return r;
                },
            }
        } else {
            proof {
                lemma_takes_over_more(image, *opts, payloads, None);
                lemma_absent_chunk(scheme, payloads, before);
                payloads = payloads.push(None);
            }
        }
        i += 1;
    }
    proof {
        assert forall|x: int, z: int| 0 <= x < 32 && 0 <= z < 32 implies #[trigger] chunk_content(
            region_image(*output_region),
            x,
            z,
        ) == chunk_content(image, x, z) by {
            let k = x + 32 * z;
            assert(nth_x(k) == x && nth_z(k) == z);
            assert(chunk_content(region_image(*output_region), nth_x(k), nth_z(k))
                == chunk_content(image, nth_x(k), nth_z(k)));
        }
        let r = Ok(());
        assert(outcome(image, *opts, fresh, region_image(*output_region), r, payloads));
    }
    Ok(())
}

/// A region without any chunk has none that is out of place.
proof fn lemma_blank_well_placed(scheme: u8, after: Seq<u8>)
    requires
        laid_out(scheme, Seq::empty(), after),
    ensures
        well_placed(after, 2),
{
    assert forall|x: int, z: int| 0 <= x < 32 && 0 <= z < 32 implies !#[trigger] has_chunk(
        after,
        x,
        z,
    ) by {
        let k = x + 32 * z;
        assert(nth_x(k) == x && nth_z(k) == z);
        assert(chunk_laid_out(scheme, Seq::empty(), after, k));
    }
}

/// Recompress a region into what a stream holds already, nothing as a rule.
/// The second part of the result is what the stream holds afterwards.
pub(crate) fn recompress_into(
    input_region: fastanvil::Region<Cursor<Vec<u8>>>,
    existing: Vec<u8>,
    opts: &RecompressFileOptions,
) -> (r: (Result<(), FileRecompressErrorKind>, Vec<u8>))
    requires
        opts.encodable(),
        region_image(input_region).len() >= SECTOR_SIZE,
        chunks_are_sound(region_image(input_region)),
    ensures
        recompressed(
            region_image(input_region),
            *opts,
            existing@.len() <= HEADER_SIZE,
            r.1@,
            r.0,
        ),
        r.0 is Ok ==> same_chunks(region_image(input_region), r.1@),
{
    let mut input_region = input_region;
    let mut output_region = match create_region(existing) {
        Ok(region) => region,
        Err(cause) => {
            return (Err(FileRecompressErrorKind::WriteOutput { cause }), Vec::new());
        },
    };
    let outcome = recompress_regions(&mut input_region, &mut output_region, opts);
    match close_region(output_region) {
        Ok(image) => (outcome, image),
        Err(cause) => {
            let cause = RegionError::Io(cause);
            (Err(FileRecompressErrorKind::WriteOutput { cause }), Vec::new())
        },
    }
}

/// Both images store this chunk under the same scheme with the same payload in the same sectors,
/// or neither has it.
pub open spec fn stored_alike(image: Seq<u8>, other: Seq<u8>, x: int, z: int) -> bool {
    &&& has_chunk(image, x, z) == has_chunk(other, x, z)
    &&& has_chunk(image, x, z) ==> {
        &&& chunk_scheme(image, x, z) == chunk_scheme(other, x, z)
        &&& chunk_payload(image, x, z) == chunk_payload(other, x, z)
        &&& chunk_sector(image, x, z) == chunk_sector(other, x, z)
        &&& chunk_sector_count(image, x, z) == chunk_sector_count(other, x, z)
    }
}

/// Under an algorithm that makes one payload of the data only, the chunks that two recompressions
/// of regions with the same content took over are the same.
proof fn lemma_same_payloads(
    image: Seq<u8>,
    other_image: Seq<u8>,
    opts: RecompressFileOptions,
    fresh: bool,
    after: Seq<u8>,
    result: Result<(), FileRecompressErrorKind>,
    payloads: Seq<Option<Seq<u8>>>,
    other_fresh: bool,
    other: Seq<u8>,
    other_result: Result<(), FileRecompressErrorKind>,
    other_payloads: Seq<Option<Seq<u8>>>,
)
    requires
        opts.compression_algorithm !is Lz4,
        same_chunks(image, other_image),
        outcome(image, opts, fresh, after, result, payloads),
        outcome(other_image, opts, other_fresh, other, other_result, other_payloads),
    ensures
        payloads == other_payloads,
{
    assert forall|i: int| 0 <= i < REGION_CHUNKS implies #[trigger] chunk_content(
        other_image,
        nth_x(i),
        nth_z(i),
    ) == chunk_content(image, nth_x(i), nth_z(i)) by {}
    assert forall|i: int|
        0 <= i < payloads.len() && i < other_payloads.len() implies #[trigger] payloads[i]
        == other_payloads[i] by {
        assert(takes_over_chunk(image, opts, i, payloads[i]));
        assert(takes_over_chunk(other_image, opts, i, other_payloads[i]));
        assert(chunk_content(other_image, nth_x(i), nth_z(i)) == chunk_content(
            image,
            nth_x(i),
            nth_z(i),
        ));
    }
    if payloads.len() < other_payloads.len() {
        let i = payloads.len() as int;
        assert(takes_over_chunk(other_image, opts, i, other_payloads[i]));
        assert(chunk_content(other_image, nth_x(i), nth_z(i)) == chunk_content(
            image,
            nth_x(i),
            nth_z(i),
        ));
        assert(reports(image, opts, result->Err_0, i));
    } else if other_payloads.len() < payloads.len() {
        let i = other_payloads.len() as int;
        assert(takes_over_chunk(image, opts, i, payloads[i]));
        assert(chunk_content(other_image, nth_x(i), nth_z(i)) == chunk_content(
            image,
            nth_x(i),
            nth_z(i),
        ));
        assert(reports(other_image, opts, other_result->Err_0, i));
    }
    assert(payloads =~= other_payloads);
}

/// The region and the options alone decide what a recompression comes to: whether it succeeds,
/// and where and under which payload every chunk is stored, also up to a failure. Where the output
/// held nothing before, its bytes are decided to the last one.
///
/// This is not so for lz4, which makes different streams of the same data on different machines.
pub proof fn recompression_is_deterministic(
    image: Seq<u8>,
    opts: RecompressFileOptions,
    fresh: bool,
    after: Seq<u8>,
    result: Result<(), FileRecompressErrorKind>,
    other_fresh: bool,
    other: Seq<u8>,
    other_result: Result<(), FileRecompressErrorKind>,
    x: int,
    z: int,
)
    requires
        opts.compression_algorithm !is Lz4,
        recompressed(image, opts, fresh, after, result),
        recompressed(image, opts, other_fresh, other, other_result),
        0 <= x < 32,
        0 <= z < 32,
    ensures
        result is Ok <==> other_result is Ok,
        stored_alike(after, other, x, z),
        fresh && other_fresh && result is Ok ==> after == other,
{
    let payloads = choose|payloads: Seq<Option<Seq<u8>>>| #[trigger]
        outcome(image, opts, fresh, after, result, payloads);
    let other_payloads = choose|payloads: Seq<Option<Seq<u8>>>| #[trigger]
        outcome(image, opts, other_fresh, other, other_result, payloads);
    lemma_same_payloads(
        image,
        image,
        opts,
        fresh,
        after,
        result,
        payloads,
        other_fresh,
        other,
        other_result,
        other_payloads,
    );
    let scheme = opts.compression_algorithm.scheme().code();
    let i = x + 32 * z;
    assert(nth_x(i) == x && nth_z(i) == z);
    assert(chunk_laid_out(scheme, payloads, after, i));
    assert(chunk_laid_out(scheme, payloads, other, i));
}

/// A region that was recompressed can be recompressed again under the same options, and nothing
/// changes: every chunk stays where it is under the payload that it has, and where the outputs
/// held nothing before, the second is the first.
///
/// This is not so for lz4, which may make another stream of the same data.
pub proof fn recompressing_again_changes_nothing(
    image: Seq<u8>,
    opts: RecompressFileOptions,
    fresh: bool,
    after: Seq<u8>,
    again_fresh: bool,
    again: Seq<u8>,
    result: Result<(), FileRecompressErrorKind>,
    x: int,
    z: int,
)
    requires
        opts.compression_algorithm !is Lz4,
        recompressed(image, opts, fresh, after, Ok(())),
        same_chunks(image, after),
        recompressed(after, opts, again_fresh, again, result),
        0 <= x < 32,
        0 <= z < 32,
    ensures
        result is Ok,
        stored_alike(after, again, x, z),
        fresh && again_fresh ==> again == after,
{
    let payloads = choose|payloads: Seq<Option<Seq<u8>>>| #[trigger]
        outcome(image, opts, fresh, after, Ok(()), payloads);
    let again_payloads = choose|payloads: Seq<Option<Seq<u8>>>| #[trigger]
        outcome(after, opts, again_fresh, again, result, payloads);
    lemma_same_payloads(
        image,
        after,
        opts,
        fresh,
        after,
        Ok(()),
        payloads,
        again_fresh,
        again,
        result,
        again_payloads,
    );
    let scheme = opts.compression_algorithm.scheme().code();
    let i = x + 32 * z;
    assert(nth_x(i) == x && nth_z(i) == z);
    assert(chunk_laid_out(scheme, payloads, after, i));
    assert(chunk_laid_out(scheme, payloads, again, i));
}

/// A region without chunks becomes the blank header and nothing else, where the output held
/// nothing before.
pub proof fn region_without_chunks_becomes_blank(
    image: Seq<u8>,
    opts: RecompressFileOptions,
    after: Seq<u8>,
    result: Result<(), FileRecompressErrorKind>,
)
    requires
        recompressed(image, opts, true, after, result),
        forall|x: int, z: int| 0 <= x < 32 && 0 <= z < 32 ==> !#[trigger] has_chunk(image, x, z),
    ensures
        result is Ok,
        after == Seq::new(HEADER_SIZE as nat, |i: int| 0u8),
{
    let payloads = choose|payloads: Seq<Option<Seq<u8>>>| #[trigger]
        outcome(image, opts, true, after, result, payloads);
    assert forall|i: int| 0 <= i < REGION_CHUNKS implies #[trigger] chunk_content(
        image,
        nth_x(i),
        nth_z(i),
    ) is Absent by {
        assert(!has_chunk(image, nth_x(i), nth_z(i)));
    }
    if result is Err {
        let index = payloads.len() as int;
        assert(chunk_content(image, nth_x(index), nth_z(index)) is Absent);
        assert(reports(image, opts, result->Err_0, index));
    }
    assert forall|i: int| 0 <= i < payloads.len() implies #[trigger] payloads[i] is None by {
        assert(takes_over_chunk(image, opts, i, payloads[i]));
        assert(chunk_content(image, nth_x(i), nth_z(i)) is Absent);
    }
    lemma_nothing_packed(opts.compression_algorithm.scheme().code(), payloads);
}

proof fn lemma_nothing_packed(scheme: u8, payloads: Seq<Option<Seq<u8>>>)
    requires
        forall|i: int| 0 <= i < payloads.len() ==> #[trigger] payloads[i] is None,
    ensures
        packed(scheme, payloads) == Seq::new(HEADER_SIZE as nat, |i: int| 0u8),
    decreases payloads.len(),
{
    if payloads.len() > 0 {
        assert(payloads.last() is None);
        lemma_nothing_packed(scheme, payloads.drop_last());
    }
}

/// A recompression that succeeds has taken over every chunk that the region has, and no other:
/// each is stored under the scheme of the algorithm, with what the algorithm makes of its data at
/// the level.
pub proof fn success_takes_over_every_chunk(
    image: Seq<u8>,
    opts: RecompressFileOptions,
    fresh: bool,
    after: Seq<u8>,
    x: int,
    z: int,
)
    requires
        recompressed(image, opts, fresh, after, Ok(())),
        0 <= x < 32,
        0 <= z < 32,
    ensures
        has_chunk(after, x, z) <==> has_chunk(image, x, z),
        has_chunk(image, x, z) ==> {
            &&& chunk_content(image, x, z) is Data
            &&& opts.is_payload(chunk_content(image, x, z)->Data_0, chunk_payload(after, x, z))
            &&& opts.compression_algorithm is Gzip ==> chunk_scheme(after, x, z) == 1
            &&& opts.compression_algorithm is Zlib ==> chunk_scheme(after, x, z) == 2
            &&& opts.compression_algorithm is Uncompressed ==> chunk_scheme(after, x, z) == 3
            &&& opts.compression_algorithm is Lz4 ==> chunk_scheme(after, x, z) == 4
        },
{
    let payloads = choose|payloads: Seq<Option<Seq<u8>>>| #[trigger]
        outcome(image, opts, fresh, after, Ok(()), payloads);
    let i = x + 32 * z;
    assert(nth_x(i) == x && nth_z(i) == z);
    assert(takes_over_chunk(image, opts, i, payloads[i]));
    assert(chunk_laid_out(opts.compression_algorithm.scheme().code(), payloads, after, i));
}

/// A recompression that fails names the first chunk, in storage order, that could not be read, or
/// that turned out too large for a region. The chunks before it have been taken over, and no
/// others.
pub proof fn failure_names_the_first_bad_chunk(
    image: Seq<u8>,
    opts: RecompressFileOptions,
    fresh: bool,
    after: Seq<u8>,
    error: FileRecompressErrorKind,
    x: int,
    z: int,
)
    requires
        recompressed(image, opts, fresh, after, Err(error)),
        0 <= x < 32,
        0 <= z < 32,
    ensures
        match error {
            FileRecompressErrorKind::ReadChunk { chunk, cause } => {
                &&& 0 <= chunk.spec_x() < 32 && 0 <= chunk.spec_z() < 32
                &&& match chunk_content(image, chunk.spec_x(), chunk.spec_z()) {
                    ChunkContent::UnknownScheme(scheme) => cause == RegionError::UnknownCompression(
                        scheme,
                    ),
                    ChunkContent::Damaged => cause is Io,
                    _ => false,
                }
                &&& z < chunk.spec_z() || z == chunk.spec_z() && x < chunk.spec_x() ==> {
                    &&& chunk_content(image, x, z) is Absent || chunk_content(image, x, z) is Data
                    &&& has_chunk(after, x, z) == has_chunk(image, x, z)
                }
                &&& z > chunk.spec_z() || z == chunk.spec_z() && x >= chunk.spec_x() ==> !has_chunk(
                    after,
                    x,
                    z,
                )
            },
            FileRecompressErrorKind::WriteChunk { chunk, cause } => {
                &&& 0 <= chunk.spec_x() < 32 && 0 <= chunk.spec_z() < 32
                &&& cause is ChunkTooLarge
                &&& chunk_content(image, chunk.spec_x(), chunk.spec_z()) is Data
                &&& exists|payload: Seq<u8>| #[trigger]
                    opts.is_payload(
                        chunk_content(image, chunk.spec_x(), chunk.spec_z())->Data_0,
                        payload,
                    ) && payload.len() + CHUNK_HEADER_SIZE > MAX_CHUNK_SECTORS * SECTOR_SIZE
                &&& z < chunk.spec_z() || z == chunk.spec_z() && x < chunk.spec_x() ==> {
                    &&& chunk_content(image, x, z) is Absent || chunk_content(image, x, z) is Data
                    &&& has_chunk(after, x, z) == has_chunk(image, x, z)
                }
                &&& z > chunk.spec_z() || z == chunk.spec_z() && x >= chunk.spec_x() ==> !has_chunk(
                    after,
                    x,
                    z,
                )
            },
            _ => false,
        },
{
    let payloads = choose|payloads: Seq<Option<Seq<u8>>>| #[trigger]
        outcome(image, opts, fresh, after, Err(error), payloads);
    let scheme = opts.compression_algorithm.scheme().code();
    let index = payloads.len() as int;
    assert(reports(image, opts, error, index));
    let i = x + 32 * z;
    assert(nth_x(i) == x && nth_z(i) == z);
    if i < index {
        assert(takes_over_chunk(image, opts, i, payloads[i]));
    }
    assert(chunk_laid_out(scheme, payloads, after, i));
    if error is WriteChunk {
        let data = chunk_content(image, nth_x(index), nth_z(index))->Data_0;
        let payload = choose|payload: Seq<u8>| #[trigger]
            opts.is_payload(data, payload) && sectors_for(payload.len() as int) > MAX_CHUNK_SECTORS;
        assert(payload.len() + CHUNK_HEADER_SIZE > MAX_CHUNK_SECTORS * SECTOR_SIZE);
    }
}

/// A region is recompressed if every chunk that it has can be read and becomes no larger than a
/// region can hold; and it is not if there is a chunk that cannot be read.
pub proof fn readable_regions_are_recompressed(
    image: Seq<u8>,
    opts: RecompressFileOptions,
    fresh: bool,
    after: Seq<u8>,
    result: Result<(), FileRecompressErrorKind>,
)
    requires
        recompressed(image, opts, fresh, after, result),
    ensures
        (forall|x: int, z: int|
            0 <= x < 32 && 0 <= z < 32 ==> match #[trigger] chunk_content(image, x, z) {
                ChunkContent::Absent => true,
                ChunkContent::Data(data) => forall|payload: Seq<u8>| #[trigger]
                    opts.is_payload(data, payload) ==> payload.len() + CHUNK_HEADER_SIZE
                        <= MAX_CHUNK_SECTORS * SECTOR_SIZE,
                _ => false,
            }) ==> result is Ok,
        result is Ok ==> forall|x: int, z: int|
            0 <= x < 32 && 0 <= z < 32 ==> {
                ||| #[trigger] chunk_content(image, x, z) is Absent
                ||| chunk_content(image, x, z) is Data
            },
{
    match result {
        Err(error) => {
            failure_names_the_first_bad_chunk(image, opts, fresh, after, error, 0, 0);
        },
        Ok(done) => {
            assert(done == ());
            assert forall|x: int, z: int| 0 <= x < 32 && 0 <= z < 32 implies {
                ||| #[trigger] chunk_content(image, x, z) is Absent
                ||| chunk_content(image, x, z) is Data
            } by {
                success_takes_over_every_chunk(image, opts, fresh, after, x, z);
            }
        },
    }
}

/// What a recompression leaves behind can be recompressed in turn: all of its chunks are sound.
pub proof fn recompressed_regions_are_sound(
    image: Seq<u8>,
    opts: RecompressFileOptions,
    fresh: bool,
    after: Seq<u8>,
    result: Result<(), FileRecompressErrorKind>,
)
    requires
        recompressed(image, opts, fresh, after, result),
    ensures
        chunks_are_sound(after),
        after.len() >= SECTOR_SIZE,
{
    let payloads = choose|payloads: Seq<Option<Seq<u8>>>| #[trigger]
        outcome(image, opts, fresh, after, result, payloads);
    let scheme = opts.compression_algorithm.scheme().code();
    assert forall|x: int, z: int| 0 <= x < 32 && 0 <= z < 32 implies #[trigger] chunk_is_sound(
        after,
        x,
        z,
    ) by {
        let i = x + 32 * z;
        assert(nth_x(i) == x && nth_z(i) == z);
        assert(chunk_laid_out(scheme, payloads, after, i));
        if i < payloads.len() {
            assert(takes_over_chunk(image, opts, i, payloads[i]));
        }
    }
}

} // verus!
