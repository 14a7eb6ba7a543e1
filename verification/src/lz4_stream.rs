//! The lz4 streams that region files hold.
//!
//! A stream is a row of frames with a mark at its end. A frame is a block behind a header of
//! 21 bytes: the word `LZ4Block`, a token, the length of the block, the length of what it decodes
//! to, and a checksum of that (four bytes each, little endian). The token says in its upper half
//! how the block is compressed and in its lower half how long what it decodes to can be.
use vstd::prelude::*;
use vstd::slice::slice_subrange;
use crate::codec::{decompressed, is_lz4_block, lz4_bound, xxhash32};
use crate::codec::{hash_xx32, lz4_block, Lz4Mode};

verus! {

/// The most that a block can decode to.
pub const MAX_LZ4_BLOCK: usize = 33_554_432;

/// A block that decodes to no more than this is a small one.
pub const SMALL_LZ4_BLOCK: usize = 65_536;

/// The token of a small block.
pub const SMALL_BLOCK_TOKEN: u8 = 0x26;

/// The token of a block that is not small.
pub const LARGE_BLOCK_TOKEN: u8 = 0x2f;

/// The token of the mark at the end, which is a block of nothing that is not compressed.
pub const END_TOKEN: u8 = 0x16;

/// The seed of the checksums.
pub const CHECKSUM_SEED: u32 = 0x9747_b28c;

/// The length of a header.
pub const LZ4_HEADER_LEN: usize = 21;

/// The little endian bytes of a number of 32 bits.
pub open spec fn le_bytes(n: int) -> Seq<u8> {
    seq![
        (n % 256) as u8,
        (n / 256 % 256) as u8,
        (n / 65536 % 256) as u8,
        (n / 16777216) as u8,
    ]
}

/// The header of a frame.
pub open spec fn lz4_header(token: u8, block_len: int, data_len: int, checksum: int) -> Seq<u8> {
    seq![0x4cu8, 0x5au8, 0x34u8, 0x42u8, 0x6cu8, 0x6fu8, 0x63u8, 0x6bu8, token] + le_bytes(
        block_len,
    ) + le_bytes(data_len) + le_bytes(checksum)
}

/// The checksum of what a block decodes to: the upper four bits of the hash are left out.
pub open spec fn lz4_checksum(data: Seq<u8>) -> int {
    xxhash32(CHECKSUM_SEED, data) as int % 0x1000_0000
}

/// The token of a block that decodes to this many bytes.
pub open spec fn block_token(data_len: int) -> u8 {
    if data_len <= SMALL_LZ4_BLOCK {
        SMALL_BLOCK_TOKEN
    } else {
        LARGE_BLOCK_TOKEN
    }
}

/// The frame of a block that decodes to `data`. For nothing there is no frame.
pub open spec fn lz4_frame(block: Seq<u8>, data: Seq<u8>) -> Seq<u8> {
    if data.len() == 0 {
        Seq::empty()
    } else {
        lz4_header(
            block_token(data.len() as int),
            block.len() as int,
            data.len() as int,
            lz4_checksum(data),
        ) + block
    }
}

/// The mark at the end of a stream.
pub open spec fn lz4_end_mark() -> Seq<u8> {
    lz4_header(END_TOKEN, 0, 0, 0)
}

/// Whatever decodes, decodes to `data` and what it decodes to by itself when `frames` stand
/// before it.
pub open spec fn decodes_before_rest(frames: Seq<u8>, data: Seq<u8>) -> bool {
    forall|rest: Seq<u8>|
        decompressed(4, rest) is Some ==> #[trigger] decompressed(4, frames + rest) == Some(
            data + decompressed(4, rest)->0,
        )
}

/// The most bytes that the stream of this many bytes of data has: every frame may be as long as
/// its header and the bound of its block, and the mark comes last.
pub open spec fn lz4_stream_bound(len: int) -> int {
    len + len / 255 + (len / (MAX_LZ4_BLOCK as int) + 1) * (LZ4_HEADER_LEN + 16) + LZ4_HEADER_LEN
}

/// The piece of the data that goes into the block that comes `index`-th.
pub open spec fn lz4_piece(data: Seq<u8>, index: int) -> Seq<u8> {
    let from = index * MAX_LZ4_BLOCK;
    if data.len() - from <= MAX_LZ4_BLOCK {
        data.subrange(from, data.len() as int)
    } else {
        data.subrange(from, from + MAX_LZ4_BLOCK)
    }
}

/// How many pieces this many bytes of data are cut into: as few as there can be.
pub open spec fn lz4_piece_count(len: int) -> int {
    (len + MAX_LZ4_BLOCK - 1) / (MAX_LZ4_BLOCK as int)
}

/// The frames of the first blocks, one behind the other.
pub open spec fn lz4_frames(data: Seq<u8>, blocks: Seq<Seq<u8>>) -> Seq<u8>
    decreases blocks.len(),
{
    if blocks.len() == 0 {
        Seq::empty()
    } else {
        lz4_frames(data, blocks.drop_last()) + lz4_frame(
            blocks.last(),
            lz4_piece(data, blocks.len() - 1),
        )
    }
}

/// The blocks are those that the lz4 compressor puts out for the first pieces of the data
/// in this mode.
pub open spec fn are_lz4_blocks(mode: Lz4Mode, data: Seq<u8>, blocks: Seq<Seq<u8>>) -> bool {
    forall|i: int|
        0 <= i < blocks.len() ==> is_lz4_block(mode, lz4_piece(data, i), #[trigger] blocks[i])
}

/// The stream holds all of the data, as the lz4 compressor compresses it in this mode.
pub open spec fn is_lz4_stream(mode: Lz4Mode, data: Seq<u8>, stream: Seq<u8>) -> bool {
    exists|blocks: Seq<Seq<u8>>| #[trigger]
        are_lz4_blocks(mode, data, blocks) && blocks.len() == lz4_piece_count(data.len() as int)
            && stream == lz4_frames(data, blocks) + lz4_end_mark()
}

fn push_le(bytes: &mut Vec<u8>, n: u32)
    ensures
        final(bytes)@ == old(bytes)@ + le_bytes(n as int),
{
    bytes.push((n % 256) as u8);
    bytes.push((n / 256 % 256) as u8);
    bytes.push((n / 65536 % 256) as u8);
    bytes.push((n / 16777216) as u8);
    assert(bytes@ =~= old(bytes)@ + le_bytes(n as int));
}

fn push_header(bytes: &mut Vec<u8>, token: u8, block_len: u32, data_len: u32, checksum: u32)
    ensures
        final(bytes)@ == old(bytes)@ + lz4_header(
            token,
            block_len as int,
            data_len as int,
            checksum as int,
        ),
{
    bytes.push(0x4c);
    bytes.push(0x5a);
    bytes.push(0x34);
    bytes.push(0x42);
    bytes.push(0x6c);
    bytes.push(0x6f);
    bytes.push(0x63);
    bytes.push(0x6b);
    bytes.push(token);
    push_le(bytes, block_len);
    push_le(bytes, data_len);
    push_le(bytes, checksum);
    assert(bytes@ =~= old(bytes)@ + lz4_header(
        token,
        block_len as int,
        data_len as int,
        checksum as int,
    ));
}

/// Make the frame of one block.
fn compress_frame(data: &[u8], mode: Lz4Mode) -> (r: Result<
    (Vec<u8>, Ghost<Seq<u8>>),
    std::io::Error,
>)
    requires
        0 < data@.len() <= MAX_LZ4_BLOCK,
    ensures
        r is Ok,
        r matches Ok((frame, block)) ==> {
            &&& is_lz4_block(mode, data@, block@)
            &&& frame@ == lz4_frame(block@, data@)
            &&& decompressed(4, frame@ + lz4_end_mark()) == Some(data@)
            &&& decodes_before_rest(frame@, data@)
            &&& frame@.len() <= LZ4_HEADER_LEN + lz4_bound(data@.len() as int)
        },
{
    let mut block = match lz4_block(data, mode) {
        Ok(block) => block,
        Err(cause) => return Err(cause),
    };
    let checksum: u32 = hash_xx32(CHECKSUM_SEED, data) % 0x1000_0000;
    let token: u8 = if data.len() <= SMALL_LZ4_BLOCK {
        SMALL_BLOCK_TOKEN
    } else {
        LARGE_BLOCK_TOKEN
    };
    let mut frame: Vec<u8> = Vec::new();
    push_header(&mut frame, token, block.len() as u32, data.len() as u32, checksum);
    let ghost framed = block@;
    frame.append(&mut block);
    assert(frame@ =~= lz4_frame(framed, data@));
    Ok((frame, Ghost(framed)))
}

/// The mark alone stands for nothing.
fn end_mark() -> (r: Result<Vec<u8>, std::io::Error>)
    ensures
        r is Ok,
        r matches Ok(mark) ==> mark@ == lz4_end_mark(),
        r matches Ok(mark) ==> decompressed(4, mark@) == Some(Seq::<u8>::empty()),
{
    let nothing: Vec<u8> = Vec::new();
    if let Err(cause) = lz4_block(nothing.as_slice(), Lz4Mode::Default) {
        return Err(cause);
    }
    let mut mark: Vec<u8> = Vec::new();
    push_header(&mut mark, END_TOKEN, 0, 0, 0);
    proof {
        assert(mark@ =~= lz4_end_mark());
        assert(lz4_frame(Seq::empty(), nothing@) + lz4_end_mark() =~= lz4_end_mark());
        assert(nothing@ =~= Seq::empty());
    }
    Ok(mark)
}

/// Compress data to an lz4 stream, in blocks as large as they can be.
pub(crate) fn lz4_compress(data: &[u8], mode: Lz4Mode) -> (r: Result<Vec<u8>, std::io::Error>)
    ensures
        r is Ok,
        r matches Ok(stream) ==> is_lz4_stream(mode, data@, stream@),
        r matches Ok(stream) ==> decompressed(4, stream@) == Some(data@),
        r matches Ok(stream) ==> stream@.len() <= lz4_stream_bound(data@.len() as int),
{
    let mut stream: Vec<u8> = Vec::new();
    let mut done: usize = 0;
    let ghost mut blocks: Seq<Seq<u8>> = Seq::empty();
    proof {
        assert forall|rest: Seq<u8>| decompressed(4, rest) is Some implies #[trigger] decompressed(
            4,
            stream@ + rest,
        ) == Some(data@.take(0) + decompressed(4, rest)->0) by {
            assert(stream@ + rest =~= rest);
            assert(data@.take(0) + decompressed(4, rest)->0 =~= decompressed(4, rest)->0);
        }
    }
    while done < data.len()
        invariant
            done <= data@.len(),
            decodes_before_rest(stream@, data@.take(done as int)),
            are_lz4_blocks(mode, data@, blocks),
            stream@ == lz4_frames(data@, blocks),
            done < data@.len() ==> done == blocks.len() * MAX_LZ4_BLOCK,
            done == data@.len() ==> blocks.len() == lz4_piece_count(data@.len() as int),
            stream@.len() <= done + done / 255 + blocks.len() * (LZ4_HEADER_LEN + 16),
        decreases data@.len() - done,
    {
        let len: usize = if data.len() - done > MAX_LZ4_BLOCK {
            MAX_LZ4_BLOCK
        } else {
            data.len() - done
        };
        let piece = slice_subrange(data, done, done + len);
        let (mut frame, block) = match compress_frame(piece, mode) {
            Ok(framed) => framed,
            Err(cause) => return Err(cause),
        };
        let ghost before = stream@;
        let ghost framed = frame@;
        stream.append(&mut frame);
        proof {
            let so_far = data@.take(done as int);
            let more = data@.take(done + len);
            assert(more =~= so_far + piece@);
            assert forall|rest: Seq<u8>|
                decompressed(4, rest) is Some implies #[trigger] decompressed(4, stream@ + rest)
                == Some(more + decompressed(4, rest)->0) by {
                assert(decompressed(4, framed + rest) == Some(piece@ + decompressed(4, rest)->0));
                assert(stream@ + rest =~= before + (framed + rest));
                assert(so_far + (piece@ + decompressed(4, rest)->0) =~= more + decompressed(
                    4,
                    rest,
                )->0);
            }
            let taken = blocks.push(block@);
            assert(taken.drop_last() =~= blocks);
            assert(piece@ =~= lz4_piece(data@, blocks.len() as int));
            assert(framed.len() <= len + len as int / 255 + 37);
            assert(done as int / 255 + len as int / 255 <= (done + len) / 255);
            assert((blocks.len() + 1) * 37 == blocks.len() * 37 + 37);
            blocks = taken;
        }
        done = done + len;
    }
    let mut mark = match end_mark() {
        Ok(mark) => mark,
        Err(cause) => return Err(cause),
    };
    let ghost frames = stream@;
    stream.append(&mut mark);
    proof {
        assert(stream@ =~= frames + lz4_end_mark());
        assert(data@.take(done as int) + Seq::<u8>::empty() =~= data@);
        assert(are_lz4_blocks(mode, data@, blocks));
        let len = data@.len() as int;
        assert(blocks.len() <= len / 33_554_432 + 1);
        assert(blocks.len() * 37 <= (len / 33_554_432 + 1) * 37);
    }
    Ok(stream)
}

/// Data of up to 32 MiB is compressed as a whole: its stream has a single block, and that is the one
/// that the compressor puts out for all of it in this mode. The stream of nothing has none.
pub proof fn data_is_compressed_as_a_whole(mode: Lz4Mode, data: Seq<u8>, stream: Seq<u8>)
    requires
        is_lz4_stream(mode, data, stream),
        data.len() <= 33_554_432,
    ensures
        data.len() > 0 ==> exists|block: Seq<u8>| #[trigger]
            is_lz4_block(mode, data, block) && stream == lz4_frame(block, data) + lz4_end_mark(),
        data.len() == 0 ==> stream == lz4_end_mark(),
{
    let blocks = choose|blocks: Seq<Seq<u8>>| #[trigger]
        are_lz4_blocks(mode, data, blocks) && blocks.len() == lz4_piece_count(data.len() as int)
            && stream == lz4_frames(data, blocks) + lz4_end_mark();
    reveal_with_fuel(lz4_frames, 2);
    if data.len() > 0 {
        assert(blocks.len() == 1);
        let block = blocks[0];
        assert(lz4_piece(data, 0) =~= data);
        assert(is_lz4_block(mode, data, block));
        assert(lz4_frames(data, blocks) =~= lz4_frame(block, data));
    } else {
        assert(lz4_frames(data, blocks) + lz4_end_mark() =~= lz4_end_mark());
    }
}

} // verus!
