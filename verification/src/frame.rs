//! What a stream's process callback takes from one data block of a buffer:
//! the frame bytes that its chunk marks in the mapped memory, and the length
//! to map of a dma-buf.

use vstd::prelude::*;

use crate::video::{bytes_contents, bytes_copy_from_slice, VideoData};

verus! {

/// The part of a data block that holds valid bytes (`spa_chunk`).
#[derive(Clone, Copy, Debug, PartialEq, Eq, Structural)]
pub struct Chunk {
    /// Where the valid bytes start in the block.
    pub offset: u32,
    /// How many bytes are valid.
    pub size: u32,
    /// The length in bytes of a row, padding included.
    pub stride: i32,
}

/// A chunk marks a frame in mapped memory of `len` bytes when it is not empty
/// and lies within the memory.
pub open spec fn chunk_holds_frame(chunk: Chunk, len: nat) -> bool {
    chunk.size != 0 && chunk.offset + chunk.size <= len
}

/// The frame that `chunk` marks in the mapped memory `mapped`: a copy of its
/// bytes, with the chunk's stride, taken as a `usize` (a negative stride wraps
/// around), as the row length; none when the chunk is empty or reaches past
/// the memory.
pub fn frame_from_chunk<const DIMENSIONS: usize>(chunk: &Chunk, mapped: &[u8]) -> (r: Option<
    VideoData<DIMENSIONS>,
>)
    requires
        chunk.offset + chunk.size <= usize::MAX,
    ensures
        chunk_holds_frame(*chunk, mapped@.len()) <==> r is Some,
        chunk.size == 0 ==> r is None,
        chunk.offset + chunk.size > mapped@.len() ==> r is None,
        chunk.size > 0 && chunk.offset + chunk.size <= mapped@.len() ==> (r matches Some(f) && (
        f.contents().len() == chunk.size && (forall|j: int|
            0 <= j < chunk.size ==> #[trigger] f.contents()[j] == mapped@[chunk.offset + j]))),
        r matches Some(f) ==> {
            &&& f.contents() == mapped@.subrange(
                chunk.offset as int,
                chunk.offset + chunk.size,
            )
            &&& f.stride == chunk.stride as usize
        },
{
    let offset = chunk.offset as usize;
    let size = chunk.size as usize;
    #[verifier::truncate]
    let stride: usize = chunk.stride as usize;
    if size == 0 {
        return None;
    }
    if offset + size <= mapped.len() {
        let frame_bytes = &mapped[offset..offset + size];
        let bytes = bytes_copy_from_slice(frame_bytes);
        Some(VideoData::new(bytes, stride))
    } else {
        None
    }
}

/// The length to map of a dma-buf whose chunk ends at `offset + size`: that
/// end rounded up to a whole number of 4096-byte pages.
pub fn mapping_length(offset: u32, size: u32) -> (r: usize)
    requires
        offset + size + 4095 <= usize::MAX,
    ensures
        r % 4096 == 0,
        offset + size <= r < offset + size + 4096,
{
    let end: usize = offset as usize + size as usize + 4095;
    let r: usize = end & !4095usize;
    assert(end & !4095usize == end - end % 4096) by (bit_vector);
    r
}

} // verus!
