//! The chunk layout of a PNG file, as far as the engine has to know it before it hands a file
//! to the optimiser.
//!
//! A PNG file is an eight-byte signature followed by chunks. A chunk is a four-byte length
//! (big-endian), a four-byte name, that many data bytes, and a four-byte checksum.
//!
//! The optimiser takes two things on faith, so the engine looks first. The header chunk,
//! `IHDR`, declares the sides of the picture and how its pixels are laid out, and the
//! optimiser sizes its buffer by it before it has seen a pixel; it goes by the last header
//! chunk it meets, where the format allows one only, as the first chunk. The chunks of an
//! animation, `fcTL` and `fdAT`, carry sequence numbers and sides of their own, which the
//! optimiser reads and uses unchecked; animations are not what the engine is for, so a file
//! that holds such a chunk is not handed on at all.

use vstd::prelude::*;

verus! {

/// The bytes a chunk takes besides its data: length, name and checksum.
pub const CHUNK_FRAME: usize = 12;

/// The data bytes of a whole header chunk.
pub const HEADER_DATA: usize = 13;

/// The most pixels a header may declare: 2^29. A picture the decoder accepts has no more,
/// since the decoder allows itself 512 MiB and every pixel takes a byte at least.
pub const MAX_DECLARED_PIXELS: u64 = 536_870_912;

/// `data` starts with the PNG signature.
pub open spec fn has_png_signature(data: Seq<u8>) -> bool {
    &&& data.len() >= 8
    &&& data[0] == 0x89
    &&& data[1] == 0x50
    &&& data[2] == 0x4E
    &&& data[3] == 0x47
    &&& data[4] == 0x0D
    &&& data[5] == 0x0A
    &&& data[6] == 0x1A
    &&& data[7] == 0x0A
}

/// The big-endian number in the four bytes at `at`.
pub open spec fn be_u32(data: Seq<u8>, at: int) -> int {
    data[at] * 0x100_0000 + data[at + 1] * 0x1_0000 + data[at + 2] * 0x100 + data[at + 3]
}

/// The four bytes at `at` spell the given chunk name.
pub open spec fn names(data: Seq<u8>, at: int, name: (u8, u8, u8, u8)) -> bool {
    &&& data[at] == name.0
    &&& data[at + 1] == name.1
    &&& data[at + 2] == name.2
    &&& data[at + 3] == name.3
}

/// `IEND`, the chunk that ends a file.
pub open spec fn end_chunk() -> (u8, u8, u8, u8) {
    (73, 69, 78, 68)
}

/// `IHDR`, the chunk that declares the sides of the picture.
pub open spec fn header_chunk() -> (u8, u8, u8, u8) {
    (73, 72, 68, 82)
}

/// The bit depths the format allows for a colour type: 1, 2, 4, 8 or 16 for greyscale (0);
/// 1, 2, 4 or 8 for a palette (3); 8 or 16 for colour (2) and for either with alpha (4, 6).
pub open spec fn depth_fits_color(depth: u8, color: u8) -> bool {
    ||| color == 0 && (depth == 1 || depth == 2 || depth == 4 || depth == 8 || depth == 16)
    ||| color == 3 && (depth == 1 || depth == 2 || depth == 4 || depth == 8)
    ||| (color == 2 || color == 4 || color == 6) && (depth == 8 || depth == 16)
}

/// The header data at `at` declares a picture the optimiser can take: both sides at least
/// one pixel, no more pixels than are allowed, and a bit depth that the colour type allows.
pub open spec fn header_sound(data: Seq<u8>, at: int) -> bool {
    &&& 1 <= be_u32(data, at)
    &&& 1 <= be_u32(data, at + 4)
    &&& be_u32(data, at) * be_u32(data, at + 4) <= MAX_DECLARED_PIXELS
    &&& depth_fits_color(data[at + 8], data[at + 9])
}

/// The file starts, behind its signature, with a whole header chunk that is sound.
pub open spec fn starts_with_sound_header(data: Seq<u8>) -> bool {
    &&& 8 + CHUNK_FRAME <= data.len()
    &&& names(data, 12, header_chunk())
    &&& be_u32(data, 8) >= HEADER_DATA
    &&& 8 + CHUNK_FRAME + be_u32(data, 8) <= data.len()
    &&& header_sound(data, 16)
}

/// The chunk at `offset` belongs to an animation.
pub open spec fn is_frame_chunk(data: Seq<u8>, offset: int) -> bool {
    names(data, offset + 4, frame_control_chunk()) || names(data, offset + 4, frame_data_chunk())
}

/// `fcTL`, the chunk that describes a frame of an animation.
pub open spec fn frame_control_chunk() -> (u8, u8, u8, u8) {
    (102, 99, 84, 76)
}

/// `fdAT`, the chunk that holds the data of a frame of an animation.
pub open spec fn frame_data_chunk() -> (u8, u8, u8, u8) {
    (102, 100, 65, 84)
}

/// Among the chunks from `offset` on there is no chunk of an animation and no header chunk.
/// The walk goes from chunk to chunk by their lengths and ends at `IEND`, or where the bytes
/// that are left cannot hold the next chunk whole.
pub open spec fn chunks_sound_from(data: Seq<u8>, offset: int) -> bool
    decreases data.len() - offset,
{
    if offset < 0 || offset + CHUNK_FRAME > data.len() {
        true
    } else {
        let length = be_u32(data, offset);
        if offset + CHUNK_FRAME + length > data.len() {
            true
        } else if names(data, offset + 4, end_chunk()) {
            true
        } else if is_frame_chunk(data, offset) || names(data, offset + 4, header_chunk()) {
            false
        } else {
            chunks_sound_from(data, offset + CHUNK_FRAME + length)
        }
    }
}

/// The chunks of the PNG file `data` are sound: the first is a whole header chunk that
/// declares a picture the optimiser can take, no other is a header chunk, and none belongs to
/// an animation. Bytes without the PNG signature have no chunks, and so none that is unsound.
pub open spec fn chunks_sound(data: Seq<u8>) -> bool {
    has_png_signature(data) ==> starts_with_sound_header(data) && chunks_sound_from(
        data,
        8 + CHUNK_FRAME + be_u32(data, 8),
    )
}

fn number_at(data: &[u8], at: usize) -> (number: u32)
    requires
        at + 4 <= data@.len(),
    ensures
        number == be_u32(data@, at as int),
{
    (data[at] as u32) * 0x100_0000 + (data[at + 1] as u32) * 0x1_0000 + (data[at + 2] as u32)
        * 0x100 + (data[at + 3] as u32)
}

fn is_named(data: &[u8], at: usize, a: u8, b: u8, c: u8, d: u8) -> (yes: bool)
    requires
        at + 4 <= data@.len(),
    ensures
        yes == names(data@, at as int, (a, b, c, d)),
{
    data[at] == a && data[at + 1] == b && data[at + 2] == c && data[at + 3] == d
}

fn depth_allowed(depth: u8, color: u8) -> (yes: bool)
    ensures
        yes == depth_fits_color(depth, color),
{
    if color == 0 {
        depth == 1 || depth == 2 || depth == 4 || depth == 8 || depth == 16
    } else if color == 3 {
        depth == 1 || depth == 2 || depth == 4 || depth == 8
    } else if color == 2 || color == 4 || color == 6 {
        depth == 8 || depth == 16
    } else {
        false
    }
}

/// Tells whether the thirteen bytes of header data at `at` declare a sound picture.
fn check_header(data: &[u8], at: usize) -> (sound: bool)
    requires
        at + HEADER_DATA <= data@.len(),
    ensures
        sound == header_sound(data@, at as int),
{
    let total = data.len();
    assert(at + HEADER_DATA <= total);
    let width = number_at(data, at);
    let height = number_at(data, at + 4);
    if width == 0 || height == 0 {
        return false;
    }
    assert(width * height <= 0xFFFF_FFFF * 0xFFFF_FFFF) by (nonlinear_arith)
        requires
            0 <= width <= 0xFFFF_FFFF,
            0 <= height <= 0xFFFF_FFFF,
    ;
    if (width as u64) * (height as u64) > MAX_DECLARED_PIXELS {
        return false;
    }
    depth_allowed(data[at + 8], data[at + 9])
}

/// Walks the chunks of `data` and tells whether they are sound.
pub fn check_chunks(data: &[u8]) -> (sound: bool)
    ensures
        sound == chunks_sound(data@),
{
    let total = data.len();
    if total < 8 || data[0] != 0x89 || data[1] != 0x50 || data[2] != 0x4E || data[3] != 0x47
        || data[4] != 0x0D || data[5] != 0x0A || data[6] != 0x1A || data[7] != 0x0A {
        return true;
    }
    if total - 8 < CHUNK_FRAME || !is_named(data, 12, 73, 72, 68, 82) {
        return false;
    }
    let first = number_at(data, 8);
    if first < 13 || first as u64 > (total - 8 - CHUNK_FRAME) as u64 || !check_header(data, 16) {
        return false;
    }
    let mut offset: usize = 8 + CHUNK_FRAME + first as usize;
    while total - offset >= CHUNK_FRAME
        invariant
            total == data@.len(),
            8 <= offset <= total,
            chunks_sound(data@) == chunks_sound_from(data@, offset as int),
        decreases total - offset,
    {
        let length = number_at(data, offset);
        let room = total - offset - CHUNK_FRAME;
        if length as u64 > room as u64 {
            return true;
        }
        if is_named(data, offset + 4, 73, 69, 78, 68) {
            return true;
        }
        if is_named(data, offset + 4, 102, 99, 84, 76) || is_named(
            data,
            offset + 4,
            102,
            100,
            65,
            84,
        ) || is_named(data, offset + 4, 73, 72, 68, 82) {
            return false;
        }
        offset = offset + CHUNK_FRAME + length as usize;
    }
    true
}

} // verus!
