//! The outer framing of a binary module: an eight-byte header, then sections
//! laid end to end. Each section is an id byte, a size in unsigned LEB128 and
//! that many bytes. Nothing here looks inside a section.

use vstd::prelude::*;

verus! {

/// Whether the bytes begin with the module header: `\0asm`, then version 1
/// in four bytes, least significant first.
pub open spec fn has_header(bytes: Seq<u8>) -> bool {
    &&& bytes.len() >= 8
    &&& bytes[0] == 0x00
    &&& bytes[1] == 0x61
    &&& bytes[2] == 0x73
    &&& bytes[3] == 0x6d
    &&& bytes[4] == 0x01
    &&& bytes[5] == 0x00
    &&& bytes[6] == 0x00
    &&& bytes[7] == 0x00
}

/// The unsigned LEB128 number that begins at `pos` and takes at most `room`
/// bytes: its value and the position after it. Each byte gives seven bits,
/// the lowest first, and a byte below 128 ends the number. The last byte that
/// `room` allows must be below 16, so that five bytes hold at most 32 bits.
pub open spec fn leb128(bytes: Seq<u8>, pos: int, room: nat) -> Option<(int, int)>
    decreases room,
{
    if room == 0 || pos < 0 || pos >= bytes.len() {
        None
    } else if room == 1 && bytes[pos] >= 16 {
        None
    } else if bytes[pos] < 128 {
        Some((bytes[pos] as int, pos + 1))
    } else {
        match leb128(bytes, pos + 1, (room - 1) as nat) {
            Some((rest, next)) => Some((bytes[pos] - 128 + 128 * rest, next)),
            None => None,
        }
    }
}

/// An unsigned 32-bit number in LEB128 at `pos`.
pub open spec fn leb128_u32(bytes: Seq<u8>, pos: int) -> Option<(int, int)> {
    leb128(bytes, pos, 5)
}

/// Whether whole sections fill the bytes from `pos` to the end: either
/// nothing is left, or a section begins at `pos` with its id byte and its
/// size, its content ends inside the bytes, and whole sections fill the
/// rest.
pub open spec fn sections_from(bytes: Seq<u8>, pos: int) -> bool
    decreases bytes.len() - pos,
    via sections_from_decreases
{
    if pos >= bytes.len() {
        pos == bytes.len()
    } else {
        match leb128_u32(bytes, pos + 1) {
            Some((size, body)) => body + size <= bytes.len() && sections_from(bytes, body + size),
            None => false,
        }
    }
}

#[via_fn]
proof fn sections_from_decreases(bytes: Seq<u8>, pos: int) {
    if pos < bytes.len() && leb128_u32(bytes, pos + 1) is Some {
        lemma_leb128_bounds(bytes, pos + 1, 5);
    }
}

/// Whether the bytes are framed as a module: the header, then whole sections
/// up to the last byte.
pub open spec fn is_well_framed(bytes: Seq<u8>) -> bool {
    has_header(bytes) && sections_from(bytes, 8)
}

/// The least number that `room` bytes of LEB128 cannot hold.
pub open spec fn leb128_limit(room: nat) -> int
    decreases room,
{
    if room <= 1 {
        16
    } else {
        128 * leb128_limit((room - 1) as nat)
    }
}

/// A number read from LEB128 is not negative, stays under the limit of its
/// room, and ends after where it began, inside the bytes.
pub proof fn lemma_leb128_bounds(bytes: Seq<u8>, pos: int, room: nat)
    requires
        leb128(bytes, pos, room) is Some,
    ensures
        0 <= leb128(bytes, pos, room)->Some_0.0 < leb128_limit(room),
        pos < leb128(bytes, pos, room)->Some_0.1 <= bytes.len(),
        leb128(bytes, pos, room)->Some_0.1 <= pos + room,
    decreases room,
{
    if room > 1 {
        if bytes[pos] >= 128 {
            lemma_leb128_bounds(bytes, pos + 1, (room - 1) as nat);
        } else {
            lemma_limit_at_least_16((room - 1) as nat);
        }
    }
}

proof fn lemma_limit_at_least_16(room: nat)
    ensures
        leb128_limit(room) >= 16,
    decreases room,
{
    if room > 1 {
        lemma_limit_at_least_16((room - 1) as nat);
    }
}

/// Whether the bytes begin with the module header.
pub fn check_header(bytes: &[u8]) -> (r: bool)
    ensures
        r == has_header(bytes@),
{
    bytes.len() >= 8 && bytes[0] == 0x00 && bytes[1] == 0x61 && bytes[2] == 0x73 && bytes[3]
        == 0x6d && bytes[4] == 0x01 && bytes[5] == 0x00 && bytes[6] == 0x00 && bytes[7] == 0x00
}

fn read_leb128(bytes: &[u8], pos: usize, room: u8) -> (r: Option<(u32, usize)>)
    requires
        room <= 5,
    ensures
        match r {
            Some((value, next)) => leb128(bytes@, pos as int, room as nat) == Some(
                (value as int, next as int),
            ),
            None => leb128(bytes@, pos as int, room as nat) is None,
        },
    decreases room,
{
    if room == 0 || pos >= bytes.len() {
        return None;
    }
    let byte = bytes[pos];
    if room == 1 && byte >= 16 {
        return None;
    }
    if byte < 128 {
        return Some((byte as u32, pos + 1));
    }
    match read_leb128(bytes, pos + 1, room - 1) {
        None => None,
        Some((rest, next)) => {
            proof {
                lemma_leb128_bounds(bytes@, pos + 1, (room - 1) as nat);
                reveal_with_fuel(leb128_limit, 6);
            }
            Some(((byte - 128) as u32 + 128 * rest, next))
        },
    }
}

/// Reads an unsigned 32-bit number in LEB128 at `pos`: the number and the
/// position after it, or nothing where the bytes hold no such number there.
pub fn read_leb128_u32(bytes: &[u8], pos: usize) -> (r: Option<(u32, usize)>)
    ensures
        match r {
            Some((value, next)) => leb128_u32(bytes@, pos as int) == Some(
                (value as int, next as int),
            ),
            None => leb128_u32(bytes@, pos as int) is None,
        },
{
    read_leb128(bytes, pos, 5)
}

/// Whether the bytes are framed as a module.
pub fn well_framed(bytes: &[u8]) -> (r: bool)
    ensures
        r == is_well_framed(bytes@),
{
    if !check_header(bytes) {
        return false;
    }
    let mut pos: usize = 8;
    while pos < bytes.len()
        invariant
            8 <= pos <= bytes.len(),
            sections_from(bytes@, 8) == sections_from(bytes@, pos as int),
        decreases bytes.len() - pos,
    {
        match read_leb128_u32(bytes, pos + 1) {
            None => {
                return false;
            },
            Some((size, body)) => {
                proof {
                    lemma_leb128_bounds(bytes@, pos + 1, 5);
                }
                if size as usize > bytes.len() - body {
                    return false;
                }
                pos = body + size as usize;
            },
        }
    }
    true
}

} // verus!
