use vstd::prelude::*;

verus! {

/// A position to seek to, as a start point and a displacement.
#[derive(Debug, Clone, Copy, PartialEq, Eq, Structural)]
pub enum SeekPosition {
    /// An absolute offset from the start of the source.
    Start(u64),
    /// A signed displacement from the end of the source.
    End(i64),
    /// A signed displacement from the current offset.
    Current(i64),
}

/// The absolute offset that a seek aims at, before any bounds check.
pub open spec fn seek_target(pos: SeekPosition, offset: int, size: int) -> int {
    match pos {
        SeekPosition::Start(n) => n as int,
        SeekPosition::Current(d) => offset + d,
        SeekPosition::End(d) => size + d,
    }
}

/// Whether a seek lands at an offset that a handle can take: one that is
/// not negative and fits in `usize`. As with POSIX `lseek`, an offset past
/// the end of the source is allowed.
pub open spec fn seek_in_bounds(pos: SeekPosition, offset: int, size: int) -> bool {
    0 <= seek_target(pos, offset, size) <= usize::MAX
}

/// The bytes that a read of up to `size` bytes at `offset` returns:
/// those from `offset` on, stopping at `size` bytes or the end of `data`;
/// none at or past the end.
pub open spec fn read_span(data: Seq<u8>, offset: int, size: int) -> Seq<u8> {
    if offset >= data.len() {
        Seq::empty()
    } else {
        let end = if offset + size < data.len() { offset + size } else { data.len() as int };
        data.subrange(offset, end)
    }
}

/// `data` with `bytes` written over it at `offset`. A write that runs past
/// the end grows the source, and one that starts past the end first fills
/// the gap with zero bytes; nothing is truncated, and writing no bytes
/// changes nothing.
pub open spec fn overwrite(data: Seq<u8>, offset: int, bytes: Seq<u8>) -> Seq<u8> {
    let len = if bytes.len() > 0 && offset + bytes.len() > data.len() {
        offset + bytes.len()
    } else {
        data.len() as int
    };
    Seq::new(
        len as nat,
        |j: int|
            if offset <= j < offset + bytes.len() {
                bytes[j - offset]
            } else if j < data.len() {
                data[j]
            } else {
                0u8
            },
    )
}

/// Seek from the start of the source.
pub const SEEK_SET: i32 = 0;

/// Seek from the current offset.
pub const SEEK_CUR: i32 = 1;

/// Seek from the end of the source.
pub const SEEK_END: i32 = 2;

/// The (offset, whence) pair that a seek hands to a source: the absolute
/// offset as it is, a displacement as its two's complement bits.
pub open spec fn seek_request_of(pos: SeekPosition) -> (u64, i32) {
    match pos {
        SeekPosition::Start(n) => (n, SEEK_SET),
        SeekPosition::Current(d) => (d as u64, SEEK_CUR),
        SeekPosition::End(d) => (d as u64, SEEK_END),
    }
}

/// The absolute offset that a source aims at for an (offset, whence) pair,
/// or `None` for an unknown whence.
pub open spec fn request_target(offset: u64, whence: i32, current: int, size: int) -> Option<int> {
    if whence == SEEK_SET {
        Some(offset as int)
    } else if whence == SEEK_CUR {
        Some(current + offset as i64)
    } else if whence == SEEK_END {
        Some(size + offset as i64)
    } else {
        None
    }
}

impl SeekPosition {
    /// Encodes the position as the (offset, whence) pair of a source's seek.
    pub fn to_request(&self) -> (r: (u64, i32))
        ensures
            r == seek_request_of(*self),
    {
        match *self {
            SeekPosition::Start(n) => (n, SEEK_SET),
            SeekPosition::Current(d) => (d as u64, SEEK_CUR),
            SeekPosition::End(d) => (d as u64, SEEK_END),
        }
    }
}

/// Decoding a position's request gives back the position's own target:
/// the encoding of a displacement loses nothing.
pub proof fn lemma_request_round_trip(pos: SeekPosition, current: int, size: int)
    ensures
        request_target(seek_request_of(pos).0, seek_request_of(pos).1, current, size)
            == Some(seek_target(pos, current, size)),
{
    match pos {
        SeekPosition::Start(n) => {},
        SeekPosition::Current(d) => {
            assert(((d as u64) as i64) == d) by (bit_vector);
        },
        SeekPosition::End(d) => {
            assert(((d as u64) as i64) == d) by (bit_vector);
        },
    }
}

} // verus!
