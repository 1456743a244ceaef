use crate::access::{allows_write, flag_bits, permits_write, LibbfioAccessFlags};
use crate::error::Error;
use crate::lifecycle::{teardown, teardown_steps, Lifecycle, TeardownStep};
use crate::source::{
    lemma_request_round_trip, overwrite, read_span, request_target, seek_in_bounds, seek_target,
    SeekPosition, SEEK_CUR, SEEK_END, SEEK_SET,
};
use vstd::prelude::*;

verus! {

/// What a handle holds, as mathematical values.
pub struct HandleModel {
    /// The bytes of the source.
    pub data: Seq<u8>,
    /// The current offset into the source.
    pub offset: nat,
    /// The access flags the handle was opened with.
    pub access_flags: i32,
    /// Whether the handle is open.
    pub open: bool,
    /// Whether reads are recorded.
    pub track_offsets_read: bool,
    /// The (offset, size) pair of each recorded read, oldest first.
    pub offsets_read: Seq<(u64, u64)>,
}

/// A model is valid when its offset and the size of its source fit in
/// `usize`. The offset may lie past the end of the source.
pub open spec fn valid_model(m: HandleModel) -> bool {
    &&& m.offset <= usize::MAX
    &&& m.data.len() <= usize::MAX
}

/// The state after reading up to `size` bytes, and the bytes read.
pub open spec fn read_model(m: HandleModel, size: int) -> (HandleModel, Seq<u8>) {
    let bytes = read_span(m.data, m.offset as int, size);
    let record = (m.offset as u64, bytes.len() as u64);
    (
        HandleModel {
            offset: m.offset + bytes.len(),
            offsets_read: if m.track_offsets_read {
                m.offsets_read.push(record)
            } else {
                m.offsets_read
            },
            ..m
        },
        bytes,
    )
}

/// The state after writing `bytes` at the current offset.
pub open spec fn write_model(m: HandleModel, bytes: Seq<u8>) -> HandleModel {
    HandleModel {
        data: overwrite(m.data, m.offset as int, bytes),
        offset: m.offset + bytes.len(),
        ..m
    }
}

/// The state after a seek, or `None` where the target is negative or does
/// not fit in `usize`.
pub open spec fn seek_model(m: HandleModel, pos: SeekPosition) -> Option<HandleModel> {
    if seek_in_bounds(pos, m.offset as int, m.data.len() as int) {
        Some(HandleModel { offset: seek_target(pos, m.offset as int, m.data.len() as int) as nat, ..m })
    } else {
        None
    }
}

/// A managed handle over an in-memory byte source: it owns the source,
/// checks its access flags before every write, and may record the offset
/// and size of every read.
pub struct Handle {
    data: Vec<u8>,
    offset: usize,
    access_flags: i32,
    open: bool,
    track_offsets_read: bool,
    offsets_read: Vec<(u64, u64)>,
}

impl View for Handle {
    type V = HandleModel;

    closed spec fn view(&self) -> HandleModel {
        HandleModel {
            data: self.data@,
            offset: self.offset as nat,
            access_flags: self.access_flags,
            open: self.open,
            track_offsets_read: self.track_offsets_read,
            offsets_read: self.offsets_read@,
        }
    }
}

impl Handle {
    /// The handle's model is valid.
    pub open spec fn wf(&self) -> bool {
        valid_model(self@)
    }

    /// Opens a handle that takes ownership of `data`, at offset zero, with
    /// the given access flags and no read tracking.
    pub fn open_from_source(data: Vec<u8>, flags: LibbfioAccessFlags) -> (h: Handle)
        ensures
            h.wf(),
            h@ == (HandleModel {
                data: data@,
                offset: 0,
                access_flags: flag_bits(flags),
                open: true,
                track_offsets_read: false,
                offsets_read: Seq::empty(),
            }),
    {
        assert(data@.len() == data.len());
        Handle {
            data,
            offset: 0,
            access_flags: flags.to_int(),
            open: true,
            track_offsets_read: false,
            offsets_read: Vec::new(),
        }
    }

    /// Reads up to `size` bytes at the current offset and moves past them.
    /// Fewer bytes come back at the end of the source, none past it.
    pub fn read(&mut self, size: usize) -> (r: Result<Vec<u8>, Error>)
        requires
            old(self).wf(),
        ensures
            final(self).wf(),
            !old(self)@.open ==> r == Err::<Vec<u8>, Error>(Error::NotOpen) && final(self)@ == old(self)@,
            old(self)@.open ==> r.is_ok() && (final(self)@, r.unwrap()@) == read_model(old(self)@, size as int),
    {
        if !self.open {
            return Err(Error::NotOpen);
        }
        let start = self.offset;
        if start >= self.data.len() {
            let bytes: Vec<u8> = Vec::new();
            assert(bytes@ =~= read_span(self.data@, start as int, size as int));
            if self.track_offsets_read {
                self.offsets_read.push((start as u64, 0u64));
            }
            return Ok(bytes);
        }
        let end: usize = if size <= self.data.len() - start {
            start + size
        } else {
            self.data.len()
        };
        let mut bytes: Vec<u8> = Vec::new();
        let mut i: usize = start;
        while i < end
            invariant
                start <= i <= end <= self.data@.len(),
                bytes@ == self.data@.subrange(start as int, i as int),
            decreases end - i,
        {
            bytes.push(self.data[i]);
            i = i + 1;
            assert(bytes@ =~= self.data@.subrange(start as int, i as int));
        }
        assert(bytes@ =~= read_span(self.data@, start as int, size as int));
        if self.track_offsets_read {
            self.offsets_read.push((start as u64, bytes.len() as u64));
        }
        self.offset = end;
        Ok(bytes)
    }

    /// Reads everything from the current offset to the end of the source;
    /// nothing where the offset lies at or past the end.
    pub fn read_to_end(&mut self) -> (r: Result<Vec<u8>, Error>)
        requires
            old(self).wf(),
        ensures
            final(self).wf(),
            !old(self)@.open ==> r == Err::<Vec<u8>, Error>(Error::NotOpen) && final(self)@ == old(self)@,
            old(self)@.open ==> r.is_ok() && (final(self)@, r.unwrap()@) == read_model(
                old(self)@,
                if old(self)@.offset < old(self)@.data.len() { old(self)@.data.len() - old(self)@.offset } else { 0 },
            ),
            old(self)@.open && old(self)@.offset < old(self)@.data.len() ==> r.unwrap()@ == old(self)@.data.subrange(
                old(self)@.offset as int,
                old(self)@.data.len() as int,
            ),
            old(self)@.open && old(self)@.offset >= old(self)@.data.len() ==> r.unwrap()@.len() == 0,
    {
        let remaining: usize = if self.offset < self.data.len() {
            self.data.len() - self.offset
        } else {
            0
        };
        self.read(remaining)
    }

    /// Writes `buf` over the source at the current offset and moves past it.
    /// The source grows where the write runs past its end, a gap between its
    /// end and a later offset is filled with zero bytes, and it is never
    /// truncated. A handle without the write flag rejects the write before
    /// the source is touched.
    pub fn write(&mut self, buf: &[u8]) -> (r: Result<usize, Error>)
        requires
            old(self).wf(),
            old(self)@.offset + buf@.len() <= usize::MAX,
        ensures
            final(self).wf(),
            !allows_write(old(self)@.access_flags) ==> r == Err::<usize, Error>(Error::AccessModeViolation)
                && final(self)@ == old(self)@,
            allows_write(old(self)@.access_flags) && !old(self)@.open ==> r == Err::<usize, Error>(Error::NotOpen)
                && final(self)@ == old(self)@,
            allows_write(old(self)@.access_flags) && old(self)@.open ==> r == Ok::<usize, Error>(buf@.len() as usize)
                && final(self)@ == write_model(old(self)@, buf@),
    {
        if !permits_write(self.access_flags) {
            return Err(Error::AccessModeViolation);
        }
        if !self.open {
            return Err(Error::NotOpen);
        }
        let ghost old_data = self.data@;
        let start = self.offset;
        if buf.len() == 0 {
            assert(self.data@ =~= overwrite(old_data, start as int, buf@));
            return Ok(0);
        }
        while self.data.len() < start
            invariant
                self.access_flags == old(self).access_flags,
                self.open == old(self).open,
                self.track_offsets_read == old(self).track_offsets_read,
                self.offsets_read == old(self).offsets_read,
                start == self.offset,
                old_data.len() <= self.data@.len(),
                self.data@.len() <= start || self.data@.len() == old_data.len(),
                forall|j: int| 0 <= j < self.data@.len() ==> #[trigger] self.data@[j] == (
                    if j < old_data.len() { old_data[j] } else { 0u8 }),
            decreases start - self.data.len(),
        {
            self.data.push(0u8);
        }
        let ghost filled = self.data@;
        let mut i: usize = 0;
        while i < buf.len()
            invariant
                i <= buf@.len(),
                self.access_flags == old(self).access_flags,
                self.open == old(self).open,
                self.track_offsets_read == old(self).track_offsets_read,
                self.offsets_read == old(self).offsets_read,
                start == self.offset,
                start <= filled.len(),
                start + buf@.len() <= usize::MAX,
                self.data@.len() == (if start + i > filled.len() { start + i } else { filled.len() as int }),
                forall|j: int| 0 <= j < self.data@.len() ==> #[trigger] self.data@[j] == (
                    if start <= j < start + i { buf@[j - start] } else { filled[j] }),
            decreases buf.len() - i,
        {
            if start + i < self.data.len() {
                self.data.set(start + i, buf[i]);
            } else {
                self.data.push(buf[i]);
            }
            i = i + 1;
        }
        assert forall|j: int| 0 <= j < filled.len() implies #[trigger] filled[j] == (
            if j < old_data.len() { old_data[j] } else { 0u8 }) by {}
        assert(self.data@ =~= overwrite(old_data, start as int, buf@));
        assert(self.data@.len() == self.data.len());
        self.offset = start + buf.len();
        Ok(buf.len())
    }

    /// Moves the current offset as a source's seek does, from an offset and
    /// a whence of `SEEK_SET`, `SEEK_CUR` or `SEEK_END`, and returns it. For
    /// the last two the offset holds a signed displacement. As with POSIX
    /// `lseek`, the offset may move past the end of the source; a target
    /// that is negative, or does not fit in `usize`, fails and moves nothing.
    pub fn seek_offset(&mut self, offset: u64, whence: i32) -> (r: Result<u64, Error>)
        requires
            old(self).wf(),
        ensures
            final(self).wf(),
            !old(self)@.open ==> r == Err::<u64, Error>(Error::NotOpen) && final(self)@ == old(self)@,
            old(self)@.open && request_target(offset, whence, old(self)@.offset as int, old(self)@.data.len() as int) is None
                ==> r == Err::<u64, Error>(Error::InvalidArgument) && final(self)@ == old(self)@,
            old(self)@.open && request_target(offset, whence, old(self)@.offset as int, old(self)@.data.len() as int) is Some
                ==> ({
                    let t = request_target(offset, whence, old(self)@.offset as int, old(self)@.data.len() as int)->Some_0;
                    &&& (t < 0 || t > usize::MAX) ==> r == Err::<u64, Error>(Error::SeekOutOfRange)
                        && final(self)@ == old(self)@
                    &&& (0 <= t <= usize::MAX) ==> r == Ok::<u64, Error>(t as u64)
                        && final(self)@ == (HandleModel { offset: t as nat, ..old(self)@ })
                }),
    {
        if !self.open {
            return Err(Error::NotOpen);
        }
        let current = self.offset as i128;
        let size = self.data.len() as i128;
        let target: i128 = if whence == SEEK_SET {
            offset as i128
        } else if whence == SEEK_CUR {
            current + (offset as i64) as i128
        } else if whence == SEEK_END {
            size + (offset as i64) as i128
        } else {
            return Err(Error::InvalidArgument);
        };
        if target < 0 || target > usize::MAX as i128 {
            return Err(Error::SeekOutOfRange);
        }
        self.offset = target as usize;
        Ok(target as u64)
    }

    /// Moves the current offset to `pos` and returns it. As with POSIX
    /// `lseek`, the offset may move past the end of the source; a target
    /// that is negative, or does not fit in `usize`, fails and moves nothing.
    pub fn seek(&mut self, pos: SeekPosition) -> (r: Result<u64, Error>)
        requires
            old(self).wf(),
        ensures
            final(self).wf(),
            !old(self)@.open ==> r == Err::<u64, Error>(Error::NotOpen) && final(self)@ == old(self)@,
            old(self)@.open && seek_model(old(self)@, pos) is None ==> r == Err::<u64, Error>(Error::SeekOutOfRange)
                && final(self)@ == old(self)@,
            old(self)@.open && seek_model(old(self)@, pos) is Some ==> r == Ok::<u64, Error>(
                seek_target(pos, old(self)@.offset as int, old(self)@.data.len() as int) as u64)
                && final(self)@ == seek_model(old(self)@, pos)->Some_0,
    {
        let (offset, whence) = pos.to_request();
        proof {
            lemma_request_round_trip(pos, self@.offset as int, self@.data.len() as int);
        }
        self.seek_offset(offset, whence)
    }

    /// The size of the source.
    pub fn get_size(&self) -> (r: Result<u64, Error>)
        requires
            self.wf(),
        ensures
            !self@.open ==> r == Err::<u64, Error>(Error::NotOpen),
            self@.open ==> r == Ok::<u64, Error>(self@.data.len() as u64),
    {
        if !self.open {
            return Err(Error::NotOpen);
        }
        Ok(self.data.len() as u64)
    }

    /// The current offset.
    pub fn get_offset(&self) -> (r: Result<u64, Error>)
        requires
            self.wf(),
        ensures
            !self@.open ==> r == Err::<u64, Error>(Error::NotOpen),
            self@.open ==> r == Ok::<u64, Error>(self@.offset as u64),
    {
        if !self.open {
            return Err(Error::NotOpen);
        }
        Ok(self.offset as u64)
    }

    /// Whether the handle is open; this performs no I/O.
    pub fn is_open(&self) -> (r: bool)
        ensures
            r == self@.open,
    {
        self.open
    }

    /// The access flags the handle was last opened with.
    pub fn get_access_flags(&self) -> (r: i32)
        ensures
            r == self@.access_flags,
    {
        self.access_flags
    }

    /// Closes the handle; its source stays and it may be opened again.
    pub fn close(&mut self) -> (r: Result<(), Error>)
        requires
            old(self).wf(),
        ensures
            final(self).wf(),
            !old(self)@.open ==> r == Err::<(), Error>(Error::NotOpen) && final(self)@ == old(self)@,
            old(self)@.open ==> r == Ok::<(), Error>(()) && final(self)@ == (HandleModel { open: false, ..old(self)@ }),
    {
        if !self.open {
            return Err(Error::NotOpen);
        }
        self.open = false;
        Ok(())
    }

    /// Opens a closed handle again, at offset zero, with new access flags.
    pub fn open(&mut self, flags: LibbfioAccessFlags) -> (r: Result<(), Error>)
        requires
            old(self).wf(),
        ensures
            final(self).wf(),
            old(self)@.open ==> r == Err::<(), Error>(Error::AlreadyOpen) && final(self)@ == old(self)@,
            !old(self)@.open ==> r == Ok::<(), Error>(()) && final(self)@ == (HandleModel {
                open: true,
                offset: 0,
                access_flags: flag_bits(flags),
                ..old(self)@
            }),
    {
        if self.open {
            return Err(Error::AlreadyOpen);
        }
        self.open = true;
        self.offset = 0;
        self.access_flags = flags.to_int();
        Ok(())
    }

    /// Turns the recording of reads on or off; what was recorded stays.
    pub fn set_track_offsets_read(&mut self, track: bool)
        requires
            old(self).wf(),
        ensures
            final(self).wf(),
            final(self)@ == (HandleModel { track_offsets_read: track, ..old(self)@ }),
    {
        self.track_offsets_read = track;
    }

    /// How many reads were recorded.
    pub fn get_number_of_offsets_read(&self) -> (r: usize)
        ensures
            r == self@.offsets_read.len(),
    {
        self.offsets_read.len()
    }

    /// The offset and size of the recorded read at `index`.
    pub fn get_offset_read(&self, index: usize) -> (r: Result<(u64, u64), Error>)
        ensures
            index < self@.offsets_read.len() ==> r == Ok::<(u64, u64), Error>(self@.offsets_read[index as int]),
            index >= self@.offsets_read.len() ==> r == Err::<(u64, u64), Error>(Error::NotFound),
    {
        if index < self.offsets_read.len() {
            Ok(self.offsets_read[index])
        } else {
            Err(Error::NotFound)
        }
    }

    /// The bytes of the source.
    pub fn as_bytes(&self) -> (r: &[u8])
        ensures
            r@ == self@.data,
    {
        self.data.as_slice()
    }

    /// Destroys the handle and the source it owns: closes it if it is open,
    /// then frees it, once. Returns the steps taken.
    pub fn free(self) -> (steps: Vec<TeardownStep>)
        requires
            self.wf(),
        ensures
            steps@ == teardown_steps(if self@.open { Lifecycle::Open } else { Lifecycle::Closed }),
    {
        let mut state = if self.open {
            Lifecycle::Open
        } else {
            Lifecycle::Closed
        };
        teardown(&mut state)
    }
}

} // verus!

verus! {

/// A write followed by a seek back to where it began and a read of the
/// same length reads back exactly the bytes written; every byte of the
/// source outside the written range keeps its value, a gap before a write
/// past the end reads as zero bytes, and the offset ends just past the
/// bytes written.
pub proof fn lemma_write_then_read(m: HandleModel, bytes: Seq<u8>)
    requires
        valid_model(m),
    ensures
        seek_model(write_model(m, bytes), SeekPosition::Start(m.offset as u64)) is Some,
        read_model(
            seek_model(write_model(m, bytes), SeekPosition::Start(m.offset as u64))->Some_0,
            bytes.len() as int,
        ).1 == bytes,
        forall|j: int|
            0 <= j < m.data.len() && !(m.offset <= j < m.offset + bytes.len()) ==> #[trigger] write_model(
                m,
                bytes,
            ).data[j] == m.data[j],
        bytes.len() > 0 ==> forall|j: int| m.data.len() <= j < m.offset ==> #[trigger] write_model(m, bytes).data[j] == 0,
        write_model(m, bytes).offset == m.offset + bytes.len(),
{
    let w = write_model(m, bytes);
    let back = seek_model(w, SeekPosition::Start(m.offset as u64));
    assert(back is Some);
    assert(read_model(back->Some_0, bytes.len() as int).1 =~= bytes);
}

/// Seeking to the start and then `n` bytes forward lands where seeking
/// straight to `n` does, for every `n` that is not negative, within the
/// source or past its end.
pub proof fn lemma_seek_round_trip(m: HandleModel, n: i64)
    requires
        valid_model(m),
        0 <= n <= usize::MAX,
    ensures
        seek_model(m, SeekPosition::Start(0)) is Some,
        seek_model(seek_model(m, SeekPosition::Start(0))->Some_0, SeekPosition::Current(n))
            == seek_model(m, SeekPosition::Start(n as u64)),
        seek_model(m, SeekPosition::Start(n as u64)) is Some,
{
}

} // verus!
