use vstd::prelude::*;

verus! {

/// The access flags of a handle, one bit each:
/// bit 1 read, bit 2 write, bit 3 truncate; the others are unused.
#[derive(Debug, Clone, Copy, PartialEq, Eq, Structural)]
pub enum LibbfioAccessFlags {
    Read,
    Write,
    Truncate,
}

pub const ACCESS_FLAG_READ: i32 = 1;

pub const ACCESS_FLAG_WRITE: i32 = 2;

pub const ACCESS_FLAG_TRUNCATE: i32 = 4;

/// The bit value of an access flag.
pub open spec fn flag_bits(f: LibbfioAccessFlags) -> i32 {
    match f {
        LibbfioAccessFlags::Read => ACCESS_FLAG_READ,
        LibbfioAccessFlags::Write => ACCESS_FLAG_WRITE,
        LibbfioAccessFlags::Truncate => ACCESS_FLAG_TRUNCATE,
    }
}

/// Whether a set of access flags holds the write bit.
pub open spec fn allows_write(flags: i32) -> bool {
    flags & ACCESS_FLAG_WRITE != 0
}

impl LibbfioAccessFlags {
    pub fn to_int(&self) -> (r: i32)
        ensures
            r == flag_bits(*self),
    {
        match self {
            LibbfioAccessFlags::Read => ACCESS_FLAG_READ,
            LibbfioAccessFlags::Write => ACCESS_FLAG_WRITE,
            LibbfioAccessFlags::Truncate => ACCESS_FLAG_TRUNCATE,
        }
    }
}

/// Tests the write bit of a set of access flags.
pub fn permits_write(flags: i32) -> (r: bool)
    ensures
        r == allows_write(flags),
{
    flags & LibbfioAccessFlags::Write.to_int() != 0
}

/// The mode in which a volume is opened.
#[derive(Debug, Clone, Copy, PartialEq, Eq, Structural)]
pub enum AccessMode {
    Read,
    Write,
}

pub const VOLUME_ACCESS_FLAG_READ: u32 = 1;

pub const VOLUME_ACCESS_FLAG_WRITE: u32 = 2;

/// The volume access flag of a mode.
pub open spec fn mode_bits(m: AccessMode) -> u32 {
    match m {
        AccessMode::Read => VOLUME_ACCESS_FLAG_READ,
        AccessMode::Write => VOLUME_ACCESS_FLAG_WRITE,
    }
}

impl AccessMode {
    pub fn as_flag(&self) -> (r: u32)
        ensures
            r == mode_bits(*self),
    {
        match self {
            AccessMode::Read => VOLUME_ACCESS_FLAG_READ,
            AccessMode::Write => VOLUME_ACCESS_FLAG_WRITE,
        }
    }
}

} // verus!

verus! {

/// A handle opened for reading, or for truncation alone, never holds the
/// write bit, so every write on it is refused; one opened for writing does.
pub proof fn lemma_write_bit_of_flags()
    ensures
        !allows_write(flag_bits(LibbfioAccessFlags::Read)),
        !allows_write(flag_bits(LibbfioAccessFlags::Truncate)),
        allows_write(flag_bits(LibbfioAccessFlags::Write)),
{
    assert(1i32 & 2i32 == 0i32) by (bit_vector);
    assert(4i32 & 2i32 == 0i32) by (bit_vector);
    assert(2i32 & 2i32 == 2i32) by (bit_vector);
}

} // verus!
