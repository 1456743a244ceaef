//! A verified I/O handle over a byte source and a verified view of an
//! opened NTFS volume and its file entries.

pub mod access;
pub mod error;
pub mod handle;
pub mod lifecycle;
pub mod source;
pub mod volume;
