use crate::error::Error;
use crate::lifecycle::{teardown, teardown_steps, Lifecycle, TeardownStep};
use vstd::prelude::*;

verus! {

/// The MFT entry index of the root directory.
pub const ROOT_DIRECTORY_INDEX: u64 = 5;

/// What the storage engine reports of one MFT entry: its name and its
/// forward-slash separated path.
#[derive(Debug)]
pub struct EntryRecord {
    pub name: String,
    pub path: String,
}

/// A file entry of a volume, tagged with its MFT entry index. It borrows
/// the volume it came from, which therefore outlives it.
#[derive(Debug)]
pub struct FileEntry<'a> {
    pub volume: &'a Volume,
    pub mft_entry_index: u64,
    pub name: String,
    pub path: String,
}

/// What the storage engine reports of an opened volume. The entry at
/// position `i` of `entries` is MFT entry `i`.
#[derive(Debug)]
pub struct VolumeInfo {
    pub serial_number: u64,
    pub name: String,
    pub cluster_block_size: usize,
    pub mft_entry_size: u32,
    pub major_version: u8,
    pub minor_version: u8,
    pub entries: Vec<EntryRecord>,
}

/// What a volume holds, as mathematical values.
pub struct VolumeModel {
    pub serial_number: u64,
    pub name: Seq<char>,
    pub cluster_block_size: usize,
    pub mft_entry_size: u32,
    pub major_version: u8,
    pub minor_version: u8,
    pub entries: Seq<EntryRecord>,
    pub open: bool,
}

/// Whether `e` is MFT entry `i` of volume `m`: it belongs to `m`, carries
/// the index `i`, and has that entry's name and path.
pub open spec fn is_entry(e: FileEntry<'_>, m: VolumeModel, i: int) -> bool {
    &&& e.volume@ == m
    &&& e.mft_entry_index as int == i
    &&& e.name == m.entries[i].name
    &&& e.path == m.entries[i].path
}

/// Whether `r` is what a lookup of MFT entry `i` of volume `m` gives:
/// `NotOpen` on a closed volume, `NotFound` for an index past the last
/// entry, and that entry otherwise.
pub open spec fn is_entry_result(r: Result<FileEntry<'_>, Error>, m: VolumeModel, i: int) -> bool {
    if !m.open {
        r is Err && r->Err_0 == Error::NotOpen
    } else if i < 0 || i >= m.entries.len() {
        r is Err && r->Err_0 == Error::NotFound
    } else {
        r is Ok && is_entry(r->Ok_0, m, i)
    }
}

/// Whether MFT entry `i` has path `p`.
pub open spec fn has_path(m: VolumeModel, i: int, p: Seq<char>) -> bool {
    m.entries[i].path@ == p
}

/// An opened volume: its metadata and its file entries by MFT entry index.
#[derive(Debug)]
pub struct Volume {
    info: VolumeInfo,
    open: bool,
}

impl View for Volume {
    type V = VolumeModel;

    closed spec fn view(&self) -> VolumeModel {
        VolumeModel {
            serial_number: self.info.serial_number,
            name: self.info.name@,
            cluster_block_size: self.info.cluster_block_size,
            mft_entry_size: self.info.mft_entry_size,
            major_version: self.info.major_version,
            minor_version: self.info.minor_version,
            entries: self.info.entries@,
            open: self.open,
        }
    }
}

impl Volume {
    /// Wraps the storage engine's opened volume, as the engine reports it.
    pub fn wrap_ptr(info: VolumeInfo) -> (v: Volume)
        ensures
            v@ == (VolumeModel {
                serial_number: info.serial_number,
                name: info.name@,
                cluster_block_size: info.cluster_block_size,
                mft_entry_size: info.mft_entry_size,
                major_version: info.major_version,
                minor_version: info.minor_version,
                entries: info.entries@,
                open: true,
            }),
    {
        Volume { info, open: true }
    }

    /// The number of file entries.
    pub fn get_number_of_file_entries(&self) -> (r: Result<usize, Error>)
        ensures
            !self@.open ==> r == Err::<usize, Error>(Error::NotOpen),
            self@.open ==> r == Ok::<usize, Error>(self@.entries.len() as usize),
    {
        if !self.open {
            return Err(Error::NotOpen);
        }
        Ok(self.info.entries.len())
    }

    /// The file entry with MFT entry index `idx`.
    pub fn get_file_entry_by_mft_idx(&self, idx: u64) -> (r: Result<FileEntry<'_>, Error>)
        ensures
            is_entry_result(r, self@, idx as int),
    {
        if !self.open {
            return Err(Error::NotOpen);
        }
        if idx >= self.info.entries.len() as u64 {
            return Err(Error::NotFound);
        }
        let record = &self.info.entries[idx as usize];
        Ok(FileEntry { volume: self, mft_entry_index: idx, name: record.name.clone(), path: record.path.clone() })
    }

    /// The root directory.
    pub fn get_root_directory(&self) -> (r: Result<FileEntry<'_>, Error>)
        ensures
            is_entry_result(r, self@, ROOT_DIRECTORY_INDEX as int),
    {
        self.get_file_entry_by_mft_idx(ROOT_DIRECTORY_INDEX)
    }

    /// The first file entry whose path is `path`. An empty path, or one
    /// that no entry has, is not found.
    pub fn get_file_entry_by_path(&self, path: &str) -> (r: Result<FileEntry<'_>, Error>)
        ensures
            !self@.open ==> r is Err && r->Err_0 == Error::NotOpen,
            self@.open && (path@.len() == 0 || forall|i: int| 0 <= i < self@.entries.len() ==> !has_path(self@, i, path@))
                ==> r is Err && r->Err_0 == Error::NotFound,
            self@.open && r is Ok ==> path@.len() > 0 && exists|i: int|
                0 <= i < self@.entries.len() && has_path(self@, i, path@)
                && (forall|j: int| 0 <= j < i ==> !has_path(self@, j, path@))
                && is_entry(r->Ok_0, self@, i),
            self@.open && path@.len() > 0 && (exists|i: int| 0 <= i < self@.entries.len() && has_path(self@, i, path@))
                ==> r is Ok,
    {
        if !self.open {
            return Err(Error::NotOpen);
        }
        let wanted = path.to_owned();
        if path.is_empty() {
            return Err(Error::NotFound);
        }
        let mut i: usize = 0;
        while i < self.info.entries.len()
            invariant
                i <= self.info.entries@.len(),
                wanted@ == path@,
                path@.len() > 0,
                self@.open,
                forall|j: int| 0 <= j < i ==> !has_path(self@, j, path@),
            decreases self.info.entries.len() - i,
        {
            if self.info.entries[i].path == wanted {
                assert(has_path(self@, i as int, path@));
                return self.get_file_entry_by_mft_idx(i as u64);
            }
            i = i + 1;
        }
        Err(Error::NotFound)
    }

    /// A forward iterator over the file entries, by MFT entry index from
    /// zero; the number of entries is taken once, when it is made.
    pub fn iter_entries(&self) -> (r: Result<IterFileEntries<'_>, Error>)
        ensures
            !self@.open ==> r is Err && r->Err_0 == Error::NotOpen,
            self@.open ==> r is Ok && r->Ok_0.volume() == self@ && r->Ok_0.index() == 0
                && r->Ok_0.count() == self@.entries.len(),
    {
        let number_of_file_entries = match self.get_number_of_file_entries() {
            Ok(n) => n,
            Err(e) => {
                return Err(e);
            },
        };
        assert(self.info.entries@.len() == self.info.entries.len());
        Ok(IterFileEntries { handle: self, number_of_file_entries, idx: 0 })
    }

    /// The volume serial number.
    pub fn get_serial_number(&self) -> (r: Result<u64, Error>)
        ensures
            !self@.open ==> r == Err::<u64, Error>(Error::NotOpen),
            self@.open ==> r == Ok::<u64, Error>(self@.serial_number),
    {
        if !self.open {
            return Err(Error::NotOpen);
        }
        Ok(self.info.serial_number)
    }

    /// The volume name.
    pub fn get_name(&self) -> (r: Result<String, Error>)
        ensures
            !self@.open ==> r is Err && r->Err_0 == Error::NotOpen,
            self@.open ==> r is Ok && r->Ok_0@ == self@.name,
    {
        if !self.open {
            return Err(Error::NotOpen);
        }
        Ok(self.info.name.clone())
    }

    /// The size of a cluster block, in bytes.
    pub fn get_cluster_block_size(&self) -> (r: Result<usize, Error>)
        ensures
            !self@.open ==> r == Err::<usize, Error>(Error::NotOpen),
            self@.open ==> r == Ok::<usize, Error>(self@.cluster_block_size),
    {
        if !self.open {
            return Err(Error::NotOpen);
        }
        Ok(self.info.cluster_block_size)
    }

    /// The size of an MFT entry, in bytes.
    pub fn get_mft_entry_size(&self) -> (r: Result<u32, Error>)
        ensures
            !self@.open ==> r == Err::<u32, Error>(Error::NotOpen),
            self@.open ==> r == Ok::<u32, Error>(self@.mft_entry_size),
    {
        if !self.open {
            return Err(Error::NotOpen);
        }
        Ok(self.info.mft_entry_size)
    }

    /// The major and minor format version.
    pub fn get_version(&self) -> (r: Result<(u8, u8), Error>)
        ensures
            !self@.open ==> r == Err::<(u8, u8), Error>(Error::NotOpen),
            self@.open ==> r == Ok::<(u8, u8), Error>((self@.major_version, self@.minor_version)),
    {
        if !self.open {
            return Err(Error::NotOpen);
        }
        Ok((self.info.major_version, self.info.minor_version))
    }

    /// Closes the volume; every later query fails.
    pub fn close(&mut self) -> (r: Result<(), Error>)
        ensures
            !old(self)@.open ==> r == Err::<(), Error>(Error::NotOpen) && final(self)@ == old(self)@,
            old(self)@.open ==> r == Ok::<(), Error>(()) && final(self)@ == (VolumeModel { open: false, ..old(self)@ }),
    {
        if !self.open {
            return Err(Error::NotOpen);
        }
        self.open = false;
        Ok(())
    }

    /// Destroys the volume: closes it if it is open, then frees it, once.
    /// Returns the steps taken.
    pub fn free(self) -> (steps: Vec<TeardownStep>)
        ensures
            steps@ == teardown_steps(if self@.open { Lifecycle::Open } else { Lifecycle::Closed }),
    {
        let mut state = if self.open {
            Lifecycle::Open
        } else {
            Lifecycle::Closed
        };
        teardown(&mut state)
    }
}

/// A forward iterator over the file entries of a volume. Each step looks up
/// the next MFT entry index; a failed lookup is handed out and the
/// iteration goes on past it.
pub struct IterFileEntries<'a> {
    handle: &'a Volume,
    number_of_file_entries: usize,
    idx: usize,
}

impl<'a> IterFileEntries<'a> {
    /// The volume iterated over.
    pub closed spec fn volume(&self) -> VolumeModel {
        self.handle@
    }

    /// The number of entries taken when the iterator was made.
    pub closed spec fn count(&self) -> nat {
        self.number_of_file_entries as nat
    }

    /// The MFT entry index that the next step looks up.
    pub closed spec fn index(&self) -> nat {
        self.idx as nat
    }

    /// The next file entry, or `None` once every index was handed out.
    pub fn next(&mut self) -> (r: Option<Result<FileEntry<'a>, Error>>)
        requires
            old(self).index() <= old(self).count(),
        ensures
            final(self).volume() == old(self).volume(),
            final(self).count() == old(self).count(),
            final(self).index() <= final(self).count(),
            old(self).index() < old(self).count() ==> r is Some && is_entry_result(r->Some_0, old(self).volume(), old(self).index() as int)
                && final(self).index() == old(self).index() + 1,
            old(self).index() >= old(self).count() ==> r is None && final(self).index() == old(self).index(),
    {
        if self.idx < self.number_of_file_entries {
            let entry = self.handle.get_file_entry_by_mft_idx(self.idx as u64);
            self.idx = self.idx + 1;
            return Some(entry);
        }
        None
    }

    /// Runs the iterator to its end and returns what each step handed out,
    /// in order.
    pub fn collect_results(&mut self) -> (r: Vec<Result<FileEntry<'a>, Error>>)
        requires
            old(self).index() <= old(self).count(),
        ensures
            final(self).volume() == old(self).volume(),
            final(self).count() == old(self).count(),
            final(self).index() == old(self).count(),
            r@.len() == old(self).count() - old(self).index(),
            forall|k: int| 0 <= k < r@.len() ==> is_entry_result(#[trigger] r@[k], old(self).volume(), old(self).index() + k),
    {
        let mut results: Vec<Result<FileEntry<'a>, Error>> = Vec::new();
        let ghost start = self.index();
        while self.idx < self.number_of_file_entries
            invariant
                self.volume() == old(self).volume(),
                self.count() == old(self).count(),
                start == old(self).index(),
                start <= self.index() <= self.count(),
                results@.len() == self.index() - start,
                forall|k: int| 0 <= k < results@.len() ==> is_entry_result(#[trigger] results@[k], old(self).volume(), start + k),
            decreases self.number_of_file_entries - self.idx,
        {
            match self.next() {
                Some(entry) => results.push(entry),
                None => {},
            }
        }
        results
    }
}

} // verus!

verus! {

/// On an open volume, the items of a full iteration from index zero, one
/// for each file entry, all succeed and come tagged with the indices
/// `0, 1, ...` in increasing order.
pub proof fn lemma_iteration_tags(m: VolumeModel, items: Seq<Result<FileEntry<'_>, Error>>)
    requires
        m.open,
        items.len() == m.entries.len(),
        forall|k: int| 0 <= k < items.len() ==> is_entry_result(#[trigger] items[k], m, k),
    ensures
        forall|k: int| 0 <= k < items.len() ==> (#[trigger] items[k]) is Ok && items[k]->Ok_0.mft_entry_index == k,
        forall|k1: int, k2: int|
            0 <= k1 < k2 < items.len() ==> (#[trigger] items[k1])->Ok_0.mft_entry_index
                < (#[trigger] items[k2])->Ok_0.mft_entry_index,
{
    assert forall|k: int| 0 <= k < items.len() implies (#[trigger] items[k]) is Ok && items[k]->Ok_0.mft_entry_index == k by {
        assert(is_entry_result(items[k], m, k));
    }
}

} // verus!
