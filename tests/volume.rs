use libfsntfs::access::AccessMode;
use libfsntfs::error::Error;
use libfsntfs::lifecycle::{teardown, Lifecycle, TeardownStep};
use libfsntfs::volume::{EntryRecord, Volume, VolumeInfo};

fn record(name: &str, path: &str) -> EntryRecord {
    EntryRecord { name: name.to_string(), path: path.to_string() }
}

fn sample_volume() -> Result<Volume, Error> {
    let entries = vec![
        record("$MFT", "/$MFT"),
        record("$MFTMirr", "/$MFTMirr"),
        record("$LogFile", "/$LogFile"),
        record("$Volume", "/$Volume"),
        record("$AttrDef", "/$AttrDef"),
        record(".", "/"),
        record("$Bitmap", "/$Bitmap"),
        record("$Boot", "/$Boot"),
        record("$BadClus", "/$BadClus"),
        record("$Secure", "/$Secure"),
        record("$UpCase", "/$UpCase"),
        record("$Extend", "/$Extend"),
        record("Users", "/Users"),
        record("notes.txt", "/Users/notes.txt"),
    ];
    let info = VolumeInfo {
        serial_number: 13425491701870188067,
        name: "KW-SRCH-1".to_string(),
        cluster_block_size: 4096,
        mft_entry_size: 1024,
        major_version: 3,
        minor_version: 1,
        entries,
    };
    Ok(Volume::wrap_ptr(info))
}

#[test]
fn test_opens_volume_works() {
    assert!(sample_volume().is_ok());
}

#[test]
fn test_get_volume_name_works() {
    let volume_name_result = sample_volume().unwrap().get_name();
    assert!(
        volume_name_result.is_ok(),
        "FFI call to get_volume_name failed"
    );
    assert_eq!(volume_name_result.unwrap(), "KW-SRCH-1")
}

#[test]
fn test_get_serial_number() {
    let volume_name_result = sample_volume().unwrap().get_serial_number();
    assert!(
        volume_name_result.is_ok(),
        "FFI call to get_volume_name failed"
    );
    assert_eq!(volume_name_result.unwrap(), 13425491701870188067)
}

#[test]
fn test_iter_entries() {
    let volume = sample_volume().unwrap();

    let mut iter = volume.iter_entries().unwrap();
    while let Some(result) = iter.next() {
        let entry = result.unwrap();
        println!("{:?}", entry);
    }
}

#[test]
fn iteration_yields_every_index_in_order() {
    let volume = sample_volume().unwrap();
    let count = volume.get_number_of_file_entries().unwrap();
    assert_eq!(count, 14);
    let results = volume.iter_entries().unwrap().collect_results();
    assert_eq!(results.len(), count);
    for (i, result) in results.iter().enumerate() {
        assert_eq!(result.as_ref().unwrap().mft_entry_index, i as u64);
    }
    let mut iter = volume.iter_entries().unwrap();
    let mut seen = 0;
    while let Some(result) = iter.next() {
        assert_eq!(result.unwrap().mft_entry_index, seen);
        seen += 1;
    }
    assert_eq!(seen, 14);
    assert!(iter.next().is_none());
}

#[test]
fn empty_volume_iterates_nothing() {
    let info = VolumeInfo {
        serial_number: 1,
        name: String::new(),
        cluster_block_size: 512,
        mft_entry_size: 1024,
        major_version: 3,
        minor_version: 1,
        entries: Vec::new(),
    };
    let volume = Volume::wrap_ptr(info);
    assert!(volume.iter_entries().unwrap().next().is_none());
    assert_eq!(volume.get_name().unwrap(), "");
    assert_eq!(volume.get_root_directory().unwrap_err(), Error::NotFound);
}

#[test]
fn entry_by_index() {
    let volume = sample_volume().unwrap();
    let entry = volume.get_file_entry_by_mft_idx(13).unwrap();
    assert_eq!(entry.mft_entry_index, 13);
    assert_eq!(entry.name, "notes.txt");
    assert_eq!(entry.path, "/Users/notes.txt");
    assert_eq!(volume.get_file_entry_by_mft_idx(14).unwrap_err(), Error::NotFound);
    assert_eq!(volume.get_file_entry_by_mft_idx(u64::MAX).unwrap_err(), Error::NotFound);
}

#[test]
fn root_directory_is_entry_five() {
    let volume = sample_volume().unwrap();
    let root = volume.get_root_directory().unwrap();
    assert_eq!(root.mft_entry_index, 5);
    assert_eq!(root.volume.get_serial_number(), Ok(13425491701870188067));
    assert_eq!(root.name, ".");
}

#[test]
fn entry_by_path() {
    let volume = sample_volume().unwrap();
    assert_eq!(volume.get_file_entry_by_path("/Users/notes.txt").unwrap().mft_entry_index, 13);
    assert_eq!(volume.get_file_entry_by_path("/").unwrap().mft_entry_index, 5);
    assert_eq!(volume.get_file_entry_by_path("/Users/missing.txt").unwrap_err(), Error::NotFound);
    assert_eq!(volume.get_file_entry_by_path("").unwrap_err(), Error::NotFound);
}

#[test]
fn volume_metadata() {
    let volume = sample_volume().unwrap();
    assert_eq!(volume.get_cluster_block_size(), Ok(4096));
    assert_eq!(volume.get_mft_entry_size(), Ok(1024));
    assert_eq!(volume.get_version(), Ok((3, 1)));
}

#[test]
fn closed_volume_refuses_queries() {
    let mut volume = sample_volume().unwrap();
    assert_eq!(volume.close(), Ok(()));
    assert_eq!(volume.close(), Err(Error::NotOpen));
    assert_eq!(volume.get_serial_number(), Err(Error::NotOpen));
    assert_eq!(volume.get_name().unwrap_err(), Error::NotOpen);
    assert_eq!(volume.get_number_of_file_entries(), Err(Error::NotOpen));
    assert_eq!(volume.get_file_entry_by_mft_idx(0).unwrap_err(), Error::NotOpen);
    assert_eq!(volume.get_file_entry_by_path("/").unwrap_err(), Error::NotOpen);
    assert!(volume.iter_entries().is_err());
    assert_eq!(volume.free(), vec![TeardownStep::Free]);
}

#[test]
fn volume_free_closes_then_frees() {
    let volume = sample_volume().unwrap();
    assert_eq!(volume.free(), vec![TeardownStep::Close, TeardownStep::Free]);
}

#[test]
fn teardown_twice_frees_once() {
    let mut state = Lifecycle::Open;
    assert_eq!(teardown(&mut state), vec![TeardownStep::Close, TeardownStep::Free]);
    assert_eq!(state, Lifecycle::Freed);
    assert_eq!(teardown(&mut state), vec![]);
    assert_eq!(state, Lifecycle::Freed);
}

#[test]
fn access_mode_flags() {
    assert_eq!(AccessMode::Read.as_flag(), 1);
    assert_eq!(AccessMode::Write.as_flag(), 2);
}
