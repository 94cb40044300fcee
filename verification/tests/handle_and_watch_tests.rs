use fs_directory::directory::{atomic_read_outcome, read_open_outcome, ReadOpenEvent};
use fs_directory::handle::FsHandle;
use fs_directory::watch::WatchRegistry;
use fs_directory::directory::FsDirectory;

#[test]
fn handle_len_is_the_cached_length() {
    let h = FsHandle { length: 12 };
    assert_eq!(h.len(), 12);
}

#[test]
fn range_in_bounds_accepts_exactly_the_valid_ranges() {
    let h = FsHandle { length: 10 };
    assert!(h.range_in_bounds(0, 10));
    assert!(h.range_in_bounds(3, 3));
    assert!(h.range_in_bounds(2, 7));
    assert!(!h.range_in_bounds(5, 11));
    assert!(!h.range_in_bounds(7, 2));
}

#[test]
fn read_buffer_is_zeroed_and_sized_to_the_range() {
    let h = FsHandle { length: 10 };
    let v = h.read_buffer(2, 7);
    assert_eq!(v, vec![0u8; 5]);
}

#[test]
fn read_buffer_of_empty_range_is_empty() {
    let h = FsHandle { length: 10 };
    assert!(h.read_buffer(4, 4).is_empty());
}

#[test]
fn finish_read_holds_exactly_the_bytes_read() {
    let h = FsHandle { length: 3 };
    let owned = h.finish_read(vec![1u8, 2, 3]);
    assert_eq!(owned.as_slice(), &[1u8, 2, 3]);
    assert_eq!(owned.len(), 3);
}

#[test]
fn register_hands_out_distinct_live_ids() {
    let mut reg = WatchRegistry::new();
    let a = reg.register();
    let b = reg.register();
    assert_ne!(a, b);
    assert!(reg.contains(a));
    assert!(reg.contains(b));
}

#[test]
fn unregister_disposes_only_that_subscription() {
    let mut reg = WatchRegistry::new();
    let a = reg.register();
    let b = reg.register();
    let c = reg.register();
    reg.unregister(b);
    assert!(reg.contains(a));
    assert!(!reg.contains(b));
    assert!(reg.contains(c));
}

#[test]
fn unregister_of_absent_id_changes_nothing() {
    let mut reg = WatchRegistry::new();
    let a = reg.register();
    reg.unregister(a.wrapping_add(100));
    assert!(reg.contains(a));
}

#[test]
fn fresh_registry_has_no_live_subscription() {
    let reg = WatchRegistry::new();
    assert!(!reg.contains(0));
}

#[test]
fn end_to_end_meta_file_round() {
    let mut d = FsDirectory::new("r".to_string(), false);
    let resolved = d.subpath("meta.json");
    assert_eq!(resolved, "r/meta.json");

    // The first write-triggering call materializes the root.
    assert!(!d.materialized());
    d.mark_materialized();
    assert!(d.materialized());

    // The sink wrote these bytes and terminated; a fresh read handle
    // caches their length and reads them all back.
    let written: Vec<u8> = b"{\"v\":1}".to_vec();
    let handle = read_open_outcome(
        ReadOpenEvent::Opened {
            length: written.len() as u64,
        },
        resolved.clone(),
    )
    .unwrap();
    assert_eq!(handle.len(), written.len());
    let buffer = handle.read_buffer(0, handle.len());
    assert_eq!(buffer.len(), written.len());
    let owned = handle.finish_read(written.clone());
    assert_eq!(owned.as_slice(), written.as_slice());

    // A whole-file replace followed by a whole-file read observes the
    // replacement in full.
    let replaced: Vec<u8> = b"{\"v\":2}".to_vec();
    let r = atomic_read_outcome(Ok(replaced.clone()), resolved);
    assert_eq!(r.unwrap(), replaced);
}
