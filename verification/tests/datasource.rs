use lagrappe::datasource::{
    driven_dir, DataSourceImpl, FileEntry, FileSnapshot, DRIVEN_FOLDER_NAME,
    WATCH_POLL_INTERVAL_SECS,
};

fn entry(path: &str, content: &[u8]) -> FileEntry {
    FileEntry { path: path.to_string(), content: content.to_vec() }
}

#[test]
fn data_source_keeps_its_folder() {
    let source = DataSourceImpl::new("/work/driven".to_string());
    assert_eq!(source.path(), "/work/driven");
    assert_eq!(DataSourceImpl::new(String::new()).path(), "");
}

#[test]
fn folder_is_polled_every_two_seconds() {
    assert_eq!(WATCH_POLL_INTERVAL_SECS, 2);
}

#[test]
fn drivers_lie_under_the_working_directory() {
    assert_eq!(DRIVEN_FOLDER_NAME, "driven");
    assert_eq!(driven_dir("/work".to_string()), "/work/driven");
    assert_eq!(driven_dir(String::new()), "/driven");
}

#[test]
fn new_snapshot_is_empty() {
    let snapshot = FileSnapshot::new();
    assert_eq!(snapshot.len(), 0);
    assert!(snapshot.is_empty());
    assert_eq!(snapshot.get("/a"), None);
    assert_eq!(snapshot.into_entries(), vec![]);
}

#[test]
fn recorded_files_are_found_by_path() {
    let mut snapshot = FileSnapshot::new();
    snapshot.insert("/a".to_string(), vec![1, 2, 3]);
    snapshot.insert("/b".to_string(), vec![]);
    assert_eq!(snapshot.len(), 2);
    assert!(!snapshot.is_empty());
    assert_eq!(snapshot.get("/a"), Some(&vec![1, 2, 3]));
    assert_eq!(snapshot.get("/b"), Some(&vec![]));
    assert_eq!(snapshot.get("/c"), None);
    assert_eq!(snapshot.get("/"), None);
}

#[test]
fn later_content_replaces_earlier() {
    let mut snapshot = FileSnapshot::new();
    snapshot.insert("/a".to_string(), vec![1]);
    snapshot.insert("/b".to_string(), vec![2]);
    snapshot.insert("/a".to_string(), vec![3, 4]);
    assert_eq!(snapshot.len(), 2);
    assert_eq!(snapshot.get("/a"), Some(&vec![3, 4]));
    assert_eq!(snapshot.get("/b"), Some(&vec![2]));
}

#[test]
fn extend_prefers_the_other_snapshot() {
    let mut snapshot = FileSnapshot::new();
    snapshot.insert("/a".to_string(), vec![1]);
    snapshot.insert("/b".to_string(), vec![2]);
    let mut other = FileSnapshot::new();
    other.insert("/b".to_string(), vec![20]);
    other.insert("/c".to_string(), vec![30]);
    other.insert("/d".to_string(), vec![40]);
    snapshot.extend(other);
    assert_eq!(snapshot.len(), 4);
    assert_eq!(snapshot.get("/a"), Some(&vec![1]));
    assert_eq!(snapshot.get("/b"), Some(&vec![20]));
    assert_eq!(snapshot.get("/c"), Some(&vec![30]));
    assert_eq!(snapshot.get("/d"), Some(&vec![40]));
}

#[test]
fn extend_by_nothing_changes_nothing() {
    let mut snapshot = FileSnapshot::new();
    snapshot.insert("/a".to_string(), vec![1]);
    snapshot.extend(FileSnapshot::new());
    assert_eq!(snapshot.into_entries(), vec![entry("/a", &[1])]);
}

#[test]
fn entries_come_out_once_per_path() {
    let mut snapshot = FileSnapshot::new();
    snapshot.insert("/a".to_string(), vec![1]);
    snapshot.insert("/b".to_string(), vec![2]);
    snapshot.insert("/a".to_string(), vec![3]);
    let mut entries = snapshot.into_entries();
    entries.sort_by(|x, y| x.path.cmp(&y.path));
    assert_eq!(entries, vec![entry("/a", &[3]), entry("/b", &[2])]);
}
