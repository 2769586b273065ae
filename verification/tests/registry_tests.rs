use fileshare::record::FileRecord;
use fileshare::record::ScanEntry;
use fileshare::registry::Registry;

fn record(id: &str, name: &str, size: u64, at: i64) -> FileRecord {
    FileRecord {
        id: String::from(id),
        name: String::from(name),
        size,
        mime_type: String::from("application/octet-stream"),
        uploaded_at: at,
    }
}

fn ids(reg: &Registry) -> Vec<String> {
    reg.snapshot().iter().map(|r| r.id.clone()).collect()
}

#[test]
fn delete_known_id_removes_exactly_one_and_repeat_is_not_found() {
    let mut reg = Registry::new();
    reg.insert_front(record("id-1", "a.txt", 3, 100));
    reg.insert_front(record("id-2", "b.txt", 4, 200));
    reg.insert_front(record("id-3", "c.txt", 5, 300));

    let removed = reg.remove(&String::from("id-2"));
    let removed = removed.expect("known id must be removed");
    assert_eq!(removed.id, "id-2");
    assert_eq!(removed.name, "b.txt");
    assert_eq!(reg.len(), 2);
    assert_eq!(ids(&reg), vec!["id-3".to_string(), "id-1".to_string()]);

    let again = reg.remove(&String::from("id-2"));
    assert!(again.is_none());
    assert_eq!(reg.len(), 2);
    assert_eq!(ids(&reg), vec!["id-3".to_string(), "id-1".to_string()]);
}

#[test]
fn delete_unknown_id_reports_not_found_and_changes_nothing() {
    let mut reg = Registry::new();
    reg.insert_front(record("id-1", "a.txt", 3, 100));
    reg.insert_front(record("id-2", "b.txt", 4, 200));

    let before: Vec<(String, String, u64, String, i64)> = reg
        .snapshot()
        .iter()
        .map(|r| (r.id.clone(), r.name.clone(), r.size, r.mime_type.clone(), r.uploaded_at))
        .collect();

    let missing = reg.remove(&String::from("no-such-id"));
    assert!(missing.is_none());

    let after: Vec<(String, String, u64, String, i64)> = reg
        .snapshot()
        .iter()
        .map(|r| (r.id.clone(), r.name.clone(), r.size, r.mime_type.clone(), r.uploaded_at))
        .collect();
    assert_eq!(before, after);
}

#[test]
fn listing_after_two_uploads_is_most_recent_first() {
    let mut reg = Registry::new();
    let first = reg.finish_part(String::from("id-1"), String::from("a.txt"), 3);
    let second = reg.finish_part(String::from("id-2"), String::from("b.txt"), 4);

    let listed = reg.snapshot();
    assert_eq!(listed.len(), 2);
    assert_eq!(listed[0].id, second.id);
    assert_eq!(listed[1].id, first.id);
}

#[test]
fn finish_part_guesses_mime_from_the_final_name() {
    let mut reg = Registry::new();
    let rec = reg.finish_part(String::from("id-1"), String::from("notes.txt"), 9);
    assert_eq!(rec.mime_type, "text/plain");
    assert_eq!(rec.size, 9);
    assert_eq!(rec.name, "notes.txt");

    let blob = reg.finish_part(String::from("id-2"), String::from("blob"), 1);
    assert_eq!(blob.mime_type, "application/octet-stream");
}

#[test]
fn startup_scan_yields_one_record_per_file_sorted_by_mtime_descending() {
    let entries = vec![
        ScanEntry { name: String::from("old.txt"), size: 10, modified_at: 1_000 },
        ScanEntry { name: String::from("new.pdf"), size: 20, modified_at: 3_000 },
        ScanEntry { name: String::from("mid.bin"), size: 30, modified_at: 2_000 },
    ];
    let reg = Registry::initialize(&entries);
    let listed = reg.snapshot();
    assert_eq!(listed.len(), 3);
    assert_eq!(listed[0].name, "new.pdf");
    assert_eq!(listed[1].name, "mid.bin");
    assert_eq!(listed[2].name, "old.txt");
    assert_eq!(listed[0].size, 20);
    assert_eq!(listed[0].uploaded_at, 3_000);
    assert_eq!(listed[0].mime_type, "application/pdf");
    assert_eq!(listed[1].mime_type, "application/octet-stream");
    assert_eq!(listed[2].mime_type, "text/plain");
    assert_eq!(listed[0].id.len(), 36);
    assert_ne!(listed[0].id, listed[1].id);
}

#[test]
fn startup_scan_skips_dotfiles() {
    let entries = vec![
        ScanEntry { name: String::from(".hidden"), size: 1, modified_at: 500 },
        ScanEntry { name: String::from("seen.txt"), size: 2, modified_at: 400 },
    ];
    let reg = Registry::initialize(&entries);
    let listed = reg.snapshot();
    assert_eq!(listed.len(), 1);
    assert_eq!(listed[0].name, "seen.txt");
}

#[test]
fn startup_scan_of_empty_directory_yields_empty_registry() {
    let entries: Vec<ScanEntry> = Vec::new();
    let reg = Registry::initialize(&entries);
    assert_eq!(reg.len(), 0);
}
