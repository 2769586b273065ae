use fileshare::naming::resolve_collision;
use fileshare::registry::Registry;
use fileshare::upload::PartPlan;
use fileshare::upload::PartProgress;
use fileshare::upload::MAX_FILE_SIZE;
use fileshare::upload::plan_part;

#[test]
fn chunk_that_crosses_the_ceiling_is_refused_and_count_kept() {
    let mut p = PartProgress::new();
    assert!(p.add_chunk(5 * 1024 * 1024 * 1024));
    assert_eq!(p.total, 5 * 1024 * 1024 * 1024);
    assert!(!p.add_chunk(6 * 1024 * 1024 * 1024));
    assert_eq!(p.total, 5 * 1024 * 1024 * 1024);
}

#[test]
fn ceiling_itself_is_accepted_and_one_more_byte_is_not() {
    let mut p = PartProgress::new();
    assert!(p.add_chunk(MAX_FILE_SIZE as usize));
    assert_eq!(p.total, MAX_FILE_SIZE);
    assert!(!p.add_chunk(1));
    assert_eq!(p.total, MAX_FILE_SIZE);
}

#[test]
fn aborted_part_adds_no_record() {
    let reg = Registry::new();
    let mut p = PartProgress::new();
    assert!(!p.add_chunk(MAX_FILE_SIZE as usize + 1));
    assert_eq!(p.total, 0);
    assert_eq!(reg.len(), 0);
}

#[test]
fn same_name_uploaded_twice_gets_distinct_ids_and_names() {
    let first: PartPlan = plan_part(Some("a.txt"));
    let second: PartPlan = plan_part(Some("a.txt"));
    assert_ne!(first.id, second.id);
    assert_eq!(first.candidate, "a.txt");
    assert_eq!(second.candidate, "a.txt");

    let first_name = resolve_collision(&first.candidate, &first.id, false);
    let second_name = resolve_collision(&second.candidate, &second.id, true);
    assert_eq!(first_name, "a.txt");
    assert_ne!(second_name, first_name);
    assert_eq!(second_name.len(), "a.txt".len() + 9);
    assert!(second_name.starts_with("a_"));
    assert!(second_name.ends_with(".txt"));
}

#[test]
fn client_name_is_sanitized_in_the_plan() {
    let p = plan_part(Some("my file?.txt"));
    assert_eq!(p.candidate, "my file_.txt");
    assert_eq!(p.id.len(), 36);
}

#[test]
fn missing_client_name_synthesizes_an_upload_name() {
    let p = plan_part(None);
    assert_eq!(p.candidate.len(), 43);
    assert!(p.candidate.starts_with("upload_"));
    assert_eq!(p.id.len(), 36);
}
