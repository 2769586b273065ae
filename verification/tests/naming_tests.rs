use fileshare::naming::attachment_header;
use fileshare::naming::download_headers;
use fileshare::naming::resolve_collision;

const ID: &str = "a1b2c3d4-e5f6-7890-abcd-ef0123456789";

#[test]
fn no_collision_keeps_the_candidate() {
    let name = String::from("report.pdf");
    let id = String::from(ID);
    assert_eq!(resolve_collision(&name, &id, false), "report.pdf");
}

#[test]
fn collision_inserts_id_prefix_before_extension() {
    let name = String::from("report.pdf");
    let id = String::from(ID);
    assert_eq!(resolve_collision(&name, &id, true), "report_a1b2c3d4.pdf");
}

#[test]
fn collision_without_extension_appends_id_prefix() {
    let name = String::from("archive");
    let id = String::from(ID);
    assert_eq!(resolve_collision(&name, &id, true), "archive_a1b2c3d4");
}

#[test]
fn collision_on_dotfile_treats_whole_name_as_stem() {
    let name = String::from(".bashrc");
    let id = String::from(ID);
    assert_eq!(resolve_collision(&name, &id, true), ".bashrc_a1b2c3d4");
}

#[test]
fn collision_splits_at_last_dot() {
    let name = String::from("a.b.c");
    let id = String::from(ID);
    assert_eq!(resolve_collision(&name, &id, true), "a.b_a1b2c3d4.c");
}

#[test]
fn attachment_header_quotes_the_literal_filename() {
    let h = attachment_header("my file.txt");
    assert_eq!(h, "attachment; filename=\"my file.txt\"");
    assert!(h.contains("my file.txt"));
}

#[test]
fn download_headers_guess_content_type_and_quote_name() {
    let (mime, disposition) = download_headers("photo.png");
    assert_eq!(mime, "image/png");
    assert_eq!(disposition, "attachment; filename=\"photo.png\"");
}
