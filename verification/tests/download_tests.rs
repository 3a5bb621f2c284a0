use rssdownloader_rs::WritePlan;
use rssdownloader_rs::derive_filename;
use rssdownloader_rs::download_destination;
use rssdownloader_rs::plan_write;

#[test]
fn filename_is_taken_from_the_quoted_attribute() {
    assert_eq!(
        Some("file.txt".to_string()),
        derive_filename("attachment; filename=\"file.txt\"")
    );
}

#[test]
fn filename_works_without_quotes() {
    assert_eq!(Some("file.txt".to_string()), derive_filename("attachment; filename=file.txt"));
}

#[test]
fn header_without_filename_names_nothing() {
    assert_eq!(None, derive_filename("inline"));
    assert_eq!(None, derive_filename("attachment; name=field"));
    assert_eq!(None, derive_filename(""));
}

#[test]
fn last_filename_attribute_wins() {
    assert_eq!(
        Some("b.txt".to_string()),
        derive_filename("filename=a.txt; filename=b.txt")
    );
}

#[test]
fn surrounding_whitespace_is_trimmed() {
    assert_eq!(
        Some("x.bin".to_string()),
        derive_filename("attachment;   filename=x.bin  ")
    );
}

#[test]
fn empty_quoted_filename_stays_empty() {
    assert_eq!(Some("".to_string()), derive_filename("attachment; filename=\"\""));
}

#[test]
fn destination_joins_directory_and_filename() {
    assert_eq!(
        Some("/tmp/x/f.txt".to_string()),
        download_destination("/tmp/x", Some("attachment; filename=\"f.txt\""))
    );
    assert_eq!(
        Some("/tmp/x/f.txt".to_string()),
        download_destination("/tmp/x/", Some("attachment; filename=f.txt"))
    );
    assert_eq!(
        Some("f.txt".to_string()),
        download_destination("", Some("filename=f.txt"))
    );
}

#[test]
fn destination_is_none_without_a_usable_filename() {
    assert_eq!(None, download_destination("/tmp/x", None));
    assert_eq!(None, download_destination("/tmp/x", Some("inline")));
    assert_eq!(None, download_destination("/tmp/x", Some("attachment; filename=\"\"")));
}

#[test]
fn existing_destination_is_never_written_over() {
    assert_eq!(WritePlan::SkipExisting, plan_write(true));
    assert_eq!(WritePlan::WriteNew, plan_write(false));
}
