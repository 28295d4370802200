use file_storage::naming::build_address;
use file_storage::naming::build_object_name;
use file_storage::naming::choose_media_type;
use file_storage::naming::join;
use file_storage::naming::media_type_for_extension;
use file_storage::naming::media_type_or_default;
use file_storage::naming::DEFAULT_FILE_NAME;
use file_storage::naming::DEFAULT_MEDIA_TYPE;

const ID: &str = "123e4567-e89b-42d3-a456-426614174000";

#[test]
fn object_name_with_extension() {
    assert_eq!(
        build_object_name(ID, &Some("pdf".to_string())),
        "123e4567-e89b-42d3-a456-426614174000.pdf"
    );
}

#[test]
fn object_name_without_extension() {
    assert_eq!(build_object_name(ID, &None), ID);
    assert_eq!(build_object_name(ID, &Some(String::new())), ID);
}

#[test]
fn join_puts_one_slash_between() {
    assert_eq!(join("uploads", "a.txt"), "uploads/a.txt");
    assert_eq!(join("/var/data/uploads", "a"), "/var/data/uploads/a");
}

#[test]
fn join_adds_no_second_slash() {
    assert_eq!(join("uploads/", "a.txt"), "uploads/a.txt");
    assert_eq!(join("/", "a.txt"), "/a.txt");
}

#[test]
fn join_with_empty_namespace_is_the_name() {
    assert_eq!(join("", "a.txt"), "a.txt");
}

#[test]
fn address_of_an_object() {
    assert_eq!(
        build_address("uploads", ID, &Some("png".to_string())),
        "uploads/123e4567-e89b-42d3-a456-426614174000.png"
    );
    assert_eq!(build_address("./files", ID, &None), "./files/123e4567-e89b-42d3-a456-426614174000");
}

#[test]
fn addresses_of_distinct_ids_differ_whatever_the_extension() {
    let other = "123e4567-e89b-42d3-a456-426614174001";
    let ext = Some("pdf".to_string());
    assert_ne!(build_address("uploads", ID, &ext), build_address("uploads", other, &ext));
    assert_ne!(build_address("uploads", ID, &None), build_address("uploads", other, &ext));
    assert_eq!(build_address("uploads", ID, &ext), build_address("uploads", ID, &ext));
}

#[test]
fn explicit_media_type_wins_over_guess() {
    assert_eq!(
        choose_media_type(Some("image/webp"), Some("text/plain".to_string())),
        Some("image/webp".to_string())
    );
    assert_eq!(choose_media_type(Some("image/webp"), None), Some("image/webp".to_string()));
}

#[test]
fn guess_is_taken_without_explicit_media_type() {
    assert_eq!(choose_media_type(None, Some("text/plain".to_string())), Some("text/plain".to_string()));
    assert_eq!(choose_media_type(None, None), None);
}

#[test]
fn generic_media_type_is_the_default() {
    assert_eq!(DEFAULT_MEDIA_TYPE, "application/octet-stream");
    assert_eq!(media_type_or_default(&None), "application/octet-stream");
    assert_eq!(media_type_or_default(&Some("text/css".to_string())), "text/css");
}

#[test]
fn default_file_name() {
    assert_eq!(DEFAULT_FILE_NAME, "file");
}

#[test]
fn media_type_is_guessed_from_the_extension() {
    assert_eq!(media_type_for_extension(&Some("pdf".to_string())), Some("application/pdf".to_string()));
    assert_eq!(media_type_for_extension(&Some("png".to_string())), Some("image/png".to_string()));
    assert_eq!(media_type_for_extension(&Some("txt".to_string())), Some("text/plain".to_string()));
    assert_eq!(media_type_for_extension(&Some("PDF".to_string())), Some("application/pdf".to_string()));
}

#[test]
fn unknown_or_missing_extension_has_no_guess() {
    assert_eq!(media_type_for_extension(&None), None);
    assert_eq!(media_type_for_extension(&Some(String::new())), None);
    assert_eq!(media_type_for_extension(&Some("no-such-extension".to_string())), None);
}
