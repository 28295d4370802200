use file_storage::text::contains_ignoring_case;
use file_storage::text::decimal_text;
use file_storage::text::lowercase_chars;
use file_storage::text::same_text;

#[test]
fn lowercase_chars_of_a_name() {
    assert_eq!(lowercase_chars("Report.PDF"), vec!['r', 'e', 'p', 'o', 'r', 't', '.', 'p', 'd', 'f']);
    assert_eq!(lowercase_chars("a@[5]Z"), vec!['a', '@', '[', '5', ']', 'z']);
    assert_eq!(lowercase_chars(""), Vec::<char>::new());
}

#[test]
fn lowercase_chars_beyond_ascii() {
    assert_eq!(lowercase_chars("ÉÜ"), vec!['é', 'ü']);
    assert_eq!(lowercase_chars("ΑΒΓ"), vec!['α', 'β', 'γ']);
    assert_eq!(lowercase_chars("Ünïcödé"), vec!['ü', 'n', 'ï', 'c', 'ö', 'd', 'é']);
}

#[test]
fn report_is_found_by_small_letters() {
    assert!(contains_ignoring_case("Report.pdf", "report"));
}

#[test]
fn match_is_on_parts_in_any_case() {
    assert!(contains_ignoring_case("Report.pdf", "PORT.P"));
    assert!(contains_ignoring_case("Report.pdf", ".PDF"));
    assert!(contains_ignoring_case("Report.pdf", "Report.pdf"));
    assert!(contains_ignoring_case("report.pdf", "REPORT"));
}

#[test]
fn empty_query_matches_everything() {
    assert!(contains_ignoring_case("Report.pdf", ""));
    assert!(contains_ignoring_case("", ""));
}

#[test]
fn no_match_where_the_text_is_absent() {
    assert!(!contains_ignoring_case("Report.pdf", "reports"));
    assert!(!contains_ignoring_case("Report.pdf", "Report.pdfx"));
    assert!(!contains_ignoring_case("", "a"));
    assert!(!contains_ignoring_case("abc", "ac"));
}

#[test]
fn wildcards_are_plain_characters() {
    assert!(!contains_ignoring_case("abc", "a_c"));
    assert!(!contains_ignoring_case("abc", "%"));
    assert!(contains_ignoring_case("a_c", "A_C"));
    assert!(contains_ignoring_case("100%", "0%"));
}

#[test]
fn match_works_beyond_ascii() {
    assert!(contains_ignoring_case("Übersicht-Q3.txt", "sicht-q3"));
    assert!(contains_ignoring_case("Übersicht.txt", "übersicht"));
    assert!(contains_ignoring_case("übersicht.txt", "ÜBERSICHT"));
    assert!(contains_ignoring_case("Résumé final.PDF", "résumé FINAL"));
    assert!(contains_ignoring_case("ΑΝΑΦΟΡΑ.pdf", "αναφορα"));
    assert!(!contains_ignoring_case("Übersicht.txt", "ubersicht"));
}

#[test]
fn same_text_compares_characters() {
    assert!(same_text("abc", "abc"));
    assert!(same_text("", ""));
    assert!(!same_text("abc", "abd"));
    assert!(!same_text("abc", "ab"));
    assert!(!same_text("abc", "ABC"));
}

#[test]
fn decimal_text_of_numbers() {
    assert_eq!(decimal_text(0), "0");
    assert_eq!(decimal_text(7), "7");
    assert_eq!(decimal_text(10), "10");
    assert_eq!(decimal_text(42), "42");
    assert_eq!(decimal_text(1905), "1905");
    assert_eq!(decimal_text(-1), "-1");
    assert_eq!(decimal_text(-360), "-360");
    assert_eq!(decimal_text(i32::MAX), "2147483647");
    assert_eq!(decimal_text(i32::MIN), "-2147483648");
}
