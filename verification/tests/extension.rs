use listclip::extension::{extension_allowed, matches_extension};

fn list(items: &[&str]) -> Vec<String> {
    items.iter().map(|s| s.to_string()).collect()
}

#[test]
fn filter_txt_rejects_md_and_accepts_txt() {
    let filters = list(&["txt"]);
    assert!(!matches_extension("a.md", &filters));
    assert!(matches_extension("b.txt", &filters));
}

#[test]
fn no_filters_accept_every_path() {
    let filters: Vec<String> = Vec::new();
    assert!(matches_extension("a.md", &filters));
    assert!(matches_extension("Makefile", &filters));
    assert!(matches_extension("", &filters));
    assert!(matches_extension("dir/sub/..", &filters));
}

#[test]
fn path_without_extension_is_rejected_by_any_filter() {
    let filters = list(&["txt", "rs"]);
    assert!(!matches_extension("Makefile", &filters));
    assert!(!matches_extension("src/txt", &filters));
    assert!(!matches_extension("", &filters));
}

#[test]
fn dotfile_has_no_extension() {
    let filters = list(&["gitignore", "txt"]);
    assert!(!matches_extension(".gitignore", &filters));
    assert!(!matches_extension("dir/.txt", &filters));
    assert!(matches_extension(".hidden.txt", &filters));
}

#[test]
fn extension_is_what_follows_the_last_dot() {
    assert!(matches_extension("archive.tar.gz", &list(&["gz"])));
    assert!(!matches_extension("archive.tar.gz", &list(&["tar"])));
    assert!(!matches_extension("archive.tar.gz", &list(&["tar.gz"])));
}

#[test]
fn extension_is_taken_from_the_last_component() {
    let filters = list(&["rs"]);
    assert!(matches_extension("./src/main.rs", &filters));
    assert!(!matches_extension("./src.rs/main", &filters));
    assert!(!matches_extension("./src.rs/main.toml", &filters));
}

#[test]
fn extension_comparison_is_case_sensitive() {
    assert!(!matches_extension("NOTES.TXT", &list(&["txt"])));
    assert!(matches_extension("NOTES.TXT", &list(&["TXT"])));
    assert!(!matches_extension("notes.txt", &list(&["Txt"])));
}

#[test]
fn filters_carry_no_leading_dot() {
    assert!(!matches_extension("notes.txt", &list(&[".txt"])));
}

#[test]
fn any_of_several_filters_is_enough() {
    let filters = list(&["rs", "toml", "md"]);
    assert!(matches_extension("Cargo.toml", &filters));
    assert!(matches_extension("README.md", &filters));
    assert!(matches_extension("lib.rs", &filters));
    assert!(!matches_extension("Cargo.lock", &filters));
}

#[test]
fn empty_extension_after_trailing_dot() {
    assert!(matches_extension("notes.", &list(&[""])));
    assert!(!matches_extension("notes.", &list(&["txt"])));
    assert!(!matches_extension("notes", &list(&[""])));
}

#[test]
fn allowed_with_no_filters_is_always_true() {
    let filters: Vec<String> = Vec::new();
    assert!(extension_allowed(None, &filters));
    assert!(extension_allowed(Some("txt"), &filters));
}

#[test]
fn allowed_needs_an_extension_among_the_filters() {
    let filters = list(&["txt", "md"]);
    assert!(extension_allowed(Some("txt"), &filters));
    assert!(extension_allowed(Some("md"), &filters));
    assert!(!extension_allowed(Some("rs"), &filters));
    assert!(!extension_allowed(Some("tx"), &filters));
    assert!(!extension_allowed(Some("txtx"), &filters));
    assert!(!extension_allowed(None, &filters));
}
