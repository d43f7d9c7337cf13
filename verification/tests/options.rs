use listclip::options::{OutputFormat, TraversalOptions, WalkFilters};

fn options_with(respect_ignore: bool) -> TraversalOptions {
    TraversalOptions {
        start: ".".to_string(),
        respect_ignore,
        extensions: Vec::new(),
        include_content: true,
        format: OutputFormat::Plain,
    }
}

#[test]
fn all_standard_filters_while_ignore_rules_are_respected() {
    assert_eq!(
        options_with(true).walk_filters(),
        WalkFilters {
            hidden: true,
            parents: true,
            ignore: true,
            git_ignore: true,
            git_global: true,
            git_exclude: true,
        }
    );
}

#[test]
fn no_filter_is_left_when_ignore_rules_are_not_respected() {
    assert_eq!(
        options_with(false).walk_filters(),
        WalkFilters {
            hidden: false,
            parents: false,
            ignore: false,
            git_ignore: false,
            git_global: false,
            git_exclude: false,
        }
    );
}

#[test]
fn hidden_entries_are_skipped_only_while_ignore_rules_are_respected() {
    assert!(options_with(true).walk_filters().hidden);
    assert!(!options_with(false).walk_filters().hidden);
}
