use organizer::filters::{chain_matches, parse, ExtensionFilter, Filter, NameFilter};
use organizer::config::{Filters, NameFilterConfig, Target};
use organizer::utils::{EntryStat, FileMetaData};

fn file_stat() -> EntryStat {
    EntryStat {
        is_dir: false,
        is_file: true,
        is_symlink: false,
        size: 0,
        mode: 0o644,
        owner_uid: 0,
        owner_gid: 0,
        created: None,
        modified: None,
    }
}

fn entry(path: &str) -> FileMetaData {
    FileMetaData::from_stat(path, None, file_stat())
}

fn strings(items: &[&str]) -> Vec<String> {
    items.iter().map(|s| s.to_string()).collect()
}

#[test]
fn test_extension_filter_matches() {
    let config = vec!["txt".to_string(), "rs".to_string()];
    let filter = ExtensionFilter::new(&config, false);

    assert!(filter.matches(&entry("file.txt")));
    assert!(filter.matches(&entry("code.rs")));
    assert!(!filter.matches(&entry("image.png")));
    assert!(!filter.matches(&entry("no_extension")));
}

#[test]
fn test_not_extension_filter_matches() {
    let config = vec!["txt".to_string()];
    let filter = ExtensionFilter::new(&config, true);

    assert!(!filter.matches(&entry("file.txt")));
    assert!(filter.matches(&entry("code.rs")));
    assert!(filter.matches(&entry("image.png")));
    assert!(filter.matches(&entry("no_extension")));
}

#[test]
fn extension_match_is_case_sensitive_and_exact() {
    let config = strings(&["txt"]);
    let filter = ExtensionFilter::new(&config, false);
    assert!(!filter.matches(&entry("notes.TXT")));
    assert!(!filter.matches(&entry("notes.txtx")));
    assert!(filter.matches(&entry("archive.tar.txt")));
}

#[test]
fn empty_extension_list_positive_and_negated() {
    let config: Vec<String> = vec![];
    let positive = ExtensionFilter::new(&config, false);
    let negated = ExtensionFilter::new(&config, true);
    for name in ["a.txt", "b", ".hidden", "c.rs"] {
        assert_eq!(negated.matches(&entry(name)), !positive.matches(&entry(name)));
    }
    assert!(negated.matches(&entry("b")));
}

#[test]
fn name_filter_case_insensitive_prefix() {
    let prefixes = strings(&["Hello"]);
    let insensitive = NameFilter::new(Some(&prefixes), None, None, false);
    assert!(insensitive.matches(&entry("hello_world")));
    let sensitive = NameFilter::new(Some(&prefixes), None, None, true);
    assert!(!sensitive.matches(&entry("hello_world")));
}

#[test]
fn name_filter_without_patterns_keeps_everything() {
    let empty: Vec<String> = vec![];
    let absent = NameFilter::new(None, None, None, true);
    let all_empty = NameFilter::new(Some(&empty), Some(&empty), Some(&empty), false);
    for name in ["random_file.txt", "", "x", ".bashrc"] {
        assert!(absent.matches(&entry(name)));
        assert!(all_empty.matches(&entry(name)));
    }
}

#[test]
fn name_filter_all_dimensions_must_pass() {
    let starts = strings(&["hello"]);
    let ends = strings(&["world"]);
    let contains = strings(&["lo_wor"]);
    let filter = NameFilter::new(Some(&starts), Some(&ends), Some(&contains), true);
    assert!(filter.matches(&entry("hello_world.txt")));
    assert!(!filter.matches(&entry("world_world.txt")));
    assert!(!filter.matches(&entry("hello_hello.rs")));

    let only_two = NameFilter::new(None, Some(&ends), Some(&contains), true);
    assert!(only_two.matches(&entry("something_lo_world.txt")));
}

#[test]
fn name_filter_any_pattern_within_a_dimension() {
    let starts = strings(&["IMG_", "DSC"]);
    let filter = NameFilter::new(Some(&starts), None, None, true);
    assert!(filter.matches(&entry("DSC001.jpg")));
    assert!(filter.matches(&entry("IMG_42.jpg")));
    assert!(!filter.matches(&entry("photo.jpg")));
}

#[test]
fn name_filter_matches_the_stem_only() {
    let ends = strings(&["txt"]);
    let filter = NameFilter::new(None, Some(&ends), None, true);
    assert!(!filter.matches(&entry("notes.txt")));
    assert!(filter.matches(&entry("mytxt.md")));
}

fn filters_spec(
    extensions: Option<Vec<String>>,
    not_extensions: Option<Vec<String>>,
    name: Option<NameFilterConfig>,
) -> Filters {
    Filters {
        target: Target::Files,
        extensions,
        not_extensions,
        name,
        regex: None,
        empty: None,
    }
}

#[test]
fn chain_allow_list_takes_priority() {
    let spec = filters_spec(Some(strings(&["txt"])), Some(strings(&["txt"])), None);
    let chain = parse(&spec);
    assert_eq!(chain.len(), 1);
    assert!(chain_matches(&chain, &entry("a.txt")));
    assert!(!chain_matches(&chain, &entry("a.log")));
}

#[test]
fn chain_deny_list_and_name() {
    let name = NameFilterConfig {
        case_sensitive: false,
        match_any: false,
        starts_with: Some(strings(&["REPORT"])),
        ends_with: None,
        contains: None,
    };
    let spec = filters_spec(None, Some(strings(&["tmp"])), Some(name));
    let chain = parse(&spec);
    assert_eq!(chain.len(), 2);
    assert!(chain_matches(&chain, &entry("report_2024.pdf")));
    assert!(!chain_matches(&chain, &entry("report_2024.tmp")));
    assert!(!chain_matches(&chain, &entry("summary.pdf")));
}

#[test]
fn empty_chain_keeps_everything() {
    let spec = filters_spec(None, None, None);
    let chain = parse(&spec);
    assert!(chain.is_empty());
    assert!(chain_matches(&chain, &entry("anything.bin")));
    assert!(chain_matches(&chain, &entry("no_extension")));
}
