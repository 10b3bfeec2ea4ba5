use version_selector::config::Settings;
use version_selector::scan::{get_version_files, is_version_entry, Candidate, ScanError};

fn settings(prefix: &str) -> Settings {
    Settings::new(prefix.to_string(), "/opt/tool/./app-selected".to_string(), "/opt/tool/.".to_string())
}

fn names(list: &[&str]) -> Result<Vec<String>, String> {
    Ok(list.iter().map(|name| name.to_string()).collect())
}

fn candidate(name: &str) -> Candidate {
    Candidate { name: name.to_string(), path: format!("/opt/tool/./{}", name) }
}

const EXE: &str = "/opt/tool/version-selector";

#[test]
fn versions_are_the_entries_with_the_prefix() {
    let listing = names(&["app-1.0", "notes.txt", "app-2.0", "ap", "app-", "xapp-3"]);
    assert_eq!(
        get_version_files(&settings("app-"), EXE, listing),
        Ok(vec![candidate("app-1.0"), candidate("app-2.0"), candidate("app-")])
    );
}

#[test]
fn order_of_the_listing_is_kept() {
    let listing = names(&["app-b", "app-a", "app-c"]);
    assert_eq!(
        get_version_files(&settings("app-"), EXE, listing),
        Ok(vec![candidate("app-b"), candidate("app-a"), candidate("app-c")])
    );
}

#[test]
fn program_configuration_and_output_are_no_candidates() {
    let listing = names(&[
        "app-1.0",
        "version-selector",
        "version-selector.json",
        "app-selected",
        "app-2.0",
    ]);
    let found = get_version_files(&settings(""), EXE, listing).unwrap();
    assert_eq!(found, vec![candidate("app-1.0"), candidate("app-2.0")]);
    for entry in found.iter() {
        assert_ne!(std::path::Path::new(&entry.path), std::path::Path::new(EXE));
        assert_ne!(
            std::path::Path::new(&entry.path),
            std::path::Path::new("/opt/tool/version-selector.json")
        );
        assert_ne!(
            std::path::Path::new(&entry.path),
            std::path::Path::new("/opt/tool/app-selected")
        );
    }
}

#[test]
fn output_link_with_the_prefix_is_no_candidate() {
    let listing = names(&["app-selected", "app-1.0"]);
    assert_eq!(get_version_files(&settings("app-"), EXE, listing), Ok(vec![candidate("app-1.0")]));
}

#[test]
fn same_name_elsewhere_is_a_candidate() {
    let elsewhere = Settings::new(
        "".to_string(),
        "/srv/versions/current".to_string(),
        "/srv/versions".to_string(),
    );
    let listing = names(&["version-selector", "version-selector.json", "current", "1.0"]);
    let found = get_version_files(&elsewhere, EXE, listing).unwrap();
    let kept: Vec<&str> = found.iter().map(|entry| entry.name.as_str()).collect();
    assert_eq!(kept, vec!["version-selector", "version-selector.json", "1.0"]);
    assert_eq!(found[2].path, "/srv/versions/1.0");
}

#[test]
fn empty_listing_has_no_candidates() {
    assert_eq!(get_version_files(&settings("app-"), EXE, names(&[])), Ok(vec![]));
}

#[test]
fn unreadable_directory_is_an_error() {
    assert_eq!(
        get_version_files(&settings("app-"), EXE, Err("permission denied".to_string())),
        Err(ScanError::DirectoryUnreadable("permission denied".to_string()))
    );
}

#[test]
fn scan_error_message() {
    assert_eq!(
        ScanError::DirectoryUnreadable("permission denied".to_string()).message(),
        "could not read items in dir due to error `permission denied`."
    );
}

#[test]
fn version_has_the_prefix_and_is_none_of_the_three_paths() {
    assert!(is_version_entry(true, false, false, false));
    assert!(!is_version_entry(false, false, false, false));
    assert!(!is_version_entry(true, true, false, false));
    assert!(!is_version_entry(true, false, true, false));
    assert!(!is_version_entry(true, false, false, true));
}
