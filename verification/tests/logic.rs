use skywars_installer::engine::{is_engine_installed, VersionEntry};
use skywars_installer::mods::{companion_file, files_to_relocate, is_installed};
use skywars_installer::text::{find_substring, has_prefix, is_affirmative, str_eq};
use skywars_installer::version::{extract_version, resolve_latest_release, ResolveError};

#[test]
fn version_between_marker_and_suffix() {
    assert_eq!(extract_version("skywars_v2.3.jar"), "2.3");
    assert_eq!(extract_version("mod_v10.5.jar"), "10.5");
}

#[test]
fn version_sentinel_without_marker() {
    assert_eq!(extract_version("skywars.jar"), "Unknown");
    assert_eq!(extract_version(""), "Unknown");
}

#[test]
fn version_sentinel_without_suffix() {
    assert_eq!(extract_version("skywars_v2.3"), "Unknown");
}

#[test]
fn version_sentinel_when_suffix_precedes_marker() {
    assert_eq!(extract_version("a.jarb_v1.jar"), "Unknown");
}

#[test]
fn version_empty_token_when_markers_touch() {
    assert_eq!(extract_version("mod_v.jar"), "");
}

#[test]
fn resolve_reads_file_field() {
    let r = resolve_latest_release("{\"file\":\"skywars_v2.3.jar\"}").unwrap();
    assert_eq!(r.file_name, "skywars_v2.3.jar");
    assert_eq!(r.version, "2.3");
}

#[test]
fn resolve_rejects_malformed_text() {
    assert_eq!(
        resolve_latest_release("not a document").unwrap_err(),
        ResolveError::NotJson
    );
}

#[test]
fn resolve_rejects_missing_field() {
    assert_eq!(
        resolve_latest_release("{\"other\":1}").unwrap_err(),
        ResolveError::MissingField
    );
}

#[test]
fn resolve_rejects_non_string_field() {
    assert_eq!(
        resolve_latest_release("{\"file\":42}").unwrap_err(),
        ResolveError::MissingField
    );
}

#[test]
fn resolve_is_idempotent_on_same_response() {
    let body = "{\"file\":\"skywars_v2.3.jar\"}";
    let a = resolve_latest_release(body).unwrap();
    let b = resolve_latest_release(body).unwrap();
    assert_eq!(a.file_name, b.file_name);
    assert_eq!(a.version, b.version);
}

#[test]
fn installed_check_finds_seeded_file() {
    let files = vec!["other.jar".to_string(), "skywars_v2.3.jar".to_string()];
    assert!(is_installed(&files, "skywars_v2.3.jar"));
}

#[test]
fn installed_check_misses_absent_file() {
    let files = vec!["other.jar".to_string()];
    assert!(!is_installed(&files, "skywars_v2.3.jar"));
    assert!(!is_installed(&Vec::new(), "skywars_v2.3.jar"));
}

#[test]
fn relocation_excludes_exactly_the_companion_file() {
    let files = vec![
        "a.jar".to_string(),
        "OptiFine_1.19.4_HD_U_I4.jar".to_string(),
        "b.jar".to_string(),
    ];
    let moved = files_to_relocate(&files);
    assert_eq!(moved, vec!["a.jar".to_string(), "b.jar".to_string()]);
}

#[test]
fn relocation_of_companion_alone_moves_nothing() {
    let files = vec!["OptiFine_1.19.4_HD_U_I4.jar".to_string()];
    assert!(files_to_relocate(&files).is_empty());
}

#[test]
fn companion_file_name_is_fixed() {
    assert_eq!(companion_file(), "OptiFine_1.19.4_HD_U_I4.jar");
}

fn entry(name: &str, is_dir: bool, has_archive: bool) -> VersionEntry {
    VersionEntry {
        name: name.to_string(),
        is_dir,
        has_archive,
    }
}

#[test]
fn engine_found_when_prefix_and_archive_hold() {
    let entries = vec![entry("1.19.4-forge-45.0.43", true, true)];
    assert!(is_engine_installed(&entries));
}

#[test]
fn engine_missing_without_archive() {
    let entries = vec![entry("1.19.4-forge-45.0.43", true, false)];
    assert!(!is_engine_installed(&entries));
}

#[test]
fn engine_missing_without_prefix() {
    let entries = vec![entry("1.20.1-forge-47.0.1", true, true)];
    assert!(!is_engine_installed(&entries));
}

#[test]
fn engine_missing_when_entry_is_no_directory() {
    let entries = vec![entry("1.19.4-forge-45.0.43", false, true)];
    assert!(!is_engine_installed(&entries));
}

#[test]
fn engine_found_among_other_entries() {
    let entries = vec![
        entry("1.19.4", true, true),
        entry("1.19.4-forge-45.1.0", true, true),
    ];
    assert!(is_engine_installed(&entries));
    assert!(!is_engine_installed(&Vec::new()));
}

#[test]
fn affirmative_answers() {
    assert!(is_affirmative("yes"));
    assert!(is_affirmative("YES\n"));
    assert!(is_affirmative(" Yes \r\n"));
    assert!(is_affirmative("yEs"));
}

#[test]
fn negative_answers() {
    assert!(!is_affirmative("no"));
    assert!(!is_affirmative(""));
    assert!(!is_affirmative("\n"));
    assert!(!is_affirmative("yess"));
    assert!(!is_affirmative("y es"));
}

#[test]
fn substring_search_finds_first_occurrence() {
    assert_eq!(find_substring("skywars_v2.3.jar", "_v"), Some(7));
    assert_eq!(find_substring("skywars_v2.3.jar", ".jar"), Some(12));
    assert_eq!(find_substring("skywars", ".jar"), None);
    assert_eq!(find_substring("", "x"), None);
}

#[test]
fn string_equality_and_prefix() {
    assert!(str_eq("abc", "abc"));
    assert!(!str_eq("abc", "abd"));
    assert!(!str_eq("abc", "ab"));
    assert!(has_prefix("1.19.4-forge-45.0.43", "1.19.4-forge-45."));
    assert!(!has_prefix("1.19.4", "1.19.4-forge-45."));
}
