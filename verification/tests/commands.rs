use license::License;
use license::LicenseError;
use license::cache;
use license::cmds;
use license::dirs;
use license::dirs::DirEntry;

#[test]
fn cache_hit_requests_no_fetch() {
    let l = License::resolve("MIT", "/data");
    assert!(cache::plan(&l, true).is_none());
}

#[test]
fn cache_miss_requests_fetch_of_url_into_path() {
    let l = License::resolve("MIT", "/data");
    let req = cache::plan(&l, false).expect("a miss asks for a fetch");
    assert_eq!(
        req.url,
        "https://raw.githubusercontent.com/spdx/license-list-data/master/text/MIT.txt"
    );
    assert_eq!(req.path, "/data/MIT.txt");
}

#[test]
fn cache_miss_uses_override_url() {
    let l = License::resolve("Apache-2.0", "/data");
    let req = cache::plan(&l, false).expect("a miss asks for a fetch");
    assert_eq!(req.url, "https://www.apache.org/licenses/LICENSE-2.0.txt");
    assert_eq!(req.path, "/data/Apache-2.0.txt");
}

#[test]
fn apply_destination_is_in_working_directory() {
    assert_eq!(cmds::apply_destination("/work"), "/work/LICENSE.txt");
}

#[test]
fn apply_refuses_existing_destination() {
    assert!(matches!(
        cmds::apply_check(true),
        Err(LicenseError::DestinationExists)
    ));
}

#[test]
fn apply_allows_missing_destination() {
    assert!(cmds::apply_check(false).is_ok());
}

#[test]
fn stem_strips_last_extension() {
    assert_eq!(dirs::stem_of("MIT.txt"), "MIT");
    assert_eq!(dirs::stem_of("Apache-2.0.txt"), "Apache-2.0");
    assert_eq!(dirs::stem_of("noext"), "noext");
    assert_eq!(dirs::stem_of(".hidden"), ".hidden");
    assert_eq!(dirs::stem_of("a.b.c"), "a.b");
    assert_eq!(dirs::stem_of(""), "");
}

#[test]
fn filenames_keeps_files_in_order() {
    let entries = vec![
        DirEntry { name: "MIT.txt".to_string(), is_file: true },
        DirEntry { name: "tmp".to_string(), is_file: false },
        DirEntry { name: "Apache-2.0.txt".to_string(), is_file: true },
    ];
    assert_eq!(dirs::filenames(&entries), vec!["MIT.txt", "Apache-2.0.txt"]);
}

#[test]
fn filenames_of_empty_listing_is_empty() {
    let entries: Vec<DirEntry> = Vec::new();
    assert!(dirs::filenames(&entries).is_empty());
}

#[test]
fn list_prints_stems_and_skips_subdirectory() {
    let entries = vec![
        DirEntry { name: "MIT.txt".to_string(), is_file: true },
        DirEntry { name: "Apache-2.0.txt".to_string(), is_file: true },
        DirEntry { name: "tmp".to_string(), is_file: false },
    ];
    assert_eq!(cmds::list_identifiers(&entries), vec!["MIT", "Apache-2.0"]);
}
