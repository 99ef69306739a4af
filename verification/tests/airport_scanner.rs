use gsx_profile_manager::airport_community_scanner::{
    assign_developer_and_version, extract_airport_name, extract_developer_and_version, format_airport_name, is_listed,
    record_sighting, scan_for_airport_scenery, AirportInfo, FolderEntry, ScannedFolder,
    MAX_SCAN_DEPTH,
};
use gsx_profile_manager::community_folders::{
    community_folder_locations, find_msfs_community_folders, BaseDir, FolderProbe,
};

fn pair(a: &str, b: &str) -> (String, String) {
    (a.to_string(), b.to_string())
}

fn dir(path: &str, name: &str) -> FolderEntry {
    FolderEntry { path: path.to_string(), depth: 1, file_name: Some(name.to_string()), is_dir: true }
}

#[test]
fn developer_is_first_piece_in_community_folders() {
    assert_eq!(
        extract_developer_and_version("aerosoft-airport-eddb-berlin", "Community"),
        pair("aerosoft", "")
    );
    assert_eq!(
        extract_developer_and_version("fs24-asobo-airport-kjfk", "Community"),
        pair("fs24", "")
    );
}

#[test]
fn streamed_packages_give_version_and_developer() {
    assert_eq!(
        extract_developer_and_version("fs24-asobo-airport-kjfk", "StreamedPackages"),
        pair("asobo", "fs24")
    );
    assert_eq!(
        extract_developer_and_version("FS20-Dev-airport-lfpg-paris", "StreamedPackages"),
        pair("Dev", "fs20")
    );
}

#[test]
fn streamed_packages_without_version_fall_back() {
    assert_eq!(
        extract_developer_and_version("asobo-airport-kjfk", "StreamedPackages"),
        pair("asobo", "")
    );
    assert_eq!(extract_developer_and_version("single", "StreamedPackages"), pair("single", ""));
    assert_eq!(extract_developer_and_version("fs24", "StreamedPackages"), pair("fs24", ""));
}

#[test]
fn empty_folder_name_gives_empty_developer() {
    assert_eq!(extract_developer_and_version("", "Community"), pair("", ""));
    assert_eq!(extract_developer_and_version("", "StreamedPackages"), pair("", ""));
    assert_eq!(extract_developer_and_version("-x", "StreamedPackages"), pair("", ""));
}

#[test]
fn airport_name_is_capitalized_per_word() {
    assert_eq!(
        extract_airport_name("FS20-AEROSOFT-AIRPORT-EDDB-BERLIN-BRANDENBURG", "EDDB"),
        "Berlin-Brandenburg"
    );
    assert_eq!(extract_airport_name("dev-airport-kjfk-new-york", "KJFK"), "New-York");
}

#[test]
fn airport_name_stops_before_a_version_number() {
    assert_eq!(extract_airport_name("dev-airport-kjfk-new-york-2", "KJFK"), "New-York");
    assert_eq!(extract_airport_name("dev-airport-kjfk-jfk-10-3", "KJFK"), "Jfk");
}

#[test]
fn airport_name_unknown_without_a_name_part() {
    assert_eq!(extract_airport_name("dev-airport-kjfk", "KJFK"), "Unknown");
    assert_eq!(extract_airport_name("dev-airport-kjfk-", "KJFK"), "Unknown");
    assert_eq!(extract_airport_name("dev-airport-eddb-berlin", "KJFK"), "Unknown");
    assert_eq!(extract_airport_name("", "KJFK"), "Unknown");
}

#[test]
fn airport_name_unknown_for_a_code_that_is_no_expression() {
    assert_eq!(extract_airport_name("dev-airport-(-berlin", "("), "Unknown");
}

#[test]
fn format_airport_name_handles_empty_words_and_unicode() {
    assert_eq!(format_airport_name("BERLIN"), "Berlin");
    assert_eq!(format_airport_name("new--york"), "New--York");
    assert_eq!(format_airport_name(""), "");
    assert_eq!(format_airport_name("ßen-ÉCOLE"), "SSen-École");
}

#[test]
fn scan_without_folders_fails() {
    let r = scan_for_airport_scenery(&Vec::new());
    assert_eq!(r.err(), Some("No MSFS Community folders found".to_string()));
}

#[test]
fn scan_lists_each_code_once_per_folder_type() {
    let community = ScannedFolder {
        path: "/c".to_string(),
        folder_type: "Community".to_string(),
        entries: vec![
            dir("/c", "Community"),
            dir("/c/aerosoft-airport-eddb-berlin", "aerosoft-airport-eddb-berlin"),
            dir("/c/other-airport-EDDB-x", "other-airport-EDDB-x"),
            FolderEntry {
                path: "/c/dev-airport-kjfk-file".to_string(),
                depth: 1,
                file_name: Some("dev-airport-kjfk-file".to_string()),
                is_dir: false,
            },
            FolderEntry { path: "/c/..".to_string(), depth: 1, file_name: None, is_dir: true },
            dir("/c/some-library", "some-library"),
            dir("/c/dev-airport-lfpg-paris-1", "dev-airport-lfpg-paris-1"),
        ],
    };
    let second = ScannedFolder {
        path: "/d".to_string(),
        folder_type: "Community".to_string(),
        entries: vec![dir("/d/third-airport-lfpg-orly", "third-airport-lfpg-orly")],
    };
    let streamed = ScannedFolder {
        path: "/s".to_string(),
        folder_type: "StreamedPackages".to_string(),
        entries: vec![dir("/s/fs24-asobo-airport-eddb-berlin", "fs24-asobo-airport-eddb-berlin")],
    };
    let airports = scan_for_airport_scenery(&vec![community, second, streamed]).unwrap();
    assert_eq!(airports.len(), 3);

    assert_eq!(airports[0].icao, "EDDB");
    assert_eq!(airports[0].title, "aerosoft-airport-eddb-berlin (Community)");
    assert_eq!(airports[0].path, "/c/aerosoft-airport-eddb-berlin");
    assert_eq!(airports[0].folder_type, "Community");
    assert_eq!(airports[0].developer, "aerosoft");
    assert_eq!(airports[0].fsversion, "");
    assert_eq!(airports[0].name, "Berlin");

    assert_eq!(airports[1].icao, "LFPG");
    assert_eq!(airports[1].path, "/c/dev-airport-lfpg-paris-1");
    assert_eq!(airports[1].name, "Paris");

    assert_eq!(airports[2].icao, "EDDB");
    assert_eq!(airports[2].title, "fs24-asobo-airport-eddb-berlin (StreamedPackages)");
    assert_eq!(airports[2].folder_type, "StreamedPackages");
    assert_eq!(airports[2].developer, "asobo");
    assert_eq!(airports[2].fsversion, "fs24");
    assert_eq!(airports[2].name, "Berlin");
}

#[test]
fn scan_needs_four_characters_and_a_hyphen_after_the_code() {
    let folder = ScannedFolder {
        path: "/c".to_string(),
        folder_type: "Community".to_string(),
        entries: vec![
            dir("/c/a", "dev-airport-edd-berlin"),
            dir("/c/b", "dev-airport-eddb"),
            dir("/c/c", "dev-airports-eddb-berlin"),
        ],
    };
    let airports = scan_for_airport_scenery(&vec![folder]).unwrap();
    assert!(airports.is_empty());
}

#[test]
fn record_sighting_adds_only_new_codes() {
    let mut found: Vec<AirportInfo> = Vec::new();
    record_sighting(&mut found, "dev-airport-kjfk-new-york", "/p/1", "Community", "KJFK");
    assert_eq!(found.len(), 1);
    assert!(is_listed(&found, "Community", "KJFK"));
    assert!(!is_listed(&found, "StreamedPackages", "KJFK"));
    assert!(!is_listed(&found, "Community", "EDDB"));
    record_sighting(&mut found, "other-airport-kjfk-x", "/p/2", "Community", "KJFK");
    assert_eq!(found.len(), 1);
    assert_eq!(found[0].path, "/p/1");
    record_sighting(&mut found, "other-airport-kjfk-x", "/p/2", "StreamedPackages", "KJFK");
    assert_eq!(found.len(), 2);
    assert_eq!(found[1].title, "other-airport-kjfk-x (StreamedPackages)");
    assert_eq!(found[1].name, "X");
}

#[test]
fn five_locations_are_searched() {
    let locations = community_folder_locations();
    assert_eq!(locations.len(), 5);
    assert_eq!(locations[0].base, BaseDir::LocalData);
    assert_eq!(
        locations[0].segments,
        vec![
            "Packages",
            "Microsoft.FlightSimulator_8wekyb3d8bbwe",
            "LocalCache",
            "Packages",
            "Community"
        ]
    );
    assert_eq!(locations[1].segments, vec!["Microsoft Flight Simulator", "Packages", "Community"]);
    assert_eq!(locations[2].segments[1], "Microsoft.Limitless_8wekyb3d8bbwe");
    assert_eq!(locations[3].segments[4], "StreamedPackages");
    assert_eq!(locations[3].folder_type, "StreamedPackages");
    assert_eq!(locations[4].base, BaseDir::Config);
    assert_eq!(
        locations[4].segments,
        vec!["Microsoft Flight Simulator 2024", "Packages", "Community"]
    );
    for i in [0, 1, 2, 4] {
        assert_eq!(locations[i].folder_type, "Community");
    }
}

#[test]
fn only_existing_folders_are_found() {
    let probe = |path: &str, kind: &str, exists: bool| FolderProbe {
        path: path.to_string(),
        folder_type: kind.to_string(),
        exists,
    };
    let probes = vec![
        probe("/a", "Community", false),
        probe("/b", "Community", true),
        probe("/c", "StreamedPackages", true),
        probe("/d", "Community", false),
    ];
    assert_eq!(
        find_msfs_community_folders(&probes),
        vec![pair("/b", "Community"), pair("/c", "StreamedPackages")]
    );
    assert!(find_msfs_community_folders(&Vec::new()).is_empty());
}

#[test]
fn assignment_goes_by_the_lowered_first_piece() {
    let parts = |v: &[&str]| v.iter().map(|p| p.chars().collect()).collect::<Vec<Vec<char>>>();
    assert_eq!(
        assign_developer_and_version(&parts(&["FS24", "asobo", "x"]), true, "fs24".to_string()),
        pair("asobo", "fs24")
    );
    assert_eq!(
        assign_developer_and_version(&parts(&["FS24", "asobo"]), false, "fs24".to_string()),
        pair("FS24", "")
    );
    assert_eq!(
        assign_developer_and_version(&parts(&["FS24"]), true, "fs24".to_string()),
        pair("FS24", "")
    );
    assert_eq!(
        assign_developer_and_version(&parts(&["dev", "x"]), true, "dev".to_string()),
        pair("dev", "")
    );
    assert_eq!(
        assign_developer_and_version(&parts(&["f", "x"]), true, "f".to_string()),
        pair("f", "")
    );
    assert_eq!(
        assign_developer_and_version(&parts(&[]), true, String::new()),
        pair("Unknown", "")
    );
}

#[test]
fn scan_looks_three_levels_deep() {
    assert_eq!(MAX_SCAN_DEPTH, 3);
    let at = |depth: usize, code: &str| FolderEntry {
        path: format!("/c/{}", code),
        depth,
        file_name: Some(format!("dev-airport-{}-x", code)),
        is_dir: true,
    };
    let folder = ScannedFolder {
        path: "/c".to_string(),
        folder_type: "Community".to_string(),
        entries: vec![at(0, "aaaa"), at(1, "bbbb"), at(3, "cccc"), at(4, "dddd"), at(2, "eeee")],
    };
    let airports = scan_for_airport_scenery(&vec![folder]).unwrap();
    let codes: Vec<&str> = airports.iter().map(|a| a.icao.as_str()).collect();
    assert_eq!(codes, vec!["AAAA", "BBBB", "CCCC", "EEEE"]);
}
