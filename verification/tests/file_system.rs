use gsx_profile_manager::file_system::{
    access_denied, check_folder_exists, contains_gsx_profile, read_folder_contents,
    read_gsx_profile_contents, read_relevant_folders, safely_check_path, select_folder, Entry,
    Listing, RootFolder,
};
use gsx_profile_manager::tree_data::TreeDataItem;

fn file(dir: &str, name: &str) -> Entry {
    Entry::File { name: name.to_string(), path: format!("{}/{}", dir, name) }
}

fn folder(dir: &str, name: &str, entries: Vec<Entry>) -> Entry {
    Entry::Directory {
        name: name.to_string(),
        path: format!("{}/{}", dir, name),
        listing: Listing::Entries(entries),
    }
}

fn locked(dir: &str, name: &str, message: &str, permission_denied: bool) -> Entry {
    Entry::Directory {
        name: name.to_string(),
        path: format!("{}/{}", dir, name),
        listing: failed(message, permission_denied),
    }
}

fn failed(message: &str, permission_denied: bool) -> Listing {
    Listing::Failed { message: message.to_string(), permission_denied }
}

fn names(items: &[TreeDataItem]) -> Vec<&str> {
    items.iter().map(|i| i.name.as_str()).collect()
}

fn airport(dir: &str, name: &str) -> Entry {
    let here = format!("{}/{}", dir, name);
    let profile = format!("{}/GSX Profile", here);
    folder(
        dir,
        name,
        vec![
            file(&here, "readme.txt"),
            folder(
                &here,
                "GSX Profile",
                vec![
                    file(&profile, "eddb.ini"),
                    folder(&profile, "empty", vec![]),
                    folder(&profile, "extras", vec![file(&format!("{}/extras", profile), "a.py")]),
                    Entry::Other { name: "pipe".to_string(), path: format!("{}/pipe", profile) },
                ],
            ),
            folder(&here, "textures", vec![file(&format!("{}/textures", here), "t.dds")]),
        ],
    )
}

#[test]
fn profile_folder_lists_files_and_folders_with_files() {
    let listing = Listing::Entries(vec![
        file("/p", "eddb.ini"),
        folder("/p", "empty", vec![]),
        folder("/p", "deep", vec![folder("/p/deep", "hollow", vec![])]),
        folder("/p", "extras", vec![file("/p/extras", "a.py")]),
    ]);
    let items = read_gsx_profile_contents("/p", &listing).unwrap();
    assert_eq!(names(&items), vec!["eddb.ini", "extras"]);
    assert_eq!(items[0].id, "/p/eddb.ini");
    assert_eq!(items[0].path, "/p/eddb.ini");
    assert!(!items[0].is_directory);
    assert!(items[0].children.is_none());
    assert_eq!(items[1].id, "/p/extras");
    assert!(items[1].is_directory);
    let inner = items[1].children.as_ref().unwrap();
    assert_eq!(inner.len(), 1);
    assert_eq!(inner[0].id, "/p/extras/a.py");
    assert_eq!(inner[0].name, "a.py");
}

#[test]
fn profile_folder_fails_at_the_first_unreadable_part() {
    let listing = Listing::Entries(vec![
        file("/p", "a.ini"),
        locked("/p", "x", "first", true),
        Entry::Unreadable { message: "second".to_string() },
    ]);
    assert_eq!(read_gsx_profile_contents("/p", &listing).err(), Some("first".to_string()));
    let listing =
        Listing::Entries(vec![Entry::Unreadable { message: "entry".to_string() }, file("/p", "a")]);
    assert_eq!(read_gsx_profile_contents("/p", &listing).err(), Some("entry".to_string()));
    assert_eq!(read_gsx_profile_contents("/p", &failed("gone", false)).err(), Some("gone".to_string()));
}

#[test]
fn relevant_folders_lead_to_profile_folders() {
    let listing = Listing::Entries(vec![
        airport("/c", "aerosoft-airport-eddb"),
        folder("/c", "library", vec![file("/c/library", "x.bin")]),
        file("/c", "GSX Profile"),
        folder("/c", "group", vec![airport("/c/group", "dev-airport-kjfk")]),
        folder("/c", "GSX Profile", vec![]),
    ]);
    let items = read_relevant_folders(&listing).unwrap();
    assert_eq!(names(&items), vec!["aerosoft-airport-eddb", "group", "GSX Profile"]);
    assert_eq!(items[0].id, "aerosoft-airport-eddb");
    assert_eq!(items[0].path, "/c/aerosoft-airport-eddb");
    assert!(items[0].is_directory);
    let inside = items[0].children.as_ref().unwrap();
    assert_eq!(names(inside), vec!["GSX Profile"]);
    assert_eq!(inside[0].id, "GSX Profile");
    let files = inside[0].children.as_ref().unwrap();
    assert_eq!(names(files), vec!["eddb.ini", "extras"]);
    assert_eq!(files[0].id, "/c/aerosoft-airport-eddb/GSX Profile/eddb.ini");
    let nested = items[1].children.as_ref().unwrap();
    assert_eq!(names(nested), vec!["dev-airport-kjfk"]);
    assert_eq!(items[2].children.as_ref().unwrap().len(), 0);
}

#[test]
fn relevant_folders_fail_where_something_cannot_be_read() {
    let listing = Listing::Entries(vec![
        airport("/c", "one"),
        folder("/c", "two", vec![locked("/c/two", "secret", "Access is denied. (os error 5)", true)]),
    ]);
    assert_eq!(
        read_relevant_folders(&listing).err(),
        Some("Access is denied. (os error 5)".to_string())
    );
    assert_eq!(read_relevant_folders(&failed("boom", false)).err(), Some("boom".to_string()));
}

#[test]
fn profile_folders_are_found_at_any_depth() {
    assert!(contains_gsx_profile(&folder("/c", "GSX Profile", vec![])));
    assert!(contains_gsx_profile(&locked("/c", "GSX Profile", "no", true)));
    assert!(contains_gsx_profile(&file("/c", "GSX Profile")));
    assert!(contains_gsx_profile(&airport("/c", "x")));
    assert!(contains_gsx_profile(&folder("/c", "a", vec![folder("/c/a", "b", vec![airport("/c/a/b", "x")])])));
    assert!(!contains_gsx_profile(&folder("/c", "a", vec![file("/c/a", "GSX Profile")])));
    assert!(!contains_gsx_profile(&folder("/c", "a", vec![folder("/c/a", "gsx profile", vec![])])));
    assert!(!contains_gsx_profile(&locked("/c", "a", "no", true)));
    assert!(!contains_gsx_profile(&Entry::Unreadable { message: "GSX Profile".to_string() }));
    assert!(!contains_gsx_profile(&file("/c", "a.ini")));
}

#[test]
fn only_the_protected_folder_is_checked() {
    let protected = "C:\\Users\\me\\AppData\\Local\\Packages\\Microsoft.Limitless_8wekyb3d8bbwe\\LocalCache";
    assert_eq!(safely_check_path("C:\\addons", &failed("no", true)), Ok(()));
    assert_eq!(safely_check_path(protected, &Listing::Entries(vec![])), Ok(()));
    assert_eq!(
        safely_check_path(protected, &failed("no", true)),
        Err("Cannot access the Microsoft Flight Simulator folder due to permission restrictions. Try running the app as administrator.".to_string())
    );
    assert_eq!(
        safely_check_path(protected, &failed("disk gone", false)),
        Err("Error accessing path: disk gone".to_string())
    );
}

#[test]
fn chosen_folder_must_be_an_existing_directory() {
    let root = RootFolder { exists: false, is_dir: false, listing: failed("x", false) };
    assert_eq!(read_folder_contents("/nope", &root).err(), Some("Folder not found: /nope".to_string()));
    let root = RootFolder { exists: true, is_dir: false, listing: failed("x", false) };
    assert_eq!(read_folder_contents("/f.txt", &root).err(), Some("Not a directory: /f.txt".to_string()));
    let root = RootFolder { exists: true, is_dir: true, listing: failed("x", true) };
    assert_eq!(
        read_folder_contents("/d", &root).err(),
        Some("Access denied: You don't have permission to read this folder".to_string())
    );
    let root = RootFolder { exists: true, is_dir: true, listing: failed("x", false) };
    assert_eq!(read_folder_contents("/d", &root).err(), Some("Error reading folder: x".to_string()));
    let root = RootFolder { exists: true, is_dir: true, listing: failed("x", false) };
    assert_eq!(
        read_folder_contents("/Microsoft.Limitless_8wekyb3d8bbwe/d", &root).err(),
        Some("Error accessing path: x".to_string())
    );
}

#[test]
fn chosen_folder_shows_the_directories_that_lead_to_profiles() {
    let root = RootFolder {
        exists: true,
        is_dir: true,
        listing: Listing::Entries(vec![
            file("/c", "notes.txt"),
            airport("/c", "aerosoft-airport-eddb"),
            Entry::Unreadable { message: "skipped".to_string() },
            folder("/c", "library", vec![file("/c/library", "x.bin")]),
            folder("/c", "GSX Profile", vec![]),
            locked("/c", "secret", "Permission denied (os error 13)", true),
            folder("/c", "outer", vec![locked("/c/outer", "inner", "Access is denied. (os error 5)", true)]),
        ]),
    };
    let items = read_folder_contents("/c", &root).unwrap();
    assert_eq!(names(&items), vec!["aerosoft-airport-eddb", "GSX Profile"]);
    assert_eq!(items[0].id, TreeDataItem::hash_path("/c/aerosoft-airport-eddb"));
    assert_eq!(items[0].path, "/c/aerosoft-airport-eddb");
    assert!(items[0].is_directory);
    assert_eq!(names(items[0].children.as_ref().unwrap()), vec!["GSX Profile"]);
    assert_eq!(items[1].id, TreeDataItem::hash_path("/c/GSX Profile"));
    assert_eq!(items[1].children.as_ref().unwrap().len(), 0);
}

#[test]
fn chosen_folder_fails_on_other_errors_below() {
    let root = RootFolder {
        exists: true,
        is_dir: true,
        listing: Listing::Entries(vec![
            airport("/c", "one"),
            locked("/c", "broken", "The device is not ready. (os error 21)", false),
            airport("/c", "two"),
        ]),
    };
    assert_eq!(
        read_folder_contents("/c", &root).err(),
        Some("The device is not ready. (os error 21)".to_string())
    );
}

#[test]
fn access_errors_are_recognised_by_their_words() {
    assert!(access_denied("Access is denied. (os error 5)"));
    assert!(access_denied("Permission denied (os error 13)"));
    assert!(access_denied("xPermission deniedx"));
    assert!(!access_denied("permission denied"));
    assert!(!access_denied("Access denied"));
    assert!(!access_denied(""));
}

#[test]
fn a_folder_must_be_picked() {
    assert_eq!(select_folder(Some("C:\\addons".to_string())), Ok("C:\\addons".to_string()));
    assert_eq!(select_folder(None), Err("No folder selected".to_string()));
}

#[test]
fn a_folder_is_an_existing_directory() {
    assert!(check_folder_exists(true, true));
    assert!(!check_folder_exists(true, false));
    assert!(!check_folder_exists(false, true));
    assert!(!check_folder_exists(false, false));
}
