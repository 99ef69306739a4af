use gsx_profile_manager::db::{get_db_path, init, DbAction};

#[test]
fn database_is_created_only_when_missing() {
    assert_eq!(init(false), DbAction::Create);
    assert_eq!(init(true), DbAction::Keep);
}

#[test]
fn database_path_lies_below_home() {
    assert_eq!(
        get_db_path("C:\\Users\\me"),
        "C:\\Users\\me/AppData/Roaming/com.gsx-profile-manager.app/.config/gsx-profiles.sqlite"
    );
    assert_eq!(
        get_db_path(""),
        "/AppData/Roaming/com.gsx-profile-manager.app/.config/gsx-profiles.sqlite"
    );
}
