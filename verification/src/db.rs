//! The settings database file: where it is and what has to be done with it
//! at start-up.

use crate::text::prefixed;
use vstd::prelude::*;

verus! {

/// What start-up does about the database file.
#[derive(Clone, Copy, Debug, PartialEq, Eq, Structural)]
pub enum DbAction {
    /// The file is there: nothing to do.
    Keep,
    /// The file is missing: create it, with its directory.
    Create,
}

/// Decides what start-up does about the database file: it is created unless
/// it exists.
pub fn init(file_exists: bool) -> (r: DbAction)
    ensures
        r == (if file_exists {
            DbAction::Keep
        } else {
            DbAction::Create
        }),
{
    if !file_exists {
        DbAction::Create
    } else {
        DbAction::Keep
    }
}

/// The path of the database file below the user's home directory.
pub open spec fn db_path_of(home: Seq<char>) -> Seq<char> {
    home + "/AppData/Roaming/com.gsx-profile-manager.app/.config/gsx-profiles.sqlite"@
}

/// The path of the database file for a home directory.
pub fn get_db_path(home_dir: &str) -> (r: String)
    ensures
        r@ == db_path_of(home_dir@),
{
    prefixed(home_dir, "/AppData/Roaming/com.gsx-profile-manager.app/.config/gsx-profiles.sqlite")
}

} // verus!
