//! The rules of a manager for GSX profiles of a flight simulator: which
//! add-on folders hold airport scenery, which folders hold profiles, and what
//! activating a selection of profiles copies, removes and links.
//!
//! Everything here works on plain values. Reading directories, asking the
//! user and changing files is left to the application, which hands over what
//! it found and carries out what is decided here.

pub mod airport_community_scanner;
pub mod app_state;
pub mod community_folders;
pub mod create_profile_symlink;
pub mod db;
pub mod digits;
pub mod file_system;
pub mod is_admin;
pub mod pattern;
pub mod plain_activation;
pub mod profile_manager;
pub mod text;
pub mod tree_data;
pub mod user_folders;
pub mod zip_handler;
