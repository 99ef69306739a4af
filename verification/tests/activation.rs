use gsx_profile_manager::create_profile_symlink::helpers::{
    backup_dir, backup_directory, create_profile_backup, create_profile_symlink,
    create_profile_symlinks, link_step,
    failure_message, has_actual_files, remove_existing_symlinks, removal_detail, Clearing,
    Failure, LinkDecision, SourceProbe, TargetEntry, TargetProbe,
};
use gsx_profile_manager::create_profile_symlink::{
    activate_profiles, first_missing_source, listing_event, outcome_message,
    profile_directory_segments,
    question_for, Buttons, Event, Outcome, Step,
};

fn entry(name: &str, is_dir: bool, is_file: bool, is_symlink: bool) -> TargetEntry {
    TargetEntry { name: name.to_string(), is_dir, is_file, is_symlink }
}

fn listing() -> Vec<TargetEntry> {
    vec![
        entry("backup-1700000000", true, false, false),
        entry("eddb.ini", false, true, false),
        entry("kjfk.py", false, true, true),
        entry("dangling", false, false, true),
        entry("backup-notes.txt", false, true, false),
        entry("profiles", true, false, false),
        entry("backup-link", true, false, true),
        entry("dirlink", true, false, true),
    ]
}

fn run(events: &[Event]) -> Step {
    let mut step = Step::PrepareTarget;
    for e in events {
        step = activate_profiles(step, *e);
    }
    step
}

#[test]
fn backup_directories_are_recognised_by_name() {
    assert!(backup_dir(&entry("backup-1", true, false, false)));
    assert!(backup_dir(&entry("backup-", true, false, false)));
    assert!(!backup_dir(&entry("backup", true, false, false)));
    assert!(!backup_dir(&entry("Backup-1", true, false, false)));
    assert!(!backup_dir(&entry("backup-1", false, true, false)));
}

#[test]
fn actual_files_are_files_that_are_no_links() {
    assert!(has_actual_files(&listing()));
    assert!(!has_actual_files(&Vec::new()));
    assert!(!has_actual_files(&vec![
        entry("backup-1", true, false, false),
        entry("link.ini", false, true, true),
        entry("sub", true, false, false),
    ]));
    assert!(has_actual_files(&vec![entry("backup-1", false, true, false)]));
    assert!(!has_actual_files(&vec![entry("backup-odd", true, true, false)]));
}

#[test]
fn backup_copies_the_actual_files() {
    let plan = create_profile_backup(1700000000, &listing());
    assert_eq!(plan.directory, "backup-1700000000");
    assert_eq!(plan.files, vec!["eddb.ini", "backup-notes.txt"]);
    let plan = create_profile_backup(0, &Vec::new());
    assert_eq!(plan.directory, "backup-0");
    assert!(plan.files.is_empty());
    assert_eq!(create_profile_backup(u64::MAX, &Vec::new()).directory, "backup-18446744073709551615");
    assert_eq!(backup_directory(1712345678), "backup-1712345678");
}

#[test]
fn removal_takes_links_and_leaves_files() {
    assert_eq!(remove_existing_symlinks(&listing()), vec!["kjfk.py", "dangling", "dirlink"]);
    assert!(remove_existing_symlinks(&Vec::new()).is_empty());
    let files_only = vec![
        entry("eddb.ini", false, true, false),
        entry("notes.txt", false, true, false),
        entry("sub", true, false, false),
    ];
    assert!(remove_existing_symlinks(&files_only).is_empty());
}

fn source(exists: bool, name: Option<&str>, is_dir: bool) -> SourceProbe {
    SourceProbe { exists, file_name: name.map(|s| s.to_string()), is_dir }
}

fn target(exists: bool, is_symlink: bool, is_dir: bool) -> TargetProbe {
    TargetProbe { exists, is_symlink, is_dir }
}

#[test]
fn missing_source_is_passed_over() {
    let d = create_profile_symlink("/p/a.ini", &source(false, Some("a.ini"), false), &target(true, false, false));
    assert!(matches!(d, LinkDecision::Skip));
    let d = create_profile_symlink("/", &source(false, None, false), &target(false, false, false));
    assert!(matches!(d, LinkDecision::Skip));
}

#[test]
fn source_without_file_name_fails() {
    let d = create_profile_symlink("/p/..", &source(true, None, true), &target(false, false, false));
    match d {
        LinkDecision::Fail(m) => assert_eq!(m, "Could not get file name from path: /p/.."),
        _ => panic!("expected a failure"),
    }
}

#[test]
fn link_clears_what_is_in_the_way() {
    let cases = [
        (target(false, false, false), Clearing::Nothing),
        (target(true, false, false), Clearing::RemoveFile),
        (target(false, true, false), Clearing::RemoveFile),
        (target(true, true, false), Clearing::RemoveFile),
        (target(true, false, true), Clearing::RemoveDirectory),
        (target(true, true, true), Clearing::RemoveDirectory),
    ];
    for (t, expected) in cases {
        match create_profile_symlink("/p/a.ini", &source(true, Some("a.ini"), false), &t) {
            LinkDecision::Link { file_name, clearing, directory } => {
                assert_eq!(file_name, "a.ini");
                assert_eq!(clearing, expected);
                assert!(!directory);
            }
            _ => panic!("expected a link"),
        }
    }
    match create_profile_symlink("/p/dir", &source(true, Some("dir"), true), &target(false, false, false)) {
        LinkDecision::Link { directory, .. } => assert!(directory),
        _ => panic!("expected a link"),
    }
}

#[test]
fn only_links_are_counted() {
    let decisions = vec![
        LinkDecision::Skip,
        LinkDecision::Link { file_name: "a".to_string(), clearing: Clearing::Nothing, directory: false },
        LinkDecision::Skip,
        LinkDecision::Link { file_name: "b".to_string(), clearing: Clearing::RemoveFile, directory: true },
    ];
    assert_eq!(create_profile_symlinks(&decisions), Ok(2));
    assert_eq!(create_profile_symlinks(&Vec::new()), Ok(0));
    assert_eq!(create_profile_symlinks(&vec![LinkDecision::Skip]), Ok(0));
}

#[test]
fn linking_ends_at_the_first_failure() {
    let link = || LinkDecision::Link {
        file_name: "a".to_string(),
        clearing: Clearing::Nothing,
        directory: false,
    };
    let decisions = vec![
        link(),
        LinkDecision::Fail("first".to_string()),
        link(),
        LinkDecision::Fail("second".to_string()),
    ];
    assert_eq!(create_profile_symlinks(&decisions), Err("first".to_string()));
}

#[test]
fn each_decision_moves_the_count() {
    let link = LinkDecision::Link {
        file_name: "a".to_string(),
        clearing: Clearing::RemoveFile,
        directory: true,
    };
    assert_eq!(link_step(0, &LinkDecision::Skip), Ok(0));
    assert_eq!(link_step(7, &LinkDecision::Skip), Ok(7));
    assert_eq!(link_step(0, &link), Ok(1));
    assert_eq!(link_step(41, &link), Ok(42));
    assert_eq!(link_step(3, &LinkDecision::Fail("no name".to_string())), Err("no name".to_string()));
}

#[test]
fn an_unreadable_directory_is_a_failure_and_not_an_empty_one() {
    assert_eq!(listing_event(Err(Failure::ReadDirectory)), Event::Failed(Failure::ReadDirectory));
    assert_eq!(
        listing_event(Err(Failure::ReadDirectoryEntry)),
        Event::Failed(Failure::ReadDirectoryEntry)
    );
    assert_eq!(listing_event(Ok(&Vec::new())), Event::TargetListed(false));
    assert_eq!(listing_event(Ok(&listing())), Event::TargetListed(true));
    assert_eq!(
        activate_profiles(Step::ListTarget, listing_event(Err(Failure::ReadDirectory))),
        Step::Finish(Outcome::Failed(Failure::ReadDirectory))
    );
}

#[test]
fn failure_messages_begin_as_the_operation_says() {
    let cases = [
        (Failure::ReadEnvironment, "Failed to get APPDATA environment variable: x"),
        (Failure::CreateTargetDirectory, "Failed to create target directory: x"),
        (Failure::SourceMissing, "Source file does not exist: x"),
        (Failure::ReadDirectory, "Failed to read directory: x"),
        (Failure::SystemTime, "Failed to get system time: x"),
        (Failure::CreateBackupDirectory, "Failed to create backup directory: x"),
        (Failure::ReadTargetDirectory, "Failed to read target directory: x"),
        (Failure::ReadDirectoryEntry, "Failed to read directory entry: x"),
        (Failure::CopyToBackup, "Failed to copy file to backup: x"),
        (Failure::RemoveEntry, "Failed to remove file or symlink x"),
        (Failure::MissingFileName, "Could not get file name from path: x"),
        (Failure::RemoveExistingDirectory, "Failed to remove existing directory: x"),
        (Failure::RemoveExistingFile, "Failed to remove existing file: x"),
        (Failure::CreateDirectoryLink, "Failed to create directory symlink: x"),
        (Failure::CreateFileLink, "Failed to create file symlink: x"),
    ];
    for (failure, expected) in cases {
        assert_eq!(failure_message(failure, "x"), expected);
    }
    assert_eq!(
        failure_message(Failure::RemoveEntry, &removal_detail("\"C:\\\\t\\\\a.ini\"", "denied")),
        "Failed to remove file or symlink \"C:\\\\t\\\\a.ini\": denied"
    );
}

#[test]
fn first_missing_source_is_found_in_order() {
    assert_eq!(first_missing_source(&vec![true, true, true]), None);
    assert_eq!(first_missing_source(&Vec::new()), None);
    assert_eq!(first_missing_source(&vec![true, false, true, false]), Some(1));
    assert_eq!(first_missing_source(&vec![false]), Some(0));
}

#[test]
fn activation_into_an_empty_directory_asks_nothing() {
    let events = [
        Event::Done,
        Event::SourcesChecked(None),
        Event::TargetListed(false),
        Event::Done,
        Event::LinksCreated(2),
    ];
    assert_eq!(run(&events[..3]), Step::RemoveOld);
    assert_eq!(run(&events[..4]), Step::CreateLinks);
    assert_eq!(run(&events), Step::Finish(Outcome::Activated));
}

#[test]
fn activation_over_existing_files_asks_twice() {
    let start = [Event::Done, Event::SourcesChecked(None), Event::TargetListed(true)];
    assert_eq!(run(&start), Step::AskReplace);
    let mut yes_yes = start.to_vec();
    yes_yes.extend([Event::Answered(Some(true)), Event::Answered(Some(true))]);
    assert_eq!(run(&yes_yes[..4]), Step::AskBackup);
    assert_eq!(run(&yes_yes), Step::Backup);
    yes_yes.extend([Event::Done, Event::Done, Event::LinksCreated(0)]);
    assert_eq!(run(&yes_yes[..6]), Step::RemoveOld);
    assert_eq!(run(&yes_yes), Step::Finish(Outcome::NothingActivated));
    let mut yes_no = start.to_vec();
    yes_no.extend([Event::Answered(Some(true)), Event::Answered(Some(false))]);
    assert_eq!(run(&yes_no), Step::RemoveOld);
}

#[test]
fn cancelling_ends_the_activation() {
    let events = [
        Event::Done,
        Event::SourcesChecked(None),
        Event::TargetListed(true),
        Event::Answered(Some(false)),
        Event::Done,
        Event::LinksCreated(3),
    ];
    assert_eq!(run(&events[..4]), Step::Finish(Outcome::Cancelled));
    assert_eq!(run(&events), Step::Finish(Outcome::Cancelled));
}

#[test]
fn a_dialog_without_answer_ends_the_activation() {
    let start = [Event::Done, Event::SourcesChecked(None), Event::TargetListed(true)];
    let mut first = start.to_vec();
    first.push(Event::Answered(None));
    assert_eq!(run(&first), Step::Finish(Outcome::DialogFailed));
    let mut second = start.to_vec();
    second.extend([Event::Answered(Some(true)), Event::Answered(None)]);
    assert_eq!(run(&second), Step::Finish(Outcome::DialogFailed));
}

#[test]
fn a_missing_source_ends_the_activation() {
    let events = [Event::Done, Event::SourcesChecked(Some(1))];
    assert_eq!(run(&events), Step::Finish(Outcome::Failed(Failure::SourceMissing)));
}

#[test]
fn a_failure_ends_the_activation_at_any_step() {
    assert_eq!(
        run(&[Event::Failed(Failure::ReadEnvironment)]),
        Step::Finish(Outcome::Failed(Failure::ReadEnvironment))
    );
    let events = [
        Event::Done,
        Event::SourcesChecked(None),
        Event::TargetListed(false),
        Event::Failed(Failure::RemoveEntry),
        Event::Done,
    ];
    assert_eq!(run(&events), Step::Finish(Outcome::Failed(Failure::RemoveEntry)));
}

#[test]
fn an_event_that_answers_nothing_changes_nothing() {
    assert_eq!(activate_profiles(Step::PrepareTarget, Event::Answered(Some(true))), Step::PrepareTarget);
    assert_eq!(activate_profiles(Step::AskReplace, Event::Done), Step::AskReplace);
    assert_eq!(activate_profiles(Step::CreateLinks, Event::Done), Step::CreateLinks);
    assert_eq!(activate_profiles(Step::Backup, Event::LinksCreated(1)), Step::Backup);
}

#[test]
fn outcomes_are_worded_for_the_user() {
    assert_eq!(
        outcome_message(Outcome::Activated, ""),
        Ok("GSX profiles activated successfully! Your simulator is ready to use these profiles."
            .to_string())
    );
    assert_eq!(
        outcome_message(Outcome::NothingActivated, ""),
        Ok("No profiles were activated. Please check your selected profiles.".to_string())
    );
    assert_eq!(outcome_message(Outcome::Cancelled, ""), Ok("Operation cancelled by user.".to_string()));
    assert_eq!(
        outcome_message(Outcome::DialogFailed, "ignored"),
        Err("Dialog interaction failed".to_string())
    );
    assert_eq!(
        outcome_message(Outcome::Failed(Failure::SourceMissing), "C:\\p\\a.ini"),
        Err("Source file does not exist: C:\\p\\a.ini".to_string())
    );
}

#[test]
fn profile_directory_lies_below_the_roaming_data() {
    assert_eq!(profile_directory_segments(), vec!["Virtuali", "GSX", "MSFS"]);
}

#[test]
fn the_two_asking_steps_have_questions() {
    let q = question_for(Step::AskReplace).unwrap();
    assert_eq!(q.message, "This will replace existing GSX profiles. Would you like to proceed?");
    assert_eq!(q.title, "Warning");
    assert!(q.warning);
    assert_eq!(q.buttons, Buttons::OkCancel);
    let q = question_for(Step::AskBackup).unwrap();
    assert_eq!(q.message, "Would you like to create a backup of your current profiles?");
    assert_eq!(q.title, "Backup");
    assert!(!q.warning);
    assert_eq!(q.buttons, Buttons::YesNo);
    for step in [
        Step::PrepareTarget,
        Step::CheckSources,
        Step::ListTarget,
        Step::Backup,
        Step::RemoveOld,
        Step::CreateLinks,
        Step::Finish(Outcome::Cancelled),
    ] {
        assert!(question_for(step).is_none());
    }
}
