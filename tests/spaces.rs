use space::commands::{
    config_request, next_launch, picker_dir, picker_start, ConfigRequest, LaunchError, LaunchStep,
    PickerStart,
};
use space::manager::SpaceError;
use space::model::{App, Config, Space};
use space::store::{config_location, settle_load, StoreError, APP_ID, CONFIG_FILE_NAME};
use std::path::PathBuf;

fn s(x: &str) -> String {
    x.to_string()
}

fn work_with_editor() -> Config {
    let mut c = Config::new();
    c.create_space(s("Work")).unwrap();
    c.add_app(&s("Work"), s("Editor"), s("/usr/bin/editor")).unwrap();
    c
}

#[test]
fn init_add_then_list_one_space() {
    let c = work_with_editor();
    let listed = c.list(Some(&s("Work"))).unwrap();
    assert_eq!(listed.len(), 1);
    assert_eq!(listed[0].name, "Work");
    assert_eq!(listed[0].apps, vec![App::new(s("Editor"), s("/usr/bin/editor"))]);
}

#[test]
fn init_twice_fails_and_keeps_one_space() {
    let mut c = Config::new();
    assert_eq!(c.create_space(s("Work")), Ok(()));
    assert_eq!(c.create_space(s("Work")), Err(SpaceError::DuplicateName));
    let listed = c.list(None).unwrap();
    assert_eq!(listed.len(), 1);
    assert_eq!(listed[0].name, "Work");
}

#[test]
fn duplicate_create_leaves_config_unchanged() {
    let mut c = work_with_editor();
    let before = work_with_editor();
    assert_eq!(c.create_space(s("Work")), Err(SpaceError::DuplicateName));
    assert_eq!(c, before);
}

#[test]
fn add_to_missing_space_fails_and_changes_nothing() {
    let mut c = work_with_editor();
    let before = work_with_editor();
    assert_eq!(c.add_app(&s("Ghost"), s("X"), s("/x")), Err(SpaceError::SpaceNotFound));
    assert_eq!(c, before);
}

#[test]
fn add_keeps_call_order() {
    let mut c = Config::new();
    c.create_space(s("Work")).unwrap();
    for label in ["A", "B", "C"] {
        c.add_app(&s("Work"), s(label), s("/bin/true")).unwrap();
    }
    let labels: Vec<&str> = c.spaces[0].apps.iter().map(|a| a.label.as_str()).collect();
    assert_eq!(labels, vec!["A", "B", "C"]);
}

#[test]
fn duplicate_labels_are_kept() {
    let mut c = Config::new();
    c.create_space(s("Work")).unwrap();
    c.add_app(&s("Work"), s("A"), s("/a")).unwrap();
    c.add_app(&s("Work"), s("A"), s("/a")).unwrap();
    assert_eq!(c.spaces[0].apps.len(), 2);
}

#[test]
fn add_touches_only_the_named_space() {
    let mut c = Config::new();
    c.create_space(s("Home")).unwrap();
    c.create_space(s("Work")).unwrap();
    c.add_app(&s("Work"), s("Editor"), s("/e")).unwrap();
    assert_eq!(c.spaces[0].name, "Home");
    assert!(c.spaces[0].apps.is_empty());
    assert_eq!(c.spaces[1].apps.len(), 1);
}

#[test]
fn lookup_is_exact() {
    let mut c = Config::new();
    c.create_space(s("work-related")).unwrap();
    assert!(c.find_space(&s("Work")).is_none());
    assert!(c.find_space(&s("work")).is_none());
    assert_eq!(c.list(Some(&s("Work"))), Err(SpaceError::SpaceNotFound));
    assert_eq!(c.add_app(&s("Work"), s("E"), s("/e")), Err(SpaceError::SpaceNotFound));
    assert_eq!(c.find_space(&s("work-related")).unwrap().name, "work-related");
}

#[test]
fn names_are_case_sensitive() {
    let mut c = Config::new();
    assert_eq!(c.create_space(s("Work")), Ok(()));
    assert_eq!(c.create_space(s("work")), Ok(()));
    assert_eq!(c.spaces.len(), 2);
}

#[test]
fn list_all_keeps_creation_order() {
    let mut c = Config::new();
    for n in ["B", "A", "C"] {
        c.create_space(s(n)).unwrap();
    }
    let names: Vec<&str> = c.list(None).unwrap().iter().map(|sp| sp.name.as_str()).collect();
    assert_eq!(names, vec!["B", "A", "C"]);
}

#[test]
fn list_of_empty_config_is_empty() {
    assert!(Config::new().list(None).unwrap().is_empty());
}

#[test]
fn summary_with_and_without_apps() {
    let mut c = work_with_editor();
    c.add_app(&s("Work"), s("Shell"), s("/bin/sh")).unwrap();
    assert_eq!(c.spaces[0].summary(), "Work: 'Editor' 'Shell' ");
    let empty = Space { name: s("Home"), apps: Vec::new() };
    assert_eq!(empty.summary(), "Home (No apps added)");
}

#[test]
fn launch_plan_cases() {
    let mut c = work_with_editor();
    c.create_space(s("Empty")).unwrap();
    assert_eq!(c.launch_plan(&s("Ghost")).err(), Some(LaunchError::SpaceNotFound));
    assert_eq!(c.launch_plan(&s("Empty")).err(), Some(LaunchError::NoApps));
    let plan = c.launch_plan(&s("Work")).unwrap();
    assert_eq!(plan.apps[0].target, "/usr/bin/editor");
}

#[test]
fn config_request_cases() {
    assert_eq!(config_request(None), ConfigRequest::Whole);
    assert_eq!(config_request(Some(s("open"))), ConfigRequest::OpenFile);
    assert_eq!(config_request(Some(s("Work"))), ConfigRequest::OneSpace(s("Work")));
}

#[test]
fn picker_start_by_platform() {
    assert_eq!(picker_start(&s("windows")), PickerStart::DriveRoot);
    assert_eq!(picker_start(&s("macos")), PickerStart::Applications);
    assert_eq!(picker_start(&s("linux")), PickerStart::ExecutableDir);
    assert_eq!(picker_start(&s("freebsd")), PickerStart::HomeDir);
}

#[test]
fn picker_fixed_directories() {
    assert_eq!(picker_dir(PickerStart::DriveRoot), Some(PathBuf::from("C:\\")));
    assert_eq!(picker_dir(PickerStart::Applications), Some(PathBuf::from("/Applications")));
}

#[test]
fn location_without_directory_is_environment_error() {
    assert_eq!(config_location(None).err(), Some(StoreError::Environment));
}

#[test]
fn location_under_directory() {
    let loc = config_location(Some(PathBuf::from("/home/u/.config"))).ok().unwrap();
    assert_eq!(loc.dir, PathBuf::from("/home/u/.config").join(APP_ID));
    assert_eq!(loc.file, PathBuf::from("/home/u/.config/com.calejvaldez.space/config.toml"));
    assert_eq!(CONFIG_FILE_NAME, "config.toml");
}

#[test]
fn fresh_load_twice_gives_equal_empty_configs() {
    let first = settle_load(None).ok().unwrap();
    assert!(first.created);
    assert!(first.config.spaces.is_empty());
    let second = settle_load(Some(Some(Vec::new()))).ok().unwrap();
    assert!(!second.created);
    assert_eq!(first.config, second.config);
}

#[test]
fn load_keeps_stored_content_and_order() {
    let stored = work_with_editor();
    let mut again = work_with_editor();
    again.create_space(s("Home")).unwrap();
    let loaded = settle_load(Some(Some(again.spaces))).ok().unwrap();
    assert_eq!(loaded.config.spaces[0], stored.spaces[0]);
    assert_eq!(loaded.config.spaces[1].name, "Home");
}

#[test]
fn unparsable_file_is_corrupt() {
    assert_eq!(settle_load(Some(None)).err(), Some(StoreError::CorruptConfig));
}

#[test]
fn duplicate_names_on_disk_are_corrupt() {
    let dup = vec![
        Space { name: s("Work"), apps: Vec::new() },
        Space { name: s("Work"), apps: Vec::new() },
    ];
    assert_eq!(settle_load(Some(Some(dup))).err(), Some(StoreError::CorruptConfig));
    let ok = vec![Space { name: s("Work"), apps: Vec::new() }];
    assert!(Config::from_spaces(ok).is_ok());
}

#[test]
fn launch_steps_in_order_and_abort_on_failure() {
    assert_eq!(next_launch(3, 0, false), LaunchStep::Open(0));
    assert_eq!(next_launch(3, 2, false), LaunchStep::Open(2));
    assert_eq!(next_launch(3, 3, false), LaunchStep::Finished);
    assert_eq!(next_launch(3, 1, true), LaunchStep::Abort);
    assert_eq!(next_launch(0, 0, false), LaunchStep::Finished);
}

#[test]
fn picker_fixed_directories_are_not_the_user_dirs() {
    assert_ne!(picker_dir(PickerStart::DriveRoot), picker_dir(PickerStart::Applications));
    assert_ne!(picker_dir(PickerStart::DriveRoot), Some(PathBuf::new()));
}
