use torbox_client::settings::{
    base_directory, finish_saving, load_settings_from_disk, save_settings, save_settings_to_disk, settings_path,
    AppSettings, BaseDirectory, Platform, SaveFailure, SettingsFile,
};

fn settings(token: &str, path: &str) -> AppSettings {
    AppSettings { bearer_token: token.to_string(), default_save_path: path.to_string() }
}

#[test]
fn each_platform_has_its_base_directory() {
    assert_eq!(base_directory(Platform::Windows), BaseDirectory::LocalData);
    assert_eq!(base_directory(Platform::MacOs), BaseDirectory::Data);
    assert_eq!(base_directory(Platform::Other), BaseDirectory::Config);
}

#[test]
fn settings_file_lies_below_the_base_directory() {
    let path = settings_path(Some("/home/u/.config")).unwrap();
    assert_eq!(path.base, "/home/u/.config");
    assert_eq!(path.directory, "TorboxClient");
    assert_eq!(path.file, "settings.json");
}

#[test]
fn settings_need_a_base_directory() {
    assert_eq!(
        settings_path::<String>(None).unwrap_err(),
        "Unable to resolve a local app config directory."
    );
}

#[test]
fn parsed_settings_are_handed_on() {
    let loaded = load_settings_from_disk(SettingsFile::Parsed(settings("t", "p"))).unwrap();
    assert_eq!(loaded.bearer_token, "t");
    assert_eq!(loaded.default_save_path, "p");
}

#[test]
fn missing_file_stands_for_empty_settings() {
    let loaded = load_settings_from_disk(SettingsFile::Missing).unwrap();
    assert_eq!(loaded.bearer_token, "");
    assert_eq!(loaded.default_save_path, "");
}

#[test]
fn bad_files_are_explained() {
    assert_eq!(
        load_settings_from_disk(SettingsFile::Malformed("eof".to_string())).unwrap_err(),
        "Failed to parse settings file: eof"
    );
    assert_eq!(
        load_settings_from_disk(SettingsFile::Unreadable("denied".to_string())).unwrap_err(),
        "Failed to read settings file: denied"
    );
    assert_eq!(
        load_settings_from_disk(SettingsFile::Nowhere("no place".to_string())).unwrap_err(),
        "no place"
    );
}

#[test]
fn settings_are_saved_only_when_filled() {
    let saved = save_settings(settings(" t ", " p ")).unwrap();
    assert_eq!(saved.bearer_token, " t ");
    assert_eq!(saved.default_save_path, " p ");
    assert_eq!(save_settings(settings(" ", "p")).unwrap_err(), "Bearer token is required.");
    assert_eq!(save_settings(settings("", "")).unwrap_err(), "Bearer token is required.");
    assert_eq!(save_settings(settings("t", "\n")).unwrap_err(), "Default save path is required.");
}

#[test]
fn failures_to_save_are_explained() {
    assert_eq!(save_settings_to_disk(Ok(())), Ok(()));
    assert_eq!(
        save_settings_to_disk(Err(SaveFailure::Place("no place".to_string()))),
        Err("no place".to_string())
    );
    assert_eq!(
        save_settings_to_disk(Err(SaveFailure::Directory("a".to_string()))),
        Err("Failed to create settings directory: a".to_string())
    );
    assert_eq!(
        save_settings_to_disk(Err(SaveFailure::Serialization("b".to_string()))),
        Err("Failed to serialize settings: b".to_string())
    );
    assert_eq!(
        save_settings_to_disk(Err(SaveFailure::Writing("c".to_string()))),
        Err("Failed to write settings file: c".to_string())
    );
}

#[test]
fn saved_settings_are_answered_and_loaded_as_given() {
    let token = " t\"ö\n";
    let saved = finish_saving(settings(token, "p"), Ok(())).unwrap();
    assert_eq!(saved.bearer_token, token);
    assert_eq!(saved.default_save_path, "p");
    let loaded = load_settings_from_disk(SettingsFile::Parsed(saved)).unwrap();
    assert_eq!(loaded.bearer_token, token);
    assert_eq!(loaded.default_save_path, "p");
}

#[test]
fn blank_settings_in_the_file_are_loaded_too() {
    let loaded = load_settings_from_disk(SettingsFile::Parsed(settings("", " "))).unwrap();
    assert_eq!(loaded.bearer_token, "");
    assert_eq!(loaded.default_save_path, " ");
}

#[test]
fn saving_fails_for_faults_first() {
    let failure = || Err(SaveFailure::Writing("full".to_string()));
    assert_eq!(
        finish_saving(settings("t", "p"), failure()).unwrap_err(),
        "Failed to write settings file: full"
    );
    assert_eq!(
        finish_saving(settings("", "p"), failure()).unwrap_err(),
        "Bearer token is required."
    );
    assert_eq!(
        finish_saving(settings("t", ""), Ok(())).unwrap_err(),
        "Default save path is required."
    );
}
