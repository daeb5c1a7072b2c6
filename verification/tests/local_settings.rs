use lagrappe::local_settings::{
    InitAction, LocalSettingsError, LocalSettingsProviderImpl, SettingsInit,
    ENV_SETTING_DEFAULT_FOLDER_VAR, PLUGINS_DESCRIPTORS_FILE_NAME, PLUGINS_FOLDER_NAME,
    SETTING_FOLDER_NAME,
};
use std::path::PathBuf;

fn begun() -> (SettingsInit, InitAction) {
    LocalSettingsProviderImpl::at("/s".to_string()).init_user_settings_if_not_exists()
}

fn probe(path: &str) -> InitAction {
    InitAction::Probe(path.to_string())
}

fn create(path: &str) -> InitAction {
    InitAction::CreateDir(path.to_string())
}

fn after(replies: &[bool]) -> (SettingsInit, InitAction) {
    let (mut init, mut action) = begun();
    for reply in replies {
        (init, action) = init.advance(*reply);
    }
    (init, action)
}

#[test]
fn names_are_fixed() {
    assert_eq!(ENV_SETTING_DEFAULT_FOLDER_VAR, "LAGRAPPE_SETTINGS_DIR");
    assert_eq!(SETTING_FOLDER_NAME, ".lagrappe");
    assert_eq!(PLUGINS_FOLDER_NAME, "plugins");
    assert_eq!(PLUGINS_DESCRIPTORS_FILE_NAME, "plugins.json");
}

#[test]
fn environment_wins_over_home() {
    assert_eq!(
        LocalSettingsProviderImpl::choose_settings_dir(
            Some("/env".to_string()),
            Some("/home/u/.lagrappe".to_string())
        ),
        Ok("/env".to_string())
    );
    assert_eq!(
        LocalSettingsProviderImpl::choose_settings_dir(Some("/env".to_string()), None),
        Ok("/env".to_string())
    );
}

#[test]
fn home_is_used_without_environment() {
    assert_eq!(
        LocalSettingsProviderImpl::choose_settings_dir(None, Some("/home/u/.lagrappe".to_string())),
        Ok("/home/u/.lagrappe".to_string())
    );
}

#[test]
fn nothing_to_go_by_is_an_error() {
    assert_eq!(
        LocalSettingsProviderImpl::choose_settings_dir(None, None),
        Err(LocalSettingsError::UnableToLocateSettingsDir)
    );
    assert_eq!(
        LocalSettingsProviderImpl::locate_user_settings_dir(None, None),
        Err(LocalSettingsError::UnableToLocateSettingsDir)
    );
    assert_eq!(
        LocalSettingsProviderImpl::new(None, None).unwrap_err(),
        LocalSettingsError::UnableToLocateSettingsDir
    );
}

#[test]
fn settings_folder_lies_under_home() {
    assert_eq!(
        LocalSettingsProviderImpl::locate_user_settings_dir(None, Some(PathBuf::from("/home/u"))),
        Ok("/home/u/.lagrappe".to_string())
    );
    assert_eq!(
        LocalSettingsProviderImpl::locate_user_settings_dir(
            Some("/env".to_string()),
            Some(PathBuf::from("/home/u"))
        ),
        Ok("/env".to_string())
    );
}

#[test]
fn provider_names_its_paths() {
    let provider = LocalSettingsProviderImpl::at("/home/u/.lagrappe".to_string());
    assert_eq!(provider.user_settings_dir, "/home/u/.lagrappe");
    assert_eq!(provider.plugins_dir, "/home/u/.lagrappe/plugins");
    assert_eq!(provider.plugins_descriptors_file, "/home/u/.lagrappe/plugins.json");
}

#[test]
fn new_provider_is_located_and_named() {
    let provider = LocalSettingsProviderImpl::new(Some("/env".to_string()), None).unwrap();
    assert_eq!(provider.user_settings_dir, "/env");
    assert_eq!(provider.plugins_dir, "/env/plugins");
    assert_eq!(provider.plugins_descriptors_file, "/env/plugins.json");
    let provider = LocalSettingsProviderImpl::new(None, Some(PathBuf::from("/home/u"))).unwrap();
    assert_eq!(provider.user_settings_dir, "/home/u/.lagrappe");
    assert_eq!(provider.plugins_dir, "/home/u/.lagrappe/plugins");
}

#[test]
fn preparation_begins_with_the_settings_folder() {
    let (init, action) = begun();
    assert_eq!(action, probe("/s"));
    assert!(!init.is_finished());
}

#[test]
fn nothing_is_created_where_everything_exists() {
    assert_eq!(after(&[true]).1, probe("/s/plugins"));
    assert_eq!(after(&[true, true]).1, probe("/s/plugins.json"));
    let (init, action) = after(&[true, true, true]);
    assert_eq!(action, InitAction::Done(Ok(())));
    assert!(init.is_finished());
}

#[test]
fn everything_is_created_where_nothing_exists() {
    assert_eq!(after(&[false]).1, create("/s"));
    assert_eq!(after(&[false, true]).1, probe("/s/plugins"));
    assert_eq!(after(&[false, true, false]).1, create("/s/plugins"));
    assert_eq!(after(&[false, true, false, true]).1, probe("/s/plugins.json"));
    assert_eq!(
        after(&[false, true, false, true, false]).1,
        InitAction::WriteFile { path: "/s/plugins.json".to_string(), content: "[]".to_string() }
    );
    let (init, action) = after(&[false, true, false, true, false, true]);
    assert_eq!(action, InitAction::Done(Ok(())));
    assert!(init.is_finished());
}

#[test]
fn only_the_plugin_list_is_written_where_the_folders_exist() {
    assert_eq!(
        after(&[true, true, false]).1,
        InitAction::WriteFile { path: "/s/plugins.json".to_string(), content: "[]".to_string() }
    );
    assert_eq!(after(&[true, true, false, true]).1, InitAction::Done(Ok(())));
}

#[test]
fn failed_creation_ends_the_preparation() {
    let failed = InitAction::Done(Err(LocalSettingsError::UnableToCreateSettingsDir));
    assert_eq!(after(&[false, false]).1, failed);
    assert_eq!(after(&[true, false, false]).1, failed);
    assert_eq!(after(&[true, true, false, false]).1, failed);
    assert!(after(&[false, false]).0.is_finished());
}

#[test]
fn list_that_cannot_be_serialized_ends_the_preparation() {
    let (init, _) = after(&[true, true]);
    let (init, action) = init.advance_with(false, None);
    assert_eq!(action, InitAction::Done(Err(LocalSettingsError::UnableToSerializeData)));
    assert!(init.is_finished());
}

#[test]
fn serialized_list_is_written_as_given() {
    let (init, _) = after(&[true, true]);
    let (_, action) = init.advance_with(false, Some("[ ]".to_string()));
    assert_eq!(
        action,
        InitAction::WriteFile { path: "/s/plugins.json".to_string(), content: "[ ]".to_string() }
    );
    let (init, _) = after(&[true]);
    let (_, action) = init.advance_with(true, Some("[ ]".to_string()));
    assert_eq!(action, probe("/s/plugins.json"));
}

#[test]
fn finished_preparation_repeats_its_result() {
    assert_eq!(after(&[true, true, true, false]).1, InitAction::Done(Ok(())));
    assert_eq!(after(&[true, true, true, true, true]).1, InitAction::Done(Ok(())));
    assert_eq!(
        after(&[false, false, true]).1,
        InitAction::Done(Err(LocalSettingsError::UnableToCreateSettingsDir))
    );
}

#[test]
fn preparation_uses_the_paths_of_the_provider() {
    let provider = LocalSettingsProviderImpl {
        user_settings_dir: "/a".to_string(),
        plugins_dir: "/b".to_string(),
        plugins_descriptors_file: "/c".to_string(),
    };
    let (init, action) = provider.init_user_settings_if_not_exists();
    assert_eq!(action, probe("/a"));
    let (init, action) = init.advance(false);
    assert_eq!(action, create("/a"));
    let (init, action) = init.advance(true);
    assert_eq!(action, probe("/b"));
    let (init, action) = init.advance(false);
    assert_eq!(action, create("/b"));
    let (init, action) = init.advance(true);
    assert_eq!(action, probe("/c"));
    let (_, action) = init.advance(false);
    assert_eq!(action, InitAction::WriteFile { path: "/c".to_string(), content: "[]".to_string() });
}
