use record_screen::storage::{app_config_directory, app_settings_path, expand_home_path, next_recording_path, shortcuts_path, AppSettings, EnvValues};

fn unix_env() -> EnvValues {
    EnvValues { home: Some("/home/tester".to_string()), ..EnvValues::default() }
}

#[test]
fn default_launch_on_login_is_disabled() {
    assert!(!AppSettings::default().launch_on_login);
}

#[test]
fn settings_path_ends_with_settings_json() {
    assert!(app_settings_path(&unix_env()).ends_with("settings.json"));
}

#[test]
fn shortcuts_path_ends_with_shortcuts_json() {
    assert!(shortcuts_path(&unix_env()).ends_with("shortcuts.json"));
}

#[test]
fn expand_home_path_uses_userprofile_when_home_is_missing() {
    let env = EnvValues { userprofile: Some(r"C:\Users\Tester".to_string()), ..EnvValues::default() };
    let expanded = expand_home_path("~/Movies/Record Screen", &env);
    assert_eq!(expanded, r"C:\Users\Tester/Movies/Record Screen");
}

#[test]
fn app_config_directory_uses_appdata_when_available() {
    let env = EnvValues { appdata: Some(r"C:\Users\Tester\AppData\Roaming".to_string()), ..EnvValues::default() };
    assert_eq!(app_config_directory(&env), r"C:\Users\Tester\AppData\Roaming/record-screen");
}

#[test]
fn next_recording_path_names_file_after_timestamp() {
    assert_eq!(next_recording_path("/tmp/out", 1700000000), "/tmp/out/recording-1700000000.mp4");
}
