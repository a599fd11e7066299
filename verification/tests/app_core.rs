use record_screen::app_core::{format_duration, format_size, AppCore, CompletedRecording, RecorderStatus, RuntimeDiagnostics};
use record_screen::shortcuts::{default_shortcuts, ShortcutAction};
use record_screen::storage::AppSettings;

const SECOND: u128 = 1_000_000_000;

fn recording(title: &str) -> CompletedRecording {
    CompletedRecording {
        title: title.to_string(),
        started_at_label: "Today".to_string(),
        duration_nanos: 75 * SECOND,
        location: "/tmp/a.mp4".to_string(),
        size_bytes: 5 * 1024 * 1024,
    }
}

#[test]
fn formats_durations_as_hours_minutes_seconds() {
    assert_eq!(format_duration(0), "00:00:00");
    assert_eq!(format_duration(75 * SECOND + 999_999_999), "00:01:15");
    assert_eq!(format_duration(3_600 * 125 * SECOND), "125:00:00");
}

#[test]
fn formats_sizes_as_the_float_formatter_rounds() {
    assert_eq!(format_size(0), "0 MB");
    assert_eq!(format_size(524_288), "0 MB");
    assert_eq!(format_size(1_572_864), "2 MB");
    assert_eq!(format_size(2_621_440), "2 MB");
    assert_eq!(format_size(1_073_741_823), "1024 MB");
    assert_eq!(format_size(1_073_741_824), "1.00 GB");
    assert_eq!(format_size(1_610_612_736), "1.50 GB");
    assert_eq!(format_size(u64::MAX), "17179869184.00 GB");
}

#[test]
fn start_pause_resume_and_stop_follow_the_recorder_states() {
    let mut core = AppCore::new(AppSettings::default(), default_shortcuts());
    assert_eq!(core.recorder_status(), RecorderStatus::Idle);
    let snap = core.start_recording_at("Full desktop".to_string(), "x264".to_string(), "/tmp/a.mp4".to_string(), 10 * SECOND as i128);
    assert_eq!(snap.status, RecorderStatus::Recording);
    assert_eq!(snap.elapsed_label, "00:00:00");
    let paused = core.pause_recording_at(70 * SECOND as i128).expect("pause");
    assert_eq!(paused.elapsed_label, "Paused at 00:01:00");
    assert!(core.pause_recording_at(80 * SECOND as i128).is_none());
    let resumed = core.resume_recording_at(100 * SECOND as i128).expect("resume");
    assert_eq!(resumed.elapsed_label, "00:01:00");
    assert_eq!(core.snapshot_at(130 * SECOND as i128).elapsed_label, "00:01:30");
    let stopped = core.stop_recording(Some(recording("Demo")));
    assert_eq!(stopped.status, RecorderStatus::Idle);
    assert_eq!(stopped.elapsed_label, "Ready when you are");
    assert_eq!(stopped.active_output_path, None);
}

#[test]
fn resume_without_pause_is_refused() {
    let mut core = AppCore::new(AppSettings::default(), default_shortcuts());
    assert!(core.resume_recording_at(5).is_none());
    assert!(core.pause_recording_at(5).is_none());
    assert_eq!(core.recorder_status(), RecorderStatus::Idle);
}

#[test]
fn toggling_microphone_twice_restores_the_setting() {
    let mut core = AppCore::default();
    let before = core.settings().mic_enabled;
    assert_eq!(core.toggle_microphone_at(0).mic_enabled, !before);
    assert_eq!(core.toggle_microphone_at(0).mic_enabled, before);
}

#[test]
fn session_list_keeps_the_ten_newest() {
    let mut core = AppCore::default();
    for i in 0..12 {
        core.push_completed_recording(recording(&format!("Take {i}")));
    }
    let snapshot = core.bootstrap_at("linux", "0.1.0", vec![], vec![], diagnostics(), 0);
    assert_eq!(snapshot.recent_sessions.len(), 10);
    assert_eq!(snapshot.recent_sessions[0].title, "Take 11");
    assert_eq!(snapshot.recent_sessions[0].id, "session-11");
    assert_eq!(snapshot.recent_sessions[0].duration_label, "00:01:15");
    assert_eq!(snapshot.recent_sessions[0].size_label, "5 MB");
    assert_eq!(snapshot.recent_sessions[9].title, "Take 2");
}

fn diagnostics() -> RuntimeDiagnostics {
    RuntimeDiagnostics {
        summary: "ok".to_string(),
        backend_path: "x11".to_string(),
        readiness: "ready".to_string(),
        supports_custom_region: true,
        custom_region_note: String::new(),
        supports_system_audio: false,
        system_audio_note: String::new(),
    }
}

#[test]
fn bootstrap_reports_app_identity_and_presets() {
    let core = AppCore::default();
    let snapshot = core.bootstrap_at("linux", "0.1.0", vec![], vec![], diagnostics(), 0);
    assert_eq!(snapshot.app_name, "Record Screen");
    assert_eq!(snapshot.app_author, "Tran Van Bach");
    assert_eq!(snapshot.launcher_window_label, "main");
    assert_eq!(snapshot.quality_presets.len(), 5);
    assert_eq!(snapshot.permissions[1].name, "ScreenCast portal");
    assert_eq!(snapshot.roadmap[3], "Review and export workflow");
}

#[test]
fn settings_updates_ignore_blank_and_unknown_values() {
    let mut core = AppCore::default();
    assert_eq!(core.update_quality_preset("8K / 120 fps".to_string()).quality_preset, "1080p / 30 fps");
    assert_eq!(core.update_quality_preset("4K / 60 fps".to_string()).quality_preset, "4K / 60 fps");
    assert_eq!(core.update_output_directory("   ".to_string()).output_directory, "~/Movies/Record Screen");
    assert_eq!(core.update_audio_input("usb-mic".to_string()).audio_input_id, "usb-mic");
    let settings = core.update_custom_region(1, 2, 10, 500, Some(" ".to_string()), Some(-5), None);
    assert_eq!((settings.region_width, settings.region_height), (64, 500));
    assert_eq!(settings.region_source_capture_target_id, "full-desktop");
    assert_eq!(settings.region_source_origin_x, -5);
}

#[test]
fn updating_a_shortcut_changes_only_its_accelerator() {
    let mut core = AppCore::default();
    let bindings = core.update_shortcut(ShortcutAction::ToggleMicrophone, "Alt+M".to_string());
    let toggled = bindings.iter().find(|b| b.action == ShortcutAction::ToggleMicrophone).unwrap();
    assert_eq!(toggled.accelerator, "Alt+M");
    assert_eq!(core.reset_shortcuts(), default_shortcuts());
}

#[test]
fn rebinding_changes_only_that_action() {
    let mut core = AppCore::new(AppSettings::default(), default_shortcuts());
    let bindings = core.update_shortcut(ShortcutAction::PauseRecording, "Alt+Shift+P".to_string());
    for binding in &bindings {
        match binding.action {
            ShortcutAction::PauseRecording => assert_eq!(binding.accelerator, "Alt+Shift+P"),
            ShortcutAction::ToggleRecording => assert_eq!(binding.accelerator, "CmdOrCtrl+Shift+R"),
            ShortcutAction::OpenLauncher => assert_eq!(binding.accelerator, "CmdOrCtrl+Shift+L"),
            ShortcutAction::ToggleMicrophone => assert_eq!(binding.accelerator, "CmdOrCtrl+Shift+M"),
        }
    }
    assert_eq!(core.reset_shortcuts(), default_shortcuts());
}

#[test]
fn resume_recording_returns_to_recording() {
    let mut core = AppCore::new(AppSettings::default(), default_shortcuts());
    assert!(core.resume_recording().is_none());
    core.start_recording("Full desktop".to_string(), "x264".to_string(), "/tmp/a.mp4".to_string());
    assert!(core.pause_recording().is_some());
    let snapshot = core.resume_recording().expect("a paused recording resumes");
    assert_eq!(snapshot.status, RecorderStatus::Recording);
    assert_eq!(core.recorder_status(), RecorderStatus::Recording);
}

#[test]
fn a_clock_before_the_epoch_still_counts_elapsed_time() {
    let mut core = AppCore::new(AppSettings::default(), default_shortcuts());
    core.start_recording_at("Full desktop".to_string(), "x264".to_string(), "/tmp/a.mp4".to_string(), -5 * SECOND as i128);
    assert_eq!(core.snapshot_at(85 * SECOND as i128).elapsed_label, "00:01:30");
    core.pause_recording_at(-2 * SECOND as i128).expect("pause");
    core.resume_recording_at(8 * SECOND as i128).expect("resume");
    assert_eq!(core.snapshot_at(18 * SECOND as i128).elapsed_label, "00:00:13");
}
