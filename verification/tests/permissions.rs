use record_screen::capture::{AudioBackendAvailability, AudioInputKind, AudioInputOption, CaptureBackendAvailability};
use record_screen::permissions::linux::{parse_first_u32, probe_permissions as linux_probe, MicrophoneProbe};
use record_screen::permissions::macos::MicrophoneAuthorization;
use record_screen::permissions::windows::{desktop_capture_check, open_exit_failure, probe_permissions as windows_probe};
use record_screen::permissions::{
    default_permissions, microphone_permission_blocked, microphone_permission_guidance, open_permission_settings,
    request_permission, PermissionError, PermissionRequest, PermissionStatus,
};

#[test]
fn default_permissions_cover_each_platform() {
    let linux = default_permissions("linux");
    assert_eq!(linux.len(), 3);
    assert_eq!(linux[0].name, "Launcher readiness");
    assert_eq!(linux[1].name, "ScreenCast portal");
    let other = default_permissions("plan9");
    assert_eq!(other.len(), 2);
    assert_eq!(other[1].status, PermissionStatus::Unsupported);
}

#[test]
fn linux_checks_follow_the_session_environment() {
    let checks = linux_probe(&Some(":0".to_string()), &None, None, false, MicrophoneProbe::Succeeded);
    assert_eq!(checks.len(), 4);
    assert_eq!(checks[1].status, PermissionStatus::Granted);
    assert_eq!(
        checks[1].guidance,
        "X11 session detected on :0. Screen recording can start immediately through the native X11 GStreamer lane."
    );
    assert_eq!(checks[2].status, PermissionStatus::Unsupported);
    assert_eq!(checks[3].status, PermissionStatus::Granted);
    let wayland = linux_probe(&Some(" ".to_string()), &Some("wayland-0".to_string()), Some((3, 2)), false, MicrophoneProbe::Failed);
    assert_eq!(wayland[1].status, PermissionStatus::Unsupported);
    assert_eq!(wayland[2].status, PermissionStatus::Granted);
    assert!(wayland[2].guidance.contains("monitor sharing and window sharing and embedded cursor"));
    assert_eq!(wayland[3].status, PermissionStatus::Pending);
}

#[test]
fn permission_probe_reads_the_first_number() {
    assert_eq!(parse_first_u32("(<uint32 7>,)"), Some(32));
    assert_eq!(parse_first_u32("value 12 then 3"), Some(12));
    assert_eq!(parse_first_u32("99999999999"), None);
    assert_eq!(parse_first_u32("none"), None);
}

#[test]
fn windows_checks_follow_backends_and_inputs() {
    let mic = AudioInputOption {
        id: "mic".to_string(),
        label: "Mic".to_string(),
        description: String::new(),
        kind: AudioInputKind::Microphone,
    };
    let checks = windows_probe(&CaptureBackendAvailability::Available, &[mic], &AudioBackendAvailability::Available);
    assert_eq!(checks[1].status, PermissionStatus::Granted);
    assert_eq!(checks[2].status, PermissionStatus::Granted);
    let none = windows_probe(
        &CaptureBackendAvailability::Available,
        &[],
        &AudioBackendAvailability::Unavailable { reason: "x".to_string() },
    );
    assert!(none[2].guidance.starts_with("No Windows microphone input was detected."));
    let pending = desktop_capture_check(&CaptureBackendAvailability::Unavailable { reason: "GPU missing.".to_string() });
    assert_eq!(pending.guidance, "Windows native desktop capture is not ready in this session. GPU missing.");
    assert_eq!(
        open_exit_failure("1"),
        PermissionError::OpenSettingsFailed("start exited with status 1".to_string())
    );
}

#[test]
fn requests_need_a_matching_host() {
    assert_eq!(request_permission("linux", "linux", "Microphone"), Err(PermissionError::UnsupportedPlatform));
    assert_eq!(request_permission("macos", "linux", "Microphone"), Err(PermissionError::UnsupportedPlatform));
    assert_eq!(
        request_permission("windows", "windows", "Microphone"),
        Ok(PermissionRequest::Windows(Some("ms-settings:privacy-microphone")))
    );
    assert_eq!(request_permission("windows", "windows", "Desktop capture"), Ok(PermissionRequest::Windows(None)));
    assert_eq!(
        request_permission("windows", "windows", "Camera"),
        Err(PermissionError::UnknownTarget("Camera".to_string()))
    );
    assert_eq!(open_permission_settings("windows", "windows", "Desktop capture"), Ok("ms-settings:privacy"));
}

#[test]
fn microphone_block_is_reported_only_for_macos() {
    assert!(microphone_permission_blocked("macos", Some(MicrophoneAuthorization::Denied)));
    assert!(!microphone_permission_blocked("linux", Some(MicrophoneAuthorization::Denied)));
    assert!(!microphone_permission_blocked("macos", Some(MicrophoneAuthorization::Authorized)));
    assert_eq!(microphone_permission_guidance("linux", None), None);
    assert_eq!(
        microphone_permission_guidance("macos", Some(MicrophoneAuthorization::Authorized)).as_deref(),
        Some("macOS reports that microphone access is already granted.")
    );
}
