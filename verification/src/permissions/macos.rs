//! macOS permission checks, requests and settings links.
use vstd::prelude::*;
use vstd::string::*;
use crate::permissions::{check, check_view, launcher_readiness, launcher_readiness_check, check_views,
    PermissionCheck, PermissionCheckView, PermissionError, PermissionStatus};
use crate::text::{push_str, str_eq};

verus! {

pub const SCREEN_RECORDING: &'static str = "Screen recording";
pub const MICROPHONE: &'static str = "Microphone";

/// The microphone authorization that AVFoundation reports.
#[derive(Debug, Clone, Copy, PartialEq, Eq, Structural)]
pub enum MicrophoneAuthorization {
    NotDetermined,
    Restricted,
    Denied,
    Authorized,
    Other,
}

/// What a permission request does on macOS.
#[derive(Debug, Clone, Copy, PartialEq, Eq, Structural)]
pub enum MacosPermissionRequest {
    ScreenRecording,
    Microphone,
}

pub open spec fn microphone_status_spec(a: MicrophoneAuthorization) -> PermissionStatus {
    if a == MicrophoneAuthorization::Authorized { PermissionStatus::Granted } else { PermissionStatus::Pending }
}

pub open spec fn microphone_guidance_spec(a: MicrophoneAuthorization) -> Seq<char> {
    match a {
        MicrophoneAuthorization::Authorized => "macOS reports that microphone access is already granted."@,
        MicrophoneAuthorization::NotDetermined =>
            "Click Request access to show the microphone permission prompt the first time."@,
        MicrophoneAuthorization::Denied | MicrophoneAuthorization::Restricted =>
            "Microphone access is blocked. Open settings and allow microphone access before recording narration."@,
        MicrophoneAuthorization::Other => "Microphone permission state is still unresolved."@,
    }
}

pub open spec fn screen_recording_guidance_spec(granted: bool) -> Seq<char> {
    if granted {
        "macOS reports that screen capture access is already granted."@
    } else {
        "Click Request access to trigger the macOS prompt. If you already denied it, use Open settings and enable Screen Recording for this app or Terminal."@
    }
}

pub fn microphone_permission_status(authorization: MicrophoneAuthorization) -> (s: PermissionStatus)
    ensures
        s == microphone_status_spec(authorization),
{
    match authorization {
        MicrophoneAuthorization::Authorized => PermissionStatus::Granted,
        _ => PermissionStatus::Pending,
    }
}

/// Whether the user refused or a policy restricts microphone access.
pub fn microphone_permission_blocked(authorization: MicrophoneAuthorization) -> (b: bool)
    ensures
        b == (authorization == MicrophoneAuthorization::Denied || authorization == MicrophoneAuthorization::Restricted),
{
    match authorization {
        MicrophoneAuthorization::Denied | MicrophoneAuthorization::Restricted => true,
        _ => false,
    }
}

pub fn microphone_guidance(authorization: MicrophoneAuthorization) -> (g: String)
    ensures
        g@ == microphone_guidance_spec(authorization),
{
    match authorization {
        MicrophoneAuthorization::Authorized =>
            String::from_str("macOS reports that microphone access is already granted."),
        MicrophoneAuthorization::NotDetermined =>
            String::from_str("Click Request access to show the microphone permission prompt the first time."),
        MicrophoneAuthorization::Denied | MicrophoneAuthorization::Restricted =>
            String::from_str("Microphone access is blocked. Open settings and allow microphone access before recording narration."),
        MicrophoneAuthorization::Other => String::from_str("Microphone permission state is still unresolved."),
    }
}

pub fn screen_recording_status(granted: bool) -> (s: PermissionStatus)
    ensures
        s == (if granted { PermissionStatus::Granted } else { PermissionStatus::Pending }),
{
    if granted { PermissionStatus::Granted } else { PermissionStatus::Pending }
}

pub fn screen_recording_guidance(granted: bool) -> (g: String)
    ensures
        g@ == screen_recording_guidance_spec(granted),
{
    if granted {
        String::from_str("macOS reports that screen capture access is already granted.")
    } else {
        String::from_str("Click Request access to trigger the macOS prompt. If you already denied it, use Open settings and enable Screen Recording for this app or Terminal.")
    }
}

/// The macOS checks, from whether screen capture is granted and the
/// microphone authorization.
pub fn probe_permissions(screen_capture_granted: bool, microphone: MicrophoneAuthorization) -> (r: Vec<PermissionCheck>)
    ensures
        check_views(r@) == seq![
            launcher_readiness(),
            check_view(SCREEN_RECORDING@, if screen_capture_granted { PermissionStatus::Granted } else { PermissionStatus::Pending },
                screen_recording_guidance_spec(screen_capture_granted)),
            check_view(MICROPHONE@, microphone_status_spec(microphone), microphone_guidance_spec(microphone))],
{
    let mut r: Vec<PermissionCheck> = Vec::new();
    r.push(launcher_readiness_check());
    r.push(PermissionCheck {
        name: String::from_str(SCREEN_RECORDING),
        status: screen_recording_status(screen_capture_granted),
        guidance: screen_recording_guidance(screen_capture_granted),
    });
    r.push(PermissionCheck {
        name: String::from_str(MICROPHONE),
        status: microphone_permission_status(microphone),
        guidance: microphone_guidance(microphone),
    });
    assert(check_views(r@) == seq![r@[0]@, r@[1]@, r@[2]@]);
    r
}

/// What a request for the named permission does, or the error for an unknown name.
pub fn request_permission(permission_name: &str) -> (r: Result<MacosPermissionRequest, PermissionError>)
    ensures
        permission_name@ == SCREEN_RECORDING@ ==> r == Ok::<MacosPermissionRequest, PermissionError>(MacosPermissionRequest::ScreenRecording),
        permission_name@ != SCREEN_RECORDING@ && permission_name@ == MICROPHONE@ ==> r == Ok::<MacosPermissionRequest, PermissionError>(MacosPermissionRequest::Microphone),
        permission_name@ != SCREEN_RECORDING@ && permission_name@ != MICROPHONE@ ==>
            (r matches Err(PermissionError::UnknownTarget(n)) && n@ == permission_name@),
{
    if str_eq(permission_name, SCREEN_RECORDING) {
        Ok(MacosPermissionRequest::ScreenRecording)
    } else if str_eq(permission_name, MICROPHONE) {
        Ok(MacosPermissionRequest::Microphone)
    } else {
        Err(PermissionError::UnknownTarget(String::from_str(permission_name)))
    }
}

/// Whether the microphone prompt still has to be shown: not once access
/// was granted, denied or restricted.
pub fn microphone_request_needed(authorization: MicrophoneAuthorization) -> (b: bool)
    ensures
        b == !(authorization == MicrophoneAuthorization::Authorized || authorization == MicrophoneAuthorization::Denied
            || authorization == MicrophoneAuthorization::Restricted),
{
    match authorization {
        MicrophoneAuthorization::Authorized | MicrophoneAuthorization::Denied | MicrophoneAuthorization::Restricted => false,
        _ => true,
    }
}

pub open spec fn settings_url_spec(name: Seq<char>) -> Option<Seq<char>> {
    if name == SCREEN_RECORDING@ {
        Some("x-apple.systempreferences:com.apple.preference.security?Privacy_ScreenCapture"@)
    } else if name == MICROPHONE@ {
        Some("x-apple.systempreferences:com.apple.preference.security?Privacy_Microphone"@)
    } else {
        None
    }
}

/// The System Settings link for the named permission, or the error for an unknown name.
pub fn open_permission_settings(permission_name: &str) -> (r: Result<&'static str, PermissionError>)
    ensures
        match settings_url_spec(permission_name@) {
            Some(u) => r matches Ok(url) && url@ == u,
            None => r matches Err(PermissionError::UnknownTarget(n)) && n@ == permission_name@,
        },
{
    if str_eq(permission_name, SCREEN_RECORDING) {
        Ok("x-apple.systempreferences:com.apple.preference.security?Privacy_ScreenCapture")
    } else if str_eq(permission_name, MICROPHONE) {
        Ok("x-apple.systempreferences:com.apple.preference.security?Privacy_Microphone")
    } else {
        Err(PermissionError::UnknownTarget(String::from_str(permission_name)))
    }
}

/// The error for a settings opener that exited unsuccessfully.
pub fn open_exit_failure(status: &str) -> (e: PermissionError)
    ensures
        e matches PermissionError::OpenSettingsFailed(m) && m@ == "open exited with status "@ + status@,
{
    let mut m = String::from_str("open exited with status ");
    push_str(&mut m, status);
    PermissionError::OpenSettingsFailed(m)
}

} // verus!
