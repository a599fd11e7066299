//! Windows permission checks, requests and settings links, judged from
//! the capture backend, the audio backend and the discovered inputs.
use vstd::prelude::*;
use vstd::string::*;
use crate::capture::{AudioBackendAvailability, AudioInputKind, AudioInputOption, CaptureBackendAvailability};
use crate::permissions::{check, check_view, check_views, launcher_readiness, launcher_readiness_check,
    PermissionCheck, PermissionCheckView, PermissionError, PermissionStatus};
use crate::text::{push_str, str_eq};

verus! {

pub const DESKTOP_CAPTURE: &'static str = "Desktop capture";
pub const MICROPHONE: &'static str = "Microphone";

pub open spec fn desktop_capture_view(availability: CaptureBackendAvailability) -> PermissionCheckView {
    match availability {
        CaptureBackendAvailability::Available => check_view(DESKTOP_CAPTURE@, PermissionStatus::Granted,
            "Windows native capture is available through Windows.Graphics.Capture and Media Foundation."@),
        CaptureBackendAvailability::Unavailable { reason } => check_view(DESKTOP_CAPTURE@, PermissionStatus::Pending,
            "Windows native desktop capture is not ready in this session. "@ + reason@),
    }
}

/// The desktop capture check from the selected capture backend's availability.
pub fn desktop_capture_check(availability: &CaptureBackendAvailability) -> (c: PermissionCheck)
    ensures
        c@ == desktop_capture_view(*availability),
{
    match availability {
        CaptureBackendAvailability::Available => check(DESKTOP_CAPTURE, PermissionStatus::Granted,
            "Windows native capture is available through Windows.Graphics.Capture and Media Foundation."),
        CaptureBackendAvailability::Unavailable { reason } => {
            let mut g = String::from_str("Windows native desktop capture is not ready in this session. ");
            push_str(&mut g, reason.as_str());
            PermissionCheck { name: String::from_str(DESKTOP_CAPTURE), status: PermissionStatus::Pending, guidance: g }
        },
    }
}

pub open spec fn has_microphone(inputs: Seq<AudioInputOption>) -> bool {
    exists|i: int| 0 <= i < inputs.len() && #[trigger] inputs[i].kind == AudioInputKind::Microphone
}

pub open spec fn microphone_view(has_mic: bool, audio_available: bool) -> PermissionCheckView {
    if has_mic && audio_available {
        check_view(MICROPHONE@, PermissionStatus::Granted,
            "A native Windows microphone route is available for narration on this machine."@)
    } else if !has_mic {
        check_view(MICROPHONE@, PermissionStatus::Pending,
            "No Windows microphone input was detected. You can still record the screen with the mic toggle disabled."@)
    } else {
        check_view(MICROPHONE@, PermissionStatus::Pending,
            "Windows audio routing is not ready in this session. Open Windows microphone privacy settings if narration does not work."@)
    }
}

fn any_microphone(inputs: &[AudioInputOption]) -> (b: bool)
    ensures
        b == has_microphone(inputs@),
{
    let mut i: usize = 0;
    while i < inputs.len()
        invariant
            i <= inputs@.len(),
            forall|k: int| 0 <= k < i ==> #[trigger] inputs@[k].kind != AudioInputKind::Microphone,
        decreases inputs@.len() - i,
    {
        if inputs[i].kind == AudioInputKind::Microphone {
            return true;
        }
        i += 1;
    }
    false
}

/// The microphone check from the discovered inputs and the selected audio
/// backend's availability.
pub fn microphone_check(inputs: &[AudioInputOption], audio_availability: &AudioBackendAvailability) -> (c: PermissionCheck)
    ensures
        c@ == microphone_view(has_microphone(inputs@), *audio_availability is Available),
{
    let has_mic = any_microphone(inputs);
    let available = match audio_availability {
        AudioBackendAvailability::Available => true,
        _ => false,
    };
    if has_mic && available {
        check(MICROPHONE, PermissionStatus::Granted,
            "A native Windows microphone route is available for narration on this machine.")
    } else if !has_mic {
        check(MICROPHONE, PermissionStatus::Pending,
            "No Windows microphone input was detected. You can still record the screen with the mic toggle disabled.")
    } else {
        check(MICROPHONE, PermissionStatus::Pending,
            "Windows audio routing is not ready in this session. Open Windows microphone privacy settings if narration does not work.")
    }
}

/// The Windows checks.
pub fn probe_permissions(
    capture_availability: &CaptureBackendAvailability,
    inputs: &[AudioInputOption],
    audio_availability: &AudioBackendAvailability,
) -> (r: Vec<PermissionCheck>)
    ensures
        check_views(r@) == seq![
            launcher_readiness(),
            desktop_capture_view(*capture_availability),
            microphone_view(has_microphone(inputs@), *audio_availability is Available),
        ],
{
    let mut r: Vec<PermissionCheck> = Vec::new();
    r.push(launcher_readiness_check());
    r.push(desktop_capture_check(capture_availability));
    r.push(microphone_check(inputs, audio_availability));
    r
}

pub const MICROPHONE_SETTINGS_URI: &'static str = "ms-settings:privacy-microphone";
pub const PRIVACY_SETTINGS_URI: &'static str = "ms-settings:privacy";

/// What a request for the named permission opens: the microphone privacy
/// page for the microphone, nothing for desktop capture and the launcher.
pub fn request_permission(permission_name: &str) -> (r: Result<Option<&'static str>, PermissionError>)
    ensures
        permission_name@ == MICROPHONE@ ==> r == Ok::<Option<&'static str>, PermissionError>(Some(MICROPHONE_SETTINGS_URI)),
        permission_name@ != MICROPHONE@ && (permission_name@ == DESKTOP_CAPTURE@ || permission_name@ == "Launcher readiness"@)
            ==> r == Ok::<Option<&'static str>, PermissionError>(None),
        permission_name@ != MICROPHONE@ && permission_name@ != DESKTOP_CAPTURE@ && permission_name@ != "Launcher readiness"@
            ==> (r matches Err(PermissionError::UnknownTarget(n)) && n@ == permission_name@),
{
    if str_eq(permission_name, MICROPHONE) {
        Ok(Some(MICROPHONE_SETTINGS_URI))
    } else if str_eq(permission_name, DESKTOP_CAPTURE) || str_eq(permission_name, "Launcher readiness") {
        Ok(None)
    } else {
        Err(PermissionError::UnknownTarget(String::from_str(permission_name)))
    }
}

/// The settings page for the named permission.
pub fn open_permission_settings(permission_name: &str) -> (r: Result<&'static str, PermissionError>)
    ensures
        permission_name@ == MICROPHONE@ ==> r == Ok::<&'static str, PermissionError>(MICROPHONE_SETTINGS_URI),
        permission_name@ != MICROPHONE@ && permission_name@ == DESKTOP_CAPTURE@ ==> r == Ok::<&'static str, PermissionError>(PRIVACY_SETTINGS_URI),
        permission_name@ != MICROPHONE@ && permission_name@ != DESKTOP_CAPTURE@
            ==> (r matches Err(PermissionError::UnknownTarget(n)) && n@ == permission_name@),
{
    if str_eq(permission_name, MICROPHONE) {
        Ok(MICROPHONE_SETTINGS_URI)
    } else if str_eq(permission_name, DESKTOP_CAPTURE) {
        Ok(PRIVACY_SETTINGS_URI)
    } else {
        Err(PermissionError::UnknownTarget(String::from_str(permission_name)))
    }
}

/// The error for a `start` launcher that exited unsuccessfully.
pub fn open_exit_failure(status: &str) -> (e: PermissionError)
    ensures
        e matches PermissionError::OpenSettingsFailed(m) && m@ == "start exited with status "@ + status@,
{
    let mut m = String::from_str("start exited with status ");
    push_str(&mut m, status);
    PermissionError::OpenSettingsFailed(m)
}

} // verus!
