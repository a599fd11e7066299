//! Permission checks shown before recording, and what a permission request
//! or settings shortcut does on each platform.
use vstd::prelude::*;
use vstd::string::*;
use crate::text::str_eq;
use crate::permissions::macos::{MacosPermissionRequest, MicrophoneAuthorization, microphone_guidance_spec};

pub mod linux;
pub mod macos;
pub mod windows;

verus! {

#[derive(Debug, Clone, Copy, PartialEq, Eq, Structural)]
pub enum PermissionStatus {
    Granted,
    Pending,
    Unsupported,
}

#[derive(Debug, Clone)]
pub struct PermissionCheck {
    pub name: String,
    pub status: PermissionStatus,
    pub guidance: String,
}

pub struct PermissionCheckView {
    pub name: Seq<char>,
    pub status: PermissionStatus,
    pub guidance: Seq<char>,
}

impl View for PermissionCheck {
    type V = PermissionCheckView;

    open spec fn view(&self) -> PermissionCheckView {
        PermissionCheckView { name: self.name@, status: self.status, guidance: self.guidance@ }
    }
}

pub open spec fn check_views(v: Seq<PermissionCheck>) -> Seq<PermissionCheckView> {
    v.map_values(|c: PermissionCheck| c@)
}

pub open spec fn check_view(name: Seq<char>, status: PermissionStatus, guidance: Seq<char>) -> PermissionCheckView {
    PermissionCheckView { name, status, guidance }
}

#[derive(Debug, Clone, PartialEq, Eq)]
pub enum PermissionError {
    UnsupportedPlatform,
    UnknownTarget(String),
    RequestFailed(String),
    OpenSettingsFailed(String),
}

pub fn check(name: &str, status: PermissionStatus, guidance: &str) -> (c: PermissionCheck)
    ensures
        c@ == check_view(name@, status, guidance@),
{
    PermissionCheck { name: String::from_str(name), status, guidance: String::from_str(guidance) }
}

pub open spec fn launcher_readiness() -> PermissionCheckView {
    check_view("Launcher readiness"@, PermissionStatus::Granted,
        "The app shell is ready to react to shortcuts and UI commands."@)
}

/// The check every platform starts with: the launcher is ready.
pub fn launcher_readiness_check() -> (c: PermissionCheck)
    ensures
        c@ == launcher_readiness(),
{
    check("Launcher readiness", PermissionStatus::Granted,
        "The app shell is ready to react to shortcuts and UI commands.")
}

/// The checks shown before any platform probe ran.
pub open spec fn default_permission_views(platform: Seq<char>) -> Seq<PermissionCheckView> {
    if platform == "macos"@ {
        seq![launcher_readiness(),
            check_view("Screen recording"@, PermissionStatus::Pending,
                "Request Screen Recording access in System Settings before the first capture."@),
            check_view("Microphone"@, PermissionStatus::Pending,
                "Ask for microphone access when the user enables narration."@)]
    } else if platform == "windows"@ {
        seq![launcher_readiness(),
            check_view("Graphics capture"@, PermissionStatus::Pending,
                "Validate Windows Graphics Capture and microphone device access on first run."@),
            check_view("Microphone"@, PermissionStatus::Pending,
                "Prompt for microphone permission when audio recording is enabled."@)]
    } else if platform == "linux"@ {
        seq![launcher_readiness(),
            check_view("ScreenCast portal"@, PermissionStatus::Pending,
                "Use the XDG ScreenCast portal for Wayland-friendly screen sharing access."@),
            check_view("Microphone"@, PermissionStatus::Pending,
                "Validate PipeWire and portal access across target desktop environments."@)]
    } else {
        seq![launcher_readiness(),
            check_view("Capture support"@, PermissionStatus::Unsupported,
                "Platform-specific permission probing has not been wired for this target yet."@)]
    }
}

pub fn default_permissions(platform: &str) -> (r: Vec<PermissionCheck>)
    ensures
        check_views(r@) == default_permission_views(platform@),
{
    let mut items: Vec<PermissionCheck> = Vec::new();
    items.push(launcher_readiness_check());
    if str_eq(platform, "macos") {
        items.push(check("Screen recording", PermissionStatus::Pending,
            "Request Screen Recording access in System Settings before the first capture."));
        items.push(check("Microphone", PermissionStatus::Pending,
            "Ask for microphone access when the user enables narration."));
    } else if str_eq(platform, "windows") {
        items.push(check("Graphics capture", PermissionStatus::Pending,
            "Validate Windows Graphics Capture and microphone device access on first run."));
        items.push(check("Microphone", PermissionStatus::Pending,
            "Prompt for microphone permission when audio recording is enabled."));
    } else if str_eq(platform, "linux") {
        items.push(check("ScreenCast portal", PermissionStatus::Pending,
            "Use the XDG ScreenCast portal for Wayland-friendly screen sharing access."));
        items.push(check("Microphone", PermissionStatus::Pending,
            "Validate PipeWire and portal access across target desktop environments."));
    } else {
        items.push(check("Capture support", PermissionStatus::Unsupported,
            "Platform-specific permission probing has not been wired for this target yet."));
    }
    assert(check_views(items@) == default_permission_views(platform@));
    items
}

pub open spec fn is_native_platform(platform: Seq<char>) -> bool {
    platform == "macos"@ || platform == "linux"@ || platform == "windows"@
}

/// The checks for `platform`: the host's own probe results (`native`, given
/// only when this host runs that platform) for the three known platforms,
/// the default checks otherwise.
pub fn probe_permissions(platform: &str, native: Option<Vec<PermissionCheck>>) -> (r: Vec<PermissionCheck>)
    ensures
        match native {
            Some(n) => if is_native_platform(platform@) {
                check_views(r@) == check_views(n@)
            } else {
                check_views(r@) == default_permission_views(platform@)
            },
            None => check_views(r@) == default_permission_views(platform@),
        },
{
    let known = str_eq(platform, "macos") || str_eq(platform, "linux") || str_eq(platform, "windows");
    match native {
        Some(n) => if known { n } else { default_permissions(platform) },
        None => default_permissions(platform),
    }
}

/// What the app carries out for a permission request: the macOS prompt
/// to show, or the Windows settings page to open (none for a permission
/// that needs no prompt).
#[derive(Debug, Clone, Copy, PartialEq, Eq)]
pub enum PermissionRequest {
    Macos(MacosPermissionRequest),
    Windows(Option<&'static str>),
}

/// The request flow for `permission_name` on `platform`, on a host that
/// runs `host_platform`: only macOS and Windows have one, and only on a
/// host of that platform.
pub fn request_permission(platform: &str, host_platform: &str, permission_name: &str) -> (r: Result<PermissionRequest, PermissionError>)
    ensures
        platform@ == "macos"@ && host_platform@ == "macos"@ ==> {
            &&& permission_name@ == macos::SCREEN_RECORDING@ ==> r == Ok::<PermissionRequest, PermissionError>(PermissionRequest::Macos(MacosPermissionRequest::ScreenRecording))
            &&& permission_name@ != macos::SCREEN_RECORDING@ && permission_name@ == macos::MICROPHONE@
                ==> r == Ok::<PermissionRequest, PermissionError>(PermissionRequest::Macos(MacosPermissionRequest::Microphone))
            &&& permission_name@ != macos::SCREEN_RECORDING@ && permission_name@ != macos::MICROPHONE@
                ==> (r matches Err(PermissionError::UnknownTarget(n)) && n@ == permission_name@)
        },
        platform@ == "windows"@ && host_platform@ == "windows"@ ==> {
            &&& permission_name@ == windows::MICROPHONE@
                ==> r == Ok::<PermissionRequest, PermissionError>(PermissionRequest::Windows(Some(windows::MICROPHONE_SETTINGS_URI)))
            &&& permission_name@ != windows::MICROPHONE@ && (permission_name@ == windows::DESKTOP_CAPTURE@ || permission_name@ == "Launcher readiness"@)
                ==> r == Ok::<PermissionRequest, PermissionError>(PermissionRequest::Windows(None))
            &&& permission_name@ != windows::MICROPHONE@ && permission_name@ != windows::DESKTOP_CAPTURE@ && permission_name@ != "Launcher readiness"@
                ==> (r matches Err(PermissionError::UnknownTarget(n)) && n@ == permission_name@)
        },
        !(platform@ == "macos"@ && host_platform@ == "macos"@) && !(platform@ == "windows"@ && host_platform@ == "windows"@)
            ==> r matches Err(PermissionError::UnsupportedPlatform),
{
    proof {
        reveal_strlit("macos");
        reveal_strlit("windows");
        assert("macos"@.len() != "windows"@.len());
    }
    if str_eq(platform, "macos") {
        if str_eq(host_platform, "macos") {
            match macos::request_permission(permission_name) {
                Ok(q) => Ok(PermissionRequest::Macos(q)),
                Err(e) => Err(e),
            }
        } else {
            Err(PermissionError::UnsupportedPlatform)
        }
    } else if str_eq(platform, "windows") {
        if str_eq(host_platform, "windows") {
            match windows::request_permission(permission_name) {
                Ok(q) => Ok(PermissionRequest::Windows(q)),
                Err(e) => Err(e),
            }
        } else {
            Err(PermissionError::UnsupportedPlatform)
        }
    } else {
        Err(PermissionError::UnsupportedPlatform)
    }
}

/// The settings page to open for `permission_name` on `platform`, on a
/// host that runs `host_platform`.
pub fn open_permission_settings(platform: &str, host_platform: &str, permission_name: &str) -> (r: Result<&'static str, PermissionError>)
    ensures
        platform@ == "macos"@ && host_platform@ == "macos"@ ==> match macos::settings_url_spec(permission_name@) {
            Some(u) => r matches Ok(url) && url@ == u,
            None => r matches Err(PermissionError::UnknownTarget(n)) && n@ == permission_name@,
        },
        platform@ == "windows"@ && host_platform@ == "windows"@ ==> {
            &&& permission_name@ == windows::MICROPHONE@ ==> r == Ok::<&'static str, PermissionError>(windows::MICROPHONE_SETTINGS_URI)
            &&& permission_name@ != windows::MICROPHONE@ && permission_name@ == windows::DESKTOP_CAPTURE@
                ==> r == Ok::<&'static str, PermissionError>(windows::PRIVACY_SETTINGS_URI)
            &&& permission_name@ != windows::MICROPHONE@ && permission_name@ != windows::DESKTOP_CAPTURE@
                ==> (r matches Err(PermissionError::UnknownTarget(n)) && n@ == permission_name@)
        },
        !(platform@ == "macos"@ && host_platform@ == "macos"@) && !(platform@ == "windows"@ && host_platform@ == "windows"@)
            ==> r matches Err(PermissionError::UnsupportedPlatform),
{
    proof {
        reveal_strlit("macos");
        reveal_strlit("windows");
        assert("macos"@.len() != "windows"@.len());
    }
    if str_eq(platform, "macos") && str_eq(host_platform, "macos") {
        macos::open_permission_settings(permission_name)
    } else if str_eq(platform, "windows") && str_eq(host_platform, "windows") {
        windows::open_permission_settings(permission_name)
    } else {
        Err(PermissionError::UnsupportedPlatform)
    }
}

/// Whether microphone access is blocked on `platform`; `authorization` is
/// what AVFoundation reports, given only on a macOS host.
pub fn microphone_permission_blocked(platform: &str, authorization: Option<MicrophoneAuthorization>) -> (b: bool)
    ensures
        b == (platform@ == "macos"@ && (authorization == Some(MicrophoneAuthorization::Denied)
            || authorization == Some(MicrophoneAuthorization::Restricted))),
{
    if str_eq(platform, "macos") {
        match authorization {
            Some(a) => macos::microphone_permission_blocked(a),
            None => false,
        }
    } else {
        false
    }
}

/// The microphone guidance for `platform`; `authorization` is what
/// AVFoundation reports, given only on a macOS host.
pub fn microphone_permission_guidance(platform: &str, authorization: Option<MicrophoneAuthorization>) -> (r: Option<String>)
    ensures
        match r {
            Some(g) => platform@ == "macos"@ && (authorization matches Some(a) && g@ == microphone_guidance_spec(a)),
            None => !(platform@ == "macos"@ && authorization is Some),
        },
{
    if str_eq(platform, "macos") {
        match authorization {
            Some(a) => Some(macos::microphone_guidance(a)),
            None => None,
        }
    } else {
        None
    }
}

} // verus!
