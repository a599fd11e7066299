//! Linux capture planning: what kind of desktop session runs, which
//! capture lane suits it, the monitors and windows that can be recorded,
//! and what the launcher is told about them.
use vstd::prelude::*;
use vstd::string::*;
use crate::capture::{opt_view, opt_sview, capture_reason, audio_reason, encoder_reason, selection_index, selection_note,
    is_forced, req_text, capture_ids, capture_available, audio_ids, audio_available, encoder_ids, encoder_available,
    select_backend, lemma_single_selection, lemma_selection_in_range, explain_capture_backend_selection, explain_audio_backend_selection, explain_encoder_backend_selection,
    capture_backend_runtime_snapshot, audio_backend_runtime_snapshot, encoder_backend_runtime_snapshot,
    CaptureBackendAvailability, CaptureBackendDescriptor, CaptureBackendRuntimeReport, CaptureBackendRuntimeSnapshot,
    CaptureBackendStatus, AudioBackendStatus, AudioBackendRuntimeSnapshot, EncoderBackendStatus,
    EncoderBackendRuntimeSnapshot};
use crate::text::{chars_of, push_str, string_of, trim, trim_chars};

pub mod audio;
pub mod controller;
pub mod encoder;
pub mod encoding;
pub mod negotiation;
pub mod pipeline;
pub mod portal;
pub mod runtime;
pub mod targets;

verus! {

/// The kind of desktop session the recorder runs in.
#[derive(Debug, Clone, PartialEq, Eq)]
pub enum LinuxDesktopSession {
    X11 { display: String },
    WaylandWithX11 { wayland_display: String, x11_display: String },
    WaylandOnly { wayland_display: String },
    Headless,
}

pub enum SessionView {
    X11(Seq<char>),
    WaylandWithX11(Seq<char>, Seq<char>),
    WaylandOnly(Seq<char>),
    Headless,
}

pub open spec fn session_view(s: LinuxDesktopSession) -> SessionView {
    match s {
        LinuxDesktopSession::X11 { display } => SessionView::X11(display@),
        LinuxDesktopSession::WaylandWithX11 { wayland_display, x11_display } =>
            SessionView::WaylandWithX11(wayland_display@, x11_display@),
        LinuxDesktopSession::WaylandOnly { wayland_display } => SessionView::WaylandOnly(wayland_display@),
        LinuxDesktopSession::Headless => SessionView::Headless,
    }
}

/// A display variable as the session classifier reads it: trimmed, and
/// absent when blank.
pub open spec fn display_value(v: Option<Seq<char>>) -> Option<Seq<char>> {
    match v {
        Some(s) => if trim(s).len() > 0 { Some(trim(s)) } else { None },
        None => None,
    }
}

pub open spec fn classify_spec(display: Option<Seq<char>>, wayland: Option<Seq<char>>) -> SessionView {
    match (display_value(display), display_value(wayland)) {
        (Some(d), Some(w)) => SessionView::WaylandWithX11(w, d),
        (Some(d), None) => SessionView::X11(d),
        (None, Some(w)) => SessionView::WaylandOnly(w),
        (None, None) => SessionView::Headless,
    }
}

fn display_string(v: Option<&str>) -> (r: Option<String>)
    ensures
        match r {
            Some(s) => display_value(opt_view(v)) == Some(s@),
            None => display_value(opt_view(v)) is None,
        },
{
    match v {
        Some(s) => {
            let t = trim_chars(&chars_of(s));
            if t.len() > 0 { Some(string_of(&t)) } else { None }
        },
        None => None,
    }
}

/// The session from the raw `DISPLAY` and `WAYLAND_DISPLAY` values.
pub fn classify_desktop_session(display: Option<&str>, wayland_display: Option<&str>) -> (s: LinuxDesktopSession)
    ensures
        session_view(s) == classify_spec(opt_view(display), opt_view(wayland_display)),
{
    match (display_string(display), display_string(wayland_display)) {
        (Some(d), Some(w)) => LinuxDesktopSession::WaylandWithX11 { wayland_display: w, x11_display: d },
        (Some(d), None) => LinuxDesktopSession::X11 { display: d },
        (None, Some(w)) => LinuxDesktopSession::WaylandOnly { wayland_display: w },
        (None, None) => LinuxDesktopSession::Headless,
    }
}

pub open spec fn capture_guidance_spec(s: SessionView) -> Seq<char> {
    match s {
        SessionView::WaylandOnly(w) => "Wayland session "@ + w
            + " was detected without an X11 DISPLAY. The recorder now tries a native ScreenCast portal plus GStreamer PipeWire path, but it still depends on portal approval, PipeWire, and the required GStreamer plugins being available."@,
        SessionView::WaylandWithX11(w, d) => "Wayland session "@ + w + " is active and also exposes XWayland display "@ + d
            + ". The recorder prefers the native ScreenCast portal plus GStreamer PipeWire path, but it can still fall back to the native X11 GStreamer lane through XWayland."@,
        SessionView::Headless =>
            "No desktop display was detected. The Linux backend needs either a Wayland ScreenCast portal session or an X11/XWayland DISPLAY to start recording."@,
        SessionView::X11(_) => "Linux capture could not resolve the current X11 display."@,
    }
}

impl LinuxDesktopSession {
    /// What the user is told about capturing in this session.
    pub fn capture_guidance(&self) -> (r: String)
        ensures
            r@ == capture_guidance_spec(session_view(*self)),
    {
        match self {
            LinuxDesktopSession::WaylandOnly { wayland_display } => {
                let mut r = String::from_str("Wayland session ");
                push_str(&mut r, wayland_display.as_str());
                push_str(&mut r, " was detected without an X11 DISPLAY. The recorder now tries a native ScreenCast portal plus GStreamer PipeWire path, but it still depends on portal approval, PipeWire, and the required GStreamer plugins being available.");
                r
            },
            LinuxDesktopSession::WaylandWithX11 { wayland_display, x11_display } => {
                let mut r = String::from_str("Wayland session ");
                push_str(&mut r, wayland_display.as_str());
                push_str(&mut r, " is active and also exposes XWayland display ");
                push_str(&mut r, x11_display.as_str());
                push_str(&mut r, ". The recorder prefers the native ScreenCast portal plus GStreamer PipeWire path, but it can still fall back to the native X11 GStreamer lane through XWayland.");
                r
            },
            LinuxDesktopSession::Headless => String::from_str(
                "No desktop display was detected. The Linux backend needs either a Wayland ScreenCast portal session or an X11/XWayland DISPLAY to start recording."),
            LinuxDesktopSession::X11 { .. } => String::from_str("Linux capture could not resolve the current X11 display."),
        }
    }
}

pub open spec fn contains_dot(s: Seq<char>) -> bool {
    exists|i: int| 0 <= i < s.len() && s[i] == '.'
}

/// An X11 display name with a screen number (`:1` becomes `:1.0`).
pub open spec fn normalized_display(d: Seq<char>) -> Seq<char> {
    if contains_dot(d) { d } else { d + ".0"@ }
}

pub fn normalize_display(display: &str) -> (r: String)
    ensures
        r@ == normalized_display(display@),
{
    let c = chars_of(display);
    let mut i: usize = 0;
    while i < c.len()
        invariant
            i <= c@.len(),
            c@ == display@,
            forall|k: int| 0 <= k < i ==> c@[k] != '.',
        decreases c@.len() - i,
    {
        if c[i] == '.' {
            return String::from_str(display);
        }
        i += 1;
    }
    let mut r = String::from_str(display);
    push_str(&mut r, ".0");
    r
}

/// Whether the X11 GStreamer elements are installed.
#[derive(Debug, Clone, Copy, PartialEq, Eq, Structural)]
pub enum X11GstreamerSupport {
    Available,
    Missing,
}

/// Whether the X11 lane has what it needs: the `ximagesrc` and `mp4mux`
/// elements and an H.264 encoder for the default preset.
pub fn x11_gstreamer_support(ximagesrc: bool, mp4mux: bool, encoders: encoder::GstreamerEncoderSupport) -> (r: X11GstreamerSupport)
    ensures
        r == (if ximagesrc && mp4mux && encoder::encoder_plan_spec("1080p / 30 fps"@, encoders) is Some {
            X11GstreamerSupport::Available
        } else {
            X11GstreamerSupport::Missing
        }),
{
    if ximagesrc && mp4mux {
        match encoder::encoder_plan_for_quality("1080p / 30 fps", encoders) {
            Some(_) => X11GstreamerSupport::Available,
            None => X11GstreamerSupport::Missing,
        }
    } else {
        X11GstreamerSupport::Missing
    }
}

pub open spec fn portal_availability_spec(
    s: SessionView,
    probe: portal::ScreenCastPortalProbe,
    gst: portal::PipeWireGstreamerSupport,
) -> Option<Seq<char>> {
    match s {
        SessionView::WaylandOnly(w) => match probe {
            portal::ScreenCastPortalProbe::Available(_) => match gst {
                portal::PipeWireGstreamerSupport::Available => None,
                portal::PipeWireGstreamerSupport::Missing => Some("Wayland session "@ + w
                    + " can reach the ScreenCast portal, but the required GStreamer PipeWire plugins are missing."@),
                portal::PipeWireGstreamerSupport::Unknown => Some("Wayland session "@ + w
                    + " can reach the ScreenCast portal, but GStreamer/PipeWire runtime support could not be confirmed."@),
            },
            portal::ScreenCastPortalProbe::MissingPortal => Some("Wayland session "@ + w
                + " has no reachable ScreenCast portal."@),
            portal::ScreenCastPortalProbe::MissingDbusTools => Some("Wayland session "@ + w
                + " could not inspect portal readiness because neither gdbus nor busctl is available."@),
            portal::ScreenCastPortalProbe::Unreachable => Some("Wayland session "@ + w
                + " appears to have a portal installed, but the ScreenCast interface could not be reached on the session bus."@),
        },
        SessionView::WaylandWithX11(_, _) => Some(
            "Wayland sessions with XWayland should use the native X11 GStreamer lane. The pure portal/PipeWire lane is reserved for Wayland-only sessions."@),
        SessionView::X11(_) => Some(
            "The Linux ScreenCast portal / PipeWire backend is reserved for Wayland sessions. This session can use the native X11 recorder lane."@),
        SessionView::Headless => Some(capture_guidance_spec(s)),
    }
}

fn unavailable(prefix: &str, middle: &str, suffix: &str) -> (a: CaptureBackendAvailability)
    ensures
        capture_reason(a) == Some(prefix@ + middle@ + suffix@),
{
    let mut r = String::from_str(prefix);
    push_str(&mut r, middle);
    push_str(&mut r, suffix);
    CaptureBackendAvailability::Unavailable { reason: r }
}

/// Whether the ScreenCast portal / PipeWire lane can record in this
/// session, given what the portal probe and the GStreamer probe found.
pub fn portal_backend_availability_for(
    session: &LinuxDesktopSession,
    portal_probe: portal::ScreenCastPortalProbe,
    gstreamer_support: portal::PipeWireGstreamerSupport,
) -> (a: CaptureBackendAvailability)
    ensures
        capture_reason(a) == portal_availability_spec(session_view(*session), portal_probe, gstreamer_support),
{
    match session {
        LinuxDesktopSession::WaylandOnly { wayland_display } => {
            let w = wayland_display.as_str();
            match portal_probe {
                portal::ScreenCastPortalProbe::Available(_) => match gstreamer_support {
                    portal::PipeWireGstreamerSupport::Available => CaptureBackendAvailability::Available,
                    portal::PipeWireGstreamerSupport::Missing => unavailable("Wayland session ", w,
                        " can reach the ScreenCast portal, but the required GStreamer PipeWire plugins are missing."),
                    portal::PipeWireGstreamerSupport::Unknown => unavailable("Wayland session ", w,
                        " can reach the ScreenCast portal, but GStreamer/PipeWire runtime support could not be confirmed."),
                },
                portal::ScreenCastPortalProbe::MissingPortal => unavailable("Wayland session ", w,
                    " has no reachable ScreenCast portal."),
                portal::ScreenCastPortalProbe::MissingDbusTools => unavailable("Wayland session ", w,
                    " could not inspect portal readiness because neither gdbus nor busctl is available."),
                portal::ScreenCastPortalProbe::Unreachable => unavailable("Wayland session ", w,
                    " appears to have a portal installed, but the ScreenCast interface could not be reached on the session bus."),
            }
        },
        LinuxDesktopSession::WaylandWithX11 { .. } => CaptureBackendAvailability::Unavailable {
            reason: String::from_str("Wayland sessions with XWayland should use the native X11 GStreamer lane. The pure portal/PipeWire lane is reserved for Wayland-only sessions."),
        },
        LinuxDesktopSession::X11 { .. } => CaptureBackendAvailability::Unavailable {
            reason: String::from_str("The Linux ScreenCast portal / PipeWire backend is reserved for Wayland sessions. This session can use the native X11 recorder lane."),
        },
        LinuxDesktopSession::Headless => CaptureBackendAvailability::Unavailable { reason: session.capture_guidance() },
    }
}

pub open spec fn x11_availability_spec(s: SessionView, support: X11GstreamerSupport) -> Option<Seq<char>> {
    match s {
        SessionView::X11(_) | SessionView::WaylandWithX11(_, _) => match support {
            X11GstreamerSupport::Available => None,
            X11GstreamerSupport::Missing => Some(
                "X11 native capture needs `ximagesrc`, `mp4mux`, and at least one usable native H.264 GStreamer encoder."@),
        },
        SessionView::WaylandOnly(_) => Some("Pure Wayland sessions do not use the X11 GStreamer lane."@),
        SessionView::Headless => Some(capture_guidance_spec(s)),
    }
}

/// Whether the X11 GStreamer lane can record in this session.
pub fn x11_gstreamer_backend_availability_for(session: &LinuxDesktopSession, support: X11GstreamerSupport) -> (a: CaptureBackendAvailability)
    ensures
        capture_reason(a) == x11_availability_spec(session_view(*session), support),
{
    match session {
        LinuxDesktopSession::X11 { .. } | LinuxDesktopSession::WaylandWithX11 { .. } => match support {
            X11GstreamerSupport::Available => CaptureBackendAvailability::Available,
            X11GstreamerSupport::Missing => CaptureBackendAvailability::Unavailable {
                reason: String::from_str("X11 native capture needs `ximagesrc`, `mp4mux`, and at least one usable native H.264 GStreamer encoder."),
            },
        },
        LinuxDesktopSession::WaylandOnly { .. } => CaptureBackendAvailability::Unavailable {
            reason: String::from_str("Pure Wayland sessions do not use the X11 GStreamer lane."),
        },
        LinuxDesktopSession::Headless => CaptureBackendAvailability::Unavailable { reason: session.capture_guidance() },
    }
}

pub open spec fn custom_region_support_spec(s: SessionView) -> (bool, Seq<char>) {
    match s {
        SessionView::X11(_) => (true, "Custom region capture is available through the native X11 path."@),
        SessionView::WaylandWithX11(_, _) => (true,
            "Custom region capture is available through the XWayland-backed X11 recorder lane."@),
        SessionView::WaylandOnly(_) => (false,
            "Pure Wayland recording currently uses the ScreenCast portal chooser, so launcher-defined custom regions are not wired in yet."@),
        SessionView::Headless => (false, "Custom region capture needs an active desktop session."@),
    }
}

/// Whether a launcher-defined region can be recorded in this session, and why.
pub fn custom_region_support_summary(session: &LinuxDesktopSession) -> (r: (bool, String))
    ensures
        (r.0, r.1@) == custom_region_support_spec(session_view(*session)),
{
    match session {
        LinuxDesktopSession::X11 { .. } => (true,
            String::from_str("Custom region capture is available through the native X11 path.")),
        LinuxDesktopSession::WaylandWithX11 { .. } => (true,
            String::from_str("Custom region capture is available through the XWayland-backed X11 recorder lane.")),
        LinuxDesktopSession::WaylandOnly { .. } => (false,
            String::from_str("Pure Wayland recording currently uses the ScreenCast portal chooser, so launcher-defined custom regions are not wired in yet.")),
        LinuxDesktopSession::Headless => (false, String::from_str("Custom region capture needs an active desktop session.")),
    }
}

pub open spec fn system_audio_support_spec(s: SessionView, monitor_error: Option<Seq<char>>) -> (bool, Seq<char>) {
    match s {
        SessionView::X11(_) | SessionView::WaylandWithX11(_, _) => match monitor_error {
            None => (true, "A PulseAudio/PipeWire monitor source is available for system-audio mixing."@),
            Some(e) => (false, "Linux could not find a usable PulseAudio/PipeWire monitor source. "@ + e),
        },
        SessionView::WaylandOnly(_) => (false,
            "Pure Wayland recording currently uses the ScreenCast portal + GStreamer path, and system-audio mixing is not wired into that runtime yet."@),
        SessionView::Headless => (false, "System-audio mixing needs an active desktop session."@),
    }
}

/// Whether system audio can be mixed in this session. `monitor_error` is
/// the message of a failed monitor-source lookup, `None` when one was found.
pub fn system_audio_support_summary(session: &LinuxDesktopSession, monitor_error: Option<&str>) -> (r: (bool, String))
    ensures
        (r.0, r.1@) == system_audio_support_spec(session_view(*session), opt_view(monitor_error)),
{
    match session {
        LinuxDesktopSession::X11 { .. } | LinuxDesktopSession::WaylandWithX11 { .. } => match monitor_error {
            None => (true, String::from_str("A PulseAudio/PipeWire monitor source is available for system-audio mixing.")),
            Some(e) => {
                let mut m = String::from_str("Linux could not find a usable PulseAudio/PipeWire monitor source. ");
                push_str(&mut m, e);
                (false, m)
            },
        },
        LinuxDesktopSession::WaylandOnly { .. } => (false,
            String::from_str("Pure Wayland recording currently uses the ScreenCast portal + GStreamer path, and system-audio mixing is not wired into that runtime yet.")),
        LinuxDesktopSession::Headless => (false, String::from_str("System-audio mixing needs an active desktop session.")),
    }
}

/// The ScreenCast portal / PipeWire capture lane.
pub struct PortalPipewireLinuxBackend;

/// The X11 GStreamer capture lane.
pub struct GstreamerX11LinuxBackend;

impl PortalPipewireLinuxBackend {
    pub fn descriptor(&self) -> (d: CaptureBackendDescriptor)
        ensures
            d.id@ == "linux-portal-pipewire"@,
            d.label@ == "Linux ScreenCast Portal / PipeWire"@,
    {
        CaptureBackendDescriptor { id: "linux-portal-pipewire", label: "Linux ScreenCast Portal / PipeWire" }
    }

    pub fn runtime_report(&self) -> (r: CaptureBackendRuntimeReport)
        ensures
            r.summary matches Some(s) && s@ == "Pure Wayland capture can use the ScreenCast portal and PipeWire through the GStreamer-native path."@,
            r.preferred_target_label matches Some(l) && l@ == "Full desktop"@,
    {
        CaptureBackendRuntimeReport {
            summary: Some(String::from_str("Pure Wayland capture can use the ScreenCast portal and PipeWire through the GStreamer-native path.")),
            preferred_target_label: Some(String::from_str("Full desktop")),
        }
    }
}

impl GstreamerX11LinuxBackend {
    pub fn descriptor(&self) -> (d: CaptureBackendDescriptor)
        ensures
            d.id@ == "linux-gstreamer-x11-capture"@,
            d.label@ == "Linux GStreamer X11 recorder"@,
    {
        CaptureBackendDescriptor { id: "linux-gstreamer-x11-capture", label: "Linux GStreamer X11 recorder" }
    }

    pub fn runtime_report(&self) -> (r: CaptureBackendRuntimeReport)
        ensures
            r.summary matches Some(s) && s@ == "X11 and XWayland sessions can use the Linux native GStreamer ximagesrc path."@,
            r.preferred_target_label matches Some(l) && l@ == "Full desktop"@,
    {
        CaptureBackendRuntimeReport {
            summary: Some(String::from_str("X11 and XWayland sessions can use the Linux native GStreamer ximagesrc path.")),
            preferred_target_label: Some(String::from_str("Full desktop")),
        }
    }
}

// ---------------------------------------------------------------------------
// The platform's backend registries

/// What probing the session found: the display variables, the portal,
/// the GStreamer elements and encoders, and audio discovery.
#[derive(Debug, Clone)]
pub struct LinuxRuntimeProbe {
    pub display: Option<String>,
    pub wayland_display: Option<String>,
    pub portal: portal::ScreenCastPortalProbe,
    pub pipewire_gstreamer: portal::PipeWireGstreamerSupport,
    pub x11_gstreamer: X11GstreamerSupport,
    pub encoders: encoder::GstreamerEncoderSupport,
    pub pipewiresrc: bool,
    pub ximagesrc: bool,
    pub mp4mux: bool,
    pub audio_report: Option<audio::LinuxAudioRuntimeReport>,
}

pub open spec fn probe_session(p: LinuxRuntimeProbe) -> SessionView {
    classify_spec(opt_sview(p.display), opt_sview(p.wayland_display))
}

/// The session the probe describes.
pub fn current_desktop_session(probe: &LinuxRuntimeProbe) -> (s: LinuxDesktopSession)
    ensures
        session_view(s) == probe_session(*probe),
{
    let d: Option<&str> = match &probe.display {
        Some(x) => Some(x.as_str()),
        None => None,
    };
    let w: Option<&str> = match &probe.wayland_display {
        Some(x) => Some(x.as_str()),
        None => None,
    };
    classify_desktop_session(d, w)
}

pub open spec fn capture_id_list() -> Seq<Seq<char>> {
    seq!["linux-portal-pipewire"@, "linux-gstreamer-x11-capture"@]
}

pub open spec fn capture_label_list() -> Seq<Seq<char>> {
    seq!["Linux ScreenCast Portal / PipeWire"@, "Linux GStreamer X11 recorder"@]
}

/// Why each capture lane is unavailable (`None` when it is available).
pub open spec fn capture_reasons(p: LinuxRuntimeProbe) -> Seq<Option<Seq<char>>> {
    seq![
        portal_availability_spec(probe_session(p), p.portal, p.pipewire_gstreamer),
        x11_availability_spec(probe_session(p), p.x11_gstreamer),
    ]
}

pub open spec fn available_of(reasons: Seq<Option<Seq<char>>>) -> Seq<bool> {
    reasons.map_values(|r: Option<Seq<char>>| r is None)
}

/// The capture lanes in order of preference, with their availability.
pub fn backend_statuses(probe: &LinuxRuntimeProbe) -> (r: Vec<CaptureBackendStatus>)
    ensures
        capture_ids(r@) == capture_id_list(),
        r@.len() == 2,
        forall|i: int| 0 <= i < 2 ==> #[trigger] r@[i].descriptor.label@ == capture_label_list()[i],
        forall|i: int| 0 <= i < 2 ==> capture_reason(#[trigger] r@[i].availability) == capture_reasons(*probe)[i],
        capture_available(r@) == available_of(capture_reasons(*probe)),
{
    let session = current_desktop_session(probe);
    let portal_backend = PortalPipewireLinuxBackend;
    let x11_backend = GstreamerX11LinuxBackend;
    let a = CaptureBackendStatus {
        descriptor: portal_backend.descriptor(),
        availability: portal_backend_availability_for(&session, probe.portal, probe.pipewire_gstreamer),
    };
    let b = CaptureBackendStatus {
        descriptor: x11_backend.descriptor(),
        availability: x11_gstreamer_backend_availability_for(&session, probe.x11_gstreamer),
    };
    let mut r: Vec<CaptureBackendStatus> = Vec::new();
    r.push(a);
    r.push(b);
    assert(capture_ids(r@) == capture_id_list());
    assert(capture_available(r@) == available_of(capture_reasons(*probe)));
    r
}

pub open spec fn capture_choice(p: LinuxRuntimeProbe, requested: Option<&str>) -> int {
    selection_index(capture_id_list(), available_of(capture_reasons(p)), opt_view(requested))
}

/// The capture lane the registry picks.
pub fn selected_backend(probe: &LinuxRuntimeProbe, requested_id: Option<&str>) -> (d: CaptureBackendDescriptor)
    ensures
        d.id@ == capture_id_list()[capture_choice(*probe, requested_id)],
        d.label@ == capture_label_list()[capture_choice(*probe, requested_id)],
{
    let statuses = backend_statuses(probe);
    let k = select_backend(statuses.as_slice(), requested_id);
    assert(capture_ids(statuses@)[k as int] == statuses@[k as int].descriptor.id@);
    assert(statuses@[k as int].descriptor.label@ == capture_label_list()[k as int]);
    statuses[k].descriptor
}

/// Why the registry picked its capture lane.
pub fn capture_selection_note(probe: &LinuxRuntimeProbe, requested_id: Option<&str>) -> (r: String)
    ensures
        ({
            let k = capture_choice(*probe, requested_id);
            r@ == selection_note("Capture"@, "RECORD_SCREEN_CAPTURE_BACKEND"@, is_forced(requested_id, capture_id_list()[k]),
                req_text(requested_id), capture_label_list()[k], capture_reasons(*probe)[k])
        }),
{
    let statuses = backend_statuses(probe);
    proof { lemma_selection_in_range(capture_ids(statuses@), capture_available(statuses@), opt_view(requested_id)); }
    let ghost k = capture_choice(*probe, requested_id);
    assert(capture_ids(statuses@)[k] == statuses@[k].descriptor.id@);
    assert(statuses@[k].descriptor.label@ == capture_label_list()[k]);
    assert(capture_reason(statuses@[k].availability) == capture_reasons(*probe)[k]);
    explain_capture_backend_selection(statuses.as_slice(), requested_id).note
}

/// The capture registry's runtime snapshot, with the picked lane's report.
pub fn capture_runtime_snapshot(probe: &LinuxRuntimeProbe, requested_id: Option<&str>) -> (r: CaptureBackendRuntimeSnapshot)
    ensures
        ({
            let k = capture_choice(*probe, requested_id);
            &&& r.path@ == capture_label_list()[k]
            &&& r.selection_note@ == selection_note("Capture"@, "RECORD_SCREEN_CAPTURE_BACKEND"@,
                is_forced(requested_id, capture_id_list()[k]), req_text(requested_id), capture_label_list()[k],
                capture_reasons(*probe)[k])
            &&& k == 0 ==> opt_sview(r.summary) == Some("Pure Wayland capture can use the ScreenCast portal and PipeWire through the GStreamer-native path."@)
            &&& k == 1 ==> opt_sview(r.summary) == Some("X11 and XWayland sessions can use the Linux native GStreamer ximagesrc path."@)
            &&& opt_sview(r.preferred_target_label) == Some("Full desktop"@)
        }),
{
    let statuses = backend_statuses(probe);
    let k = select_backend(statuses.as_slice(), requested_id);
    assert(capture_ids(statuses@)[k as int] == statuses@[k as int].descriptor.id@);
    assert(statuses@[k as int].descriptor.label@ == capture_label_list()[k as int]);
    assert(capture_reason(statuses@[k as int].availability) == capture_reasons(*probe)[k as int]);
    let report = if k == 0 { PortalPipewireLinuxBackend.runtime_report() } else { GstreamerX11LinuxBackend.runtime_report() };
    capture_backend_runtime_snapshot(statuses.as_slice(), requested_id, report)
}

/// The audio registry: the PipeWire lane alone.
pub fn audio_backend_statuses(probe: &LinuxRuntimeProbe) -> (r: Vec<AudioBackendStatus>)
    ensures
        r@.len() == 1,
        r@[0].descriptor.id@ == "linux-pipewire-audio"@,
        r@[0].descriptor.label@ == "Linux PipeWire audio"@,
        audio_reason(r@[0].availability) == audio::audio_availability_spec(probe_session(*probe), probe.audio_report is Some),
{
    let session = current_desktop_session(probe);
    let b = audio::backend();
    let has_runtime = match &probe.audio_report {
        Some(rep) => audio::runtime_summary(Some(rep)).is_some(),
        None => false,
    };
    let st = AudioBackendStatus { descriptor: b.descriptor(), availability: audio::availability_for(&session, has_runtime) };
    let mut r: Vec<AudioBackendStatus> = Vec::new();
    r.push(st);
    r
}

/// The audio lane the registry picks (there is one).
pub fn selected_audio_backend(probe: &LinuxRuntimeProbe) -> (d: crate::capture::AudioBackendDescriptor)
    ensures
        d.id@ == "linux-pipewire-audio"@,
        d.label@ == "Linux PipeWire audio"@,
{
    let statuses = audio_backend_statuses(probe);
    statuses[0].descriptor
}

/// Why the audio registry picked its lane.
pub fn audio_selection_note(probe: &LinuxRuntimeProbe, requested_id: Option<&str>) -> (r: String)
    ensures
        r@ == selection_note("Audio"@, "RECORD_SCREEN_AUDIO_BACKEND"@, is_forced(requested_id, "linux-pipewire-audio"@),
            req_text(requested_id), "Linux PipeWire audio"@,
            audio::audio_availability_spec(probe_session(*probe), probe.audio_report is Some)),
{
    let statuses = audio_backend_statuses(probe);
    proof { lemma_single_selection(audio_ids(statuses@), audio_available(statuses@), opt_view(requested_id)); }
    assert(audio_ids(statuses@)[0] == statuses@[0].descriptor.id@);
    let e = explain_audio_backend_selection(statuses.as_slice(), requested_id);
    e.note
}

/// The audio registry's runtime snapshot.
pub fn audio_runtime_snapshot(probe: &LinuxRuntimeProbe, requested_id: Option<&str>) -> (r: AudioBackendRuntimeSnapshot)
    ensures
        r.path@ == "Linux PipeWire audio"@,
        r.selection_note@ == selection_note("Audio"@, "RECORD_SCREEN_AUDIO_BACKEND"@, is_forced(requested_id, "linux-pipewire-audio"@),
            req_text(requested_id), "Linux PipeWire audio"@,
            audio::audio_availability_spec(probe_session(*probe), probe.audio_report is Some)),
{
    let statuses = audio_backend_statuses(probe);
    let report = match &probe.audio_report {
        Some(rep) => audio::backend().runtime_report(Some(rep)),
        None => audio::backend().runtime_report(None),
    };
    proof { lemma_single_selection(audio_ids(statuses@), audio_available(statuses@), opt_view(requested_id)); }
    assert(audio_ids(statuses@)[0] == statuses@[0].descriptor.id@);
    audio_backend_runtime_snapshot(statuses.as_slice(), requested_id, report)
}

/// The encoder registry: the GStreamer lane alone.
pub fn encoder_backend_statuses(probe: &LinuxRuntimeProbe) -> (r: Vec<EncoderBackendStatus>)
    ensures
        r@.len() == 1,
        r@[0].descriptor.id@ == "linux-gstreamer-encoder"@,
        r@[0].descriptor.label@ == "Linux GStreamer encoder"@,
        encoder_reason(r@[0].availability) == encoder::encoder_availability_spec(probe_session(*probe),
            probe.pipewire_gstreamer, probe.ximagesrc, probe.mp4mux, probe.encoders),
{
    let session = current_desktop_session(probe);
    let b = encoder::backend();
    let st = EncoderBackendStatus {
        descriptor: b.descriptor(),
        availability: encoder::availability_for(&session, probe.pipewire_gstreamer, probe.ximagesrc, probe.mp4mux, probe.encoders),
    };
    let mut r: Vec<EncoderBackendStatus> = Vec::new();
    r.push(st);
    r
}

/// The encoder lane the registry picks (there is one).
pub fn selected_encoder_backend(probe: &LinuxRuntimeProbe) -> (d: crate::capture::EncoderBackendDescriptor)
    ensures
        d.id@ == "linux-gstreamer-encoder"@,
        d.label@ == "Linux GStreamer encoder"@,
{
    let statuses = encoder_backend_statuses(probe);
    statuses[0].descriptor
}

/// Why the encoder registry picked its lane.
pub fn encoder_selection_note(probe: &LinuxRuntimeProbe, requested_id: Option<&str>) -> (r: String)
    ensures
        r@ == selection_note("Encoder"@, "RECORD_SCREEN_ENCODER_BACKEND"@, is_forced(requested_id, "linux-gstreamer-encoder"@),
            req_text(requested_id), "Linux GStreamer encoder"@,
            encoder::encoder_availability_spec(probe_session(*probe), probe.pipewire_gstreamer, probe.ximagesrc,
                probe.mp4mux, probe.encoders)),
{
    let statuses = encoder_backend_statuses(probe);
    proof { lemma_single_selection(encoder_ids(statuses@), encoder_available(statuses@), opt_view(requested_id)); }
    assert(encoder_ids(statuses@)[0] == statuses@[0].descriptor.id@);
    explain_encoder_backend_selection(statuses.as_slice(), requested_id).note
}

/// The encoder registry's runtime snapshot.
pub fn encoder_runtime_snapshot(probe: &LinuxRuntimeProbe, requested_id: Option<&str>) -> (r: EncoderBackendRuntimeSnapshot)
    ensures
        r.path@ == "Linux GStreamer encoder"@,
        opt_sview(r.summary) == encoder::runtime_summary_spec(probe.pipewiresrc, probe.ximagesrc, probe.encoders),
        opt_sview(r.preferred_encoder_label) == encoder::preferred_label_spec(probe.encoders),
{
    let statuses = encoder_backend_statuses(probe);
    let report = encoder::backend().runtime_report(probe.pipewiresrc, probe.ximagesrc, probe.encoders);
    proof { lemma_single_selection(encoder_ids(statuses@), encoder_available(statuses@), opt_view(requested_id)); }
    assert(encoder_ids(statuses@)[0] == statuses@[0].descriptor.id@);
    encoder_backend_runtime_snapshot(statuses.as_slice(), requested_id, report)
}

} // verus!
