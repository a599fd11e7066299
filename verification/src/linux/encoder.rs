//! The Linux GStreamer encoder lane: which H.264 element a recording uses
//! and how it is configured.
use vstd::prelude::*;
use vstd::string::*;
use crate::capture::{encoder_reason, EncoderBackendAvailability, EncoderBackendDescriptor, EncoderBackendRuntimeReport, opt_sview};
use crate::linux::{session_view, LinuxDesktopSession, SessionView};
use crate::linux::encoding::{cpu_preset_for_quality, cpu_preset_spec, gst_bitrate_for_quality, gst_bitrate_spec,
    quality_settings, quality_settings_spec};
use crate::linux::portal::PipeWireGstreamerSupport;
use crate::text::{dec, join, join_strings, push_dec, push_str, string_views};

verus! {

/// Which H.264 encoder elements GStreamer offers.
#[derive(Debug, Clone, Copy, PartialEq, Eq, Structural)]
pub struct GstreamerEncoderSupport {
    pub nvh264enc: bool,
    pub x264enc: bool,
    pub vaapih264enc: bool,
}

/// The encoder element of a recording and its properties.
#[derive(Debug, Clone, PartialEq, Eq)]
pub struct GstreamerEncoderPlan {
    pub element_name: &'static str,
    pub label: String,
    pub property_args: Vec<String>,
}

pub struct GstreamerEncoderPlanView {
    pub element_name: Seq<char>,
    pub label: Seq<char>,
    pub property_args: Seq<Seq<char>>,
}

impl View for GstreamerEncoderPlan {
    type V = GstreamerEncoderPlanView;

    open spec fn view(&self) -> GstreamerEncoderPlanView {
        GstreamerEncoderPlanView {
            element_name: self.element_name@,
            label: self.label@,
            property_args: string_views(self.property_args@),
        }
    }
}

/// The plan for a preset: x264 first, then NVENC, then VAAPI.
pub open spec fn encoder_plan_spec(p: Seq<char>, support: GstreamerEncoderSupport) -> Option<GstreamerEncoderPlanView> {
    let bitrate = dec(gst_bitrate_spec(p) as nat);
    let gop = dec(quality_settings_spec(p).2 as nat);
    if support.x264enc {
        Some(GstreamerEncoderPlanView {
            element_name: "x264enc"@,
            label: "x264"@,
            property_args: seq!["speed-preset="@ + cpu_preset_spec(p), "tune=zerolatency"@, "bitrate="@ + bitrate,
                "key-int-max="@ + gop],
        })
    } else if support.nvh264enc {
        Some(GstreamerEncoderPlanView {
            element_name: "nvh264enc"@,
            label: "NVENC H.264"@,
            property_args: seq!["preset=low-latency-hq"@, "rc-mode=cbr"@, "bitrate="@ + bitrate, "gop-size="@ + gop],
        })
    } else if support.vaapih264enc {
        Some(GstreamerEncoderPlanView {
            element_name: "vaapih264enc"@,
            label: "VAAPI H.264"@,
            property_args: seq!["bitrate="@ + bitrate, "keyframe-period="@ + gop],
        })
    } else {
        None
    }
}

fn with_number(prefix: &str, n: u32) -> (r: String)
    ensures
        r@ == prefix@ + dec(n as nat),
{
    let mut r = String::from_str(prefix);
    push_dec(&mut r, n as u64);
    r
}

/// The encoder plan for a preset, given which encoders GStreamer offers.
pub fn encoder_plan_for_quality(preset: &str, support: GstreamerEncoderSupport) -> (r: Option<GstreamerEncoderPlan>)
    ensures
        match r {
            Some(plan) => encoder_plan_spec(preset@, support) == Some(plan@),
            None => encoder_plan_spec(preset@, support) is None,
        },
{
    let bitrate = gst_bitrate_for_quality(preset);
    let gop = quality_settings(preset).2;
    if support.x264enc {
        let mut speed = String::from_str("speed-preset=");
        push_str(&mut speed, cpu_preset_for_quality(preset));
        let mut args: Vec<String> = Vec::new();
        args.push(speed);
        args.push(String::from_str("tune=zerolatency"));
        args.push(with_number("bitrate=", bitrate));
        args.push(with_number("key-int-max=", gop));
        let plan = GstreamerEncoderPlan { element_name: "x264enc", label: String::from_str("x264"), property_args: args };
        assert(plan@.property_args == encoder_plan_spec(preset@, support).unwrap().property_args);
        return Some(plan);
    }
    if support.nvh264enc {
        let mut args: Vec<String> = Vec::new();
        args.push(String::from_str("preset=low-latency-hq"));
        args.push(String::from_str("rc-mode=cbr"));
        args.push(with_number("bitrate=", bitrate));
        args.push(with_number("gop-size=", gop));
        let plan = GstreamerEncoderPlan { element_name: "nvh264enc", label: String::from_str("NVENC H.264"), property_args: args };
        assert(plan@.property_args == encoder_plan_spec(preset@, support).unwrap().property_args);
        return Some(plan);
    }
    if support.vaapih264enc {
        let mut args: Vec<String> = Vec::new();
        args.push(with_number("bitrate=", bitrate));
        args.push(with_number("keyframe-period=", gop));
        let plan = GstreamerEncoderPlan { element_name: "vaapih264enc", label: String::from_str("VAAPI H.264"), property_args: args };
        assert(plan@.property_args == encoder_plan_spec(preset@, support).unwrap().property_args);
        return Some(plan);
    }
    None
}

pub open spec fn preferred_label_spec(support: GstreamerEncoderSupport) -> Option<Seq<char>> {
    match encoder_plan_spec("1080p / 30 fps"@, support) {
        Some(plan) => Some(plan.label),
        None => None,
    }
}

/// The label of the encoder a 1080p / 30 fps recording would use.
pub fn preferred_encoder_label(support: GstreamerEncoderSupport) -> (r: Option<String>)
    ensures
        opt_sview(r) == preferred_label_spec(support),
{
    match encoder_plan_for_quality("1080p / 30 fps", support) {
        Some(plan) => Some(plan.label),
        None => None,
    }
}

pub open spec fn summary_parts(pipewiresrc: bool, ximagesrc: bool, support: GstreamerEncoderSupport) -> Seq<Seq<char>> {
    (if pipewiresrc { seq!["pipewiresrc available"@] } else { seq![] })
        + (if ximagesrc { seq!["ximagesrc available"@] } else { seq![] })
        + match preferred_label_spec(support) {
            Some(l) => seq!["preferred GStreamer encoder `"@ + l + "`"@],
            None => seq![],
        }
}

pub open spec fn runtime_summary_spec(pipewiresrc: bool, ximagesrc: bool, support: GstreamerEncoderSupport) -> Option<Seq<char>> {
    let parts = summary_parts(pipewiresrc, ximagesrc, support);
    if parts.len() == 0 {
        None
    } else {
        Some("Linux native encoder probing resolved "@ + join(parts, ", "@) + "."@)
    }
}

/// What encoder probing found: which capture elements and which encoder.
pub fn runtime_summary(pipewiresrc: bool, ximagesrc: bool, support: GstreamerEncoderSupport) -> (r: Option<String>)
    ensures
        opt_sview(r) == runtime_summary_spec(pipewiresrc, ximagesrc, support),
{
    let mut parts: Vec<String> = Vec::new();
    if pipewiresrc {
        parts.push(String::from_str("pipewiresrc available"));
    }
    if ximagesrc {
        parts.push(String::from_str("ximagesrc available"));
    }
    let ghost before = string_views(parts@);
    match preferred_encoder_label(support) {
        Some(encoder) => {
            let mut p = String::from_str("preferred GStreamer encoder `");
            push_str(&mut p, encoder.as_str());
            push_str(&mut p, "`");
            parts.push(p);
            assert(string_views(parts@) == before.push(p@));
        },
        None => {},
    }
    assert(string_views(parts@) == summary_parts(pipewiresrc, ximagesrc, support));
    if parts.len() == 0 {
        None
    } else {
        let mut r = String::from_str("Linux native encoder probing resolved ");
        let joined = join_strings(&parts, ", ");
        push_str(&mut r, joined.as_str());
        push_str(&mut r, ".");
        Some(r)
    }
}

pub open spec fn encoder_availability_spec(
    s: SessionView,
    pipewire: PipeWireGstreamerSupport,
    ximagesrc: bool,
    mp4mux: bool,
    support: GstreamerEncoderSupport,
) -> Option<Seq<char>> {
    match s {
        SessionView::WaylandOnly(w) => match pipewire {
            PipeWireGstreamerSupport::Available => None,
            PipeWireGstreamerSupport::Missing => Some("Wayland session "@ + w
                + " needs GStreamer PipeWire plugins such as `pipewiresrc`, `x264enc`, and `mp4mux` before the native encoder lane can run."@),
            PipeWireGstreamerSupport::Unknown => Some("Wayland session "@ + w
                + " could not confirm the required GStreamer/PipeWire runtime for the native encoder lane."@),
        },
        SessionView::X11(_) | SessionView::WaylandWithX11(_, _) =>
            if ximagesrc && mp4mux && encoder_plan_spec("1080p / 30 fps"@, support) is Some {
                None
            } else {
                Some("X11/XWayland native capture needs `ximagesrc`, `mp4mux`, and at least one usable native H.264 GStreamer encoder before the encoder lane can run."@)
            },
        SessionView::Headless => Some("A desktop session is required before the Linux native encoder lane can be probed."@),
    }
}

/// Whether the encoder lane can run in this session, given the GStreamer
/// PipeWire probe, whether `ximagesrc` and `mp4mux` are installed, and
/// which encoders are offered.
pub fn availability_for(
    session: &LinuxDesktopSession,
    pipewire: PipeWireGstreamerSupport,
    ximagesrc: bool,
    mp4mux: bool,
    support: GstreamerEncoderSupport,
) -> (a: EncoderBackendAvailability)
    ensures
        encoder_reason(a) == encoder_availability_spec(session_view(*session), pipewire, ximagesrc, mp4mux, support),
{
    match session {
        LinuxDesktopSession::WaylandOnly { wayland_display } => match pipewire {
            PipeWireGstreamerSupport::Available => EncoderBackendAvailability::Available,
            PipeWireGstreamerSupport::Missing => {
                let mut r = String::from_str("Wayland session ");
                push_str(&mut r, wayland_display.as_str());
                push_str(&mut r, " needs GStreamer PipeWire plugins such as `pipewiresrc`, `x264enc`, and `mp4mux` before the native encoder lane can run.");
                EncoderBackendAvailability::Unavailable { reason: r }
            },
            PipeWireGstreamerSupport::Unknown => {
                let mut r = String::from_str("Wayland session ");
                push_str(&mut r, wayland_display.as_str());
                push_str(&mut r, " could not confirm the required GStreamer/PipeWire runtime for the native encoder lane.");
                EncoderBackendAvailability::Unavailable { reason: r }
            },
        },
        LinuxDesktopSession::X11 { .. } | LinuxDesktopSession::WaylandWithX11 { .. } => {
            if ximagesrc && mp4mux && encoder_plan_for_quality("1080p / 30 fps", support).is_some() {
                EncoderBackendAvailability::Available
            } else {
                EncoderBackendAvailability::Unavailable {
                    reason: String::from_str("X11/XWayland native capture needs `ximagesrc`, `mp4mux`, and at least one usable native H.264 GStreamer encoder before the encoder lane can run."),
                }
            }
        },
        LinuxDesktopSession::Headless => EncoderBackendAvailability::Unavailable {
            reason: String::from_str("A desktop session is required before the Linux native encoder lane can be probed."),
        },
    }
}

/// The Linux GStreamer encoder lane.
pub struct GstreamerLinuxEncoderBackend;

/// The encoder lane of this platform.
pub fn backend() -> GstreamerLinuxEncoderBackend {
    GstreamerLinuxEncoderBackend
}

impl GstreamerLinuxEncoderBackend {
    pub fn descriptor(&self) -> (d: EncoderBackendDescriptor)
        ensures
            d.id@ == "linux-gstreamer-encoder"@,
            d.label@ == "Linux GStreamer encoder"@,
    {
        EncoderBackendDescriptor { id: "linux-gstreamer-encoder", label: "Linux GStreamer encoder" }
    }

    /// The runtime report: the probing summary and the preferred encoder.
    pub fn runtime_report(&self, pipewiresrc: bool, ximagesrc: bool, support: GstreamerEncoderSupport) -> (r: EncoderBackendRuntimeReport)
        ensures
            opt_sview(r.summary) == runtime_summary_spec(pipewiresrc, ximagesrc, support),
            opt_sview(r.preferred_encoder_label) == preferred_label_spec(support),
    {
        EncoderBackendRuntimeReport {
            summary: runtime_summary(pipewiresrc, ximagesrc, support),
            preferred_encoder_label: preferred_encoder_label(support),
        }
    }
}

} // verus!
