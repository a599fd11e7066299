//! The ScreenCaptureKit capture lane: what a recording asks of it, which
//! native display it lands on, and what the launcher is told.
use vstd::prelude::*;
use vstd::string::*;
use crate::capture::{capture_reason, opt_sview, CaptureBackendAvailability, CaptureBackendDescriptor,
    CaptureBackendRuntimeReport, RecordingOptions, CUSTOM_REGION_TARGET_ID, FULL_DESKTOP_TARGET_ID};
use crate::text::{blank, chars_of, dec, has_prefix, idec, is_blank, parse_u64, parse_u64_spec, push_dec, push_idec,
    push_str, slice_chars, split_char, split_on_char, starts_with, str_eq, string_of, trim, trim_chars, views,
    parse_usize, parse_nat};

verus! {

/// The ScreenCaptureKit capture lane.
pub struct ScreenCaptureKitMacosBackend;

/// One display the shareable-content probe found.
#[derive(Debug, Clone, PartialEq, Eq)]
pub struct ScreenCaptureKitNativeTarget {
    pub target_id: String,
    pub display_index: usize,
    pub display_id: u32,
    pub label: String,
}

/// What the shareable-content probe found.
#[derive(Debug, Clone, PartialEq, Eq)]
pub struct ScreenCaptureKitProbeReport {
    pub summary: String,
    pub preferred_target_label: Option<String>,
    pub display_count: usize,
    pub window_count: usize,
    pub application_count: usize,
    pub targets: Vec<ScreenCaptureKitNativeTarget>,
}

#[derive(Debug, Clone, PartialEq, Eq)]
pub struct ScreenCaptureKitStartPlan {
    pub target_id: String,
    pub resolved_source_target_id: String,
    pub resolved_native_target_label: Option<String>,
    pub output_width: u32,
    pub output_height: u32,
    pub fps: u32,
    pub target_summary: String,
    pub stream_summary: String,
    pub region_summary: Option<String>,
    pub summary: String,
}

#[derive(Debug, Clone, PartialEq, Eq)]
pub struct ScreenCaptureKitExecutionPlan {
    pub target_label: String,
    pub width: u32,
    pub height: u32,
    pub fps: u32,
    pub shows_cursor: bool,
    pub captures_audio: bool,
    pub summary: String,
}

#[derive(Debug, Clone, PartialEq, Eq)]
pub struct ScreenCaptureKitRuntimeFoundation {
    pub target_label: String,
    pub width: u32,
    pub height: u32,
    pub fps: u32,
    pub captures_audio: bool,
    pub summary: String,
}

#[derive(Debug, Clone, PartialEq, Eq)]
pub struct ScreenCaptureKitPreparedRuntime {
    pub target_label: String,
    pub screen_handler_registered: bool,
    pub summary: String,
}

#[derive(Debug, Clone, PartialEq, Eq)]
pub struct ScreenCaptureKitSmokeLifecycle {
    pub target_label: String,
    pub observed_screen_frames: usize,
    pub observed_audio_samples: usize,
    pub summary: String,
}

/// The lane of this platform.
pub fn backend() -> ScreenCaptureKitMacosBackend {
    ScreenCaptureKitMacosBackend
}

/// A `major.minor.patch` version; missing parts read as 0, extra parts
/// are ignored.
pub open spec fn version_spec(value: Seq<char>) -> Option<(u64, u64, u64)> {
    let parts = split_char(trim(value), '.');
    match parse_u64_spec(parts[0]) {
        None => None,
        Some(major) => match (if parts.len() > 1 { parse_u64_spec(parts[1]) } else { Some(0u64) }) {
            None => None,
            Some(minor) => match (if parts.len() > 2 { parse_u64_spec(parts[2]) } else { Some(0u64) }) {
                None => None,
                Some(patch) => Some((major, minor, patch)),
            },
        },
    }
}

pub fn parse_version(value: &str) -> (r: Option<(u64, u64, u64)>)
    ensures
        r == version_spec(value@),
{
    let t = trim_chars(&chars_of(value));
    let parts = split_on_char(&t, '.');
    assert(views(parts@).len() > 0) by {
        assert(views(parts@) == crate::text::split_char_from(t@, '.', 0));
    }
    assert(views(parts@)[0] == parts@[0]@);
    let major = match parse_u64(&parts[0]) {
        Some(v) => v,
        None => {
            return None;
        },
    };
    let minor = if parts.len() > 1 {
        assert(views(parts@)[1] == parts@[1]@);
        match parse_u64(&parts[1]) {
            Some(v) => v,
            None => {
                return None;
            },
        }
    } else {
        0
    };
    let patch = if parts.len() > 2 {
        assert(views(parts@)[2] == parts@[2]@);
        match parse_u64(&parts[2]) {
            Some(v) => v,
            None => {
                return None;
            },
        }
    } else {
        0
    };
    Some((major, minor, patch))
}

/// Output size and frame rate of a preset; unknown presets (and
/// 1080p at 60 fps) get 1920 x 1080 at 60 fps.
pub open spec fn stream_settings_spec(p: Seq<char>) -> (u32, u32, u32) {
    if p == "720p / 30 fps"@ {
        (1280, 720, 30)
    } else if p == "1080p / 30 fps"@ {
        (1920, 1080, 30)
    } else if p == "1440p / 60 fps"@ {
        (2560, 1440, 60)
    } else if p == "4K / 60 fps"@ {
        (3840, 2160, 60)
    } else {
        (1920, 1080, 60)
    }
}

pub fn stream_settings(preset: &str) -> (r: (u32, u32, u32))
    ensures
        r == stream_settings_spec(preset@),
{
    if str_eq(preset, "720p / 30 fps") {
        (1280, 720, 30)
    } else if str_eq(preset, "1080p / 30 fps") {
        (1920, 1080, 30)
    } else if str_eq(preset, "1440p / 60 fps") {
        (2560, 1440, 60)
    } else if str_eq(preset, "4K / 60 fps") {
        (3840, 2160, 60)
    } else {
        (1920, 1080, 60)
    }
}

pub open spec fn display_label_spec(display_id: u32, width: u32, height: u32) -> Seq<char> {
    "Display "@ + dec(display_id as nat) + " ("@ + dec(width as nat) + "x"@ + dec(height as nat) + ")"@
}

pub fn format_display_label(display_id: u32, width: u32, height: u32) -> (r: String)
    ensures
        r@ == display_label_spec(display_id, width, height),
{
    let mut r = String::from_str("Display ");
    push_dec(&mut r, display_id as u64);
    push_str(&mut r, " (");
    push_dec(&mut r, width as u64);
    push_str(&mut r, "x");
    push_dec(&mut r, height as u64);
    push_str(&mut r, ")");
    r
}

pub open spec fn probe_summary_spec(displays: usize, windows: usize, applications: usize) -> Seq<char> {
    "ScreenCaptureKit shareable-content probe found "@ + dec(displays as nat) + " display(s), "@
        + dec(windows as nat) + " window(s), and "@ + dec(applications as nat) + " application(s)."@
}

pub fn build_probe_summary(display_count: usize, window_count: usize, application_count: usize) -> (r: String)
    ensures
        r@ == probe_summary_spec(display_count, window_count, application_count),
{
    let mut r = String::from_str("ScreenCaptureKit shareable-content probe found ");
    push_dec(&mut r, display_count as u64);
    push_str(&mut r, " display(s), ");
    push_dec(&mut r, window_count as u64);
    push_str(&mut r, " window(s), and ");
    push_dec(&mut r, application_count as u64);
    push_str(&mut r, " application(s).");
    r
}

/// The capture source a recording resolves to: a custom region records
/// from its source target (the full desktop when that is blank).
pub open spec fn resolved_source_spec(o: RecordingOptions) -> Seq<char> {
    if o.capture_target_id@ == CUSTOM_REGION_TARGET_ID@ {
        if is_blank(o.region_source_capture_target_id@) {
            FULL_DESKTOP_TARGET_ID@
        } else {
            o.region_source_capture_target_id@
        }
    } else {
        o.capture_target_id@
    }
}

pub open spec fn target_summary_spec(o: RecordingOptions) -> Seq<char> {
    if o.capture_target_id@ == CUSTOM_REGION_TARGET_ID@ {
        "ScreenCaptureKit would target custom region on source `"@ + resolved_source_spec(o) + "`."@
    } else if resolved_source_spec(o) == FULL_DESKTOP_TARGET_ID@ {
        "ScreenCaptureKit would target the full desktop capture source."@
    } else {
        "ScreenCaptureKit would target capture source `"@ + resolved_source_spec(o) + "`."@
    }
}

pub open spec fn region_summary_spec(o: RecordingOptions) -> Option<Seq<char>> {
    if o.capture_target_id@ == CUSTOM_REGION_TARGET_ID@ {
        Some("Region x="@ + dec(o.region_x as nat) + ", y="@ + dec(o.region_y as nat) + ", width="@
            + dec(o.region_width as nat) + ", height="@ + dec(o.region_height as nat) + ", origin=("@
            + idec(o.region_source_origin_x as int) + ", "@ + idec(o.region_source_origin_y as int) + "), scale="@
            + dec(o.region_source_scale_factor_milli as nat) + "‰."@)
    } else {
        None
    }
}

pub open spec fn stream_summary_spec(o: RecordingOptions) -> Seq<char> {
    let s = stream_settings_spec(o.quality_preset@);
    "Stream config would request "@ + dec(s.0 as nat) + "x"@ + dec(s.1 as nat) + " at "@ + dec(s.2 as nat) + " fps."@
}

/// The start plan of a recording before the probe is consulted.
pub open spec fn start_plan_ok(o: RecordingOptions, p: ScreenCaptureKitStartPlan) -> bool {
    let s = stream_settings_spec(o.quality_preset@);
    &&& p.target_id@ == o.capture_target_id@
    &&& p.resolved_source_target_id@ == resolved_source_spec(o)
    &&& p.resolved_native_target_label is None
    &&& (p.output_width, p.output_height, p.fps) == s
    &&& p.target_summary@ == target_summary_spec(o)
    &&& p.stream_summary@ == stream_summary_spec(o)
    &&& opt_sview(p.region_summary) == region_summary_spec(o)
    &&& p.summary@ == match region_summary_spec(o) {
        Some(r) => target_summary_spec(o) + " "@ + stream_summary_spec(o) + " "@ + r,
        None => target_summary_spec(o) + " "@ + stream_summary_spec(o),
    }
}

/// The start plan's summary, with the native display it resolves to when
/// the probe report offers one.
pub open spec fn start_plan_summary_spec(o: RecordingOptions, probe_report: Option<&ScreenCaptureKitProbeReport>) -> Seq<char> {
    let base = match region_summary_spec(o) {
        Some(r) => target_summary_spec(o) + " "@ + stream_summary_spec(o) + " "@ + r,
        None => target_summary_spec(o) + " "@ + stream_summary_spec(o),
    };
    match probe_report {
        None => base,
        Some(rep) => match native_target_spec(rep.targets@, resolved_source_spec(o)) {
            None => base,
            Some(k) => base + " Native candidate resolves to "@ + rep.targets@[k].label@ + "."@,
        },
    }
}

pub fn build_start_plan(options: &RecordingOptions) -> (p: ScreenCaptureKitStartPlan)
    ensures
        start_plan_ok(*options, p),
{
    let (output_width, output_height, fps) = stream_settings(options.quality_preset.as_str());
    let custom = str_eq(options.capture_target_id.as_str(), CUSTOM_REGION_TARGET_ID);
    let resolved = if custom {
        if blank(options.region_source_capture_target_id.as_str()) {
            String::from_str(FULL_DESKTOP_TARGET_ID)
        } else {
            options.region_source_capture_target_id.clone()
        }
    } else {
        options.capture_target_id.clone()
    };
    let target_summary = if custom {
        let mut t = String::from_str("ScreenCaptureKit would target custom region on source `");
        push_str(&mut t, resolved.as_str());
        push_str(&mut t, "`.");
        t
    } else if str_eq(resolved.as_str(), FULL_DESKTOP_TARGET_ID) {
        String::from_str("ScreenCaptureKit would target the full desktop capture source.")
    } else {
        let mut t = String::from_str("ScreenCaptureKit would target capture source `");
        push_str(&mut t, resolved.as_str());
        push_str(&mut t, "`.");
        t
    };
    let region_summary = if custom {
        let mut r = String::from_str("Region x=");
        push_dec(&mut r, options.region_x as u64);
        push_str(&mut r, ", y=");
        push_dec(&mut r, options.region_y as u64);
        push_str(&mut r, ", width=");
        push_dec(&mut r, options.region_width as u64);
        push_str(&mut r, ", height=");
        push_dec(&mut r, options.region_height as u64);
        push_str(&mut r, ", origin=(");
        push_idec(&mut r, options.region_source_origin_x as i64);
        push_str(&mut r, ", ");
        push_idec(&mut r, options.region_source_origin_y as i64);
        push_str(&mut r, "), scale=");
        push_dec(&mut r, options.region_source_scale_factor_milli as u64);
        push_str(&mut r, "‰.");
        Some(r)
    } else {
        None
    };
    let mut stream_summary = String::from_str("Stream config would request ");
    push_dec(&mut stream_summary, output_width as u64);
    push_str(&mut stream_summary, "x");
    push_dec(&mut stream_summary, output_height as u64);
    push_str(&mut stream_summary, " at ");
    push_dec(&mut stream_summary, fps as u64);
    push_str(&mut stream_summary, " fps.");
    let mut summary = target_summary.clone();
    push_str(&mut summary, " ");
    push_str(&mut summary, stream_summary.as_str());
    match &region_summary {
        Some(r) => {
            push_str(&mut summary, " ");
            push_str(&mut summary, r.as_str());
        },
        None => {},
    }
    ScreenCaptureKitStartPlan {
        target_id: options.capture_target_id.clone(),
        resolved_source_target_id: resolved,
        resolved_native_target_label: None,
        output_width,
        output_height,
        fps,
        target_summary,
        stream_summary,
        region_summary,
        summary,
    }
}

pub open spec fn monitor_number(id: Seq<char>) -> Option<nat> {
    if has_prefix(id, "monitor:"@) { parse_nat(id.subrange(8, id.len() as int)) } else { None }
}

pub open spec fn first_target_with_id(ts: Seq<ScreenCaptureKitNativeTarget>, id: Seq<char>, i: int) -> int
    decreases ts.len() - i,
{
    if i < 0 || i >= ts.len() { -1 } else if ts[i].target_id@ == id { i } else { first_target_with_id(ts, id, i + 1) }
}

pub open spec fn first_target_with_index(ts: Seq<ScreenCaptureKitNativeTarget>, n: nat, i: int) -> int
    decreases ts.len() - i,
{
    if i < 0 || i >= ts.len() { -1 } else if ts[i].display_index == n { i } else { first_target_with_index(ts, n, i + 1) }
}

/// Which probed display a capture source lands on: the first for the full
/// desktop, an exact target id, else `monitor:<n>` as a 1-based position,
/// a 0-based position, or a display index.
pub open spec fn native_target_spec(ts: Seq<ScreenCaptureKitNativeTarget>, id: Seq<char>) -> Option<int> {
    if id == FULL_DESKTOP_TARGET_ID@ {
        if ts.len() > 0 { Some(0) } else { None }
    } else if first_target_with_id(ts, id, 0) != -1 {
        Some(first_target_with_id(ts, id, 0))
    } else {
        match monitor_number(id) {
            None => None,
            Some(n) => if n > usize::MAX {
                None
            } else if (if n > 0 { n - 1 } else { 0 }) < ts.len() {
                Some((if n > 0 { n - 1 } else { 0 }) as int)
            } else if n < ts.len() {
                Some(n as int)
            } else if first_target_with_index(ts, n, 0) != -1 {
                Some(first_target_with_index(ts, n, 0))
            } else {
                None
            },
        }
    }
}

proof fn lemma_first_target(ts: Seq<ScreenCaptureKitNativeTarget>, id: Seq<char>, n: nat, i: int)
    requires
        0 <= i,
    ensures
        -1 <= first_target_with_id(ts, id, i) < ts.len(),
        -1 <= first_target_with_index(ts, n, i) < ts.len(),
    decreases ts.len() - i,
{
    if i < ts.len() {
        lemma_first_target(ts, id, n, i + 1);
    }
}

/// The probed display a capture source lands on, by position in the report.
#[verifier::loop_isolation(false)]
pub fn resolve_native_target(probe_report: &ScreenCaptureKitProbeReport, resolved_source_target_id: &str) -> (r: Option<usize>)
    ensures
        match r {
            Some(k) => native_target_spec(probe_report.targets@, resolved_source_target_id@) == Some(k as int)
                && k < probe_report.targets@.len(),
            None => native_target_spec(probe_report.targets@, resolved_source_target_id@) is None,
        },
{
    proof { reveal_strlit("monitor:"); }
    let ts = &probe_report.targets;
    let n = ts.len();
    if str_eq(resolved_source_target_id, FULL_DESKTOP_TARGET_ID) {
        return if n > 0 { Some(0) } else { None };
    }
    let mut i: usize = 0;
    while i < n
        invariant
            i <= n,
            n == ts@.len(),
            first_target_with_id(ts@, resolved_source_target_id@, 0) == first_target_with_id(ts@, resolved_source_target_id@, i as int),
        decreases n - i,
    {
        if str_eq(ts[i].target_id.as_str(), resolved_source_target_id) {
            return Some(i);
        }
        i += 1;
    }
    let id = chars_of(resolved_source_target_id);
    if !starts_with(&id, &chars_of("monitor:")) {
        return None;
    }
    let num = match parse_usize(&slice_chars(&id, 8, id.len())) {
        Some(v) => v,
        None => {
            return None;
        },
    };
    let first = if num > 0 { num - 1 } else { 0 };
    if first < n {
        return Some(first);
    }
    if num < n {
        return Some(num);
    }
    proof { lemma_first_target(ts@, resolved_source_target_id@, num as nat, 0); }
    let mut j: usize = 0;
    while j < n
        invariant
            j <= n,
            n == ts@.len(),
            first_target_with_index(ts@, num as nat, 0) == first_target_with_index(ts@, num as nat, j as int),
        decreases n - j,
    {
        if ts[j].display_index == num {
            return Some(j);
        }
        j += 1;
    }
    None
}

/// The start plan, with the native display's label when the probe
/// report (`None` when probing failed) resolves the source.
pub fn enrich_start_plan(plan: ScreenCaptureKitStartPlan, probe_report: Option<&ScreenCaptureKitProbeReport>) -> (r: ScreenCaptureKitStartPlan)
    ensures
        match probe_report {
            None => r == plan,
            Some(rep) => match native_target_spec(rep.targets@, plan.resolved_source_target_id@) {
                None => r == plan,
                Some(k) => r == (ScreenCaptureKitStartPlan {
                    resolved_native_target_label: r.resolved_native_target_label,
                    summary: r.summary,
                    ..plan
                }) && opt_sview(r.resolved_native_target_label) == Some(rep.targets@[k].label@)
                    && r.summary@ == plan.summary@ + " Native candidate resolves to "@ + rep.targets@[k].label@ + "."@,
            },
        },
{
    let rep = match probe_report {
        None => {
            return plan;
        },
        Some(rep) => rep,
    };
    let k = match resolve_native_target(rep, plan.resolved_source_target_id.as_str()) {
        None => {
            return plan;
        },
        Some(k) => k,
    };
    let label = rep.targets[k].label.clone();
    let mut summary = plan.summary.clone();
    push_str(&mut summary, " Native candidate resolves to ");
    push_str(&mut summary, label.as_str());
    push_str(&mut summary, ".");
    let mut plan = plan;
    plan.resolved_native_target_label = Some(label);
    plan.summary = summary;
    plan
}

/// The start plan of a recording, enriched from the probe report.
pub fn start_plan(options: &RecordingOptions, probe_report: Option<&ScreenCaptureKitProbeReport>) -> (r: ScreenCaptureKitStartPlan)
    ensures
        exists|base: ScreenCaptureKitStartPlan| start_plan_ok(*options, base) && match probe_report {
            None => r == base,
            Some(rep) => match native_target_spec(rep.targets@, base.resolved_source_target_id@) {
                None => r == base,
                Some(k) => opt_sview(r.resolved_native_target_label) == Some(rep.targets@[k].label@)
                    && r.summary@ == base.summary@ + " Native candidate resolves to "@ + rep.targets@[k].label@ + "."@
                    && r.target_id == base.target_id && r.resolved_source_target_id == base.resolved_source_target_id
                    && r.output_width == base.output_width && r.output_height == base.output_height && r.fps == base.fps,
            },
        },
{
    let base = build_start_plan(options);
    let ghost b = base;
    let r = enrich_start_plan(base, probe_report);
    assert(start_plan_ok(*options, b));
    r
}

pub const SCREEN_CAPTURE_KIT_MINIMUM_MAJOR: u64 = 12;
pub const SCREEN_CAPTURE_KIT_MINIMUM_MINOR: u64 = 3;

/// Why the lane is unavailable (`None` when it is available): the macOS
/// version (as `sw_vers` reported it) must be 12.3 or newer and the
/// shareable-content probe must succeed.
pub open spec fn availability_spec(version: Option<(u64, u64, u64)>, probe_error: Option<Seq<char>>) -> Option<Seq<char>> {
    match version {
        None => Some("The app could not confirm the macOS version for ScreenCaptureKit readiness."@),
        Some((major, minor, _)) => if major < 12 || (major == 12 && minor < 3) {
            Some("ScreenCaptureKit requires macOS 12.3 or newer."@)
        } else {
            match probe_error {
                None => None,
                Some(e) => Some("ScreenCaptureKit shareable-content probe failed: "@ + e),
            }
        },
    }
}

/// The runtime report's summary and preferred target from the probe's
/// outcome and the macOS version.
pub open spec fn capture_report_spec(probe: Result<ScreenCaptureKitProbeReport, String>, version: Option<(u64, u64, u64)>) -> (Option<Seq<char>>, Option<String>) {
    match probe {
        Ok(rep) => (Some(rep.summary@
            + " ScreenCaptureKit now has a hybrid recorder path for display capture; unsupported cases still fall back to the ffmpeg / AVFoundation runtime."@),
            rep.preferred_target_label),
        Err(e) => (Some(match version {
            Some((a, b, c)) => "macOS ScreenCaptureKit candidate probed on "@ + dec(a as nat) + "."@ + dec(b as nat)
                + "."@ + dec(c as nat) + ", but shareable-content probing failed: "@ + e@,
            None => "macOS ScreenCaptureKit candidate exists, but version and shareable-content probing both failed."@,
        }), None),
    }
}

pub open spec fn probe_error_of(p: Result<ScreenCaptureKitProbeReport, String>) -> Option<Seq<char>> {
    match p {
        Ok(_) => None,
        Err(e) => Some(e@),
    }
}

impl ScreenCaptureKitMacosBackend {
    pub fn descriptor(&self) -> (d: CaptureBackendDescriptor)
        ensures
            d.id@ == "macos-screencapturekit"@,
            d.label@ == "macOS ScreenCaptureKit"@,
    {
        CaptureBackendDescriptor { id: "macos-screencapturekit", label: "macOS ScreenCaptureKit" }
    }

    /// Availability from the macOS version and the probe's outcome.
    pub fn availability(&self, version: Option<(u64, u64, u64)>, probe: &Result<ScreenCaptureKitProbeReport, String>) -> (a: CaptureBackendAvailability)
        ensures
            capture_reason(a) == availability_spec(version, probe_error_of(*probe)),
    {
        proof { reveal_strlit("3"); }
        match version {
            None => CaptureBackendAvailability::Unavailable {
                reason: String::from_str("The app could not confirm the macOS version for ScreenCaptureKit readiness."),
            },
            Some((major, minor, _)) => if major < SCREEN_CAPTURE_KIT_MINIMUM_MAJOR
                || (major == SCREEN_CAPTURE_KIT_MINIMUM_MAJOR && minor < SCREEN_CAPTURE_KIT_MINIMUM_MINOR) {
                CaptureBackendAvailability::Unavailable {
                    reason: String::from_str("ScreenCaptureKit requires macOS 12.3 or newer."),
                }
            } else {
                match probe {
                    Ok(_) => CaptureBackendAvailability::Available,
                    Err(e) => {
                        let mut r = String::from_str("ScreenCaptureKit shareable-content probe failed: ");
                        push_str(&mut r, e.as_str());
                        CaptureBackendAvailability::Unavailable { reason: r }
                    },
                }
            },
        }
    }

    /// The runtime report from the probe's outcome and the macOS version.
    pub fn runtime_report(&self, probe: &Result<ScreenCaptureKitProbeReport, String>, version: Option<(u64, u64, u64)>) -> (r: CaptureBackendRuntimeReport)
        ensures
            (opt_sview(r.summary), r.preferred_target_label) == capture_report_spec(*probe, version),
    {
        match probe {
            Ok(rep) => {
                let mut s = rep.summary.clone();
                push_str(&mut s, " ScreenCaptureKit now has a hybrid recorder path for display capture; unsupported cases still fall back to the ffmpeg / AVFoundation runtime.");
                let label = match &rep.preferred_target_label {
                    Some(l) => Some(l.clone()),
                    None => None,
                };
                CaptureBackendRuntimeReport { summary: Some(s), preferred_target_label: label }
            },
            Err(e) => {
                let s = match version {
                    Some((a, b, c)) => {
                        let mut s = String::from_str("macOS ScreenCaptureKit candidate probed on ");
                        push_dec(&mut s, a);
                        push_str(&mut s, ".");
                        push_dec(&mut s, b);
                        push_str(&mut s, ".");
                        push_dec(&mut s, c);
                        push_str(&mut s, ", but shareable-content probing failed: ");
                        push_str(&mut s, e.as_str());
                        s
                    },
                    None => String::from_str("macOS ScreenCaptureKit candidate exists, but version and shareable-content probing both failed."),
                };
                CaptureBackendRuntimeReport { summary: Some(s), preferred_target_label: None }
            },
        }
    }
}

/// A display as ScreenCaptureKit describes it.
#[derive(Debug, Clone, Copy, PartialEq, Eq)]
pub struct NativeDisplay {
    pub display_id: u32,
    pub width: u32,
    pub height: u32,
}

pub open spec fn execution_summary_spec(label: Seq<char>, s: (u32, u32, u32), audio: bool, custom: bool) -> Seq<char> {
    "ScreenCaptureKit native execution plan built filter for "@ + label + " with "@ + dec(s.0 as nat) + "x"@
        + dec(s.1 as nat) + " at "@ + dec(s.2 as nat) + " fps, pixel-format=BGRA, cursor=true, system-audio="@
        + (if audio { "true"@ } else { "false"@ }) + "."@
        + (if custom { " Custom-region crop is still not wired into the native ScreenCaptureKit filter path."@ } else { seq![] })
}

fn push_bool(s: &mut String, b: bool)
    ensures
        final(s)@ == old(s)@ + (if b { "true"@ } else { "false"@ }),
{
    if b {
        push_str(s, "true");
    } else {
        push_str(s, "false");
    }
}

/// The execution plan of a recording on the native display its source
/// resolved to (`None` when none did): the stream asks for the preset's
/// size and rate, with the cursor and, when enabled, system audio.
pub fn execution_plan(options: &RecordingOptions, display: Option<NativeDisplay>) -> (r: Result<ScreenCaptureKitExecutionPlan, String>)
    ensures
        match display {
            None => r matches Err(m) && m@ == "ScreenCaptureKit could not resolve native display for `"@
                + resolved_source_spec(*options) + "`."@,
            Some(d) => r matches Ok(p) && {
                let s = stream_settings_spec(options.quality_preset@);
                &&& p.target_label@ == display_label_spec(d.display_id, d.width, d.height)
                &&& (p.width, p.height, p.fps) == s
                &&& p.shows_cursor
                &&& p.captures_audio == options.system_audio_enabled
                &&& p.summary@ == execution_summary_spec(p.target_label@, s, options.system_audio_enabled,
                    options.capture_target_id@ == CUSTOM_REGION_TARGET_ID@)
            },
        },
{
    let start = build_start_plan(options);
    let d = match display {
        None => {
            let mut m = String::from_str("ScreenCaptureKit could not resolve native display for `");
            push_str(&mut m, start.resolved_source_target_id.as_str());
            push_str(&mut m, "`.");
            return Err(m);
        },
        Some(d) => d,
    };
    let target_label = format_display_label(d.display_id, d.width, d.height);
    let mut summary = String::from_str("ScreenCaptureKit native execution plan built filter for ");
    push_str(&mut summary, target_label.as_str());
    push_str(&mut summary, " with ");
    push_dec(&mut summary, start.output_width as u64);
    push_str(&mut summary, "x");
    push_dec(&mut summary, start.output_height as u64);
    push_str(&mut summary, " at ");
    push_dec(&mut summary, start.fps as u64);
    push_str(&mut summary, " fps, pixel-format=BGRA, cursor=true, system-audio=");
    push_bool(&mut summary, options.system_audio_enabled);
    push_str(&mut summary, ".");
    if str_eq(options.capture_target_id.as_str(), CUSTOM_REGION_TARGET_ID) {
        push_str(&mut summary, " Custom-region crop is still not wired into the native ScreenCaptureKit filter path.");
    } else {
        proof { reveal_strlit(""); }
    }
    Ok(ScreenCaptureKitExecutionPlan {
        target_label,
        width: start.output_width,
        height: start.output_height,
        fps: start.fps,
        shows_cursor: true,
        captures_audio: options.system_audio_enabled,
        summary,
    })
}

/// The stream foundation built on an execution plan.
pub fn runtime_foundation(plan: &ScreenCaptureKitExecutionPlan) -> (r: ScreenCaptureKitRuntimeFoundation)
    ensures
        r.target_label@ == plan.target_label@,
        (r.width, r.height, r.fps, r.captures_audio) == (plan.width, plan.height, plan.fps, plan.captures_audio),
        r.summary@ == "ScreenCaptureKit runtime foundation constructed SCStream for "@ + plan.target_label@ + " at "@
            + dec(plan.width as nat) + "x"@ + dec(plan.height as nat) + " "@ + dec(plan.fps as nat)
            + " fps, pixel-format=BGRA, cursor="@ + (if plan.shows_cursor { "true"@ } else { "false"@ })
            + ", system-audio="@ + (if plan.captures_audio { "true"@ } else { "false"@ }) + "."@,
{
    let mut s = String::from_str("ScreenCaptureKit runtime foundation constructed SCStream for ");
    push_str(&mut s, plan.target_label.as_str());
    push_str(&mut s, " at ");
    push_dec(&mut s, plan.width as u64);
    push_str(&mut s, "x");
    push_dec(&mut s, plan.height as u64);
    push_str(&mut s, " ");
    push_dec(&mut s, plan.fps as u64);
    push_str(&mut s, " fps, pixel-format=BGRA, cursor=");
    push_bool(&mut s, plan.shows_cursor);
    push_str(&mut s, ", system-audio=");
    push_bool(&mut s, plan.captures_audio);
    push_str(&mut s, ".");
    ScreenCaptureKitRuntimeFoundation {
        target_label: plan.target_label.clone(),
        width: plan.width,
        height: plan.height,
        fps: plan.fps,
        captures_audio: plan.captures_audio,
        summary: s,
    }
}

/// The summary of the stream foundation for the display a recording
/// resolved to.
pub open spec fn foundation_summary_spec(options: RecordingOptions, d: NativeDisplay) -> Seq<char> {
    let s = stream_settings_spec(options.quality_preset@);
    "ScreenCaptureKit runtime foundation constructed SCStream for "@ + display_label_spec(d.display_id, d.width, d.height)
        + " at "@ + dec(s.0 as nat) + "x"@ + dec(s.1 as nat) + " "@ + dec(s.2 as nat)
        + " fps, pixel-format=BGRA, cursor="@ + "true"@ + ", system-audio="@
        + (if options.system_audio_enabled { "true"@ } else { "false"@ }) + "."@
}

/// The summary of the stream foundation, `None` when no native display
/// was resolved.
pub fn runtime_foundation_summary(options: &RecordingOptions, display: Option<NativeDisplay>) -> (r: Option<String>)
    ensures
        match display {
            None => r is None,
            Some(d) => r matches Some(s) && s@ == foundation_summary_spec(*options, d),
        },
{
    match execution_plan(options, display) {
        Ok(plan) => {
            let f = runtime_foundation(&plan);
            Some(f.summary)
        },
        Err(_) => None,
    }
}

/// The prepared runtime: whether the screen handler could be registered.
pub fn prepared_runtime(foundation: &ScreenCaptureKitRuntimeFoundation, handler_registered: bool) -> (r: ScreenCaptureKitPreparedRuntime)
    ensures
        r.target_label@ == foundation.target_label@,
        r.screen_handler_registered == handler_registered,
        r.summary@ == "ScreenCaptureKit prepared runtime registered screen handler="@
            + (if handler_registered { "true"@ } else { "false"@ }) + " for "@ + foundation.target_label@ + "."@,
{
    let mut s = String::from_str("ScreenCaptureKit prepared runtime registered screen handler=");
    push_bool(&mut s, handler_registered);
    push_str(&mut s, " for ");
    push_str(&mut s, foundation.target_label.as_str());
    push_str(&mut s, ".");
    ScreenCaptureKitPreparedRuntime {
        target_label: foundation.target_label.clone(),
        screen_handler_registered: handler_registered,
        summary: s,
    }
}

/// The prepared runtime's summary, `None` when no native display was
/// resolved for the recording.
pub fn prepared_runtime_summary(options: &RecordingOptions, display: Option<NativeDisplay>, handler_registered: bool) -> (r: Option<String>)
    ensures
        match display {
            None => r is None,
            Some(d) => r matches Some(s) && s@ == "ScreenCaptureKit prepared runtime registered screen handler="@
                + (if handler_registered { "true"@ } else { "false"@ }) + " for "@
                + display_label_spec(d.display_id, d.width, d.height) + "."@,
        },
{
    match execution_plan(options, display) {
        Ok(plan) => {
            let foundation = runtime_foundation(&plan);
            Some(prepared_runtime(&foundation, handler_registered).summary)
        },
        Err(_) => None,
    }
}

/// What the sample handlers saw during a smoke run.
#[derive(Debug, Clone, Copy, PartialEq, Eq, Default)]
pub struct ScreenCaptureKitBufferBridgeStats {
    pub screen_frames: usize,
    pub audio_samples: usize,
    pub first_screen_pts_millis: Option<i64>,
    pub first_audio_pts_millis: Option<i64>,
}

/// An optional timestamp as Rust's debug output writes it.
pub open spec fn debug_opt_spec(v: Option<i64>) -> Seq<char> {
    match v {
        Some(n) => "Some("@ + idec(n as int) + ")"@,
        None => "None"@,
    }
}

fn push_debug_opt(s: &mut String, v: Option<i64>)
    ensures
        final(s)@ == old(s)@ + debug_opt_spec(v),
{
    match v {
        Some(n) => {
            push_str(s, "Some(");
            push_idec(s, n);
            push_str(s, ")");
        },
        None => push_str(s, "None"),
    }
}

pub open spec fn bridge_summary_spec(stats: Option<ScreenCaptureKitBufferBridgeStats>) -> Seq<char> {
    match stats {
        Some(b) => "bridge(screen_frames="@ + dec(b.screen_frames as nat) + ", audio_samples="@
            + dec(b.audio_samples as nat) + ", first_screen_pts_ms="@ + debug_opt_spec(b.first_screen_pts_millis)
            + ", first_audio_pts_ms="@ + debug_opt_spec(b.first_audio_pts_millis) + ")"@,
        None => "bridge(unavailable)"@,
    }
}

/// The bridge line of a smoke run; `None` when the stats could not be read.
pub fn bridge_summary(stats: Option<ScreenCaptureKitBufferBridgeStats>) -> (r: String)
    ensures
        r@ == bridge_summary_spec(stats),
{
    match stats {
        Some(b) => {
            let mut r = String::from_str("bridge(screen_frames=");
            push_dec(&mut r, b.screen_frames as u64);
            push_str(&mut r, ", audio_samples=");
            push_dec(&mut r, b.audio_samples as u64);
            push_str(&mut r, ", first_screen_pts_ms=");
            push_debug_opt(&mut r, b.first_screen_pts_millis);
            push_str(&mut r, ", first_audio_pts_ms=");
            push_debug_opt(&mut r, b.first_audio_pts_millis);
            push_str(&mut r, ")");
            r
        },
        None => String::from_str("bridge(unavailable)"),
    }
}

pub open spec fn smoke_summary_spec(label: Seq<char>, frames: usize, audio: usize, stats: Option<ScreenCaptureKitBufferBridgeStats>) -> Seq<char> {
    "ScreenCaptureKit smoke lifecycle started and stopped capture for "@ + label + " with "@ + dec(frames as nat)
        + " observed screen frame(s) and "@ + dec(audio as nat) + " observed audio sample(s). "@
        + bridge_summary_spec(stats)
}

/// The outcome of a smoke run on a prepared runtime: an error when no
/// screen handler could be registered, else what was observed.
pub fn smoke_lifecycle(
    prepared: &ScreenCaptureKitPreparedRuntime,
    handler_registered: bool,
    frame_count: usize,
    audio_count: usize,
    stats: Option<ScreenCaptureKitBufferBridgeStats>,
) -> (r: Result<ScreenCaptureKitSmokeLifecycle, String>)
    ensures
        !handler_registered ==> (r matches Err(m) && m@
            == "ScreenCaptureKit smoke lifecycle could not register a screen output handler."@),
        handler_registered ==> (r matches Ok(l) && {
            &&& l.target_label@ == prepared.target_label@
            &&& l.observed_screen_frames == frame_count
            &&& l.observed_audio_samples == audio_count
            &&& l.summary@ == smoke_summary_spec(prepared.target_label@, frame_count, audio_count, stats)
        }),
{
    if !handler_registered {
        return Err(String::from_str("ScreenCaptureKit smoke lifecycle could not register a screen output handler."));
    }
    let mut s = String::from_str("ScreenCaptureKit smoke lifecycle started and stopped capture for ");
    push_str(&mut s, prepared.target_label.as_str());
    push_str(&mut s, " with ");
    push_dec(&mut s, frame_count as u64);
    push_str(&mut s, " observed screen frame(s) and ");
    push_dec(&mut s, audio_count as u64);
    push_str(&mut s, " observed audio sample(s). ");
    let b = bridge_summary(stats);
    push_str(&mut s, b.as_str());
    Ok(ScreenCaptureKitSmokeLifecycle {
        target_label: prepared.target_label.clone(),
        observed_screen_frames: frame_count,
        observed_audio_samples: audio_count,
        summary: s,
    })
}

/// The smoke run's summary, `None` when no native display was resolved or
/// no screen handler could be registered.
pub fn smoke_lifecycle_summary(
    options: &RecordingOptions,
    display: Option<NativeDisplay>,
    handler_registered: bool,
    frame_count: usize,
    audio_count: usize,
    stats: Option<ScreenCaptureKitBufferBridgeStats>,
) -> (r: Option<String>)
    ensures
        match display {
            Some(d) if handler_registered => r matches Some(s) && s@ == smoke_summary_spec(
                display_label_spec(d.display_id, d.width, d.height), frame_count, audio_count, stats),
            _ => r is None,
        },
{
    let plan = match execution_plan(options, display) {
        Ok(plan) => plan,
        Err(_) => {
            return None;
        },
    };
    let foundation = runtime_foundation(&plan);
    let prepared = prepared_runtime(&foundation, handler_registered);
    match smoke_lifecycle(&prepared, handler_registered, frame_count, audio_count, stats) {
        Ok(l) => Some(l.summary),
        Err(_) => None,
    }
}

} // verus!
