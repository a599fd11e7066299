//! Windows capture planning: the Windows.Graphics.Capture lane, WASAPI
//! endpoints, the Media Foundation output, and what the launcher is told.
use vstd::prelude::*;
use vstd::string::*;
use crate::capture::{audio_available, audio_backend_runtime_snapshot, audio_ids, audio_reason, capture_available,
    capture_backend_runtime_snapshot, capture_ids, capture_reason, default_audio_input, encoder_available,
    encoder_backend_runtime_snapshot, encoder_ids, encoder_reason, explain_audio_backend_selection,
    explain_capture_backend_selection, explain_encoder_backend_selection, input_views, is_forced,
    lemma_single_selection, opt_sview, opt_view, req_text, selection_note, AudioBackendDescriptor,
    AudioBackendRuntimeSnapshot, AudioBackendStatus, AudioInputKind, AudioInputOption, AudioInputView,
    CaptureBackendDescriptor, CaptureBackendRuntimeSnapshot, CaptureBackendStatus, EncoderBackendDescriptor,
    EncoderBackendRuntimeSnapshot, EncoderBackendStatus, DEFAULT_AUDIO_INPUT_ID};
use crate::text::{dec, push_dec, push_str};
use crate::windows::audio::{input_note_spec, intent_parts, intent_summary_spec, loopback_note_spec, opt_plan,
    route_input_label, route_loopback_label, runtime_summary_spec, selectable_spec, WindowsAudioRuntimePlan};

pub mod audio;
pub mod capture;
pub mod encoder;

verus! {

/// What probing the session found: whether it supports
/// Windows.Graphics.Capture, and the WASAPI endpoint plan (none when the
/// endpoint probe failed).
pub struct WindowsRuntimeProbe {
    pub session_supported: bool,
    pub audio_plan: Option<WindowsAudioRuntimePlan>,
}

fn plan_ref(probe: &WindowsRuntimeProbe) -> (r: Option<&WindowsAudioRuntimePlan>)
    ensures
        opt_plan(r) == probe.audio_plan,
{
    match &probe.audio_plan {
        Some(p) => Some(p),
        None => None,
    }
}

/// The capture registry: the Windows.Graphics.Capture lane alone.
pub fn backend_statuses(probe: &WindowsRuntimeProbe) -> (r: Vec<CaptureBackendStatus>)
    ensures
        r@.len() == 1,
        r@[0].descriptor.id@ == "windows-graphics-capture"@,
        r@[0].descriptor.label@ == "Windows Graphics Capture"@,
        capture_reason(r@[0].availability) == if probe.session_supported { None } else {
            Some("Windows.Graphics.Capture is not supported in the current Windows session."@)
        },
{
    let b = capture::backend();
    let st = CaptureBackendStatus { descriptor: b.descriptor(), availability: b.availability(probe.session_supported) };
    let mut r: Vec<CaptureBackendStatus> = Vec::new();
    r.push(st);
    r
}

/// The capture lane (there is one).
pub fn selected_backend() -> (d: CaptureBackendDescriptor)
    ensures
        d.id@ == "windows-graphics-capture"@,
        d.label@ == "Windows Graphics Capture"@,
{
    capture::backend().descriptor()
}

pub open spec fn capture_reason_of(p: WindowsRuntimeProbe) -> Option<Seq<char>> {
    if p.session_supported { None } else {
        Some("Windows.Graphics.Capture is not supported in the current Windows session."@)
    }
}

/// Why the capture registry picked its lane.
pub fn capture_selection_note(probe: &WindowsRuntimeProbe, requested_id: Option<&str>) -> (r: String)
    ensures
        r@ == selection_note("Capture"@, "RECORD_SCREEN_CAPTURE_BACKEND"@, is_forced(requested_id, "windows-graphics-capture"@),
            req_text(requested_id), "Windows Graphics Capture"@, capture_reason_of(*probe)),
{
    let statuses = backend_statuses(probe);
    proof { lemma_single_selection(capture_ids(statuses@), capture_available(statuses@), opt_view(requested_id)); }
    assert(capture_ids(statuses@)[0] == statuses@[0].descriptor.id@);
    explain_capture_backend_selection(statuses.as_slice(), requested_id).note
}

/// The capture registry's runtime snapshot.
pub fn capture_runtime_snapshot(probe: &WindowsRuntimeProbe, requested_id: Option<&str>) -> (r: CaptureBackendRuntimeSnapshot)
    ensures
        r.path@ == "Windows Graphics Capture"@,
        r.selection_note@ == selection_note("Capture"@, "RECORD_SCREEN_CAPTURE_BACKEND"@,
            is_forced(requested_id, "windows-graphics-capture"@), req_text(requested_id), "Windows Graphics Capture"@,
            capture_reason_of(*probe)),
        opt_sview(r.summary) == Some(capture::native_report_summary()),
        opt_sview(r.preferred_target_label) == Some("Full desktop"@),
{
    let statuses = backend_statuses(probe);
    let report = capture::backend().runtime_report();
    proof { lemma_single_selection(capture_ids(statuses@), capture_available(statuses@), opt_view(requested_id)); }
    assert(capture_ids(statuses@)[0] == statuses@[0].descriptor.id@);
    capture_backend_runtime_snapshot(statuses.as_slice(), requested_id, report)
}

pub open spec fn audio_reason_of(p: WindowsRuntimeProbe) -> Option<Seq<char>> {
    if p.audio_plan is Some { None } else {
        Some("Windows could not inspect WASAPI audio endpoints from this session."@)
    }
}

/// The audio registry: the WASAPI lane alone.
pub fn audio_backend_statuses(probe: &WindowsRuntimeProbe) -> (r: Vec<AudioBackendStatus>)
    ensures
        r@.len() == 1,
        r@[0].descriptor.id@ == "windows-wasapi"@,
        r@[0].descriptor.label@ == "Windows WASAPI"@,
        audio_reason(r@[0].availability) == audio_reason_of(*probe),
{
    let b = audio::backend();
    let st = AudioBackendStatus { descriptor: b.descriptor(), availability: b.availability(plan_ref(probe)) };
    let mut r: Vec<AudioBackendStatus> = Vec::new();
    r.push(st);
    r
}

/// The audio lane (there is one).
pub fn selected_audio_backend() -> (d: AudioBackendDescriptor)
    ensures
        d.id@ == "windows-wasapi"@,
        d.label@ == "Windows WASAPI"@,
{
    audio::backend().descriptor()
}

/// Why the audio registry picked its lane.
pub fn audio_selection_note(probe: &WindowsRuntimeProbe, requested_id: Option<&str>) -> (r: String)
    ensures
        r@ == selection_note("Audio"@, "RECORD_SCREEN_AUDIO_BACKEND"@, is_forced(requested_id, "windows-wasapi"@),
            req_text(requested_id), "Windows WASAPI"@, audio_reason_of(*probe)),
{
    let statuses = audio_backend_statuses(probe);
    proof { lemma_single_selection(audio_ids(statuses@), audio_available(statuses@), opt_view(requested_id)); }
    assert(audio_ids(statuses@)[0] == statuses@[0].descriptor.id@);
    explain_audio_backend_selection(statuses.as_slice(), requested_id).note
}

/// The audio registry's runtime snapshot.
pub fn audio_runtime_snapshot(probe: &WindowsRuntimeProbe, requested_id: Option<&str>) -> (r: AudioBackendRuntimeSnapshot)
    ensures
        r.path@ == "Windows WASAPI"@,
        r.selection_note@ == selection_note("Audio"@, "RECORD_SCREEN_AUDIO_BACKEND"@, is_forced(requested_id, "windows-wasapi"@),
            req_text(requested_id), "Windows WASAPI"@, audio_reason_of(*probe)),
        opt_sview(r.summary) == runtime_summary_spec(probe.audio_plan),
        opt_sview(r.preferred_input_label) == audio::capture_field(probe.audio_plan, false),
        opt_sview(r.preferred_system_label) == audio::render_field(probe.audio_plan, false),
{
    let statuses = audio_backend_statuses(probe);
    let rep = audio::backend().runtime_report(plan_ref(probe));
    proof { lemma_single_selection(audio_ids(statuses@), audio_available(statuses@), opt_view(requested_id)); }
    assert(audio_ids(statuses@)[0] == statuses@[0].descriptor.id@);
    audio_backend_runtime_snapshot(statuses.as_slice(), requested_id, rep)
}

/// The encoder registry: the Media Foundation lane alone (always available).
pub fn encoder_backend_statuses() -> (r: Vec<EncoderBackendStatus>)
    ensures
        r@.len() == 1,
        r@[0].descriptor.id@ == "windows-media-foundation"@,
        r@[0].descriptor.label@ == "Windows Media Foundation"@,
        encoder_reason(r@[0].availability) is None,
{
    let b = encoder::backend();
    let st = EncoderBackendStatus { descriptor: b.descriptor(), availability: b.availability() };
    let mut r: Vec<EncoderBackendStatus> = Vec::new();
    r.push(st);
    r
}

/// The encoder lane (there is one).
pub fn selected_encoder_backend() -> (d: EncoderBackendDescriptor)
    ensures
        d.id@ == "windows-media-foundation"@,
        d.label@ == "Windows Media Foundation"@,
{
    encoder::backend().descriptor()
}

/// Why the encoder registry picked its lane.
pub fn encoder_selection_note(requested_id: Option<&str>) -> (r: String)
    ensures
        r@ == selection_note("Encoder"@, "RECORD_SCREEN_ENCODER_BACKEND"@, is_forced(requested_id, "windows-media-foundation"@),
            req_text(requested_id), "Windows Media Foundation"@, None),
{
    let statuses = encoder_backend_statuses();
    proof { lemma_single_selection(encoder_ids(statuses@), encoder_available(statuses@), opt_view(requested_id)); }
    assert(encoder_ids(statuses@)[0] == statuses@[0].descriptor.id@);
    explain_encoder_backend_selection(statuses.as_slice(), requested_id).note
}

/// The encoder registry's runtime snapshot.
pub fn encoder_runtime_snapshot(requested_id: Option<&str>) -> (r: EncoderBackendRuntimeSnapshot)
    ensures
        r.path@ == "Windows Media Foundation"@,
        opt_sview(r.summary) == Some(encoder::runtime_summary_text()),
        opt_sview(r.preferred_encoder_label) == Some("Windows Media Foundation H.264"@),
{
    let statuses = encoder_backend_statuses();
    let rep = encoder::backend().runtime_report();
    proof { lemma_single_selection(encoder_ids(statuses@), encoder_available(statuses@), opt_view(requested_id)); }
    assert(encoder_ids(statuses@)[0] == statuses@[0].descriptor.id@);
    encoder_backend_runtime_snapshot(statuses.as_slice(), requested_id, rep)
}

// What the launcher is told

pub fn custom_region_support_summary() -> (r: (bool, String))
    ensures
        r.0,
        r.1@ == "Custom region capture now uses the native Windows.Graphics.Capture path."@,
{
    (true, String::from_str("Custom region capture now uses the native Windows.Graphics.Capture path."))
}

pub open spec fn plural(n: nat) -> Seq<char> {
    if n == 1 { seq![] } else { "s"@ }
}

pub open spec fn input_support_spec(plan: Option<WindowsAudioRuntimePlan>) -> Seq<char> {
    match plan {
        None => "Windows could not inspect WASAPI audio endpoints from this session."@,
        Some(p) => {
            let label = route_input_label(p);
            "Windows reports default input `"@ + (match label { Some(l) => l, None => "not detected"@ }) + "`, "@
                + dec(p.capture_endpoint_count as nat) + " capture endpoint"@ + plural(p.capture_endpoint_count as nat)
                + ", and "@ + dec(p.render_endpoint_count as nat) + " render endpoint"@ + plural(p.render_endpoint_count as nat)
                + ". "@ + input_note_spec(label) + " "@ + intent_summary_spec(intent_parts(label, None, true, false)) + " "@
                + (match runtime_summary_spec(plan) {
                    Some(s) => s,
                    None => "Windows audio probing could not resolve a stable WASAPI candidate yet."@,
                })
        },
    }
}

fn push_plural(s: &mut String, n: usize)
    ensures
        final(s)@ == old(s)@ + plural(n as nat),
{
    if n != 1 {
        push_str(s, "s");
    } else {
        proof { reveal_strlit(""); assert(old(s)@ + seq![] =~= old(s)@); }
    }
}

/// What the launcher is told about microphone discovery.
pub fn audio_input_support_summary(plan: Option<&WindowsAudioRuntimePlan>) -> (r: String)
    ensures
        r@ == input_support_spec(opt_plan(plan)),
{
    let p = match plan {
        None => {
            return String::from_str("Windows could not inspect WASAPI audio endpoints from this session.");
        },
        Some(p) => p,
    };
    let route = audio::build_route_plan(p);
    let intent = audio::build_runtime_intent(&route, true, false);
    let wasapi = match audio::runtime_summary(Some(p)) {
        Some(s) => s,
        None => String::from_str("Windows audio probing could not resolve a stable WASAPI candidate yet."),
    };
    let mut s = String::from_str("Windows reports default input `");
    match &route.default_input_label {
        Some(l) => push_str(&mut s, l.as_str()),
        None => push_str(&mut s, "not detected"),
    }
    push_str(&mut s, "`, ");
    push_dec(&mut s, p.capture_endpoint_count as u64);
    push_str(&mut s, " capture endpoint");
    push_plural(&mut s, p.capture_endpoint_count);
    push_str(&mut s, ", and ");
    push_dec(&mut s, p.render_endpoint_count as u64);
    push_str(&mut s, " render endpoint");
    push_plural(&mut s, p.render_endpoint_count);
    push_str(&mut s, ". ");
    push_str(&mut s, route.default_input_note.as_str());
    push_str(&mut s, " ");
    push_str(&mut s, intent.summary.as_str());
    push_str(&mut s, " ");
    push_str(&mut s, wasapi.as_str());
    s
}

pub open spec fn system_support_spec(plan: Option<WindowsAudioRuntimePlan>) -> (bool, Seq<char>) {
    match plan {
        None => (false, "Windows could not inspect WASAPI audio endpoints from this session."@),
        Some(p) => if p.render_endpoint_count > 0 {
            let label = route_loopback_label(p);
            (true, "Windows reports "@ + dec(p.render_endpoint_count as nat) + " render endpoint"@
                + plural(p.render_endpoint_count as nat) + " for the native WASAPI loopback path. "@
                + loopback_note_spec(label) + " "@ + intent_summary_spec(intent_parts(None, label, false, true))
                + " The current preferred render candidate is `"@
                + (match label { Some(l) => l, None => "not resolved"@ }) + "`."@)
        } else {
            (false, "Windows did not resolve a stable render endpoint for native loopback capture yet."@)
        },
    }
}

/// Whether system audio can be recorded, and what the launcher is told.
pub fn system_audio_support_summary(plan: Option<&WindowsAudioRuntimePlan>) -> (r: (bool, String))
    ensures
        (r.0, r.1@) == system_support_spec(opt_plan(plan)),
{
    let p = match plan {
        None => {
            return (false, String::from_str("Windows could not inspect WASAPI audio endpoints from this session."));
        },
        Some(p) => p,
    };
    if p.render_endpoint_count == 0 {
        return (false, String::from_str("Windows did not resolve a stable render endpoint for native loopback capture yet."));
    }
    let route = audio::build_route_plan(p);
    let intent = audio::build_runtime_intent(&route, false, true);
    let mut s = String::from_str("Windows reports ");
    push_dec(&mut s, p.render_endpoint_count as u64);
    push_str(&mut s, " render endpoint");
    push_plural(&mut s, p.render_endpoint_count);
    push_str(&mut s, " for the native WASAPI loopback path. ");
    push_str(&mut s, route.loopback_note.as_str());
    push_str(&mut s, " ");
    push_str(&mut s, intent.summary.as_str());
    push_str(&mut s, " The current preferred render candidate is `");
    match &route.preferred_loopback_label {
        Some(l) => push_str(&mut s, l.as_str()),
        None => push_str(&mut s, "not resolved"),
    }
    push_str(&mut s, "`.");
    (true, s)
}

/// `Default input`, described by the route plan's note when there is a plan.
pub open spec fn default_input_view(plan: Option<WindowsAudioRuntimePlan>) -> AudioInputView {
    AudioInputView {
        id: DEFAULT_AUDIO_INPUT_ID@,
        label: "Default input"@,
        description: match plan {
            Some(p) => input_note_spec(route_input_label(p)),
            None => "Use the system default microphone or audio input device."@,
        },
        kind: AudioInputKind::Default,
    }
}

/// The inputs the launcher offers: `Default input`, then the preferred
/// capture and render endpoints.
pub fn list_audio_inputs(plan: Option<&WindowsAudioRuntimePlan>) -> (r: Vec<AudioInputOption>)
    ensures
        input_views(r@) == seq![default_input_view(opt_plan(plan))] + selectable_spec(opt_plan(plan)),
{
    let mut default_input = default_audio_input();
    match plan {
        Some(p) => {
            let route = audio::build_route_plan(p);
            default_input.description = route.default_input_note;
        },
        None => {},
    }
    let rest = audio::selectable_audio_inputs(plan);
    let mut inputs: Vec<AudioInputOption> = Vec::new();
    inputs.push(default_input);
    let mut i: usize = 0;
    while i < rest.len()
        invariant
            i <= rest@.len(),
            input_views(inputs@) == seq![default_input_view(opt_plan(plan))] + input_views(rest@.subrange(0, i as int)),
        decreases rest@.len() - i,
    {
        let ghost before = inputs@;
        inputs.push(crate::capture::copy_input(&rest[i]));
        assert(input_views(inputs@) == input_views(before).push(rest@[i as int]@));
        assert(rest@.subrange(0, i + 1) == rest@.subrange(0, i as int).push(rest@[i as int]));
        assert(input_views(rest@.subrange(0, i + 1)) == input_views(rest@.subrange(0, i as int)).push(rest@[i as int]@));
        i += 1;
    }
    assert(rest@.subrange(0, rest@.len() as int) == rest@);
    inputs
}

// What a recording would do

/// The route labels of an endpoint plan.
pub open spec fn plan_labels(plan: Option<WindowsAudioRuntimePlan>) -> Option<(Option<Seq<char>>, Option<Seq<char>>)> {
    match plan {
        Some(p) => Some((route_input_label(p), route_loopback_label(p))),
        None => None,
    }
}

/// The audio start plan's summary (always there), with the route of the
/// endpoint plan when there is one.
pub fn audio_start_plan_summary(options: &crate::capture::RecordingOptions, discovered_inputs: &[AudioInputOption],
    plan: Option<&WindowsAudioRuntimePlan>) -> (r: Option<String>)
    ensures
        r matches Some(s) && ({
            let labels = plan_labels(opt_plan(plan));
            let mic = audio::start_microphone_spec(options.audio_input_id@, options.mic_enabled, discovered_inputs@, labels);
            let sys = audio::start_system_spec(options.system_audio_enabled, discovered_inputs@);
            s@ == audio::start_summary_spec(labels, options.mic_enabled, options.system_audio_enabled, mic, sys)
        }),
{
    let route = audio::route_plan(plan);
    let route_ref = match &route {
        Some(rp) => Some(rp),
        None => None,
    };
    Some(audio::start_plan(options.audio_input_id.as_str(), options.mic_enabled, options.system_audio_enabled,
        discovered_inputs, route_ref).summary)
}

/// The capture start plan's summary, `None` when the target does not resolve.
pub fn capture_start_plan_summary(options: &crate::capture::RecordingOptions, monitors: &[capture::MonitorDescriptor],
    windows: &Result<Vec<capture::WindowDescriptor>, crate::capture::CaptureError>) -> (r: Option<String>)
    requires
        options.capture_target_id@ == crate::capture::FULL_DESKTOP_TARGET_ID@
            ==> crate::linux::targets::desktop_fits(capture::monitor_views(monitors@)),
    ensures
        match capture::resolve_spec(options.capture_target_id@, capture::region_of(*options), monitors@,
            capture::windows_listing(*windows)) {
            capture::ResolveOutcome::Target(t) => r matches Some(s) && s@ == capture::start_summary_spec(t),
            _ => r is None,
        },
{
    match capture::start_plan(options, monitors, windows) {
        Ok(p) => Some(p.summary),
        Err(_) => None,
    }
}

/// The execution plan's summary, `None` when no plan can be made.
pub fn capture_execution_plan_summary(options: &crate::capture::RecordingOptions,
    monitors: &Result<Vec<capture::MonitorDescriptor>, crate::capture::CaptureError>,
    windows: &Result<Vec<capture::WindowDescriptor>, crate::capture::CaptureError>) -> (r: Option<String>)
    requires
        crate::linux::targets::desktop_fits(capture::monitor_views(capture::listed_or_none(*monitors))),
    ensures
        match r {
            Some(s) => capture::execution_summary_spec(*options, *monitors, *windows) == Some(s@),
            None => capture::execution_summary_spec(*options, *monitors, *windows) is None,
        },
{
    match capture::execution_plan(options, monitors, windows) {
        Ok(p) => Some(p.summary),
        Err(_) => None,
    }
}

/// The WASAPI foundation summary of the clients the recording opened
/// (`None` when opening one failed).
pub fn audio_runtime_foundation_summary(
    opened: Result<(Option<audio::WindowsWasapiClientFoundation>, Option<audio::WindowsWasapiClientFoundation>), String>,
) -> (r: Option<String>)
    ensures
        match opened {
            Ok((m, l)) => r matches Some(s) && s@ == audio::foundation_summary_spec(m, l),
            Err(_) => r is None,
        },
{
    audio::runtime_foundation_summary(opened)
}

/// The WASAPI smoke summary of the workers that ran (`None` when one failed).
pub fn audio_smoke_lifecycle_summary(
    ran: Result<(Option<audio::WindowsWasapiPacketStats>, Option<audio::WindowsWasapiPacketStats>), String>,
) -> (r: Option<String>)
    ensures
        match ran {
            Ok((m, l)) => r matches Some(s) && s@ == audio::smoke_summary_spec(m, l),
            Err(_) => r is None,
        },
{
    audio::smoke_lifecycle_summary(ran)
}

/// The sink-writer foundation summary of a recording, from the video
/// stream index the writer gave (`Err` when the writer could not be set up).
pub fn encoder_runtime_foundation_summary(options: &crate::capture::RecordingOptions, stream_index: Result<u32, crate::capture::CaptureError>) -> (r: Option<String>)
    ensures
        match stream_index {
            Ok(i) => r matches Some(s) && s@ == encoder::foundation_summary_spec(*options, i),
            Err(_) => r is None,
        },
{
    match stream_index {
        Ok(i) => {
            let plan = encoder::output_plan(options);
            Some(encoder::runtime_foundation(&plan, i).summary)
        },
        Err(_) => None,
    }
}

/// The sample bridge summary of a recording (always there).
pub fn encoder_sample_bridge_summary(options: &crate::capture::RecordingOptions) -> (r: Option<String>)
    ensures
        r matches Some(s) && s@ == "Windows Media Foundation sample bridge expects `"@ + "d3d11-texture2d"@
            + "` and would use `"@ + "MFCreateVideoSampleFromSurface(ID3D11Texture2D)"@ + "` with sample_duration_100ns="@
            + crate::text::idec(encoder::frame_duration_spec(encoder::quality_spec(options.quality_preset@).2)) + "."@,
{
    encoder::sample_bridge_summary(options)
}

/// What the capture-to-encoder smoke run reports: the written sample's
/// surface kind, stream index, time and duration (`Err` when the run failed).
pub fn capture_encoder_bridge_smoke_summary(written: Result<(String, u32, i64, i64), crate::capture::CaptureError>) -> (r: Option<String>)
    ensures
        match written {
            Ok((kind, index, time, duration)) => r matches Some(s) && s@ == "Windows WGC -> Media Foundation smoke wrote one `"@
                + kind@ + "` sample. "@ + "surface_kind="@ + kind@ + " stream_index="@ + dec(index as nat)
                + " sample_time_100ns="@ + crate::text::idec(time as int) + " sample_duration_100ns="@
                + crate::text::idec(duration as int),
            Err(_) => r is None,
        },
{
    capture::encoder_bridge_smoke_summary(written)
}

/// Whether the native runtime foundation could be built for a recording.
pub fn supports_native_runtime_foundation(foundation: &Result<capture::WindowsGraphicsCaptureRuntimeFoundation, crate::capture::CaptureError>) -> (r: bool)
    ensures
        r == foundation is Ok,
{
    foundation.is_ok()
}

} // verus!
