//! macOS capture planning: the ScreenCaptureKit lane, Core Audio devices,
//! the native recording output, and what the launcher is told.
use vstd::prelude::*;
use vstd::string::*;
use crate::capture::{audio_available, audio_ids, audio_reason, capture_available, capture_ids, capture_reason,
    default_audio_input, encoder_available, encoder_ids, encoder_reason, explain_audio_backend_selection,
    explain_capture_backend_selection, explain_encoder_backend_selection, full_desktop_target, input_views,
    is_forced, lemma_single_selection, opt_sview, opt_view, req_text, selection_note, target_views,
    audio_backend_runtime_snapshot, capture_backend_runtime_snapshot, encoder_backend_runtime_snapshot,
    AudioBackendDescriptor, AudioBackendRuntimeSnapshot, AudioBackendStatus, AudioInputOption, AudioInputView,
    CaptureBackendDescriptor, CaptureBackendRuntimeSnapshot, CaptureBackendStatus, CaptureTargetOption,
    CaptureTargetView, EncoderBackendDescriptor, EncoderBackendRuntimeSnapshot, EncoderBackendStatus,
    CaptureError, RecordingOptions, DEFAULT_AUDIO_INPUT_ID};
use crate::macos::audio::{device_views, native_input_view, opt_report, preferred_device_spec,
    recording_output_supported, reported_inputs, runtime_summary_spec, MacosAudioDeviceReport,
    MacosNativeAudioInputDevice};
use crate::macos::native_backend::{availability_spec, probe_error_of, version_spec, NativeDisplay,
    ScreenCaptureKitBufferBridgeStats, ScreenCaptureKitProbeReport};
use crate::text::{dec, push_dec, push_str};

pub mod audio;
pub mod composite;
pub mod encoder;
pub mod native_backend;

verus! {

/// A `major.minor.patch` macOS product version (see `version_spec`).
pub fn parse_macos_version(value: &str) -> (r: Option<(u64, u64, u64)>)
    ensures
        r == version_spec(value@),
{
    native_backend::parse_version(value)
}

/// Whether the native recording output runs: macOS 15 or newer.
pub fn native_recording_output_is_supported(version: Option<(u64, u64, u64)>) -> (r: bool)
    ensures
        r == recording_output_supported(version),
{
    match version {
        Some((major, _, _)) => major >= 15,
        None => false,
    }
}

pub open spec fn support_note_spec(version: Option<(u64, u64, u64)>) -> Seq<char> {
    match version {
        Some((major, minor, patch)) => if major < 15 {
            "System audio capture requires macOS 15.0 or newer for the ScreenCaptureKit recording-output lane. Current runtime is "@
                + dec(major as nat) + "."@ + dec(minor as nat) + "."@ + dec(patch as nat) + "."@
        } else {
            "ScreenCaptureKit recording output should be available on this macOS runtime, but the direct native lane could not be used."@
        },
        None => "The app could not confirm the macOS version for ScreenCaptureKit recording-output support."@,
    }
}

/// Why the native recording-output lane is not used on a runtime.
pub fn native_recording_output_support_note_for(version: Option<(u64, u64, u64)>) -> (r: String)
    ensures
        r@ == support_note_spec(version),
{
    match version {
        Some((major, minor, patch)) => if major < 15 {
            let mut s = String::from_str("System audio capture requires macOS 15.0 or newer for the ScreenCaptureKit recording-output lane. Current runtime is ");
            push_dec(&mut s, major);
            push_str(&mut s, ".");
            push_dec(&mut s, minor);
            push_str(&mut s, ".");
            push_dec(&mut s, patch);
            push_str(&mut s, ".");
            s
        } else {
            String::from_str("ScreenCaptureKit recording output should be available on this macOS runtime, but the direct native lane could not be used.")
        },
        None => String::from_str("The app could not confirm the macOS version for ScreenCaptureKit recording-output support."),
    }
}

/// Whether a custom region can be recorded, and what the launcher is told.
pub fn custom_region_support_summary(version: Option<(u64, u64, u64)>) -> (r: (bool, String))
    ensures
        r.0 == recording_output_supported(version),
        r.1@ == if r.0 {
            "Custom region capture is available on macOS through the ScreenCaptureKit native lane."@
        } else {
            support_note_spec(version)
        },
{
    if native_recording_output_is_supported(version) {
        (true, String::from_str("Custom region capture is available on macOS through the ScreenCaptureKit native lane."))
    } else {
        (false, native_recording_output_support_note_for(version))
    }
}

/// Whether system audio can be recorded, and what the launcher is told.
pub fn system_audio_support_summary(version: Option<(u64, u64, u64)>) -> (r: (bool, String))
    ensures
        r.0 == recording_output_supported(version),
        r.1@ == if r.0 {
            "System audio capture is available on macOS through the ScreenCaptureKit recording-output lane."@
        } else {
            support_note_spec(version)
        },
{
    if native_recording_output_is_supported(version) {
        (true, String::from_str("System audio capture is available on macOS through the ScreenCaptureKit recording-output lane."))
    } else {
        (false, native_recording_output_support_note_for(version))
    }
}

/// The inputs the launcher offers besides `Default input` (see
/// `audio::selectable_audio_inputs`).
pub open spec fn selectable_view(native: Seq<MacosNativeAudioInputDevice>, report: Option<MacosAudioDeviceReport>) -> Seq<AudioInputView> {
    if native.len() > 0 {
        native.map_values(|d: MacosNativeAudioInputDevice| native_input_view(d))
    } else {
        match report {
            Some(rep) => reported_inputs(device_views(rep.devices@)),
            None => seq![],
        }
    }
}

pub open spec fn input_support_spec(n: nat, summary: Option<Seq<char>>) -> Seq<char> {
    if n > 0 {
        let base = "Native microphone discovery is ready. Found "@ + dec(n) + " input"@
            + (if n == 1 { seq![] } else { "s"@ }) + "."@;
        match summary {
            Some(s) => base + " "@ + s,
            None => base,
        }
    } else {
        match summary {
            Some(s) => "Native microphone discovery did not expose a selectable input yet. "@ + s,
            None => "Native microphone discovery did not expose a selectable input yet."@,
        }
    }
}

/// What the launcher is told about microphone discovery.
pub fn audio_input_support_summary(native_inputs: &Vec<MacosNativeAudioInputDevice>, report: Option<&MacosAudioDeviceReport>) -> (r: String)
    ensures
        r@ == input_support_spec(selectable_view(native_inputs@, opt_report(report)).len(),
            runtime_summary_spec(opt_report(report))),
{
    let inputs = audio::selectable_audio_inputs(native_inputs, report);
    let n = inputs.len();
    assert(n == input_views(inputs@).len());
    let summary = audio::runtime_summary(report);
    if n > 0 {
        let mut base = String::from_str("Native microphone discovery is ready. Found ");
        push_dec(&mut base, n as u64);
        push_str(&mut base, " input");
        if n == 1 {
            proof { reveal_strlit(""); }
        } else {
            push_str(&mut base, "s");
        }
        push_str(&mut base, ".");
        match summary {
            Some(s) => {
                push_str(&mut base, " ");
                push_str(&mut base, s.as_str());
                base
            },
            None => base,
        }
    } else {
        match summary {
            Some(s) => {
                let mut r = String::from_str("Native microphone discovery did not expose a selectable input yet. ");
                push_str(&mut r, s.as_str());
                r
            },
            None => String::from_str("Native microphone discovery did not expose a selectable input yet."),
        }
    }
}

pub open spec fn full_desktop_view() -> CaptureTargetView {
    CaptureTargetView {
        id: crate::capture::FULL_DESKTOP_TARGET_ID@,
        label: "Full desktop"@,
        description: "Record the entire active desktop layout across all connected displays."@,
    }
}

/// The targets offered: the native ones, else the full desktop alone.
pub open spec fn targets_spec(native: Option<Seq<CaptureTargetView>>) -> Seq<CaptureTargetView> {
    match native {
        Some(t) if t.len() > 0 => t,
        _ => seq![full_desktop_view()],
    }
}

pub open spec fn opt_targets(native: Option<Vec<CaptureTargetOption>>) -> Option<Seq<CaptureTargetView>> {
    match native {
        Some(v) => Some(target_views(v@)),
        None => None,
    }
}

/// `Default input`, described by the macOS default input device when the
/// report names one.
pub open spec fn default_input_view(report: Option<MacosAudioDeviceReport>) -> AudioInputView {
    AudioInputView {
        id: DEFAULT_AUDIO_INPUT_ID@,
        label: "Default input"@,
        description: match preferred_device_spec(report, false) {
            Some(p) => "Use the macOS default input device: "@ + p + "."@,
            None => "Use the system default microphone or audio input device."@,
        },
        kind: crate::capture::AudioInputKind::Default,
    }
}

/// The targets and inputs the launcher offers, from what the native
/// probes found (`native_targets` is `None` when the display probe failed).
pub fn list_device_options(
    native_targets: Option<Vec<CaptureTargetOption>>,
    native_inputs: &Vec<MacosNativeAudioInputDevice>,
    report: Option<&MacosAudioDeviceReport>,
) -> (r: (Vec<CaptureTargetOption>, Vec<AudioInputOption>))
    ensures
        target_views(r.0@) == targets_spec(opt_targets(native_targets)),
        input_views(r.1@) == seq![default_input_view(opt_report(report))]
            + selectable_view(native_inputs@, opt_report(report)),
{
    let ghost nt = opt_targets(native_targets);
    let mut targets = match native_targets {
        Some(t) => t,
        None => {
            let mut v: Vec<CaptureTargetOption> = Vec::new();
            v.push(full_desktop_target());
            v
        },
    };
    if targets.len() == 0 {
        targets.push(full_desktop_target());
    }
    assert(target_views(targets@) == targets_spec(nt));
    let mut default_input = default_audio_input();
    match audio::preferred_input_device_name(report) {
        Some(p) => {
            let mut d = String::from_str("Use the macOS default input device: ");
            push_str(&mut d, p.as_str());
            push_str(&mut d, ".");
            default_input.description = d;
        },
        None => {},
    }
    let native = audio::selectable_audio_inputs(native_inputs, report);
    let mut inputs: Vec<AudioInputOption> = Vec::new();
    inputs.push(default_input);
    let mut i: usize = 0;
    while i < native.len()
        invariant
            i <= native@.len(),
            input_views(inputs@) == seq![default_input_view(opt_report(report))] + input_views(native@.subrange(0, i as int)),
        decreases native@.len() - i,
    {
        let ghost before = inputs@;
        inputs.push(crate::capture::copy_input(&native[i]));
        assert(input_views(inputs@) == input_views(before).push(native@[i as int]@));
        assert(native@.subrange(0, i + 1) == native@.subrange(0, i as int).push(native@[i as int]));
        assert(input_views(native@.subrange(0, i + 1)) == input_views(native@.subrange(0, i as int)).push(native@[i as int]@));
        i += 1;
    }
    assert(native@.subrange(0, native@.len() as int) == native@);
    (targets, inputs)
}

/// The targets the launcher offers.
pub fn list_capture_targets(native_targets: Option<Vec<CaptureTargetOption>>) -> (r: Vec<CaptureTargetOption>)
    ensures
        target_views(r@) == targets_spec(opt_targets(native_targets)),
{
    let ghost nt = opt_targets(native_targets);
    let mut targets = match native_targets {
        Some(t) => t,
        None => {
            let mut v: Vec<CaptureTargetOption> = Vec::new();
            v.push(full_desktop_target());
            v
        },
    };
    if targets.len() == 0 {
        targets.push(full_desktop_target());
    }
    assert(target_views(targets@) == targets_spec(nt));
    targets
}

/// The inputs the launcher offers.
pub fn list_audio_inputs(native_inputs: &Vec<MacosNativeAudioInputDevice>, report: Option<&MacosAudioDeviceReport>) -> (r: Vec<AudioInputOption>)
    ensures
        input_views(r@) == seq![default_input_view(opt_report(report))] + selectable_view(native_inputs@, opt_report(report)),
{
    list_device_options(None, native_inputs, report).1
}

// The platform's backend registries

/// What probing the runtime found: the macOS version, the outcome of the
/// shareable-content probe and the Core Audio device report.
pub struct MacosRuntimeProbe {
    pub version: Option<(u64, u64, u64)>,
    pub shareable_content: Result<ScreenCaptureKitProbeReport, String>,
    pub audio_report: Option<MacosAudioDeviceReport>,
}

pub open spec fn capture_reason_of(p: MacosRuntimeProbe) -> Option<Seq<char>> {
    availability_spec(p.version, probe_error_of(p.shareable_content))
}

/// The capture registry: the ScreenCaptureKit lane alone.
pub fn backend_statuses(probe: &MacosRuntimeProbe) -> (r: Vec<CaptureBackendStatus>)
    ensures
        r@.len() == 1,
        r@[0].descriptor.id@ == "macos-screencapturekit"@,
        r@[0].descriptor.label@ == "macOS ScreenCaptureKit"@,
        capture_reason(r@[0].availability) == capture_reason_of(*probe),
{
    let b = native_backend::backend();
    let st = CaptureBackendStatus {
        descriptor: b.descriptor(),
        availability: b.availability(probe.version, &probe.shareable_content),
    };
    let mut r: Vec<CaptureBackendStatus> = Vec::new();
    r.push(st);
    r
}

/// The capture lane the registry picks (there is one).
pub fn selected_backend(probe: &MacosRuntimeProbe) -> (d: CaptureBackendDescriptor)
    ensures
        d.id@ == "macos-screencapturekit"@,
        d.label@ == "macOS ScreenCaptureKit"@,
{
    let statuses = backend_statuses(probe);
    statuses[0].descriptor
}

/// Why the capture registry picked its lane.
pub fn capture_selection_note(probe: &MacosRuntimeProbe, requested_id: Option<&str>) -> (r: String)
    ensures
        r@ == selection_note("Capture"@, "RECORD_SCREEN_CAPTURE_BACKEND"@, is_forced(requested_id, "macos-screencapturekit"@),
            req_text(requested_id), "macOS ScreenCaptureKit"@, capture_reason_of(*probe)),
{
    let statuses = backend_statuses(probe);
    proof { lemma_single_selection(capture_ids(statuses@), capture_available(statuses@), opt_view(requested_id)); }
    assert(capture_ids(statuses@)[0] == statuses@[0].descriptor.id@);
    explain_capture_backend_selection(statuses.as_slice(), requested_id).note
}

/// The capture registry's runtime snapshot.
pub fn capture_runtime_snapshot(probe: &MacosRuntimeProbe, requested_id: Option<&str>) -> (r: CaptureBackendRuntimeSnapshot)
    ensures
        r.path@ == "macOS ScreenCaptureKit"@,
        r.selection_note@ == selection_note("Capture"@, "RECORD_SCREEN_CAPTURE_BACKEND"@,
            is_forced(requested_id, "macos-screencapturekit"@), req_text(requested_id), "macOS ScreenCaptureKit"@,
            capture_reason_of(*probe)),
        (opt_sview(r.summary), r.preferred_target_label)
            == native_backend::capture_report_spec(probe.shareable_content, probe.version),
{
    let statuses = backend_statuses(probe);
    let report = native_backend::backend().runtime_report(&probe.shareable_content, probe.version);
    proof { lemma_single_selection(capture_ids(statuses@), capture_available(statuses@), opt_view(requested_id)); }
    assert(capture_ids(statuses@)[0] == statuses@[0].descriptor.id@);
    capture_backend_runtime_snapshot(statuses.as_slice(), requested_id, report)
}

/// The audio registry: the Core Audio lane alone.
pub fn audio_backend_statuses(probe: &MacosRuntimeProbe) -> (r: Vec<AudioBackendStatus>)
    ensures
        r@.len() == 1,
        r@[0].descriptor.id@ == "macos-core-audio"@,
        r@[0].descriptor.label@ == "macOS Core Audio"@,
        audio_reason(r@[0].availability) == audio::audio_availability_spec(probe.version, probe.audio_report),
{
    let b = audio::backend();
    let report: Option<&MacosAudioDeviceReport> = match &probe.audio_report {
        Some(x) => Some(x),
        None => None,
    };
    let st = AudioBackendStatus { descriptor: b.descriptor(), availability: b.availability(probe.version, report) };
    let mut r: Vec<AudioBackendStatus> = Vec::new();
    r.push(st);
    r
}

/// The audio lane the registry picks (there is one).
pub fn selected_audio_backend(probe: &MacosRuntimeProbe) -> (d: AudioBackendDescriptor)
    ensures
        d.id@ == "macos-core-audio"@,
        d.label@ == "macOS Core Audio"@,
{
    let statuses = audio_backend_statuses(probe);
    statuses[0].descriptor
}

/// Why the audio registry picked its lane.
pub fn audio_selection_note(probe: &MacosRuntimeProbe, requested_id: Option<&str>) -> (r: String)
    ensures
        r@ == selection_note("Audio"@, "RECORD_SCREEN_AUDIO_BACKEND"@, is_forced(requested_id, "macos-core-audio"@),
            req_text(requested_id), "macOS Core Audio"@, audio::audio_availability_spec(probe.version, probe.audio_report)),
{
    let statuses = audio_backend_statuses(probe);
    proof { lemma_single_selection(audio_ids(statuses@), audio_available(statuses@), opt_view(requested_id)); }
    assert(audio_ids(statuses@)[0] == statuses@[0].descriptor.id@);
    explain_audio_backend_selection(statuses.as_slice(), requested_id).note
}

/// The audio registry's runtime snapshot.
pub fn audio_runtime_snapshot(probe: &MacosRuntimeProbe, requested_id: Option<&str>) -> (r: AudioBackendRuntimeSnapshot)
    ensures
        r.path@ == "macOS Core Audio"@,
        r.selection_note@ == selection_note("Audio"@, "RECORD_SCREEN_AUDIO_BACKEND"@, is_forced(requested_id, "macos-core-audio"@),
            req_text(requested_id), "macOS Core Audio"@, audio::audio_availability_spec(probe.version, probe.audio_report)),
        opt_sview(r.preferred_input_label) == preferred_device_spec(probe.audio_report, false),
        opt_sview(r.preferred_system_label) == preferred_device_spec(probe.audio_report, true),
{
    let statuses = audio_backend_statuses(probe);
    let report: Option<&MacosAudioDeviceReport> = match &probe.audio_report {
        Some(x) => Some(x),
        None => None,
    };
    let rep = audio::backend().runtime_report(probe.version, report);
    proof { lemma_single_selection(audio_ids(statuses@), audio_available(statuses@), opt_view(requested_id)); }
    assert(audio_ids(statuses@)[0] == statuses@[0].descriptor.id@);
    audio_backend_runtime_snapshot(statuses.as_slice(), requested_id, rep)
}

/// The encoder registry: the native recording output alone.
pub fn encoder_backend_statuses(probe: &MacosRuntimeProbe) -> (r: Vec<EncoderBackendStatus>)
    ensures
        r@.len() == 1,
        r@[0].descriptor.id@ == "macos-native-recording-output"@,
        r@[0].descriptor.label@ == "macOS native recording output"@,
        encoder_reason(r@[0].availability) == encoder::encoder_availability_spec(probe.version),
{
    let b = encoder::backend();
    let st = EncoderBackendStatus { descriptor: b.descriptor(), availability: b.availability(probe.version) };
    let mut r: Vec<EncoderBackendStatus> = Vec::new();
    r.push(st);
    r
}

/// The encoder lane the registry picks (there is one).
pub fn selected_encoder_backend(probe: &MacosRuntimeProbe) -> (d: EncoderBackendDescriptor)
    ensures
        d.id@ == "macos-native-recording-output"@,
        d.label@ == "macOS native recording output"@,
{
    let statuses = encoder_backend_statuses(probe);
    statuses[0].descriptor
}

/// Why the encoder registry picked its lane.
pub fn encoder_selection_note(probe: &MacosRuntimeProbe, requested_id: Option<&str>) -> (r: String)
    ensures
        r@ == selection_note("Encoder"@, "RECORD_SCREEN_ENCODER_BACKEND"@,
            is_forced(requested_id, "macos-native-recording-output"@), req_text(requested_id),
            "macOS native recording output"@, encoder::encoder_availability_spec(probe.version)),
{
    let statuses = encoder_backend_statuses(probe);
    proof { lemma_single_selection(encoder_ids(statuses@), encoder_available(statuses@), opt_view(requested_id)); }
    assert(encoder_ids(statuses@)[0] == statuses@[0].descriptor.id@);
    explain_encoder_backend_selection(statuses.as_slice(), requested_id).note
}

/// The encoder registry's runtime snapshot.
pub fn encoder_runtime_snapshot(probe: &MacosRuntimeProbe, requested_id: Option<&str>) -> (r: EncoderBackendRuntimeSnapshot)
    ensures
        r.path@ == "macOS native recording output"@,
        opt_sview(r.summary) == encoder::encoder_runtime_summary_spec(probe.version),
        opt_sview(r.preferred_encoder_label) == (if probe.version is Some { Some("H.264 native recording output"@) } else { None }),
{
    let statuses = encoder_backend_statuses(probe);
    let rep = encoder::backend().runtime_report(probe.version);
    proof { lemma_single_selection(encoder_ids(statuses@), encoder_available(statuses@), opt_view(requested_id)); }
    assert(encoder_ids(statuses@)[0] == statuses@[0].descriptor.id@);
    encoder_backend_runtime_snapshot(statuses.as_slice(), requested_id, rep)
}

// What a recording would do

/// The capture start plan's summary (always there).
pub fn capture_start_plan_summary(options: &RecordingOptions, probe_report: Option<&ScreenCaptureKitProbeReport>) -> (r: Option<String>)
    ensures
        r matches Some(s) && s@ == native_backend::start_plan_summary_spec(*options, probe_report),
{
    Some(native_backend::start_plan(options, probe_report).summary)
}

/// The execution plan's summary, `None` when no native display was resolved.
pub fn capture_execution_plan_summary(options: &RecordingOptions, display: Option<NativeDisplay>) -> (r: Option<String>)
    ensures
        match display {
            None => r is None,
            Some(d) => r matches Some(s) && s@ == native_backend::execution_summary_spec(
                native_backend::display_label_spec(d.display_id, d.width, d.height),
                native_backend::stream_settings_spec(options.quality_preset@), options.system_audio_enabled,
                options.capture_target_id@ == crate::capture::CUSTOM_REGION_TARGET_ID@),
        },
{
    match native_backend::execution_plan(options, display) {
        Ok(p) => Some(p.summary),
        Err(_) => None,
    }
}

/// The stream foundation's summary (see `native_backend::runtime_foundation_summary`).
pub fn capture_runtime_foundation_summary(options: &RecordingOptions, display: Option<NativeDisplay>) -> (r: Option<String>)
    ensures
        match display {
            None => r is None,
            Some(d) => r matches Some(s) && s@ == native_backend::foundation_summary_spec(*options, d),
        },
{
    native_backend::runtime_foundation_summary(options, display)
}

/// The prepared runtime's summary (see `native_backend::prepared_runtime_summary`).
pub fn capture_prepared_runtime_summary(options: &RecordingOptions, display: Option<NativeDisplay>, handler_registered: bool) -> (r: Option<String>)
    ensures
        match display {
            None => r is None,
            Some(d) => r matches Some(s) && s@ == "ScreenCaptureKit prepared runtime registered screen handler="@
                + (if handler_registered { "true"@ } else { "false"@ }) + " for "@
                + native_backend::display_label_spec(d.display_id, d.width, d.height) + "."@,
        },
{
    native_backend::prepared_runtime_summary(options, display, handler_registered)
}

/// The smoke run's summary (see `native_backend::smoke_lifecycle_summary`).
pub fn capture_smoke_lifecycle_summary(
    options: &RecordingOptions,
    display: Option<NativeDisplay>,
    handler_registered: bool,
    frame_count: usize,
    audio_count: usize,
    stats: Option<ScreenCaptureKitBufferBridgeStats>,
) -> (r: Option<String>)
    ensures
        match display {
            Some(d) if handler_registered => r matches Some(s) && s@ == native_backend::smoke_summary_spec(
                native_backend::display_label_spec(d.display_id, d.width, d.height), frame_count, audio_count, stats),
            _ => r is None,
        },
{
    native_backend::smoke_lifecycle_summary(options, display, handler_registered, frame_count, audio_count, stats)
}

/// The audio start plan's summary (always there).
pub fn audio_start_plan_summary(
    options: &RecordingOptions,
    discovered_inputs: &[AudioInputOption],
    native_inputs: &[MacosNativeAudioInputDevice],
    report: Option<&MacosAudioDeviceReport>,
) -> (r: Option<String>)
    ensures
        r matches Some(s) && ({
            let mic = audio::native_microphone_spec(options.audio_input_id@, options.mic_enabled, discovered_inputs@,
                native_inputs@, preferred_device_spec(opt_report(report), false));
            let out = if options.system_audio_enabled { preferred_device_spec(opt_report(report), true) } else { None };
            s@ == audio::start_summary_spec(mic.1, mic.0, out)
        }),
{
    Some(audio::start_plan(options.audio_input_id.as_str(), options.mic_enabled, options.system_audio_enabled,
        discovered_inputs, native_inputs, report).summary)
}

/// The output plan's summary (always there).
pub fn encoder_output_plan_summary(options: &RecordingOptions) -> (r: Option<String>)
    requires
        options.output_path@.len() < i64::MAX,
    ensures
        r matches Some(s) && s@ == encoder::output_summary_spec(*options),
{
    Some(encoder::output_plan(options).summary)
}

// The recording-output session

/// What the recording-output callbacks have reported so far.
#[derive(Debug, Clone, PartialEq, Eq)]
pub struct ScreenCaptureKitRecordingOutputState {
    pub started: bool,
    pub finished: bool,
    pub error: Option<String>,
}

impl Default for ScreenCaptureKitRecordingOutputState {
    fn default() -> (r: Self)
        ensures
            !r.started,
            !r.finished,
            r.error is None,
    {
        ScreenCaptureKitRecordingOutputState { started: false, finished: false, error: None }
    }
}

impl ScreenCaptureKitRecordingOutputState {
    /// The start callback.
    pub fn mark_started(&mut self)
        ensures
            final(self).started,
            final(self).finished == old(self).finished,
            final(self).error == old(self).error,
    {
        self.started = true;
    }

    /// The failure callback.
    pub fn mark_failed(&mut self, error: String)
        ensures
            final(self).error == Some(error),
            final(self).started == old(self).started,
            final(self).finished == old(self).finished,
    {
        self.error = Some(error);
    }

    /// The finish callback.
    pub fn mark_finished(&mut self)
        ensures
            final(self).finished,
            final(self).started == old(self).started,
            final(self).error == old(self).error,
    {
        self.finished = true;
    }
}

/// Where a poll of the recording output stands.
#[derive(Debug)]
pub enum RecordingOutputPoll {
    Pending,
    Ready,
    Failed(CaptureError),
}

/// One poll while the recording output starts: a reported error fails the
/// start; the start callback, or the output file appearing, completes it.
pub fn startup_poll(state: &ScreenCaptureKitRecordingOutputState, output_file_exists: bool) -> (r: RecordingOutputPoll)
    ensures
        match state.error {
            Some(e) => r matches RecordingOutputPoll::Failed(CaptureError::SpawnFailed(m)) && m@ == e@,
            None => if state.started || output_file_exists { r is Ready } else { r is Pending },
        },
{
    match &state.error {
        Some(e) => RecordingOutputPoll::Failed(CaptureError::SpawnFailed(e.clone())),
        None => if state.started || output_file_exists {
            RecordingOutputPoll::Ready
        } else {
            RecordingOutputPoll::Pending
        },
    }
}

/// What the start reports once every poll came back pending.
pub fn startup_timeout() -> (e: CaptureError)
    ensures
        e matches CaptureError::SpawnFailed(m) && m@ == "ScreenCaptureKit recording output did not confirm startup in time."@,
{
    CaptureError::SpawnFailed(String::from_str("ScreenCaptureKit recording output did not confirm startup in time."))
}

/// The recorded file size as a byte count (a negative size counts as none).
pub fn recorded_file_size(size: i64) -> (r: u64)
    ensures
        r == if size < 0 { 0 } else { size as int },
{
    if size < 0 { 0 } else { size as u64 }
}

/// One poll while the recording output finishes: a reported error fails
/// the stop; the finish callback, or a non-empty output file, completes it.
pub fn completion_poll(state: &ScreenCaptureKitRecordingOutputState, output_file_exists: bool, recorded_size: i64) -> (r: RecordingOutputPoll)
    ensures
        match state.error {
            Some(e) => r matches RecordingOutputPoll::Failed(CaptureError::StopFailed(m)) && m@ == e@,
            None => if state.finished || (output_file_exists && recorded_size > 0) { r is Ready } else { r is Pending },
        },
{
    match &state.error {
        Some(e) => RecordingOutputPoll::Failed(CaptureError::StopFailed(e.clone())),
        None => if state.finished || (output_file_exists && recorded_file_size(recorded_size) > 0) {
            RecordingOutputPoll::Ready
        } else {
            RecordingOutputPoll::Pending
        },
    }
}

/// The outcome of stopping the stream, from the errors of stopping the
/// capture and of removing the recording output.
pub fn shutdown_outcome(stop_error: Option<String>, remove_error: Option<String>) -> (r: Result<(), CaptureError>)
    ensures
        match (stop_error, remove_error) {
            (None, None) => r is Ok,
            (Some(s), None) => r matches Err(CaptureError::StopFailed(m)) && m@ == s@,
            (None, Some(x)) => r matches Err(CaptureError::StopFailed(m)) && m@ == x@,
            (Some(s), Some(x)) => r matches Err(CaptureError::StopFailed(m)) && m@
                == "failed to stop ScreenCaptureKit recording output cleanly: stop="@ + s@ + "; remove="@ + x@,
        },
{
    match (stop_error, remove_error) {
        (None, None) => Ok(()),
        (Some(s), None) => Err(CaptureError::StopFailed(s)),
        (None, Some(x)) => Err(CaptureError::StopFailed(x)),
        (Some(s), Some(x)) => {
            let mut m = String::from_str("failed to stop ScreenCaptureKit recording output cleanly: stop=");
            push_str(&mut m, s.as_str());
            push_str(&mut m, "; remove=");
            push_str(&mut m, x.as_str());
            Err(CaptureError::StopFailed(m))
        },
    }
}

/// A recorded duration given as a media time (value over timescale), as
/// whole seconds and nanoseconds; none for a negative value or a
/// non-positive timescale.
pub fn duration_from_cmtime(value: i64, timescale: i32) -> (r: Option<(u64, u32)>)
    ensures
        (timescale <= 0 || value < 0) ==> r is None,
        (timescale > 0 && value >= 0) ==> r == Some((((value as int) / (timescale as int)) as u64,
            (((value as int) % (timescale as int)) * 1_000_000_000 / (timescale as int)) as u32)),
{
    if timescale <= 0 || value < 0 {
        return None;
    }
    let ts = timescale as i64;
    let seconds = value / ts;
    let rem = value % ts;
    assert(0 <= rem < ts);
    assert(rem * 1_000_000_000 <= ts * 1_000_000_000) by (nonlinear_arith)
        requires 0 <= rem < ts;
    assert(ts * 1_000_000_000 <= 0x8000_0000 * 1_000_000_000) by (nonlinear_arith)
        requires 0 < ts <= 0x7fff_ffff;
    let scaled = rem * 1_000_000_000;
    let nanos = scaled / ts;
    assert(nanos < 1_000_000_000) by (nonlinear_arith)
        requires nanos == scaled / ts, scaled == rem * 1_000_000_000, 0 <= rem < ts, ts > 0;
    Some((seconds as u64, nanos as u32))
}

/// The container a recording-output session writes.
#[derive(Debug, Clone, Copy, PartialEq, Eq, Structural)]
pub enum RecordingOutputFileType {
    Mov,
    Mp4,
}

/// QuickTime for a `.mov` output path (any case), else MPEG-4.
pub fn recording_output_file_type(output_path: &str) -> (r: RecordingOutputFileType)
    requires
        output_path@.len() < i64::MAX,
    ensures
        r == (match encoder::extension_spec(output_path@) {
            Some(e) if crate::text::lower(e) == "mov"@ => RecordingOutputFileType::Mov,
            _ => RecordingOutputFileType::Mp4,
        }),
{
    match encoder::path_extension(output_path) {
        Some(e) => {
            let l = crate::text::to_lower(&e);
            if crate::text::str_eq(crate::text::string_of(&l).as_str(), "mov") {
                RecordingOutputFileType::Mov
            } else {
                RecordingOutputFileType::Mp4
            }
        },
        None => RecordingOutputFileType::Mp4,
    }
}

/// The video codec a recording-output session uses.
#[derive(Debug, Clone, Copy, PartialEq, Eq, Structural)]
pub enum RecordingOutputCodec {
    Hevc,
    H264,
}

/// HEVC when the codec name mentions it (any case), else H.264.
pub fn recording_output_codec(codec_name: &str) -> (r: RecordingOutputCodec)
    ensures
        r == (if crate::text::contains(crate::text::lower(codec_name@), "hevc"@) {
            RecordingOutputCodec::Hevc
        } else {
            RecordingOutputCodec::H264
        }),
{
    let l = crate::text::to_lower(&crate::text::chars_of(codec_name));
    let p = crate::text::chars_of("hevc");
    if crate::text::contains_chars(&l, &p) { RecordingOutputCodec::Hevc } else { RecordingOutputCodec::H264 }
}

/// The targets the recording-output lane records: the full desktop, a
/// monitor, or a custom region.
pub fn supports_native_recording_output(capture_target_id: &str) -> (r: bool)
    ensures
        r == (capture_target_id@ == crate::capture::FULL_DESKTOP_TARGET_ID@
            || crate::text::has_prefix(capture_target_id@, "monitor:"@)
            || capture_target_id@ == crate::capture::CUSTOM_REGION_TARGET_ID@),
{
    let c = crate::text::chars_of(capture_target_id);
    let p = crate::text::chars_of("monitor:");
    crate::text::str_eq(capture_target_id, crate::capture::FULL_DESKTOP_TARGET_ID)
        || crate::text::starts_with(&c, &p)
        || crate::text::str_eq(capture_target_id, crate::capture::CUSTOM_REGION_TARGET_ID)
}

/// How an output file could not be inspected.
#[derive(Debug, Clone, Copy, PartialEq, Eq, Structural)]
pub enum OutputPathErrorKind {
    NotFound,
    PermissionDenied,
    StorageFull,
    Other,
}

pub open spec fn output_path_error_spec(path: Seq<char>, kind: OutputPathErrorKind, error_text: Seq<char>) -> Seq<char> {
    match kind {
        OutputPathErrorKind::NotFound => "recording output `"@ + path
            + "` is missing. The destination may have been removed or the recording never finalized cleanly."@,
        OutputPathErrorKind::PermissionDenied => "recording output `"@ + path
            + "` is not readable. Check folder permissions and macOS privacy access for the chosen output location."@,
        OutputPathErrorKind::StorageFull => "recording output `"@ + path
            + "` could not be finalized because the volume is full."@,
        OutputPathErrorKind::Other => error_text + " ("@ + path + ")"@,
    }
}

/// What the launcher is told when the output file cannot be inspected.
pub fn describe_output_path_error(path: &str, kind: OutputPathErrorKind, error_text: &str) -> (r: String)
    ensures
        r@ == output_path_error_spec(path@, kind, error_text@),
{
    match kind {
        OutputPathErrorKind::NotFound => {
            let mut s = String::from_str("recording output `");
            push_str(&mut s, path);
            push_str(&mut s, "` is missing. The destination may have been removed or the recording never finalized cleanly.");
            s
        },
        OutputPathErrorKind::PermissionDenied => {
            let mut s = String::from_str("recording output `");
            push_str(&mut s, path);
            push_str(&mut s, "` is not readable. Check folder permissions and macOS privacy access for the chosen output location.");
            s
        },
        OutputPathErrorKind::StorageFull => {
            let mut s = String::from_str("recording output `");
            push_str(&mut s, path);
            push_str(&mut s, "` could not be finalized because the volume is full.");
            s
        },
        OutputPathErrorKind::Other => {
            let mut s = String::from_str(error_text);
            push_str(&mut s, " (");
            push_str(&mut s, path);
            push_str(&mut s, ")");
            s
        },
    }
}

/// What the stop reports when the output file never appeared.
pub fn output_missing_error(path: &str) -> (e: CaptureError)
    ensures
        e matches CaptureError::OutputInspectionFailed(m) && m@ == "native recording output did not materialize `"@ + path@
            + "` in time. The file may still be finalizing, the output directory may be unavailable, or the volume may be full."@,
{
    let mut m = String::from_str("native recording output did not materialize `");
    push_str(&mut m, path);
    push_str(&mut m, "` in time. The file may still be finalizing, the output directory may be unavailable, or the volume may be full.");
    CaptureError::OutputInspectionFailed(m)
}

/// The label a running recording shows: the custom region's position and
/// size, else the native display the plan resolved to, else its source target.
pub fn recording_target_label(options: &RecordingOptions, plan: &native_backend::ScreenCaptureKitStartPlan) -> (r: String)
    ensures
        r@ == if options.capture_target_id@ == crate::capture::CUSTOM_REGION_TARGET_ID@ {
            "Custom region · "@ + dec(options.region_x as nat) + ", "@ + dec(options.region_y as nat) + " · "@
                + dec(options.region_width as nat) + " x "@ + dec(options.region_height as nat)
        } else {
            match opt_sview(plan.resolved_native_target_label) {
                Some(l) => l,
                None => plan.resolved_source_target_id@,
            }
        },
{
    if crate::text::str_eq(options.capture_target_id.as_str(), crate::capture::CUSTOM_REGION_TARGET_ID) {
        let mut s = String::from_str("Custom region · ");
        push_dec(&mut s, options.region_x as u64);
        push_str(&mut s, ", ");
        push_dec(&mut s, options.region_y as u64);
        push_str(&mut s, " · ");
        push_dec(&mut s, options.region_width as u64);
        push_str(&mut s, " x ");
        push_dec(&mut s, options.region_height as u64);
        s
    } else {
        match &plan.resolved_native_target_label {
            Some(l) => l.clone(),
            None => plan.resolved_source_target_id.clone(),
        }
    }
}

} // verus!
