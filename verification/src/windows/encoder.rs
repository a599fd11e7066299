//! The Windows Media Foundation output: the H.264 profile of a preset,
//! how captured surfaces become samples, and the audio stream formats.
use vstd::prelude::*;
use vstd::string::*;
use crate::capture::{encoder_reason, opt_sview, EncoderBackendAvailability, EncoderBackendDescriptor,
    EncoderBackendRuntimeReport, RecordingOptions};
use crate::text::{dec, idec, push_dec, push_idec, push_str, str_eq};

verus! {

/// The Media Foundation lane.
pub struct MediaFoundationWindowsEncoderBackend;

pub fn backend() -> MediaFoundationWindowsEncoderBackend {
    MediaFoundationWindowsEncoderBackend
}

/// How a recording would be written.
#[derive(Debug, Clone, PartialEq, Eq)]
pub struct MediaFoundationOutputPlan {
    pub output_path: String,
    pub container_label: String,
    pub encoder_label: String,
    pub width: u32,
    pub height: u32,
    pub fps: u32,
    pub bitrate: u32,
    pub summary: String,
}

/// What a sink-writer session set up.
#[derive(Debug, Clone, PartialEq, Eq)]
pub struct MediaFoundationRuntimeFoundation {
    pub output_path: String,
    pub stream_index: u32,
    pub output_encoder_label: String,
    pub input_format_label: String,
    pub writing_started: bool,
    pub summary: String,
}

/// How captured surfaces become samples.
#[derive(Debug, Clone, PartialEq, Eq)]
pub struct MediaFoundationSampleBridgePlan {
    pub expected_surface_kind: String,
    pub sample_factory: String,
    pub duration_100ns: i64,
    pub summary: String,
}

/// Size, frame rate and bit rate of a preset; unknown presets get 1080p at
/// 30 fps.
pub open spec fn quality_spec(p: Seq<char>) -> (u32, u32, u32, u32) {
    if p == "720p / 30 fps"@ {
        (1280, 720, 30, 5_000_000)
    } else if p == "1080p / 30 fps"@ {
        (1920, 1080, 30, 8_000_000)
    } else if p == "1440p / 60 fps"@ {
        (2560, 1440, 60, 16_000_000)
    } else if p == "4K / 60 fps"@ {
        (3840, 2160, 60, 32_000_000)
    } else {
        (1920, 1080, 30, 8_000_000)
    }
}

pub fn quality_settings(preset: &str) -> (r: (u32, u32, u32, u32))
    ensures
        r == quality_spec(preset@),
{
    if str_eq(preset, "720p / 30 fps") {
        (1280, 720, 30, 5_000_000)
    } else if str_eq(preset, "1080p / 30 fps") {
        (1920, 1080, 30, 8_000_000)
    } else if str_eq(preset, "1440p / 60 fps") {
        (2560, 1440, 60, 16_000_000)
    } else if str_eq(preset, "4K / 60 fps") {
        (3840, 2160, 60, 32_000_000)
    } else {
        (1920, 1080, 30, 8_000_000)
    }
}

proof fn lemma_preset_names_differ()
    ensures
        "720p / 30 fps"@ != "1080p / 30 fps"@,
        "720p / 30 fps"@ != "1080p / 60 fps"@,
        "720p / 30 fps"@ != "1440p / 60 fps"@,
        "720p / 30 fps"@ != "4K / 60 fps"@,
        "1080p / 30 fps"@ != "1080p / 60 fps"@,
        "1080p / 30 fps"@ != "1440p / 60 fps"@,
        "1080p / 30 fps"@ != "4K / 60 fps"@,
        "1080p / 60 fps"@ != "1440p / 60 fps"@,
        "1080p / 60 fps"@ != "4K / 60 fps"@,
        "1440p / 60 fps"@ != "4K / 60 fps"@,
{
    reveal_strlit("720p / 30 fps");
    reveal_strlit("1080p / 30 fps");
    reveal_strlit("1080p / 60 fps");
    reveal_strlit("1440p / 60 fps");
    reveal_strlit("4K / 60 fps");
    assert("720p / 30 fps"@[0] != "4K / 60 fps"@[0]);
    assert("1080p / 30 fps"@[8] != "1080p / 60 fps"@[8]);
    assert("1080p / 30 fps"@[1] != "1440p / 60 fps"@[1]);
    assert("1080p / 60 fps"@[1] != "1440p / 60 fps"@[1]);
}

/// Each offered preset records at the size its name gives, 16:9, at the
/// named frame rate: 720p at 5 Mbit/s, 1080p at 8, 1440p at 16 and 4K
/// (3840 x 2160) at 32.
pub proof fn law_preset_profiles()
    ensures
        quality_spec("720p / 30 fps"@) == (1280u32, 720u32, 30u32, 5_000_000u32),
        quality_spec("1080p / 30 fps"@) == (1920u32, 1080u32, 30u32, 8_000_000u32),
        quality_spec("1440p / 60 fps"@) == (2560u32, 1440u32, 60u32, 16_000_000u32),
        quality_spec("4K / 60 fps"@) == (3840u32, 2160u32, 60u32, 32_000_000u32),
{
    lemma_preset_names_differ();
}

/// Whatever the preset, the Windows encoder writes frames of the same size
/// as the Linux pipeline and the macOS stream configuration for that
/// preset, and every size is 16:9.
pub proof fn law_preset_size_agrees_across_platforms(p: Seq<char>)
    ensures
        quality_spec(p).0 == crate::linux::encoding::quality_settings_spec(p).0,
        quality_spec(p).1 == crate::linux::encoding::quality_settings_spec(p).1,
        quality_spec(p).0 == crate::macos::native_backend::stream_settings_spec(p).0,
        quality_spec(p).1 == crate::macos::native_backend::stream_settings_spec(p).1,
        quality_spec(p).0 * 9 == quality_spec(p).1 * 16,
{
    lemma_preset_names_differ();
}

pub open spec fn output_summary_spec(o: RecordingOptions) -> Seq<char> {
    let (w, h, fps, bitrate) = quality_spec(o.quality_preset@);
    "Windows Media Foundation output plan would write `"@ + o.output_path@ + "` as MP4 using H.264 at "@
        + dec(w as nat) + "x"@ + dec(h as nat) + " / "@ + dec(fps as nat) + " fps (~"@ + dec((bitrate / 1000) as nat)
        + " kbps) with ARGB32 input frames."@
}

/// The output plan of a recording: an H.264 MP4 at the preset's profile.
pub fn output_plan(options: &RecordingOptions) -> (p: MediaFoundationOutputPlan)
    ensures
        p.output_path@ == options.output_path@,
        p.container_label@ == "MP4"@,
        p.encoder_label@ == "Media Foundation H.264"@,
        (p.width, p.height, p.fps, p.bitrate) == quality_spec(options.quality_preset@),
        p.summary@ == output_summary_spec(*options),
{
    let (width, height, fps, bitrate) = quality_settings(options.quality_preset.as_str());
    let mut summary = String::from_str("Windows Media Foundation output plan would write `");
    push_str(&mut summary, options.output_path.as_str());
    push_str(&mut summary, "` as MP4 using H.264 at ");
    push_dec(&mut summary, width as u64);
    push_str(&mut summary, "x");
    push_dec(&mut summary, height as u64);
    push_str(&mut summary, " / ");
    push_dec(&mut summary, fps as u64);
    push_str(&mut summary, " fps (~");
    push_dec(&mut summary, (bitrate / 1000) as u64);
    push_str(&mut summary, " kbps) with ARGB32 input frames.");
    MediaFoundationOutputPlan {
        output_path: options.output_path.clone(),
        container_label: String::from_str("MP4"),
        encoder_label: String::from_str("Media Foundation H.264"),
        width,
        height,
        fps,
        bitrate,
        summary,
    }
}

/// The output plan's summary (always there).
pub fn output_plan_summary(options: &RecordingOptions) -> (r: Option<String>)
    ensures
        r matches Some(s) && s@ == output_summary_spec(*options),
{
    Some(output_plan(options).summary)
}

/// The length of one frame in 100 ns units (the rate taken as at least 1).
pub open spec fn frame_duration_spec(fps: u32) -> int {
    10_000_000int / (if fps < 1 { 1int } else { fps as int })
}

pub fn frame_duration_100ns(fps: u32) -> (r: i64)
    ensures
        r == frame_duration_spec(fps),
{
    let f: u64 = if fps < 1 { 1 } else { fps as u64 };
    (10_000_000u64 / f) as i64
}

/// The sample factory for a kind of captured surface.
pub open spec fn sample_factory_spec(kind: Seq<char>) -> Seq<char> {
    if kind == "d3d11-texture2d"@ {
        "MFCreateVideoSampleFromSurface(ID3D11Texture2D)"@
    } else if kind == "dxgi-surface"@ {
        "MFCreateDXGISurfaceBuffer(IDXGISurface) + MFCreateSample/AddBuffer"@
    } else {
        "MFCreateVideoSampleFromSurface(IUnknown)"@
    }
}

pub open spec fn surface_kind_or_default(k: Option<&str>) -> Seq<char> {
    match k {
        Some(s) => s@,
        None => "d3d11-texture2d"@,
    }
}

/// How surfaces of the given kind (a D3D11 texture when unknown) become
/// samples, one frame long at the preset's rate.
pub fn sample_bridge_plan(options: &RecordingOptions, surface_kind: Option<&str>) -> (p: MediaFoundationSampleBridgePlan)
    ensures
        p.expected_surface_kind@ == surface_kind_or_default(surface_kind),
        p.sample_factory@ == sample_factory_spec(surface_kind_or_default(surface_kind)),
        p.duration_100ns == frame_duration_spec(quality_spec(options.quality_preset@).2),
        p.summary@ == "Windows Media Foundation sample bridge expects `"@ + p.expected_surface_kind@
            + "` and would use `"@ + p.sample_factory@ + "` with sample_duration_100ns="@
            + idec(p.duration_100ns as int) + "."@,
{
    let (_, _, fps, _) = quality_settings(options.quality_preset.as_str());
    let expected_surface_kind = match surface_kind {
        Some(k) => String::from_str(k),
        None => String::from_str("d3d11-texture2d"),
    };
    let sample_factory = if str_eq(expected_surface_kind.as_str(), "d3d11-texture2d") {
        String::from_str("MFCreateVideoSampleFromSurface(ID3D11Texture2D)")
    } else if str_eq(expected_surface_kind.as_str(), "dxgi-surface") {
        String::from_str("MFCreateDXGISurfaceBuffer(IDXGISurface) + MFCreateSample/AddBuffer")
    } else {
        String::from_str("MFCreateVideoSampleFromSurface(IUnknown)")
    };
    let duration_100ns = frame_duration_100ns(fps);
    let mut summary = String::from_str("Windows Media Foundation sample bridge expects `");
    push_str(&mut summary, expected_surface_kind.as_str());
    push_str(&mut summary, "` and would use `");
    push_str(&mut summary, sample_factory.as_str());
    push_str(&mut summary, "` with sample_duration_100ns=");
    push_idec(&mut summary, duration_100ns);
    push_str(&mut summary, ".");
    MediaFoundationSampleBridgePlan { expected_surface_kind, sample_factory, duration_100ns, summary }
}

/// The sample bridge's summary for D3D11 textures (always there).
pub fn sample_bridge_summary(options: &RecordingOptions) -> (r: Option<String>)
    ensures
        r matches Some(s) && s@ == "Windows Media Foundation sample bridge expects `"@ + "d3d11-texture2d"@
            + "` and would use `"@ + "MFCreateVideoSampleFromSurface(ID3D11Texture2D)"@ + "` with sample_duration_100ns="@
            + idec(frame_duration_spec(quality_spec(options.quality_preset@).2)) + "."@,
{
    Some(sample_bridge_plan(options, Some("d3d11-texture2d")).summary)
}

pub open spec fn runtime_summary_text() -> Seq<char> {
    "Windows encoder runtime now targets Media Foundation sink-writer output with H.264 video, optional WASAPI-backed audio streams, and native sample bridges for D3D11/DXGI capture surfaces."@
}

pub fn runtime_summary() -> (r: Option<String>)
    ensures
        opt_sview(r) == Some(runtime_summary_text()),
{
    Some(String::from_str("Windows encoder runtime now targets Media Foundation sink-writer output with H.264 video, optional WASAPI-backed audio streams, and native sample bridges for D3D11/DXGI capture surfaces."))
}

pub fn preferred_encoder_label() -> (r: Option<String>)
    ensures
        opt_sview(r) == Some("Windows Media Foundation H.264"@),
{
    Some(String::from_str("Windows Media Foundation H.264"))
}

impl MediaFoundationWindowsEncoderBackend {
    pub fn descriptor(&self) -> (d: EncoderBackendDescriptor)
        ensures
            d.id@ == "windows-media-foundation"@,
            d.label@ == "Windows Media Foundation"@,
    {
        EncoderBackendDescriptor { id: "windows-media-foundation", label: "Windows Media Foundation" }
    }

    /// Always available: the runtime summary is always there.
    pub fn availability(&self) -> (a: EncoderBackendAvailability)
        ensures
            encoder_reason(a) is None,
    {
        match runtime_summary() {
            Some(_) => EncoderBackendAvailability::Available,
            None => EncoderBackendAvailability::Unavailable {
                reason: String::from_str("Windows Media Foundation output is not available in the current session."),
            },
        }
    }

    pub fn runtime_report(&self) -> (r: EncoderBackendRuntimeReport)
        ensures
            opt_sview(r.summary) == Some(runtime_summary_text()),
            opt_sview(r.preferred_encoder_label) == Some("Windows Media Foundation H.264"@),
    {
        EncoderBackendRuntimeReport { summary: runtime_summary(), preferred_encoder_label: preferred_encoder_label() }
    }
}

/// The summary of a sink-writer session for a recording on the given
/// stream.
pub open spec fn foundation_summary_spec(options: RecordingOptions, stream_index: u32) -> Seq<char> {
    let q = quality_spec(options.quality_preset@);
    "Windows Media Foundation runtime foundation created a sink writer for `"@ + options.output_path@
        + "` with stream_index="@ + dec(stream_index as nat) + " and began/finalized an H.264 MP4 session at "@
        + dec(q.0 as nat) + "x"@ + dec(q.1 as nat) + " / "@ + dec(q.2 as nat) + " fps."@
}

/// The foundation of a sink-writer session that began and finalized
/// writing at the plan's profile on the given stream.
pub fn runtime_foundation(plan: &MediaFoundationOutputPlan, stream_index: u32) -> (r: MediaFoundationRuntimeFoundation)
    ensures
        r.output_path@ == plan.output_path@,
        r.stream_index == stream_index,
        r.output_encoder_label@ == plan.encoder_label@,
        r.input_format_label@ == "ARGB32"@,
        r.writing_started,
        r.summary@ == "Windows Media Foundation runtime foundation created a sink writer for `"@ + plan.output_path@
            + "` with stream_index="@ + dec(stream_index as nat) + " and began/finalized an H.264 MP4 session at "@
            + dec(plan.width as nat) + "x"@ + dec(plan.height as nat) + " / "@ + dec(plan.fps as nat) + " fps."@,
{
    let mut summary = String::from_str("Windows Media Foundation runtime foundation created a sink writer for `");
    push_str(&mut summary, plan.output_path.as_str());
    push_str(&mut summary, "` with stream_index=");
    push_dec(&mut summary, stream_index as u64);
    push_str(&mut summary, " and began/finalized an H.264 MP4 session at ");
    push_dec(&mut summary, plan.width as u64);
    push_str(&mut summary, "x");
    push_dec(&mut summary, plan.height as u64);
    push_str(&mut summary, " / ");
    push_dec(&mut summary, plan.fps as u64);
    push_str(&mut summary, " fps.");
    MediaFoundationRuntimeFoundation {
        output_path: plan.output_path.clone(),
        stream_index,
        output_encoder_label: plan.encoder_label.clone(),
        input_format_label: String::from_str("ARGB32"),
        writing_started: true,
        summary,
    }
}

/// What writing one video sample reports.
pub fn video_sample_summary(surface_kind: &str, stream_index: u32, sample_time_100ns: i64, sample_duration_100ns: i64) -> (r: String)
    ensures
        r@ == "surface_kind="@ + surface_kind@ + " stream_index="@ + dec(stream_index as nat) + " sample_time_100ns="@
            + idec(sample_time_100ns as int) + " sample_duration_100ns="@ + idec(sample_duration_100ns as int),
{
    let mut s = String::from_str("surface_kind=");
    push_str(&mut s, surface_kind);
    push_str(&mut s, " stream_index=");
    push_dec(&mut s, stream_index as u64);
    push_str(&mut s, " sample_time_100ns=");
    push_idec(&mut s, sample_time_100ns);
    push_str(&mut s, " sample_duration_100ns=");
    push_idec(&mut s, sample_duration_100ns);
    s
}

/// What the one-sample smoke run reports.
pub fn surface_smoke_summary(surface_kind: &str, encoder_summary: &str) -> (r: String)
    ensures
        r@ == "Windows WGC -> Media Foundation smoke wrote one `"@ + surface_kind@ + "` sample. "@ + encoder_summary@,
{
    let mut s = String::from_str("Windows WGC -> Media Foundation smoke wrote one `");
    push_str(&mut s, surface_kind);
    push_str(&mut s, "` sample. ");
    push_str(&mut s, encoder_summary);
    s
}

pub open spec fn sat_u32(v: int) -> u32 {
    if v > u32::MAX { u32::MAX } else { v as u32 }
}

/// The AAC output stream's average byte rate and block alignment:
/// channels x rate x 24 and channels x 2 (at least 1), saturating.
pub fn output_audio_format(channels: u16, sample_rate_hz: u32) -> (r: (u32, u32))
    ensures
        r.0 == sat_u32(sat_u32(channels * sample_rate_hz) * 24),
        r.1 == (if channels * 2 < 1 { 1 } else { channels * 2 }),
{
    let a: u32 = match (channels as u32).checked_mul(sample_rate_hz) {
        Some(v) => v,
        None => u32::MAX,
    };
    let avg: u32 = match a.checked_mul(24) {
        Some(v) => v,
        None => u32::MAX,
    };
    let b: u32 = (channels as u32) * 2;
    (avg, if b < 1 { 1 } else { b })
}

/// The PCM input stream's bits per sample (at least 8), block alignment
/// (channels x whole bytes per sample, at least 1, saturating) and
/// average byte rate (rate x block alignment, saturating).
pub fn input_audio_format(channels: u16, sample_rate_hz: u32, bits_per_sample: u16) -> (r: (u32, u32, u32))
    ensures
        ({
            let bits: int = if bits_per_sample < 8 { 8 } else { bits_per_sample as int };
            let align = sat_u32(channels * (bits / 8));
            let align1: u32 = if align < 1 { 1 } else { align };
            &&& r.0 == bits
            &&& r.1 == align1
            &&& r.2 == sat_u32(sample_rate_hz * align1)
        }),
{
    let bits: u32 = if bits_per_sample < 8 { 8 } else { bits_per_sample as u32 };
    let bytes = bits / 8;
    let a: u32 = match (channels as u32).checked_mul(bytes) {
        Some(v) => v,
        None => u32::MAX,
    };
    let align: u32 = if a < 1 { 1 } else { a };
    let avg: u32 = match sample_rate_hz.checked_mul(align) {
        Some(v) => v,
        None => u32::MAX,
    };
    (bits, align, avg)
}

/// Two 32-bit values packed into one 64-bit attribute (first value high).
pub fn pack_u32_pair(left: u32, right: u32) -> (r: u64)
    ensures
        r == left * 0x1_0000_0000 + right,
{
    let l = left as u64;
    let rr = right as u64;
    assert(((l << 32u64) | rr) == l * 0x1_0000_0000 + rr) by (bit_vector)
        requires l < 0x1_0000_0000, rr < 0x1_0000_0000;
    (l << 32u64) | rr
}

} // verus!
