//! The composite desktop lane (several displays in one recording): how
//! long a frame count lasts, which PCM formats it can mix, and what the
//! launcher is told about its audio.
use vstd::prelude::*;
use vstd::string::*;
use crate::capture::CaptureError;
use crate::text::{dec, push_dec, push_str};
use std::collections::VecDeque;

verus! {

/// Core Audio's format flag for floating-point samples.
pub const AUDIO_FORMAT_FLAG_IS_FLOAT: u32 = 1;
/// Core Audio's format flag for big-endian samples.
pub const AUDIO_FORMAT_FLAG_IS_BIG_ENDIAN: u32 = 2;
/// Core Audio's format flag for signed integer samples.
pub const AUDIO_FORMAT_FLAG_IS_SIGNED_INTEGER: u32 = 4;

/// The nanoseconds `frame_count` frames last at `fps` frames per second;
/// the product saturates at `u64::MAX` before the division, and no frames
/// or no rate last nothing.
pub open spec fn frame_duration_spec(frame_count: u64, fps: u32) -> nat {
    if frame_count == 0 || fps == 0 {
        0
    } else {
        let total = frame_count * 1_000_000_000;
        (if total > u64::MAX { u64::MAX as int } else { total }) as nat / fps as nat
    }
}

pub fn duration_for_frame_count(frame_count: u64, fps: u32) -> (r: u64)
    ensures
        r == frame_duration_spec(frame_count, fps),
{
    if frame_count == 0 || fps == 0 {
        return 0;
    }
    let total: u64 = match frame_count.checked_mul(1_000_000_000) {
        Some(t) => t,
        None => u64::MAX,
    };
    total / (fps as u64)
}

/// Whether the lane can decode a PCM format: little-endian, and either
/// 32-bit float or 16-bit signed integer samples.
pub open spec fn format_supported(format_flags: u32, bits_per_channel: u32) -> bool {
    &&& format_flags & AUDIO_FORMAT_FLAG_IS_BIG_ENDIAN == 0
    &&& ((format_flags & AUDIO_FORMAT_FLAG_IS_FLOAT != 0 && bits_per_channel == 32)
        || (format_flags & AUDIO_FORMAT_FLAG_IS_SIGNED_INTEGER != 0 && bits_per_channel == 16))
}

pub open spec fn format_error_spec(format_flags: u32, bits_per_channel: u32) -> Seq<char> {
    if format_flags & AUDIO_FORMAT_FLAG_IS_BIG_ENDIAN != 0 {
        "Full desktop across multiple macOS displays can only combine microphone and system audio for little-endian PCM audio on the native composite lane right now."@
    } else {
        "Full desktop across multiple macOS displays can only combine microphone and system audio for 32-bit float PCM or 16-bit signed PCM sources right now."@
    }
}

/// Checks one audio source's PCM format.
pub fn ensure_audio_format_supported(format_flags: u32, bits_per_channel: u32) -> (r: Result<(), CaptureError>)
    ensures
        format_supported(format_flags, bits_per_channel) <==> r is Ok,
        r matches Err(e) ==> e matches CaptureError::BackendUnavailable(m)
            && m@ == format_error_spec(format_flags, bits_per_channel),
{
    if format_flags & AUDIO_FORMAT_FLAG_IS_BIG_ENDIAN != 0 {
        return Err(CaptureError::BackendUnavailable(String::from_str(
            "Full desktop across multiple macOS displays can only combine microphone and system audio for little-endian PCM audio on the native composite lane right now.")));
    }
    let is_float32 = format_flags & AUDIO_FORMAT_FLAG_IS_FLOAT != 0 && bits_per_channel == 32;
    let is_i16 = format_flags & AUDIO_FORMAT_FLAG_IS_SIGNED_INTEGER != 0 && bits_per_channel == 16;
    if is_float32 || is_i16 {
        return Ok(());
    }
    Err(CaptureError::BackendUnavailable(String::from_str(
        "Full desktop across multiple macOS displays can only combine microphone and system audio for 32-bit float PCM or 16-bit signed PCM sources right now.")))
}

/// Checks both audio sources' formats (given as format flags and bits per
/// channel), the primary one first.
pub fn ensure_dual_audio_formats_supported(primary: (u32, u32), secondary: (u32, u32)) -> (r: Result<(), CaptureError>)
    ensures
        r is Ok <==> format_supported(primary.0, primary.1) && format_supported(secondary.0, secondary.1),
        r matches Err(e) ==> e matches CaptureError::BackendUnavailable(m) && m@ == if !format_supported(primary.0, primary.1) {
            format_error_spec(primary.0, primary.1)
        } else {
            format_error_spec(secondary.0, secondary.1)
        },
{
    match ensure_audio_format_supported(primary.0, primary.1) {
        Err(e) => {
            return Err(e);
        },
        Ok(()) => {},
    }
    ensure_audio_format_supported(secondary.0, secondary.1)
}

pub open spec fn dual_audio_note_spec(display_count: usize) -> Seq<char> {
    "Full desktop across "@ + dec((if display_count < 2 { 2 } else { display_count }) as nat)
        + " macOS displays can combine microphone and system audio on the native composite lane. Common PCM differences such as sample rate, mono-versus-stereo layout, and 16-bit-versus-float samples are converted automatically. Unsupported PCM encodings still require choosing one audio source or switching to a specific display."@
}

/// What the launcher is told about audio on the composite lane (which
/// spans at least two displays).
pub fn composite_dual_audio_support_note(display_count: usize) -> (r: String)
    ensures
        r@ == dual_audio_note_spec(display_count),
{
    let n: usize = if display_count < 2 { 2 } else { display_count };
    let mut s = String::from_str("Full desktop across ");
    push_dec(&mut s, n as u64);
    push_str(&mut s, " macOS displays can combine microphone and system audio on the native composite lane. Common PCM differences such as sample rate, mono-versus-stereo layout, and 16-bit-versus-float samples are converted automatically. Unsupported PCM encodings still require choosing one audio source or switching to a specific display.");
    s
}

// ---------------------------------------------------------------------------
// Which display stream captures which audio

/// The audio the composite lane records: system audio mixed with the
/// microphone, or one of the two.
#[derive(Debug, Clone, Copy, PartialEq, Eq, Structural)]
pub enum CompositeAudioKind {
    Mixed,
    SystemAudio,
    Microphone,
}

pub open spec fn audio_kind_spec(system_audio_enabled: bool, mic_enabled: bool) -> Option<CompositeAudioKind> {
    if system_audio_enabled && mic_enabled {
        Some(CompositeAudioKind::Mixed)
    } else if system_audio_enabled {
        Some(CompositeAudioKind::SystemAudio)
    } else if mic_enabled {
        Some(CompositeAudioKind::Microphone)
    } else {
        None
    }
}

/// The audio a recording asks for, `None` for a silent one.
pub fn composite_audio_kind(system_audio_enabled: bool, mic_enabled: bool) -> (r: Option<CompositeAudioKind>)
    ensures
        r == audio_kind_spec(system_audio_enabled, mic_enabled),
{
    match (system_audio_enabled, mic_enabled) {
        (true, true) => Some(CompositeAudioKind::Mixed),
        (true, false) => Some(CompositeAudioKind::SystemAudio),
        (false, true) => Some(CompositeAudioKind::Microphone),
        (false, false) => None,
    }
}

pub open spec fn kind_has_system_audio(kind: Option<CompositeAudioKind>) -> bool {
    kind == Some(CompositeAudioKind::Mixed) || kind == Some(CompositeAudioKind::SystemAudio)
}

pub open spec fn kind_has_microphone(kind: Option<CompositeAudioKind>) -> bool {
    kind == Some(CompositeAudioKind::Mixed) || kind == Some(CompositeAudioKind::Microphone)
}

/// Which of the two audio queues a stream feeds.
#[derive(Debug, Clone, Copy, PartialEq, Eq, Structural)]
pub enum CompositeAudioQueue {
    Primary,
    Secondary,
}

/// What the stream of one display captures: only the first display owns
/// the audio. System audio is taken at 48 kHz in stereo and goes to the
/// secondary queue when the microphone also records (to the primary one
/// otherwise); the microphone always goes to the primary queue, from the
/// chosen device when there is one.
#[derive(Debug, Clone, PartialEq, Eq)]
pub struct CompositeStreamPlan {
    pub captures_system_audio: bool,
    pub captures_microphone: bool,
    pub system_audio_queue: Option<CompositeAudioQueue>,
    pub microphone_queue: Option<CompositeAudioQueue>,
    pub system_audio_format: Option<(u32, u32)>,
    pub microphone_device_id: Option<String>,
}

pub struct CompositeStreamView {
    pub captures_system_audio: bool,
    pub captures_microphone: bool,
    pub system_audio_queue: Option<CompositeAudioQueue>,
    pub microphone_queue: Option<CompositeAudioQueue>,
    pub system_audio_format: Option<(u32, u32)>,
    pub microphone_device_id: Option<Seq<char>>,
}

impl View for CompositeStreamPlan {
    type V = CompositeStreamView;

    open spec fn view(&self) -> CompositeStreamView {
        CompositeStreamView {
            captures_system_audio: self.captures_system_audio,
            captures_microphone: self.captures_microphone,
            system_audio_queue: self.system_audio_queue,
            microphone_queue: self.microphone_queue,
            system_audio_format: self.system_audio_format,
            microphone_device_id: match self.microphone_device_id { Some(d) => Some(d@), None => None },
        }
    }
}

pub open spec fn stream_plan_spec(
    display_index: int,
    kind: Option<CompositeAudioKind>,
    microphone_device_id: Option<Seq<char>>,
) -> CompositeStreamView {
    let system = display_index == 0 && kind_has_system_audio(kind);
    let mic = display_index == 0 && kind_has_microphone(kind);
    CompositeStreamView {
        captures_system_audio: system,
        captures_microphone: mic,
        system_audio_queue: if system {
            Some(if mic { CompositeAudioQueue::Secondary } else { CompositeAudioQueue::Primary })
        } else {
            None
        },
        microphone_queue: if mic { Some(CompositeAudioQueue::Primary) } else { None },
        system_audio_format: if system { Some((48_000u32, 2u32)) } else { None },
        microphone_device_id: if mic { microphone_device_id } else { None },
    }
}

/// The first display's stream records exactly the sources the recording
/// enables: the microphone when it is on, into the primary queue and from
/// the chosen device; system audio when it is on, as 48 kHz stereo, into
/// the secondary queue when the microphone also records and the primary one
/// otherwise. Every other display's stream records no audio.
pub proof fn law_audio_owner_records_enabled_sources(
    system_audio_enabled: bool,
    mic_enabled: bool,
    device: Option<Seq<char>>,
    display_index: int,
)
    ensures
        ({
            let p = stream_plan_spec(0, audio_kind_spec(system_audio_enabled, mic_enabled), device);
            &&& p.captures_microphone == mic_enabled
            &&& p.captures_system_audio == system_audio_enabled
            &&& mic_enabled ==> p.microphone_queue == Some(CompositeAudioQueue::Primary)
                && p.microphone_device_id == device
            &&& !mic_enabled ==> p.microphone_queue is None && p.microphone_device_id is None
            &&& system_audio_enabled ==> p.system_audio_format == Some((48_000u32, 2u32))
                && p.system_audio_queue == Some(if mic_enabled { CompositeAudioQueue::Secondary } else {
                    CompositeAudioQueue::Primary })
            &&& !system_audio_enabled ==> p.system_audio_queue is None && p.system_audio_format is None
        }),
        display_index != 0 ==> ({
            let q = stream_plan_spec(display_index, audio_kind_spec(system_audio_enabled, mic_enabled), device);
            &&& !q.captures_microphone && !q.captures_system_audio
            &&& q.microphone_queue is None && q.system_audio_queue is None
            &&& q.system_audio_format is None && q.microphone_device_id is None
        }),
{
}

fn stream_plan(display_index: usize, kind: Option<CompositeAudioKind>, microphone_device_id: Option<&str>) -> (r: CompositeStreamPlan)
    ensures
        r@ == stream_plan_spec(display_index as int, kind, match microphone_device_id {
            Some(d) => Some(d@),
            None => None,
        }),
{
    let owner = display_index == 0;
    let system = owner && (kind == Some(CompositeAudioKind::Mixed) || kind == Some(CompositeAudioKind::SystemAudio));
    let mic = owner && (kind == Some(CompositeAudioKind::Mixed) || kind == Some(CompositeAudioKind::Microphone));
    CompositeStreamPlan {
        captures_system_audio: system,
        captures_microphone: mic,
        system_audio_queue: if system {
            Some(if mic { CompositeAudioQueue::Secondary } else { CompositeAudioQueue::Primary })
        } else {
            None
        },
        microphone_queue: if mic { Some(CompositeAudioQueue::Primary) } else { None },
        system_audio_format: if system { Some((48_000u32, 2u32)) } else { None },
        microphone_device_id: if mic {
            match microphone_device_id {
                Some(d) => Some(String::from_str(d)),
                None => None,
            }
        } else {
            None
        },
    }
}

/// One stream plan per attached display, in display order; the lane only
/// starts with more than one display.
pub fn composite_stream_plans(
    display_count: usize,
    system_audio_enabled: bool,
    mic_enabled: bool,
    microphone_device_id: Option<&str>,
) -> (r: Result<Vec<CompositeStreamPlan>, CaptureError>)
    ensures
        display_count <= 1 ==> (r matches Err(CaptureError::BackendUnavailable(m)) && m@
            == "Native desktop composition on macOS only activates when more than one display is attached."@),
        display_count > 1 ==> (r matches Ok(v) && v@.len() == display_count && forall|i: int|
            0 <= i < display_count ==> #[trigger] v@[i]@ == stream_plan_spec(i, audio_kind_spec(system_audio_enabled,
                mic_enabled), match microphone_device_id { Some(d) => Some(d@), None => None })),
        display_count > 1 ==> (r matches Ok(v) && v@[0].captures_microphone == mic_enabled
            && v@[0].captures_system_audio == system_audio_enabled
            && (mic_enabled ==> v@[0].microphone_queue == Some(CompositeAudioQueue::Primary)
                && v@[0]@.microphone_device_id == match microphone_device_id { Some(d) => Some(d@), None => None })),
{
    if display_count <= 1 {
        return Err(CaptureError::BackendUnavailable(String::from_str(
            "Native desktop composition on macOS only activates when more than one display is attached.")));
    }
    let kind = composite_audio_kind(system_audio_enabled, mic_enabled);
    let mut plans: Vec<CompositeStreamPlan> = Vec::new();
    let mut i: usize = 0;
    while i < display_count
        invariant
            i <= display_count,
            kind == audio_kind_spec(system_audio_enabled, mic_enabled),
            plans@.len() == i,
            forall|j: int| 0 <= j < i ==> #[trigger] plans@[j]@ == stream_plan_spec(j, kind,
                match microphone_device_id { Some(d) => Some(d@), None => None }),
        decreases display_count - i,
    {
        plans.push(stream_plan(i, kind, microphone_device_id));
        i += 1;
    }
    proof {
        law_audio_owner_records_enabled_sources(system_audio_enabled, mic_enabled,
            match microphone_device_id { Some(d) => Some(d@), None => None }, 0);
        assert(plans@[0]@ == stream_plan_spec(0, kind, match microphone_device_id { Some(d) => Some(d@), None => None }));
    }
    Ok(plans)
}

// ---------------------------------------------------------------------------
// Draining the audio queues into the writer

/// What the writer's audio drain has done so far.
#[derive(Debug, Clone, Copy, PartialEq, Eq)]
pub struct CompositeAudioDrainStats {
    pub primary_dequeued_samples: usize,
    pub secondary_dequeued_samples: usize,
    pub appended_samples: usize,
    pub appended_frames: u64,
    pub silent_secondary_mixes: usize,
}

/// A sample taken for the writer: one kept as captured, or a mix of a
/// primary sample with a secondary one (silence where there is none).
#[derive(Debug, PartialEq, Eq)]
pub enum DrainedSample<T> {
    Retained(T),
    Mixed { primary: T, secondary: Option<T> },
}

pub open spec fn sat_inc(n: usize) -> usize {
    if n == usize::MAX { n } else { (n + 1) as usize }
}

pub open spec fn after_first<T>(q: Seq<T>) -> Seq<T> {
    q.subrange(1, q.len() as int)
}

pub open spec fn with_counts(s: CompositeAudioDrainStats, primary: bool, secondary: bool) -> CompositeAudioDrainStats {
    CompositeAudioDrainStats {
        primary_dequeued_samples: if primary { sat_inc(s.primary_dequeued_samples) } else { s.primary_dequeued_samples },
        secondary_dequeued_samples: if secondary { sat_inc(s.secondary_dequeued_samples) } else { s.secondary_dequeued_samples },
        ..s
    }
}

/// Takes the next sample for the writer. A mixed recording takes the head
/// of each queue: the primary head mixed with the secondary one (or with
/// silence), or, with the primary queue empty, the secondary head mixed
/// with silence. Any other recording takes the primary head as captured.
/// Each sample taken counts for its queue; `None` when nothing waits.
pub fn next_drained_sample<T>(
    kind: CompositeAudioKind,
    primary: &mut VecDeque<T>,
    secondary: &mut VecDeque<T>,
    stats: &mut CompositeAudioDrainStats,
) -> (r: Option<DrainedSample<T>>)
    ensures
        kind == CompositeAudioKind::Mixed ==> {
            let p = old(primary)@;
            let q = old(secondary)@;
            if p.len() > 0 {
                &&& r == Some(DrainedSample::Mixed { primary: p[0], secondary: if q.len() > 0 { Some(q[0]) } else { None } })
                &&& final(primary)@ == after_first(p)
                &&& final(secondary)@ == if q.len() > 0 { after_first(q) } else { q }
                &&& *final(stats) == with_counts(*old(stats), true, q.len() > 0)
            } else if q.len() > 0 {
                &&& r == Some(DrainedSample::Mixed { primary: q[0], secondary: None })
                &&& final(primary)@ == p
                &&& final(secondary)@ == after_first(q)
                &&& *final(stats) == with_counts(*old(stats), false, true)
            } else {
                &&& r is None
                &&& final(primary)@ == p
                &&& final(secondary)@ == q
                &&& *final(stats) == *old(stats)
            }
        },
        kind != CompositeAudioKind::Mixed ==> {
            let p = old(primary)@;
            &&& final(secondary)@ == old(secondary)@
            &&& if p.len() > 0 {
                &&& r == Some(DrainedSample::Retained(p[0]))
                &&& final(primary)@ == after_first(p)
                &&& *final(stats) == with_counts(*old(stats), true, false)
            } else {
                &&& r is None
                &&& final(primary)@ == p
                &&& *final(stats) == *old(stats)
            }
        },
{
    let head = primary.pop_front();
    if kind == CompositeAudioKind::Mixed {
        let second = secondary.pop_front();
        match head {
            Some(p) => {
                stats.primary_dequeued_samples = stats.primary_dequeued_samples.saturating_add(1);
                if second.is_some() {
                    stats.secondary_dequeued_samples = stats.secondary_dequeued_samples.saturating_add(1);
                }
                Some(DrainedSample::Mixed { primary: p, secondary: second })
            },
            None => match second {
                Some(q) => {
                    stats.secondary_dequeued_samples = stats.secondary_dequeued_samples.saturating_add(1);
                    Some(DrainedSample::Mixed { primary: q, secondary: None })
                },
                None => None,
            },
        }
    } else {
        match head {
            Some(p) => {
                stats.primary_dequeued_samples = stats.primary_dequeued_samples.saturating_add(1);
                Some(DrainedSample::Retained(p))
            },
            None => None,
        }
    }
}

/// Puts a sample the writer could not take yet back at the head of the
/// queues: the sample kept as captured, or the mix's primary sample, goes
/// back to the primary queue; the mix's secondary sample goes back to the
/// secondary queue when the recording has one (and is dropped otherwise).
pub fn requeue<T>(sample: DrainedSample<T>, has_secondary_queue: bool, primary: &mut VecDeque<T>, secondary: &mut VecDeque<T>)
    ensures
        match sample {
            DrainedSample::Retained(x) => final(primary)@ == seq![x] + old(primary)@
                && final(secondary)@ == old(secondary)@,
            DrainedSample::Mixed { primary: x, secondary: y } => {
                &&& final(primary)@ == seq![x] + old(primary)@
                &&& final(secondary)@ == match y {
                    Some(z) => if has_secondary_queue { seq![z] + old(secondary)@ } else { old(secondary)@ },
                    None => old(secondary)@,
                }
            },
        },
{
    match sample {
        DrainedSample::Retained(x) => primary.push_front(x),
        DrainedSample::Mixed { primary: x, secondary: y } => {
            primary.push_front(x);
            match y {
                Some(z) => if has_secondary_queue {
                    secondary.push_front(z);
                },
                None => {},
            }
        },
    }
}

/// Counts a mix about to be made: one without a secondary sample is mixed
/// with silence.
pub fn note_mix<T>(sample: &DrainedSample<T>, stats: &mut CompositeAudioDrainStats)
    ensures
        *final(stats) == match sample {
            DrainedSample::Mixed { secondary: None, .. } => CompositeAudioDrainStats {
                silent_secondary_mixes: sat_inc(old(stats).silent_secondary_mixes),
                ..*old(stats)
            },
            _ => *old(stats),
        },
{
    match sample {
        DrainedSample::Mixed { secondary: None, .. } => {
            stats.silent_secondary_mixes = stats.silent_secondary_mixes.saturating_add(1);
        },
        _ => {},
    }
}

/// Counts a sample the writer took, with its number of frames (a negative
/// count counting as none); both counters saturate.
pub fn note_appended(stats: &mut CompositeAudioDrainStats, frames: i64)
    ensures
        *final(stats) == (CompositeAudioDrainStats {
            appended_samples: sat_inc(old(stats).appended_samples),
            appended_frames: if frames <= 0 {
                old(stats).appended_frames
            } else if old(stats).appended_frames + frames > u64::MAX {
                u64::MAX
            } else {
                (old(stats).appended_frames + frames) as u64
            },
            ..*old(stats)
        }),
{
    stats.appended_samples = stats.appended_samples.saturating_add(1);
    let n: u64 = if frames <= 0 { 0 } else { frames as u64 };
    stats.appended_frames = stats.appended_frames.saturating_add(n);
}

} // verus!
