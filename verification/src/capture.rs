//! Shared capture vocabulary: targets, audio inputs, recording options,
//! backend descriptors, backend selection and audio-input resolution.
use vstd::prelude::*;
use vstd::string::*;
use crate::text::{chars_of, contains, contains_chars, dec, join, lower, push_dec, push_str, str_eq, string_views, join_strings, to_lower};

verus! {

pub const FULL_DESKTOP_TARGET_ID: &'static str = "full-desktop";
pub const CUSTOM_REGION_TARGET_ID: &'static str = "region:custom";
pub const DEFAULT_AUDIO_INPUT_ID: &'static str = "default";

#[derive(Debug, Clone, PartialEq, Eq)]
pub struct CaptureTargetOption {
    pub id: String,
    pub label: String,
    pub description: String,
}

#[derive(Debug, Clone, Copy, PartialEq, Eq, Structural)]
pub enum AudioInputKind {
    Default,
    Microphone,
    System,
}

#[derive(Debug, Clone, PartialEq, Eq)]
pub struct AudioInputOption {
    pub id: String,
    pub label: String,
    pub description: String,
    pub kind: AudioInputKind,
}

pub struct CaptureTargetView {
    pub id: Seq<char>,
    pub label: Seq<char>,
    pub description: Seq<char>,
}

impl View for CaptureTargetOption {
    type V = CaptureTargetView;

    open spec fn view(&self) -> CaptureTargetView {
        CaptureTargetView { id: self.id@, label: self.label@, description: self.description@ }
    }
}

pub open spec fn target_views(v: Seq<CaptureTargetOption>) -> Seq<CaptureTargetView> {
    v.map_values(|t: CaptureTargetOption| t@)
}

pub struct AudioInputView {
    pub id: Seq<char>,
    pub label: Seq<char>,
    pub description: Seq<char>,
    pub kind: AudioInputKind,
}

impl View for AudioInputOption {
    type V = AudioInputView;

    open spec fn view(&self) -> AudioInputView {
        AudioInputView { id: self.id@, label: self.label@, description: self.description@, kind: self.kind }
    }
}

pub open spec fn input_views(v: Seq<AudioInputOption>) -> Seq<AudioInputView> {
    v.map_values(|o: AudioInputOption| o@)
}

/// A copy of an audio input.
pub fn copy_input(o: &AudioInputOption) -> (r: AudioInputOption)
    ensures
        r@ == o@,
{
    AudioInputOption { id: o.id.clone(), label: o.label.clone(), description: o.description.clone(), kind: o.kind }
}

/// What a recording start asks of a capture backend. The output path is
/// held as text.
#[derive(Debug, Clone)]
pub struct RecordingOptions {
    pub output_path: String,
    pub quality_preset: String,
    pub mic_enabled: bool,
    pub system_audio_enabled: bool,
    pub capture_target_id: String,
    pub audio_input_id: String,
    pub portal_parent_window: Option<String>,
    pub portal_restore_token: Option<String>,
    pub region_x: u32,
    pub region_y: u32,
    pub region_width: u32,
    pub region_height: u32,
    pub region_source_capture_target_id: String,
    pub region_source_origin_x: i32,
    pub region_source_origin_y: i32,
    pub region_source_scale_factor_milli: u32,
}

/// A recording in progress; `started_at` counts nanoseconds since the Unix epoch.
#[derive(Debug, Clone)]
pub struct ActiveRecording {
    pub backend_name: String,
    pub encoder_label: String,
    pub output_path: String,
    pub started_at: u128,
    pub target_label: String,
}

/// A finished recording; times count nanoseconds since the Unix epoch.
#[derive(Debug, Clone)]
pub struct RecordingArtifact {
    pub output_path: String,
    pub started_at: u128,
    pub finished_at: u128,
    pub duration_nanos: u128,
    pub bytes_written: u64,
}

#[derive(Debug, Clone, Copy, PartialEq, Eq)]
pub struct AudioBackendDescriptor {
    pub id: &'static str,
    pub label: &'static str,
}

#[derive(Debug, Clone, PartialEq, Eq)]
pub enum AudioBackendAvailability {
    Available,
    Unavailable { reason: String },
}

#[derive(Debug, Clone, PartialEq, Eq)]
pub struct AudioBackendStatus {
    pub descriptor: AudioBackendDescriptor,
    pub availability: AudioBackendAvailability,
}

#[derive(Debug, Clone, Default, PartialEq, Eq)]
pub struct AudioBackendRuntimeReport {
    pub summary: Option<String>,
    pub preferred_input_id: Option<String>,
    pub preferred_input_label: Option<String>,
    pub preferred_system_id: Option<String>,
    pub preferred_system_label: Option<String>,
}

#[derive(Debug, Clone, Copy, PartialEq, Eq)]
pub struct EncoderBackendDescriptor {
    pub id: &'static str,
    pub label: &'static str,
}

#[derive(Debug, Clone, PartialEq, Eq)]
pub enum EncoderBackendAvailability {
    Available,
    Unavailable { reason: String },
}

#[derive(Debug, Clone, PartialEq, Eq)]
pub struct EncoderBackendStatus {
    pub descriptor: EncoderBackendDescriptor,
    pub availability: EncoderBackendAvailability,
}

#[derive(Debug, Clone, Default, PartialEq, Eq)]
pub struct EncoderBackendRuntimeReport {
    pub summary: Option<String>,
    pub preferred_encoder_label: Option<String>,
}

#[derive(Debug, Clone, Copy, PartialEq, Eq)]
pub struct CaptureBackendDescriptor {
    pub id: &'static str,
    pub label: &'static str,
}

#[derive(Debug, Clone, PartialEq, Eq)]
pub enum CaptureBackendAvailability {
    Available,
    Unavailable { reason: String },
}

#[derive(Debug, Clone, PartialEq, Eq)]
pub struct CaptureBackendStatus {
    pub descriptor: CaptureBackendDescriptor,
    pub availability: CaptureBackendAvailability,
}

#[derive(Debug, Clone, Default, PartialEq, Eq)]
pub struct CaptureBackendRuntimeReport {
    pub summary: Option<String>,
    pub preferred_target_label: Option<String>,
}

#[derive(Debug, Clone, Default, PartialEq, Eq)]
pub struct CaptureBackendRuntimeSnapshot {
    pub path: String,
    pub summary: Option<String>,
    pub preferred_target_label: Option<String>,
    pub selection_note: String,
    pub native_unavailable_note: Option<String>,
}

#[derive(Debug, Clone, Default, PartialEq, Eq)]
pub struct AudioBackendRuntimeSnapshot {
    pub path: String,
    pub summary: Option<String>,
    pub preferred_input_id: Option<String>,
    pub preferred_input_label: Option<String>,
    pub preferred_system_id: Option<String>,
    pub preferred_system_label: Option<String>,
    pub selection_note: String,
    pub native_unavailable_note: Option<String>,
}

#[derive(Debug, Clone, Default, PartialEq, Eq)]
pub struct EncoderBackendRuntimeSnapshot {
    pub path: String,
    pub summary: Option<String>,
    pub preferred_encoder_label: Option<String>,
    pub selection_note: String,
    pub native_unavailable_note: Option<String>,
}

#[derive(Debug, Clone, PartialEq, Eq)]
pub struct BackendSelectionExplanation {
    pub selected_id: &'static str,
    pub selected_label: &'static str,
    pub note: String,
}

#[derive(Debug, Clone, PartialEq, Eq)]
pub enum CaptureError {
    UnsupportedPlatform,
    BackendUnavailable(String),
    SpawnFailed(String),
    StopFailed(String),
    SignalFailed(String),
    OutputInspectionFailed(String),
}


/// The text an error displays.
pub open spec fn error_text(e: CaptureError) -> Seq<char> {
    match e {
        CaptureError::UnsupportedPlatform => "screen recording is not implemented for this platform yet"@,
        CaptureError::BackendUnavailable(m) => "recording backend is unavailable: "@ + m@,
        CaptureError::SpawnFailed(m) => "failed to start recording process: "@ + m@,
        CaptureError::StopFailed(m) => "failed to stop recording process: "@ + m@,
        CaptureError::SignalFailed(m) => "failed to pause or resume recording process: "@ + m@,
        CaptureError::OutputInspectionFailed(m) => "failed to inspect recording output: "@ + m@,
    }
}

impl CaptureError {
    /// A copy of this error.
    pub fn clone_error(&self) -> (r: CaptureError)
        ensures
            r == *self,
    {
        match self {
            CaptureError::UnsupportedPlatform => CaptureError::UnsupportedPlatform,
            CaptureError::BackendUnavailable(m) => CaptureError::BackendUnavailable(m.clone()),
            CaptureError::SpawnFailed(m) => CaptureError::SpawnFailed(m.clone()),
            CaptureError::StopFailed(m) => CaptureError::StopFailed(m.clone()),
            CaptureError::SignalFailed(m) => CaptureError::SignalFailed(m.clone()),
            CaptureError::OutputInspectionFailed(m) => CaptureError::OutputInspectionFailed(m.clone()),
        }
    }

    /// The text this error displays.
    pub fn message(&self) -> (r: String)
        ensures
            r@ == error_text(*self),
    {
        let (prefix, detail): (&str, Option<&String>) = match self {
            CaptureError::UnsupportedPlatform => ("screen recording is not implemented for this platform yet", None),
            CaptureError::BackendUnavailable(m) => ("recording backend is unavailable: ", Some(m)),
            CaptureError::SpawnFailed(m) => ("failed to start recording process: ", Some(m)),
            CaptureError::StopFailed(m) => ("failed to stop recording process: ", Some(m)),
            CaptureError::SignalFailed(m) => ("failed to pause or resume recording process: ", Some(m)),
            CaptureError::OutputInspectionFailed(m) => ("failed to inspect recording output: ", Some(m)),
        };
        let mut r = String::from_str(prefix);
        match detail {
            Some(m) => push_str(&mut r, m.as_str()),
            None => {},
        }
        r
    }
}

pub open spec fn static_views(v: Seq<&'static str>) -> Seq<Seq<char>> {
    v.map_values(|x: &'static str| x@)
}

/// Index of the first id equal to `r`, or -1.
pub open spec fn first_index_of(ids: Seq<Seq<char>>, r: Seq<char>) -> int
    decreases ids.len(),
{
    if ids.len() == 0 {
        -1
    } else if first_index_of(ids.drop_last(), r) != -1 {
        first_index_of(ids.drop_last(), r)
    } else if ids.last() == r {
        ids.len() - 1
    } else {
        -1
    }
}

/// Index of the first `true`, or -1.
pub open spec fn first_true(v: Seq<bool>) -> int
    decreases v.len(),
{
    if v.len() == 0 {
        -1
    } else if first_true(v.drop_last()) != -1 {
        first_true(v.drop_last())
    } else if v.last() {
        v.len() - 1
    } else {
        -1
    }
}

/// The backend a registry picks: the one whose id was requested when one
/// matches, else the first available one, else the first one.
pub open spec fn selection_index(ids: Seq<Seq<char>>, available: Seq<bool>, requested: Option<Seq<char>>) -> int {
    if requested is Some && first_index_of(ids, requested->0) != -1 {
        first_index_of(ids, requested->0)
    } else if first_true(available) != -1 {
        first_true(available)
    } else {
        0
    }
}

/// A registry of one backend always picks it.
pub proof fn lemma_single_selection(ids: Seq<Seq<char>>, available: Seq<bool>, requested: Option<Seq<char>>)
    requires
        ids.len() == 1,
        available.len() == 1,
    ensures
        selection_index(ids, available, requested) == 0,
{
    assert(ids.drop_last().len() == 0);
    assert(available.drop_last().len() == 0);
    if requested is Some {
        assert(first_index_of(ids.drop_last(), requested->0) == -1);
    }
    assert(first_true(available.drop_last()) == -1);
}

/// The picked backend is one of the registry's.
pub proof fn lemma_selection_in_range(ids: Seq<Seq<char>>, available: Seq<bool>, requested: Option<Seq<char>>)
    requires
        ids.len() > 0,
        available.len() == ids.len(),
    ensures
        0 <= selection_index(ids, available, requested) < ids.len(),
{
    if requested is Some {
        lemma_first_index_of(ids, requested->0);
    }
    lemma_first_true(available);
}

/// A requested backend that the registry holds is the one picked,
/// whether or not it is available.
pub proof fn law_requested_backend_is_picked(ids: Seq<Seq<char>>, available: Seq<bool>, requested: Seq<char>)
    requires
        available.len() == ids.len(),
        ids.contains(requested),
    ensures
        ids[selection_index(ids, available, Some(requested))] == requested,
{
    lemma_first_index_of(ids, requested);
    let k = choose|k: int| 0 <= k < ids.len() && ids[k] == requested;
    assert(ids[k] == requested);
}

/// Without a request the registry picks an available backend whenever it
/// holds one.
pub proof fn law_available_backend_is_picked(ids: Seq<Seq<char>>, available: Seq<bool>)
    requires
        available.len() == ids.len(),
        available.contains(true),
    ensures
        available[selection_index(ids, available, None)],
{
    lemma_first_true(available);
    let k = choose|k: int| 0 <= k < available.len() && available[k] == true;
    assert(available[k]);
}

proof fn lemma_first_index_of(ids: Seq<Seq<char>>, r: Seq<char>)
    ensures
        -1 <= first_index_of(ids, r) < ids.len(),
        first_index_of(ids, r) != -1 ==> ids[first_index_of(ids, r)] == r,
        first_index_of(ids, r) == -1 ==> forall|k: int| 0 <= k < ids.len() ==> ids[k] != r,
    decreases ids.len(),
{
    if ids.len() > 0 {
        lemma_first_index_of(ids.drop_last(), r);
        assert forall|k: int| 0 <= k < ids.len() - 1 implies ids.drop_last()[k] == ids[k] by {}
    }
}

proof fn lemma_first_true(v: Seq<bool>)
    ensures
        -1 <= first_true(v) < v.len(),
        first_true(v) != -1 ==> v[first_true(v)],
        first_true(v) == -1 ==> forall|k: int| 0 <= k < v.len() ==> !v[k],
    decreases v.len(),
{
    if v.len() > 0 {
        lemma_first_true(v.drop_last());
        assert forall|k: int| 0 <= k < v.len() - 1 implies v.drop_last()[k] == v[k] by {}
    }
}

fn index_of_id(ids: &Vec<&'static str>, r: &str) -> (k: Option<usize>)
    ensures
        match k {
            Some(k) => k as int == first_index_of(static_views(ids@), r@),
            None => first_index_of(static_views(ids@), r@) == -1,
        },
{
    let ghost all = static_views(ids@);
    let mut i: usize = 0;
    while i < ids.len()
        invariant
            i <= ids@.len(),
            all == static_views(ids@),
            first_index_of(all.subrange(0, i as int), r@) == -1,
        decreases ids@.len() - i,
    {
        assert(all.subrange(0, i + 1).drop_last() == all.subrange(0, i as int));
        if str_eq(ids[i], r) {
            proof {
                lemma_prefix_index(all, r@, i as int);
            }
            return Some(i);
        }
        i += 1;
    }
    assert(all.subrange(0, i as int) == all);
    None
}

proof fn lemma_prefix_index(ids: Seq<Seq<char>>, r: Seq<char>, i: int)
    requires
        0 <= i < ids.len(),
        first_index_of(ids.subrange(0, i), r) == -1,
        ids[i] == r,
    ensures
        first_index_of(ids, r) == i,
    decreases ids.len() - i,
{
    assert(ids.subrange(0, i + 1).drop_last() == ids.subrange(0, i));
    if i + 1 < ids.len() {
        lemma_prefix_index_extend(ids, r, i + 1, i);
    } else {
        assert(ids.subrange(0, i + 1) == ids);
    }
}

proof fn lemma_prefix_index_extend(ids: Seq<Seq<char>>, r: Seq<char>, n: int, i: int)
    requires
        0 <= i < n <= ids.len(),
        first_index_of(ids.subrange(0, n), r) == i,
    ensures
        first_index_of(ids, r) == i,
    decreases ids.len() - n,
{
    if n < ids.len() {
        assert(ids.subrange(0, n + 1).drop_last() == ids.subrange(0, n));
        lemma_prefix_index_extend(ids, r, n + 1, i);
    } else {
        assert(ids.subrange(0, n) == ids);
    }
}

proof fn lemma_prefix_true_extend(v: Seq<bool>, n: int, i: int)
    requires
        0 <= i < n <= v.len(),
        first_true(v.subrange(0, n)) == i,
    ensures
        first_true(v) == i,
    decreases v.len() - n,
{
    if n < v.len() {
        assert(v.subrange(0, n + 1).drop_last() == v.subrange(0, n));
        lemma_prefix_true_extend(v, n + 1, i);
    } else {
        assert(v.subrange(0, n) == v);
    }
}

/// Index of the backend a registry picks (see `selection_index`).
fn select_index(ids: &Vec<&'static str>, available: &Vec<bool>, requested: Option<&str>) -> (k: usize)
    requires
        ids@.len() > 0,
        ids@.len() == available@.len(),
    ensures
        k as int == selection_index(static_views(ids@), available@, opt_view(requested)),
        k < ids@.len(),
{
    let ghost all = static_views(ids@);
    let ghost req = opt_view(requested);
    proof {
        lemma_first_true(available@);
    }
    if let Some(r) = requested {
        proof { lemma_first_index_of(all, r@); }
        if let Some(k) = index_of_id(ids, r) {
            return k;
        }
    }
    assert(req is Some ==> first_index_of(all, req->0) == -1);
    let mut i: usize = 0;
    while i < available.len()
        invariant
            all == static_views(ids@),
            req is Some ==> first_index_of(all, req->0) == -1,
            req == opt_view(requested),
            i <= available@.len(),
            available@.len() == ids@.len(),
            first_true(available@.subrange(0, i as int)) == -1,
        decreases available@.len() - i,
    {
        assert(available@.subrange(0, i + 1).drop_last() == available@.subrange(0, i as int));
        if available[i] {
            proof { lemma_prefix_true_extend(available@, i + 1, i as int); }
            return i;
        }
        i += 1;
    }
    assert(available@.subrange(0, i as int) == available@);
    0
}

pub open spec fn capture_ids(statuses: Seq<CaptureBackendStatus>) -> Seq<Seq<char>> {
    statuses.map_values(|s: CaptureBackendStatus| s.descriptor.id@)
}

pub open spec fn capture_available(statuses: Seq<CaptureBackendStatus>) -> Seq<bool> {
    statuses.map_values(|s: CaptureBackendStatus| s.availability is Available)
}

pub open spec fn audio_ids(statuses: Seq<AudioBackendStatus>) -> Seq<Seq<char>> {
    statuses.map_values(|s: AudioBackendStatus| s.descriptor.id@)
}

pub open spec fn audio_available(statuses: Seq<AudioBackendStatus>) -> Seq<bool> {
    statuses.map_values(|s: AudioBackendStatus| s.availability is Available)
}

pub open spec fn encoder_ids(statuses: Seq<EncoderBackendStatus>) -> Seq<Seq<char>> {
    statuses.map_values(|s: EncoderBackendStatus| s.descriptor.id@)
}

pub open spec fn encoder_available(statuses: Seq<EncoderBackendStatus>) -> Seq<bool> {
    statuses.map_values(|s: EncoderBackendStatus| s.availability is Available)
}

pub open spec fn opt_view(r: Option<&str>) -> Option<Seq<char>> {
    match r {
        Some(r) => Some(r@),
        None => None,
    }
}

/// Index of the capture backend a registry picks, given the id requested
/// through the environment, if any. The registry must not be empty.
pub fn select_backend(candidates: &[CaptureBackendStatus], requested_id: Option<&str>) -> (k: usize)
    requires
        candidates@.len() > 0,
    ensures
        k < candidates@.len(),
        k as int == selection_index(capture_ids(candidates@), capture_available(candidates@), opt_view(requested_id)),
{
    let mut ids: Vec<&'static str> = Vec::new();
    let mut available: Vec<bool> = Vec::new();
    let mut i: usize = 0;
    while i < candidates.len()
        invariant
            i <= candidates@.len(),
            ids@.len() == i,
            available@.len() == i,
            static_views(ids@) == capture_ids(candidates@.subrange(0, i as int)),
            available@ == capture_available(candidates@.subrange(0, i as int)),
        decreases candidates@.len() - i,
    {
        let ghost old_ids = ids@;
        let ghost old_av = available@;
        ids.push(candidates[i].descriptor.id);
        available.push(matches!(candidates[i].availability, CaptureBackendAvailability::Available));
        assert(static_views(ids@) == static_views(old_ids).push(candidates@[i as int].descriptor.id@));
        assert(capture_ids(candidates@.subrange(0, i + 1)) == capture_ids(candidates@.subrange(0, i as int)).push(candidates@[i as int].descriptor.id@));
        assert(capture_available(candidates@.subrange(0, i + 1)) == capture_available(candidates@.subrange(0, i as int)).push(candidates@[i as int].availability is Available));
        i += 1;
    }
    assert(candidates@.subrange(0, i as int) == candidates@);
    select_index(&ids, &available, requested_id)
}

/// Index of the audio backend a registry picks (see `select_backend`).
pub fn select_audio_backend(candidates: &[AudioBackendStatus], requested_id: Option<&str>) -> (k: usize)
    requires
        candidates@.len() > 0,
    ensures
        k < candidates@.len(),
        k as int == selection_index(audio_ids(candidates@), audio_available(candidates@), opt_view(requested_id)),
{
    let mut ids: Vec<&'static str> = Vec::new();
    let mut available: Vec<bool> = Vec::new();
    let mut i: usize = 0;
    while i < candidates.len()
        invariant
            i <= candidates@.len(),
            ids@.len() == i,
            available@.len() == i,
            static_views(ids@) == audio_ids(candidates@.subrange(0, i as int)),
            available@ == audio_available(candidates@.subrange(0, i as int)),
        decreases candidates@.len() - i,
    {
        let ghost old_ids = ids@;
        let ghost old_av = available@;
        ids.push(candidates[i].descriptor.id);
        available.push(matches!(candidates[i].availability, AudioBackendAvailability::Available));
        assert(static_views(ids@) == static_views(old_ids).push(candidates@[i as int].descriptor.id@));
        assert(audio_ids(candidates@.subrange(0, i + 1)) == audio_ids(candidates@.subrange(0, i as int)).push(candidates@[i as int].descriptor.id@));
        assert(audio_available(candidates@.subrange(0, i + 1)) == audio_available(candidates@.subrange(0, i as int)).push(candidates@[i as int].availability is Available));
        i += 1;
    }
    assert(candidates@.subrange(0, i as int) == candidates@);
    select_index(&ids, &available, requested_id)
}

/// Index of the encoder backend a registry picks (see `select_backend`).
pub fn select_encoder_backend(candidates: &[EncoderBackendStatus], requested_id: Option<&str>) -> (k: usize)
    requires
        candidates@.len() > 0,
    ensures
        k < candidates@.len(),
        k as int == selection_index(encoder_ids(candidates@), encoder_available(candidates@), opt_view(requested_id)),
{
    let mut ids: Vec<&'static str> = Vec::new();
    let mut available: Vec<bool> = Vec::new();
    let mut i: usize = 0;
    while i < candidates.len()
        invariant
            i <= candidates@.len(),
            ids@.len() == i,
            available@.len() == i,
            static_views(ids@) == encoder_ids(candidates@.subrange(0, i as int)),
            available@ == encoder_available(candidates@.subrange(0, i as int)),
        decreases candidates@.len() - i,
    {
        let ghost old_ids = ids@;
        let ghost old_av = available@;
        ids.push(candidates[i].descriptor.id);
        available.push(matches!(candidates[i].availability, EncoderBackendAvailability::Available));
        assert(static_views(ids@) == static_views(old_ids).push(candidates@[i as int].descriptor.id@));
        assert(encoder_ids(candidates@.subrange(0, i + 1)) == encoder_ids(candidates@.subrange(0, i as int)).push(candidates@[i as int].descriptor.id@));
        assert(encoder_available(candidates@.subrange(0, i + 1)) == encoder_available(candidates@.subrange(0, i as int)).push(candidates@[i as int].availability is Available));
        i += 1;
    }
    assert(candidates@.subrange(0, i as int) == candidates@);
    select_index(&ids, &available, requested_id)
}


pub open spec fn opt_sview(o: Option<String>) -> Option<Seq<char>> {
    match o {
        Some(s) => Some(s@),
        None => None,
    }
}

/// The note a registry gives for its choice. `family` names the registry
/// ("Capture", "Audio", "Encoder"), `env` the variable that forces a backend.
pub open spec fn selection_note(
    family: Seq<char>,
    env: Seq<char>,
    forced: bool,
    requested: Seq<char>,
    label: Seq<char>,
    reason: Option<Seq<char>>,
) -> Seq<char> {
    if forced {
        match reason {
            None => family + " backend forced by "@ + env + "="@ + requested + "."@,
            Some(r) => family + " backend forced by "@ + env + "="@ + requested
                + ", but that backend is not available yet: "@ + r,
        }
    } else {
        match reason {
            None => family + " selected the first available backend in the registry."@,
            Some(r) => family + " registry had no available backend, so it fell back to `"@ + label + "`. "@ + r,
        }
    }
}

fn build_selection_note(
    family: &str,
    env: &str,
    forced: bool,
    requested: &str,
    label: &str,
    reason: Option<&String>,
) -> (note: String)
    ensures
        note@ == selection_note(family@, env@, forced, requested@, label@, opt_sview(match reason { Some(r) => Some(*r), None => None })),
{
    let mut note = String::new();
    push_str(&mut note, family);
    if forced {
        push_str(&mut note, " backend forced by ");
        push_str(&mut note, env);
        push_str(&mut note, "=");
        push_str(&mut note, requested);
        match reason {
            None => push_str(&mut note, "."),
            Some(r) => {
                push_str(&mut note, ", but that backend is not available yet: ");
                push_str(&mut note, r.as_str());
            },
        }
    } else {
        match reason {
            None => push_str(&mut note, " selected the first available backend in the registry."),
            Some(r) => {
                push_str(&mut note, " registry had no available backend, so it fell back to `");
                push_str(&mut note, label);
                push_str(&mut note, "`. ");
                push_str(&mut note, r.as_str());
            },
        }
    }
    note
}

pub open spec fn capture_reason(a: CaptureBackendAvailability) -> Option<Seq<char>> {
    match a {
        CaptureBackendAvailability::Available => None,
        CaptureBackendAvailability::Unavailable { reason } => Some(reason@),
    }
}

pub open spec fn audio_reason(a: AudioBackendAvailability) -> Option<Seq<char>> {
    match a {
        AudioBackendAvailability::Available => None,
        AudioBackendAvailability::Unavailable { reason } => Some(reason@),
    }
}

pub open spec fn encoder_reason(a: EncoderBackendAvailability) -> Option<Seq<char>> {
    match a {
        EncoderBackendAvailability::Available => None,
        EncoderBackendAvailability::Unavailable { reason } => Some(reason@),
    }
}

pub open spec fn is_forced(requested: Option<&str>, id: Seq<char>) -> bool {
    requested is Some && requested->0@ == id
}

pub open spec fn req_text(requested: Option<&str>) -> Seq<char> {
    match requested {
        Some(r) => r@,
        None => seq![],
    }
}

/// The capture registry's choice and the note that explains it.
pub fn explain_capture_backend_selection(candidates: &[CaptureBackendStatus], requested_id: Option<&str>) -> (e: BackendSelectionExplanation)
    requires
        candidates@.len() > 0,
    ensures
        ({
            let st = candidates@[selection_index(capture_ids(candidates@), capture_available(candidates@), opt_view(requested_id))];
            &&& e.selected_id == st.descriptor.id
            &&& e.selected_label == st.descriptor.label
            &&& e.note@ == selection_note("Capture"@, "RECORD_SCREEN_CAPTURE_BACKEND"@,
                is_forced(requested_id, st.descriptor.id@), req_text(requested_id), st.descriptor.label@,
                capture_reason(st.availability))
        }),
{
    let k = select_backend(candidates, requested_id);
    let st = &candidates[k];
    let forced = match requested_id {
        Some(r) => str_eq(r, st.descriptor.id),
        None => false,
    };
    let reason = match &st.availability {
        CaptureBackendAvailability::Available => None,
        CaptureBackendAvailability::Unavailable { reason } => Some(reason),
    };
    let requested = match requested_id { Some(r) => r, None => "" };
    assert(requested_id is None ==> ""@ == Seq::<char>::empty()) by {
        reveal_strlit("");
    }
    let note = build_selection_note("Capture", "RECORD_SCREEN_CAPTURE_BACKEND", forced, requested, st.descriptor.label, reason);
    BackendSelectionExplanation {
        selected_id: st.descriptor.id,
        selected_label: st.descriptor.label,
        note,
    }
}

/// The audio registry's choice and the note that explains it.
pub fn explain_audio_backend_selection(candidates: &[AudioBackendStatus], requested_id: Option<&str>) -> (e: BackendSelectionExplanation)
    requires
        candidates@.len() > 0,
    ensures
        ({
            let st = candidates@[selection_index(audio_ids(candidates@), audio_available(candidates@), opt_view(requested_id))];
            &&& e.selected_id == st.descriptor.id
            &&& e.selected_label == st.descriptor.label
            &&& e.note@ == selection_note("Audio"@, "RECORD_SCREEN_AUDIO_BACKEND"@,
                is_forced(requested_id, st.descriptor.id@), req_text(requested_id), st.descriptor.label@,
                audio_reason(st.availability))
        }),
{
    let k = select_audio_backend(candidates, requested_id);
    let st = &candidates[k];
    let forced = match requested_id {
        Some(r) => str_eq(r, st.descriptor.id),
        None => false,
    };
    let reason = match &st.availability {
        AudioBackendAvailability::Available => None,
        AudioBackendAvailability::Unavailable { reason } => Some(reason),
    };
    let requested = match requested_id { Some(r) => r, None => "" };
    assert(requested_id is None ==> ""@ == Seq::<char>::empty()) by {
        reveal_strlit("");
    }
    let note = build_selection_note("Audio", "RECORD_SCREEN_AUDIO_BACKEND", forced, requested, st.descriptor.label, reason);
    BackendSelectionExplanation {
        selected_id: st.descriptor.id,
        selected_label: st.descriptor.label,
        note,
    }
}

/// The encoder registry's choice and the note that explains it.
pub fn explain_encoder_backend_selection(candidates: &[EncoderBackendStatus], requested_id: Option<&str>) -> (e: BackendSelectionExplanation)
    requires
        candidates@.len() > 0,
    ensures
        ({
            let st = candidates@[selection_index(encoder_ids(candidates@), encoder_available(candidates@), opt_view(requested_id))];
            &&& e.selected_id == st.descriptor.id
            &&& e.selected_label == st.descriptor.label
            &&& e.note@ == selection_note("Encoder"@, "RECORD_SCREEN_ENCODER_BACKEND"@,
                is_forced(requested_id, st.descriptor.id@), req_text(requested_id), st.descriptor.label@,
                encoder_reason(st.availability))
        }),
{
    let k = select_encoder_backend(candidates, requested_id);
    let st = &candidates[k];
    let forced = match requested_id {
        Some(r) => str_eq(r, st.descriptor.id),
        None => false,
    };
    let reason = match &st.availability {
        EncoderBackendAvailability::Available => None,
        EncoderBackendAvailability::Unavailable { reason } => Some(reason),
    };
    let requested = match requested_id { Some(r) => r, None => "" };
    assert(requested_id is None ==> ""@ == Seq::<char>::empty()) by {
        reveal_strlit("");
    }
    let note = build_selection_note("Encoder", "RECORD_SCREEN_ENCODER_BACKEND", forced, requested, st.descriptor.label, reason);
    BackendSelectionExplanation {
        selected_id: st.descriptor.id,
        selected_label: st.descriptor.label,
        note,
    }
}


/// "<label> is not active yet: <reason>" for each unavailable capture backend.
pub open spec fn capture_unavailable_notes(statuses: Seq<CaptureBackendStatus>) -> Seq<Seq<char>>
    decreases statuses.len(),
{
    if statuses.len() == 0 {
        seq![]
    } else {
        let rest = capture_unavailable_notes(statuses.drop_last());
        match statuses.last().availability {
            CaptureBackendAvailability::Available => rest,
            CaptureBackendAvailability::Unavailable { reason } =>
                rest.push(statuses.last().descriptor.label@ + " is not active yet: "@ + reason@),
        }
    }
}

pub open spec fn audio_unavailable_notes(statuses: Seq<AudioBackendStatus>) -> Seq<Seq<char>>
    decreases statuses.len(),
{
    if statuses.len() == 0 {
        seq![]
    } else {
        let rest = audio_unavailable_notes(statuses.drop_last());
        match statuses.last().availability {
            AudioBackendAvailability::Available => rest,
            AudioBackendAvailability::Unavailable { reason } =>
                rest.push(statuses.last().descriptor.label@ + " is not active yet: "@ + reason@),
        }
    }
}

pub open spec fn encoder_unavailable_notes(statuses: Seq<EncoderBackendStatus>) -> Seq<Seq<char>>
    decreases statuses.len(),
{
    if statuses.len() == 0 {
        seq![]
    } else {
        let rest = encoder_unavailable_notes(statuses.drop_last());
        match statuses.last().availability {
            EncoderBackendAvailability::Available => rest,
            EncoderBackendAvailability::Unavailable { reason } =>
                rest.push(statuses.last().descriptor.label@ + " is not active yet: "@ + reason@),
        }
    }
}

/// The notes joined with single spaces, or `None` when that text is empty.
pub open spec fn joined_note(notes: Seq<Seq<char>>) -> Option<Seq<char>> {
    let j = join(notes, " "@);
    if j.len() == 0 { None } else { Some(j) }
}

fn unavailable_note(label: &str, reason: &String) -> (r: String)
    ensures
        r@ == label@ + " is not active yet: "@ + reason@,
{
    let mut r = String::new();
    push_str(&mut r, label);
    push_str(&mut r, " is not active yet: ");
    push_str(&mut r, reason.as_str());
    r
}

fn note_if_nonempty(parts: &Vec<String>) -> (r: Option<String>)
    ensures
        opt_sview(r) == joined_note(string_views(parts@)),
{
    let j = join_strings(parts, " ");
    if j.as_str().unicode_len() == 0 {
        None
    } else {
        Some(j)
    }
}

/// Joined notes of the capture backends that are not available.
pub fn join_capture_native_unavailable_notes(statuses: &[CaptureBackendStatus]) -> (r: Option<String>)
    ensures
        opt_sview(r) == joined_note(capture_unavailable_notes(statuses@)),
{
    let mut parts: Vec<String> = Vec::new();
    let mut i: usize = 0;
    while i < statuses.len()
        invariant
            i <= statuses@.len(),
            string_views(parts@) == capture_unavailable_notes(statuses@.subrange(0, i as int)),
        decreases statuses@.len() - i,
    {
        assert(statuses@.subrange(0, i + 1).drop_last() == statuses@.subrange(0, i as int));
        match &statuses[i].availability {
            CaptureBackendAvailability::Available => {},
            CaptureBackendAvailability::Unavailable { reason } => {
                let n = unavailable_note(statuses[i].descriptor.label, reason);
                let ghost old = parts@;
                parts.push(n);
                assert(string_views(parts@) == string_views(old).push(n@));
            },
        }
        i += 1;
    }
    assert(statuses@.subrange(0, i as int) == statuses@);
    note_if_nonempty(&parts)
}

/// Joined notes of the audio backends that are not available.
pub fn join_audio_native_unavailable_notes(statuses: &[AudioBackendStatus]) -> (r: Option<String>)
    ensures
        opt_sview(r) == joined_note(audio_unavailable_notes(statuses@)),
{
    let mut parts: Vec<String> = Vec::new();
    let mut i: usize = 0;
    while i < statuses.len()
        invariant
            i <= statuses@.len(),
            string_views(parts@) == audio_unavailable_notes(statuses@.subrange(0, i as int)),
        decreases statuses@.len() - i,
    {
        assert(statuses@.subrange(0, i + 1).drop_last() == statuses@.subrange(0, i as int));
        match &statuses[i].availability {
            AudioBackendAvailability::Available => {},
            AudioBackendAvailability::Unavailable { reason } => {
                let n = unavailable_note(statuses[i].descriptor.label, reason);
                let ghost old = parts@;
                parts.push(n);
                assert(string_views(parts@) == string_views(old).push(n@));
            },
        }
        i += 1;
    }
    assert(statuses@.subrange(0, i as int) == statuses@);
    note_if_nonempty(&parts)
}

/// Joined notes of the encoder backends that are not available.
pub fn join_encoder_native_unavailable_notes(statuses: &[EncoderBackendStatus]) -> (r: Option<String>)
    ensures
        opt_sview(r) == joined_note(encoder_unavailable_notes(statuses@)),
{
    let mut parts: Vec<String> = Vec::new();
    let mut i: usize = 0;
    while i < statuses.len()
        invariant
            i <= statuses@.len(),
            string_views(parts@) == encoder_unavailable_notes(statuses@.subrange(0, i as int)),
        decreases statuses@.len() - i,
    {
        assert(statuses@.subrange(0, i + 1).drop_last() == statuses@.subrange(0, i as int));
        match &statuses[i].availability {
            EncoderBackendAvailability::Available => {},
            EncoderBackendAvailability::Unavailable { reason } => {
                let n = unavailable_note(statuses[i].descriptor.label, reason);
                let ghost old = parts@;
                parts.push(n);
                assert(string_views(parts@) == string_views(old).push(n@));
            },
        }
        i += 1;
    }
    assert(statuses@.subrange(0, i as int) == statuses@);
    note_if_nonempty(&parts)
}

/// The runtime snapshot of the capture registry: the selected backend's
/// label and report (`selected_report`, as that backend gave it), the
/// selection note and the notes of the unavailable backends.
pub fn capture_backend_runtime_snapshot(
    candidates: &[CaptureBackendStatus],
    requested_id: Option<&str>,
    selected_report: CaptureBackendRuntimeReport,
) -> (r: CaptureBackendRuntimeSnapshot)
    requires
        candidates@.len() > 0,
    ensures
        ({
            let st = candidates@[selection_index(capture_ids(candidates@), capture_available(candidates@), opt_view(requested_id))];
            &&& r.path@ == st.descriptor.label@
            &&& r.summary == selected_report.summary
            &&& r.preferred_target_label == selected_report.preferred_target_label
            &&& r.selection_note@ == selection_note("Capture"@, "RECORD_SCREEN_CAPTURE_BACKEND"@,
                is_forced(requested_id, st.descriptor.id@), req_text(requested_id), st.descriptor.label@,
                capture_reason(st.availability))
            &&& opt_sview(r.native_unavailable_note) == joined_note(capture_unavailable_notes(candidates@))
        }),
{
    let selection = explain_capture_backend_selection(candidates, requested_id);
    let native_unavailable_note = join_capture_native_unavailable_notes(candidates);
    CaptureBackendRuntimeSnapshot {
        path: String::from_str(selection.selected_label),
        summary: selected_report.summary,
        preferred_target_label: selected_report.preferred_target_label,
        selection_note: selection.note,
        native_unavailable_note,
    }
}

/// The runtime snapshot of the audio registry (see `capture_backend_runtime_snapshot`).
pub fn audio_backend_runtime_snapshot(
    candidates: &[AudioBackendStatus],
    requested_id: Option<&str>,
    selected_report: AudioBackendRuntimeReport,
) -> (r: AudioBackendRuntimeSnapshot)
    requires
        candidates@.len() > 0,
    ensures
        ({
            let st = candidates@[selection_index(audio_ids(candidates@), audio_available(candidates@), opt_view(requested_id))];
            &&& r.path@ == st.descriptor.label@
            &&& r.summary == selected_report.summary
            &&& r.preferred_input_id == selected_report.preferred_input_id
            &&& r.preferred_input_label == selected_report.preferred_input_label
            &&& r.preferred_system_id == selected_report.preferred_system_id
            &&& r.preferred_system_label == selected_report.preferred_system_label
            &&& r.selection_note@ == selection_note("Audio"@, "RECORD_SCREEN_AUDIO_BACKEND"@,
                is_forced(requested_id, st.descriptor.id@), req_text(requested_id), st.descriptor.label@,
                audio_reason(st.availability))
            &&& opt_sview(r.native_unavailable_note) == joined_note(audio_unavailable_notes(candidates@))
        }),
{
    let selection = explain_audio_backend_selection(candidates, requested_id);
    let native_unavailable_note = join_audio_native_unavailable_notes(candidates);
    AudioBackendRuntimeSnapshot {
        path: String::from_str(selection.selected_label),
        summary: selected_report.summary,
        preferred_input_id: selected_report.preferred_input_id,
        preferred_input_label: selected_report.preferred_input_label,
        preferred_system_id: selected_report.preferred_system_id,
        preferred_system_label: selected_report.preferred_system_label,
        selection_note: selection.note,
        native_unavailable_note,
    }
}

/// The runtime snapshot of the encoder registry (see `capture_backend_runtime_snapshot`).
pub fn encoder_backend_runtime_snapshot(
    candidates: &[EncoderBackendStatus],
    requested_id: Option<&str>,
    selected_report: EncoderBackendRuntimeReport,
) -> (r: EncoderBackendRuntimeSnapshot)
    requires
        candidates@.len() > 0,
    ensures
        ({
            let st = candidates@[selection_index(encoder_ids(candidates@), encoder_available(candidates@), opt_view(requested_id))];
            &&& r.path@ == st.descriptor.label@
            &&& r.summary == selected_report.summary
            &&& r.preferred_encoder_label == selected_report.preferred_encoder_label
            &&& r.selection_note@ == selection_note("Encoder"@, "RECORD_SCREEN_ENCODER_BACKEND"@,
                is_forced(requested_id, st.descriptor.id@), req_text(requested_id), st.descriptor.label@,
                encoder_reason(st.availability))
            &&& opt_sview(r.native_unavailable_note) == joined_note(encoder_unavailable_notes(candidates@))
        }),
{
    let selection = explain_encoder_backend_selection(candidates, requested_id);
    let native_unavailable_note = join_encoder_native_unavailable_notes(candidates);
    EncoderBackendRuntimeSnapshot {
        path: String::from_str(selection.selected_label),
        summary: selected_report.summary,
        preferred_encoder_label: selected_report.preferred_encoder_label,
        selection_note: selection.note,
        native_unavailable_note,
    }
}

/// One-line description of the capture abstraction.
pub fn capability_summary() -> (r: &'static str)
    ensures
        r@ == "Cross-platform capture abstraction. Platform crates implement backend-specific recording."@,
{
    "Cross-platform capture abstraction. Platform crates implement backend-specific recording."
}

/// The target that records the whole desktop.
pub fn full_desktop_target() -> (t: CaptureTargetOption)
    ensures
        t.id@ == FULL_DESKTOP_TARGET_ID@,
        t.label@ == "Full desktop"@,
        t.description@ == "Record the entire active desktop layout across all connected displays."@,
{
    CaptureTargetOption {
        id: String::from_str(FULL_DESKTOP_TARGET_ID),
        label: String::from_str("Full desktop"),
        description: String::from_str("Record the entire active desktop layout across all connected displays."),
    }
}

/// The target that records a custom rectangle of the desktop.
pub fn custom_region_target(x: u32, y: u32, width: u32, height: u32) -> (t: CaptureTargetOption)
    ensures
        t.id@ == CUSTOM_REGION_TARGET_ID@,
        t.label@ == "Custom region"@,
        t.description@ == "Capture a custom area at "@ + dec(x as nat) + ", "@ + dec(y as nat)
            + " with size "@ + dec(width as nat) + " x "@ + dec(height as nat) + "."@,
{
    let mut description = String::from_str("Capture a custom area at ");
    push_dec(&mut description, x as u64);
    push_str(&mut description, ", ");
    push_dec(&mut description, y as u64);
    push_str(&mut description, " with size ");
    push_dec(&mut description, width as u64);
    push_str(&mut description, " x ");
    push_dec(&mut description, height as u64);
    push_str(&mut description, ".");
    CaptureTargetOption {
        id: String::from_str(CUSTOM_REGION_TARGET_ID),
        label: String::from_str("Custom region"),
        description,
    }
}

/// The input that stands for the system's default microphone.
pub fn default_audio_input() -> (o: AudioInputOption)
    ensures
        o.id@ == DEFAULT_AUDIO_INPUT_ID@,
        o.label@ == "Default input"@,
        o.description@ == "Use the system default microphone or audio input device."@,
        o.kind == AudioInputKind::Default,
{
    AudioInputOption {
        id: String::from_str(DEFAULT_AUDIO_INPUT_ID),
        label: String::from_str("Default input"),
        description: String::from_str("Use the system default microphone or audio input device."),
        kind: AudioInputKind::Default,
    }
}


/// The text an input is scored on: lowercase label, a space, lowercase description.
pub open spec fn input_haystack(o: AudioInputOption) -> Seq<char> {
    lower(o.label@) + seq![' '] + lower(o.description@)
}

/// How strongly an input looks like a microphone (or, for system inputs,
/// a system-audio source): keyword weights over its label and description.
pub open spec fn audio_input_score_spec(o: AudioInputOption) -> int {
    let h = input_haystack(o);
    (if o.kind == AudioInputKind::System { 180int } else { 0int })
        + (if contains(h, "microphone"@) || contains(h, "mic"@) { 120int } else { 0int })
        + (if contains(h, "built-in"@) || contains(h, "internal"@) { 20int } else { 0int })
        + (if contains(h, "usb"@) || contains(h, "interface"@) { 18int } else { 0int })
        + (if contains(h, "headset"@) || contains(h, "airpods"@) { 14int } else { 0int })
        + (if contains(h, "array"@) { 10int } else { 0int })
        - (if contains(h, "monitor"@) || contains(h, "stereo mix"@) || contains(h, "what u hear"@)
            || contains(h, "loopback"@) || contains(h, "speaker"@) || contains(h, "output"@) { 140int } else { 0int })
}

fn has_word(h: &Vec<char>, w: &str) -> (r: bool)
    ensures
        r == contains(h@, w@),
{
    let p = chars_of(w);
    contains_chars(h, &p)
}

fn input_haystack_of(o: &AudioInputOption) -> (h: Vec<char>)
    ensures
        h@ == input_haystack(*o),
{
    let mut h = to_lower(&chars_of(o.label.as_str()));
    h.push(' ');
    let d = to_lower(&chars_of(o.description.as_str()));
    let mut i: usize = 0;
    let ghost base = h@;
    while i < d.len()
        invariant
            i <= d@.len(),
            h@ == base + d@.subrange(0, i as int),
        decreases d@.len() - i,
    {
        h.push(d[i]);
        assert(d@.subrange(0, i + 1) == d@.subrange(0, i as int).push(d@[i as int]));
        i += 1;
    }
    assert(d@.subrange(0, d@.len() as int) == d@);
    h
}

/// Score of an input (see `audio_input_score_spec`).
pub fn audio_input_score(input: &AudioInputOption) -> (score: i32)
    ensures
        score as int == audio_input_score_spec(*input),
{
    let h = input_haystack_of(input);
    let mut score: i32 = 0;
    if input.kind == AudioInputKind::System {
        score += 180;
    }
    if has_word(&h, "microphone") || has_word(&h, "mic") {
        score += 120;
    }
    if has_word(&h, "built-in") || has_word(&h, "internal") {
        score += 20;
    }
    if has_word(&h, "usb") || has_word(&h, "interface") {
        score += 18;
    }
    if has_word(&h, "headset") || has_word(&h, "airpods") {
        score += 14;
    }
    if has_word(&h, "array") {
        score += 10;
    }
    if has_word(&h, "monitor") || has_word(&h, "stereo mix") || has_word(&h, "what u hear")
        || has_word(&h, "loopback") || has_word(&h, "speaker") || has_word(&h, "output") {
        score -= 140;
    }
    score
}

proof fn lemma_microphone_contains_mic(h: Seq<char>)
    ensures
        contains(h, "microphone"@) ==> contains(h, "mic"@),
{
    if contains(h, "microphone"@) {
        reveal_strlit("microphone");
        reveal_strlit("mic");
        let i = choose|i: int| crate::text::occurs_at(h, "microphone"@, i);
        assert(h.subrange(i, i + 10) == "microphone"@);
        assert forall|k: int| 0 <= k < 3 implies h.subrange(i, i + 3)[k] == "mic"@[k] by {
            assert(h.subrange(i, i + 10)[k] == h[i + k]);
        }
        assert(h.subrange(i, i + 3) =~= "mic"@);
        assert(crate::text::occurs_at(h, "mic"@, i));
    }
}

/// The "mic" keyword is worth 120: of two inputs of the same kind whose
/// label and description agree on every other keyword, the one that says
/// "mic" (or "microphone") scores exactly 120 more than the one that does
/// not.
pub proof fn law_mic_keyword_weight(a: AudioInputOption, b: AudioInputOption)
    requires
        a.kind == b.kind,
        contains(input_haystack(a), "mic"@),
        !contains(input_haystack(b), "mic"@),
        forall|w: Seq<char>| #![trigger contains(input_haystack(a), w)]
            w == "built-in"@ || w == "internal"@ || w == "usb"@ || w == "interface"@ || w == "headset"@
            || w == "airpods"@ || w == "array"@ || w == "monitor"@ || w == "stereo mix"@ || w == "what u hear"@
            || w == "loopback"@ || w == "speaker"@ || w == "output"@
            ==> contains(input_haystack(a), w) == contains(input_haystack(b), w),
    ensures
        audio_input_score_spec(a) == audio_input_score_spec(b) + 120,
{
    lemma_microphone_contains_mic(input_haystack(b));
    let ha = input_haystack(a);
    assert(contains(ha, "built-in"@) == contains(input_haystack(b), "built-in"@));
    assert(contains(ha, "internal"@) == contains(input_haystack(b), "internal"@));
    assert(contains(ha, "usb"@) == contains(input_haystack(b), "usb"@));
    assert(contains(ha, "interface"@) == contains(input_haystack(b), "interface"@));
    assert(contains(ha, "headset"@) == contains(input_haystack(b), "headset"@));
    assert(contains(ha, "airpods"@) == contains(input_haystack(b), "airpods"@));
    assert(contains(ha, "array"@) == contains(input_haystack(b), "array"@));
    assert(contains(ha, "monitor"@) == contains(input_haystack(b), "monitor"@));
    assert(contains(ha, "stereo mix"@) == contains(input_haystack(b), "stereo mix"@));
    assert(contains(ha, "what u hear"@) == contains(input_haystack(b), "what u hear"@));
    assert(contains(ha, "loopback"@) == contains(input_haystack(b), "loopback"@));
    assert(contains(ha, "speaker"@) == contains(input_haystack(b), "speaker"@));
    assert(contains(ha, "output"@) == contains(input_haystack(b), "output"@));
}

/// The label or description names an output device rather than an input.
pub open spec fn names_an_output(h: Seq<char>) -> bool {
    contains(h, "monitor"@) || contains(h, "stereo mix"@) || contains(h, "what u hear"@)
        || contains(h, "loopback"@) || contains(h, "speaker"@) || contains(h, "output"@)
}

/// Among microphone inputs that name no output, one whose label or
/// description says "mic" always outranks one that does not: it scores at
/// least 120, the other at most 62.
pub proof fn law_mic_keyword_outranks(a: AudioInputOption, b: AudioInputOption)
    requires
        a.kind != AudioInputKind::System,
        b.kind != AudioInputKind::System,
        contains(input_haystack(a), "mic"@),
        !contains(input_haystack(b), "mic"@),
        !names_an_output(input_haystack(a)),
        !names_an_output(input_haystack(b)),
    ensures
        audio_input_score_spec(a) >= 120,
        audio_input_score_spec(b) <= 62,
        audio_input_score_spec(a) > audio_input_score_spec(b),
{
    lemma_microphone_contains_mic(input_haystack(b));
}

/// Inputs that may serve as a microphone: not the default entry, not a system source.
pub open spec fn is_microphone_candidate(o: AudioInputOption) -> bool {
    o.id@ != DEFAULT_AUDIO_INPUT_ID@ && o.kind != AudioInputKind::System
}

pub open spec fn is_candidate(o: AudioInputOption, system: bool) -> bool {
    if system { o.kind == AudioInputKind::System } else { is_microphone_candidate(o) }
}

/// Index of the highest-scoring candidate, the last one among equals
/// (as `Iterator::max_by_key` picks), or `None` when there is no candidate.
pub open spec fn best_candidate(inputs: Seq<AudioInputOption>, system: bool) -> Option<int>
    decreases inputs.len(),
{
    if inputs.len() == 0 {
        None
    } else {
        let b = best_candidate(inputs.drop_last(), system);
        let o = inputs.last();
        if !is_candidate(o, system) {
            b
        } else {
            match b {
                None => Some(inputs.len() - 1),
                Some(j) => if audio_input_score_spec(o) >= audio_input_score_spec(inputs[j]) {
                    Some(inputs.len() - 1)
                } else {
                    b
                },
            }
        }
    }
}

proof fn lemma_best_candidate(inputs: Seq<AudioInputOption>, system: bool)
    ensures
        best_candidate(inputs, system) matches Some(i) ==> 0 <= i < inputs.len() && is_candidate(inputs[i], system),
    decreases inputs.len(),
{
    if inputs.len() > 0 {
        lemma_best_candidate(inputs.drop_last(), system);
    }
}

fn best_input(inputs: &[AudioInputOption], system: bool) -> (r: Option<usize>)
    ensures
        match r {
            Some(i) => best_candidate(inputs@, system) == Some(i as int) && i < inputs@.len(),
            None => best_candidate(inputs@, system) is None,
        },
{
    let mut best: Option<usize> = None;
    let mut best_score: i32 = 0;
    let mut i: usize = 0;
    while i < inputs.len()
        invariant
            i <= inputs@.len(),
            match best {
                Some(b) => best_candidate(inputs@.subrange(0, i as int), system) == Some(b as int)
                    && b < i && best_score as int == audio_input_score_spec(inputs@[b as int]),
                None => best_candidate(inputs@.subrange(0, i as int), system) is None,
            },
        decreases inputs@.len() - i,
    {
        let o = &inputs[i];
        assert(inputs@.subrange(0, i + 1).drop_last() == inputs@.subrange(0, i as int));
        assert(inputs@.subrange(0, i + 1).last() == inputs@[i as int]);
        let ok = if system {
            o.kind == AudioInputKind::System
        } else {
            !str_eq(o.id.as_str(), DEFAULT_AUDIO_INPUT_ID) && o.kind != AudioInputKind::System
        };
        if ok {
            let sc = audio_input_score(o);
            match best {
                None => {
                    best = Some(i);
                    best_score = sc;
                },
                Some(b) => {
                    assert(inputs@.subrange(0, i + 1)[b as int] == inputs@[b as int]);
                    if sc >= best_score {
                        best = Some(i);
                        best_score = sc;
                    }
                },
            }
        }
        i += 1;
    }
    assert(inputs@.subrange(0, i as int) == inputs@);
    best
}

/// The preferred input is a highest-scoring candidate, and the last of
/// those that score highest; there is none only when no input is a
/// candidate.
pub proof fn law_preferred_input_scores_highest(inputs: Seq<AudioInputOption>, system: bool)
    ensures
        best_candidate(inputs, system) is None <==> (forall|j: int|
            0 <= j < inputs.len() ==> !#[trigger] is_candidate(inputs[j], system)),
        best_candidate(inputs, system) matches Some(i) ==> {
            &&& 0 <= i < inputs.len()
            &&& is_candidate(inputs[i], system)
            &&& forall|j: int| 0 <= j < inputs.len() && #[trigger] is_candidate(inputs[j], system)
                ==> audio_input_score_spec(inputs[j]) <= audio_input_score_spec(inputs[i])
            &&& forall|j: int| i < j < inputs.len() && #[trigger] is_candidate(inputs[j], system)
                ==> audio_input_score_spec(inputs[j]) < audio_input_score_spec(inputs[i])
        },
    decreases inputs.len(),
{
    if inputs.len() > 0 {
        let p = inputs.drop_last();
        law_preferred_input_scores_highest(p, system);
        assert forall|j: int| 0 <= j < p.len() implies p[j] == inputs[j] by {}
        let n = inputs.len() - 1;
        if best_candidate(p, system) is None {
            assert forall|j: int| 0 <= j < n implies !#[trigger] is_candidate(inputs[j], system) by {
                assert(p[j] == inputs[j]);
                assert(!is_candidate(p[j], system));
            }
        } else {
            let i = best_candidate(p, system)->0;
            assert(p[i] == inputs[i]);
            assert(is_candidate(inputs[i], system));
        }
    }
}

/// The microphone candidate with the highest score (later ones win ties).
pub fn preferred_audio_input(audio_inputs: &[AudioInputOption]) -> (r: Option<&AudioInputOption>)
    ensures
        match best_candidate(audio_inputs@, false) {
            Some(i) => r == Some(&audio_inputs@[i]),
            None => r is None,
        },
{
    match best_input(audio_inputs, false) {
        Some(i) => Some(&audio_inputs[i]),
        None => None,
    }
}

/// The system-audio source with the highest score (later ones win ties).
pub fn preferred_system_audio_input(audio_inputs: &[AudioInputOption]) -> (r: Option<&AudioInputOption>)
    ensures
        match best_candidate(audio_inputs@, true) {
            Some(i) => r == Some(&audio_inputs@[i]),
            None => r is None,
        },
{
    match best_input(audio_inputs, true) {
        Some(i) => Some(&audio_inputs[i]),
        None => None,
    }
}

pub open spec fn has_input_id(inputs: Seq<AudioInputOption>, id: Seq<char>) -> bool {
    exists|k: int| 0 <= k < inputs.len() && #[trigger] inputs[k].id@ == id
}

pub open spec fn has_microphone_id(inputs: Seq<AudioInputOption>, id: Seq<char>) -> bool {
    exists|k: int| 0 <= k < inputs.len() && #[trigger] inputs[k].id@ == id && inputs[k].kind != AudioInputKind::System
}

/// The best microphone candidate's id, else the default entry's id when
/// the list holds one, else `None`.
pub open spec fn fallback_microphone(inputs: Seq<AudioInputOption>) -> Option<Seq<char>> {
    match best_candidate(inputs, false) {
        Some(i) => Some(inputs[i].id@),
        None => if has_input_id(inputs, DEFAULT_AUDIO_INPUT_ID@) { Some(DEFAULT_AUDIO_INPUT_ID@) } else { None },
    }
}

pub open spec fn resolve_audio_input_spec(selected: Seq<char>, inputs: Seq<AudioInputOption>) -> Option<Seq<char>> {
    if inputs.len() == 0 {
        None
    } else if selected != DEFAULT_AUDIO_INPUT_ID@ {
        if has_input_id(inputs, selected) { Some(selected) } else { None }
    } else {
        fallback_microphone(inputs)
    }
}

pub open spec fn resolve_microphone_input_spec(selected: Seq<char>, inputs: Seq<AudioInputOption>) -> Option<Seq<char>> {
    if inputs.len() == 0 {
        None
    } else if selected != DEFAULT_AUDIO_INPUT_ID@ && has_microphone_id(inputs, selected) {
        Some(selected)
    } else {
        fallback_microphone(inputs)
    }
}

fn find_input_id(inputs: &[AudioInputOption], id: &str, microphone_only: bool) -> (r: bool)
    ensures
        r == (if microphone_only { has_microphone_id(inputs@, id@) } else { has_input_id(inputs@, id@) }),
{
    let mut i: usize = 0;
    while i < inputs.len()
        invariant
            i <= inputs@.len(),
            forall|k: int| 0 <= k < i ==> !(#[trigger] inputs@[k].id@ == id@ && (!microphone_only || inputs@[k].kind != AudioInputKind::System)),
        decreases inputs@.len() - i,
    {
        if str_eq(inputs[i].id.as_str(), id) && (!microphone_only || inputs[i].kind != AudioInputKind::System) {
            assert(inputs@[i as int].id@ == id@);
            return true;
        }
        i += 1;
    }
    false
}

fn fallback_microphone_id(inputs: &[AudioInputOption]) -> (r: Option<String>)
    ensures
        opt_sview(r) == fallback_microphone(inputs@),
{
    proof { lemma_best_candidate(inputs@, false); }
    match best_input(inputs, false) {
        Some(i) => Some(inputs[i].id.clone()),
        None => if find_input_id(inputs, DEFAULT_AUDIO_INPUT_ID, false) {
            Some(String::from_str(DEFAULT_AUDIO_INPUT_ID))
        } else {
            None
        },
    }
}

/// Resolves the audio input to record from: an explicit choice stands when
/// the list holds it; the default entry resolves to the best microphone.
pub fn resolve_audio_input_id(selected_audio_input_id: &str, audio_inputs: &[AudioInputOption]) -> (r: Option<String>)
    ensures
        opt_sview(r) == resolve_audio_input_spec(selected_audio_input_id@, audio_inputs@),
{
    if audio_inputs.len() == 0 {
        return None;
    }
    if !str_eq(selected_audio_input_id, DEFAULT_AUDIO_INPUT_ID) {
        if find_input_id(audio_inputs, selected_audio_input_id, false) {
            return Some(String::from_str(selected_audio_input_id));
        }
        return None;
    }
    fallback_microphone_id(audio_inputs)
}

/// Resolves the microphone to record from: an explicit choice stands when
/// it is listed and is not a system source; anything else resolves to the
/// best microphone, else to the default entry.
pub fn resolve_microphone_input_id(selected_audio_input_id: &str, audio_inputs: &[AudioInputOption]) -> (r: Option<String>)
    ensures
        opt_sview(r) == resolve_microphone_input_spec(selected_audio_input_id@, audio_inputs@),
{
    if audio_inputs.len() == 0 {
        return None;
    }
    if !str_eq(selected_audio_input_id, DEFAULT_AUDIO_INPUT_ID)
        && find_input_id(audio_inputs, selected_audio_input_id, true) {
        return Some(String::from_str(selected_audio_input_id));
    }
    fallback_microphone_id(audio_inputs)
}

} // verus!
