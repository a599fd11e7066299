//! Recorder state behind the launcher: what a start, pause, resume, stop or
//! settings change does, what the launcher shows, and the recent sessions.
use vstd::prelude::*;
use vstd::string::*;
use crate::capture::{opt_sview, AudioInputOption, CaptureTargetOption};
use crate::permissions::{check_views, default_permission_views, default_permissions, PermissionCheck};
use crate::shortcuts::{
    action_at, binding_views, copy_binding, copy_bindings, default_binding, default_shortcuts, ShortcutAction,
    ShortcutBinding, ShortcutBindingView,
};
use crate::storage::{first_binding_for, lemma_binding_prefix, lemma_first_binding_for, AppSettings, AppSettingsView, default_settings};
use crate::text::{blank, dec, dec2, is_blank, push_dec2_wide, push_dec_wide, push_str, str_eq, string_views};

verus! {

/// The largest span a `Duration` holds, in nanoseconds.
pub const DURATION_MAX_NANOS: u128 = 18446744073709551615999999999u128;

const NANOS_PER_SECOND: u128 = 1000000000u128;

#[derive(Debug, Clone, Copy, PartialEq, Eq, Structural)]
pub enum RecorderStatus {
    Idle,
    Recording,
    Paused,
}

#[derive(Debug, Clone)]
pub struct RecorderSnapshot {
    pub status: RecorderStatus,
    pub elapsed_label: String,
    pub active_target: String,
    pub active_output_path: Option<String>,
    pub active_encoder_label: Option<String>,
    pub quality_preset: String,
    pub output_directory: String,
    pub mic_enabled: bool,
}

pub struct RecorderSnapshotView {
    pub status: RecorderStatus,
    pub elapsed_label: Seq<char>,
    pub active_target: Seq<char>,
    pub active_output_path: Option<Seq<char>>,
    pub active_encoder_label: Option<Seq<char>>,
    pub quality_preset: Seq<char>,
    pub output_directory: Seq<char>,
    pub mic_enabled: bool,
}

impl View for RecorderSnapshot {
    type V = RecorderSnapshotView;

    open spec fn view(&self) -> RecorderSnapshotView {
        RecorderSnapshotView {
            status: self.status,
            elapsed_label: self.elapsed_label@,
            active_target: self.active_target@,
            active_output_path: opt_sview(self.active_output_path),
            active_encoder_label: opt_sview(self.active_encoder_label),
            quality_preset: self.quality_preset@,
            output_directory: self.output_directory@,
            mic_enabled: self.mic_enabled,
        }
    }
}

#[derive(Debug, Clone, PartialEq, Eq)]
pub struct RuntimeDiagnostics {
    pub summary: String,
    pub backend_path: String,
    pub readiness: String,
    pub supports_custom_region: bool,
    pub custom_region_note: String,
    pub supports_system_audio: bool,
    pub system_audio_note: String,
}

#[derive(Debug, Clone, PartialEq, Eq)]
pub struct SessionSummary {
    pub id: String,
    pub title: String,
    pub started_at: String,
    pub duration_label: String,
    pub location: String,
    pub size_label: String,
}

pub struct SessionSummaryView {
    pub id: Seq<char>,
    pub title: Seq<char>,
    pub started_at: Seq<char>,
    pub duration_label: Seq<char>,
    pub location: Seq<char>,
    pub size_label: Seq<char>,
}

impl View for SessionSummary {
    type V = SessionSummaryView;

    open spec fn view(&self) -> SessionSummaryView {
        SessionSummaryView {
            id: self.id@,
            title: self.title@,
            started_at: self.started_at@,
            duration_label: self.duration_label@,
            location: self.location@,
            size_label: self.size_label@,
        }
    }
}

pub open spec fn session_views(v: Seq<SessionSummary>) -> Seq<SessionSummaryView> {
    v.map_values(|s: SessionSummary| s@)
}

/// A finished recording as handed to the session list; `duration_nanos`
/// is its length in nanoseconds.
#[derive(Debug, Clone)]
pub struct CompletedRecording {
    pub title: String,
    pub started_at_label: String,
    pub duration_nanos: u128,
    pub location: String,
    pub size_bytes: u64,
}

#[derive(Debug, Clone)]
pub struct BootstrapSnapshot {
    pub app_name: String,
    pub app_version: String,
    pub app_author: String,
    pub app_license: String,
    pub platform: String,
    pub launcher_window_label: String,
    pub recorder: RecorderSnapshot,
    pub settings: AppSettings,
    pub capture_targets: Vec<CaptureTargetOption>,
    pub audio_inputs: Vec<AudioInputOption>,
    pub quality_presets: Vec<String>,
    pub shortcuts: Vec<ShortcutBinding>,
    pub permissions: Vec<PermissionCheck>,
    pub diagnostics: RuntimeDiagnostics,
    pub recent_sessions: Vec<SessionSummary>,
    pub roadmap: Vec<String>,
}

// ---------------------------------------------------------------------------
// Labels

/// `HH:MM:SS` of a span, hours padded to at least two digits.
pub open spec fn duration_label(nanos: nat) -> Seq<char> {
    let secs = nanos / 1000000000;
    dec2(secs / 3600) + seq![':'] + dec2((secs % 3600) / 60) + seq![':'] + dec2(secs % 60)
}

/// The label of a span, as the session list and the timer show it.
pub fn format_duration(nanos: u128) -> (r: String)
    ensures
        r@ == duration_label(nanos as nat),
{
    let secs = nanos / NANOS_PER_SECOND;
    let mut r = String::new();
    push_dec2_wide(&mut r, secs / 3600);
    push_str(&mut r, ":");
    proof { reveal_strlit(":"); }
    push_dec2_wide(&mut r, (secs % 3600) / 60);
    push_str(&mut r, ":");
    push_dec2_wide(&mut r, secs % 60);
    r
}

/// `a / d` rounded to the nearest integer, ties to even.
pub open spec fn half_even_quotient(a: nat, d: nat) -> nat {
    let q = a / d;
    let r = a % d;
    if 2 * r > d || (2 * r == d && q % 2 == 1) {
        q + 1
    } else {
        q
    }
}

fn half_even_div(a: u128, d: u128) -> (r: u128)
    requires
        1 <= d <= 0x1_0000_0000_0000_0000,
    ensures
        r == half_even_quotient(a as nat, d as nat),
{
    let q = a / d;
    let m = a % d;
    if 2 * m > d || (2 * m == d && q % 2 == 1) {
        assert(d >= 2);
        assert(q <= a / 2) by (nonlinear_arith)
            requires d >= 2, q == a / d;
        q + 1
    } else {
        q
    }
}

/// The value of a byte count converted to `f64`: the nearest number with
/// 53 significant bits, ties to an even last bit.
pub open spec fn f64_of_count(b: nat) -> nat {
    if b < 0x20_0000_0000_0000 {
        b
    } else if b < 0x40_0000_0000_0000 {
        half_even_quotient(b, 2) * 2
    } else if b < 0x80_0000_0000_0000 {
        half_even_quotient(b, 4) * 4
    } else if b < 0x100_0000_0000_0000 {
        half_even_quotient(b, 8) * 8
    } else if b < 0x200_0000_0000_0000 {
        half_even_quotient(b, 16) * 16
    } else if b < 0x400_0000_0000_0000 {
        half_even_quotient(b, 32) * 32
    } else if b < 0x800_0000_0000_0000 {
        half_even_quotient(b, 64) * 64
    } else if b < 0x1000_0000_0000_0000 {
        half_even_quotient(b, 128) * 128
    } else if b < 0x2000_0000_0000_0000 {
        half_even_quotient(b, 256) * 256
    } else if b < 0x4000_0000_0000_0000 {
        half_even_quotient(b, 512) * 512
    } else if b < 0x8000_0000_0000_0000 {
        half_even_quotient(b, 1024) * 1024
    } else {
        half_even_quotient(b, 2048) * 2048
    }
}

fn f64_round_count(bytes: u64) -> (v: u128)
    ensures
        v == f64_of_count(bytes as nat),
        v <= bytes + 2048,
{
    let b = bytes as u128;
    if b < 0x20_0000_0000_0000 {
        b
    } else {
        let d: u128 = if b < 0x40_0000_0000_0000 {
            2
        } else if b < 0x80_0000_0000_0000 {
            4
        } else if b < 0x100_0000_0000_0000 {
            8
        } else if b < 0x200_0000_0000_0000 {
            16
        } else if b < 0x400_0000_0000_0000 {
            32
        } else if b < 0x800_0000_0000_0000 {
            64
        } else if b < 0x1000_0000_0000_0000 {
            128
        } else if b < 0x2000_0000_0000_0000 {
            256
        } else if b < 0x4000_0000_0000_0000 {
            512
        } else if b < 0x8000_0000_0000_0000 {
            1024
        } else {
            2048
        };
        let q = half_even_div(b, d);
        assert(q <= b / d + 1);
        assert(q * d <= b + d) by (nonlinear_arith)
            requires
                q <= b / d + 1,
                d >= 2,
        {
            assert((b / d) * d <= b);
        }
        q * d
    }
}

/// The size label of the session list: whole megabytes below one
/// gigabyte, gigabytes with two decimals from there on, both rounded as
/// `{:.0}` / `{:.2}` round the `f64` quotient (ties to even).
pub open spec fn size_label(bytes: nat) -> Seq<char> {
    let v = f64_of_count(bytes);
    if v >= 0x4000_0000 {
        let n = half_even_quotient(v * 100, 0x4000_0000);
        dec(n / 100) + seq!['.'] + dec2(n % 100) + " GB"@
    } else {
        dec(half_even_quotient(bytes, 0x10_0000)) + " MB"@
    }
}

/// The size label of a recording of `bytes` bytes.
pub fn format_size(bytes: u64) -> (r: String)
    ensures
        r@ == size_label(bytes as nat),
{
    let v = f64_round_count(bytes);
    let mut r = String::new();
    if v >= 0x4000_0000 {
        let n = half_even_div(v * 100, 0x4000_0000);
        push_dec_wide(&mut r, n / 100);
        push_str(&mut r, ".");
        proof { reveal_strlit("."); }
        push_dec2_wide(&mut r, n % 100);
        push_str(&mut r, " GB");
    } else {
        let n = half_even_div(bytes as u128, 0x10_0000);
        push_dec_wide(&mut r, n);
        push_str(&mut r, " MB");
    }
    r
}

// ---------------------------------------------------------------------------
// The recorder

/// The recorder behind the launcher. Times count nanoseconds since the
/// Unix epoch.
#[derive(Debug)]
pub struct AppCore {
    settings: AppSettings,
    status: RecorderStatus,
    active_target: String,
    active_output_path: Option<String>,
    active_encoder_label: Option<String>,
    started_at: Option<i128>,
    paused_at: Option<i128>,
    accumulated_paused: u128,
    shortcuts: Vec<ShortcutBinding>,
    recent_sessions: Vec<SessionSummary>,
}

pub struct AppCoreView {
    pub settings: AppSettingsView,
    pub status: RecorderStatus,
    pub active_target: Seq<char>,
    pub active_output_path: Option<Seq<char>>,
    pub active_encoder_label: Option<Seq<char>>,
    pub started_at: Option<i128>,
    pub paused_at: Option<i128>,
    pub accumulated_paused: u128,
    pub shortcuts: Seq<ShortcutBindingView>,
    pub recent_sessions: Seq<SessionSummaryView>,
}

impl View for AppCore {
    type V = AppCoreView;

    closed spec fn view(&self) -> AppCoreView {
        AppCoreView {
            settings: self.settings@,
            status: self.status,
            active_target: self.active_target@,
            active_output_path: opt_sview(self.active_output_path),
            active_encoder_label: opt_sview(self.active_encoder_label),
            started_at: self.started_at,
            paused_at: self.paused_at,
            accumulated_paused: self.accumulated_paused,
            shortcuts: binding_views(self.shortcuts@),
            recent_sessions: session_views(self.recent_sessions@),
        }
    }
}

#[verifier::external_type_specification]
#[verifier::external_body]
pub struct ExSystemTime(std::time::SystemTime);

#[verifier::external_type_specification]
#[verifier::external_body]
pub struct ExSystemTimeError(std::time::SystemTimeError);

/// `SystemTime::now`: the wall clock. Nothing is stated of the instant.
#[verifier::external_body]
fn clock_now() -> (t: std::time::SystemTime) {
    std::time::SystemTime::now()
}

/// `SystemTime::duration_since(UNIX_EPOCH)`: how far the instant lies after
/// the epoch, or (in the error) how far before it. Nothing is stated of
/// the span.
#[verifier::external_body]
fn since_unix_epoch(t: &std::time::SystemTime) -> (r: Result<std::time::Duration, std::time::SystemTimeError>) {
    t.duration_since(std::time::UNIX_EPOCH)
}

/// `SystemTimeError::duration`: how far the later instant lay after the
/// earlier one. Nothing is stated of the span.
#[verifier::external_body]
fn error_span(e: &std::time::SystemTimeError) -> (d: std::time::Duration) {
    e.duration()
}

/// `Duration::as_nanos`: the whole span in nanoseconds, which is at most
/// that of `Duration::MAX` (`u64::MAX` seconds and 999 999 999
/// nanoseconds).
#[verifier::external_body]
fn duration_nanos(d: &std::time::Duration) -> (n: u128)
    ensures
        n <= DURATION_MAX_NANOS,
{
    d.as_nanos()
}

/// Reads the wall clock as signed nanoseconds from the Unix epoch,
/// negative for an instant before it.
fn unix_time_nanos() -> (t: i128)
    ensures
        -DURATION_MAX_NANOS <= t <= DURATION_MAX_NANOS,
{
    let now = clock_now();
    match since_unix_epoch(&now) {
        Ok(d) => duration_nanos(&d) as i128,
        Err(e) => {
            let n = duration_nanos(&error_span(&e));
            -(n as i128)
        },
    }
}

/// Nanoseconds from `from` to `to`, zero when `to` precedes `from`.
fn span_nanos(from: i128, to: i128) -> (d: u128)
    ensures
        d == span(from, to),
{
    if to < from {
        0
    } else if from >= 0 || to < 0 {
        (to - from) as u128
    } else {
        to as u128 + (-(from + 1)) as u128 + 1
    }
}

/// `Duration` between two instants, zero when `to` precedes `from`.
pub open spec fn span(from: i128, to: i128) -> nat {
    if to >= from { (to - from) as nat } else { 0 }
}

/// Recorded time at instant `now`: from the start to `now` (or to the
/// pause instant while paused), less the time spent paused before.
pub open spec fn elapsed_nanos(v: AppCoreView, now: i128) -> nat {
    match v.started_at {
        None => 0,
        Some(s) => {
            let end = match v.paused_at { Some(p) => p, None => now };
            let d = span(s, end);
            if d >= v.accumulated_paused { (d - v.accumulated_paused) as nat } else { 0 }
        },
    }
}

pub open spec fn elapsed_label(v: AppCoreView, now: i128) -> Seq<char> {
    match v.status {
        RecorderStatus::Idle => "Ready when you are"@,
        RecorderStatus::Recording => duration_label(elapsed_nanos(v, now)),
        RecorderStatus::Paused => "Paused at "@ + duration_label(elapsed_nanos(v, now)),
    }
}

/// What the launcher shows of the recorder at instant `now`.
pub open spec fn snapshot_view(v: AppCoreView, now: i128) -> RecorderSnapshotView {
    RecorderSnapshotView {
        status: v.status,
        elapsed_label: elapsed_label(v, now),
        active_target: v.active_target,
        active_output_path: v.active_output_path,
        active_encoder_label: v.active_encoder_label,
        quality_preset: v.settings.quality_preset,
        output_directory: v.settings.output_directory,
        mic_enabled: v.settings.mic_enabled,
    }
}

pub open spec fn quality_preset_views() -> Seq<Seq<char>> {
    seq!["720p / 30 fps"@, "1080p / 30 fps"@, "1080p / 60 fps"@, "1440p / 60 fps"@, "4K / 60 fps"@]
}

pub open spec fn roadmap_views() -> Seq<Seq<char>> {
    seq![
        "Launcher shell and global shortcuts"@,
        "Permission-aware recording bootstrap"@,
        "Cross-platform capture backends"@,
        "Review and export workflow"@,
    ]
}

pub open spec fn new_view(settings: AppSettingsView, shortcuts: Seq<ShortcutBindingView>) -> AppCoreView {
    AppCoreView {
        settings,
        status: RecorderStatus::Idle,
        active_target: "Full desktop"@,
        active_output_path: None,
        active_encoder_label: None,
        started_at: None,
        paused_at: None,
        accumulated_paused: 0,
        shortcuts,
        recent_sessions: seq![],
    }
}

pub open spec fn started_view(v: AppCoreView, target: Seq<char>, encoder: Seq<char>, output: Seq<char>, now: i128) -> AppCoreView {
    AppCoreView {
        status: RecorderStatus::Recording,
        active_target: target,
        active_output_path: Some(output),
        active_encoder_label: Some(encoder),
        started_at: Some(now),
        paused_at: None,
        accumulated_paused: 0,
        ..v
    }
}

pub open spec fn stopped_view(v: AppCoreView) -> AppCoreView {
    AppCoreView {
        status: RecorderStatus::Idle,
        active_output_path: None,
        active_encoder_label: None,
        started_at: None,
        paused_at: None,
        accumulated_paused: 0,
        ..v
    }
}

pub open spec fn paused_view(v: AppCoreView, now: i128) -> AppCoreView {
    AppCoreView { status: RecorderStatus::Paused, paused_at: Some(now), ..v }
}

/// Time added to the paused total by a resume at `now`.
pub open spec fn resume_gap(v: AppCoreView, now: i128) -> nat {
    match v.paused_at {
        Some(p) => span(p, now),
        None => 0,
    }
}

/// Whether a resume at `now` keeps the paused total within a `Duration`.
pub open spec fn resume_fits(v: AppCoreView, now: i128) -> bool {
    v.accumulated_paused + resume_gap(v, now) <= DURATION_MAX_NANOS
}

pub open spec fn resumed_view(v: AppCoreView, now: i128) -> AppCoreView {
    AppCoreView {
        status: RecorderStatus::Recording,
        paused_at: None,
        accumulated_paused: (v.accumulated_paused + resume_gap(v, now)) as u128,
        ..v
    }
}

pub open spec fn session_of(index: nat, rec: CompletedRecording) -> SessionSummaryView {
    SessionSummaryView {
        id: "session-"@ + dec(index),
        title: rec.title@,
        started_at: rec.started_at_label@,
        duration_label: duration_label(rec.duration_nanos as nat),
        location: rec.location@,
        size_label: size_label(rec.size_bytes as nat),
    }
}

/// The session list after a recording completed: the new session first,
/// numbered after the list it joins, and at most ten kept.
pub open spec fn pushed_sessions(sessions: Seq<SessionSummaryView>, rec: CompletedRecording) -> Seq<SessionSummaryView> {
    let all = seq![session_of(sessions.len() + 1, rec)] + sessions;
    if all.len() > 10 { all.subrange(0, 10) } else { all }
}

pub open spec fn with_settings(v: AppCoreView, settings: AppSettingsView) -> AppCoreView {
    AppCoreView { settings, ..v }
}

pub open spec fn mic_toggled(v: AppCoreView) -> AppCoreView {
    with_settings(v, AppSettingsView { mic_enabled: !v.settings.mic_enabled, ..v.settings })
}

/// The bindings after an accelerator change: the first binding of
/// `action` gets `accelerator`; without one nothing changes.
pub open spec fn rebound(v: Seq<ShortcutBindingView>, action: ShortcutAction, accelerator: Seq<char>) -> Seq<ShortcutBindingView> {
    let i = first_binding_for(v, action);
    if i == -1 {
        v
    } else {
        v.update(i, ShortcutBindingView { accelerator, ..v[i] })
    }
}

pub open spec fn region_settings(
    s: AppSettingsView,
    region_x: u32,
    region_y: u32,
    region_width: u32,
    region_height: u32,
    source_id: Option<Seq<char>>,
    origin_x: Option<i32>,
    origin_y: Option<i32>,
) -> AppSettingsView {
    AppSettingsView {
        region_x,
        region_y,
        region_width: if region_width >= 64 { region_width } else { 64 },
        region_height: if region_height >= 64 { region_height } else { 64 },
        region_source_capture_target_id: match source_id {
            Some(id) => if is_blank(id) { s.region_source_capture_target_id } else { id },
            None => s.region_source_capture_target_id,
        },
        region_source_origin_x: match origin_x { Some(x) => x, None => s.region_source_origin_x },
        region_source_origin_y: match origin_y { Some(y) => y, None => s.region_source_origin_y },
        ..s
    }
}

fn copy_opt(o: &Option<String>) -> (r: Option<String>)
    ensures
        opt_sview(r) == opt_sview(*o),
{
    match o {
        Some(s) => Some(s.clone()),
        None => None,
    }
}

fn copy_sessions(v: &Vec<SessionSummary>) -> (r: Vec<SessionSummary>)
    ensures
        session_views(r@) == session_views(v@),
{
    let mut r: Vec<SessionSummary> = Vec::new();
    let mut i: usize = 0;
    while i < v.len()
        invariant
            i <= v@.len(),
            session_views(r@) == session_views(v@.subrange(0, i as int)),
        decreases v@.len() - i,
    {
        let s = &v[i];
        let c = SessionSummary {
            id: s.id.clone(),
            title: s.title.clone(),
            started_at: s.started_at.clone(),
            duration_label: s.duration_label.clone(),
            location: s.location.clone(),
            size_label: s.size_label.clone(),
        };
        let ghost before = r@;
        r.push(c);
        assert(session_views(r@) == session_views(before).push(c@));
        assert(session_views(v@.subrange(0, i + 1)) == session_views(v@.subrange(0, i as int)).push(v@[i as int]@));
        i += 1;
    }
    assert(v@.subrange(0, v@.len() as int) == v@);
    r
}

fn strings_of(items: &[&'static str]) -> (r: Vec<String>)
    ensures
        string_views(r@) == items@.map_values(|s: &'static str| s@),
{
    let mut r: Vec<String> = Vec::new();
    let mut i: usize = 0;
    while i < items.len()
        invariant
            i <= items@.len(),
            string_views(r@) == items@.subrange(0, i as int).map_values(|s: &'static str| s@),
        decreases items@.len() - i,
    {
        let ghost before = r@;
        r.push(String::from_str(items[i]));
        assert(string_views(r@) == string_views(before).push(items@[i as int]@));
        assert(items@.subrange(0, i + 1).map_values(|s: &'static str| s@)
            == items@.subrange(0, i as int).map_values(|s: &'static str| s@).push(items@[i as int]@));
        i += 1;
    }
    assert(items@.subrange(0, items@.len() as int) == items@);
    r
}

impl Default for AppCore {
    fn default() -> (r: Self)
        ensures
            r@.settings == default_settings(),
            r@.shortcuts.len() == 4,
            forall|i: int| 0 <= i < 4 ==> #[trigger] r@.shortcuts[i] == default_binding(action_at(i)),
            r@ == new_view(r@.settings, r@.shortcuts),
    {
        let r = AppCore::new(AppSettings::default(), default_shortcuts());
        r
    }
}

impl AppCore {
    /// A recorder at rest with the given settings and shortcuts.
    pub fn new(settings: AppSettings, shortcuts: Vec<ShortcutBinding>) -> (r: Self)
        ensures
            r@ == new_view(settings@, binding_views(shortcuts@)),
    {
        let r = AppCore {
            settings,
            status: RecorderStatus::Idle,
            active_target: String::from_str("Full desktop"),
            active_output_path: None,
            active_encoder_label: None,
            started_at: None,
            paused_at: None,
            accumulated_paused: 0,
            shortcuts,
            recent_sessions: Vec::new(),
        };
        assert(session_views(r.recent_sessions@) == Seq::<SessionSummaryView>::empty());
        r
    }

    /// The quality presets the launcher offers, in order.
    pub fn quality_presets() -> (r: Vec<String>)
        ensures
            string_views(r@) == quality_preset_views(),
    {
        let items: [&'static str; 5] = ["720p / 30 fps", "1080p / 30 fps", "1080p / 60 fps", "1440p / 60 fps", "4K / 60 fps"];
        let r = strings_of(&items);
        assert(items@.map_values(|s: &'static str| s@) == quality_preset_views());
        r
    }

    /// What the launcher shows at instant `now`.
    pub fn snapshot_at(&self, now: i128) -> (r: RecorderSnapshot)
        ensures
            r@ == snapshot_view(self@, now),
    {
        let elapsed = self.elapsed_at(now);
        let elapsed_label = match self.status {
            RecorderStatus::Idle => String::from_str("Ready when you are"),
            RecorderStatus::Recording => format_duration(elapsed),
            RecorderStatus::Paused => {
                let mut l = String::from_str("Paused at ");
                let d = format_duration(elapsed);
                push_str(&mut l, d.as_str());
                l
            },
        };
        RecorderSnapshot {
            status: self.status,
            elapsed_label,
            active_target: self.active_target.clone(),
            active_output_path: copy_opt(&self.active_output_path),
            active_encoder_label: copy_opt(&self.active_encoder_label),
            quality_preset: self.settings.quality_preset.clone(),
            output_directory: self.settings.output_directory.clone(),
            mic_enabled: self.settings.mic_enabled,
        }
    }

    fn elapsed_at(&self, now: i128) -> (d: u128)
        ensures
            d == elapsed_nanos(self@, now),
    {
        match self.started_at {
            None => 0,
            Some(s) => {
                let end = match self.paused_at {
                    Some(p) => p,
                    None => now,
                };
                let d = span_nanos(s, end);
                if d >= self.accumulated_paused { d - self.accumulated_paused } else { 0 }
            },
        }
    }

    /// What the launcher shows at the moment of the call.
    pub fn snapshot(&self) -> (r: RecorderSnapshot)
        ensures
            exists|t: i128| -DURATION_MAX_NANOS <= t <= DURATION_MAX_NANOS && r@ == snapshot_view(self@, t),
    {
        let now = unix_time_nanos();
        let r = self.snapshot_at(now);
        assert(r@ == snapshot_view(self@, now));
        r
    }

    /// Everything the launcher needs on start-up, with the recorder shown
    /// as at instant `now`.
    pub fn bootstrap_at(
        &self,
        platform: &str,
        app_version: &str,
        capture_targets: Vec<CaptureTargetOption>,
        audio_inputs: Vec<AudioInputOption>,
        diagnostics: RuntimeDiagnostics,
        now: i128,
    ) -> (r: BootstrapSnapshot)
        ensures
            r.app_name@ == "Record Screen"@,
            r.app_version@ == app_version@,
            r.app_author@ == "Tran Van Bach"@,
            r.app_license@ == "MIT"@,
            r.platform@ == platform@,
            r.launcher_window_label@ == "main"@,
            r.recorder@ == snapshot_view(self@, now),
            r.settings@ == self@.settings,
            r.capture_targets == capture_targets,
            r.audio_inputs == audio_inputs,
            string_views(r.quality_presets@) == quality_preset_views(),
            binding_views(r.shortcuts@) == self@.shortcuts,
            check_views(r.permissions@) == default_permission_views(platform@),
            r.diagnostics == diagnostics,
            session_views(r.recent_sessions@) == self@.recent_sessions,
            string_views(r.roadmap@) == roadmap_views(),
    {
        let roadmap_items: [&'static str; 4] = [
            "Launcher shell and global shortcuts",
            "Permission-aware recording bootstrap",
            "Cross-platform capture backends",
            "Review and export workflow",
        ];
        let roadmap = strings_of(&roadmap_items);
        assert(roadmap_items@.map_values(|s: &'static str| s@) == roadmap_views());
        BootstrapSnapshot {
            app_name: String::from_str("Record Screen"),
            app_version: String::from_str(app_version),
            app_author: String::from_str("Tran Van Bach"),
            app_license: String::from_str("MIT"),
            platform: String::from_str(platform),
            launcher_window_label: String::from_str("main"),
            recorder: self.snapshot_at(now),
            settings: self.settings.copy(),
            capture_targets,
            audio_inputs,
            quality_presets: Self::quality_presets(),
            shortcuts: copy_bindings(&self.shortcuts),
            permissions: default_permissions(platform),
            diagnostics,
            recent_sessions: copy_sessions(&self.recent_sessions),
            roadmap,
        }
    }

    /// Everything the launcher needs on start-up, with the recorder shown
    /// as at the moment of the call.
    pub fn bootstrap(
        &self,
        platform: &str,
        app_version: &str,
        capture_targets: Vec<CaptureTargetOption>,
        audio_inputs: Vec<AudioInputOption>,
        diagnostics: RuntimeDiagnostics,
    ) -> (r: BootstrapSnapshot)
        ensures
            r.app_name@ == "Record Screen"@,
            r.app_version@ == app_version@,
            r.app_author@ == "Tran Van Bach"@,
            r.app_license@ == "MIT"@,
            r.platform@ == platform@,
            r.launcher_window_label@ == "main"@,
            exists|t: i128| -DURATION_MAX_NANOS <= t <= DURATION_MAX_NANOS && r.recorder@ == snapshot_view(self@, t),
            r.settings@ == self@.settings,
            r.capture_targets == capture_targets,
            r.audio_inputs == audio_inputs,
            string_views(r.quality_presets@) == quality_preset_views(),
            binding_views(r.shortcuts@) == self@.shortcuts,
            check_views(r.permissions@) == default_permission_views(platform@),
            r.diagnostics == diagnostics,
            session_views(r.recent_sessions@) == self@.recent_sessions,
            string_views(r.roadmap@) == roadmap_views(),
    {
        let now = unix_time_nanos();
        let r = self.bootstrap_at(platform, app_version, capture_targets, audio_inputs, diagnostics, now);
        assert(r.recorder@ == snapshot_view(self@, now));
        r
    }

    pub fn recorder_status(&self) -> (r: RecorderStatus)
        ensures
            r == self@.status,
    {
        self.status
    }

    pub fn settings(&self) -> (r: AppSettings)
        ensures
            r@ == self@.settings,
    {
        self.settings.copy()
    }

    /// Starts the recorder at instant `now` on the given target, encoder
    /// and output file, and shows it as at `now`.
    pub fn start_recording_at(&mut self, active_target: String, active_encoder_label: String, output_path: String, now: i128) -> (r: RecorderSnapshot)
        ensures
            final(self)@ == started_view(old(self)@, active_target@, active_encoder_label@, output_path@, now),
            r@ == snapshot_view(final(self)@, now),
    {
        self.status = RecorderStatus::Recording;
        self.active_target = active_target;
        self.active_output_path = Some(output_path);
        self.active_encoder_label = Some(active_encoder_label);
        self.started_at = Some(now);
        self.paused_at = None;
        self.accumulated_paused = 0;
        self.snapshot_at(now)
    }

    /// Starts the recorder now on the given target, encoder and output file.
    pub fn start_recording(&mut self, active_target: String, active_encoder_label: String, output_path: String) -> (r: RecorderSnapshot)
        ensures
            exists|t: i128| -DURATION_MAX_NANOS <= t <= DURATION_MAX_NANOS && final(self)@ == started_view(old(self)@, active_target@, active_encoder_label@, output_path@, t),
            exists|t: i128| -DURATION_MAX_NANOS <= t <= DURATION_MAX_NANOS && r@ == snapshot_view(final(self)@, t),
    {
        let now = unix_time_nanos();
        self.start_recording_at(active_target, active_encoder_label, output_path, now);
        self.snapshot()
    }

    /// Stops the recorder; a completed recording joins the session list.
    pub fn stop_recording(&mut self, completed: Option<CompletedRecording>) -> (r: RecorderSnapshot)
        ensures
            final(self)@ == (match completed {
                Some(rec) => AppCoreView {
                    recent_sessions: pushed_sessions(old(self)@.recent_sessions, rec),
                    ..stopped_view(old(self)@)
                },
                None => stopped_view(old(self)@),
            }),
            r@ == snapshot_view(final(self)@, 0),
            r.elapsed_label@ == "Ready when you are"@,
    {
        self.status = RecorderStatus::Idle;
        self.active_output_path = None;
        self.active_encoder_label = None;
        self.started_at = None;
        self.paused_at = None;
        self.accumulated_paused = 0;
        if let Some(recording) = completed {
            self.push_completed_recording(recording);
        }
        self.snapshot_at(0)
    }

    /// Puts a finished recording at the head of the session list, which
    /// keeps at most ten entries.
    pub fn push_completed_recording(&mut self, recording: CompletedRecording)
        ensures
            final(self)@ == (AppCoreView {
                recent_sessions: pushed_sessions(old(self)@.recent_sessions, recording),
                ..old(self)@
            }),
    {
        let ghost before = session_views(self.recent_sessions@);
        let mut id = String::from_str("session-");
        push_dec_wide(&mut id, self.recent_sessions.len() as u128 + 1);
        let entry = SessionSummary {
            id,
            title: recording.title,
            started_at: recording.started_at_label,
            duration_label: format_duration(recording.duration_nanos),
            location: recording.location,
            size_label: format_size(recording.size_bytes),
        };
        assert(entry@ == session_of(before.len() + 1, recording));
        self.recent_sessions.insert(0, entry);
        assert(session_views(self.recent_sessions@) == seq![entry@] + before);
        self.recent_sessions.truncate(10);
        assert(session_views(self.recent_sessions@) == pushed_sessions(before, recording));
    }

    /// Pauses a running recording at instant `now`; anything but a running
    /// recording is left as it is and `None` comes back.
    pub fn pause_recording_at(&mut self, now: i128) -> (r: Option<RecorderSnapshot>)
        ensures
            old(self)@.status == RecorderStatus::Recording ==> {
                &&& final(self)@ == paused_view(old(self)@, now)
                &&& r matches Some(snap) && snap@ == snapshot_view(final(self)@, now)
            },
            old(self)@.status != RecorderStatus::Recording ==> final(self)@ == old(self)@ && r is None,
    {
        if self.status != RecorderStatus::Recording {
            return None;
        }
        self.status = RecorderStatus::Paused;
        self.paused_at = Some(now);
        Some(self.snapshot_at(now))
    }

    /// Pauses a running recording now; anything but a running recording is
    /// left as it is and `None` comes back.
    pub fn pause_recording(&mut self) -> (r: Option<RecorderSnapshot>)
        ensures
            old(self)@.status == RecorderStatus::Recording ==> exists|t: i128| -DURATION_MAX_NANOS <= t <= DURATION_MAX_NANOS && {
                &&& final(self)@ == paused_view(old(self)@, t)
                &&& r matches Some(snap) && snap@ == snapshot_view(final(self)@, t)
            },
            old(self)@.status != RecorderStatus::Recording ==> final(self)@ == old(self)@ && r is None,
    {
        let now = unix_time_nanos();
        let r = self.pause_recording_at(now);
        proof {
            if old(self)@.status == RecorderStatus::Recording {
                assert(final(self)@ == paused_view(old(self)@, now));
            }
        }
        r
    }

    /// Resumes a paused recording at instant `now`: the pause interval
    /// joins the paused total. Anything but a paused recording is left as
    /// it is and `None` comes back.
    pub fn resume_recording_at(&mut self, now: i128) -> (r: Option<RecorderSnapshot>)
        requires
            old(self)@.status == RecorderStatus::Paused ==> resume_fits(old(self)@, now),
        ensures
            old(self)@.status == RecorderStatus::Paused ==> {
                &&& final(self)@ == resumed_view(old(self)@, now)
                &&& r matches Some(snap) && snap@ == snapshot_view(final(self)@, now)
            },
            old(self)@.status != RecorderStatus::Paused ==> final(self)@ == old(self)@ && r is None,
    {
        if self.status != RecorderStatus::Paused {
            return None;
        }
        if let Some(paused_at) = self.paused_at {
            let gap = span_nanos(paused_at, now);
            self.accumulated_paused = self.accumulated_paused + gap;
        }
        self.paused_at = None;
        self.status = RecorderStatus::Recording;
        Some(self.snapshot_at(now))
    }

    /// Resumes a paused recording now. Anything but a paused recording is
    /// left as it is and `None` comes back; so is a recording whose paused
    /// total would no longer fit in a `Duration` at the instant read.
    pub fn resume_recording(&mut self) -> (r: Option<RecorderSnapshot>)
        ensures
            old(self)@.status == RecorderStatus::Paused ==> exists|t: i128| -DURATION_MAX_NANOS <= t <= DURATION_MAX_NANOS && {
                ||| {
                    &&& resume_fits(old(self)@, t)
                    &&& final(self)@ == resumed_view(old(self)@, t)
                    &&& r matches Some(snap) && snap@ == snapshot_view(final(self)@, t)
                }
                ||| {
                    &&& !resume_fits(old(self)@, t)
                    &&& final(self)@ == old(self)@
                    &&& r is None
                }
            },
            old(self)@.status != RecorderStatus::Paused ==> final(self)@ == old(self)@ && r is None,
    {
        if self.status != RecorderStatus::Paused {
            return None;
        }
        let now = unix_time_nanos();
        let gap = match self.paused_at {
            Some(p) => span_nanos(p, now),
            None => 0,
        };
        if self.accumulated_paused > DURATION_MAX_NANOS || gap > DURATION_MAX_NANOS - self.accumulated_paused {
            assert(!resume_fits(old(self)@, now));
            return None;
        }
        let r = self.resume_recording_at(now);
        assert(final(self)@ == resumed_view(old(self)@, now));
        r
    }

    /// Flips the microphone setting; the recorder is shown as at `now`.
    pub fn toggle_microphone_at(&mut self, now: i128) -> (r: RecorderSnapshot)
        ensures
            final(self)@ == mic_toggled(old(self)@),
            r@ == snapshot_view(final(self)@, now),
    {
        self.settings.mic_enabled = !self.settings.mic_enabled;
        self.snapshot_at(now)
    }

    /// Flips the microphone setting.
    pub fn toggle_microphone(&mut self) -> (r: RecorderSnapshot)
        ensures
            final(self)@ == mic_toggled(old(self)@),
            exists|t: i128| -DURATION_MAX_NANOS <= t <= DURATION_MAX_NANOS && r@ == snapshot_view(final(self)@, t),
    {
        let now = unix_time_nanos();
        let r = self.toggle_microphone_at(now);
        assert(r@ == snapshot_view(final(self)@, now));
        r
    }

    pub fn update_system_audio_enabled(&mut self, system_audio_enabled: bool) -> (r: AppSettings)
        ensures
            final(self)@ == with_settings(old(self)@,
                AppSettingsView { system_audio_enabled, ..old(self)@.settings }),
            r@ == final(self)@.settings,
    {
        self.settings.system_audio_enabled = system_audio_enabled;
        self.settings.copy()
    }

    /// Puts every shortcut back to its default.
    pub fn reset_shortcuts(&mut self) -> (r: Vec<ShortcutBinding>)
        ensures
            final(self)@.shortcuts.len() == 4,
            forall|i: int| 0 <= i < 4 ==> #[trigger] final(self)@.shortcuts[i] == default_binding(action_at(i)),
            final(self)@ == (AppCoreView { shortcuts: final(self)@.shortcuts, ..old(self)@ }),
            binding_views(r@) == final(self)@.shortcuts,
    {
        self.shortcuts = default_shortcuts();
        copy_bindings(&self.shortcuts)
    }

    pub fn shortcuts(&self) -> (r: Vec<ShortcutBinding>)
        ensures
            binding_views(r@) == self@.shortcuts,
    {
        copy_bindings(&self.shortcuts)
    }

    /// Gives the first binding of `action` a new accelerator.
    pub fn update_shortcut(&mut self, action: ShortcutAction, accelerator: String) -> (r: Vec<ShortcutBinding>)
        ensures
            final(self)@ == (AppCoreView { shortcuts: rebound(old(self)@.shortcuts, action, accelerator@), ..old(self)@ }),
            binding_views(r@) == final(self)@.shortcuts,
    {
        let ghost all = binding_views(self.shortcuts@);
        proof { lemma_first_binding_for(all, action); }
        let mut i: usize = 0;
        while i < self.shortcuts.len()
            invariant
                i <= self.shortcuts@.len(),
                all == binding_views(self.shortcuts@),
                all == old(self)@.shortcuts,
                *self == *old(self),
                first_binding_for(all.subrange(0, i as int), action) == -1,
            decreases self.shortcuts@.len() - i,
        {
            assert(all.subrange(0, i + 1).drop_last() == all.subrange(0, i as int));
            if self.shortcuts[i].action == action {
                proof { lemma_binding_prefix(all, action, i as int, i + 1); }
                let mut b = copy_binding(&self.shortcuts[i]);
                b.accelerator = accelerator;
                self.shortcuts.set(i, b);
                assert(binding_views(self.shortcuts@) == rebound(all, action, b.accelerator@));
                return copy_bindings(&self.shortcuts);
            }
            i += 1;
        }
        assert(all.subrange(0, i as int) == all);
        copy_bindings(&self.shortcuts)
    }

    /// Replaces the session list.
    pub fn sync_recent_sessions(&mut self, recent_sessions: Vec<SessionSummary>)
        ensures
            final(self)@ == (AppCoreView { recent_sessions: session_views(recent_sessions@), ..old(self)@ }),
    {
        self.recent_sessions = recent_sessions;
    }

    /// Takes a quality preset the launcher offers; any other is ignored.
    pub fn update_quality_preset(&mut self, quality_preset: String) -> (r: AppSettings)
        ensures
            final(self)@ == if quality_preset_views().contains(quality_preset@) {
                with_settings(old(self)@, AppSettingsView { quality_preset: quality_preset@, ..old(self)@.settings })
            } else {
                old(self)@
            },
            r@ == final(self)@.settings,
    {
        let presets = Self::quality_presets();
        let mut known = false;
        let mut i: usize = 0;
        while i < presets.len()
            invariant
                i <= presets@.len(),
                string_views(presets@) == quality_preset_views(),
                known == exists|k: int| 0 <= k < i && quality_preset_views()[k] == quality_preset@,
            decreases presets@.len() - i,
        {
            assert(string_views(presets@)[i as int] == presets@[i as int]@);
            if str_eq(presets[i].as_str(), quality_preset.as_str()) {
                known = true;
            }
            i += 1;
        }
        if known {
            self.settings.quality_preset = quality_preset;
        }
        self.settings.copy()
    }

    /// Takes a non-blank output directory; a blank one is ignored.
    pub fn update_output_directory(&mut self, output_directory: String) -> (r: AppSettings)
        ensures
            final(self)@ == if !is_blank(output_directory@) {
                with_settings(old(self)@, AppSettingsView { output_directory: output_directory@, ..old(self)@.settings })
            } else {
                old(self)@
            },
            r@ == final(self)@.settings,
    {
        if !blank(output_directory.as_str()) {
            self.settings.output_directory = output_directory;
        }
        self.settings.copy()
    }

    pub fn update_launch_on_login(&mut self, launch_on_login: bool) -> (r: AppSettings)
        ensures
            final(self)@ == with_settings(old(self)@, AppSettingsView { launch_on_login, ..old(self)@.settings }),
            r@ == final(self)@.settings,
    {
        self.settings.launch_on_login = launch_on_login;
        self.settings.copy()
    }

    pub fn update_show_hud_during_recording(&mut self, show_hud_during_recording: bool) -> (r: AppSettings)
        ensures
            final(self)@ == with_settings(old(self)@, AppSettingsView { show_hud_during_recording, ..old(self)@.settings }),
            r@ == final(self)@.settings,
    {
        self.settings.show_hud_during_recording = show_hud_during_recording;
        self.settings.copy()
    }

    /// Takes a non-blank capture target and shows its label; a blank id is
    /// ignored.
    pub fn update_capture_target(&mut self, capture_target_id: String, capture_target_label: String) -> (r: AppSettings)
        ensures
            final(self)@ == if !is_blank(capture_target_id@) {
                AppCoreView {
                    settings: AppSettingsView { capture_target_id: capture_target_id@, ..old(self)@.settings },
                    active_target: capture_target_label@,
                    ..old(self)@
                }
            } else {
                old(self)@
            },
            r@ == final(self)@.settings,
    {
        if !blank(capture_target_id.as_str()) {
            self.settings.capture_target_id = capture_target_id;
            self.active_target = capture_target_label;
        }
        self.settings.copy()
    }

    /// Takes a non-blank audio input; a blank one is ignored.
    pub fn update_audio_input(&mut self, audio_input_id: String) -> (r: AppSettings)
        ensures
            final(self)@ == if !is_blank(audio_input_id@) {
                with_settings(old(self)@, AppSettingsView { audio_input_id: audio_input_id@, ..old(self)@.settings })
            } else {
                old(self)@
            },
            r@ == final(self)@.settings,
    {
        if !blank(audio_input_id.as_str()) {
            self.settings.audio_input_id = audio_input_id;
        }
        self.settings.copy()
    }

    /// Stores the custom region: width and height at least 64, the source
    /// target only when given and not blank, each origin only when given.
    pub fn update_custom_region(
        &mut self,
        region_x: u32,
        region_y: u32,
        region_width: u32,
        region_height: u32,
        region_source_capture_target_id: Option<String>,
        region_source_origin_x: Option<i32>,
        region_source_origin_y: Option<i32>,
    ) -> (r: AppSettings)
        ensures
            final(self)@ == with_settings(old(self)@, region_settings(old(self)@.settings, region_x, region_y,
                region_width, region_height, opt_sview(region_source_capture_target_id),
                region_source_origin_x, region_source_origin_y)),
            r@ == final(self)@.settings,
    {
        self.settings.region_x = region_x;
        self.settings.region_y = region_y;
        self.settings.region_width = if region_width >= 64 { region_width } else { 64 };
        self.settings.region_height = if region_height >= 64 { region_height } else { 64 };
        if let Some(id) = region_source_capture_target_id {
            if !blank(id.as_str()) {
                self.settings.region_source_capture_target_id = id;
            }
        }
        if let Some(x) = region_source_origin_x {
            self.settings.region_source_origin_x = x;
        }
        if let Some(y) = region_source_origin_y {
            self.settings.region_source_origin_y = y;
        }
        self.settings.copy()
    }
}

// ---------------------------------------------------------------------------
// Laws

proof fn lemma_first_binding_same_actions(v: Seq<ShortcutBindingView>, w: Seq<ShortcutBindingView>, a: ShortcutAction)
    requires
        v.len() == w.len(),
        forall|i: int| 0 <= i < v.len() ==> #[trigger] v[i].action == w[i].action,
    ensures
        first_binding_for(v, a) == first_binding_for(w, a),
    decreases v.len(),
{
    if v.len() > 0 {
        lemma_first_binding_same_actions(v.drop_last(), w.drop_last(), a);
    }
}

/// Giving an action a new accelerator changes only that action's binding:
/// the action now answers to the new accelerator, and every other action
/// keeps the binding it had.
pub proof fn law_rebind_changes_only_that_action(
    v: Seq<ShortcutBindingView>,
    action: ShortcutAction,
    accelerator: Seq<char>,
    other: ShortcutAction,
)
    requires
        first_binding_for(v, action) != -1,
        other != action,
    ensures
        first_binding_for(rebound(v, action, accelerator), action) == first_binding_for(v, action),
        rebound(v, action, accelerator)[first_binding_for(v, action)].action == action,
        rebound(v, action, accelerator)[first_binding_for(v, action)].accelerator == accelerator,
        first_binding_for(rebound(v, action, accelerator), other) == first_binding_for(v, other),
        first_binding_for(v, other) != -1 ==> rebound(v, action, accelerator)[first_binding_for(v, other)]
            == v[first_binding_for(v, other)],
{
    lemma_first_binding_for(v, action);
    lemma_first_binding_for(v, other);
    let w = rebound(v, action, accelerator);
    lemma_first_binding_same_actions(w, v, action);
    lemma_first_binding_same_actions(w, v, other);
}

/// Toggling the microphone twice leaves the recorder as it was.
pub proof fn law_toggle_microphone_twice(v: AppCoreView)
    ensures
        mic_toggled(mic_toggled(v)) == v,
{
    assert(mic_toggled(mic_toggled(v)).settings == v.settings);
}

/// While paused, the recorded time stays at what it was when the pause
/// began, whenever it is read.
pub proof fn law_pause_freezes_elapsed(v: AppCoreView, paused_at: i128, now: i128)
    requires
        v.status == RecorderStatus::Recording,
        v.paused_at is None,
    ensures
        elapsed_nanos(paused_view(v, paused_at), now) == elapsed_nanos(v, paused_at),
{
}

/// Time spent paused does not count: after a pause at `t1` and a resume at
/// `t2`, the recorded time at `t3` is what it was at `t1` plus `t3 - t2`
/// (for a clock that does not run backwards).
pub proof fn law_resume_excludes_pause(v: AppCoreView, t1: i128, t2: i128, t3: i128)
    requires
        v.status == RecorderStatus::Recording,
        v.paused_at is None,
        v.started_at matches Some(s) && s <= t1 && v.accumulated_paused <= t1 - s,
        t1 <= t2 <= t3,
        resume_fits(paused_view(v, t1), t2),
    ensures
        elapsed_nanos(resumed_view(paused_view(v, t1), t2), t3) == elapsed_nanos(v, t1) + (t3 - t2),
{
}

/// A pause followed by a resume brings the recorder back to recording,
/// with nothing but the paused total changed.
pub proof fn law_pause_resume_roundtrip(v: AppCoreView, t1: i128, t2: i128)
    requires
        v.status == RecorderStatus::Recording,
        v.paused_at is None,
        resume_fits(paused_view(v, t1), t2),
    ensures
        resumed_view(paused_view(v, t1), t2) == (AppCoreView {
            accumulated_paused: (v.accumulated_paused + span(t1, t2)) as u128,
            ..v
        }),
{
}

/// The session list never holds more than ten entries after a recording
/// joins it; the new session comes first, numbered after the list it
/// joined, and the older ones follow in their order.
pub proof fn law_session_list(sessions: Seq<SessionSummaryView>, rec: CompletedRecording)
    ensures
        pushed_sessions(sessions, rec).len() <= 10,
        pushed_sessions(sessions, rec).len() == if sessions.len() >= 9 { 10 } else { sessions.len() + 1 },
        pushed_sessions(sessions, rec)[0] == session_of(sessions.len() + 1, rec),
        forall|i: int| 0 <= i < pushed_sessions(sessions, rec).len() - 1 ==>
            #[trigger] pushed_sessions(sessions, rec)[i + 1] == sessions[i],
{
    let all = seq![session_of(sessions.len() + 1, rec)] + sessions;
    assert forall|i: int| 0 <= i < pushed_sessions(sessions, rec).len() - 1 implies
        #[trigger] pushed_sessions(sessions, rec)[i + 1] == sessions[i] by {
        assert(all[i + 1] == sessions[i]);
    }
}

/// Starting and then stopping a recording leaves settings, shortcuts and
/// the session list as they were, with the recorder idle on the chosen
/// target.
pub proof fn law_start_then_stop(v: AppCoreView, target: Seq<char>, encoder: Seq<char>, output: Seq<char>, now: i128)
    ensures
        stopped_view(started_view(v, target, encoder, output, now)) == (AppCoreView { active_target: target, ..stopped_view(v) }),
        stopped_view(started_view(v, target, encoder, output, now)).settings == v.settings,
        stopped_view(started_view(v, target, encoder, output, now)).shortcuts == v.shortcuts,
        stopped_view(started_view(v, target, encoder, output, now)).recent_sessions == v.recent_sessions,
{
}

/// A stopped recorder reads "Ready when you are" at any instant.
pub proof fn law_idle_label(v: AppCoreView, now: i128)
    ensures
        snapshot_view(stopped_view(v), now).elapsed_label == "Ready when you are"@,
        snapshot_view(stopped_view(v), now).status == RecorderStatus::Idle,
{
}

/// A stored custom region is never narrower or lower than 64 pixels, and
/// a region already that large is stored as given.
pub proof fn law_custom_region_minimum(
    s: AppSettingsView,
    x: u32,
    y: u32,
    w: u32,
    h: u32,
    source_id: Option<Seq<char>>,
    origin_x: Option<i32>,
    origin_y: Option<i32>,
)
    ensures
        region_settings(s, x, y, w, h, source_id, origin_x, origin_y).region_width >= 64,
        region_settings(s, x, y, w, h, source_id, origin_x, origin_y).region_height >= 64,
        w >= 64 ==> region_settings(s, x, y, w, h, source_id, origin_x, origin_y).region_width == w,
        h >= 64 ==> region_settings(s, x, y, w, h, source_id, origin_x, origin_y).region_height == h,
{
}

/// The stored quality preset stays one the launcher offers: a preset
/// update either takes an offered preset or changes nothing.
pub proof fn law_quality_preset_stays_offered(v: AppCoreView, preset: Seq<char>)
    requires
        quality_preset_views().contains(v.settings.quality_preset),
    ensures
        ({
            let after = if quality_preset_views().contains(preset) {
                with_settings(v, AppSettingsView { quality_preset: preset, ..v.settings })
            } else {
                v
            };
            quality_preset_views().contains(after.settings.quality_preset)
        }),
{
}

} // verus!
