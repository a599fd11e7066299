//! The macOS native recording output: which container and codec a
//! recording is written with, and whether the runtime offers the lane.
use vstd::prelude::*;
use vstd::string::*;
use crate::capture::{encoder_reason, opt_sview, EncoderBackendAvailability, EncoderBackendDescriptor,
    EncoderBackendRuntimeReport, RecordingOptions};
use crate::macos::audio::recording_output_supported;
use crate::text::{chars_of, dec, push_dec, push_str, str_eq, string_of, to_upper, upper};

verus! {

/// The native recording-output lane.
pub struct AvAssetWriterMacosEncoderBackend;

/// How a recording would be written.
#[derive(Debug, Clone, PartialEq, Eq)]
pub struct AvAssetWriterOutputPlan {
    pub container_label: String,
    pub encoder_label: String,
    pub codec_name: String,
    pub codec_preset: Option<String>,
    pub quality_preset: String,
    pub output_path: String,
    pub summary: String,
}

pub fn backend() -> AvAssetWriterMacosEncoderBackend {
    AvAssetWriterMacosEncoderBackend
}

/// The path with its trailing separators removed.
pub open spec fn strip_trailing_slashes(p: Seq<char>) -> Seq<char>
    decreases p.len(),
{
    if p.len() > 0 && p.last() == '/' { strip_trailing_slashes(p.drop_last()) } else { p }
}

/// Index of the last `c` in `s`, or -1.
pub open spec fn last_index(s: Seq<char>, c: char) -> int
    decreases s.len(),
{
    if s.len() == 0 { -1 } else if s.last() == c { s.len() - 1 } else { last_index(s.drop_last(), c) }
}

proof fn lemma_last_index(s: Seq<char>, c: char)
    ensures
        -1 <= last_index(s, c) < s.len(),
        last_index(s, c) >= 0 ==> s[last_index(s, c)] == c,
        forall|j: int| last_index(s, c) < j < s.len() ==> s[j] != c,
    decreases s.len(),
{
    if s.len() > 0 && s.last() != c {
        lemma_last_index(s.drop_last(), c);
        assert forall|j: int| last_index(s, c) < j < s.len() implies s[j] != c by {
            if j < s.len() - 1 {
                assert(s.drop_last()[j] == s[j]);
            }
        }
    }
}

/// The last component of a `/`-separated path; none for an empty path,
/// the root, `.` and `..`.
pub open spec fn file_name_spec(p: Seq<char>) -> Option<Seq<char>> {
    let t = strip_trailing_slashes(p);
    let f = t.subrange(last_index(t, '/') + 1, t.len() as int);
    if f.len() == 0 || f == seq!['.'] || f == seq!['.', '.'] { None } else { Some(f) }
}

/// What follows the last `.` of the file name; none without a file name,
/// without a `.`, or when the only `.` opens the name.
pub open spec fn extension_spec(p: Seq<char>) -> Option<Seq<char>> {
    match file_name_spec(p) {
        None => None,
        Some(f) => {
            let k = last_index(f, '.');
            if k <= 0 { None } else { Some(f.subrange(k + 1, f.len() as int)) }
        },
    }
}

fn rfind_char(s: &[char], c: char) -> (r: i64)
    requires
        s@.len() < i64::MAX,
    ensures
        r == last_index(s@, c),
{
    let n = s.len();
    let mut i: usize = n;
    assert(s@.subrange(0, n as int) == s@);
    while i > 0
        invariant
            i <= n == s@.len(),
            n < i64::MAX,
            last_index(s@, c) == last_index(s@.subrange(0, i as int), c),
        decreases i,
    {
        assert(s@.subrange(0, i as int).drop_last() == s@.subrange(0, i - 1));
        if s[i - 1] == c {
            return (i - 1) as i64;
        }
        i -= 1;
    }
    -1
}

/// The extension of a path, as its characters.
pub fn path_extension(path: &str) -> (r: Option<Vec<char>>)
    requires
        path@.len() < i64::MAX,
    ensures
        match r {
            Some(v) => extension_spec(path@) == Some(v@),
            None => extension_spec(path@) is None,
        },
{
    let p = chars_of(path);
    let mut t = p;
    while t.len() > 0 && t[t.len() - 1] == '/'
        invariant
            strip_trailing_slashes(t@) == strip_trailing_slashes(path@),
            t@.len() <= path@.len(),
        decreases t@.len(),
    {
        let ghost before = t@;
        t.pop();
        assert(t@ == before.drop_last());
    }
    assert(strip_trailing_slashes(t@) == t@);
    let k = rfind_char(&t, '/');
    proof { lemma_last_index(t@, '/'); }
    let mut f: Vec<char> = Vec::new();
    let mut i: usize = (k + 1) as usize;
    while i < t.len()
        invariant
            0 <= k + 1 <= i <= t@.len(),
            f@ == t@.subrange(k + 1, i as int),
        decreases t@.len() - i,
    {
        f.push(t[i]);
        i += 1;
    }
    assert(f@ == t@.subrange(last_index(t@, '/') + 1, t@.len() as int));
    if f.len() == 0 || (f.len() == 1 && f[0] == '.') || (f.len() == 2 && f[0] == '.' && f[1] == '.') {
        assert(file_name_spec(path@) is None) by {
            if f@.len() == 1 { assert(f@ == seq!['.']); }
            if f@.len() == 2 { assert(f@ == seq!['.', '.']); }
        }
        return None;
    }
    assert(file_name_spec(path@) == Some(f@)) by {
        if f@.len() == 1 && f@ == seq!['.'] {
            assert(f@[0] == '.');
        }
        if f@.len() == 2 && f@ == seq!['.', '.'] {
            assert(f@[0] == '.' && f@[1] == '.');
        }
    }
    let d = rfind_char(&f, '.');
    proof { lemma_last_index(f@, '.'); }
    if d <= 0 {
        return None;
    }
    let mut e: Vec<char> = Vec::new();
    let mut j: usize = (d + 1) as usize;
    while j < f.len()
        invariant
            0 < d + 1 <= j <= f@.len(),
            e@ == f@.subrange(d + 1, j as int),
        decreases f@.len() - j,
    {
        e.push(f[j]);
        j += 1;
    }
    Some(e)
}

/// The container named by the output path's extension (upper case), else
/// a QuickTime-compatible one.
pub open spec fn container_label_spec(path: Seq<char>) -> Seq<char> {
    match extension_spec(path) {
        Some(e) if e.len() > 0 => upper(e) + " container"@,
        _ => "QuickTime-compatible container"@,
    }
}

/// The codec of a preset: HEVC for 4K and 1440p at 60 fps, else H.264.
pub open spec fn profile_spec(preset: Seq<char>) -> (Seq<char>, Option<Seq<char>>) {
    if preset == "4K / 60 fps"@ || preset == "1440p / 60 fps"@ {
        ("hevc"@, Some("high-efficiency"@))
    } else {
        ("h264"@, Some("balanced"@))
    }
}

pub fn native_recording_output_profile(quality_preset: &str) -> (r: (String, Option<String>))
    ensures
        (r.0@, opt_sview(r.1)) == profile_spec(quality_preset@),
{
    if str_eq(quality_preset, "4K / 60 fps") || str_eq(quality_preset, "1440p / 60 fps") {
        (String::from_str("hevc"), Some(String::from_str("high-efficiency")))
    } else {
        (String::from_str("h264"), Some(String::from_str("balanced")))
    }
}

pub open spec fn encoder_label_spec(preset: Seq<char>) -> Seq<char> {
    let (codec, p) = profile_spec(preset);
    match p {
        Some(x) => codec + " · "@ + x,
        None => codec,
    }
}

pub open spec fn output_summary_spec(o: RecordingOptions) -> Seq<char> {
    "Native recording output would write "@ + container_label_spec(o.output_path@) + " using "@
        + encoder_label_spec(o.quality_preset@) + " for preset `"@ + o.quality_preset@ + "` to `"@
        + o.output_path@ + "`."@
}

/// The output plan of a recording.
pub fn output_plan(options: &RecordingOptions) -> (p: AvAssetWriterOutputPlan)
    requires
        options.output_path@.len() < i64::MAX,
    ensures
        p.container_label@ == container_label_spec(options.output_path@),
        (p.codec_name@, opt_sview(p.codec_preset)) == profile_spec(options.quality_preset@),
        p.encoder_label@ == encoder_label_spec(options.quality_preset@),
        p.quality_preset@ == options.quality_preset@,
        p.output_path@ == options.output_path@,
        p.summary@ == output_summary_spec(*options),
{
    let container_label = match path_extension(options.output_path.as_str()) {
        Some(e) => {
            if e.len() > 0 {
                let u = to_upper(&e);
                let mut c = string_of(&u);
                push_str(&mut c, " container");
                c
            } else {
                String::from_str("QuickTime-compatible container")
            }
        },
        None => String::from_str("QuickTime-compatible container"),
    };
    let (codec_name, codec_preset) = native_recording_output_profile(options.quality_preset.as_str());
    let encoder_label = match &codec_preset {
        Some(preset) => {
            let mut l = codec_name.clone();
            push_str(&mut l, " · ");
            push_str(&mut l, preset.as_str());
            l
        },
        None => codec_name.clone(),
    };
    let mut summary = String::from_str("Native recording output would write ");
    push_str(&mut summary, container_label.as_str());
    push_str(&mut summary, " using ");
    push_str(&mut summary, encoder_label.as_str());
    push_str(&mut summary, " for preset `");
    push_str(&mut summary, options.quality_preset.as_str());
    push_str(&mut summary, "` to `");
    push_str(&mut summary, options.output_path.as_str());
    push_str(&mut summary, "`.");
    AvAssetWriterOutputPlan {
        container_label,
        encoder_label,
        codec_name,
        codec_preset,
        quality_preset: options.quality_preset.clone(),
        output_path: options.output_path.clone(),
        summary,
    }
}

pub open spec fn version_text(v: (u64, u64, u64)) -> Seq<char> {
    dec(v.0 as nat) + "."@ + dec(v.1 as nat) + "."@ + dec(v.2 as nat)
}

pub open spec fn encoder_runtime_summary_spec(version: Option<(u64, u64, u64)>) -> Option<Seq<char>> {
    match version {
        None => None,
        Some(v) => Some("macOS reports version `"@ + version_text(v) + (if v.0 >= 15 {
            "`; ScreenCaptureKit recording output is active for native file creation on supported runtimes."@
        } else {
            "`; native recording output is only fully active on macOS 15+, so older runtimes do not expose this lane."@
        })),
    }
}

/// What the runtime says of the lane; `None` when the macOS version is unknown.
pub fn runtime_summary(version: Option<(u64, u64, u64)>) -> (r: Option<String>)
    ensures
        opt_sview(r) == encoder_runtime_summary_spec(version),
{
    match version {
        None => None,
        Some((major, minor, patch)) => {
            let mut s = String::from_str("macOS reports version `");
            push_dec(&mut s, major);
            push_str(&mut s, ".");
            push_dec(&mut s, minor);
            push_str(&mut s, ".");
            push_dec(&mut s, patch);
            if major >= 15 {
                push_str(&mut s, "`; ScreenCaptureKit recording output is active for native file creation on supported runtimes.");
            } else {
                push_str(&mut s, "`; native recording output is only fully active on macOS 15+, so older runtimes do not expose this lane.");
            }
            Some(s)
        },
    }
}

/// The encoder the lane offers, when the macOS version is known.
pub fn preferred_encoder_label(version: Option<(u64, u64, u64)>) -> (r: Option<String>)
    ensures
        opt_sview(r) == (if version is Some { Some("H.264 native recording output"@) } else { None }),
{
    match version {
        Some(_) => Some(String::from_str("H.264 native recording output")),
        None => None,
    }
}

/// Why the recording-output lane is unavailable (`None` from macOS 15 on).
pub open spec fn encoder_availability_spec(version: Option<(u64, u64, u64)>) -> Option<Seq<char>> {
    if recording_output_supported(version) {
        None
    } else {
        Some(match encoder_runtime_summary_spec(version) {
            Some(s) => s + " Older macOS runtimes do not expose the direct native recording-output lane, so those runtimes fail explicitly instead of using this backend."@,
            None => "A fully native macOS recording-output path is only active on macOS 15+; older runtimes fail explicitly instead of using this backend."@,
        })
    }
}

impl AvAssetWriterMacosEncoderBackend {
    pub fn descriptor(&self) -> (d: EncoderBackendDescriptor)
        ensures
            d.id@ == "macos-native-recording-output"@,
            d.label@ == "macOS native recording output"@,
    {
        EncoderBackendDescriptor { id: "macos-native-recording-output", label: "macOS native recording output" }
    }

    /// Available from macOS 15 on; otherwise unavailable with the reason.
    pub fn availability(&self, version: Option<(u64, u64, u64)>) -> (a: EncoderBackendAvailability)
        ensures
            encoder_reason(a) == encoder_availability_spec(version),
    {
        let supported = match version {
            Some((major, _, _)) => major >= 15,
            None => false,
        };
        if supported {
            return EncoderBackendAvailability::Available;
        }
        let reason = match runtime_summary(version) {
            Some(s) => {
                let mut r = s;
                push_str(&mut r, " Older macOS runtimes do not expose the direct native recording-output lane, so those runtimes fail explicitly instead of using this backend.");
                r
            },
            None => String::from_str("A fully native macOS recording-output path is only active on macOS 15+; older runtimes fail explicitly instead of using this backend."),
        };
        EncoderBackendAvailability::Unavailable { reason }
    }

    pub fn runtime_report(&self, version: Option<(u64, u64, u64)>) -> (r: EncoderBackendRuntimeReport)
        ensures
            opt_sview(r.summary) == encoder_runtime_summary_spec(version),
            opt_sview(r.preferred_encoder_label) == (if version is Some { Some("H.264 native recording output"@) } else { None }),
    {
        EncoderBackendRuntimeReport {
            summary: runtime_summary(version),
            preferred_encoder_label: preferred_encoder_label(version),
        }
    }
}

} // verus!
