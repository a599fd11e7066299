//! macOS audio devices: the `system_profiler SPAudioDataType` report,
//! the devices a recording routes to, and what the launcher is told.
use vstd::prelude::*;
use vstd::string::*;
use crate::capture::{audio_reason, input_views, opt_sview, resolve_audio_input_id, resolve_audio_input_spec,
    AudioBackendAvailability, AudioBackendDescriptor, AudioBackendRuntimeReport, AudioInputKind, AudioInputOption,
    AudioInputView, DEFAULT_AUDIO_INPUT_ID};
use crate::text::{chars_of, dec, ends_with, has_suffix, join, join_strings, lines, lower, push_dec, push_str,
    slice_chars, split_lines, str_eq, string_of, string_views, to_lower, trim, trim_chars, views};

verus! {

#[derive(Debug, Clone, PartialEq, Eq)]
pub struct MacosAudioDevice {
    pub name: String,
    pub default_input: bool,
    pub default_output: bool,
}

pub struct DeviceView {
    pub name: Seq<char>,
    pub default_input: bool,
    pub default_output: bool,
}

pub open spec fn device_views(v: Seq<MacosAudioDevice>) -> Seq<DeviceView> {
    v.map_values(|d: MacosAudioDevice| DeviceView { name: d.name@, default_input: d.default_input, default_output: d.default_output })
}

#[derive(Debug, Clone, PartialEq, Eq)]
pub struct MacosAudioDeviceReport {
    pub devices: Vec<MacosAudioDevice>,
}

#[derive(Debug, Clone, PartialEq, Eq)]
pub struct MacosAudioRoutePlan {
    pub default_input_label: Option<String>,
    pub default_output_label: Option<String>,
    pub default_input_note: String,
    pub default_output_note: String,
}

#[derive(Debug, Clone, PartialEq, Eq)]
pub struct MacosAudioStartPlan {
    pub microphone_device_id: Option<String>,
    pub microphone_device_name: Option<String>,
    pub output_device_name: Option<String>,
    pub summary: String,
}

/// An input device as AVFoundation lists it.
#[derive(Debug, Clone, PartialEq, Eq)]
pub struct MacosNativeAudioInputDevice {
    pub id: String,
    pub name: String,
    pub is_default: bool,
}

/// `s` without its trailing colons.
pub open spec fn strip_colons(s: Seq<char>) -> Seq<char>
    decreases s.len(),
{
    if s.len() > 0 && s.last() == ':' { strip_colons(s.drop_last()) } else { s }
}

fn strip_colons_chars(s: &[char]) -> (r: Vec<char>)
    ensures
        r@ == strip_colons(s@),
{
    let mut hi = s.len();
    assert(s@.subrange(0, hi as int) == s@);
    while hi > 0 && s[hi - 1] == ':'
        invariant
            hi <= s@.len(),
            strip_colons(s@) == strip_colons(s@.subrange(0, hi as int)),
        decreases hi,
    {
        assert(s@.subrange(0, hi as int).drop_last() == s@.subrange(0, hi - 1));
        hi -= 1;
    }
    slice_chars(s, 0, hi)
}

pub open spec fn flush(cur: Option<DeviceView>) -> Seq<DeviceView> {
    match cur {
        Some(d) => seq![d],
        None => seq![],
    }
}

/// The devices of a `system_profiler SPAudioDataType` report from line
/// `i` on: a line ending in `:` opens a device, the `Default Input Device:
/// Yes` and `Default Output Device: Yes` lines mark the open one.
pub open spec fn devices_from(ls: Seq<Seq<char>>, i: int, cur: Option<DeviceView>) -> Seq<DeviceView>
    decreases ls.len() - i,
{
    if i < 0 || i >= ls.len() {
        flush(cur)
    } else {
        let t = trim(ls[i]);
        if t.len() == 0 || t == "Audio:"@ || t == "Devices:"@ {
            devices_from(ls, i + 1, cur)
        } else if has_suffix(t, ":"@) {
            flush(cur) + devices_from(ls, i + 1,
                Some(DeviceView { name: strip_colons(t), default_input: false, default_output: false }))
        } else {
            let next = match cur {
                Some(d) => Some(DeviceView {
                    default_input: d.default_input || t == "Default Input Device: Yes"@,
                    default_output: d.default_output || t == "Default Output Device: Yes"@,
                    ..d
                }),
                None => None,
            };
            devices_from(ls, i + 1, next)
        }
    }
}

pub open spec fn audio_report_spec(out: Seq<char>) -> Option<Seq<DeviceView>> {
    let d = devices_from(lines(out), 0, None);
    if d.len() == 0 { None } else { Some(d) }
}

fn chars_eq(a: &[char], b: &str) -> (r: bool)
    ensures
        r == (a@ == b@),
{
    str_eq(string_of(a).as_str(), b)
}

/// The audio devices of a `system_profiler SPAudioDataType` report; `None`
/// when it lists none.
pub fn parse_system_profiler_audio_report(stdout: &str) -> (r: Option<MacosAudioDeviceReport>)
    ensures
        match r {
            Some(rep) => audio_report_spec(stdout@) == Some(device_views(rep.devices@)),
            None => audio_report_spec(stdout@) is None,
        },
{
    let ls = split_lines(&chars_of(stdout));
    let ghost all = views(ls@);
    let colon = chars_of(":");
    let mut devices: Vec<MacosAudioDevice> = Vec::new();
    let mut current: Option<MacosAudioDevice> = None;
    let mut i: usize = 0;
    while i < ls.len()
        invariant
            i <= ls@.len(),
            all == views(ls@),
            all == lines(stdout@),
            colon@ == ":"@,
            device_views(devices@) + devices_from(all, i as int, match current {
                Some(d) => Some(DeviceView { name: d.name@, default_input: d.default_input, default_output: d.default_output }),
                None => None,
            }) == devices_from(all, 0, None),
        decreases ls@.len() - i,
    {
        assert(all[i as int] == ls@[i as int]@);
        let t = trim_chars(&ls[i]);
        if t.len() == 0 || chars_eq(&t, "Audio:") || chars_eq(&t, "Devices:") {
            i += 1;
            continue;
        }
        if ends_with(&t, &colon) {
            let ghost before = device_views(devices@);
            match current {
                Some(d) => {
                    let ghost dv = DeviceView { name: d.name@, default_input: d.default_input, default_output: d.default_output };
                    devices.push(d);
                    assert(device_views(devices@) == before.push(dv));
                },
                None => {},
            }
            let name = string_of(&strip_colons_chars(&t));
            current = Some(MacosAudioDevice { name, default_input: false, default_output: false });
            i += 1;
            continue;
        }
        let is_in = chars_eq(&t, "Default Input Device: Yes");
        let is_out = chars_eq(&t, "Default Output Device: Yes");
        current = match current {
            Some(d) => Some(MacosAudioDevice {
                name: d.name,
                default_input: d.default_input || is_in,
                default_output: d.default_output || is_out,
            }),
            None => None,
        };
        i += 1;
    }
    let ghost before = device_views(devices@);
    match current {
        Some(d) => {
            let ghost dv = DeviceView { name: d.name@, default_input: d.default_input, default_output: d.default_output };
            devices.push(d);
            assert(device_views(devices@) == before.push(dv));
        },
        None => {},
    }
    assert(device_views(devices@) == devices_from(all, 0, None));
    if devices.len() == 0 {
        None
    } else {
        Some(MacosAudioDeviceReport { devices })
    }
}

/// Index of the first device marked as default input (or output), or -1.
pub open spec fn first_default(v: Seq<DeviceView>, output: bool, i: int) -> int
    decreases v.len() - i,
{
    if i < 0 || i >= v.len() {
        -1
    } else if (if output { v[i].default_output } else { v[i].default_input }) {
        i
    } else {
        first_default(v, output, i + 1)
    }
}

proof fn lemma_first_default(v: Seq<DeviceView>, output: bool, i: int)
    requires
        0 <= i,
    ensures
        -1 <= first_default(v, output, i) < v.len(),
    decreases v.len() - i,
{
    if i < v.len() {
        lemma_first_default(v, output, i + 1);
    }
}

/// The default input (or output) device's name, else the first device's.
pub open spec fn preferred_device_spec(report: Option<MacosAudioDeviceReport>, output: bool) -> Option<Seq<char>> {
    match report {
        None => None,
        Some(r) => {
            let v = device_views(r.devices@);
            let k = first_default(v, output, 0);
            if k != -1 { Some(v[k].name) } else if v.len() > 0 { Some(v[0].name) } else { None }
        },
    }
}

pub open spec fn opt_report(r: Option<&MacosAudioDeviceReport>) -> Option<MacosAudioDeviceReport> {
    match r {
        Some(x) => Some(*x),
        None => None,
    }
}

#[verifier::loop_isolation(false)]
fn preferred_device(report: Option<&MacosAudioDeviceReport>, output: bool) -> (r: Option<String>)
    ensures
        opt_sview(r) == preferred_device_spec(opt_report(report), output),
{
    let rep = match report {
        None => {
            return None;
        },
        Some(rep) => rep,
    };
    let ghost v = device_views(rep.devices@);
    proof { lemma_first_default(v, output, 0); }
    let mut i: usize = 0;
    while i < rep.devices.len()
        invariant
            i <= rep.devices@.len(),
            v == device_views(rep.devices@),
            first_default(v, output, 0) == first_default(v, output, i as int),
        decreases rep.devices@.len() - i,
    {
        let d = &rep.devices[i];
        if (if output { d.default_output } else { d.default_input }) {
            return Some(d.name.clone());
        }
        i += 1;
    }
    if rep.devices.len() > 0 {
        Some(rep.devices[0].name.clone())
    } else {
        None
    }
}

/// The device `Default input` routes to.
pub fn preferred_input_device_name(report: Option<&MacosAudioDeviceReport>) -> (r: Option<String>)
    ensures
        opt_sview(r) == preferred_device_spec(opt_report(report), false),
{
    preferred_device(report, false)
}

/// The device system audio would be taken from.
pub fn preferred_output_device_name(report: Option<&MacosAudioDeviceReport>) -> (r: Option<String>)
    ensures
        opt_sview(r) == preferred_device_spec(opt_report(report), true),
{
    preferred_device(report, true)
}

pub open spec fn native_input_view(d: MacosNativeAudioInputDevice) -> AudioInputView {
    AudioInputView { id: d.id@, label: d.name@, description: "Native macOS input: "@ + d.name@, kind: AudioInputKind::Microphone }
}

pub open spec fn reported_inputs(v: Seq<DeviceView>) -> Seq<AudioInputView>
    decreases v.len(),
{
    if v.len() == 0 {
        seq![]
    } else {
        reported_inputs(v.drop_last()) + if v.last().default_input {
            seq![AudioInputView { id: v.last().name, label: v.last().name,
                description: "Native macOS input: "@ + v.last().name, kind: AudioInputKind::Microphone }]
        } else {
            seq![]
        }
    }
}

/// The inputs the launcher offers: AVFoundation's input devices, else the
/// report's default input devices.
pub fn selectable_audio_inputs(native_inputs: &Vec<MacosNativeAudioInputDevice>, report: Option<&MacosAudioDeviceReport>) -> (r: Vec<AudioInputOption>)
    ensures
        native_inputs@.len() > 0 ==> input_views(r@) == native_inputs@.map_values(|d: MacosNativeAudioInputDevice| native_input_view(d)),
        native_inputs@.len() == 0 ==> input_views(r@) == match report {
            Some(rep) => reported_inputs(device_views(rep.devices@)),
            None => seq![],
        },
{
    let mut r: Vec<AudioInputOption> = Vec::new();
    if native_inputs.len() > 0 {
        let mut i: usize = 0;
        while i < native_inputs.len()
            invariant
                i <= native_inputs@.len(),
                input_views(r@) == native_inputs@.subrange(0, i as int).map_values(|d: MacosNativeAudioInputDevice| native_input_view(d)),
            decreases native_inputs@.len() - i,
        {
            let d = &native_inputs[i];
            let mut description = String::from_str("Native macOS input: ");
            push_str(&mut description, d.name.as_str());
            let o = AudioInputOption { id: d.id.clone(), label: d.name.clone(), description, kind: AudioInputKind::Microphone };
            let ghost before = input_views(r@);
            r.push(o);
            assert(input_views(r@) == before.push(o@));
            assert(native_inputs@.subrange(0, i + 1).map_values(|d: MacosNativeAudioInputDevice| native_input_view(d))
                == native_inputs@.subrange(0, i as int).map_values(|d: MacosNativeAudioInputDevice| native_input_view(d)).push(o@));
            i += 1;
        }
        assert(native_inputs@.subrange(0, native_inputs@.len() as int) == native_inputs@);
        return r;
    }
    let rep = match report {
        None => {
            return r;
        },
        Some(rep) => rep,
    };
    let ghost v = device_views(rep.devices@);
    let mut i: usize = 0;
    while i < rep.devices.len()
        invariant
            i <= rep.devices@.len(),
            v == device_views(rep.devices@),
            input_views(r@) == reported_inputs(v.subrange(0, i as int)),
        decreases rep.devices@.len() - i,
    {
        assert(v.subrange(0, i + 1).drop_last() == v.subrange(0, i as int));
        let d = &rep.devices[i];
        if d.default_input {
            let mut description = String::from_str("Native macOS input: ");
            push_str(&mut description, d.name.as_str());
            let o = AudioInputOption { id: d.name.clone(), label: d.name.clone(), description, kind: AudioInputKind::Microphone };
            let ghost before = input_views(r@);
            r.push(o);
            assert(input_views(r@) == before.push(o@));
        }
        i += 1;
    }
    assert(v.subrange(0, i as int) == v);
    r
}

pub open spec fn summary_parts(report: MacosAudioDeviceReport) -> Seq<Seq<char>> {
    let n = report.devices@.len();
    seq!["macOS reports "@ + dec(n) + " audio device"@ + (if n == 1 { seq![] } else { "s"@ })]
        + match preferred_device_spec(Some(report), false) { Some(i) => seq!["default input `"@ + i + "`"@], None => seq![] }
        + match preferred_device_spec(Some(report), true) { Some(o) => seq!["default output `"@ + o + "`"@], None => seq![] }
}

/// The device summary: count, default input and default output.
pub open spec fn runtime_summary_spec(report: Option<MacosAudioDeviceReport>) -> Option<Seq<char>> {
    match report {
        None => None,
        Some(r) => Some(join(summary_parts(r), " with "@)),
    }
}

fn push_part(parts: &mut Vec<String>, s: String)
    ensures
        string_views(final(parts)@) == string_views(old(parts)@).push(s@),
{
    parts.push(s);
    assert(string_views(parts@) == string_views(old(parts)@).push(s@));
}

pub fn runtime_summary(report: Option<&MacosAudioDeviceReport>) -> (r: Option<String>)
    ensures
        opt_sview(r) == runtime_summary_spec(opt_report(report)),
{
    let rep = match report {
        None => {
            return None;
        },
        Some(rep) => rep,
    };
    let n = rep.devices.len();
    let mut first = String::from_str("macOS reports ");
    push_dec(&mut first, n as u64);
    push_str(&mut first, " audio device");
    if n != 1 {
        push_str(&mut first, "s");
    }
    let mut parts: Vec<String> = Vec::new();
    push_part(&mut parts, first);
    match preferred_input_device_name(Some(rep)) {
        Some(i) => {
            let mut p = String::from_str("default input `");
            push_str(&mut p, i.as_str());
            push_str(&mut p, "`");
            push_part(&mut parts, p);
        },
        None => {},
    }
    match preferred_output_device_name(Some(rep)) {
        Some(o) => {
            let mut p = String::from_str("default output `");
            push_str(&mut p, o.as_str());
            push_str(&mut p, "`");
            push_part(&mut parts, p);
        },
        None => {},
    }
    assert(string_views(parts@) == summary_parts(*rep));
    Some(join_strings(&parts, " with "))
}

/// The route plan: the default input and output devices and what the
/// launcher is told of each; `None` when neither is known.
pub fn route_plan(report: Option<&MacosAudioDeviceReport>) -> (r: Option<MacosAudioRoutePlan>)
    ensures
        ({
            let i = preferred_device_spec(opt_report(report), false);
            let o = preferred_device_spec(opt_report(report), true);
            match r {
                None => i is None && o is None,
                Some(p) => !(i is None && o is None)
                    && opt_sview(p.default_input_label) == i && opt_sview(p.default_output_label) == o
                    && p.default_input_note@ == match i {
                        Some(x) => "The app can route `Default input` through the macOS default input `"@ + x + "`."@,
                        None => "macOS audio probing could not resolve a default input device yet."@,
                    }
                    && p.default_output_note@ == match o {
                        Some(x) => "The app can target macOS default output `"@ + x + "` for a future native system-audio path."@,
                        None => "macOS audio probing could not resolve a default output device yet."@,
                    },
            }
        }),
{
    let input = preferred_input_device_name(report);
    let output = preferred_output_device_name(report);
    if input.is_none() && output.is_none() {
        return None;
    }
    let input_note = match &input {
        Some(x) => {
            let mut n = String::from_str("The app can route `Default input` through the macOS default input `");
            push_str(&mut n, x.as_str());
            push_str(&mut n, "`.");
            n
        },
        None => String::from_str("macOS audio probing could not resolve a default input device yet."),
    };
    let output_note = match &output {
        Some(x) => {
            let mut n = String::from_str("The app can target macOS default output `");
            push_str(&mut n, x.as_str());
            push_str(&mut n, "` for a future native system-audio path.");
            n
        },
        None => String::from_str("macOS audio probing could not resolve a default output device yet."),
    };
    Some(MacosAudioRoutePlan {
        default_input_label: input,
        default_output_label: output,
        default_input_note: input_note,
        default_output_note: output_note,
    })
}

pub open spec fn first_native_default(v: Seq<MacosNativeAudioInputDevice>, i: int) -> int
    decreases v.len() - i,
{
    if i < 0 || i >= v.len() { -1 } else if v[i].is_default { i } else { first_native_default(v, i + 1) }
}

pub open spec fn first_input_with_id(v: Seq<AudioInputOption>, id: Seq<char>, i: int) -> int
    decreases v.len() - i,
{
    if i < 0 || i >= v.len() { -1 } else if v[i].id@ == id { i } else { first_input_with_id(v, id, i + 1) }
}

pub open spec fn first_native_named(v: Seq<MacosNativeAudioInputDevice>, name: Seq<char>, i: int) -> int
    decreases v.len() - i,
{
    if i < 0 || i >= v.len() { -1 } else if lower(v[i].name@) == lower(name) { i } else { first_native_named(v, name, i + 1) }
}

proof fn lemma_firsts(n: Seq<MacosNativeAudioInputDevice>, d: Seq<AudioInputOption>, id: Seq<char>, i: int)
    requires
        0 <= i,
    ensures
        -1 <= first_native_default(n, i) < n.len(),
        -1 <= first_input_with_id(d, id, i) < d.len(),
        -1 <= first_native_named(n, id, i) < n.len(),
    decreases n.len() + d.len() - i,
{
    if i < n.len() || i < d.len() {
        lemma_firsts(n, d, id, i + 1);
    }
}

/// The label of the selected input: its own label, else what the
/// resolver makes of it.
pub open spec fn selected_label_spec(selected: Seq<char>, discovered: Seq<AudioInputOption>) -> Option<Seq<char>> {
    let k = first_input_with_id(discovered, selected, 0);
    if k != -1 { Some(discovered[k].label@) } else { resolve_audio_input_spec(selected, discovered) }
}

/// The microphone device of a recording, as (device id, device name): none
/// without the microphone; for the default input, AVFoundation's default
/// device (else the report's default input) by name; otherwise the native
/// device named like the selected input (any ASCII case), else just the
/// selected input's label.
pub open spec fn native_microphone_spec(
    selected: Seq<char>,
    mic_enabled: bool,
    discovered: Seq<AudioInputOption>,
    native: Seq<MacosNativeAudioInputDevice>,
    preferred_input: Option<Seq<char>>,
) -> (Option<Seq<char>>, Option<Seq<char>>) {
    if !mic_enabled {
        (None, None)
    } else if selected == DEFAULT_AUDIO_INPUT_ID@ {
        let k = first_native_default(native, 0);
        (None, if k != -1 { Some(native[k].name@) } else { preferred_input })
    } else {
        match selected_label_spec(selected, discovered) {
            Some(l) => {
                let k = first_native_named(native, l, 0);
                if k != -1 { (Some(native[k].id@), Some(native[k].name@)) } else { (None, Some(l)) }
            },
            None => (None, None),
        }
    }
}

#[verifier::loop_isolation(false)]
pub fn resolve_native_microphone_device(
    selected_audio_input_id: &str,
    mic_enabled: bool,
    discovered_inputs: &[AudioInputOption],
    native_inputs: &[MacosNativeAudioInputDevice],
    preferred_input: Option<String>,
) -> (r: (Option<String>, Option<String>))
    ensures
        (opt_sview(r.0), opt_sview(r.1)) == native_microphone_spec(selected_audio_input_id@, mic_enabled,
            discovered_inputs@, native_inputs@, opt_sview(preferred_input)),
{
    if !mic_enabled {
        return (None, None);
    }
    let sel = selected_audio_input_id;
    proof { lemma_firsts(native_inputs@, discovered_inputs@, sel@, 0); }
    if str_eq(sel, DEFAULT_AUDIO_INPUT_ID) {
        let mut i: usize = 0;
        while i < native_inputs.len()
            invariant
                i <= native_inputs@.len(),
                first_native_default(native_inputs@, 0) == first_native_default(native_inputs@, i as int),
            decreases native_inputs@.len() - i,
        {
            if native_inputs[i].is_default {
                return (None, Some(native_inputs[i].name.clone()));
            }
            i += 1;
        }
        return (None, preferred_input);
    }
    let mut label: Option<String> = None;
    let mut j: usize = 0;
    while j < discovered_inputs.len() && label.is_none()
        invariant
            j <= discovered_inputs@.len(),
            label.is_none() ==> first_input_with_id(discovered_inputs@, sel@, 0)
                == first_input_with_id(discovered_inputs@, sel@, j as int),
            label.is_some() ==> j < discovered_inputs@.len() && first_input_with_id(discovered_inputs@, sel@, 0)
                == j as int && opt_sview(label) == Some(discovered_inputs@[j as int].label@),
        decreases discovered_inputs@.len() - j + (if label.is_none() { 1int } else { 0int }),
    {
        if str_eq(discovered_inputs[j].id.as_str(), sel) {
            label = Some(discovered_inputs[j].label.clone());
        } else {
            j += 1;
        }
    }
    if label.is_none() {
        label = resolve_audio_input_id(sel, discovered_inputs);
    }
    assert(opt_sview(label) == selected_label_spec(sel@, discovered_inputs@));
    let l = match label {
        Some(l) => l,
        None => {
            return (None, None);
        },
    };
    proof { lemma_firsts(native_inputs@, discovered_inputs@, l@, 0); }
    let ll = to_lower(&chars_of(l.as_str()));
    let mut k: usize = 0;
    while k < native_inputs.len()
        invariant
            k <= native_inputs@.len(),
            ll@ == lower(l@),
            first_native_named(native_inputs@, l@, 0) == first_native_named(native_inputs@, l@, k as int),
        decreases native_inputs@.len() - k,
    {
        let nl = to_lower(&chars_of(native_inputs[k].name.as_str()));
        if str_eq(string_of(&nl).as_str(), string_of(&ll).as_str()) {
            return (Some(native_inputs[k].id.clone()), Some(native_inputs[k].name.clone()));
        }
        k += 1;
    }
    (None, Some(l))
}

pub open spec fn start_summary_spec(name: Option<Seq<char>>, id: Option<Seq<char>>, output: Option<Seq<char>>) -> Seq<char> {
    "macOS audio start plan would use microphone route `"@ + match name { Some(n) => n, None => "none"@ }
        + "` (device id `"@ + match id { Some(i) => i, None => "default"@ }
        + "`) and output route `"@ + match output { Some(o) => o, None => "none"@ } + "`."@
}

/// The audio part of a recording: the microphone device and, with system
/// audio, the default output device.
pub fn start_plan(
    selected_audio_input_id: &str,
    mic_enabled: bool,
    system_audio_enabled: bool,
    discovered_inputs: &[AudioInputOption],
    native_inputs: &[MacosNativeAudioInputDevice],
    report: Option<&MacosAudioDeviceReport>,
) -> (p: MacosAudioStartPlan)
    ensures
        (opt_sview(p.microphone_device_id), opt_sview(p.microphone_device_name)) == native_microphone_spec(
            selected_audio_input_id@, mic_enabled, discovered_inputs@, native_inputs@,
            preferred_device_spec(opt_report(report), false)),
        opt_sview(p.output_device_name) == if system_audio_enabled { preferred_device_spec(opt_report(report), true) } else { None },
        p.summary@ == start_summary_spec(opt_sview(p.microphone_device_name), opt_sview(p.microphone_device_id),
            opt_sview(p.output_device_name)),
{
    let route = route_plan(report);
    let (mic_id, mic_name) = resolve_native_microphone_device(selected_audio_input_id, mic_enabled,
        discovered_inputs, native_inputs, preferred_input_device_name(report));
    let output = if system_audio_enabled {
        match &route {
            Some(r) => match &r.default_output_label {
                Some(o) => Some(o.clone()),
                None => None,
            },
            None => None,
        }
    } else {
        None
    };
    let mut summary = String::from_str("macOS audio start plan would use microphone route `");
    match &mic_name {
        Some(n) => push_str(&mut summary, n.as_str()),
        None => push_str(&mut summary, "none"),
    }
    push_str(&mut summary, "` (device id `");
    match &mic_id {
        Some(i) => push_str(&mut summary, i.as_str()),
        None => push_str(&mut summary, "default"),
    }
    push_str(&mut summary, "`) and output route `");
    match &output {
        Some(o) => push_str(&mut summary, o.as_str()),
        None => push_str(&mut summary, "none"),
    }
    push_str(&mut summary, "`.");
    MacosAudioStartPlan {
        microphone_device_id: mic_id,
        microphone_device_name: mic_name,
        output_device_name: output,
        summary,
    }
}

/// Whether the native recording output runs: macOS 15 or newer.
pub open spec fn recording_output_supported(version: Option<(u64, u64, u64)>) -> bool {
    version matches Some((major, _, _)) && major >= 15
}

/// Why the Core Audio lane is unavailable (`None` from macOS 15 on).
pub open spec fn audio_availability_spec(version: Option<(u64, u64, u64)>, report: Option<MacosAudioDeviceReport>) -> Option<Seq<char>> {
    if recording_output_supported(version) {
        None
    } else {
        Some(match runtime_summary_spec(report) {
            Some(s) => s + " On older macOS runtimes the app still lacks a fully separate Core Audio capture runtime for every path, so native audio routing is only partial there."@,
            None => "A dedicated Core Audio microphone and system-audio runtime is planned for older macOS runtimes; today the fully native audio lane is only active together with ScreenCaptureKit recording output on macOS 15+."@,
        })
    }
}

/// The Core Audio lane.
pub struct CoreAudioMacosBackend;

pub fn backend() -> CoreAudioMacosBackend {
    CoreAudioMacosBackend
}

impl CoreAudioMacosBackend {
    pub fn descriptor(&self) -> (d: AudioBackendDescriptor)
        ensures
            d.id@ == "macos-core-audio"@,
            d.label@ == "macOS Core Audio"@,
    {
        AudioBackendDescriptor { id: "macos-core-audio", label: "macOS Core Audio" }
    }

    /// Available on macOS 15 and newer; otherwise unavailable, with the
    /// device summary when there is one.
    pub fn availability(&self, version: Option<(u64, u64, u64)>, report: Option<&MacosAudioDeviceReport>) -> (a: AudioBackendAvailability)
        ensures
            audio_reason(a) == audio_availability_spec(version, opt_report(report)),
    {
        let supported = match version {
            Some((major, _, _)) => major >= 15,
            None => false,
        };
        if supported {
            return AudioBackendAvailability::Available;
        }
        let reason = match runtime_summary(report) {
            Some(s) => {
                let mut r = s;
                push_str(&mut r, " On older macOS runtimes the app still lacks a fully separate Core Audio capture runtime for every path, so native audio routing is only partial there.");
                r
            },
            None => String::from_str("A dedicated Core Audio microphone and system-audio runtime is planned for older macOS runtimes; today the fully native audio lane is only active together with ScreenCaptureKit recording output on macOS 15+."),
        };
        AudioBackendAvailability::Unavailable { reason }
    }

    /// The runtime report: device summary, default input and default output.
    pub fn runtime_report(&self, version: Option<(u64, u64, u64)>, report: Option<&MacosAudioDeviceReport>) -> (r: AudioBackendRuntimeReport)
        ensures
            opt_sview(r.summary) == Some(match runtime_summary_spec(opt_report(report)) {
                Some(s) => if recording_output_supported(version) {
                    s + " Native microphone routing is active through the ScreenCaptureKit recording-output lane on supported macOS runtimes."@
                } else {
                    s + " Older macOS runtimes only expose partial native-audio support, so unsupported paths fail explicitly there."@
                },
                None => if recording_output_supported(version) {
                    "Native microphone routing is active through the ScreenCaptureKit recording-output lane on supported macOS runtimes."@
                } else {
                    "Native microphone routing is only partially active on this macOS runtime; older runtimes do not expose every native audio path."@
                },
            }),
            opt_sview(r.preferred_input_id) == preferred_device_spec(opt_report(report), false),
            opt_sview(r.preferred_input_label) == preferred_device_spec(opt_report(report), false),
            opt_sview(r.preferred_system_id) == preferred_device_spec(opt_report(report), true),
            opt_sview(r.preferred_system_label) == preferred_device_spec(opt_report(report), true),
    {
        let supported = match version {
            Some((major, _, _)) => major >= 15,
            None => false,
        };
        let summary = match runtime_summary(report) {
            Some(s) => {
                let mut r = s;
                if supported {
                    push_str(&mut r, " Native microphone routing is active through the ScreenCaptureKit recording-output lane on supported macOS runtimes.");
                } else {
                    push_str(&mut r, " Older macOS runtimes only expose partial native-audio support, so unsupported paths fail explicitly there.");
                }
                r
            },
            None => if supported {
                String::from_str("Native microphone routing is active through the ScreenCaptureKit recording-output lane on supported macOS runtimes.")
            } else {
                String::from_str("Native microphone routing is only partially active on this macOS runtime; older runtimes do not expose every native audio path.")
            },
        };
        AudioBackendRuntimeReport {
            summary: Some(summary),
            preferred_input_id: preferred_input_device_name(report),
            preferred_input_label: preferred_input_device_name(report),
            preferred_system_id: preferred_output_device_name(report),
            preferred_system_label: preferred_output_device_name(report),
        }
    }
}

} // verus!
