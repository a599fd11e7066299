//! The Windows WASAPI audio lane: the endpoint report, which capture and
//! render endpoints a recording uses, and what the launcher is told.
use vstd::prelude::*;
use vstd::string::*;
use std::collections::VecDeque;
use crate::capture::{audio_reason, best_candidate, opt_sview, preferred_system_audio_input,
    resolve_microphone_input_id, resolve_microphone_input_spec, AudioBackendAvailability, AudioBackendDescriptor,
    AudioBackendRuntimeReport, AudioInputKind, AudioInputOption, DEFAULT_AUDIO_INPUT_ID};
use crate::text::{chars_of, contains, contains_chars, has_prefix, join, lines, lower, push_str, slice_chars,
    split_lines, split_once, split_once_chars, starts_with, str_eq, string_of, string_views, to_lower, trim,
    trim_chars, views};

verus! {

/// The WASAPI lane.
pub struct WasapiWindowsAudioBackend;

/// One audio endpoint the probe listed.
#[derive(Debug, Clone, PartialEq, Eq)]
pub struct WindowsAudioEndpoint {
    pub instance_id: String,
    pub label: String,
}

pub struct EndpointView {
    pub instance_id: Seq<char>,
    pub label: Seq<char>,
}

impl View for WindowsAudioEndpoint {
    type V = EndpointView;

    open spec fn view(&self) -> EndpointView {
        EndpointView { instance_id: self.instance_id@, label: self.label@ }
    }
}

pub open spec fn endpoint_views(v: Seq<WindowsAudioEndpoint>) -> Seq<EndpointView> {
    v.map_values(|e: WindowsAudioEndpoint| e@)
}

pub open spec fn opt_endpoint(e: Option<WindowsAudioEndpoint>) -> Option<EndpointView> {
    match e {
        Some(x) => Some(x@),
        None => None,
    }
}

pub fn copy_endpoint(e: &WindowsAudioEndpoint) -> (r: WindowsAudioEndpoint)
    ensures
        r@ == e@,
{
    WindowsAudioEndpoint { instance_id: e.instance_id.clone(), label: e.label.clone() }
}

/// What the endpoint probe reported: the default recording device's name
/// and the capture and render endpoints.
#[derive(Debug, Clone, PartialEq, Eq)]
pub struct WindowsAudioEndpointReport {
    pub default_input_name: Option<String>,
    pub capture_endpoints: Vec<WindowsAudioEndpoint>,
    pub render_endpoints: Vec<WindowsAudioEndpoint>,
}

pub struct ReportView {
    pub default_input_name: Option<Seq<char>>,
    pub capture: Seq<EndpointView>,
    pub render: Seq<EndpointView>,
}

impl View for WindowsAudioEndpointReport {
    type V = ReportView;

    open spec fn view(&self) -> ReportView {
        ReportView {
            default_input_name: opt_sview(self.default_input_name),
            capture: endpoint_views(self.capture_endpoints@),
            render: endpoint_views(self.render_endpoints@),
        }
    }
}

/// A `KIND<tab>instance id<tab>label` row of the given kind, both columns
/// trimmed and non-empty (the label keeps any further tabs).
pub open spec fn endpoint_row_spec(line: Seq<char>, kind: Seq<char>) -> Option<EndpointView> {
    match split_once(line, '\t') {
        None => None,
        Some((k, rest)) => if k != kind {
            None
        } else {
            match split_once(rest, '\t') {
                None => None,
                Some((id, label)) => if trim(id).len() == 0 || trim(label).len() == 0 {
                    None
                } else {
                    Some(EndpointView { instance_id: trim(id), label: trim(label) })
                },
            }
        },
    }
}

pub fn parse_endpoint_row(line: &[char], kind: &str) -> (r: Option<WindowsAudioEndpoint>)
    ensures
        match r {
            Some(e) => endpoint_row_spec(line@, kind@) == Some(e@),
            None => endpoint_row_spec(line@, kind@) is None,
        },
{
    let (k, rest) = match split_once_chars(line, '\t') {
        None => {
            return None;
        },
        Some(p) => p,
    };
    if !str_eq(string_of(&k).as_str(), kind) {
        return None;
    }
    let (id, label) = match split_once_chars(&rest, '\t') {
        None => {
            return None;
        },
        Some(p) => p,
    };
    let id = trim_chars(&id);
    let label = trim_chars(&label);
    if id.len() == 0 || label.len() == 0 {
        return None;
    }
    Some(WindowsAudioEndpoint { instance_id: string_of(&id), label: string_of(&label) })
}

pub open spec fn empty_report() -> ReportView {
    ReportView { default_input_name: None, capture: seq![], render: seq![] }
}

/// What one output line adds to the report: a `DEFAULT::` line names the
/// default input (the last one wins), `CAPTURE` and `RENDER` rows add
/// endpoints, anything else is ignored.
pub open spec fn report_step(r: ReportView, line: Seq<char>) -> ReportView {
    let l = trim(line);
    if l.len() == 0 {
        r
    } else if has_prefix(l, "DEFAULT::"@) {
        ReportView { default_input_name: Some(trim(l.subrange(9, l.len() as int))), capture: r.capture, render: r.render }
    } else {
        match endpoint_row_spec(l, "CAPTURE"@) {
            Some(e) => ReportView { default_input_name: r.default_input_name, capture: r.capture.push(e), render: r.render },
            None => match endpoint_row_spec(l, "RENDER"@) {
                Some(e) => ReportView { default_input_name: r.default_input_name, capture: r.capture, render: r.render.push(e) },
                None => r,
            },
        }
    }
}

pub open spec fn report_fold(ls: Seq<Seq<char>>) -> ReportView
    decreases ls.len(),
{
    if ls.len() == 0 { empty_report() } else { report_step(report_fold(ls.drop_last()), ls.last()) }
}

/// The report the probe's output describes; none when it names nothing.
pub open spec fn endpoint_report_spec(out: Seq<char>) -> Option<ReportView> {
    let r = report_fold(lines(out));
    if r.default_input_name is None && r.capture.len() == 0 && r.render.len() == 0 { None } else { Some(r) }
}

pub fn parse_endpoint_report(stdout: &str) -> (r: Option<WindowsAudioEndpointReport>)
    ensures
        match r {
            Some(rep) => endpoint_report_spec(stdout@) == Some(rep@),
            None => endpoint_report_spec(stdout@) is None,
        },
{
    let ls = split_lines(&chars_of(stdout));
    let ghost all = views(ls@);
    let prefix = chars_of("DEFAULT::");
    proof { reveal_strlit("DEFAULT::"); }
    assert(prefix@.len() == 9);
    let mut report = WindowsAudioEndpointReport {
        default_input_name: None,
        capture_endpoints: Vec::new(),
        render_endpoints: Vec::new(),
    };
    assert(endpoint_views(report.capture_endpoints@) =~= Seq::<EndpointView>::empty());
    assert(endpoint_views(report.render_endpoints@) =~= Seq::<EndpointView>::empty());
    assert(report@ == empty_report());
    let mut i: usize = 0;
    while i < ls.len()
        invariant
            i <= ls@.len(),
            all == views(ls@),
            all == lines(stdout@),
            prefix@ == "DEFAULT::"@,
            prefix@.len() == 9,
            report@ == report_fold(all.subrange(0, i as int)),
        decreases ls@.len() - i,
    {
        assert(all.subrange(0, i + 1).drop_last() == all.subrange(0, i as int));
        assert(all.subrange(0, i + 1).last() == ls@[i as int]@);
        let ghost before = report@;
        let l = trim_chars(&ls[i]);
        if l.len() == 0 {
        } else if starts_with(&l, &prefix) {
            let rest = slice_chars(&l, 9, l.len());
            let v = trim_chars(&rest);
            report.default_input_name = Some(string_of(&v));
        } else {
            match parse_endpoint_row(&l, "CAPTURE") {
                Some(e) => {
                    report.capture_endpoints.push(e);
                    assert(endpoint_views(report.capture_endpoints@) == before.capture.push(e@));
                },
                None => match parse_endpoint_row(&l, "RENDER") {
                    Some(e) => {
                        report.render_endpoints.push(e);
                        assert(endpoint_views(report.render_endpoints@) == before.render.push(e@));
                    },
                    None => {},
                },
            }
        }
        assert(report@ == report_step(before, ls@[i as int]@));
        i += 1;
    }
    assert(all.subrange(0, ls@.len() as int) == all);
    if report.default_input_name.is_none() && report.capture_endpoints.len() == 0 && report.render_endpoints.len() == 0 {
        None
    } else {
        Some(report)
    }
}

// Choosing endpoints

/// How much a capture endpoint's label looks like a microphone.
pub open spec fn capture_score_spec(label: Seq<char>) -> int {
    let l = lower(label);
    (if contains(l, "microphone"@) || contains(l, "mic"@) { 120int } else { 0int })
        + (if contains(l, "headset"@) { 70int } else { 0int })
        + (if contains(l, "usb"@) { 20int } else { 0int })
        + (if contains(l, "line in"@) { 10int } else { 0int })
}

/// How much a render endpoint's label looks like speakers or headphones.
pub open spec fn render_score_spec(label: Seq<char>) -> int {
    let l = lower(label);
    (if contains(l, "speaker"@) { 120int } else { 0int })
        + (if contains(l, "headphone"@) { 100int } else { 0int })
        + (if contains(l, "hdmi"@) || contains(l, "display"@) { 40int } else { 0int })
        + (if contains(l, "usb"@) { 20int } else { 0int })
}

pub open spec fn endpoint_score_spec(label: Seq<char>, render: bool) -> int {
    if render { render_score_spec(label) } else { capture_score_spec(label) }
}

fn has_word(h: &Vec<char>, w: &str) -> (r: bool)
    ensures
        r == contains(h@, w@),
{
    let p = chars_of(w);
    contains_chars(h, &p)
}

pub fn capture_endpoint_score(endpoint: &str) -> (score: i32)
    ensures
        score as int == capture_score_spec(endpoint@),
{
    let l = to_lower(&chars_of(endpoint));
    let mut score: i32 = 0;
    if has_word(&l, "microphone") || has_word(&l, "mic") {
        score += 120;
    }
    if has_word(&l, "headset") {
        score += 70;
    }
    if has_word(&l, "usb") {
        score += 20;
    }
    if has_word(&l, "line in") {
        score += 10;
    }
    score
}

pub fn render_endpoint_score(endpoint: &str) -> (score: i32)
    ensures
        score as int == render_score_spec(endpoint@),
{
    let l = to_lower(&chars_of(endpoint));
    let mut score: i32 = 0;
    if has_word(&l, "speaker") {
        score += 120;
    }
    if has_word(&l, "headphone") {
        score += 100;
    }
    if has_word(&l, "hdmi") || has_word(&l, "display") {
        score += 40;
    }
    if has_word(&l, "usb") {
        score += 20;
    }
    score
}

/// Index of the highest-scoring endpoint, the last one among equals (as
/// `Iterator::max_by_key` picks); -1 for none.
pub open spec fn best_endpoint(v: Seq<EndpointView>, render: bool) -> int
    decreases v.len(),
{
    if v.len() == 0 {
        -1
    } else {
        let b = best_endpoint(v.drop_last(), render);
        if b == -1 || endpoint_score_spec(v.last().label, render) >= endpoint_score_spec(v[b].label, render) {
            v.len() - 1
        } else {
            b
        }
    }
}

proof fn lemma_best_endpoint(v: Seq<EndpointView>, render: bool)
    ensures
        -1 <= best_endpoint(v, render) < v.len(),
        v.len() > 0 ==> best_endpoint(v, render) >= 0,
    decreases v.len(),
{
    if v.len() > 0 {
        lemma_best_endpoint(v.drop_last(), render);
    }
}

/// Index of the first endpoint labelled like `name` (ASCII case aside), or -1.
pub open spec fn first_named(v: Seq<EndpointView>, name: Seq<char>, i: int) -> int
    decreases v.len() - i,
{
    if i < 0 || i >= v.len() {
        -1
    } else if lower(v[i].label) == lower(name) {
        i
    } else {
        first_named(v, name, i + 1)
    }
}

proof fn lemma_first_named(v: Seq<EndpointView>, name: Seq<char>, i: int)
    requires
        0 <= i,
    ensures
        -1 <= first_named(v, name, i) < v.len(),
    decreases v.len() - i,
{
    if i < v.len() {
        lemma_first_named(v, name, i + 1);
    }
}

/// The capture endpoint a recording uses: the one named like the default
/// recording device, else the best-scoring one; -1 for none.
pub open spec fn capture_choice(r: ReportView) -> int {
    match r.default_input_name {
        Some(d) => {
            let k = first_named(r.capture, d, 0);
            if k != -1 { k } else { best_endpoint(r.capture, false) }
        },
        None => best_endpoint(r.capture, false),
    }
}

fn best_endpoint_index(v: &Vec<WindowsAudioEndpoint>, render: bool) -> (r: Option<usize>)
    ensures
        match r {
            Some(i) => best_endpoint(endpoint_views(v@), render) == i as int && i < v@.len(),
            None => best_endpoint(endpoint_views(v@), render) == -1,
        },
{
    let ghost all = endpoint_views(v@);
    let mut best: Option<usize> = None;
    let mut best_score: i32 = 0;
    let mut i: usize = 0;
    while i < v.len()
        invariant
            i <= v@.len(),
            all == endpoint_views(v@),
            match best {
                Some(b) => best_endpoint(all.subrange(0, i as int), render) == b as int && b < i
                    && best_score as int == endpoint_score_spec(all[b as int].label, render),
                None => best_endpoint(all.subrange(0, i as int), render) == -1 && i == 0,
            },
        decreases v@.len() - i,
    {
        assert(all.subrange(0, i + 1).drop_last() == all.subrange(0, i as int));
        assert(all.subrange(0, i + 1).last() == v@[i as int]@);
        let sc = if render { render_endpoint_score(v[i].label.as_str()) } else { capture_endpoint_score(v[i].label.as_str()) };
        match best {
            None => {
                best = Some(i);
                best_score = sc;
            },
            Some(b) => {
                assert(all.subrange(0, i + 1)[b as int] == all[b as int]);
                if sc >= best_score {
                    best = Some(i);
                    best_score = sc;
                }
            },
        }
        i += 1;
    }
    assert(all.subrange(0, i as int) == all);
    best
}

fn first_named_index(v: &Vec<WindowsAudioEndpoint>, name: &str) -> (r: Option<usize>)
    ensures
        match r {
            Some(i) => first_named(endpoint_views(v@), name@, 0) == i as int && i < v@.len(),
            None => first_named(endpoint_views(v@), name@, 0) == -1,
        },
{
    let ghost all = endpoint_views(v@);
    let target = to_lower(&chars_of(name));
    let mut i: usize = 0;
    while i < v.len()
        invariant
            i <= v@.len(),
            all == endpoint_views(v@),
            target@ == lower(name@),
            first_named(all, name@, 0) == first_named(all, name@, i as int),
        decreases v@.len() - i,
    {
        let l = to_lower(&chars_of(v[i].label.as_str()));
        if str_eq(string_of(&l).as_str(), string_of(&target).as_str()) {
            return Some(i);
        }
        i += 1;
    }
    None
}

/// The capture endpoint a recording uses (see `capture_choice`).
pub fn select_capture_endpoint(report: &WindowsAudioEndpointReport) -> (r: Option<&WindowsAudioEndpoint>)
    ensures
        capture_choice(report@) == -1 <==> r is None,
        r matches Some(e) ==> e@ == report@.capture[capture_choice(report@)],
{
    proof {
        lemma_best_endpoint(report@.capture, false);
        match report@.default_input_name {
            Some(d) => lemma_first_named(report@.capture, d, 0),
            None => {},
        }
    }
    match &report.default_input_name {
        Some(d) => match first_named_index(&report.capture_endpoints, d.as_str()) {
            Some(i) => {
                return Some(&report.capture_endpoints[i]);
            },
            None => {},
        },
        None => {},
    }
    match best_endpoint_index(&report.capture_endpoints, false) {
        Some(i) => Some(&report.capture_endpoints[i]),
        None => None,
    }
}

/// The render endpoint system audio is taken from: the best-scoring one.
pub fn select_render_endpoint(report: &WindowsAudioEndpointReport) -> (r: Option<&WindowsAudioEndpoint>)
    ensures
        best_endpoint(report@.render, true) == -1 <==> r is None,
        r matches Some(e) ==> e@ == report@.render[best_endpoint(report@.render, true)],
{
    proof { lemma_best_endpoint(report@.render, true); }
    match best_endpoint_index(&report.render_endpoints, true) {
        Some(i) => Some(&report.render_endpoints[i]),
        None => None,
    }
}

// Plans

/// The endpoints a recording would use, with the endpoint counts.
#[derive(Debug, Clone, PartialEq, Eq)]
pub struct WindowsAudioRuntimePlan {
    pub default_input_name: Option<String>,
    pub preferred_capture_endpoint: Option<WindowsAudioEndpoint>,
    pub preferred_render_endpoint: Option<WindowsAudioEndpoint>,
    pub capture_endpoint_count: usize,
    pub render_endpoint_count: usize,
}

pub open spec fn plan_of(r: ReportView) -> (Option<EndpointView>, Option<EndpointView>) {
    (
        if capture_choice(r) == -1 { None } else { Some(r.capture[capture_choice(r)]) },
        if best_endpoint(r.render, true) == -1 { None } else { Some(r.render[best_endpoint(r.render, true)]) },
    )
}

fn copy_opt_endpoint(e: Option<&WindowsAudioEndpoint>) -> (r: Option<WindowsAudioEndpoint>)
    ensures
        match e {
            Some(x) => opt_endpoint(r) == Some(x@),
            None => r is None,
        },
{
    match e {
        Some(x) => Some(copy_endpoint(x)),
        None => None,
    }
}

fn copy_opt_string(s: &Option<String>) -> (r: Option<String>)
    ensures
        opt_sview(r) == opt_sview(*s),
{
    match s {
        Some(x) => Some(x.clone()),
        None => None,
    }
}

/// The runtime plan of a report: its default input name, the capture and
/// render endpoints it would use, and its endpoint counts.
pub open spec fn is_runtime_plan_of(r: ReportView, p: WindowsAudioRuntimePlan) -> bool {
    &&& opt_sview(p.default_input_name) == r.default_input_name
    &&& opt_endpoint(p.preferred_capture_endpoint) == plan_of(r).0
    &&& opt_endpoint(p.preferred_render_endpoint) == plan_of(r).1
    &&& p.capture_endpoint_count == r.capture.len()
    &&& p.render_endpoint_count == r.render.len()
}

pub fn build_runtime_plan(report: &WindowsAudioEndpointReport) -> (p: WindowsAudioRuntimePlan)
    ensures
        is_runtime_plan_of(report@, p),
{
    WindowsAudioRuntimePlan {
        default_input_name: copy_opt_string(&report.default_input_name),
        preferred_capture_endpoint: copy_opt_endpoint(select_capture_endpoint(report)),
        preferred_render_endpoint: copy_opt_endpoint(select_render_endpoint(report)),
        capture_endpoint_count: report.capture_endpoints.len(),
        render_endpoint_count: report.render_endpoints.len(),
    }
}

/// How `Default input` and system audio would be routed.
#[derive(Debug, Clone, PartialEq, Eq)]
pub struct WindowsAudioRoutePlan {
    pub default_input_label: Option<String>,
    pub default_input_note: String,
    pub preferred_loopback_label: Option<String>,
    pub loopback_note: String,
    pub has_loopback_candidate: bool,
}

pub open spec fn route_input_label(p: WindowsAudioRuntimePlan) -> Option<Seq<char>> {
    match opt_endpoint(p.preferred_capture_endpoint) {
        Some(e) => Some(e.label),
        None => opt_sview(p.default_input_name),
    }
}

pub open spec fn route_loopback_label(p: WindowsAudioRuntimePlan) -> Option<Seq<char>> {
    match opt_endpoint(p.preferred_render_endpoint) {
        Some(e) => Some(e.label),
        None => None,
    }
}

pub open spec fn input_note_spec(label: Option<Seq<char>>) -> Seq<char> {
    match label {
        Some(l) => "The app can route `Default input` through the preferred Windows capture candidate `"@ + l + "`."@,
        None => "Windows audio probing could not resolve a preferred capture candidate yet."@,
    }
}

pub open spec fn loopback_note_spec(label: Option<Seq<char>>) -> Seq<char> {
    match label {
        Some(l) => "The app can target the preferred Windows render candidate `"@ + l
            + "` for a future WASAPI loopback path."@,
        None => "Windows audio probing could not resolve a preferred render candidate yet."@,
    }
}

pub fn build_route_plan(plan: &WindowsAudioRuntimePlan) -> (r: WindowsAudioRoutePlan)
    ensures
        opt_sview(r.default_input_label) == route_input_label(*plan),
        opt_sview(r.preferred_loopback_label) == route_loopback_label(*plan),
        r.default_input_note@ == input_note_spec(route_input_label(*plan)),
        r.loopback_note@ == loopback_note_spec(route_loopback_label(*plan)),
        r.has_loopback_candidate == (route_loopback_label(*plan) is Some || plan.render_endpoint_count > 0),
{
    let default_input_label = match &plan.preferred_capture_endpoint {
        Some(e) => Some(e.label.clone()),
        None => copy_opt_string(&plan.default_input_name),
    };
    let preferred_loopback_label = match &plan.preferred_render_endpoint {
        Some(e) => Some(e.label.clone()),
        None => None,
    };
    let default_input_note = match &default_input_label {
        Some(l) => {
            let mut n = String::from_str("The app can route `Default input` through the preferred Windows capture candidate `");
            push_str(&mut n, l.as_str());
            push_str(&mut n, "`.");
            n
        },
        None => String::from_str("Windows audio probing could not resolve a preferred capture candidate yet."),
    };
    let loopback_note = match &preferred_loopback_label {
        Some(l) => {
            let mut n = String::from_str("The app can target the preferred Windows render candidate `");
            push_str(&mut n, l.as_str());
            push_str(&mut n, "` for a future WASAPI loopback path.");
            n
        },
        None => String::from_str("Windows audio probing could not resolve a preferred render candidate yet."),
    };
    let has_loopback_candidate = preferred_loopback_label.is_some() || plan.render_endpoint_count > 0;
    WindowsAudioRoutePlan {
        default_input_label,
        default_input_note,
        preferred_loopback_label,
        loopback_note,
        has_loopback_candidate,
    }
}

/// What the audio runtime is asked to open.
#[derive(Debug, Clone, PartialEq, Eq)]
pub struct WindowsAudioRuntimeIntent {
    pub microphone_enabled: bool,
    pub system_audio_enabled: bool,
    pub microphone_label: Option<String>,
    pub loopback_label: Option<String>,
    pub summary: String,
}

pub open spec fn intent_parts(mic: Option<Seq<char>>, loopback: Option<Seq<char>>, mic_enabled: bool, system_enabled: bool) -> Seq<Seq<char>> {
    (match mic {
        Some(l) => seq!["microphone route `"@ + l + "`"@],
        None => if mic_enabled { seq!["microphone route unresolved"@] } else { seq![] },
    }) + (match loopback {
        Some(l) => seq!["loopback route `"@ + l + "`"@],
        None => if system_enabled { seq!["loopback route unresolved"@] } else { seq![] },
    })
}

pub open spec fn intent_summary_spec(parts: Seq<Seq<char>>) -> Seq<char> {
    if parts.len() == 0 {
        "Windows audio runtime intent does not request microphone or system audio."@
    } else {
        "Windows audio runtime intent will use "@ + join(parts, ", "@) + "."@
    }
}

fn push_part(parts: &mut Vec<String>, s: String)
    ensures
        string_views(final(parts)@) == string_views(old(parts)@).push(s@),
{
    parts.push(s);
    assert(string_views(parts@) == string_views(old(parts)@).push(s@));
}

fn labelled(prefix: &str, label: &str) -> (r: String)
    ensures
        r@ == prefix@ + label@ + "`"@,
{
    let mut r = String::from_str(prefix);
    push_str(&mut r, label);
    push_str(&mut r, "`");
    r
}

pub fn build_runtime_intent(route_plan: &WindowsAudioRoutePlan, microphone_enabled: bool, system_audio_enabled: bool) -> (r: WindowsAudioRuntimeIntent)
    ensures
        r.microphone_enabled == microphone_enabled,
        r.system_audio_enabled == system_audio_enabled,
        opt_sview(r.microphone_label) == (if microphone_enabled { opt_sview(route_plan.default_input_label) } else { None }),
        opt_sview(r.loopback_label) == (if system_audio_enabled { opt_sview(route_plan.preferred_loopback_label) } else { None }),
        r.summary@ == intent_summary_spec(intent_parts(opt_sview(r.microphone_label), opt_sview(r.loopback_label),
            microphone_enabled, system_audio_enabled)),
{
    let microphone_label = if microphone_enabled { copy_opt_string(&route_plan.default_input_label) } else { None };
    let loopback_label = if system_audio_enabled { copy_opt_string(&route_plan.preferred_loopback_label) } else { None };
    let mut parts: Vec<String> = Vec::new();
    assert(string_views(parts@) =~= Seq::<Seq<char>>::empty());
    match &microphone_label {
        Some(l) => push_part(&mut parts, labelled("microphone route `", l.as_str())),
        None => if microphone_enabled {
            push_part(&mut parts, String::from_str("microphone route unresolved"));
        },
    }
    match &loopback_label {
        Some(l) => push_part(&mut parts, labelled("loopback route `", l.as_str())),
        None => if system_audio_enabled {
            push_part(&mut parts, String::from_str("loopback route unresolved"));
        },
    }
    assert(string_views(parts@) == intent_parts(opt_sview(microphone_label), opt_sview(loopback_label),
        microphone_enabled, system_audio_enabled));
    let summary = if parts.len() == 0 {
        String::from_str("Windows audio runtime intent does not request microphone or system audio.")
    } else {
        let mut s = String::from_str("Windows audio runtime intent will use ");
        let j = crate::text::join_strings(&parts, ", ");
        push_str(&mut s, j.as_str());
        push_str(&mut s, ".");
        s
    };
    WindowsAudioRuntimeIntent {
        microphone_enabled,
        system_audio_enabled,
        microphone_label,
        loopback_label,
        summary,
    }
}

/// The audio part of a recording.
#[derive(Debug, Clone, PartialEq, Eq)]
pub struct WindowsAudioStartPlan {
    pub microphone_device_name: Option<String>,
    pub system_audio_device_name: Option<String>,
    pub summary: String,
}

pub open spec fn opt_route(r: Option<&WindowsAudioRoutePlan>) -> Option<WindowsAudioRoutePlan> {
    match r {
        Some(x) => Some(*x),
        None => None,
    }
}

/// The input and loopback labels of a route plan.
pub open spec fn route_labels(route: Option<WindowsAudioRoutePlan>) -> Option<(Option<Seq<char>>, Option<Seq<char>>)> {
    match route {
        Some(r) => Some((opt_sview(r.default_input_label), opt_sview(r.preferred_loopback_label))),
        None => None,
    }
}

/// The microphone of a recording: the resolved microphone input, or, for
/// `Default input` when none resolves, the route's default input label.
pub open spec fn start_microphone_spec(selected: Seq<char>, mic_enabled: bool, discovered: Seq<AudioInputOption>,
    labels: Option<(Option<Seq<char>>, Option<Seq<char>>)>) -> Option<Seq<char>> {
    if !mic_enabled {
        None
    } else {
        match resolve_microphone_input_spec(selected, discovered) {
            Some(m) => Some(m),
            None => if selected == DEFAULT_AUDIO_INPUT_ID@ {
                match labels {
                    Some(l) => l.0,
                    None => None,
                }
            } else {
                None
            },
        }
    }
}

/// The system-audio source of a recording: the best system input's id.
pub open spec fn start_system_spec(system_enabled: bool, discovered: Seq<AudioInputOption>) -> Option<Seq<char>> {
    if !system_enabled {
        None
    } else {
        match best_candidate(discovered, true) {
            Some(i) => Some(discovered[i].id@),
            None => None,
        }
    }
}

pub open spec fn or_none(o: Option<Seq<char>>) -> Seq<char> {
    match o {
        Some(x) => x,
        None => "none"@,
    }
}

pub open spec fn start_summary_spec(labels: Option<(Option<Seq<char>>, Option<Seq<char>>)>, mic_enabled: bool,
    system_enabled: bool, mic: Option<Seq<char>>, system: Option<Seq<char>>) -> Seq<char> {
    match labels {
        Some(l) => {
            let ml = if mic_enabled { l.0 } else { None };
            let ll = if system_enabled { l.1 } else { None };
            intent_summary_spec(intent_parts(ml, ll, mic_enabled, system_enabled)) + " Windows microphone route: "@
                + or_none(mic) + ". Windows system-audio route: "@ + or_none(system) + "."@
        },
        None => "Windows audio start plan resolved microphone route `"@ + or_none(mic)
            + "` and system-audio route `"@ + or_none(system) + "`."@,
    }
}

fn push_or_none(s: &mut String, o: &Option<String>)
    ensures
        final(s)@ == old(s)@ + or_none(opt_sview(*o)),
{
    match o {
        Some(x) => push_str(s, x.as_str()),
        None => push_str(s, "none"),
    }
}

pub fn start_plan(
    selected_audio_input_id: &str,
    microphone_enabled: bool,
    system_audio_enabled: bool,
    discovered_inputs: &[AudioInputOption],
    route_plan: Option<&WindowsAudioRoutePlan>,
) -> (p: WindowsAudioStartPlan)
    ensures
        opt_sview(p.microphone_device_name) == start_microphone_spec(selected_audio_input_id@, microphone_enabled,
            discovered_inputs@, route_labels(opt_route(route_plan))),
        opt_sview(p.system_audio_device_name) == start_system_spec(system_audio_enabled, discovered_inputs@),
        p.summary@ == start_summary_spec(route_labels(opt_route(route_plan)), microphone_enabled, system_audio_enabled,
            opt_sview(p.microphone_device_name), opt_sview(p.system_audio_device_name)),
{
    let microphone_device_name = if microphone_enabled {
        match resolve_microphone_input_id(selected_audio_input_id, discovered_inputs) {
            Some(m) => Some(m),
            None => if str_eq(selected_audio_input_id, DEFAULT_AUDIO_INPUT_ID) {
                match route_plan {
                    Some(r) => copy_opt_string(&r.default_input_label),
                    None => None,
                }
            } else {
                None
            },
        }
    } else {
        None
    };
    let system_audio_device_name = if system_audio_enabled {
        match preferred_system_audio_input(discovered_inputs) {
            Some(i) => Some(i.id.clone()),
            None => None,
        }
    } else {
        None
    };
    let summary = match route_plan {
        Some(r) => {
            let intent = build_runtime_intent(r, microphone_enabled, system_audio_enabled);
            let mut s = intent.summary;
            push_str(&mut s, " Windows microphone route: ");
            push_or_none(&mut s, &microphone_device_name);
            push_str(&mut s, ". Windows system-audio route: ");
            push_or_none(&mut s, &system_audio_device_name);
            push_str(&mut s, ".");
            s
        },
        None => {
            let mut s = String::from_str("Windows audio start plan resolved microphone route `");
            push_or_none(&mut s, &microphone_device_name);
            push_str(&mut s, "` and system-audio route `");
            push_or_none(&mut s, &system_audio_device_name);
            push_str(&mut s, "`.");
            s
        },
    };
    WindowsAudioStartPlan { microphone_device_name, system_audio_device_name, summary }
}

pub open spec fn opt_plan(p: Option<&WindowsAudioRuntimePlan>) -> Option<WindowsAudioRuntimePlan> {
    match p {
        Some(x) => Some(*x),
        None => None,
    }
}

/// The inputs the launcher offers: the preferred capture endpoint, then
/// the preferred render endpoint.
pub open spec fn selectable_spec(plan: Option<WindowsAudioRuntimePlan>) -> Seq<crate::capture::AudioInputView> {
    match plan {
        None => seq![],
        Some(p) => (match opt_endpoint(p.preferred_capture_endpoint) {
            Some(e) => seq![crate::capture::AudioInputView { id: e.instance_id, label: e.label,
                description: "Preferred Windows capture endpoint"@, kind: AudioInputKind::Microphone }],
            None => seq![],
        }) + (match opt_endpoint(p.preferred_render_endpoint) {
            Some(e) => seq![crate::capture::AudioInputView { id: e.instance_id, label: e.label,
                description: "Preferred Windows render endpoint"@, kind: AudioInputKind::System }],
            None => seq![],
        }),
    }
}

pub fn selectable_audio_inputs(plan: Option<&WindowsAudioRuntimePlan>) -> (r: Vec<AudioInputOption>)
    ensures
        crate::capture::input_views(r@) == selectable_spec(opt_plan(plan)),
{
    let mut inputs: Vec<AudioInputOption> = Vec::new();
    assert(crate::capture::input_views(inputs@) =~= Seq::<crate::capture::AudioInputView>::empty());
    match plan {
        Some(p) => {
            match &p.preferred_capture_endpoint {
                Some(e) => {
                    inputs.push(AudioInputOption {
                        id: e.instance_id.clone(),
                        label: e.label.clone(),
                        description: String::from_str("Preferred Windows capture endpoint"),
                        kind: AudioInputKind::Microphone,
                    });
                },
                None => {},
            }
            let ghost mid = crate::capture::input_views(inputs@);
            match &p.preferred_render_endpoint {
                Some(e) => {
                    inputs.push(AudioInputOption {
                        id: e.instance_id.clone(),
                        label: e.label.clone(),
                        description: String::from_str("Preferred Windows render endpoint"),
                        kind: AudioInputKind::System,
                    });
                    assert(crate::capture::input_views(inputs@) == mid.push(inputs@[inputs@.len() - 1]@));
                },
                None => {},
            }
        },
        None => {},
    }
    inputs
}

pub open spec fn summary_parts_spec(p: WindowsAudioRuntimePlan) -> Seq<Seq<char>> {
    (match opt_sview(p.default_input_name) {
        Some(n) => seq!["default input `"@ + n + "`"@],
        None => seq![],
    }) + (match opt_endpoint(p.preferred_capture_endpoint) {
        Some(e) => seq!["preferred capture endpoint `"@ + e.label + "`"@],
        None => seq![],
    }) + (match opt_endpoint(p.preferred_render_endpoint) {
        Some(e) => seq!["preferred render endpoint `"@ + e.label + "`"@],
        None => seq![],
    })
}

/// What the probe resolved; none without a report or when it resolved nothing.
pub open spec fn runtime_summary_spec(plan: Option<WindowsAudioRuntimePlan>) -> Option<Seq<char>> {
    match plan {
        None => None,
        Some(p) => if summary_parts_spec(p).len() == 0 {
            None
        } else {
            Some("Windows audio probing resolved "@ + join(summary_parts_spec(p), ", "@) + "."@)
        },
    }
}

pub fn runtime_summary(plan: Option<&WindowsAudioRuntimePlan>) -> (r: Option<String>)
    ensures
        opt_sview(r) == runtime_summary_spec(opt_plan(plan)),
{
    let p = match plan {
        None => {
            return None;
        },
        Some(p) => p,
    };
    let mut parts: Vec<String> = Vec::new();
    assert(string_views(parts@) =~= Seq::<Seq<char>>::empty());
    match &p.default_input_name {
        Some(n) => push_part(&mut parts, labelled("default input `", n.as_str())),
        None => {},
    }
    match &p.preferred_capture_endpoint {
        Some(e) => push_part(&mut parts, labelled("preferred capture endpoint `", e.label.as_str())),
        None => {},
    }
    match &p.preferred_render_endpoint {
        Some(e) => push_part(&mut parts, labelled("preferred render endpoint `", e.label.as_str())),
        None => {},
    }
    assert(string_views(parts@) == summary_parts_spec(*p));
    if parts.len() == 0 {
        None
    } else {
        let mut s = String::from_str("Windows audio probing resolved ");
        let j = crate::text::join_strings(&parts, ", ");
        push_str(&mut s, j.as_str());
        push_str(&mut s, ".");
        Some(s)
    }
}

/// The default recording device the probe named.
pub fn default_input_device_name(plan: Option<&WindowsAudioRuntimePlan>) -> (r: Option<String>)
    ensures
        opt_sview(r) == match opt_plan(plan) { Some(p) => opt_sview(p.default_input_name), None => None },
{
    match plan {
        Some(p) => copy_opt_string(&p.default_input_name),
        None => None,
    }
}

pub open spec fn capture_field(plan: Option<WindowsAudioRuntimePlan>, id: bool) -> Option<Seq<char>> {
    match plan {
        Some(p) => match opt_endpoint(p.preferred_capture_endpoint) {
            Some(e) => Some(if id { e.instance_id } else { e.label }),
            None => None,
        },
        None => None,
    }
}

pub open spec fn render_field(plan: Option<WindowsAudioRuntimePlan>, id: bool) -> Option<Seq<char>> {
    match plan {
        Some(p) => match opt_endpoint(p.preferred_render_endpoint) {
            Some(e) => Some(if id { e.instance_id } else { e.label }),
            None => None,
        },
        None => None,
    }
}

/// The preferred capture endpoint's label.
pub fn preferred_capture_endpoint_name(plan: Option<&WindowsAudioRuntimePlan>) -> (r: Option<String>)
    ensures
        opt_sview(r) == capture_field(opt_plan(plan), false),
{
    match plan {
        Some(p) => match &p.preferred_capture_endpoint {
            Some(e) => Some(e.label.clone()),
            None => None,
        },
        None => None,
    }
}

/// The preferred capture endpoint's instance id.
pub fn preferred_capture_endpoint_id(plan: Option<&WindowsAudioRuntimePlan>) -> (r: Option<String>)
    ensures
        opt_sview(r) == capture_field(opt_plan(plan), true),
{
    match plan {
        Some(p) => match &p.preferred_capture_endpoint {
            Some(e) => Some(e.instance_id.clone()),
            None => None,
        },
        None => None,
    }
}

/// The preferred render endpoint's label.
pub fn preferred_render_endpoint_name(plan: Option<&WindowsAudioRuntimePlan>) -> (r: Option<String>)
    ensures
        opt_sview(r) == render_field(opt_plan(plan), false),
{
    match plan {
        Some(p) => match &p.preferred_render_endpoint {
            Some(e) => Some(e.label.clone()),
            None => None,
        },
        None => None,
    }
}

/// The preferred render endpoint's instance id.
pub fn preferred_render_endpoint_id(plan: Option<&WindowsAudioRuntimePlan>) -> (r: Option<String>)
    ensures
        opt_sview(r) == render_field(opt_plan(plan), true),
{
    match plan {
        Some(p) => match &p.preferred_render_endpoint {
            Some(e) => Some(e.instance_id.clone()),
            None => None,
        },
        None => None,
    }
}

/// The runtime plan of an endpoint report, if the probe produced one.
pub fn runtime_plan(report: Option<&WindowsAudioEndpointReport>) -> (r: Option<WindowsAudioRuntimePlan>)
    ensures
        report is None <==> r is None,
        r matches Some(p) ==> report matches Some(rep) && is_runtime_plan_of(rep@, p),
{
    match report {
        Some(rep) => Some(build_runtime_plan(rep)),
        None => None,
    }
}

/// The route plan of a runtime plan, if there is one.
pub fn route_plan(plan: Option<&WindowsAudioRuntimePlan>) -> (r: Option<WindowsAudioRoutePlan>)
    ensures
        plan is None <==> r is None,
        r matches Some(rp) ==> plan matches Some(p) && opt_sview(rp.default_input_label) == route_input_label(*p)
            && opt_sview(rp.preferred_loopback_label) == route_loopback_label(*p)
            && rp.default_input_note@ == input_note_spec(route_input_label(*p))
            && rp.loopback_note@ == loopback_note_spec(route_loopback_label(*p))
            && rp.has_loopback_candidate == (route_loopback_label(*p) is Some || p.render_endpoint_count > 0),
{
    match plan {
        Some(p) => Some(build_route_plan(p)),
        None => None,
    }
}

/// The runtime intent of a route plan, if there is one.
pub fn runtime_intent(route: Option<&WindowsAudioRoutePlan>, microphone_enabled: bool, system_audio_enabled: bool) -> (r: Option<WindowsAudioRuntimeIntent>)
    ensures
        route is None <==> r is None,
        r matches Some(i) ==> route matches Some(rp) && i.summary@ == intent_summary_spec(intent_parts(
            if microphone_enabled { opt_sview(rp.default_input_label) } else { None },
            if system_audio_enabled { opt_sview(rp.preferred_loopback_label) } else { None },
            microphone_enabled, system_audio_enabled)),
{
    match route {
        Some(rp) => Some(build_runtime_intent(rp, microphone_enabled, system_audio_enabled)),
        None => None,
    }
}

// The lane

pub fn backend() -> WasapiWindowsAudioBackend {
    WasapiWindowsAudioBackend
}

impl WasapiWindowsAudioBackend {
    pub fn descriptor(&self) -> (d: AudioBackendDescriptor)
        ensures
            d.id@ == "windows-wasapi"@,
            d.label@ == "Windows WASAPI"@,
    {
        AudioBackendDescriptor { id: "windows-wasapi", label: "Windows WASAPI" }
    }

    /// Available when the endpoint probe produced a report.
    pub fn availability(&self, plan: Option<&WindowsAudioRuntimePlan>) -> (a: AudioBackendAvailability)
        ensures
            audio_reason(a) == if plan is Some { None } else {
                Some("Windows could not inspect WASAPI audio endpoints from this session."@)
            },
    {
        match plan {
            Some(_) => AudioBackendAvailability::Available,
            None => AudioBackendAvailability::Unavailable {
                reason: String::from_str("Windows could not inspect WASAPI audio endpoints from this session."),
            },
        }
    }

    /// The runtime report: the probe summary and the preferred endpoints.
    pub fn runtime_report(&self, plan: Option<&WindowsAudioRuntimePlan>) -> (r: AudioBackendRuntimeReport)
        ensures
            opt_sview(r.summary) == runtime_summary_spec(opt_plan(plan)),
            opt_sview(r.preferred_input_id) == capture_field(opt_plan(plan), true),
            opt_sview(r.preferred_input_label) == capture_field(opt_plan(plan), false),
            opt_sview(r.preferred_system_id) == render_field(opt_plan(plan), true),
            opt_sview(r.preferred_system_label) == render_field(opt_plan(plan), false),
    {
        AudioBackendRuntimeReport {
            summary: runtime_summary(plan),
            preferred_input_id: preferred_capture_endpoint_id(plan),
            preferred_input_label: preferred_capture_endpoint_name(plan),
            preferred_system_id: preferred_render_endpoint_id(plan),
            preferred_system_label: preferred_render_endpoint_name(plan),
        }
    }
}

// The WASAPI runtime

/// How a WASAPI client was opened on an endpoint.
#[derive(Debug, Clone, PartialEq, Eq)]
pub struct WindowsWasapiClientFoundation {
    pub endpoint_role: String,
    pub endpoint_id: String,
    pub loopback: bool,
    pub channels: u16,
    pub sample_rate_hz: u32,
    pub bits_per_sample: u16,
    pub buffer_frames: u32,
    pub default_device_period_100ns: i64,
}

/// The clients opened for a recording.
#[derive(Debug, Clone, PartialEq, Eq)]
pub struct WindowsWasapiRuntimeFoundation {
    pub microphone: Option<WindowsWasapiClientFoundation>,
    pub loopback: Option<WindowsWasapiClientFoundation>,
    pub summary: String,
}

pub open spec fn client_part_spec(role: Seq<char>, c: WindowsWasapiClientFoundation) -> Seq<char> {
    role + " endpoint `"@ + c.endpoint_id@ + "` at "@ + crate::text::dec(c.sample_rate_hz as nat) + " Hz / "@
        + crate::text::dec(c.channels as nat) + " channel(s) / "@ + crate::text::dec(c.bits_per_sample as nat) + " bits"@
}

pub open spec fn foundation_parts(microphone: Option<WindowsWasapiClientFoundation>, loopback: Option<WindowsWasapiClientFoundation>) -> Seq<Seq<char>> {
    (match microphone { Some(m) => seq![client_part_spec("microphone"@, m)], None => seq![] })
        + (match loopback { Some(l) => seq![client_part_spec("loopback"@, l)], None => seq![] })
}

fn client_part(role: &str, c: &WindowsWasapiClientFoundation) -> (r: String)
    ensures
        r@ == client_part_spec(role@, *c),
{
    let mut s = String::from_str(role);
    push_str(&mut s, " endpoint `");
    push_str(&mut s, c.endpoint_id.as_str());
    push_str(&mut s, "` at ");
    crate::text::push_dec(&mut s, c.sample_rate_hz as u64);
    push_str(&mut s, " Hz / ");
    crate::text::push_dec(&mut s, c.channels as u64);
    push_str(&mut s, " channel(s) / ");
    crate::text::push_dec(&mut s, c.bits_per_sample as u64);
    push_str(&mut s, " bits");
    s
}

/// The summary of the foundation of the clients that were opened.
pub open spec fn foundation_summary_spec(microphone: Option<WindowsWasapiClientFoundation>, loopback: Option<WindowsWasapiClientFoundation>) -> Seq<char> {
    if foundation_parts(microphone, loopback).len() == 0 {
        "Windows WASAPI runtime foundation did not request microphone or loopback."@
    } else {
        "Windows WASAPI runtime foundation initialized "@ + join(foundation_parts(microphone, loopback), ", "@) + "."@
    }
}

/// The runtime foundation of the clients that were opened.
pub fn runtime_foundation(microphone: Option<WindowsWasapiClientFoundation>, loopback: Option<WindowsWasapiClientFoundation>) -> (r: WindowsWasapiRuntimeFoundation)
    ensures
        r.microphone == microphone,
        r.loopback == loopback,
        r.summary@ == if foundation_parts(microphone, loopback).len() == 0 {
            "Windows WASAPI runtime foundation did not request microphone or loopback."@
        } else {
            "Windows WASAPI runtime foundation initialized "@ + join(foundation_parts(microphone, loopback), ", "@) + "."@
        },
{
    let mut parts: Vec<String> = Vec::new();
    assert(string_views(parts@) =~= Seq::<Seq<char>>::empty());
    match &microphone {
        Some(m) => push_part(&mut parts, client_part("microphone", m)),
        None => {},
    }
    match &loopback {
        Some(l) => push_part(&mut parts, client_part("loopback", l)),
        None => {},
    }
    assert(string_views(parts@) == foundation_parts(microphone, loopback));
    let summary = if parts.len() == 0 {
        String::from_str("Windows WASAPI runtime foundation did not request microphone or loopback.")
    } else {
        let mut s = String::from_str("Windows WASAPI runtime foundation initialized ");
        let j = crate::text::join_strings(&parts, ", ");
        push_str(&mut s, j.as_str());
        push_str(&mut s, ".");
        s
    };
    WindowsWasapiRuntimeFoundation { microphone, loopback, summary }
}

/// What a capture worker has seen so far.
#[derive(Debug, Clone, Copy, Default, PartialEq, Eq)]
pub struct WindowsWasapiPacketStats {
    pub next_packet_frames: u32,
    pub packets_observed: u32,
    pub frames_observed: u32,
    pub silent_packets: u32,
}

/// One audio packet read from a client.
#[derive(Debug, Clone, PartialEq, Eq)]
pub struct WindowsWasapiAudioPacket {
    pub sample_time_100ns: i64,
    pub duration_100ns: i64,
    pub frames: u32,
    pub bytes: Vec<u8>,
}

impl WindowsWasapiPacketStats {
    /// Records the size the client reports for its next packet.
    pub fn set_next_packet_frames(&mut self, frames: u32)
        ensures
            *final(self) == (WindowsWasapiPacketStats { next_packet_frames: frames, ..*old(self) }),
    {
        self.next_packet_frames = frames;
    }

    /// Records a packet that was read: one more packet, its frames
    /// (saturating), and one more silent packet when the client flagged it.
    pub fn record_packet(&mut self, frames: u32, silent: bool)
        requires
            old(self).packets_observed < u32::MAX,
            old(self).silent_packets < u32::MAX,
        ensures
            final(self).next_packet_frames == old(self).next_packet_frames,
            final(self).packets_observed == old(self).packets_observed + 1,
            final(self).frames_observed == if old(self).frames_observed + frames > u32::MAX {
                u32::MAX as int
            } else {
                old(self).frames_observed + frames
            },
            final(self).silent_packets == old(self).silent_packets + (if silent { 1int } else { 0int }),
    {
        self.packets_observed = self.packets_observed + 1;
        self.frames_observed = match self.frames_observed.checked_add(frames) {
            Some(v) => v,
            None => u32::MAX,
        };
        if silent {
            self.silent_packets = self.silent_packets + 1;
        }
    }
}

/// Bytes per frame of a client format: channels times whole bytes per
/// sample (at least 8 bits), saturating, and at least 1.
pub open spec fn bytes_per_frame_spec(channels: u16, bits_per_sample: u16) -> int {
    let b = (if bits_per_sample < 8 { 8 } else { bits_per_sample as int }) / 8;
    let p = channels * b;
    let s = if p > u32::MAX { u32::MAX as int } else { p };
    if s < 1 { 1 } else { s }
}

pub fn bytes_per_frame(channels: u16, bits_per_sample: u16) -> (r: u32)
    ensures
        r == bytes_per_frame_spec(channels, bits_per_sample),
{
    let bits: u32 = if bits_per_sample < 8 { 8 } else { bits_per_sample as u32 };
    let per_sample: u32 = bits / 8;
    let p: u32 = match (channels as u32).checked_mul(per_sample) {
        Some(v) => v,
        None => u32::MAX,
    };
    if p < 1 { 1 } else { p }
}

/// A packet's duration and start time in 100 ns units, from its frame
/// count, the frames read before it, and the sample rate (at least 1).
pub fn packet_timing(frames: u32, elapsed_frames: u64, sample_rate_hz: u32) -> (r: (i64, i64))
    requires
        elapsed_frames * 10_000_000 <= u64::MAX,
    ensures
        ({
            let rate: int = if sample_rate_hz < 1 { 1 } else { sample_rate_hz as int };
            &&& r.0 == (frames * 10_000_000) / rate
            &&& r.1 == ((elapsed_frames * 10_000_000) / rate) as i64
        }),
{
    let rate: u64 = if sample_rate_hz < 1 { 1 } else { sample_rate_hz as u64 };
    let d: u64 = (frames as u64) * 10_000_000 / rate;
    let t: u64 = elapsed_frames * 10_000_000 / rate;
    (d as i64, #[verifier::truncate] (t as i64))
}

/// Mixing microphone and loopback needs both in the same 16-bit PCM format.
pub fn ensure_mix_compatible_foundations(microphone: &WindowsWasapiClientFoundation, loopback: &WindowsWasapiClientFoundation) -> (r: Result<(), crate::capture::CaptureError>)
    ensures
        r is Ok <==> (microphone.sample_rate_hz == loopback.sample_rate_hz && microphone.channels == loopback.channels
            && microphone.bits_per_sample == loopback.bits_per_sample && microphone.bits_per_sample == 16),
        r matches Err(e) ==> e matches crate::capture::CaptureError::BackendUnavailable(m) && m@
            == "Windows native mic+loopback mixing currently requires matching 16-bit PCM WASAPI formats."@,
{
    if microphone.sample_rate_hz != loopback.sample_rate_hz || microphone.channels != loopback.channels
        || microphone.bits_per_sample != loopback.bits_per_sample || microphone.bits_per_sample != 16 {
        return Err(crate::capture::CaptureError::BackendUnavailable(String::from_str(
            "Windows native mic+loopback mixing currently requires matching 16-bit PCM WASAPI formats.")));
    }
    Ok(())
}

/// The endpoint a microphone worker opens for the selected input.
pub fn microphone_worker_endpoint(selected_audio_input_id: &str, discovered_inputs: &[AudioInputOption]) -> (r: Result<String, String>)
    ensures
        match resolve_microphone_input_spec(selected_audio_input_id@, discovered_inputs@) {
            Some(id) => r matches Ok(e) && e@ == id,
            None => r matches Err(m) && m@ == "Windows could not resolve a usable microphone endpoint."@,
        },
{
    match resolve_microphone_input_id(selected_audio_input_id, discovered_inputs) {
        Some(id) => Ok(id),
        None => Err(String::from_str("Windows could not resolve a usable microphone endpoint.")),
    }
}

/// What a smoke run of the microphone and loopback workers observed.
#[derive(Debug, Clone, PartialEq, Eq)]
pub struct WindowsWasapiSmokeLifecycle {
    pub microphone_started: bool,
    pub microphone_next_packet_frames: Option<u32>,
    pub microphone_packets_observed: Option<u32>,
    pub microphone_frames_observed: Option<u32>,
    pub microphone_silent_packets: Option<u32>,
    pub loopback_started: bool,
    pub loopback_next_packet_frames: Option<u32>,
    pub loopback_packets_observed: Option<u32>,
    pub loopback_frames_observed: Option<u32>,
    pub loopback_silent_packets: Option<u32>,
    pub summary: String,
}

pub open spec fn stat_text(s: Option<WindowsWasapiPacketStats>, k: int) -> Seq<char> {
    match s {
        Some(st) => crate::text::dec((if k == 0 { st.next_packet_frames } else if k == 1 { st.packets_observed }
            else if k == 2 { st.frames_observed } else { st.silent_packets }) as nat),
        None => "n/a"@,
    }
}

pub open spec fn smoke_summary_spec(m: Option<WindowsWasapiPacketStats>, l: Option<WindowsWasapiPacketStats>) -> Seq<char> {
    "Windows WASAPI smoke lifecycle microphone_started="@ + (if m is Some { "true"@ } else { "false"@ })
        + " microphone_next_packet_frames="@ + stat_text(m, 0) + " microphone_packets="@ + stat_text(m, 1)
        + " microphone_frames="@ + stat_text(m, 2) + " microphone_silent_packets="@ + stat_text(m, 3)
        + " loopback_started="@ + (if l is Some { "true"@ } else { "false"@ })
        + " loopback_next_packet_frames="@ + stat_text(l, 0) + " loopback_packets="@ + stat_text(l, 1)
        + " loopback_frames="@ + stat_text(l, 2) + " loopback_silent_packets="@ + stat_text(l, 3) + "."@
}

fn push_stat(s: &mut String, st: Option<WindowsWasapiPacketStats>, k: u8)
    requires
        k < 4,
    ensures
        final(s)@ == old(s)@ + stat_text(st, k as int),
{
    match st {
        Some(x) => {
            let v = if k == 0 { x.next_packet_frames } else if k == 1 { x.packets_observed }
                else if k == 2 { x.frames_observed } else { x.silent_packets };
            crate::text::push_dec(s, v as u64);
        },
        None => push_str(s, "n/a"),
    }
}

fn push_flag(s: &mut String, b: bool)
    ensures
        final(s)@ == old(s)@ + (if b { "true"@ } else { "false"@ }),
{
    if b { push_str(s, "true") } else { push_str(s, "false") }
}

/// The smoke run's record, from the stats of the workers that ran
/// (`None` for a worker that was not requested).
pub fn smoke_lifecycle(microphone: Option<WindowsWasapiPacketStats>, loopback: Option<WindowsWasapiPacketStats>) -> (r: WindowsWasapiSmokeLifecycle)
    ensures
        r.microphone_started == microphone is Some,
        r.loopback_started == loopback is Some,
        r.microphone_packets_observed == match microphone { Some(m) => Some(m.packets_observed), None => None },
        r.microphone_frames_observed == match microphone { Some(m) => Some(m.frames_observed), None => None },
        r.microphone_silent_packets == match microphone { Some(m) => Some(m.silent_packets), None => None },
        r.microphone_next_packet_frames == match microphone { Some(m) => Some(m.next_packet_frames), None => None },
        r.loopback_packets_observed == match loopback { Some(m) => Some(m.packets_observed), None => None },
        r.loopback_frames_observed == match loopback { Some(m) => Some(m.frames_observed), None => None },
        r.loopback_silent_packets == match loopback { Some(m) => Some(m.silent_packets), None => None },
        r.loopback_next_packet_frames == match loopback { Some(m) => Some(m.next_packet_frames), None => None },
        r.summary@ == smoke_summary_spec(microphone, loopback),
{
    let mut s = String::from_str("Windows WASAPI smoke lifecycle microphone_started=");
    push_flag(&mut s, microphone.is_some());
    push_str(&mut s, " microphone_next_packet_frames=");
    push_stat(&mut s, microphone, 0);
    push_str(&mut s, " microphone_packets=");
    push_stat(&mut s, microphone, 1);
    push_str(&mut s, " microphone_frames=");
    push_stat(&mut s, microphone, 2);
    push_str(&mut s, " microphone_silent_packets=");
    push_stat(&mut s, microphone, 3);
    push_str(&mut s, " loopback_started=");
    push_flag(&mut s, loopback.is_some());
    push_str(&mut s, " loopback_next_packet_frames=");
    push_stat(&mut s, loopback, 0);
    push_str(&mut s, " loopback_packets=");
    push_stat(&mut s, loopback, 1);
    push_str(&mut s, " loopback_frames=");
    push_stat(&mut s, loopback, 2);
    push_str(&mut s, " loopback_silent_packets=");
    push_stat(&mut s, loopback, 3);
    push_str(&mut s, ".");
    WindowsWasapiSmokeLifecycle {
        microphone_started: microphone.is_some(),
        microphone_next_packet_frames: match microphone { Some(m) => Some(m.next_packet_frames), None => None },
        microphone_packets_observed: match microphone { Some(m) => Some(m.packets_observed), None => None },
        microphone_frames_observed: match microphone { Some(m) => Some(m.frames_observed), None => None },
        microphone_silent_packets: match microphone { Some(m) => Some(m.silent_packets), None => None },
        loopback_started: loopback.is_some(),
        loopback_next_packet_frames: match loopback { Some(m) => Some(m.next_packet_frames), None => None },
        loopback_packets_observed: match loopback { Some(m) => Some(m.packets_observed), None => None },
        loopback_frames_observed: match loopback { Some(m) => Some(m.frames_observed), None => None },
        loopback_silent_packets: match loopback { Some(m) => Some(m.silent_packets), None => None },
        summary: s,
    }
}

/// The foundation summary of the opened clients (`None` when opening failed).
pub fn runtime_foundation_summary(opened: Result<(Option<WindowsWasapiClientFoundation>, Option<WindowsWasapiClientFoundation>), String>) -> (r: Option<String>)
    ensures
        match opened {
            Ok((m, l)) => r matches Some(s) && s@ == foundation_summary_spec(m, l),
            Err(_) => r is None,
        },
{
    match opened {
        Ok((m, l)) => Some(runtime_foundation(m, l).summary),
        Err(_) => None,
    }
}

/// The smoke summary of the workers that ran (`None` when a worker failed).
pub fn smoke_lifecycle_summary(ran: Result<(Option<WindowsWasapiPacketStats>, Option<WindowsWasapiPacketStats>), String>) -> (r: Option<String>)
    ensures
        match ran {
            Ok((m, l)) => r matches Some(s) && s@ == smoke_summary_spec(m, l),
            Err(_) => r is None,
        },
{
    match ran {
        Ok((m, l)) => Some(smoke_lifecycle(m, l).summary),
        Err(_) => None,
    }
}

// Mixing microphone and loopback packets

/// The `i`-th little-endian signed 16-bit sample of a PCM buffer.
pub open spec fn pcm_sample(b: Seq<u8>, i: int) -> int {
    let v = b[2 * i] + 256 * b[2 * i + 1];
    if v >= 32768 { v - 65536 } else { v }
}

/// The average of two samples, rounded toward zero.
pub open spec fn mix_sample(m: int, l: int) -> int {
    let s = m + l;
    if s >= 0 { s / 2 } else { -((-s) / 2) }
}

/// `out` holds, sample by sample, the average of the two buffers as
/// little-endian signed 16-bit PCM.
pub open spec fn mixed_pcm(out: Seq<u8>, m: Seq<u8>, l: Seq<u8>) -> bool {
    &&& out.len() == m.len()
    &&& forall|i: int| 0 <= i < m.len() / 2 ==> {
        let x = mix_sample(pcm_sample(m, i), pcm_sample(l, i));
        let u = if x < 0 { x + 65536 } else { x };
        &&& #[trigger] out[2 * i] == u % 256
        &&& out[2 * i + 1] == u / 256
    }
}

/// Mixing is symmetric: which buffer is the microphone's does not matter.
pub proof fn law_mix_is_symmetric(out: Seq<u8>, m: Seq<u8>, l: Seq<u8>)
    requires
        m.len() == l.len(),
    ensures
        mixed_pcm(out, m, l) <==> mixed_pcm(out, l, m),
{
    assert forall|i: int| #![trigger pcm_sample(m, i)] 0 <= i < m.len() / 2 implies mix_sample(pcm_sample(m, i), pcm_sample(l, i))
        == mix_sample(pcm_sample(l, i), pcm_sample(m, i)) by {}
    if mixed_pcm(out, m, l) {
        assert forall|i: int| 0 <= i < l.len() / 2 implies {
            let x = mix_sample(pcm_sample(l, i), pcm_sample(m, i));
            let u = if x < 0 { x + 65536 } else { x };
            &&& #[trigger] out[2 * i] == u % 256
            &&& out[2 * i + 1] == u / 256
        } by {
            assert(mix_sample(pcm_sample(m, i), pcm_sample(l, i)) == mix_sample(pcm_sample(l, i), pcm_sample(m, i)));
        }
    }
    if mixed_pcm(out, l, m) {
        assert forall|i: int| 0 <= i < m.len() / 2 implies {
            let x = mix_sample(pcm_sample(m, i), pcm_sample(l, i));
            let u = if x < 0 { x + 65536 } else { x };
            &&& #[trigger] out[2 * i] == u % 256
            &&& out[2 * i + 1] == u / 256
        } by {
            assert(mix_sample(pcm_sample(m, i), pcm_sample(l, i)) == mix_sample(pcm_sample(l, i), pcm_sample(m, i)));
        }
    }
}

/// Mixing a buffer of whole samples with itself gives it back unchanged.
pub proof fn law_mix_with_itself(out: Seq<u8>, m: Seq<u8>)
    requires
        m.len() % 2 == 0,
        mixed_pcm(out, m, m),
    ensures
        out == m,
{
    assert forall|j: int| 0 <= j < m.len() implies out[j] == m[j] by {
        let i = j / 2;
        assert(0 <= i < m.len() / 2);
        let v = m[2 * i] + 256 * m[2 * i + 1];
        let x = pcm_sample(m, i);
        assert(mix_sample(x, x) == x);
        let u = if x < 0 { x + 65536 } else { x };
        assert(u == v);
        assert(out[2 * i] == u % 256);
        assert(out[2 * i + 1] == u / 256);
        assert(v % 256 == m[2 * i] && v / 256 == m[2 * i + 1]) by (nonlinear_arith)
            requires
                v == m[2 * i] + 256 * m[2 * i + 1],
                0 <= m[2 * i] < 256,
                0 <= m[2 * i + 1] < 256,
        ;
        if j % 2 == 0 {
            assert(j == 2 * i);
        } else {
            assert(j == 2 * i + 1);
        }
    }
    assert(out =~= m);
}

fn sample_at(b: &Vec<u8>, k: usize) -> (r: i32)
    requires
        2 * k + 1 < b@.len(),
    ensures
        r == pcm_sample(b@, k as int),
        -32768 <= r <= 32767,
{
    let n = b.len();
    assert(2 * k + 1 < n);
    let v: i32 = (b[2 * k] as i32) + 256 * (b[2 * k + 1] as i32);
    if v >= 32768 { v - 65536 } else { v }
}

/// Averages two equally long PCM buffers of an even length.
pub fn mix_pcm(m: &Vec<u8>, l: &Vec<u8>) -> (out: Vec<u8>)
    requires
        m@.len() == l@.len(),
        m@.len() % 2 == 0,
    ensures
        mixed_pcm(out@, m@, l@),
{
    let n = m.len();
    let half = n / 2;
    let mut out: Vec<u8> = Vec::new();
    let mut k: usize = 0;
    while k < half
        invariant
            half == n / 2,
            n == m@.len() == l@.len(),
            n % 2 == 0,
            k <= half,
            out@.len() == 2 * k,
            forall|i: int| 0 <= i < k ==> {
                let x = mix_sample(pcm_sample(m@, i), pcm_sample(l@, i));
                let u = if x < 0 { x + 65536 } else { x };
                &&& #[trigger] out@[2 * i] == u % 256
                &&& out@[2 * i + 1] == u / 256
            },
        decreases half - k,
    {
        let ms = sample_at(m, k);
        let ls = sample_at(l, k);
        let sum: i32 = ms + ls;
        let x: i32 = if sum >= 0 { sum / 2 } else { -((-sum) / 2) };
        let u: i32 = if x < 0 { x + 65536 } else { x };
        assert(0 <= u < 65536);
        let lo: u8 = (u % 256) as u8;
        let hi: u8 = (u / 256) as u8;
        let ghost before = out@;
        out.push(lo);
        out.push(hi);
        assert forall|i: int| 0 <= i < k + 1 implies {
            let x = mix_sample(pcm_sample(m@, i), pcm_sample(l@, i));
            let u = if x < 0 { x + 65536 } else { x };
            &&& #[trigger] out@[2 * i] == u % 256
            &&& out@[2 * i + 1] == u / 256
        } by {
            if i < k {
                assert(out@[2 * i] == before[2 * i]);
                assert(out@[2 * i + 1] == before[2 * i + 1]);
            }
        }
        k += 1;
    }
    out
}

/// Takes the next mixable pair off the two queues. With a queue empty
/// nothing happens; the earlier of two front packets is dropped; two
/// packets of the same time are taken and mixed, which needs the same
/// duration, frame count and even byte length.
pub fn try_mix_audio_packets(
    microphone_queue: &mut VecDeque<WindowsWasapiAudioPacket>,
    loopback_queue: &mut VecDeque<WindowsWasapiAudioPacket>,
) -> (r: Result<Option<WindowsWasapiAudioPacket>, crate::capture::CaptureError>)
    ensures
        old(microphone_queue)@.len() == 0 || old(loopback_queue)@.len() == 0 ==> {
            &&& r matches Ok(None)
            &&& final(microphone_queue)@ == old(microphone_queue)@
            &&& final(loopback_queue)@ == old(loopback_queue)@
        },
        old(microphone_queue)@.len() > 0 && old(loopback_queue)@.len() > 0 ==> {
            let m = old(microphone_queue)@[0];
            let l = old(loopback_queue)@[0];
            if m.sample_time_100ns < l.sample_time_100ns {
                &&& r matches Ok(None)
                &&& final(microphone_queue)@ == old(microphone_queue)@.drop_first()
                &&& final(loopback_queue)@ == old(loopback_queue)@
            } else if l.sample_time_100ns < m.sample_time_100ns {
                &&& r matches Ok(None)
                &&& final(microphone_queue)@ == old(microphone_queue)@
                &&& final(loopback_queue)@ == old(loopback_queue)@.drop_first()
            } else {
                &&& final(microphone_queue)@ == old(microphone_queue)@.drop_first()
                &&& final(loopback_queue)@ == old(loopback_queue)@.drop_first()
                &&& if m.duration_100ns != l.duration_100ns || m.frames != l.frames
                    || m.bytes@.len() != l.bytes@.len() || m.bytes@.len() % 2 != 0 {
                    r matches Err(crate::capture::CaptureError::BackendUnavailable(msg)) && msg@
                        == "Windows native mic+loopback mixing hit incompatible packet timing or PCM frame sizes."@
                } else {
                    r matches Ok(Some(p)) && p.sample_time_100ns == m.sample_time_100ns
                        && p.duration_100ns == m.duration_100ns && p.frames == m.frames
                        && mixed_pcm(p.bytes@, m.bytes@, l.bytes@)
                }
            }
        },
{
    if microphone_queue.len() == 0 || loopback_queue.len() == 0 {
        return Ok(None);
    }
    let mt = microphone_queue[0].sample_time_100ns;
    let lt = loopback_queue[0].sample_time_100ns;
    if mt < lt {
        let _ = microphone_queue.pop_front();
        return Ok(None);
    }
    if lt < mt {
        let _ = loopback_queue.pop_front();
        return Ok(None);
    }
    let m = match microphone_queue.pop_front() {
        Some(p) => p,
        None => {
            return Ok(None);
        },
    };
    let l = match loopback_queue.pop_front() {
        Some(p) => p,
        None => {
            return Ok(None);
        },
    };
    if m.duration_100ns != l.duration_100ns || m.frames != l.frames || m.bytes.len() != l.bytes.len()
        || m.bytes.len() % 2 != 0 {
        return Err(crate::capture::CaptureError::BackendUnavailable(String::from_str(
            "Windows native mic+loopback mixing hit incompatible packet timing or PCM frame sizes.")));
    }
    let bytes = mix_pcm(&m.bytes, &l.bytes);
    Ok(Some(WindowsWasapiAudioPacket {
        sample_time_100ns: m.sample_time_100ns,
        duration_100ns: m.duration_100ns,
        frames: m.frames,
        bytes,
    }))
}

/// The client format a recording's audio stream is written in: the
/// microphone's when both run (after checking they can be mixed), else
/// whichever client runs.
pub fn select_audio_foundation(microphone: Option<&WindowsWasapiClientFoundation>, loopback: Option<&WindowsWasapiClientFoundation>)
    -> (r: Result<Option<WindowsWasapiClientFoundation>, crate::capture::CaptureError>)
    ensures
        match (microphone, loopback) {
            (Some(m), Some(l)) => if m.sample_rate_hz == l.sample_rate_hz && m.channels == l.channels
                && m.bits_per_sample == l.bits_per_sample && m.bits_per_sample == 16 {
                r == Ok::<Option<WindowsWasapiClientFoundation>, crate::capture::CaptureError>(Some(*m))
            } else {
                r is Err
            },
            (Some(m), None) => r == Ok::<Option<WindowsWasapiClientFoundation>, crate::capture::CaptureError>(Some(*m)),
            (None, Some(l)) => r == Ok::<Option<WindowsWasapiClientFoundation>, crate::capture::CaptureError>(Some(*l)),
            (None, None) => r == Ok::<Option<WindowsWasapiClientFoundation>, crate::capture::CaptureError>(None),
        },
{
    match (microphone, loopback) {
        (Some(m), Some(l)) => {
            match ensure_mix_compatible_foundations(m, l) {
                Err(e) => Err(e),
                Ok(()) => Ok(Some(copy_foundation(m))),
            }
        },
        (Some(m), None) => Ok(Some(copy_foundation(m))),
        (None, Some(l)) => Ok(Some(copy_foundation(l))),
        (None, None) => Ok(None),
    }
}

fn copy_foundation(f: &WindowsWasapiClientFoundation) -> (r: WindowsWasapiClientFoundation)
    ensures
        r == *f,
{
    WindowsWasapiClientFoundation {
        endpoint_role: f.endpoint_role.clone(),
        endpoint_id: f.endpoint_id.clone(),
        loopback: f.loopback,
        channels: f.channels,
        sample_rate_hz: f.sample_rate_hz,
        bits_per_sample: f.bits_per_sample,
        buffer_frames: f.buffer_frames,
        default_device_period_100ns: f.default_device_period_100ns,
    }
}

/// What a failed worker start reports (`role` is `microphone` or `loopback`).
pub fn worker_start_error(role: &str, error: &str) -> (e: crate::capture::CaptureError)
    ensures
        e matches crate::capture::CaptureError::BackendUnavailable(m)
            && m@ == "Windows WASAPI "@ + role@ + " worker could not start: "@ + error@,
{
    let mut m = String::from_str("Windows WASAPI ");
    push_str(&mut m, role);
    push_str(&mut m, " worker could not start: ");
    push_str(&mut m, error);
    crate::capture::CaptureError::BackendUnavailable(m)
}

/// The silent packet that keeps the audio stream from staying empty: at
/// least a buffer's worth and a twentieth of a second of frames, zeroed.
pub fn silent_audio_packet(foundation: &WindowsWasapiClientFoundation) -> (p: WindowsWasapiAudioPacket)
    ensures
        ({
            let f = foundation;
            let a: int = if f.buffer_frames >= f.sample_rate_hz / 20 { f.buffer_frames as int } else { (f.sample_rate_hz / 20) as int };
            let frames: int = if a < 1 { 1 } else { a };
            let rate: int = if f.sample_rate_hz < 1 { 1 } else { f.sample_rate_hz as int };
            &&& p.sample_time_100ns == 0
            &&& p.frames == frames
            &&& p.duration_100ns == frames * 10_000_000 / rate
            &&& p.bytes@.len() == (if frames * bytes_per_frame_spec(f.channels, f.bits_per_sample) > u32::MAX { u32::MAX as int }
                else { frames * bytes_per_frame_spec(f.channels, f.bits_per_sample) })
            &&& forall|i: int| 0 <= i < p.bytes@.len() ==> p.bytes@[i] == 0
        }),
{
    let twentieth = foundation.sample_rate_hz / 20;
    let a: u32 = if foundation.buffer_frames >= twentieth { foundation.buffer_frames } else { twentieth };
    let frames: u32 = if a < 1 { 1 } else { a };
    let rate: u64 = if foundation.sample_rate_hz < 1 { 1 } else { foundation.sample_rate_hz as u64 };
    let bpf = bytes_per_frame(foundation.channels, foundation.bits_per_sample);
    let len: u32 = match frames.checked_mul(bpf) {
        Some(v) => v,
        None => u32::MAX,
    };
    let mut bytes: Vec<u8> = Vec::new();
    let mut i: u32 = 0;
    while i < len
        invariant
            i <= len,
            bytes@.len() == i,
            forall|j: int| 0 <= j < i ==> bytes@[j] == 0,
        decreases len - i,
    {
        bytes.push(0);
        i += 1;
    }
    WindowsWasapiAudioPacket {
        sample_time_100ns: 0,
        duration_100ns: ((frames as u64) * 10_000_000 / rate) as i64,
        frames,
        bytes,
    }
}

/// Which queues a flush drains: both, mixed, with microphone and system
/// audio; the one that runs otherwise.
#[derive(Debug, Clone, Copy, PartialEq, Eq, Structural)]
pub enum AudioFlushMode {
    Mixed,
    MicrophoneOnly,
    LoopbackOnly,
    Nothing,
}

pub fn audio_flush_mode(microphone_enabled: bool, system_audio_enabled: bool) -> (r: AudioFlushMode)
    ensures
        r == (match (microphone_enabled, system_audio_enabled) {
            (true, true) => AudioFlushMode::Mixed,
            (true, false) => AudioFlushMode::MicrophoneOnly,
            (false, true) => AudioFlushMode::LoopbackOnly,
            (false, false) => AudioFlushMode::Nothing,
        }),
{
    match (microphone_enabled, system_audio_enabled) {
        (true, true) => AudioFlushMode::Mixed,
        (true, false) => AudioFlushMode::MicrophoneOnly,
        (false, true) => AudioFlushMode::LoopbackOnly,
        (false, false) => AudioFlushMode::Nothing,
    }
}

} // verus!
