//! Linux audio discovery through PulseAudio (`pactl`) and PipeWire
//! (`wpctl`): reading their listings, choosing sources, and what the
//! launcher is told.
use vstd::prelude::*;
use vstd::string::*;
use crate::capture::{audio_reason, copy_input, input_views, opt_sview, AudioBackendAvailability, AudioBackendDescriptor,
    AudioBackendRuntimeReport, AudioInputKind, AudioInputOption, AudioInputView};
use crate::linux::{session_view, LinuxDesktopSession, SessionView};
use crate::text::{chars_of, dec, find, find_from, has_prefix, has_suffix, join, lemma_find_from, lines, occurs_at,
    parse_u32, parse_u32_spec, push_dec, push_str, slice_chars, split_lines, starts_with, ends_with, string_of,
    string_views, trim, trim_chars, trim_start, skip_ws, views, str_eq};

verus! {

// ---------------------------------------------------------------------------
// pactl

/// Index of the first line at or after `i` that starts with `p`, or -1.
pub open spec fn first_line_with_prefix(ls: Seq<Seq<char>>, p: Seq<char>, i: int) -> int
    decreases ls.len() - i,
{
    if i < 0 || i >= ls.len() {
        -1
    } else if has_prefix(ls[i], p) {
        i
    } else {
        first_line_with_prefix(ls, p, i + 1)
    }
}

proof fn lemma_first_line_with_prefix(ls: Seq<Seq<char>>, p: Seq<char>, i: int)
    requires
        0 <= i,
    ensures
        first_line_with_prefix(ls, p, i) == -1 || (i <= first_line_with_prefix(ls, p, i) < ls.len()
            && has_prefix(ls[first_line_with_prefix(ls, p, i)], p)),
    decreases ls.len() - i,
{
    if i < ls.len() && !has_prefix(ls[i], p) {
        lemma_first_line_with_prefix(ls, p, i + 1);
    }
}

/// The server name in `pactl info` output: the trimmed rest of the first
/// `Server Name:` line, `None` when missing or blank.
pub open spec fn pactl_server_name(out: Seq<char>) -> Option<Seq<char>> {
    let ls = lines(out);
    let k = first_line_with_prefix(ls, "Server Name:"@, 0);
    if k == -1 {
        None
    } else {
        let v = trim(ls[k].subrange("Server Name:"@.len() as int, ls[k].len() as int));
        if v.len() == 0 { None } else { Some(v) }
    }
}

fn first_prefixed(ls: &Vec<Vec<char>>, p: &[char]) -> (k: Option<usize>)
    ensures
        match k {
            Some(k) => k as int == first_line_with_prefix(views(ls@), p@, 0) && k < ls@.len(),
            None => first_line_with_prefix(views(ls@), p@, 0) == -1,
        },
{
    let ghost all = views(ls@);
    let mut i: usize = 0;
    while i < ls.len()
        invariant
            i <= ls@.len(),
            all == views(ls@),
            first_line_with_prefix(all, p@, 0) == first_line_with_prefix(all, p@, i as int),
        decreases ls@.len() - i,
    {
        assert(all[i as int] == ls@[i as int]@);
        if starts_with(&ls[i], p) {
            return Some(i);
        }
        i += 1;
    }
    None
}

pub fn parse_pactl_server_name(stdout: &str) -> (r: Option<String>)
    ensures
        opt_sview(r) == pactl_server_name(stdout@),
{
    let ls = split_lines(&chars_of(stdout));
    let p = chars_of("Server Name:");
    match first_prefixed(&ls, &p) {
        None => None,
        Some(k) => {
            proof { lemma_first_line_with_prefix(views(ls@), p@, 0); }
            assert(views(ls@)[k as int] == ls@[k as int]@);
            let line = &ls[k];
            assert(occurs_at(line@, p@, 0));
            let rest = slice_chars(line, p.len(), line.len());
            let v = trim_chars(&rest);
            if v.len() == 0 { None } else { Some(string_of(&v)) }
        },
    }
}

/// The name column of a `pactl list short` line: the trimmed text
/// between the first and the second tab; `None` without a tab or when blank.
pub open spec fn short_name(line: Seq<char>) -> Option<Seq<char>> {
    let t1 = find_from(line, seq!['\t'], 0);
    if t1 == -1 {
        None
    } else {
        let t2 = find_from(line, seq!['\t'], t1 + 1);
        let n = trim(line.subrange(t1 + 1, if t2 == -1 { line.len() as int } else { t2 }));
        if n.len() == 0 { None } else { Some(n) }
    }
}

pub open spec fn short_names_from(ls: Seq<Seq<char>>, i: int) -> Seq<Seq<char>>
    decreases ls.len() - i,
{
    if i < 0 || i >= ls.len() {
        seq![]
    } else {
        match short_name(ls[i]) {
            Some(n) => seq![n] + short_names_from(ls, i + 1),
            None => short_names_from(ls, i + 1),
        }
    }
}

fn short_name_of(line: &[char]) -> (r: Option<Vec<char>>)
    ensures
        match r {
            Some(v) => short_name(line@) == Some(v@),
            None => short_name(line@) is None,
        },
{
    let tab: Vec<char> = vec!['\t'];
    assert(tab@ == seq!['\t']);
    let n = line.len();
    proof { lemma_find_from(line@, tab@, 0); }
    match find(line, &tab, 0) {
        None => None,
        Some(t1) => {
            assert(occurs_at(line@, tab@, t1 as int));
            proof { lemma_find_from(line@, tab@, t1 + 1); }
            let end = match find(line, &tab, t1 + 1) {
                Some(t2) => t2,
                None => n,
            };
            let col = slice_chars(line, t1 + 1, end);
            let v = trim_chars(&col);
            if v.len() == 0 { None } else { Some(v) }
        },
    }
}

/// The names listed by `pactl list short sources` (or `sinks`).
pub fn parse_pactl_short_names(stdout: &str) -> (r: Vec<String>)
    ensures
        string_views(r@) == short_names_from(lines(stdout@), 0),
{
    let ls = split_lines(&chars_of(stdout));
    let ghost all = views(ls@);
    let mut r: Vec<String> = Vec::new();
    let mut i: usize = 0;
    while i < ls.len()
        invariant
            i <= ls@.len(),
            all == views(ls@),
            all == lines(stdout@),
            string_views(r@) + short_names_from(all, i as int) == short_names_from(all, 0),
        decreases ls@.len() - i,
    {
        assert(all[i as int] == ls@[i as int]@);
        let ghost before = string_views(r@);
        match short_name_of(&ls[i]) {
            Some(v) => {
                let s = string_of(&v);
                r.push(s);
                assert(string_views(r@) == before.push(s@));
                assert(before.push(s@) + short_names_from(all, i + 1) == before + (seq![s@] + short_names_from(all, i + 1)));
            },
            None => {},
        }
        i += 1;
    }
    assert(short_names_from(all, i as int) == Seq::<Seq<char>>::empty());
    assert(string_views(r@) + Seq::<Seq<char>>::empty() == string_views(r@));
    r
}

// ---------------------------------------------------------------------------
// wpctl

/// Index of the first line at or after `i` whose trimmed text starts with `p`.
pub open spec fn first_trimmed_with_prefix(ls: Seq<Seq<char>>, p: Seq<char>, i: int) -> int
    decreases ls.len() - i,
{
    if i < 0 || i >= ls.len() {
        -1
    } else if has_prefix(trim(ls[i]), p) {
        i
    } else {
        first_trimmed_with_prefix(ls, p, i + 1)
    }
}

/// The server line of `wpctl status`: the first trimmed line that starts
/// with `PipeWire `.
pub open spec fn wpctl_server_name(out: Seq<char>) -> Option<Seq<char>> {
    let ls = lines(out);
    let k = first_trimmed_with_prefix(ls, "PipeWire "@, 0);
    if k == -1 { None } else { Some(trim(ls[k])) }
}

pub fn parse_wpctl_server_name(stdout: &str) -> (r: Option<String>)
    ensures
        opt_sview(r) == wpctl_server_name(stdout@),
{
    let ls = split_lines(&chars_of(stdout));
    let ghost all = views(ls@);
    let p = chars_of("PipeWire ");
    let mut i: usize = 0;
    while i < ls.len()
        invariant
            i <= ls@.len(),
            all == views(ls@),
            all == lines(stdout@),
            p@ == "PipeWire "@,
            first_trimmed_with_prefix(all, p@, 0) == first_trimmed_with_prefix(all, p@, i as int),
        decreases ls@.len() - i,
    {
        assert(all[i as int] == ls@[i as int]@);
        let t = trim_chars(&ls[i]);
        if starts_with(&t, &p) {
            return Some(string_of(&t));
        }
        i += 1;
    }
    None
}

/// The node name a `wpctl inspect` listing gives: the quoted value of the
/// first `* node.name = "..."` line.
pub open spec fn node_name_from(ls: Seq<Seq<char>>, i: int) -> Option<Seq<char>>
    decreases ls.len() - i,
{
    if i < 0 || i >= ls.len() {
        None
    } else {
        let t = trim(ls[i]);
        let p = "* node.name = \""@;
        if has_prefix(t, p) && t.len() > p.len() && t.last() == '"' {
            Some(t.subrange(p.len() as int, t.len() - 1))
        } else {
            node_name_from(ls, i + 1)
        }
    }
}

pub fn parse_wpctl_node_name(stdout: &str) -> (r: Option<String>)
    ensures
        opt_sview(r) == node_name_from(lines(stdout@), 0),
{
    let ls = split_lines(&chars_of(stdout));
    let ghost all = views(ls@);
    let p = chars_of("* node.name = \"");
    let mut i: usize = 0;
    while i < ls.len()
        invariant
            i <= ls@.len(),
            all == views(ls@),
            all == lines(stdout@),
            p@ == "* node.name = \""@,
            node_name_from(all, 0) == node_name_from(all, i as int),
        decreases ls@.len() - i,
    {
        assert(all[i as int] == ls@[i as int]@);
        let t = trim_chars(&ls[i]);
        if starts_with(&t, &p) && t.len() > p.len() && t[t.len() - 1] == '"' {
            return Some(string_of(&slice_chars(&t, p.len(), t.len() - 1)));
        }
        i += 1;
    }
    None
}

/// One node of a `wpctl status` section.
#[derive(Debug, Clone, PartialEq, Eq)]
pub struct WpctlEntry {
    pub id: u32,
    pub label: String,
}

pub struct WpctlEntryView {
    pub id: u32,
    pub label: Seq<char>,
}

pub open spec fn entry_views(v: Seq<WpctlEntry>) -> Seq<WpctlEntryView> {
    v.map_values(|e: WpctlEntry| WpctlEntryView { id: e.id, label: e.label@ })
}

/// The tree and default markers that lead a `wpctl status` line.
pub open spec fn is_marker(c: char) -> bool {
    c == '│' || c == '*' || c == ' '
}

pub open spec fn skip_markers(s: Seq<char>) -> Seq<char>
    decreases s.len(),
{
    if s.len() > 0 && is_marker(s[0]) {
        skip_markers(s.subrange(1, s.len() as int))
    } else {
        s
    }
}

/// The entry a section line describes: `<id>. <label>  [...]`.
pub open spec fn wpctl_entry_of(t: Seq<char>) -> Option<WpctlEntryView> {
    let c = trim_start(skip_markers(t));
    let d = find_from(c, seq!['.'], 0);
    if d == -1 {
        None
    } else {
        match parse_u32_spec(trim(c.subrange(0, d))) {
            None => None,
            Some(id) => {
                let rest = c.subrange(d + 1, c.len() as int);
                let b = find_from(rest, "  ["@, 0);
                let label = trim(if b == -1 { rest } else { rest.subrange(0, b) });
                if label.len() == 0 { None } else { Some(WpctlEntryView { id, label }) }
            },
        }
    }
}

/// The entries of section `header` (such as `Sinks:`) under `Audio` in a
/// `wpctl status` listing, from line `i` on.
pub open spec fn wpctl_entries_from(ls: Seq<Seq<char>>, header: Seq<char>, i: int, in_audio: bool, in_section: bool) -> Seq<WpctlEntryView>
    decreases ls.len() - i,
{
    if i < 0 || i >= ls.len() {
        seq![]
    } else {
        let t = trim(ls[i]);
        if t == "Audio"@ {
            wpctl_entries_from(ls, header, i + 1, true, false)
        } else if !in_audio {
            wpctl_entries_from(ls, header, i + 1, in_audio, in_section)
        } else if t == "Video"@ || t == "Settings"@ {
            seq![]
        } else if has_suffix(t, header) {
            wpctl_entries_from(ls, header, i + 1, in_audio, true)
        } else if has_suffix(t, ":"@) {
            wpctl_entries_from(ls, header, i + 1, in_audio, false)
        } else if !in_section {
            wpctl_entries_from(ls, header, i + 1, in_audio, in_section)
        } else {
            match wpctl_entry_of(t) {
                Some(e) => seq![e] + wpctl_entries_from(ls, header, i + 1, in_audio, in_section),
                None => wpctl_entries_from(ls, header, i + 1, in_audio, in_section),
            }
        }
    }
}

fn skip_marker_chars(s: &[char]) -> (lo: usize)
    ensures
        lo <= s@.len(),
        skip_markers(s@) == s@.subrange(lo as int, s@.len() as int),
{
    let mut lo: usize = 0;
    assert(s@.subrange(0, s@.len() as int) == s@);
    while lo < s.len() && (s[lo] == '│' || s[lo] == '*' || s[lo] == ' ')
        invariant
            lo <= s@.len(),
            skip_markers(s@) == skip_markers(s@.subrange(lo as int, s@.len() as int)),
        decreases s@.len() - lo,
    {
        assert(s@.subrange(lo as int, s@.len() as int).subrange(1, s@.len() - lo) == s@.subrange(lo + 1, s@.len() as int));
        lo += 1;
    }
    lo
}

fn wpctl_entry_from_line(t: &[char]) -> (r: Option<WpctlEntry>)
    ensures
        match r {
            Some(e) => wpctl_entry_of(t@) == Some(WpctlEntryView { id: e.id, label: e.label@ }),
            None => wpctl_entry_of(t@) is None,
        },
{
    let lo = skip_marker_chars(t);
    let n = t.len();
    let lo2 = skip_ws(t, lo);
    let c = slice_chars(t, lo2, n);
    assert(c@ == trim_start(skip_markers(t@)));
    let dot: Vec<char> = vec!['.'];
    assert(dot@ == seq!['.']);
    proof { lemma_find_from(c@, dot@, 0); }
    let cn = c.len();
    match find(&c, &dot, 0) {
        None => None,
        Some(d) => {
            assert(occurs_at(c@, dot@, d as int));
            let id_text = trim_chars(&slice_chars(&c, 0, d));
            match parse_u32(&id_text) {
                None => None,
                Some(id) => {
                    let rest = slice_chars(&c, d + 1, cn);
                    let br = chars_of("  [");
                    proof { lemma_find_from(rest@, br@, 0); }
                    let rn = rest.len();
                    let body = match find(&rest, &br, 0) {
                        Some(b) => slice_chars(&rest, 0, b),
                        None => slice_chars(&rest, 0, rn),
                    };
                    assert(rest@.subrange(0, rest@.len() as int) == rest@);
                    let label = trim_chars(&body);
                    if label.len() == 0 {
                        None
                    } else {
                        Some(WpctlEntry { id, label: string_of(&label) })
                    }
                },
            }
        },
    }
}

fn chars_eq(a: &[char], b: &str) -> (r: bool)
    ensures
        r == (a@ == b@),
{
    let bc = chars_of(b);
    if a.len() != bc.len() {
        return false;
    }
    let mut i: usize = 0;
    while i < a.len()
        invariant
            i <= a@.len(),
            a@.len() == bc@.len(),
            bc@ == b@,
            a@.subrange(0, i as int) == bc@.subrange(0, i as int),
        decreases a@.len() - i,
    {
        if a[i] != bc[i] {
            return false;
        }
        assert(a@.subrange(0, i + 1) == a@.subrange(0, i as int).push(a@[i as int]));
        assert(bc@.subrange(0, i + 1) == bc@.subrange(0, i as int).push(bc@[i as int]));
        i += 1;
    }
    assert(a@ == a@.subrange(0, a@.len() as int));
    assert(bc@ == bc@.subrange(0, bc@.len() as int));
    true
}

/// The entries of one section (`Sinks:` or `Sources:`) of the `Audio`
/// part of a `wpctl status` listing.
pub fn parse_wpctl_status_entries(stdout: &str, section_header: &str) -> (r: Vec<WpctlEntry>)
    ensures
        entry_views(r@) == wpctl_entries_from(lines(stdout@), section_header@, 0, false, false),
{
    let ls = split_lines(&chars_of(stdout));
    let header = chars_of(section_header);
    let colon = chars_of(":");
    let ghost all = views(ls@);
    let mut in_audio = false;
    let mut in_section = false;
    let mut r: Vec<WpctlEntry> = Vec::new();
    let mut i: usize = 0;
    while i < ls.len()
        invariant
            i <= ls@.len(),
            all == views(ls@),
            all == lines(stdout@),
            header@ == section_header@,
            colon@ == ":"@,
            entry_views(r@) + wpctl_entries_from(all, header@, i as int, in_audio, in_section)
                == wpctl_entries_from(all, header@, 0, false, false),
        decreases ls@.len() - i,
    {
        assert(all[i as int] == ls@[i as int]@);
        let t = trim_chars(&ls[i]);
        let ghost before = entry_views(r@);
        if chars_eq(&t, "Audio") {
            in_audio = true;
            in_section = false;
        } else if !in_audio {
        } else if chars_eq(&t, "Video") || chars_eq(&t, "Settings") {
            assert(wpctl_entries_from(all, header@, i as int, in_audio, in_section) == Seq::<WpctlEntryView>::empty());
            assert(entry_views(r@) + Seq::<WpctlEntryView>::empty() == entry_views(r@));
            return r;
        } else if ends_with(&t, &header) {
            in_section = true;
        } else if ends_with(&t, &colon) {
            in_section = false;
        } else if !in_section {
        } else {
            match wpctl_entry_from_line(&t) {
                Some(e) => {
                    let ghost ev = WpctlEntryView { id: e.id, label: e.label@ };
                    r.push(e);
                    assert(entry_views(r@) == before.push(ev));
                    assert(before.push(ev) + wpctl_entries_from(all, header@, i + 1, in_audio, in_section)
                        == before + (seq![ev] + wpctl_entries_from(all, header@, i + 1, in_audio, in_section)));
                },
                None => {},
            }
        }
        i += 1;
    }
    assert(wpctl_entries_from(all, header@, i as int, in_audio, in_section) == Seq::<WpctlEntryView>::empty());
    assert(entry_views(r@) + Seq::<WpctlEntryView>::empty() == entry_views(r@));
    r
}

// ---------------------------------------------------------------------------
// Decisions

pub open spec fn audio_availability_spec(s: SessionView, has_runtime: bool) -> Option<Seq<char>> {
    match s {
        SessionView::Headless => Some("A desktop session is required before the Linux native audio lane can be probed."@),
        _ => if has_runtime {
            None
        } else {
            Some("Linux native audio could not discover a usable PipeWire/PulseAudio runtime."@)
        },
    }
}

/// Whether the audio lane can run: a desktop session and a discovered
/// PipeWire/PulseAudio runtime.
pub fn availability_for(session: &LinuxDesktopSession, has_runtime: bool) -> (a: AudioBackendAvailability)
    ensures
        audio_reason(a) == audio_availability_spec(session_view(*session), has_runtime),
{
    match session {
        LinuxDesktopSession::Headless => AudioBackendAvailability::Unavailable {
            reason: String::from_str("A desktop session is required before the Linux native audio lane can be probed."),
        },
        _ => if has_runtime {
            AudioBackendAvailability::Available
        } else {
            AudioBackendAvailability::Unavailable {
                reason: String::from_str("Linux native audio could not discover a usable PipeWire/PulseAudio runtime."),
            }
        },
    }
}

/// What Linux audio discovery found.
#[derive(Debug, Clone, PartialEq, Eq)]
pub struct LinuxAudioRuntimeReport {
    pub server_name: Option<String>,
    pub sources: Vec<String>,
    pub sinks: Vec<String>,
}

pub open spec fn is_monitor(s: Seq<char>) -> bool {
    has_suffix(s, ".monitor"@)
}

/// Index of the first name at or after `i` that is (or, with
/// `monitor == false`, is not) a monitor source, or -1.
pub open spec fn first_source(v: Seq<Seq<char>>, monitor: bool, i: int) -> int
    decreases v.len() - i,
{
    if i < 0 || i >= v.len() {
        -1
    } else if is_monitor(v[i]) == monitor {
        i
    } else {
        first_source(v, monitor, i + 1)
    }
}

proof fn lemma_first_source(v: Seq<Seq<char>>, monitor: bool, i: int)
    requires
        0 <= i,
    ensures
        -1 == first_source(v, monitor, i) || (i <= first_source(v, monitor, i) < v.len()),
    decreases v.len() - i,
{
    if i < v.len() && is_monitor(v[i]) != monitor {
        lemma_first_source(v, monitor, i + 1);
    }
}

/// The input source to prefer: the first that is not a monitor, else the first.
pub open spec fn preferred_input_spec(sources: Seq<Seq<char>>) -> Option<Seq<char>> {
    let k = first_source(sources, false, 0);
    if k != -1 { Some(sources[k]) } else if sources.len() > 0 { Some(sources[0]) } else { None }
}

/// The monitor source to prefer: the first monitor.
pub open spec fn preferred_monitor_spec(sources: Seq<Seq<char>>) -> Option<Seq<char>> {
    let k = first_source(sources, true, 0);
    if k != -1 { Some(sources[k]) } else { None }
}

fn first_source_index(v: &Vec<String>, monitor: bool) -> (k: Option<usize>)
    ensures
        match k {
            Some(k) => k as int == first_source(string_views(v@), monitor, 0) && k < v@.len(),
            None => first_source(string_views(v@), monitor, 0) == -1,
        },
{
    let ghost all = string_views(v@);
    let suffix = chars_of(".monitor");
    let mut i: usize = 0;
    while i < v.len()
        invariant
            i <= v@.len(),
            all == string_views(v@),
            suffix@ == ".monitor"@,
            first_source(all, monitor, 0) == first_source(all, monitor, i as int),
        decreases v@.len() - i,
    {
        assert(all[i as int] == v@[i as int]@);
        if ends_with(&chars_of(v[i].as_str()), &suffix) == monitor {
            return Some(i);
        }
        i += 1;
    }
    None
}

/// The input source discovery prefers, if any.
pub fn preferred_input_source_name(report: Option<&LinuxAudioRuntimeReport>) -> (r: Option<String>)
    ensures
        opt_sview(r) == match report {
            Some(rep) => preferred_input_spec(string_views(rep.sources@)),
            None => None,
        },
{
    match report {
        None => None,
        Some(rep) => match first_source_index(&rep.sources, false) {
            Some(k) => {
                assert(string_views(rep.sources@)[k as int] == rep.sources@[k as int]@);
                Some(rep.sources[k].clone())
            },
            None => if rep.sources.len() > 0 {
                assert(string_views(rep.sources@)[0] == rep.sources@[0]@);
                Some(rep.sources[0].clone())
            } else {
                None
            },
        },
    }
}

/// The monitor source discovery prefers, if any.
pub fn preferred_monitor_source_name(report: Option<&LinuxAudioRuntimeReport>) -> (r: Option<String>)
    ensures
        opt_sview(r) == match report {
            Some(rep) => preferred_monitor_spec(string_views(rep.sources@)),
            None => None,
        },
{
    match report {
        None => None,
        Some(rep) => match first_source_index(&rep.sources, true) {
            Some(k) => {
                assert(string_views(rep.sources@)[k as int] == rep.sources@[k as int]@);
                Some(rep.sources[k].clone())
            },
            None => None,
        },
    }
}

pub open spec fn plural(n: nat) -> Seq<char> {
    if n == 1 { seq![] } else { "s"@ }
}

pub open spec fn runtime_parts(server: Option<Seq<char>>, sources: Seq<Seq<char>>, sinks: Seq<Seq<char>>) -> Seq<Seq<char>> {
    (match server {
        Some(n) => seq!["Linux audio server reports `"@ + n + "`"@],
        None => seq![],
    }) + seq![dec(sources.len()) + " source"@ + plural(sources.len()) + " and "@ + dec(sinks.len()) + " sink"@
        + plural(sinks.len()) + " detected"@]
        + (match preferred_input_spec(sources) {
            Some(i) => seq!["preferred input source `"@ + i + "`"@],
            None => seq![],
        })
        + (match preferred_monitor_spec(sources) {
            Some(m) => seq!["preferred monitor source `"@ + m + "`"@],
            None => seq![],
        })
}

/// The discovery summary: server, counts and preferred sources.
pub open spec fn runtime_summary_spec(report: Option<LinuxAudioRuntimeReport>) -> Option<Seq<char>> {
    match report {
        None => None,
        Some(r) => Some(join(runtime_parts(opt_sview(r.server_name), string_views(r.sources@), string_views(r.sinks@)), ", "@)),
    }
}

fn push_quoted(parts: &mut Vec<String>, prefix: &str, value: &str)
    ensures
        string_views(final(parts)@) == string_views(old(parts)@).push(prefix@ + value@ + "`"@),
{
    let mut p = String::from_str(prefix);
    push_str(&mut p, value);
    push_str(&mut p, "`");
    parts.push(p);
    assert(string_views(parts@) == string_views(old(parts)@).push(p@));
}

fn push_plural(s: &mut String, n: usize)
    ensures
        final(s)@ == old(s)@ + plural(n as nat),
{
    if n != 1 {
        push_str(s, "s");
    }
}

/// What the launcher is told about Linux audio discovery.
pub fn runtime_summary(report: Option<&LinuxAudioRuntimeReport>) -> (r: Option<String>)
    ensures
        opt_sview(r) == match report {
            Some(rep) => runtime_summary_spec(Some(*rep)),
            None => None,
        },
{
    let rep = match report {
        None => {
            return None;
        },
        Some(rep) => rep,
    };
    let mut parts: Vec<String> = Vec::new();
    match &rep.server_name {
        Some(n) => push_quoted(&mut parts, "Linux audio server reports `", n.as_str()),
        None => {},
    }
    let mut counts = String::new();
    push_dec(&mut counts, rep.sources.len() as u64);
    push_str(&mut counts, " source");
    push_plural(&mut counts, rep.sources.len());
    push_str(&mut counts, " and ");
    push_dec(&mut counts, rep.sinks.len() as u64);
    push_str(&mut counts, " sink");
    push_plural(&mut counts, rep.sinks.len());
    push_str(&mut counts, " detected");
    let ghost before = string_views(parts@);
    parts.push(counts);
    assert(string_views(parts@) == before.push(counts@));
    match preferred_input_source_name(Some(rep)) {
        Some(i) => push_quoted(&mut parts, "preferred input source `", i.as_str()),
        None => {},
    }
    match preferred_monitor_source_name(Some(rep)) {
        Some(m) => push_quoted(&mut parts, "preferred monitor source `", m.as_str()),
        None => {},
    }
    assert(string_views(parts@) == runtime_parts(opt_sview(rep.server_name), string_views(rep.sources@), string_views(rep.sinks@)));
    Some(crate::text::join_strings(&parts, ", "))
}

/// The PipeWire lane's summary (see `runtime_summary`).
pub fn pipewire_runtime_summary(report: Option<&LinuxAudioRuntimeReport>) -> (r: Option<String>)
    ensures
        opt_sview(r) == match report {
            Some(rep) => runtime_summary_spec(Some(*rep)),
            None => None,
        },
{
    runtime_summary(report)
}

/// `str::trim_end_matches` with a non-empty pattern.
pub open spec fn strip_suffix_all(s: Seq<char>, p: Seq<char>) -> Seq<char>
    decreases s.len(),
{
    if p.len() > 0 && p.len() <= s.len() && has_suffix(s, p) {
        strip_suffix_all(s.subrange(0, s.len() - p.len()), p)
    } else {
        s
    }
}

fn strip_suffix_all_chars(s: &[char], p: &[char]) -> (r: Vec<char>)
    ensures
        r@ == strip_suffix_all(s@, p@),
{
    let mut hi = s.len();
    let pn = p.len();
    assert(s@.subrange(0, hi as int) == s@);
    while pn > 0 && pn <= hi && ends_with(&slice_chars(s, 0, hi), p)
        invariant
            hi <= s@.len(),
            pn == p@.len(),
            strip_suffix_all(s@, p@) == strip_suffix_all(s@.subrange(0, hi as int), p@),
        decreases hi,
    {
        assert(s@.subrange(0, hi as int).subrange(0, hi - pn) == s@.subrange(0, hi - pn));
        hi = hi - pn;
    }
    slice_chars(s, 0, hi)
}

pub open spec fn kind_ids(inputs: Seq<AudioInputView>, kind: AudioInputKind, strip: bool, i: int) -> Seq<Seq<char>>
    decreases inputs.len() - i,
{
    if i < 0 || i >= inputs.len() {
        seq![]
    } else if inputs[i].kind == kind {
        seq![if strip { strip_suffix_all(inputs[i].id, ".monitor"@) } else { inputs[i].id }]
            + kind_ids(inputs, kind, strip, i + 1)
    } else {
        kind_ids(inputs, kind, strip, i + 1)
    }
}

fn ids_of_kind(inputs: &Vec<AudioInputOption>, kind: AudioInputKind, strip: bool) -> (r: Vec<String>)
    ensures
        string_views(r@) == kind_ids(input_views(inputs@), kind, strip, 0),
{
    let ghost all = input_views(inputs@);
    let suffix = chars_of(".monitor");
    let mut r: Vec<String> = Vec::new();
    let mut i: usize = 0;
    while i < inputs.len()
        invariant
            i <= inputs@.len(),
            all == input_views(inputs@),
            suffix@ == ".monitor"@,
            string_views(r@) + kind_ids(all, kind, strip, i as int) == kind_ids(all, kind, strip, 0),
        decreases inputs@.len() - i,
    {
        assert(all[i as int] == inputs@[i as int]@);
        if inputs[i].kind == kind {
            let id = if strip {
                string_of(&strip_suffix_all_chars(&chars_of(inputs[i].id.as_str()), &suffix))
            } else {
                inputs[i].id.clone()
            };
            let ghost before = string_views(r@);
            r.push(id);
            assert(string_views(r@) == before.push(id@));
            assert(before.push(id@) + kind_ids(all, kind, strip, i + 1) == before + (seq![id@] + kind_ids(all, kind, strip, i + 1)));
        }
        i += 1;
    }
    assert(string_views(r@) + Seq::<Seq<char>>::empty() == string_views(r@));
    r
}

/// The discovery report from what the tools gave: the server name
/// (pactl's, else wpctl's), pactl's source and sink names, and, when pactl
/// listed nothing, the inputs wpctl found (sinks by their monitor source,
/// with the `.monitor` suffix removed). `None` when nothing at all was
/// found and wpctl does not run.
pub fn runtime_report(
    pactl_server: Option<String>,
    wpctl_server: Option<String>,
    pactl_sources: Vec<String>,
    pactl_sinks: Vec<String>,
    wpctl_inputs: &Vec<AudioInputOption>,
    wpctl_available: bool,
) -> (r: Option<LinuxAudioRuntimeReport>)
    ensures
        ({
            let server = if pactl_server is Some { opt_sview(pactl_server) } else { opt_sview(wpctl_server) };
            let from_pactl = pactl_sources@.len() > 0 || pactl_sinks@.len() > 0;
            let sources = if from_pactl { string_views(pactl_sources@) } else { kind_ids(input_views(wpctl_inputs@), AudioInputKind::Microphone, false, 0) };
            let sinks = if from_pactl { string_views(pactl_sinks@) } else { kind_ids(input_views(wpctl_inputs@), AudioInputKind::System, true, 0) };
            match r {
                Some(rep) => opt_sview(rep.server_name) == server && string_views(rep.sources@) == sources
                    && string_views(rep.sinks@) == sinks
                    && !(server is None && sources.len() == 0 && sinks.len() == 0 && !wpctl_available),
                None => server is None && sources.len() == 0 && sinks.len() == 0 && !wpctl_available,
            }
        }),
{
    let server_name = match pactl_server {
        Some(n) => Some(n),
        None => wpctl_server,
    };
    let from_pactl = pactl_sources.len() > 0 || pactl_sinks.len() > 0;
    let (sources, sinks) = if from_pactl {
        (pactl_sources, pactl_sinks)
    } else {
        (ids_of_kind(wpctl_inputs, AudioInputKind::Microphone, false), ids_of_kind(wpctl_inputs, AudioInputKind::System, true))
    };
    if server_name.is_none() && sources.len() == 0 && sinks.len() == 0 && !wpctl_available {
        return None;
    }
    Some(LinuxAudioRuntimeReport { server_name, sources, sinks })
}

/// The input a PulseAudio source name stands for: monitors are system audio.
pub open spec fn pactl_input_view(name: Seq<char>) -> AudioInputView {
    if is_monitor(name) {
        AudioInputView { id: name, label: "System audio · "@ + name,
            description: "PulseAudio/PipeWire monitor source: "@ + name, kind: AudioInputKind::System }
    } else {
        AudioInputView { id: name, label: name, description: "PulseAudio source: "@ + name,
            kind: AudioInputKind::Microphone }
    }
}

fn pactl_input(name: &String) -> (o: AudioInputOption)
    ensures
        o@ == pactl_input_view(name@),
{
    let suffix = chars_of(".monitor");
    if ends_with(&chars_of(name.as_str()), &suffix) {
        let mut label = String::from_str("System audio · ");
        push_str(&mut label, name.as_str());
        let mut description = String::from_str("PulseAudio/PipeWire monitor source: ");
        push_str(&mut description, name.as_str());
        AudioInputOption { id: name.clone(), label, description, kind: AudioInputKind::System }
    } else {
        let mut description = String::from_str("PulseAudio source: ");
        push_str(&mut description, name.as_str());
        AudioInputOption { id: name.clone(), label: name.clone(), description, kind: AudioInputKind::Microphone }
    }
}

/// The inputs discovery offers: pactl's sources when pactl listed any
/// source or sink, else what wpctl found.
pub fn discovered_audio_inputs(pactl_sources: &Vec<String>, pactl_sinks: &Vec<String>, wpctl_inputs: &Vec<AudioInputOption>) -> (r: Vec<AudioInputOption>)
    ensures
        pactl_sources@.len() > 0 || pactl_sinks@.len() > 0 ==> input_views(r@) == string_views(pactl_sources@).map_values(|n: Seq<char>| pactl_input_view(n)),
        !(pactl_sources@.len() > 0 || pactl_sinks@.len() > 0) ==> input_views(r@) == input_views(wpctl_inputs@),
{
    let mut r: Vec<AudioInputOption> = Vec::new();
    if pactl_sources.len() > 0 || pactl_sinks.len() > 0 {
        let mut i: usize = 0;
        while i < pactl_sources.len()
            invariant
                i <= pactl_sources@.len(),
                input_views(r@) == string_views(pactl_sources@.subrange(0, i as int)).map_values(|n: Seq<char>| pactl_input_view(n)),
            decreases pactl_sources@.len() - i,
        {
            let o = pactl_input(&pactl_sources[i]);
            let ghost before = input_views(r@);
            r.push(o);
            assert(input_views(r@) == before.push(o@));
            assert(string_views(pactl_sources@.subrange(0, i + 1)).map_values(|n: Seq<char>| pactl_input_view(n))
                == string_views(pactl_sources@.subrange(0, i as int)).map_values(|n: Seq<char>| pactl_input_view(n)).push(o@));
            i += 1;
        }
        assert(pactl_sources@.subrange(0, pactl_sources@.len() as int) == pactl_sources@);
        return r;
    }
    let mut i: usize = 0;
    while i < wpctl_inputs.len()
        invariant
            i <= wpctl_inputs@.len(),
            input_views(r@) == input_views(wpctl_inputs@.subrange(0, i as int)),
        decreases wpctl_inputs@.len() - i,
    {
        let o = copy_input(&wpctl_inputs[i]);
        let ghost before = input_views(r@);
        r.push(o);
        assert(input_views(r@) == before.push(o@));
        assert(input_views(wpctl_inputs@.subrange(0, i + 1)) == input_views(wpctl_inputs@.subrange(0, i as int)).push(o@));
        i += 1;
    }
    assert(wpctl_inputs@.subrange(0, wpctl_inputs@.len() as int) == wpctl_inputs@);
    r
}

/// A `wpctl status` node with the node name `wpctl inspect` gave for it.
#[derive(Debug, Clone, PartialEq, Eq)]
pub struct WpctlNode {
    pub entry: WpctlEntry,
    pub node_name: Option<String>,
}

pub open spec fn wpctl_source_view(n: WpctlNode) -> AudioInputView {
    AudioInputView {
        id: match n.node_name { Some(x) => x@, None => n.entry.label@ },
        label: n.entry.label@,
        description: "PipeWire source: "@ + n.entry.label@,
        kind: AudioInputKind::Microphone,
    }
}

pub open spec fn wpctl_sink_view(n: WpctlNode) -> AudioInputView {
    AudioInputView {
        id: match n.node_name { Some(x) => x@, None => n.entry.label@ } + ".monitor"@,
        label: "System audio · "@ + n.entry.label@,
        description: "PipeWire monitor source for sink: "@ + n.entry.label@,
        kind: AudioInputKind::System,
    }
}

fn wpctl_input(n: &WpctlNode, sink: bool) -> (o: AudioInputOption)
    ensures
        o@ == if sink { wpctl_sink_view(*n) } else { wpctl_source_view(*n) },
{
    let mut id = match &n.node_name {
        Some(x) => x.clone(),
        None => n.entry.label.clone(),
    };
    if sink {
        push_str(&mut id, ".monitor");
        let mut label = String::from_str("System audio · ");
        push_str(&mut label, n.entry.label.as_str());
        let mut description = String::from_str("PipeWire monitor source for sink: ");
        push_str(&mut description, n.entry.label.as_str());
        AudioInputOption { id, label, description, kind: AudioInputKind::System }
    } else {
        let mut description = String::from_str("PipeWire source: ");
        push_str(&mut description, n.entry.label.as_str());
        AudioInputOption { id, label: n.entry.label.clone(), description, kind: AudioInputKind::Microphone }
    }
}

/// The inputs of a `wpctl status` listing: each source, then the monitor
/// of each sink.
pub fn wpctl_audio_inputs(sources: &Vec<WpctlNode>, sinks: &Vec<WpctlNode>) -> (r: Vec<AudioInputOption>)
    ensures
        input_views(r@) == sources@.map_values(|n: WpctlNode| wpctl_source_view(n))
            + sinks@.map_values(|n: WpctlNode| wpctl_sink_view(n)),
{
    let mut r: Vec<AudioInputOption> = Vec::new();
    let mut i: usize = 0;
    while i < sources.len()
        invariant
            i <= sources@.len(),
            input_views(r@) == sources@.subrange(0, i as int).map_values(|n: WpctlNode| wpctl_source_view(n)),
        decreases sources@.len() - i,
    {
        let o = wpctl_input(&sources[i], false);
        let ghost before = input_views(r@);
        r.push(o);
        assert(input_views(r@) == before.push(o@));
        assert(sources@.subrange(0, i + 1).map_values(|n: WpctlNode| wpctl_source_view(n))
            == sources@.subrange(0, i as int).map_values(|n: WpctlNode| wpctl_source_view(n)).push(o@));
        i += 1;
    }
    assert(sources@.subrange(0, sources@.len() as int) == sources@);
    let ghost first = input_views(r@);
    let mut j: usize = 0;
    while j < sinks.len()
        invariant
            j <= sinks@.len(),
            first == sources@.map_values(|n: WpctlNode| wpctl_source_view(n)),
            input_views(r@) == first + sinks@.subrange(0, j as int).map_values(|n: WpctlNode| wpctl_sink_view(n)),
        decreases sinks@.len() - j,
    {
        let o = wpctl_input(&sinks[j], true);
        let ghost before = input_views(r@);
        r.push(o);
        assert(input_views(r@) == before.push(o@));
        assert(sinks@.subrange(0, j + 1).map_values(|n: WpctlNode| wpctl_sink_view(n))
            == sinks@.subrange(0, j as int).map_values(|n: WpctlNode| wpctl_sink_view(n)).push(o@));
        j += 1;
    }
    assert(sinks@.subrange(0, sinks@.len() as int) == sinks@);
    r
}

/// The PipeWire audio lane.
pub struct PipewireLinuxAudioBackend;

/// The audio lane of this platform.
pub fn backend() -> PipewireLinuxAudioBackend {
    PipewireLinuxAudioBackend
}

impl PipewireLinuxAudioBackend {
    pub fn descriptor(&self) -> (d: AudioBackendDescriptor)
        ensures
            d.id@ == "linux-pipewire-audio"@,
            d.label@ == "Linux PipeWire audio"@,
    {
        AudioBackendDescriptor { id: "linux-pipewire-audio", label: "Linux PipeWire audio" }
    }

    /// The runtime report from a discovery report.
    pub fn runtime_report(&self, report: Option<&LinuxAudioRuntimeReport>) -> (r: AudioBackendRuntimeReport)
        ensures
            opt_sview(r.summary) == match report {
                Some(rep) => match runtime_summary_spec(Some(*rep)) {
                    Some(s) => Some(s + " Linux native audio discovery can feed both the Wayland portal path and the X11 GStreamer path, though system-audio mixing still depends on the active runtime."@),
                    None => None,
                },
                None => None,
            },
            opt_sview(r.preferred_input_id) == match report { Some(rep) => preferred_input_spec(string_views(rep.sources@)), None => None },
            opt_sview(r.preferred_input_label) == opt_sview(r.preferred_input_id),
            opt_sview(r.preferred_system_id) == match report { Some(rep) => preferred_monitor_spec(string_views(rep.sources@)), None => None },
            opt_sview(r.preferred_system_label) == opt_sview(r.preferred_system_id),
    {
        let summary = match runtime_summary(report) {
            Some(s) => {
                let mut t = s;
                push_str(&mut t, " Linux native audio discovery can feed both the Wayland portal path and the X11 GStreamer path, though system-audio mixing still depends on the active runtime.");
                Some(t)
            },
            None => None,
        };
        AudioBackendRuntimeReport {
            summary,
            preferred_input_id: preferred_input_source_name(report),
            preferred_input_label: preferred_input_source_name(report),
            preferred_system_id: preferred_monitor_source_name(report),
            preferred_system_label: preferred_monitor_source_name(report),
        }
    }
}

} // verus!
