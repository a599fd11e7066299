//! What the user is told when a `gst-launch-1.0` capture process exits
//! before capture could start.
use vstd::prelude::*;
use vstd::string::*;
use crate::text::{chars_of, contains, contains_chars, is_blank, join, join_strings, lines, push_str, split_lines,
    string_of, string_views, trim, trim_chars, views};

verus! {

/// Which lane a capture process belongs to.
#[derive(Debug, Clone, Copy, PartialEq, Eq, Structural)]
pub enum LinuxCaptureProcessKind {
    GstreamerX11,
    GstreamerWayland,
}

/// Unicode lowercase of a string, as `str::to_lowercase` computes it.
pub uninterp spec fn unicode_lowercase(s: Seq<char>) -> Seq<char>;

/// `str::to_lowercase`: the Unicode lowercase mapping of every character.
/// Its result is a function of the text alone; nothing more is stated.
#[verifier::external_body]
fn to_lowercase(s: &str) -> (r: String)
    ensures
        r@ == unicode_lowercase(s@),
{
    s.to_lowercase()
}

/// The non-blank lines of `ls`, trimmed.
pub open spec fn trimmed_nonblank(ls: Seq<Seq<char>>) -> Seq<Seq<char>>
    decreases ls.len(),
{
    if ls.len() == 0 {
        seq![]
    } else if is_blank(ls.last()) {
        trimmed_nonblank(ls.drop_last())
    } else {
        trimmed_nonblank(ls.drop_last()).push(trim(ls.last()))
    }
}

/// The last six non-blank lines of a log, trimmed and joined with ` | `.
pub open spec fn log_tail(log: Seq<char>) -> Seq<Seq<char>> {
    let t = trimmed_nonblank(lines(log));
    if t.len() > 6 { t.subrange(t.len() - 6, t.len() as int) } else { t }
}

pub open spec fn tail_text(log: Seq<char>, empty: Seq<char>) -> Seq<char> {
    if log_tail(log).len() == 0 { empty } else { join(log_tail(log), " | "@) }
}

fn tail_of(log: &str, empty: &str) -> (r: String)
    ensures
        r@ == tail_text(log@, empty@),
{
    let ls = split_lines(&chars_of(log));
    let ghost all = views(ls@);
    let mut kept: Vec<String> = Vec::new();
    let mut i: usize = 0;
    while i < ls.len()
        invariant
            i <= ls@.len(),
            all == views(ls@),
            all == lines(log@),
            string_views(kept@) == trimmed_nonblank(all.subrange(0, i as int)),
        decreases ls@.len() - i,
    {
        assert(all.subrange(0, i + 1).drop_last() == all.subrange(0, i as int));
        assert(all.subrange(0, i + 1).last() == ls@[i as int]@);
        let t = trim_chars(&ls[i]);
        if t.len() > 0 {
            let s = string_of(&t);
            let ghost before = string_views(kept@);
            kept.push(s);
            assert(string_views(kept@) == before.push(s@));
        }
        i += 1;
    }
    assert(all.subrange(0, i as int) == all);
    let n = kept.len();
    let mut last: Vec<String> = Vec::new();
    let start: usize = if n > 6 { n - 6 } else { 0 };
    let mut j = start;
    while j < n
        invariant
            start <= j <= n,
            n == kept@.len(),
            string_views(last@) == string_views(kept@).subrange(start as int, j as int),
        decreases n - j,
    {
        let s = kept[j].clone();
        let ghost before = string_views(last@);
        last.push(s);
        assert(string_views(last@) == before.push(s@));
        assert(string_views(kept@).subrange(start as int, j + 1) == string_views(kept@).subrange(start as int, j as int).push(kept@[j as int]@));
        j += 1;
    }
    assert(string_views(last@) == log_tail(log@));
    if last.len() == 0 {
        String::from_str(empty)
    } else {
        join_strings(&last, " | ")
    }
}

pub open spec fn wayland_failure_spec(lower: Seq<char>, log: Seq<char>) -> Seq<char> {
    let tail = tail_text(log, "the Wayland GStreamer capture process exited before capture could start."@);
    if contains(lower, "no element \"pipewiresrc\""@) {
        "GStreamer PipeWire support is missing on this machine. Install the PipeWire GStreamer plugin first. Last log: "@ + tail
    } else if contains(lower, "could not open resource for reading"@) || contains(lower, "failed to connect"@)
        || contains(lower, "pipewire"@) {
        "The ScreenCast portal returned a PipeWire stream, but GStreamer could not attach to it. Check that PipeWire and xdg-desktop-portal are running in this Wayland session. Last log: "@ + tail
    } else if contains(lower, "pulsesrc"@) || contains(lower, "pulse"@) {
        "GStreamer could not open the selected microphone source. Disable microphone capture and try again. Last log: "@ + tail
    } else {
        tail
    }
}

pub open spec fn x11_failure_spec(lower: Seq<char>, log: Seq<char>) -> Seq<char> {
    let tail = tail_text(log, "the X11 GStreamer capture process exited before capture could start."@);
    if contains(lower, "no element \"ximagesrc\""@) {
        "GStreamer X11 support is missing on this machine. Install the ximagesrc plugin first. Last log: "@ + tail
    } else if contains(lower, "cannot open display"@) || contains(lower, "display-name"@) || contains(lower, "ximagesrc"@) {
        "The GStreamer X11 lane could not access the X11 display. Make sure this app is started inside the desktop session and DISPLAY is exported. Last log: "@ + tail
    } else if contains(lower, "pulsesrc"@) || contains(lower, "pulse"@) {
        "GStreamer could not open the selected microphone or system-audio source. Disable audio capture and try again. Last log: "@ + tail
    } else {
        tail
    }
}

fn has(hay: &Vec<char>, needle: &str) -> (r: bool)
    ensures
        r == contains(hay@, needle@),
{
    contains_chars(hay, &chars_of(needle))
}

fn with_tail(prefix: &str, tail: &String) -> (r: String)
    ensures
        r@ == prefix@ + tail@,
{
    let mut r = String::from_str(prefix);
    push_str(&mut r, tail.as_str());
    r
}

/// The explanation for a failed Wayland capture process, given its log
/// and that log in lowercase.
pub fn describe_gstreamer_failure_lowered(lowered: &str, stderr_log: &str) -> (r: String)
    ensures
        r@ == wayland_failure_spec(lowered@, stderr_log@),
{
    let lower = chars_of(lowered);
    let tail = tail_of(stderr_log, "the Wayland GStreamer capture process exited before capture could start.");
    if has(&lower, "no element \"pipewiresrc\"") {
        with_tail("GStreamer PipeWire support is missing on this machine. Install the PipeWire GStreamer plugin first. Last log: ", &tail)
    } else if has(&lower, "could not open resource for reading") || has(&lower, "failed to connect") || has(&lower, "pipewire") {
        with_tail("The ScreenCast portal returned a PipeWire stream, but GStreamer could not attach to it. Check that PipeWire and xdg-desktop-portal are running in this Wayland session. Last log: ", &tail)
    } else if has(&lower, "pulsesrc") || has(&lower, "pulse") {
        with_tail("GStreamer could not open the selected microphone source. Disable microphone capture and try again. Last log: ", &tail)
    } else {
        tail
    }
}

/// The explanation for a failed X11 capture process, given its log and
/// that log in lowercase.
pub fn describe_gstreamer_x11_failure_lowered(lowered: &str, stderr_log: &str) -> (r: String)
    ensures
        r@ == x11_failure_spec(lowered@, stderr_log@),
{
    let lower = chars_of(lowered);
    let tail = tail_of(stderr_log, "the X11 GStreamer capture process exited before capture could start.");
    if has(&lower, "no element \"ximagesrc\"") {
        with_tail("GStreamer X11 support is missing on this machine. Install the ximagesrc plugin first. Last log: ", &tail)
    } else if has(&lower, "cannot open display") || has(&lower, "display-name") || has(&lower, "ximagesrc") {
        with_tail("The GStreamer X11 lane could not access the X11 display. Make sure this app is started inside the desktop session and DISPLAY is exported. Last log: ", &tail)
    } else if has(&lower, "pulsesrc") || has(&lower, "pulse") {
        with_tail("GStreamer could not open the selected microphone or system-audio source. Disable audio capture and try again. Last log: ", &tail)
    } else {
        tail
    }
}

/// The explanation for a failed Wayland capture process.
pub fn describe_gstreamer_failure(stderr_log: &str) -> (r: String)
    ensures
        r@ == wayland_failure_spec(unicode_lowercase(stderr_log@), stderr_log@),
{
    let lowered = to_lowercase(stderr_log);
    describe_gstreamer_failure_lowered(lowered.as_str(), stderr_log)
}

/// The explanation for a failed X11 capture process.
pub fn describe_gstreamer_x11_failure(stderr_log: &str) -> (r: String)
    ensures
        r@ == x11_failure_spec(unicode_lowercase(stderr_log@), stderr_log@),
{
    let lowered = to_lowercase(stderr_log);
    describe_gstreamer_x11_failure_lowered(lowered.as_str(), stderr_log)
}

/// The explanation for a capture process of either lane that failed.
pub fn describe_process_failure(process_kind: LinuxCaptureProcessKind, stderr_log: &str) -> (r: String)
    ensures
        process_kind == LinuxCaptureProcessKind::GstreamerX11 ==>
            r@ == x11_failure_spec(unicode_lowercase(stderr_log@), stderr_log@),
        process_kind == LinuxCaptureProcessKind::GstreamerWayland ==>
            r@ == wayland_failure_spec(unicode_lowercase(stderr_log@), stderr_log@),
{
    match process_kind {
        LinuxCaptureProcessKind::GstreamerX11 => describe_gstreamer_x11_failure(stderr_log),
        LinuxCaptureProcessKind::GstreamerWayland => describe_gstreamer_failure(stderr_log),
    }
}

} // verus!
