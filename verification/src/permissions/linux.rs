//! Linux permission checks: the X11 display, the ScreenCast portal and
//! the default microphone source, judged from what the session reports.
use vstd::prelude::*;
use vstd::string::*;
use crate::capture::static_views;
use crate::permissions::{check, check_view, check_views, launcher_readiness, launcher_readiness_check,
    PermissionCheck, PermissionCheckView, PermissionStatus};
use crate::text::{blank, is_blank, is_digit, join, parse_u32, parse_u32_spec, push_str, slice_chars, chars_of};

verus! {

/// An environment value that counts as set: present and not blank.
pub open spec fn set_value(v: Option<String>) -> Option<Seq<char>> {
    match v {
        Some(s) => if is_blank(s@) { None } else { Some(s@) },
        None => None,
    }
}

fn set_string(v: &Option<String>) -> (r: Option<&str>)
    ensures
        match r {
            Some(s) => set_value(*v) == Some(s@),
            None => set_value(*v) is None,
        },
{
    match v {
        Some(s) => if blank(s.as_str()) { None } else { Some(s.as_str()) },
        None => None,
    }
}

pub open spec fn x11_display_view(display: Option<Seq<char>>, wayland: Option<Seq<char>>) -> PermissionCheckView {
    match (display, wayland) {
        (Some(d), Some(w)) => check_view("X11 display access"@, PermissionStatus::Granted,
            "Wayland session "@ + w + " is running with XWayland display "@ + d
                + ". The app can use the native X11 GStreamer lane while the full Wayland portal path is also available."@),
        (Some(d), None) => check_view("X11 display access"@, PermissionStatus::Granted,
            "X11 session detected on "@ + d
                + ". Screen recording can start immediately through the native X11 GStreamer lane."@),
        (None, Some(w)) => check_view("X11 display access"@, PermissionStatus::Unsupported,
            "Wayland session "@ + w
                + " was detected without XWayland DISPLAY. The app must rely on the native ScreenCast portal / PipeWire path instead of X11."@),
        (None, None) => check_view("X11 display access"@, PermissionStatus::Unsupported,
            "No DISPLAY environment variable was found. Start the app from the active desktop session to allow Linux screen capture."@),
    }
}

/// The X11 display check from the raw `DISPLAY` and `WAYLAND_DISPLAY`
/// values (`None` when unset; blank values count as unset).
pub fn x11_display_check(display: &Option<String>, wayland: &Option<String>) -> (c: PermissionCheck)
    ensures
        c@ == x11_display_view(set_value(*display), set_value(*wayland)),
{
    let name = "X11 display access";
    match (set_string(display), set_string(wayland)) {
        (Some(d), Some(w)) => {
            let mut g = String::from_str("Wayland session ");
            push_str(&mut g, w);
            push_str(&mut g, " is running with XWayland display ");
            push_str(&mut g, d);
            push_str(&mut g, ". The app can use the native X11 GStreamer lane while the full Wayland portal path is also available.");
            PermissionCheck { name: String::from_str(name), status: PermissionStatus::Granted, guidance: g }
        },
        (Some(d), None) => {
            let mut g = String::from_str("X11 session detected on ");
            push_str(&mut g, d);
            push_str(&mut g, ". Screen recording can start immediately through the native X11 GStreamer lane.");
            PermissionCheck { name: String::from_str(name), status: PermissionStatus::Granted, guidance: g }
        },
        (None, Some(w)) => {
            let mut g = String::from_str("Wayland session ");
            push_str(&mut g, w);
            push_str(&mut g, " was detected without XWayland DISPLAY. The app must rely on the native ScreenCast portal / PipeWire path instead of X11.");
            PermissionCheck { name: String::from_str(name), status: PermissionStatus::Unsupported, guidance: g }
        },
        (None, None) => check(name, PermissionStatus::Unsupported,
            "No DISPLAY environment variable was found. Start the app from the active desktop session to allow Linux screen capture."),
    }
}

/// Human list: "a", "a and b", "a, b and c".
pub open spec fn human_join(items: Seq<Seq<char>>) -> Seq<char> {
    if items.len() == 0 {
        seq![]
    } else if items.len() == 1 {
        items[0]
    } else {
        join(items.drop_last(), ", "@) + " and "@ + items.last()
    }
}

/// Joins items the way the portal summaries read.
pub fn join_items(items: &[&'static str]) -> (r: String)
    ensures
        r@ == human_join(static_views(items@)),
{
    let n = items.len();
    if n == 0 {
        return String::new();
    }
    if n == 1 {
        return String::from_str(items[0]);
    }
    let mut r = String::new();
    let mut i: usize = 0;
    while i < n - 1
        invariant
            n == items@.len(),
            n >= 2,
            i <= n - 1,
            r@ == join(static_views(items@).subrange(0, i as int), ", "@),
        decreases n - 1 - i,
    {
        assert(static_views(items@).subrange(0, i + 1).drop_last() == static_views(items@).subrange(0, i as int));
        if i > 0 {
            push_str(&mut r, ", ");
        }
        push_str(&mut r, items[i]);
        i += 1;
    }
    assert(static_views(items@).subrange(0, (n - 1) as int) == static_views(items@).drop_last());
    push_str(&mut r, " and ");
    push_str(&mut r, items[n - 1]);
    r
}

pub open spec fn source_type_items(mask: u32) -> Seq<Seq<char>> {
    (if mask & 1 != 0 { seq!["monitor sharing"@] } else { seq![] })
        + (if mask & 2 != 0 { seq!["window sharing"@] } else { seq![] })
        + (if mask & 4 != 0 { seq!["virtual displays"@] } else { seq![] })
}

pub open spec fn cursor_mode_items(mask: u32) -> Seq<Seq<char>> {
    (if mask & 1 != 0 { seq!["hidden cursor"@] } else { seq![] })
        + (if mask & 2 != 0 { seq!["embedded cursor"@] } else { seq![] })
        + (if mask & 4 != 0 { seq!["cursor metadata"@] } else { seq![] })
}

pub open spec fn describe_items(items: Seq<Seq<char>>, none: Seq<char>) -> Seq<char> {
    if items.len() == 0 { none } else { human_join(items) }
}

fn flag_items(mask: u32, a: &'static str, b: &'static str, c: &'static str) -> (v: Vec<&'static str>)
    ensures
        static_views(v@) == (if mask & 1 != 0 { seq![a@] } else { seq![] })
            + (if mask & 2 != 0 { seq![b@] } else { seq![] })
            + (if mask & 4 != 0 { seq![c@] } else { seq![] }),
{
    let mut v: Vec<&'static str> = Vec::new();
    if mask & 1 != 0 {
        v.push(a);
    }
    if mask & 2 != 0 {
        v.push(b);
    }
    if mask & 4 != 0 {
        v.push(c);
    }
    assert(static_views(v@) == (if mask & 1 != 0 { seq![a@] } else { seq![] })
        + (if mask & 2 != 0 { seq![b@] } else { seq![] })
        + (if mask & 4 != 0 { seq![c@] } else { seq![] }));
    v
}

/// What a ScreenCast `AvailableSourceTypes` mask offers, in words.
pub fn describe_source_types(mask: u32) -> (r: String)
    ensures
        r@ == describe_items(source_type_items(mask), "no source types"@),
{
    let items = flag_items(mask, "monitor sharing", "window sharing", "virtual displays");
    if items.len() == 0 {
        String::from_str("no source types")
    } else {
        join_items(&items)
    }
}

/// What a ScreenCast `AvailableCursorModes` mask offers, in words.
pub fn describe_cursor_modes(mask: u32) -> (r: String)
    ensures
        r@ == describe_items(cursor_mode_items(mask), "no cursor modes"@),
{
    let items = flag_items(mask, "hidden cursor", "embedded cursor", "cursor metadata");
    if items.len() == 0 {
        String::from_str("no cursor modes")
    } else {
        join_items(&items)
    }
}

/// Index of the first ASCII digit at or after `i`, or the length.
pub open spec fn first_digit_from(s: Seq<char>, i: int) -> int
    decreases s.len() - i,
{
    if i < 0 || i >= s.len() {
        s.len() as int
    } else if is_digit(s[i]) {
        i
    } else {
        first_digit_from(s, i + 1)
    }
}

/// End of the run of ASCII digits starting at `i`.
pub open spec fn digit_run_end(s: Seq<char>, i: int) -> int
    decreases s.len() - i,
{
    if i < 0 || i >= s.len() {
        s.len() as int
    } else if !is_digit(s[i]) {
        i
    } else {
        digit_run_end(s, i + 1)
    }
}

pub proof fn lemma_digit_scan(s: Seq<char>, i: int)
    requires
        0 <= i <= s.len(),
    ensures
        i <= first_digit_from(s, i) <= s.len(),
        i <= digit_run_end(s, i) <= s.len(),
    decreases s.len() - i,
{
    if i < s.len() {
        lemma_digit_scan(s, i + 1);
    }
}

/// The first unsigned number in some command output: the first run of
/// ASCII digits, read as a `u32` (`None` without digits or past `u32::MAX`).
pub open spec fn first_u32(s: Seq<char>) -> Option<u32> {
    let b = first_digit_from(s, 0);
    if b >= s.len() {
        None
    } else {
        parse_u32_spec(s.subrange(b, digit_run_end(s, b)))
    }
}

/// Index of the first ASCII digit at or after `from`.
pub fn scan_to_digit(s: &[char], from: usize) -> (i: usize)
    requires
        from <= s@.len(),
    ensures
        i as int == first_digit_from(s@, from as int),
{
    let mut i = from;
    while i < s.len() && !(s[i] >= '0' && s[i] <= '9')
        invariant
            from <= i <= s@.len(),
            first_digit_from(s@, from as int) == first_digit_from(s@, i as int),
        decreases s@.len() - i,
    {
        i += 1;
    }
    i
}

/// End of the digit run that starts at `from`.
pub fn scan_digits(s: &[char], from: usize) -> (i: usize)
    requires
        from <= s@.len(),
    ensures
        i as int == digit_run_end(s@, from as int),
{
    let mut i = from;
    while i < s.len() && s[i] >= '0' && s[i] <= '9'
        invariant
            from <= i <= s@.len(),
            digit_run_end(s@, from as int) == digit_run_end(s@, i as int),
        decreases s@.len() - i,
    {
        i += 1;
    }
    i
}

/// The first unsigned number in `output`.
pub fn parse_first_u32(output: &str) -> (r: Option<u32>)
    ensures
        r == first_u32(output@),
{
    let s = chars_of(output);
    let b = scan_to_digit(&s, 0);
    if b >= s.len() {
        return None;
    }
    let e = scan_digits(&s, b);
    proof { lemma_digit_scan(s@, b as int); }
    let token = slice_chars(&s, b, e);
    parse_u32(&token)
}

pub open spec fn wayland_portal_view(
    wayland: Option<Seq<char>>,
    capabilities: Option<(u32, u32)>,
    portal_installed: bool,
) -> PermissionCheckView {
    if wayland is None {
        check_view("Wayland portal"@, PermissionStatus::Unsupported,
            "No Wayland session is active, so the ScreenCast portal path is not needed."@)
    } else {
        match capabilities {
            Some((sources, cursors)) => check_view("Wayland portal"@, PermissionStatus::Granted,
                "ScreenCast portal detected. It reports "@
                    + describe_items(source_type_items(sources), "no source types"@) + " and "@
                    + describe_items(cursor_mode_items(cursors), "no cursor modes"@)
                    + ". Pure Wayland recording can use the native ScreenCast / PipeWire / GStreamer lane after the desktop grants screen sharing access."@),
            None => if portal_installed {
                check_view("Wayland portal"@, PermissionStatus::Pending,
                    "XDG Desktop Portal is installed, but the app could not inspect ScreenCast capabilities from the session bus. Pure Wayland capture may still work after the desktop grants screen sharing access."@)
            } else {
                check_view("Wayland portal"@, PermissionStatus::Unsupported,
                    "Wayland is active but xdg-desktop-portal was not detected. Install the portal stack or use an X11/XWayland session."@)
            },
        }
    }
}

/// The ScreenCast portal check. `capabilities` holds the portal's source
/// types and cursor modes when both could be read from the session bus;
/// `portal_installed` whether `xdg-desktop-portal --version` succeeds.
pub fn wayland_portal_check(wayland: &Option<String>, capabilities: Option<(u32, u32)>, portal_installed: bool) -> (c: PermissionCheck)
    ensures
        c@ == wayland_portal_view(set_value(*wayland), capabilities, portal_installed),
{
    let name = "Wayland portal";
    if set_string(wayland).is_none() {
        return check(name, PermissionStatus::Unsupported,
            "No Wayland session is active, so the ScreenCast portal path is not needed.");
    }
    match capabilities {
        Some((sources, cursors)) => {
            let mut g = String::from_str("ScreenCast portal detected. It reports ");
            let a = describe_source_types(sources);
            let b = describe_cursor_modes(cursors);
            push_str(&mut g, a.as_str());
            push_str(&mut g, " and ");
            push_str(&mut g, b.as_str());
            push_str(&mut g, ". Pure Wayland recording can use the native ScreenCast / PipeWire / GStreamer lane after the desktop grants screen sharing access.");
            PermissionCheck { name: String::from_str(name), status: PermissionStatus::Granted, guidance: g }
        },
        None => if portal_installed {
            check(name, PermissionStatus::Pending,
                "XDG Desktop Portal is installed, but the app could not inspect ScreenCast capabilities from the session bus. Pure Wayland capture may still work after the desktop grants screen sharing access.")
        } else {
            check(name, PermissionStatus::Unsupported,
                "Wayland is active but xdg-desktop-portal was not detected. Install the portal stack or use an X11/XWayland session.")
        },
    }
}

/// How a short recording from the default microphone source went.
#[derive(Debug, Clone, Copy, PartialEq, Eq, Structural)]
pub enum MicrophoneProbe {
    Succeeded,
    Failed,
    CouldNotRun,
}

pub open spec fn microphone_view(probe: MicrophoneProbe) -> PermissionCheckView {
    match probe {
        MicrophoneProbe::Succeeded => check_view("Microphone source"@, PermissionStatus::Granted,
            "The default PulseAudio/PipeWire microphone source is available for narration."@),
        MicrophoneProbe::Failed => check_view("Microphone source"@, PermissionStatus::Pending,
            "The default microphone source is not ready. You can still record the screen with microphone disabled."@),
        MicrophoneProbe::CouldNotRun => check_view("Microphone source"@, PermissionStatus::Pending,
            "Could not probe the default microphone source. If narration fails, disable the mic toggle before starting a recording."@),
    }
}

pub fn microphone_check(probe: MicrophoneProbe) -> (c: PermissionCheck)
    ensures
        c@ == microphone_view(probe),
{
    match probe {
        MicrophoneProbe::Succeeded => check("Microphone source", PermissionStatus::Granted,
            "The default PulseAudio/PipeWire microphone source is available for narration."),
        MicrophoneProbe::Failed => check("Microphone source", PermissionStatus::Pending,
            "The default microphone source is not ready. You can still record the screen with microphone disabled."),
        MicrophoneProbe::CouldNotRun => check("Microphone source", PermissionStatus::Pending,
            "Could not probe the default microphone source. If narration fails, disable the mic toggle before starting a recording."),
    }
}

/// The Linux checks, from the session's environment and probe results.
pub fn probe_permissions(
    display: &Option<String>,
    wayland: &Option<String>,
    portal_capabilities: Option<(u32, u32)>,
    portal_installed: bool,
    microphone: MicrophoneProbe,
) -> (r: Vec<PermissionCheck>)
    ensures
        check_views(r@) == seq![
            launcher_readiness(),
            x11_display_view(set_value(*display), set_value(*wayland)),
            wayland_portal_view(set_value(*wayland), portal_capabilities, portal_installed),
            microphone_view(microphone),
        ],
{
    let mut r: Vec<PermissionCheck> = Vec::new();
    r.push(launcher_readiness_check());
    r.push(x11_display_check(display, wayland));
    r.push(wayland_portal_check(wayland, portal_capabilities, portal_installed));
    r.push(microphone_check(microphone));
    r
}

} // verus!
