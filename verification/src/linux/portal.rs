//! The ScreenCast portal: what its probe found, the gdbus calls of its
//! lifecycle, and reading its replies.
use vstd::prelude::*;
use vstd::string::*;
use crate::capture::{opt_sview, opt_view, CaptureError};
use crate::permissions::linux::{cursor_mode_items, describe_cursor_modes, describe_items, describe_source_types,
    source_type_items};
use crate::text::{chars_of, contains, contains_chars, dec, find, find_from, is_digit, is_ws, join, lemma_find_from,
    lower, occurs_at, parse_u32, parse_u32_spec, push_dec, push_str, slice_chars, string_of, string_views,
    to_lower, trim, trim_chars, split_words, views, words};

verus! {

#[derive(Debug, Clone, Copy, PartialEq, Eq, Structural)]
pub struct ScreenCastPortalCapabilities {
    pub available_source_types: u32,
    pub available_cursor_modes: u32,
}

/// What probing the ScreenCast portal on the session bus found.
#[derive(Debug, Clone, Copy, PartialEq, Eq, Structural)]
pub enum ScreenCastPortalProbe {
    Available(ScreenCastPortalCapabilities),
    MissingPortal,
    MissingDbusTools,
    Unreachable,
}

/// Whether ffmpeg reports a PipeWire input device.
#[derive(Debug, Clone, Copy, PartialEq, Eq, Structural)]
pub enum PipeWireFfmpegSupport {
    Available,
    Missing,
    Unknown,
}

/// Whether the GStreamer PipeWire elements are installed.
#[derive(Debug, Clone, Copy, PartialEq, Eq, Structural)]
pub enum PipeWireGstreamerSupport {
    Available,
    Missing,
    Unknown,
}

/// The four gdbus invocations of a portal session.
#[derive(Debug, Clone, PartialEq, Eq)]
pub struct ScreenCastPortalCommandPlan {
    pub create_session: Vec<String>,
    pub select_sources: Vec<String>,
    pub start: Vec<String>,
    pub open_pipewire_remote: Vec<String>,
}

/// What a successful `Start` reply holds.
#[derive(Debug, Clone, PartialEq, Eq)]
pub struct ScreenCastPortalStartResult {
    pub session_handle: String,
    pub restore_token: Option<String>,
    pub stream_node_ids: Vec<u32>,
}

pub const SCREENCAST_DESTINATION: &'static str = "org.freedesktop.portal.Desktop";
pub const SCREENCAST_OBJECT_PATH: &'static str = "/org/freedesktop/portal/desktop";
pub const SCREENCAST_INTERFACE: &'static str = "org.freedesktop.portal.ScreenCast";

/// The portal's state from its property reads and the tools found:
/// both properties read means available; otherwise an installed portal
/// is unreachable, gdbus or busctl without a portal means no portal, and
/// neither tool means the bus could not be inspected.
pub open spec fn probe_spec(source_types: Option<u32>, cursor_modes: Option<u32>, portal_installed: bool, dbus_tools: bool) -> ScreenCastPortalProbe {
    match (source_types, cursor_modes) {
        (Some(s), Some(c)) => ScreenCastPortalProbe::Available(
            ScreenCastPortalCapabilities { available_source_types: s, available_cursor_modes: c }),
        _ => if portal_installed {
            ScreenCastPortalProbe::Unreachable
        } else if dbus_tools {
            ScreenCastPortalProbe::MissingPortal
        } else {
            ScreenCastPortalProbe::MissingDbusTools
        },
    }
}

/// Judges the portal from the `AvailableSourceTypes` and
/// `AvailableCursorModes` reads, whether `xdg-desktop-portal --version`
/// succeeds and whether gdbus or busctl exists.
pub fn probe_screen_cast_portal(source_types: Option<u32>, cursor_modes: Option<u32>, portal_installed: bool, dbus_tools: bool) -> (r: ScreenCastPortalProbe)
    ensures
        r == probe_spec(source_types, cursor_modes, portal_installed, dbus_tools),
{
    match (source_types, cursor_modes) {
        (Some(s), Some(c)) => ScreenCastPortalProbe::Available(
            ScreenCastPortalCapabilities { available_source_types: s, available_cursor_modes: c }),
        _ => if portal_installed {
            ScreenCastPortalProbe::Unreachable
        } else if dbus_tools {
            ScreenCastPortalProbe::MissingPortal
        } else {
            ScreenCastPortalProbe::MissingDbusTools
        },
    }
}

pub open spec fn ffmpeg_support_spec(listing: Option<Seq<char>>) -> PipeWireFfmpegSupport {
    match listing {
        None => PipeWireFfmpegSupport::Unknown,
        Some(l) => if contains(lower(l), " pipewire"@) {
            PipeWireFfmpegSupport::Available
        } else {
            PipeWireFfmpegSupport::Missing
        },
    }
}

/// Whether ffmpeg can read PipeWire, from the output of
/// `ffmpeg -hide_banner -devices` (stdout, a newline, stderr), `None` when
/// the command failed.
pub fn ffmpeg_pipewire_support(listing: Option<&str>) -> (r: PipeWireFfmpegSupport)
    ensures
        r == ffmpeg_support_spec(opt_view(listing)),
{
    match listing {
        None => PipeWireFfmpegSupport::Unknown,
        Some(l) => {
            let lowered = to_lower(&chars_of(l));
            let needle = chars_of(" pipewire");
            if contains_chars(&lowered, &needle) {
                PipeWireFfmpegSupport::Available
            } else {
                PipeWireFfmpegSupport::Missing
            }
        },
    }
}

pub open spec fn pipewire_copy_spec(support: PipeWireFfmpegSupport) -> Seq<char> {
    match support {
        PipeWireFfmpegSupport::Available => "ffmpeg reports a PipeWire device, and the app now has a native ScreenCast portal lifecycle client. The remaining work is ingesting the returned PipeWire remote fd into an actual capture stream."@,
        PipeWireFfmpegSupport::Missing => "This ffmpeg build does not report a PipeWire input device. The app can negotiate the ScreenCast portal lifecycle, but pure Wayland capture still needs either a PipeWire-enabled ffmpeg build or a native PipeWire client path."@,
        PipeWireFfmpegSupport::Unknown => "The app could negotiate the ScreenCast portal lifecycle, but ffmpeg PipeWire ingestion capability is still unknown."@,
    }
}

/// What the launcher is told about ffmpeg's PipeWire support.
pub fn pipewire_support_copy(support: PipeWireFfmpegSupport) -> (r: &'static str)
    ensures
        r@ == pipewire_copy_spec(support),
{
    match support {
        PipeWireFfmpegSupport::Available => "ffmpeg reports a PipeWire device, and the app now has a native ScreenCast portal lifecycle client. The remaining work is ingesting the returned PipeWire remote fd into an actual capture stream.",
        PipeWireFfmpegSupport::Missing => "This ffmpeg build does not report a PipeWire input device. The app can negotiate the ScreenCast portal lifecycle, but pure Wayland capture still needs either a PipeWire-enabled ffmpeg build or a native PipeWire client path.",
        PipeWireFfmpegSupport::Unknown => "The app could negotiate the ScreenCast portal lifecycle, but ffmpeg PipeWire ingestion capability is still unknown.",
    }
}

pub open spec fn start_unavailable_spec(w: Seq<char>, probe: ScreenCastPortalProbe, ffmpeg: PipeWireFfmpegSupport) -> Seq<char> {
    match probe {
        ScreenCastPortalProbe::Available(c) => "Wayland session "@ + w
            + " was detected without XWayland. The ScreenCast portal is available ("@
            + describe_items(source_type_items(c.available_source_types), "no source types"@) + ", "@
            + describe_items(cursor_mode_items(c.available_cursor_modes), "no cursor modes"@) + "). "@
            + pipewire_copy_spec(ffmpeg),
        ScreenCastPortalProbe::MissingPortal => "Wayland session "@ + w
            + " was detected without XWayland, and no ScreenCast portal could be reached. Install xdg-desktop-portal or use an X11/XWayland session."@,
        ScreenCastPortalProbe::MissingDbusTools => "Wayland session "@ + w
            + " was detected without XWayland. The app could not inspect ScreenCast portal readiness because neither gdbus nor busctl is available."@,
        ScreenCastPortalProbe::Unreachable => "Wayland session "@ + w
            + " was detected without XWayland. A ScreenCast portal may be installed, but it could not be reached on the session bus."@,
    }
}

/// The error for a pure Wayland start that cannot go ahead, explaining
/// what the portal probe and the ffmpeg probe found.
pub fn start_unavailable(wayland_display: &str, probe: ScreenCastPortalProbe, ffmpeg: PipeWireFfmpegSupport) -> (e: CaptureError)
    ensures
        e matches CaptureError::BackendUnavailable(m) && m@ == start_unavailable_spec(wayland_display@, probe, ffmpeg),
{
    let mut m = String::from_str("Wayland session ");
    push_str(&mut m, wayland_display);
    match probe {
        ScreenCastPortalProbe::Available(c) => {
            push_str(&mut m, " was detected without XWayland. The ScreenCast portal is available (");
            let a = describe_source_types(c.available_source_types);
            push_str(&mut m, a.as_str());
            push_str(&mut m, ", ");
            let b = describe_cursor_modes(c.available_cursor_modes);
            push_str(&mut m, b.as_str());
            push_str(&mut m, "). ");
            push_str(&mut m, pipewire_support_copy(ffmpeg));
        },
        ScreenCastPortalProbe::MissingPortal => push_str(&mut m,
            " was detected without XWayland, and no ScreenCast portal could be reached. Install xdg-desktop-portal or use an X11/XWayland session."),
        ScreenCastPortalProbe::MissingDbusTools => push_str(&mut m,
            " was detected without XWayland. The app could not inspect ScreenCast portal readiness because neither gdbus nor busctl is available."),
        ScreenCastPortalProbe::Unreachable => push_str(&mut m,
            " was detected without XWayland. A ScreenCast portal may be installed, but it could not be reached on the session bus."),
    }
    CaptureError::BackendUnavailable(m)
}

pub open spec fn portal_response_explanation(response: u32) -> Seq<char> {
    if response == 1 {
        "the portal denied the request or the user dismissed the picker"@
    } else if response == 2 {
        "the portal cancelled the request"@
    } else {
        "the portal returned a non-success response"@
    }
}

/// Accepts a portal response code of 0; any other is an error that names
/// the stage and what the code means.
pub fn ensure_portal_success(stage: &str, response: u32) -> (r: Result<(), CaptureError>)
    ensures
        response == 0 ==> r is Ok,
        response != 0 ==> (r matches Err(CaptureError::BackendUnavailable(m)) && m@ == "ScreenCast portal "@ + stage@
            + " failed with response code "@ + dec(response as nat) + ": "@ + portal_response_explanation(response)),
{
    if response == 0 {
        return Ok(());
    }
    let explanation = if response == 1 {
        "the portal denied the request or the user dismissed the picker"
    } else if response == 2 {
        "the portal cancelled the request"
    } else {
        "the portal returned a non-success response"
    };
    let mut m = String::from_str("ScreenCast portal ");
    push_str(&mut m, stage);
    push_str(&mut m, " failed with response code ");
    push_dec(&mut m, response as u64);
    push_str(&mut m, ": ");
    push_str(&mut m, explanation);
    Err(CaptureError::BackendUnavailable(m))
}

pub open spec fn request_path_spec(sender: Seq<char>, token: Seq<char>) -> Seq<char> {
    "/org/freedesktop/portal/desktop/request/"@ + sender + "/"@ + token
}

/// The object path of a portal request made by `sender`.
pub fn request_handle_path(sender: &str, request_token: &str) -> (r: String)
    ensures
        r@ == request_path_spec(sender@, request_token@),
{
    let mut r = String::from_str("/org/freedesktop/portal/desktop/request/");
    push_str(&mut r, sender);
    push_str(&mut r, "/");
    push_str(&mut r, request_token);
    r
}

pub open spec fn session_path_spec(sender: Seq<char>, token: Seq<char>) -> Seq<char> {
    "/org/freedesktop/portal/desktop/session/"@ + sender + "/"@ + token
}

/// The object path of a portal session created by `sender`.
pub fn create_session_handle_path(sender: &str, session_token: &str) -> (r: String)
    ensures
        r@ == session_path_spec(sender@, session_token@),
{
    let mut r = String::from_str("/org/freedesktop/portal/desktop/session/");
    push_str(&mut r, sender);
    push_str(&mut r, "/");
    push_str(&mut r, session_token);
    r
}

/// The session path assumed before the sender is known.
pub fn expected_session_handle(session_token: &str) -> (r: String)
    ensures
        r@ == session_path_spec("unknown"@, session_token@),
{
    create_session_handle_path("unknown", session_token)
}

pub open spec fn gdbus_prefix(method: Seq<char>) -> Seq<Seq<char>> {
    seq!["call"@, "--session"@, "--dest"@, SCREENCAST_DESTINATION@, "--object-path"@, SCREENCAST_OBJECT_PATH@,
        "--method"@, SCREENCAST_INTERFACE@ + "."@ + method]
}

fn gdbus_call(method: &str) -> (r: Vec<String>)
    ensures
        string_views(r@) == gdbus_prefix(method@),
{
    let mut m = String::from_str(SCREENCAST_INTERFACE);
    push_str(&mut m, ".");
    push_str(&mut m, method);
    let mut r: Vec<String> = Vec::new();
    r.push(String::from_str("call"));
    r.push(String::from_str("--session"));
    r.push(String::from_str("--dest"));
    r.push(String::from_str(SCREENCAST_DESTINATION));
    r.push(String::from_str("--object-path"));
    r.push(String::from_str(SCREENCAST_OBJECT_PATH));
    r.push(String::from_str("--method"));
    r.push(m);
    assert(string_views(r@) == gdbus_prefix(method@));
    r
}

pub open spec fn create_session_args(request_token: Seq<char>, session_token: Seq<char>) -> Seq<Seq<char>> {
    gdbus_prefix("CreateSession"@).push("{'handle_token': <'"@ + request_token + "'>, 'session_handle_token': <'"@
        + session_token + "'>}"@)
}

pub open spec fn select_sources_args(session_handle: Seq<char>) -> Seq<Seq<char>> {
    gdbus_prefix("SelectSources"@).push(session_handle)
        .push("{'multiple': <false>, 'types': <uint32 1>, 'cursor_mode': <uint32 2>}"@)
}

pub open spec fn start_args(session_handle: Seq<char>) -> Seq<Seq<char>> {
    gdbus_prefix("Start"@).push(session_handle).push(seq![]).push("{}"@)
}

pub open spec fn open_remote_args(session_handle: Seq<char>) -> Seq<Seq<char>> {
    gdbus_prefix("OpenPipeWireRemote"@).push(session_handle).push("{}"@)
}

fn push_string(v: &mut Vec<String>, s: String)
    ensures
        string_views(final(v)@) == string_views(old(v)@).push(s@),
{
    v.push(s);
    assert(string_views(v@) == string_views(old(v)@).push(s@));
}

/// The gdbus calls of a portal session: create it, select sources,
/// start it and open its PipeWire remote.
pub fn command_plan(request_token: &str, session_token: &str) -> (p: ScreenCastPortalCommandPlan)
    ensures
        string_views(p.create_session@) == create_session_args(request_token@, session_token@),
        string_views(p.select_sources@) == select_sources_args(session_path_spec("unknown"@, session_token@)),
        string_views(p.start@) == start_args(session_path_spec("unknown"@, session_token@)),
        string_views(p.open_pipewire_remote@) == open_remote_args(session_path_spec("unknown"@, session_token@)),
{
    let session_handle = expected_session_handle(session_token);
    let mut create = gdbus_call("CreateSession");
    let mut options = String::from_str("{'handle_token': <'");
    push_str(&mut options, request_token);
    push_str(&mut options, "'>, 'session_handle_token': <'");
    push_str(&mut options, session_token);
    push_str(&mut options, "'>}");
    push_string(&mut create, options);
    let mut select = gdbus_call("SelectSources");
    push_string(&mut select, session_handle.clone());
    push_string(&mut select, String::from_str("{'multiple': <false>, 'types': <uint32 1>, 'cursor_mode': <uint32 2>}"));
    let mut start = gdbus_call("Start");
    push_string(&mut start, session_handle.clone());
    push_string(&mut start, String::new());
    push_string(&mut start, String::from_str("{}"));
    let mut open = gdbus_call("OpenPipeWireRemote");
    push_string(&mut open, session_handle);
    push_string(&mut open, String::from_str("{}"));
    ScreenCastPortalCommandPlan { create_session: create, select_sources: select, start, open_pipewire_remote: open }
}

// ---------------------------------------------------------------------------
// Reading replies

/// End (exclusive) of the last run of ASCII digits in `s[..i]`, or 0.
pub open spec fn last_digit_end(s: Seq<char>, i: int) -> int
    decreases i,
{
    if i <= 0 || i > s.len() {
        0
    } else if is_digit(s[i - 1]) {
        i
    } else {
        last_digit_end(s, i - 1)
    }
}

/// Start of the run of ASCII digits that ends at `i`.
pub open spec fn digit_run_start(s: Seq<char>, i: int) -> int
    decreases i,
{
    if i <= 0 || i > s.len() {
        0
    } else if is_digit(s[i - 1]) {
        digit_run_start(s, i - 1)
    } else {
        i
    }
}

proof fn lemma_digit_runs(s: Seq<char>, i: int)
    requires
        0 <= i <= s.len(),
    ensures
        0 <= last_digit_end(s, i) <= i,
        0 <= digit_run_start(s, i) <= i,
    decreases i,
{
    if i > 0 {
        lemma_digit_runs(s, i - 1);
    }
}

/// The number a portal property read prints: the last run of ASCII
/// digits in the output (earlier runs belong to type names such as
/// `uint32`), read as a `u32`.
pub open spec fn last_u32(s: Seq<char>) -> Option<u32> {
    let e = last_digit_end(s, s.len() as int);
    if e == 0 {
        None
    } else {
        parse_u32_spec(s.subrange(digit_run_start(s, e), e))
    }
}

/// The value of a portal property from gdbus or busctl output.
pub fn parse_first_u32(output: &str) -> (r: Option<u32>)
    ensures
        r == last_u32(output@),
{
    let s = chars_of(output);
    let mut e = s.len();
    while e > 0 && !(s[e - 1] >= '0' && s[e - 1] <= '9')
        invariant
            e <= s@.len(),
            s@ == output@,
            last_digit_end(s@, s@.len() as int) == last_digit_end(s@, e as int),
        decreases e,
    {
        e -= 1;
    }
    if e == 0 {
        return None;
    }
    let mut b = e;
    while b > 0 && s[b - 1] >= '0' && s[b - 1] <= '9'
        invariant
            b <= e <= s@.len(),
            e > 0,
            digit_run_start(s@, e as int) == digit_run_start(s@, b as int),
        decreases b,
    {
        b -= 1;
    }
    let token = slice_chars(&s, b, e);
    parse_u32(&token)
}

/// The text between the first `marker` in `s` and the next `close` after
/// it; `None` when either is missing.
pub open spec fn text_after(s: Seq<char>, marker: Seq<char>, close: char) -> Option<Seq<char>> {
    let m = find_from(s, marker, 0);
    if m == -1 {
        None
    } else {
        let rest = s.subrange(m + marker.len(), s.len() as int);
        let e = find_from(rest, seq![close], 0);
        if e == -1 { None } else { Some(rest.subrange(0, e)) }
    }
}

fn text_after_chars(s: &[char], marker: &str, close: char) -> (r: Option<Vec<char>>)
    ensures
        match r {
            Some(v) => text_after(s@, marker@, close) == Some(v@),
            None => text_after(s@, marker@, close) is None,
        },
{
    let mk = chars_of(marker);
    proof { lemma_find_from(s@, mk@, 0); }
    match find(s, &mk, 0) {
        None => None,
        Some(m) => {
            assert(occurs_at(s@, mk@, m as int));
            let n = s.len();
            assert(m + mk@.len() <= n);
            let rest = slice_chars(s, m + mk.len(), n);
            let cl: Vec<char> = vec![close];
            assert(cl@ == seq![close]);
            proof { lemma_find_from(rest@, cl@, 0); }
            match find(&rest, &cl, 0) {
                None => None,
                Some(e) => Some(slice_chars(&rest, 0, e)),
            }
        },
    }
}

/// The request handle in a gdbus reply: the first single-quoted text.
pub fn parse_request_handle(output: &str) -> (r: Option<String>)
    ensures
        opt_sview(r) == text_after(output@, "'"@, '\''),
{
    match text_after_chars(&chars_of(output), "'", '\'') {
        Some(v) => Some(string_of(&v)),
        None => None,
    }
}

/// The value printed after `key` in a portal reply: an object path in
/// single quotes, else a string in double quotes.
pub open spec fn variant_string(output: Seq<char>, key: Seq<char>) -> Option<Seq<char>> {
    let k = find_from(output, key, 0);
    if k == -1 {
        None
    } else {
        let tail = output.subrange(k + key.len(), output.len() as int);
        match text_after(tail, "objectpath '"@, '\'') {
            Some(v) => Some(v),
            None => text_after(tail, "string \""@, '"'),
        }
    }
}

pub fn extract_variant_string(output: &str, key: &str) -> (r: Option<String>)
    ensures
        opt_sview(r) == variant_string(output@, key@),
{
    let s = chars_of(output);
    let k = chars_of(key);
    proof { lemma_find_from(s@, k@, 0); }
    match find(&s, &k, 0) {
        None => None,
        Some(i) => {
            assert(occurs_at(s@, k@, i as int));
            let n = s.len();
            assert(i + k@.len() <= n);
            let tail = slice_chars(&s, i + k.len(), n);
            match text_after_chars(&tail, "objectpath '", '\'') {
                Some(v) => Some(string_of(&v)),
                None => match text_after_chars(&tail, "string \"", '"') {
                    Some(v) => Some(string_of(&v)),
                    None => None,
                },
            }
        },
    }
}

pub fn parse_session_handle_from_response(output: &str) -> (r: Option<String>)
    ensures
        opt_sview(r) == variant_string(output@, "session_handle"@),
{
    extract_variant_string(output, "session_handle")
}

pub fn parse_restore_token_from_response(output: &str) -> (r: Option<String>)
    ensures
        opt_sview(r) == variant_string(output@, "restore_token"@),
{
    extract_variant_string(output, "restore_token")
}

pub open spec fn streams_key() -> Seq<char> {
    "string \"streams\""@
}

pub open spec fn struct_key() -> Seq<char> {
    "struct {"@
}

pub open spec fn uint_key() -> Seq<char> {
    "uint32"@
}

/// The node id of one stream entry: the first word after its first
/// `uint32` (and before the next one), read as a `u32`.
pub open spec fn chunk_node_id(chunk: Seq<char>) -> Option<u32> {
    let u = find_from(chunk, uint_key(), 0);
    if u == -1 {
        None
    } else {
        let from = u + uint_key().len();
        let nxt = find_from(chunk, uint_key(), from);
        let seg = chunk.subrange(from, if nxt == -1 { chunk.len() as int } else { nxt });
        let w = words(seg);
        if w.len() == 0 { None } else { parse_u32_spec(w[0]) }
    }
}

/// Node ids of the stream entries of `sec` from index `i` on, where `i`
/// is just past a `struct {`.
pub open spec fn chunk_ids_from(sec: Seq<char>, i: int) -> Seq<u32>
    decreases sec.len() - i,
{
    if i < 0 || i > sec.len() {
        seq![]
    } else {
        let e = find_from(sec, struct_key(), i);
        let chunk = sec.subrange(i, if e == -1 { sec.len() as int } else { e });
        let here = match chunk_node_id(chunk) {
            Some(v) => seq![v],
            None => seq![],
        };
        if e == -1 || e < i || e + struct_key().len() > sec.len() || struct_key().len() == 0 {
            here
        } else {
            here + chunk_ids_from(sec, e + struct_key().len())
        }
    }
}

/// The part of a reply between the first and the second `string "streams"`.
pub open spec fn stream_section(s: Seq<char>) -> Option<Seq<char>> {
    let a = find_from(s, streams_key(), 0);
    if a == -1 {
        None
    } else {
        let from = a + streams_key().len();
        let b = find_from(s, streams_key(), from);
        Some(s.subrange(from, if b == -1 { s.len() as int } else { b }))
    }
}

/// The PipeWire node ids of the streams in a `Start` reply, in order.
pub open spec fn stream_node_ids(s: Seq<char>) -> Seq<u32> {
    match stream_section(s) {
        None => seq![],
        Some(sec) => {
            let f = find_from(sec, struct_key(), 0);
            if f == -1 { seq![] } else { chunk_ids_from(sec, f + struct_key().len()) }
        },
    }
}

/// `s[from..]` up to the next `key` (or the end), with where it stopped.
fn segment_until(s: &[char], key: &[char], from: usize) -> (r: (Vec<char>, Option<usize>))
    requires
        from <= s@.len(),
    ensures
        s@.len() <= usize::MAX,
        match r.1 {
            Some(e) => e as int == find_from(s@, key@, from as int) && from <= e
                && e + key@.len() <= s@.len() && r.0@ == s@.subrange(from as int, e as int),
            None => find_from(s@, key@, from as int) == -1 && r.0@ == s@.subrange(from as int, s@.len() as int),
        },
{
    proof { lemma_find_from(s@, key@, from as int); }
    let n = s.len();
    match find(s, key, from) {
        Some(e) => {
            assert(occurs_at(s@, key@, e as int));
            (slice_chars(s, from, e), Some(e))
        },
        None => (slice_chars(s, from, n), None),
    }
}

fn chunk_node_id_of(chunk: &[char]) -> (r: Option<u32>)
    ensures
        r == chunk_node_id(chunk@),
{
    let key = chars_of("uint32");
    let (_, u) = segment_until(chunk, &key, 0);
    match u {
        None => None,
        Some(u) => {
            let (seg, _) = segment_until(chunk, &key, u + key.len());
            let w = split_words(&seg);
            if w.len() == 0 {
                None
            } else {
                assert(views(w@)[0] == w@[0]@);
                parse_u32(&w[0])
            }
        },
    }
}

/// The PipeWire node ids of the streams in a `Start` reply.
pub fn parse_stream_node_ids_from_response(output: &str) -> (r: Vec<u32>)
    ensures
        r@ == stream_node_ids(output@),
{
    proof {
        reveal_strlit("struct {");
    }
    let s = chars_of(output);
    let skey = chars_of("string \"streams\"");
    let (_, a) = segment_until(&s, &skey, 0);
    let mut ids: Vec<u32> = Vec::new();
    let a = match a {
        None => {
            return ids;
        },
        Some(a) => a,
    };
    let (sec, _) = segment_until(&s, &skey, a + skey.len());
    assert(stream_section(output@) == Some(sec@));
    let ckey = chars_of("struct {");
    let (_, f) = segment_until(&sec, &ckey, 0);
    let f = match f {
        None => {
            return ids;
        },
        Some(f) => f,
    };
    let mut i = f + ckey.len();
    assert(stream_node_ids(output@) == chunk_ids_from(sec@, i as int));
    loop
        invariant
            i <= sec@.len(),
            ckey@ == struct_key(),
            ckey@.len() == 8,
            ids@ + chunk_ids_from(sec@, i as int) == stream_node_ids(output@),
        decreases sec@.len() - i,
    {
        let (chunk, e) = segment_until(&sec, &ckey, i);
        let here = chunk_node_id_of(&chunk);
        let ghost expect = match chunk_node_id(chunk@) {
            Some(v) => seq![v],
            None => Seq::<u32>::empty(),
        };
        let ghost before = ids@;
        match here {
            Some(v) => ids.push(v),
            None => {},
        }
        assert(ids@ == before + expect);
        match e {
            None => {
                assert(chunk_ids_from(sec@, i as int) == expect);
                assert(ids@ == stream_node_ids(output@));
                return ids;
            },
            Some(e) => {
                assert(chunk_ids_from(sec@, i as int) == expect + chunk_ids_from(sec@, e + 8));
                assert(before + (expect + chunk_ids_from(sec@, e + 8)) == (before + expect) + chunk_ids_from(sec@, e + 8));
                i = e + ckey.len();
            },
        }
    }
}

/// The session handle, restore token and stream node ids of a `Start`
/// reply; `None` without a session handle.
pub fn parse_start_response(output: &str) -> (r: Option<ScreenCastPortalStartResult>)
    ensures
        match r {
            Some(res) => variant_string(output@, "session_handle"@) == Some(res.session_handle@)
                && opt_sview(res.restore_token) == variant_string(output@, "restore_token"@)
                && res.stream_node_ids@ == stream_node_ids(output@),
            None => variant_string(output@, "session_handle"@) is None,
        },
{
    let session_handle = match parse_session_handle_from_response(output) {
        Some(h) => h,
        None => {
            return None;
        },
    };
    let restore_token = parse_restore_token_from_response(output);
    let stream_node_ids = parse_stream_node_ids_from_response(output);
    Some(ScreenCastPortalStartResult { session_handle, restore_token, stream_node_ids })
}

} // verus!
