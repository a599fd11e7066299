//! The Windows.Graphics.Capture lane: the monitors and windows that can
//! be recorded, where a target lies, and what each stage of the lane
//! reports.
use vstd::prelude::*;
use vstd::string::*;
use crate::capture::{capture_reason, full_desktop_target, opt_sview, target_views, CaptureBackendAvailability,
    CaptureBackendDescriptor, CaptureBackendRuntimeReport, CaptureError, CaptureTargetOption, CaptureTargetView,
    RecordingOptions, CUSTOM_REGION_TARGET_ID, FULL_DESKTOP_TARGET_ID};
use crate::linux::targets::{bottom_edge, desktop_fits, full_desktop_view, max_bottom, max_right, min_x, min_y, monitor_target,
    placement, placement_text, right_edge, MonitorView};
use crate::text::{chars_of, dec, has_prefix, idec, push_dec, push_idec, push_str, slice_chars, starts_with, str_eq,
    string_of};

verus! {

/// The Windows.Graphics.Capture lane.
pub struct WindowsGraphicsCaptureBackend;

pub fn backend() -> WindowsGraphicsCaptureBackend {
    WindowsGraphicsCaptureBackend
}

/// A monitor as the display query lists it.
#[derive(Debug, Clone, PartialEq, Eq)]
pub struct MonitorDescriptor {
    pub device_name: String,
    pub label: String,
    pub width: u32,
    pub height: u32,
    pub x: i32,
    pub y: i32,
    pub primary: bool,
}

impl View for MonitorDescriptor {
    type V = MonitorView;

    open spec fn view(&self) -> MonitorView {
        MonitorView {
            connector: self.device_name@,
            label: self.label@,
            width: self.width,
            height: self.height,
            x: self.x,
            y: self.y,
            is_primary: self.primary,
        }
    }
}

pub open spec fn monitor_views(v: Seq<MonitorDescriptor>) -> Seq<MonitorView> {
    v.map_values(|m: MonitorDescriptor| m@)
}

/// A top-level window as the window query lists it.
#[derive(Debug, Clone, PartialEq, Eq)]
pub struct WindowDescriptor {
    pub id: i64,
    pub title: String,
    pub process_name: String,
    pub width: u32,
    pub height: u32,
    pub x: i32,
    pub y: i32,
}

/// Where a capture target lies on the desktop.
#[derive(Debug, Clone, PartialEq, Eq)]
pub struct ResolvedTarget {
    pub label: String,
    pub source: String,
    pub offset_x: Option<i32>,
    pub offset_y: Option<i32>,
    pub video_size: Option<(u32, u32)>,
}

pub struct ResolvedView {
    pub label: Seq<char>,
    pub source: Seq<char>,
    pub offset_x: Option<i32>,
    pub offset_y: Option<i32>,
    pub video_size: Option<(u32, u32)>,
}

impl View for ResolvedTarget {
    type V = ResolvedView;

    open spec fn view(&self) -> ResolvedView {
        ResolvedView {
            label: self.label@,
            source: self.source@,
            offset_x: self.offset_x,
            offset_y: self.offset_y,
            video_size: self.video_size,
        }
    }
}

/// The whole desktop: the bounding box of all monitors, or no place and
/// size when no monitor is known.
pub open spec fn full_desktop_spec(v: Seq<MonitorView>) -> ResolvedView {
    if v.len() == 0 {
        ResolvedView { label: "Full desktop"@, source: "desktop"@, offset_x: None, offset_y: None, video_size: None }
    } else {
        ResolvedView {
            label: "Full desktop"@,
            source: "desktop"@,
            offset_x: Some(min_x(v) as i32),
            offset_y: Some(min_y(v) as i32),
            video_size: Some((((max_right(v) - min_x(v)) as i32) as u32, ((max_bottom(v) - min_y(v)) as i32) as u32)),
        }
    }
}

pub fn resolve_full_desktop_target(monitors: &[MonitorDescriptor]) -> (r: ResolvedTarget)
    requires
        desktop_fits(monitor_views(monitors@)),
    ensures
        r@ == full_desktop_spec(monitor_views(monitors@)),
{
    let ghost v = monitor_views(monitors@);
    if monitors.len() == 0 {
        return ResolvedTarget {
            label: String::from_str("Full desktop"),
            source: String::from_str("desktop"),
            offset_x: None,
            offset_y: None,
            video_size: None,
        };
    }
    assert(v[0] == monitors@[0]@);
    assert(i32::MIN <= right_edge(v[0]) <= i32::MAX);
    assert(i32::MIN <= bottom_edge(v[0]) <= i32::MAX);
    let mut lx = monitors[0].x;
    let mut ly = monitors[0].y;
    let mut hx = monitors[0].x + monitors[0].width as i32;
    let mut hy = monitors[0].y + monitors[0].height as i32;
    assert(v.subrange(0, 1) == seq![v[0]]);
    let mut i: usize = 1;
    while i < monitors.len()
        invariant
            1 <= i <= monitors@.len(),
            v == monitor_views(monitors@),
            desktop_fits(v),
            lx == min_x(v.subrange(0, i as int)),
            ly == min_y(v.subrange(0, i as int)),
            hx == max_right(v.subrange(0, i as int)),
            hy == max_bottom(v.subrange(0, i as int)),
        decreases monitors@.len() - i,
    {
        let m = &monitors[i];
        assert(v[i as int] == m@);
        assert(v.subrange(0, i + 1).drop_last() == v.subrange(0, i as int));
        assert(v.subrange(0, i + 1).last() == v[i as int]);
        assert(i32::MIN <= right_edge(v[i as int]) <= i32::MAX);
        assert(i32::MIN <= bottom_edge(v[i as int]) <= i32::MAX);
        let rx = m.x + m.width as i32;
        let by = m.y + m.height as i32;
        if m.x < lx {
            lx = m.x;
        }
        if m.y < ly {
            ly = m.y;
        }
        if rx > hx {
            hx = rx;
        }
        if by > hy {
            hy = by;
        }
        i += 1;
    }
    assert(v.subrange(0, i as int) == v);
    ResolvedTarget {
        label: String::from_str("Full desktop"),
        source: String::from_str("desktop"),
        offset_x: Some(lx),
        offset_y: Some(ly),
        video_size: Some(((hx - lx) as u32, (hy - ly) as u32)),
    }
}

/// What resolving a target comes to: a place on the desktop, an
/// unavailable target with its message, or the window query's error.
pub enum ResolveOutcome {
    Target(ResolvedView),
    Unavailable(Seq<char>),
    WindowsFailed,
}

pub open spec fn first_device(v: Seq<MonitorDescriptor>, name: Seq<char>, i: int) -> int
    decreases v.len() - i,
{
    if i < 0 || i >= v.len() { -1 } else if v[i].device_name@ == name { i } else { first_device(v, name, i + 1) }
}

pub open spec fn first_window_id(v: Seq<WindowDescriptor>, id: Seq<char>, i: int) -> int
    decreases v.len() - i,
{
    if i < 0 || i >= v.len() { -1 } else if idec(v[i].id as int) == id { i } else { first_window_id(v, id, i + 1) }
}

pub open spec fn custom_region_label(x: u32, y: u32, w: u32, h: u32) -> Seq<char> {
    "Custom region · "@ + dec(x as nat) + ", "@ + dec(y as nat) + " · "@ + dec(w as nat) + " x "@ + dec(h as nat)
}

pub open spec fn at_least_64(v: u32) -> u32 {
    if v >= 64 { v } else { 64 }
}

pub open spec fn windows_listing(w: Result<Vec<WindowDescriptor>, CaptureError>) -> Option<Seq<WindowDescriptor>> {
    match w {
        Ok(v) => Some(v@),
        Err(_) => None,
    }
}

/// Where a capture target lies: the full desktop, a listed monitor
/// (`monitor:<device name>`), a listed window (`window:<id>`) or the
/// custom region.
pub open spec fn resolve_spec(
    id: Seq<char>,
    region: (u32, u32, u32, u32),
    monitors: Seq<MonitorDescriptor>,
    windows: Option<Seq<WindowDescriptor>>,
) -> ResolveOutcome {
    if id == FULL_DESKTOP_TARGET_ID@ {
        ResolveOutcome::Target(full_desktop_spec(monitor_views(monitors)))
    } else if has_prefix(id, "monitor:"@) {
        let c = id.subrange(8, id.len() as int);
        let k = first_device(monitors, c, 0);
        if k == -1 {
            ResolveOutcome::Unavailable("the selected monitor `"@ + c + "` is no longer available"@)
        } else {
            ResolveOutcome::Target(ResolvedView {
                label: monitors[k].label@,
                source: "desktop"@,
                offset_x: Some(monitors[k].x),
                offset_y: Some(monitors[k].y),
                video_size: Some((monitors[k].width, monitors[k].height)),
            })
        }
    } else if has_prefix(id, "window:"@) {
        let wid = id.subrange(7, id.len() as int);
        match windows {
            None => ResolveOutcome::WindowsFailed,
            Some(ws) => {
                let k = first_window_id(ws, wid, 0);
                if k == -1 {
                    ResolveOutcome::Unavailable("the selected window `"@ + wid + "` is no longer available"@)
                } else {
                    ResolveOutcome::Target(ResolvedView {
                        label: "Window · "@ + ws[k].title@,
                        source: "desktop"@,
                        offset_x: Some(ws[k].x),
                        offset_y: Some(ws[k].y),
                        video_size: Some((ws[k].width, ws[k].height)),
                    })
                }
            },
        }
    } else if id == CUSTOM_REGION_TARGET_ID@ {
        ResolveOutcome::Target(ResolvedView {
            label: custom_region_label(region.0, region.1, region.2, region.3),
            source: "desktop"@,
            offset_x: Some(region.0 as i32),
            offset_y: Some(region.1 as i32),
            video_size: Some((at_least_64(region.2), at_least_64(region.3))),
        })
    } else {
        ResolveOutcome::Unavailable("unknown Windows capture target: "@ + id)
    }
}

fn unavailable_error(prefix: &str, middle: &[char], suffix: &str) -> (e: CaptureError)
    ensures
        e matches CaptureError::BackendUnavailable(m) && m@ == prefix@ + middle@ + suffix@,
{
    let mut m = String::from_str(prefix);
    let mid = string_of(middle);
    push_str(&mut m, mid.as_str());
    push_str(&mut m, suffix);
    CaptureError::BackendUnavailable(m)
}

fn window_id_text(id: i64) -> (r: String)
    ensures
        r@ == idec(id as int),
{
    let mut s = String::new();
    push_idec(&mut s, id);
    proof { assert(s@ =~= Seq::<char>::empty() + idec(id as int)); }
    s
}

pub open spec fn region_of(o: RecordingOptions) -> (u32, u32, u32, u32) {
    (o.region_x, o.region_y, o.region_width, o.region_height)
}

/// Resolves the target of a recording against the listed monitors (none
/// when the display query failed) and the window query's outcome, which
/// only matters for a window target.
#[verifier::loop_isolation(false)]
pub fn resolve_target(
    options: &RecordingOptions,
    monitors: &[MonitorDescriptor],
    windows: &Result<Vec<WindowDescriptor>, CaptureError>,
) -> (r: Result<ResolvedTarget, CaptureError>)
    requires
        options.capture_target_id@ == FULL_DESKTOP_TARGET_ID@ ==> desktop_fits(monitor_views(monitors@)),
    ensures
        match resolve_spec(options.capture_target_id@, region_of(*options), monitors@, windows_listing(*windows)) {
            ResolveOutcome::Target(v) => r matches Ok(t) && t@ == v,
            ResolveOutcome::Unavailable(m) => r matches Err(CaptureError::BackendUnavailable(x)) && x@ == m,
            ResolveOutcome::WindowsFailed => *windows matches Err(e) && r == Err::<ResolvedTarget, CaptureError>(e),
        },
{
    proof {
        reveal_strlit("monitor:");
        reveal_strlit("window:");
        reveal_strlit("");
        reveal_strlit("full-desktop");
        reveal_strlit("region:custom");
    }
    let id = chars_of(options.capture_target_id.as_str());
    if str_eq(options.capture_target_id.as_str(), FULL_DESKTOP_TARGET_ID) {
        return Ok(resolve_full_desktop_target(monitors));
    }
    let n = id.len();
    if starts_with(&id, &chars_of("monitor:")) {
        let c = slice_chars(&id, 8, n);
        let cs = string_of(&c);
        let mut i: usize = 0;
        while i < monitors.len()
            invariant
                i <= monitors@.len(),
                cs@ == c@,
                first_device(monitors@, c@, 0) == first_device(monitors@, c@, i as int),
            decreases monitors@.len() - i,
        {
            if str_eq(monitors[i].device_name.as_str(), cs.as_str()) {
                let m = &monitors[i];
                return Ok(ResolvedTarget {
                    label: m.label.clone(),
                    source: String::from_str("desktop"),
                    offset_x: Some(m.x),
                    offset_y: Some(m.y),
                    video_size: Some((m.width, m.height)),
                });
            }
            i += 1;
        }
        return Err(unavailable_error("the selected monitor `", &c, "` is no longer available"));
    }
    if starts_with(&id, &chars_of("window:")) {
        let wid = slice_chars(&id, 7, n);
        let ws = match windows {
            Ok(ws) => ws,
            Err(e) => {
                return Err(e.clone_error());
            },
        };
        let wids = string_of(&wid);
        let mut i: usize = 0;
        while i < ws.len()
            invariant
                i <= ws@.len(),
                wids@ == wid@,
                first_window_id(ws@, wid@, 0) == first_window_id(ws@, wid@, i as int),
            decreases ws@.len() - i,
        {
            let t = window_id_text(ws[i].id);
            if str_eq(t.as_str(), wids.as_str()) {
                let w = &ws[i];
                let mut label = String::from_str("Window · ");
                push_str(&mut label, w.title.as_str());
                return Ok(ResolvedTarget {
                    label,
                    source: String::from_str("desktop"),
                    offset_x: Some(w.x),
                    offset_y: Some(w.y),
                    video_size: Some((w.width, w.height)),
                });
            }
            i += 1;
        }
        return Err(unavailable_error("the selected window `", &wid, "` is no longer available"));
    }
    if str_eq(options.capture_target_id.as_str(), CUSTOM_REGION_TARGET_ID) {
        let mut label = String::from_str("Custom region · ");
        push_dec(&mut label, options.region_x as u64);
        push_str(&mut label, ", ");
        push_dec(&mut label, options.region_y as u64);
        push_str(&mut label, " · ");
        push_dec(&mut label, options.region_width as u64);
        push_str(&mut label, " x ");
        push_dec(&mut label, options.region_height as u64);
        return Ok(ResolvedTarget {
            label,
            source: String::from_str("desktop"),
            offset_x: Some(options.region_x as i32),
            offset_y: Some(options.region_y as i32),
            video_size: Some((
                if options.region_width >= 64 { options.region_width } else { 64 },
                if options.region_height >= 64 { options.region_height } else { 64 },
            )),
        });
    }
    Err(unavailable_error("unknown Windows capture target: ", &id, ""))
}

// What the lane would do

/// The start plan of a recording.
#[derive(Debug, Clone, PartialEq, Eq)]
pub struct WindowsCaptureStartPlan {
    pub target_id: String,
    pub target_label: String,
    pub source_kind: String,
    pub width: Option<u32>,
    pub height: Option<u32>,
    pub summary: String,
}

pub open spec fn start_summary_spec(t: ResolvedView) -> Seq<char> {
    match t.video_size {
        Some((w, h)) => "Windows capture start plan would target `"@ + t.label + "` through "@ + t.source + " at "@
            + dec(w as nat) + "x"@ + dec(h as nat) + "."@,
        None => "Windows capture start plan would target `"@ + t.label + "` through "@ + t.source + "."@,
    }
}

/// The start plan of a recording on its resolved target (see `resolve_target`).
pub fn start_plan(
    options: &RecordingOptions,
    monitors: &[MonitorDescriptor],
    windows: &Result<Vec<WindowDescriptor>, CaptureError>,
) -> (r: Result<WindowsCaptureStartPlan, CaptureError>)
    requires
        options.capture_target_id@ == FULL_DESKTOP_TARGET_ID@ ==> desktop_fits(monitor_views(monitors@)),
    ensures
        match resolve_spec(options.capture_target_id@, region_of(*options), monitors@, windows_listing(*windows)) {
            ResolveOutcome::Target(t) => r matches Ok(p) && {
                let (w, h) = match t.video_size { Some(s) => s, None => (0u32, 0u32) };
                &&& p.target_id@ == options.capture_target_id@
                &&& p.target_label@ == t.label
                &&& p.source_kind@ == t.source
                &&& p.width == (if w > 0 { Some(w) } else { None })
                &&& p.height == (if h > 0 { Some(h) } else { None })
                &&& p.summary@ == start_summary_spec(t)
            },
            ResolveOutcome::Unavailable(m) => r matches Err(CaptureError::BackendUnavailable(x)) && x@ == m,
            ResolveOutcome::WindowsFailed => *windows matches Err(e) && r == Err::<WindowsCaptureStartPlan, CaptureError>(e),
        },
{
    let resolved = match resolve_target(options, monitors, windows) {
        Ok(t) => t,
        Err(e) => {
            return Err(e);
        },
    };
    let (width, height) = match resolved.video_size {
        Some(s) => s,
        None => (0, 0),
    };
    let mut summary = String::from_str("Windows capture start plan would target `");
    push_str(&mut summary, resolved.label.as_str());
    push_str(&mut summary, "` through ");
    push_str(&mut summary, resolved.source.as_str());
    match resolved.video_size {
        Some((w, h)) => {
            push_str(&mut summary, " at ");
            push_dec(&mut summary, w as u64);
            push_str(&mut summary, "x");
            push_dec(&mut summary, h as u64);
            push_str(&mut summary, ".");
        },
        None => push_str(&mut summary, "."),
    }
    Ok(WindowsCaptureStartPlan {
        target_id: options.capture_target_id.clone(),
        target_label: resolved.label,
        source_kind: resolved.source,
        width: if width > 0 { Some(width) } else { None },
        height: if height > 0 { Some(height) } else { None },
        summary,
    })
}

/// The target the capture item is built for: a custom region records
/// from its source target.
pub open spec fn effective_target_spec(o: RecordingOptions) -> Seq<char> {
    if o.capture_target_id@ == CUSTOM_REGION_TARGET_ID@ { o.region_source_capture_target_id@ } else { o.capture_target_id@ }
}

pub fn effective_target_id(options: &RecordingOptions) -> (r: &str)
    ensures
        r@ == effective_target_spec(*options),
{
    if str_eq(options.capture_target_id.as_str(), CUSTOM_REGION_TARGET_ID) {
        options.region_source_capture_target_id.as_str()
    } else {
        options.capture_target_id.as_str()
    }
}

/// The item a capture session is built on: a listed monitor (by index) or
/// a listed window (by id), with its label.
#[derive(Debug, Clone, PartialEq, Eq)]
pub enum CaptureItemTarget {
    Monitor { label: String, index: usize },
    Window { label: String, id: i64 },
}

pub enum ItemOutcome {
    Monitor(Seq<char>, int),
    Window(Seq<char>, i64),
    Unavailable(Seq<char>),
    MonitorsFailed,
    WindowsFailed,
}

pub open spec fn monitors_listing(m: Result<Vec<MonitorDescriptor>, CaptureError>) -> Option<Seq<MonitorDescriptor>> {
    match m {
        Ok(v) => Some(v@),
        Err(_) => None,
    }
}

/// Which item a capture session is built on: the only monitor for the
/// full desktop, a listed monitor, or a listed window.
pub open spec fn item_spec(id: Seq<char>, monitors: Option<Seq<MonitorDescriptor>>, windows: Option<Seq<WindowDescriptor>>) -> ItemOutcome {
    if id == FULL_DESKTOP_TARGET_ID@ {
        match monitors {
            None => ItemOutcome::MonitorsFailed,
            Some(ms) => if ms.len() == 1 {
                ItemOutcome::Monitor(ms[0].label@, 0)
            } else {
                ItemOutcome::Unavailable("Windows.Graphics.Capture native foundation needs a specific monitor or window target. Full-desktop capture across multiple monitors is not wired yet."@)
            },
        }
    } else if has_prefix(id, "monitor:"@) {
        let c = id.subrange(8, id.len() as int);
        match monitors {
            None => ItemOutcome::MonitorsFailed,
            Some(ms) => {
                let k = first_device(ms, c, 0);
                if k == -1 {
                    ItemOutcome::Unavailable("the selected monitor `"@ + c + "` is no longer available"@)
                } else {
                    ItemOutcome::Monitor(ms[k].label@, k)
                }
            },
        }
    } else if has_prefix(id, "window:"@) {
        let wid = id.subrange(7, id.len() as int);
        match windows {
            None => ItemOutcome::WindowsFailed,
            Some(ws) => {
                let k = first_window_id(ws, wid, 0);
                if k == -1 {
                    ItemOutcome::Unavailable("the selected window `"@ + wid + "` is no longer available"@)
                } else {
                    ItemOutcome::Window("Window · "@ + ws[k].title@, ws[k].id)
                }
            },
        }
    } else {
        ItemOutcome::Unavailable("Windows.Graphics.Capture could not build a native capture item for target `"@ + id + "`."@)
    }
}

pub open spec fn item_ok(r: Result<CaptureItemTarget, CaptureError>, o: ItemOutcome,
    monitors: Result<Vec<MonitorDescriptor>, CaptureError>, windows: Result<Vec<WindowDescriptor>, CaptureError>) -> bool {
    match o {
        ItemOutcome::Monitor(l, k) => r matches Ok(CaptureItemTarget::Monitor { label, index }) && label@ == l && index == k,
        ItemOutcome::Window(l, id) => r matches Ok(CaptureItemTarget::Window { label, id: i }) && label@ == l && i == id,
        ItemOutcome::Unavailable(m) => r matches Err(CaptureError::BackendUnavailable(x)) && x@ == m,
        ItemOutcome::MonitorsFailed => monitors matches Err(e) && r == Err::<CaptureItemTarget, CaptureError>(e),
        ItemOutcome::WindowsFailed => windows matches Err(e) && r == Err::<CaptureItemTarget, CaptureError>(e),
    }
}

/// The item a capture session is built on (see `item_spec`), from the
/// outcomes of the monitor and window queries.
#[verifier::loop_isolation(false)]
pub fn capture_item_target(
    options: &RecordingOptions,
    monitors: &Result<Vec<MonitorDescriptor>, CaptureError>,
    windows: &Result<Vec<WindowDescriptor>, CaptureError>,
) -> (r: Result<CaptureItemTarget, CaptureError>)
    ensures
        item_ok(r, item_spec(effective_target_spec(*options), monitors_listing(*monitors), windows_listing(*windows)),
            *monitors, *windows),
{
    proof {
        reveal_strlit("monitor:");
        reveal_strlit("window:");
    }
    let target = effective_target_id(options);
    if str_eq(target, FULL_DESKTOP_TARGET_ID) {
        let ms = match monitors {
            Ok(ms) => ms,
            Err(e) => {
                return Err(e.clone_error());
            },
        };
        if ms.len() == 1 {
            return Ok(CaptureItemTarget::Monitor { label: ms[0].label.clone(), index: 0 });
        }
        return Err(CaptureError::BackendUnavailable(String::from_str(
            "Windows.Graphics.Capture native foundation needs a specific monitor or window target. Full-desktop capture across multiple monitors is not wired yet.")));
    }
    let id = chars_of(target);
    let n = id.len();
    if starts_with(&id, &chars_of("monitor:")) {
        let c = slice_chars(&id, 8, n);
        let ms = match monitors {
            Ok(ms) => ms,
            Err(e) => {
                return Err(e.clone_error());
            },
        };
        let cs = string_of(&c);
        let mut i: usize = 0;
        while i < ms.len()
            invariant
                i <= ms@.len(),
                cs@ == c@,
                first_device(ms@, c@, 0) == first_device(ms@, c@, i as int),
            decreases ms@.len() - i,
        {
            if str_eq(ms[i].device_name.as_str(), cs.as_str()) {
                return Ok(CaptureItemTarget::Monitor { label: ms[i].label.clone(), index: i });
            }
            i += 1;
        }
        return Err(unavailable_error("the selected monitor `", &c, "` is no longer available"));
    }
    if starts_with(&id, &chars_of("window:")) {
        let wid = slice_chars(&id, 7, n);
        let ws = match windows {
            Ok(ws) => ws,
            Err(e) => {
                return Err(e.clone_error());
            },
        };
        let wids = string_of(&wid);
        let mut i: usize = 0;
        while i < ws.len()
            invariant
                i <= ws@.len(),
                wids@ == wid@,
                first_window_id(ws@, wid@, 0) == first_window_id(ws@, wid@, i as int),
            decreases ws@.len() - i,
        {
            let t = window_id_text(ws[i].id);
            if str_eq(t.as_str(), wids.as_str()) {
                let mut label = String::from_str("Window · ");
                push_str(&mut label, ws[i].title.as_str());
                return Ok(CaptureItemTarget::Window { label, id: ws[i].id });
            }
            i += 1;
        }
        return Err(unavailable_error("the selected window `", &wid, "` is no longer available"));
    }
    Err(unavailable_error("Windows.Graphics.Capture could not build a native capture item for target `", &id, "`."))
}

/// The execution plan of a recording.
#[derive(Debug, Clone, PartialEq, Eq)]
pub struct WindowsGraphicsCaptureExecutionPlan {
    pub target_id: String,
    pub target_label: String,
    pub item_kind: String,
    pub width: u32,
    pub height: u32,
    pub summary: String,
}

/// Whether the full desktop spans several monitors and is composed from
/// one session per monitor.
pub open spec fn composite_spec(o: RecordingOptions, monitors: Option<Seq<MonitorDescriptor>>) -> bool {
    effective_target_spec(o) == FULL_DESKTOP_TARGET_ID@ && match monitors {
        Some(ms) => ms.len() > 1,
        None => false,
    }
}

pub open spec fn at_least_1(v: u32) -> u32 {
    if v >= 1 { v } else { 1 }
}

pub open spec fn size_of(t: ResolvedView) -> (u32, u32) {
    match t.video_size {
        Some(s) => s,
        None => (0u32, 0u32),
    }
}

pub open spec fn listed_or_none(m: Result<Vec<MonitorDescriptor>, CaptureError>) -> Seq<MonitorDescriptor> {
    match m {
        Ok(v) => v@,
        Err(_) => seq![],
    }
}

/// The summary of the execution plan for a recording, `None` when no plan
/// can be made.
pub open spec fn execution_summary_spec(
    options: RecordingOptions,
    monitors: Result<Vec<MonitorDescriptor>, CaptureError>,
    windows: Result<Vec<WindowDescriptor>, CaptureError>,
) -> Option<Seq<char>> {
    if effective_target_spec(options) == FULL_DESKTOP_TARGET_ID@ && monitors is Err {
        None
    } else if composite_spec(options, monitors_listing(monitors)) {
        let t = full_desktop_spec(monitor_views(listed_or_none(monitors)));
        Some("Windows.Graphics.Capture execution plan would compose "@
            + dec(listed_or_none(monitors).len()) + " monitor session(s) into a full-desktop texture at "@
            + dec(at_least_1(size_of(t).0) as nat) + "x"@ + dec(at_least_1(size_of(t).1) as nat) + "."@)
    } else {
        match item_spec(effective_target_spec(options), monitors_listing(monitors), windows_listing(windows)) {
            ItemOutcome::Monitor(_, _) | ItemOutcome::Window(_, _) => match resolve_spec(options.capture_target_id@,
                region_of(options), listed_or_none(monitors), windows_listing(windows)) {
                ResolveOutcome::Target(t) => {
                    let kind = if item_spec(effective_target_spec(options), monitors_listing(monitors),
                        windows_listing(windows)) is Monitor { "monitor"@ } else { "window"@ };
                    Some("Windows.Graphics.Capture execution plan would create a "@ + kind
                        + " capture item for `"@ + t.label + "` at "@ + dec(at_least_1(size_of(t).0) as nat) + "x"@
                        + dec(at_least_1(size_of(t).1) as nat) + "."@)
                },
                _ => None,
            },
            _ => None,
        }
    }
}

/// The execution plan: a full desktop over several monitors is composed
/// into one texture; otherwise a monitor or window capture item is built
/// for the resolved target.
pub fn execution_plan(
    options: &RecordingOptions,
    monitors: &Result<Vec<MonitorDescriptor>, CaptureError>,
    windows: &Result<Vec<WindowDescriptor>, CaptureError>,
) -> (r: Result<WindowsGraphicsCaptureExecutionPlan, CaptureError>)
    requires
        desktop_fits(monitor_views(listed_or_none(*monitors))),
    ensures
        effective_target_spec(*options) == FULL_DESKTOP_TARGET_ID@ && monitors is Err
            ==> (*monitors matches Err(e) && r == Err::<WindowsGraphicsCaptureExecutionPlan, CaptureError>(e)),
        composite_spec(*options, monitors_listing(*monitors)) ==> (r matches Ok(p) && {
            let t = full_desktop_spec(monitor_views(listed_or_none(*monitors)));
            &&& p.target_label@ == t.label
            &&& p.item_kind@ == "desktop"@
            &&& (p.width, p.height) == size_of(t)
            &&& p.summary@ == "Windows.Graphics.Capture execution plan would compose "@
                + dec(listed_or_none(*monitors).len()) + " monitor session(s) into a full-desktop texture at "@
                + dec(at_least_1(p.width) as nat) + "x"@ + dec(at_least_1(p.height) as nat) + "."@
        }),
        !(effective_target_spec(*options) == FULL_DESKTOP_TARGET_ID@ && monitors is Err)
            && !composite_spec(*options, monitors_listing(*monitors)) ==> {
            let item = item_spec(effective_target_spec(*options), monitors_listing(*monitors), windows_listing(*windows));
            match item {
                ItemOutcome::Monitor(_, _) | ItemOutcome::Window(_, _) => match resolve_spec(options.capture_target_id@,
                    region_of(*options), listed_or_none(*monitors), windows_listing(*windows)) {
                    ResolveOutcome::Target(t) => r matches Ok(p) && {
                        let kind = if item is Monitor { "monitor"@ } else { "window"@ };
                        &&& p.target_id@ == options.capture_target_id@
                        &&& p.target_label@ == t.label
                        &&& p.item_kind@ == kind
                        &&& (p.width, p.height) == size_of(t)
                        &&& p.summary@ == "Windows.Graphics.Capture execution plan would create a "@ + kind
                            + " capture item for `"@ + t.label + "` at "@ + dec(at_least_1(p.width) as nat) + "x"@
                            + dec(at_least_1(p.height) as nat) + "."@
                    },
                    _ => r is Err,
                },
                _ => r is Err,
            }
        },
{
    let empty: Vec<MonitorDescriptor> = Vec::new();
    let listed: &[MonitorDescriptor] = match monitors {
        Ok(ms) => ms.as_slice(),
        Err(_) => empty.as_slice(),
    };
    assert(listed@ == listed_or_none(*monitors));
    if str_eq(effective_target_id(options), FULL_DESKTOP_TARGET_ID) {
        match monitors {
            Err(e) => {
                return Err(e.clone_error());
            },
            Ok(ms) => {
                if ms.len() > 1 {
                    let resolved = resolve_full_desktop_target(ms.as_slice());
                    let (width, height) = match resolved.video_size {
                        Some(s) => s,
                        None => (0, 0),
                    };
                    let mut summary = String::from_str("Windows.Graphics.Capture execution plan would compose ");
                    push_dec(&mut summary, ms.len() as u64);
                    push_str(&mut summary, " monitor session(s) into a full-desktop texture at ");
                    push_dec(&mut summary, (if width >= 1 { width } else { 1 }) as u64);
                    push_str(&mut summary, "x");
                    push_dec(&mut summary, (if height >= 1 { height } else { 1 }) as u64);
                    push_str(&mut summary, ".");
                    return Ok(WindowsGraphicsCaptureExecutionPlan {
                        target_id: options.capture_target_id.clone(),
                        target_label: resolved.label,
                        item_kind: String::from_str("desktop"),
                        width,
                        height,
                        summary,
                    });
                }
            },
        }
    }
    let item = match capture_item_target(options, monitors, windows) {
        Ok(i) => i,
        Err(e) => {
            return Err(e);
        },
    };
    let resolved = match resolve_target(options, listed, windows) {
        Ok(t) => t,
        Err(e) => {
            return Err(e);
        },
    };
    let (width, height) = match resolved.video_size {
        Some(s) => s,
        None => (0, 0),
    };
    let item_kind = match item {
        CaptureItemTarget::Monitor { .. } => String::from_str("monitor"),
        CaptureItemTarget::Window { .. } => String::from_str("window"),
    };
    let mut summary = String::from_str("Windows.Graphics.Capture execution plan would create a ");
    push_str(&mut summary, item_kind.as_str());
    push_str(&mut summary, " capture item for `");
    push_str(&mut summary, resolved.label.as_str());
    push_str(&mut summary, "` at ");
    push_dec(&mut summary, (if width >= 1 { width } else { 1 }) as u64);
    push_str(&mut summary, "x");
    push_dec(&mut summary, (if height >= 1 { height } else { 1 }) as u64);
    push_str(&mut summary, ".");
    Ok(WindowsGraphicsCaptureExecutionPlan {
        target_id: options.capture_target_id.clone(),
        target_label: resolved.label,
        item_kind,
        width,
        height,
        summary,
    })
}

// Runtime records

/// What the runtime foundation built.
#[derive(Debug)]
pub struct WindowsGraphicsCaptureRuntimeFoundation {
    pub target_label: String,
    pub item_kind: String,
    pub size: (u32, u32),
    pub capture_supported: bool,
    pub summary: String,
}

/// What the prepared runtime registered.
#[derive(Debug)]
pub struct WindowsGraphicsCapturePreparedRuntime {
    pub target_label: String,
    pub item_kind: String,
    pub size: (u32, u32),
    pub frame_handler_registered: bool,
    pub summary: String,
}

/// What a smoke run of a capture session observed.
#[derive(Debug)]
pub struct WindowsGraphicsCaptureSmokeLifecycle {
    pub target_label: String,
    pub item_kind: String,
    pub size: (u32, u32),
    pub started: bool,
    pub saw_frame: bool,
    pub frames_observed: u64,
    pub summary: String,
}

/// The latest frame a session delivered.
#[derive(Debug, Clone, PartialEq, Eq)]
pub struct WindowsGraphicsCaptureFrameMetadata {
    pub frames_observed: u64,
    pub latest_width: Option<u32>,
    pub latest_height: Option<u32>,
    pub latest_relative_time_100ns: Option<i64>,
    pub latest_surface_kind: Option<String>,
}

impl Default for WindowsGraphicsCaptureFrameMetadata {
    fn default() -> (r: Self)
        ensures
            r.frames_observed == 0,
            r.latest_width is None,
            r.latest_height is None,
            r.latest_relative_time_100ns is None,
            r.latest_surface_kind is None,
    {
        WindowsGraphicsCaptureFrameMetadata {
            frames_observed: 0,
            latest_width: None,
            latest_height: None,
            latest_relative_time_100ns: None,
            latest_surface_kind: None,
        }
    }
}

pub open spec fn item_label(item: CaptureItemTarget) -> Seq<char> {
    match item {
        CaptureItemTarget::Monitor { label, .. } => label@,
        CaptureItemTarget::Window { label, .. } => label@,
    }
}

pub open spec fn item_kind_spec(item: CaptureItemTarget) -> Seq<char> {
    match item {
        CaptureItemTarget::Monitor { .. } => "monitor"@,
        CaptureItemTarget::Window { .. } => "window"@,
    }
}

/// A capture item's reported size, each side at least 1.
pub open spec fn item_size_spec(width: i32, height: i32) -> (u32, u32) {
    ((if width < 1 { 1 } else { width }) as u32, (if height < 1 { 1 } else { height }) as u32)
}

fn item_parts(item: &CaptureItemTarget) -> (r: (String, String))
    ensures
        r.0@ == item_label(*item),
        r.1@ == item_kind_spec(*item),
{
    match item {
        CaptureItemTarget::Monitor { label, .. } => (label.clone(), String::from_str("monitor")),
        CaptureItemTarget::Window { label, .. } => (label.clone(), String::from_str("window")),
    }
}

fn clamp_size(width: i32, height: i32) -> (r: (u32, u32))
    ensures
        r == item_size_spec(width, height),
{
    let w: i32 = if width < 1 { 1 } else { width };
    let h: i32 = if height < 1 { 1 } else { height };
    (w as u32, h as u32)
}

fn push_size(s: &mut String, size: (u32, u32))
    ensures
        final(s)@ == old(s)@ + dec(size.0 as nat) + "x"@ + dec(size.1 as nat),
{
    push_dec(s, size.0 as u64);
    push_str(s, "x");
    push_dec(s, size.1 as u64);
}

/// The foundation of a capture item of the reported size.
pub fn item_runtime_foundation(item: &CaptureItemTarget, width: i32, height: i32) -> (r: WindowsGraphicsCaptureRuntimeFoundation)
    ensures
        r.target_label@ == item_label(*item),
        r.item_kind@ == item_kind_spec(*item),
        r.size == item_size_spec(width, height),
        r.capture_supported,
        r.summary@ == "Windows.Graphics.Capture runtime foundation created a "@ + item_kind_spec(*item)
            + " capture item for `"@ + item_label(*item) + "` with a D3D11 device, frame pool, and capture session at "@
            + dec(r.size.0 as nat) + "x"@ + dec(r.size.1 as nat) + "."@,
{
    let (label, kind) = item_parts(item);
    let size = clamp_size(width, height);
    let mut summary = String::from_str("Windows.Graphics.Capture runtime foundation created a ");
    push_str(&mut summary, kind.as_str());
    push_str(&mut summary, " capture item for `");
    push_str(&mut summary, label.as_str());
    push_str(&mut summary, "` with a D3D11 device, frame pool, and capture session at ");
    push_size(&mut summary, size);
    push_str(&mut summary, ".");
    WindowsGraphicsCaptureRuntimeFoundation { target_label: label, item_kind: kind, size, capture_supported: true, summary }
}

/// The foundation of a full desktop composed from `monitor_count` sessions.
pub fn desktop_runtime_foundation(monitor_count: usize, size: (u32, u32)) -> (r: WindowsGraphicsCaptureRuntimeFoundation)
    ensures
        r.target_label@ == "Full desktop"@,
        r.item_kind@ == "desktop"@,
        r.size == size,
        r.capture_supported,
        r.summary@ == "Windows.Graphics.Capture runtime foundation created "@ + dec(monitor_count as nat)
            + " monitor session(s) for full-desktop composition at "@ + dec(at_least_1(size.0) as nat) + "x"@
            + dec(at_least_1(size.1) as nat) + "."@,
{
    let mut summary = String::from_str("Windows.Graphics.Capture runtime foundation created ");
    push_dec(&mut summary, monitor_count as u64);
    push_str(&mut summary, " monitor session(s) for full-desktop composition at ");
    push_size(&mut summary, (if size.0 >= 1 { size.0 } else { 1 }, if size.1 >= 1 { size.1 } else { 1 }));
    push_str(&mut summary, ".");
    WindowsGraphicsCaptureRuntimeFoundation {
        target_label: String::from_str("Full desktop"),
        item_kind: String::from_str("desktop"),
        size,
        capture_supported: true,
        summary,
    }
}

/// The prepared runtime of a capture item of the reported size, with its
/// frame handler registered.
pub fn item_prepared_runtime(item: &CaptureItemTarget, width: i32, height: i32) -> (r: WindowsGraphicsCapturePreparedRuntime)
    ensures
        r.target_label@ == item_label(*item),
        r.item_kind@ == item_kind_spec(*item),
        r.size == item_size_spec(width, height),
        r.frame_handler_registered,
        r.summary@ == "Windows.Graphics.Capture prepared runtime registered a frame-arrived handler for `"@
            + item_label(*item) + "` on a "@ + item_kind_spec(*item) + " capture session at "@
            + dec(r.size.0 as nat) + "x"@ + dec(r.size.1 as nat) + "."@,
{
    let (label, kind) = item_parts(item);
    let size = clamp_size(width, height);
    let mut summary = String::from_str("Windows.Graphics.Capture prepared runtime registered a frame-arrived handler for `");
    push_str(&mut summary, label.as_str());
    push_str(&mut summary, "` on a ");
    push_str(&mut summary, kind.as_str());
    push_str(&mut summary, " capture session at ");
    push_size(&mut summary, size);
    push_str(&mut summary, ".");
    WindowsGraphicsCapturePreparedRuntime { target_label: label, item_kind: kind, size, frame_handler_registered: true, summary }
}

/// The prepared runtime of a full desktop composed from `monitor_count`
/// sessions (no frame handler is registered on it).
pub fn desktop_prepared_runtime(monitor_count: usize, size: (u32, u32)) -> (r: WindowsGraphicsCapturePreparedRuntime)
    ensures
        r.target_label@ == "Full desktop"@,
        r.item_kind@ == "desktop"@,
        r.size == size,
        !r.frame_handler_registered,
        r.summary@ == "Windows.Graphics.Capture prepared runtime staged "@ + dec(monitor_count as nat)
            + " monitor session(s) for a full-desktop composite texture at "@ + dec(at_least_1(size.0) as nat) + "x"@
            + dec(at_least_1(size.1) as nat) + "."@,
{
    let mut summary = String::from_str("Windows.Graphics.Capture prepared runtime staged ");
    push_dec(&mut summary, monitor_count as u64);
    push_str(&mut summary, " monitor session(s) for a full-desktop composite texture at ");
    push_size(&mut summary, (if size.0 >= 1 { size.0 } else { 1 }, if size.1 >= 1 { size.1 } else { 1 }));
    push_str(&mut summary, ".");
    WindowsGraphicsCapturePreparedRuntime {
        target_label: String::from_str("Full desktop"),
        item_kind: String::from_str("desktop"),
        size,
        frame_handler_registered: false,
        summary,
    }
}

pub open spec fn opt_time_text(v: Option<i64>) -> Seq<char> {
    match v {
        Some(t) => idec(t as int),
        None => "n/a"@,
    }
}

pub open spec fn smoke_summary_spec(item: CaptureItemTarget, size: (u32, u32), saw_frame: bool, frames: u64,
    m: WindowsGraphicsCaptureFrameMetadata) -> Seq<char> {
    "Windows.Graphics.Capture smoke lifecycle started and stopped a "@ + item_kind_spec(item) + " session for `"@
        + item_label(item) + "` at "@ + dec(size.0 as nat) + "x"@ + dec(size.1 as nat) + ", saw_frame="@
        + (if saw_frame { "true"@ } else { "false"@ }) + ", observed "@ + dec(frames as nat)
        + " frame event(s), latest_frame="@ + dec((match m.latest_width { Some(w) => w, None => 0u32 }) as nat) + "x"@
        + dec((match m.latest_height { Some(h) => h, None => 0u32 }) as nat) + ", latest_time_100ns="@
        + opt_time_text(m.latest_relative_time_100ns) + ", latest_surface="@
        + (match m.latest_surface_kind { Some(k) => k@, None => "n/a"@ }) + "."@
}

/// What a smoke run of a capture item observed.
pub fn smoke_lifecycle(item: &CaptureItemTarget, width: i32, height: i32, saw_frame: bool, frames_observed: u64,
    metadata: &WindowsGraphicsCaptureFrameMetadata) -> (r: WindowsGraphicsCaptureSmokeLifecycle)
    ensures
        r.target_label@ == item_label(*item),
        r.item_kind@ == item_kind_spec(*item),
        r.size == item_size_spec(width, height),
        r.started,
        r.saw_frame == saw_frame,
        r.frames_observed == frames_observed,
        r.summary@ == smoke_summary_spec(*item, r.size, saw_frame, frames_observed, *metadata),
{
    let (label, kind) = item_parts(item);
    let size = clamp_size(width, height);
    let mut summary = String::from_str("Windows.Graphics.Capture smoke lifecycle started and stopped a ");
    push_str(&mut summary, kind.as_str());
    push_str(&mut summary, " session for `");
    push_str(&mut summary, label.as_str());
    push_str(&mut summary, "` at ");
    push_size(&mut summary, size);
    push_str(&mut summary, ", saw_frame=");
    if saw_frame { push_str(&mut summary, "true") } else { push_str(&mut summary, "false") }
    push_str(&mut summary, ", observed ");
    push_dec(&mut summary, frames_observed);
    push_str(&mut summary, " frame event(s), latest_frame=");
    push_size(&mut summary, (match metadata.latest_width { Some(w) => w, None => 0 },
        match metadata.latest_height { Some(h) => h, None => 0 }));
    push_str(&mut summary, ", latest_time_100ns=");
    match metadata.latest_relative_time_100ns {
        Some(t) => push_idec(&mut summary, t),
        None => push_str(&mut summary, "n/a"),
    }
    push_str(&mut summary, ", latest_surface=");
    match &metadata.latest_surface_kind {
        Some(k) => push_str(&mut summary, k.as_str()),
        None => push_str(&mut summary, "n/a"),
    }
    push_str(&mut summary, ".");
    WindowsGraphicsCaptureSmokeLifecycle {
        target_label: label,
        item_kind: kind,
        size,
        started: true,
        saw_frame,
        frames_observed,
        summary,
    }
}

// What the launcher offers

pub open spec fn window_target(w: WindowDescriptor) -> CaptureTargetView {
    CaptureTargetView {
        id: "window:"@ + idec(w.id as int),
        label: "Window · "@ + w.title@,
        description: w.process_name@ + " · "@ + dec(w.width as nat) + " x "@ + dec(w.height as nat),
    }
}

/// The targets the launcher offers: the full desktop, then each listed
/// monitor, then each listed window (a failed query adds none).
pub fn list_capture_targets(monitors: Option<&Vec<MonitorDescriptor>>, windows: Option<&Vec<WindowDescriptor>>) -> (r: Vec<CaptureTargetOption>)
    ensures
        target_views(r@) == seq![full_desktop_view()]
            + match monitors { Some(m) => m@.map_values(|d: MonitorDescriptor| monitor_target(d@)), None => seq![] }
            + match windows { Some(w) => w@.map_values(|d: WindowDescriptor| window_target(d)), None => seq![] },
{
    let mut r: Vec<CaptureTargetOption> = Vec::new();
    let fd = full_desktop_target();
    r.push(fd);
    assert(target_views(r@) == seq![full_desktop_view()]);
    let ghost base = target_views(r@);
    match monitors {
        Some(ms) => {
            let mut i: usize = 0;
            while i < ms.len()
                invariant
                    i <= ms@.len(),
                    target_views(r@) == base + ms@.subrange(0, i as int).map_values(|d: MonitorDescriptor| monitor_target(d@)),
                decreases ms@.len() - i,
            {
                let m = &ms[i];
                let mut id = String::from_str("monitor:");
                push_str(&mut id, m.device_name.as_str());
                let t = CaptureTargetOption { id, label: m.label.clone(), description: placement(m.width, m.height, m.x, m.y) };
                let ghost before = target_views(r@);
                r.push(t);
                assert(target_views(r@) == before.push(t@));
                assert(ms@.subrange(0, i + 1).map_values(|d: MonitorDescriptor| monitor_target(d@))
                    == ms@.subrange(0, i as int).map_values(|d: MonitorDescriptor| monitor_target(d@)).push(t@));
                i += 1;
            }
            assert(ms@.subrange(0, ms@.len() as int) == ms@);
        },
        None => {},
    }
    let ghost mid = target_views(r@);
    match windows {
        Some(ws) => {
            let mut i: usize = 0;
            while i < ws.len()
                invariant
                    i <= ws@.len(),
                    target_views(r@) == mid + ws@.subrange(0, i as int).map_values(|d: WindowDescriptor| window_target(d)),
                decreases ws@.len() - i,
            {
                let w = &ws[i];
                let mut id = String::from_str("window:");
                push_idec(&mut id, w.id);
                let mut label = String::from_str("Window · ");
                push_str(&mut label, w.title.as_str());
                let mut description = w.process_name.clone();
                push_str(&mut description, " · ");
                push_dec(&mut description, w.width as u64);
                push_str(&mut description, " x ");
                push_dec(&mut description, w.height as u64);
                let t = CaptureTargetOption { id, label, description };
                let ghost before = target_views(r@);
                r.push(t);
                assert(target_views(r@) == before.push(t@));
                assert(ws@.subrange(0, i + 1).map_values(|d: WindowDescriptor| window_target(d))
                    == ws@.subrange(0, i as int).map_values(|d: WindowDescriptor| window_target(d)).push(t@));
                i += 1;
            }
            assert(ws@.subrange(0, ws@.len() as int) == ws@);
        },
        None => {},
    }
    r
}

/// Where a preview of a target is drawn: its place and size on the
/// desktop (the origin when unknown, 640 x 360 when no size is known).
pub fn preview_target_bounds(
    capture_target_id: &str,
    region_x: u32,
    region_y: u32,
    region_width: u32,
    region_height: u32,
    monitors: &[MonitorDescriptor],
    windows: &Result<Vec<WindowDescriptor>, CaptureError>,
) -> (r: Result<(i32, i32, u32, u32), CaptureError>)
    requires
        capture_target_id@ == FULL_DESKTOP_TARGET_ID@ ==> desktop_fits(monitor_views(monitors@)),
    ensures
        match resolve_spec(capture_target_id@, (region_x, region_y, region_width, region_height), monitors@,
            windows_listing(*windows)) {
            ResolveOutcome::Target(v) => r == Ok::<(i32, i32, u32, u32), CaptureError>((
                match v.offset_x { Some(x) => x, None => 0 }, match v.offset_y { Some(y) => y, None => 0 },
                match v.video_size { Some(s) => s.0, None => 640 }, match v.video_size { Some(s) => s.1, None => 360 })),
            ResolveOutcome::Unavailable(m) => r matches Err(CaptureError::BackendUnavailable(x)) && x@ == m,
            ResolveOutcome::WindowsFailed => *windows matches Err(e) && r == Err::<(i32, i32, u32, u32), CaptureError>(e),
        },
{
    let options = RecordingOptions {
        output_path: String::from_str("record-screen-preview.mp4"),
        quality_preset: String::from_str("1080p / 30 fps"),
        mic_enabled: false,
        system_audio_enabled: false,
        capture_target_id: String::from_str(capture_target_id),
        audio_input_id: String::from_str(crate::capture::DEFAULT_AUDIO_INPUT_ID),
        portal_parent_window: None,
        portal_restore_token: None,
        region_x,
        region_y,
        region_width,
        region_height,
        region_source_capture_target_id: String::from_str(FULL_DESKTOP_TARGET_ID),
        region_source_origin_x: 0,
        region_source_origin_y: 0,
        region_source_scale_factor_milli: 1000,
    };
    match resolve_target(&options, monitors, windows) {
        Ok(t) => {
            let (w, h) = match t.video_size {
                Some(s) => s,
                None => (640, 360),
            };
            Ok((match t.offset_x { Some(x) => x, None => 0 }, match t.offset_y { Some(y) => y, None => 0 }, w, h))
        },
        Err(e) => Err(e),
    }
}

/// Why the native controller cannot record a target (`None` when it can):
/// the full desktop needs at least one monitor (`monitor_count` is 0 when
/// the display query failed).
pub fn native_recording_unsupported_reason(options: &RecordingOptions, monitor_count: usize) -> (r: Option<String>)
    ensures
        opt_sview(r) == if effective_target_spec(*options) == FULL_DESKTOP_TARGET_ID@ && monitor_count == 0 {
            Some("Windows native capture controller could not resolve any monitors for the full-desktop target."@)
        } else {
            None
        },
{
    if str_eq(effective_target_id(options), FULL_DESKTOP_TARGET_ID) && monitor_count == 0 {
        return Some(String::from_str("Windows native capture controller could not resolve any monitors for the full-desktop target."));
    }
    None
}

// Cropping for the encoder

/// A rectangle of a captured surface.
#[derive(Debug, Clone, Copy, PartialEq, Eq, Structural)]
pub struct CropRect {
    pub x: u32,
    pub y: u32,
    pub width: u32,
    pub height: u32,
}

pub open spec fn max1(v: int) -> int {
    if v < 1 { 1 } else { v }
}

/// A dimension the encoder takes: capped at `max_value`, at least 1, and
/// made even when above 2.
pub open spec fn encoder_dimension_spec(value: u32, max_value: u32) -> u32 {
    let capped = max1(if value < max_value { value as int } else { max_value as int });
    (if capped > 2 && capped % 2 != 0 { capped - 1 } else { capped }) as u32
}

pub fn normalize_encoder_dimension(value: u32, max_value: u32) -> (r: u32)
    ensures
        r == encoder_dimension_spec(value, max_value),
{
    let m = if value < max_value { value } else { max_value };
    let capped = if m < 1 { 1 } else { m };
    if capped > 2 && capped % 2 != 0 { capped - 1 } else { capped }
}

pub open spec fn sat_sub(a: u32, b: u32) -> u32 {
    if a >= b { (a - b) as u32 } else { 0 }
}

/// A crop rectangle made to fit the surface: its corner inside it, its
/// size inside what is left and acceptable to the encoder.
pub open spec fn normalized_crop_spec(c: CropRect, source_width: u32, source_height: u32) -> CropRect {
    let max_width = max1(sat_sub(source_width, c.x) as int) as u32;
    let max_height = max1(sat_sub(source_height, c.y) as int) as u32;
    CropRect {
        x: if c.x < sat_sub(source_width, 1) { c.x } else { sat_sub(source_width, 1) },
        y: if c.y < sat_sub(source_height, 1) { c.y } else { sat_sub(source_height, 1) },
        width: encoder_dimension_spec(if c.width < max_width { c.width } else { max_width }, max_width),
        height: encoder_dimension_spec(if c.height < max_height { c.height } else { max_height }, max_height),
    }
}

pub fn normalize_encoder_crop_rect(crop_rect: CropRect, source_width: u32, source_height: u32) -> (r: CropRect)
    ensures
        r == normalized_crop_spec(crop_rect, source_width, source_height),
{
    let left_w: u32 = if source_width >= crop_rect.x { source_width - crop_rect.x } else { 0 };
    let left_h: u32 = if source_height >= crop_rect.y { source_height - crop_rect.y } else { 0 };
    let max_width: u32 = if left_w < 1 { 1 } else { left_w };
    let max_height: u32 = if left_h < 1 { 1 } else { left_h };
    let last_x: u32 = if source_width >= 1 { source_width - 1 } else { 0 };
    let last_y: u32 = if source_height >= 1 { source_height - 1 } else { 0 };
    CropRect {
        x: if crop_rect.x < last_x { crop_rect.x } else { last_x },
        y: if crop_rect.y < last_y { crop_rect.y } else { last_y },
        width: normalize_encoder_dimension(if crop_rect.width < max_width { crop_rect.width } else { max_width }, max_width),
        height: normalize_encoder_dimension(if crop_rect.height < max_height { crop_rect.height } else { max_height }, max_height),
    }
}

pub open spec fn whole_surface(source_width: u32, source_height: u32) -> CropRect {
    CropRect { x: 0, y: 0, width: max1(source_width as int) as u32, height: max1(source_height as int) as u32 }
}

/// The crop the encoder copies from a surface: the region's rectangle
/// (`base_crop`, when the recording is a custom region) or the whole
/// surface, normalized; none when that is the whole surface unchanged.
pub open spec fn encoder_crop_spec(base_crop: Option<CropRect>, source_width: u32, source_height: u32) -> Option<CropRect> {
    let n = normalized_crop_spec(match base_crop { Some(c) => c, None => whole_surface(source_width, source_height) },
        source_width, source_height);
    if base_crop is Some || n != whole_surface(source_width, source_height) { Some(n) } else { None }
}

pub fn encoder_crop_rect_from_source(base_crop: Option<CropRect>, source_width: u32, source_height: u32) -> (r: Option<CropRect>)
    ensures
        r == encoder_crop_spec(base_crop, source_width, source_height),
{
    let whole = CropRect {
        x: 0,
        y: 0,
        width: if source_width < 1 { 1 } else { source_width },
        height: if source_height < 1 { 1 } else { source_height },
    };
    let normalized = normalize_encoder_crop_rect(match base_crop { Some(c) => c, None => whole }, source_width, source_height);
    let needs_texture_copy = base_crop.is_some() || normalized.x != 0 || normalized.y != 0
        || normalized.width != whole.width || normalized.height != whole.height;
    if needs_texture_copy { Some(normalized) } else { None }
}

/// The size the encoder writes: the crop's size, else the surface's
/// normalized size.
pub fn encoder_video_size_from_source(base_crop: Option<CropRect>, source_width: u32, source_height: u32) -> (r: (u32, u32))
    ensures
        r == match encoder_crop_spec(base_crop, source_width, source_height) {
            Some(c) => (c.width, c.height),
            None => (encoder_dimension_spec(source_width, source_width), encoder_dimension_spec(source_height, source_height)),
        },
{
    match encoder_crop_rect_from_source(base_crop, source_width, source_height) {
        Some(c) => (c.width, c.height),
        None => (normalize_encoder_dimension(source_width, source_width), normalize_encoder_dimension(source_height, source_height)),
    }
}

/// The position of a display named like `\\.\DISPLAY2` (its trailing
/// digits, counted from 1); none without trailing digits or for 0.
pub open spec fn trailing_digits(s: Seq<char>) -> Seq<char>
    decreases s.len(),
{
    if s.len() > 0 && crate::text::is_digit(s.last()) { trailing_digits(s.drop_last()).push(s.last()) } else { seq![] }
}

pub open spec fn display_ordinal_spec(name: Seq<char>) -> Option<usize> {
    match crate::text::parse_nat(trailing_digits(name)) {
        Some(n) => if 1 <= n <= usize::MAX { Some((n - 1) as usize) } else { None },
        None => None,
    }
}

pub fn display_ordinal(device_name: &str) -> (r: Option<usize>)
    ensures
        r == display_ordinal_spec(device_name@),
{
    let c = chars_of(device_name);
    let n = c.len();
    let mut k: usize = n;
    assert(c@.subrange(0, n as int) == c@);
    while k > 0 && '0' <= c[k - 1] && c[k - 1] <= '9'
        invariant
            k <= n == c@.len(),
            trailing_digits(c@) == trailing_digits(c@.subrange(0, k as int)) + c@.subrange(k as int, n as int),
        decreases k,
    {
        let ghost pre = c@.subrange(0, k as int);
        assert(pre.drop_last() == c@.subrange(0, k - 1));
        assert(c@.subrange(k - 1, n as int) == seq![c@[k - 1]] + c@.subrange(k as int, n as int));
        assert(trailing_digits(pre) == trailing_digits(pre.drop_last()).push(pre.last()));
        assert(trailing_digits(pre.drop_last()).push(pre.last()) + c@.subrange(k as int, n as int)
            == trailing_digits(pre.drop_last()) + (seq![c@[k - 1]] + c@.subrange(k as int, n as int)));
        k -= 1;
    }
    assert(trailing_digits(c@.subrange(0, k as int)) == Seq::<char>::empty());
    assert(trailing_digits(c@) == c@.subrange(k as int, n as int));
    let digits = slice_chars(&c, k, n);
    match crate::text::parse_usize(&digits) {
        Some(v) => if v >= 1 { Some(v - 1) } else { None },
        None => None,
    }
}

impl WindowsGraphicsCaptureBackend {
    pub fn descriptor(&self) -> (d: CaptureBackendDescriptor)
        ensures
            d.id@ == "windows-graphics-capture"@,
            d.label@ == "Windows Graphics Capture"@,
    {
        CaptureBackendDescriptor { id: "windows-graphics-capture", label: "Windows Graphics Capture" }
    }

    /// Available when the session supports Windows.Graphics.Capture.
    pub fn availability(&self, session_supported: bool) -> (a: CaptureBackendAvailability)
        ensures
            capture_reason(a) == if session_supported { None } else {
                Some("Windows.Graphics.Capture is not supported in the current Windows session."@)
            },
    {
        if session_supported {
            CaptureBackendAvailability::Available
        } else {
            CaptureBackendAvailability::Unavailable {
                reason: String::from_str("Windows.Graphics.Capture is not supported in the current Windows session."),
            }
        }
    }

    pub fn runtime_report(&self) -> (r: CaptureBackendRuntimeReport)
        ensures
            opt_sview(r.summary) == Some(native_report_summary()),
            opt_sview(r.preferred_target_label) == Some("Full desktop"@),
    {
        CaptureBackendRuntimeReport {
            summary: Some(String::from_str("Windows native capture candidate targets Windows.Graphics.Capture. The runtime foundation can now build capture items, D3D11 devices, frame pools, capture sessions, and a native controller path backed by Media Foundation sink-writer output with WASAPI microphone and loopback bridging.")),
            preferred_target_label: Some(String::from_str("Full desktop")),
        }
    }
}

pub open spec fn native_report_summary() -> Seq<char> {
    "Windows native capture candidate targets Windows.Graphics.Capture. The runtime foundation can now build capture items, D3D11 devices, frame pools, capture sessions, and a native controller path backed by Media Foundation sink-writer output with WASAPI microphone and loopback bridging."@
}

// The recording loop

/// A frame's sample time relative to the first frame's (saturating at
/// `i64::MIN`), and the first frame's time, which the first call records.
pub fn normalized_sample_time(first_sample_time_100ns: &mut Option<i64>, relative_time_100ns: i64) -> (r: i64)
    ensures
        *final(first_sample_time_100ns) == Some(match *old(first_sample_time_100ns) {
            Some(t) => t,
            None => relative_time_100ns,
        }),
        r == ({
            let first: int = match *old(first_sample_time_100ns) { Some(t) => t as int, None => relative_time_100ns as int };
            let d = relative_time_100ns - first;
            if d < i64::MIN { i64::MIN as int } else if d > i64::MAX { i64::MAX as int } else { d }
        }),
{
    let first = match *first_sample_time_100ns {
        Some(t) => t,
        None => relative_time_100ns,
    };
    *first_sample_time_100ns = Some(first);
    let d: i128 = (relative_time_100ns as i128) - (first as i128);
    if d < (i64::MIN as i128) {
        i64::MIN
    } else if d > (i64::MAX as i128) {
        i64::MAX
    } else {
        d as i64
    }
}

/// How a recording ends: the capture loop's error first, then the
/// microphone worker's, the loopback worker's and the writer's.
pub fn recording_outcome(
    capture: Result<(), CaptureError>,
    microphone_stop: Result<(), CaptureError>,
    loopback_stop: Result<(), CaptureError>,
    finalize: Result<(), CaptureError>,
) -> (r: Result<(), CaptureError>)
    ensures
        r == (match capture {
            Err(e) => Err(e),
            Ok(()) => match microphone_stop {
                Err(e) => Err(e),
                Ok(()) => match loopback_stop {
                    Err(e) => Err(e),
                    Ok(()) => finalize,
                },
            },
        }),
{
    match capture {
        Err(e) => Err(e),
        Ok(()) => match microphone_stop {
            Err(e) => Err(e),
            Ok(()) => match loopback_stop {
                Err(e) => Err(e),
                Ok(()) => finalize,
            },
        },
    }
}

/// What the capture-to-encoder smoke run reports: the written sample's
/// surface kind, stream index, time and duration (`None` when the run
/// failed).
pub fn encoder_bridge_smoke_summary(written: Result<(String, u32, i64, i64), CaptureError>) -> (r: Option<String>)
    ensures
        match written {
            Ok((kind, index, time, duration)) => r matches Some(s) && s@ == "Windows WGC -> Media Foundation smoke wrote one `"@
                + kind@ + "` sample. "@ + "surface_kind="@ + kind@ + " stream_index="@ + dec(index as nat)
                + " sample_time_100ns="@ + idec(time as int) + " sample_duration_100ns="@ + idec(duration as int),
            Err(_) => r is None,
        },
{
    match written {
        Ok((kind, index, time, duration)) => {
            let e = crate::windows::encoder::video_sample_summary(kind.as_str(), index, time, duration);
            Some(crate::windows::encoder::surface_smoke_summary(kind.as_str(), e.as_str()))
        },
        Err(_) => None,
    }
}

/// `a + b` held at `u32::MAX`.
pub open spec fn sat_add_u32(a: u32, b: u32) -> u32 {
    if a + b > u32::MAX { u32::MAX } else { (a + b) as u32 }
}

pub open spec fn max_u32(a: u32, b: u32) -> u32 {
    if a >= b { a } else { b }
}

pub open spec fn min_u32(a: u32, b: u32) -> u32 {
    if a <= b { a } else { b }
}

/// Where a monitor's frame lands in the desktop composite: the
/// destination offset, the source offset and the size copied, as
/// `(dest_x, dest_y, src_left, src_top, width, height)`. Without a crop
/// the whole frame is copied at its offset; with one, only its overlap
/// with the crop (edges saturating at `u32::MAX`), placed relative to the
/// crop's corner. `None` when the two do not overlap or nothing would be
/// copied.
pub open spec fn copy_region_spec(source_x: u32, source_y: u32, width: u32, height: u32, crop: Option<CropRect>)
    -> Option<(u32, u32, u32, u32, u32, u32)> {
    match crop {
        None => if width == 0 || height == 0 { None } else { Some((source_x, source_y, 0u32, 0u32, width, height)) },
        Some(rect) => {
            let right = sat_add_u32(source_x, width);
            let bottom = sat_add_u32(source_y, height);
            let crop_right = sat_add_u32(rect.x, rect.width);
            let crop_bottom = sat_add_u32(rect.y, rect.height);
            if right <= rect.x || bottom <= rect.y || source_x >= crop_right || source_y >= crop_bottom {
                None
            } else {
                let left = max_u32(source_x, rect.x);
                let top = max_u32(source_y, rect.y);
                let w = (min_u32(right, crop_right) - left) as u32;
                let h = (min_u32(bottom, crop_bottom) - top) as u32;
                if w == 0 || h == 0 {
                    None
                } else {
                    Some(((left - rect.x) as u32, (top - rect.y) as u32, (left - source_x) as u32,
                        (top - source_y) as u32, w, h))
                }
            }
        },
    }
}

/// The part of one monitor's frame copied into the desktop composite (see
/// `copy_region_spec`).
pub fn composite_copy_region(source_x: u32, source_y: u32, width: u32, height: u32, crop: Option<CropRect>)
    -> (r: Option<(u32, u32, u32, u32, u32, u32)>)
    ensures
        r == copy_region_spec(source_x, source_y, width, height, crop),
{
    match crop {
        None => if width == 0 || height == 0 { None } else { Some((source_x, source_y, 0, 0, width, height)) },
        Some(rect) => {
            let right = source_x.saturating_add(width);
            let bottom = source_y.saturating_add(height);
            let crop_right = rect.x.saturating_add(rect.width);
            let crop_bottom = rect.y.saturating_add(rect.height);
            if right <= rect.x || bottom <= rect.y || source_x >= crop_right || source_y >= crop_bottom {
                return None;
            }
            let left = if source_x >= rect.x { source_x } else { rect.x };
            let top = if source_y >= rect.y { source_y } else { rect.y };
            let r_edge = if right <= crop_right { right } else { crop_right };
            let b_edge = if bottom <= crop_bottom { bottom } else { crop_bottom };
            let w = r_edge - left;
            let h = b_edge - top;
            if w == 0 || h == 0 {
                None
            } else {
                Some((left - rect.x, top - rect.y, left - source_x, top - source_y, w, h))
            }
        },
    }
}

} // verus!
