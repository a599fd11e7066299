//! Linux capture targets: the monitors `xrandr --listmonitors` reports,
//! the windows `xwininfo -root -tree` lists, and where a chosen target
//! lies on the desktop.
use vstd::prelude::*;
use vstd::string::*;
use crate::capture::{best_candidate, error_text, full_desktop_target, default_audio_input, input_views, opt_sview, opt_view,
    preferred_system_audio_input, resolve_audio_input_id, resolve_audio_input_spec, target_views, copy_input,
    AudioInputKind, AudioInputOption, AudioInputView, CaptureError, CaptureTargetOption, CaptureTargetView,
    RecordingOptions, CUSTOM_REGION_TARGET_ID, DEFAULT_AUDIO_INPUT_ID, FULL_DESKTOP_TARGET_ID};
use crate::text::{lower, to_lower, str_eq, chars_of, contains, contains_chars, dec, find, find_from, has_prefix, idec, is_blank, lemma_find_from,
    lemma_word_end, lines, occurs_at, parse_i32, parse_i32_spec, parse_u32, parse_u32_spec, push_dec, push_idec,
    push_str, skip_ws, slice_chars, split_lines, split_once, split_once_chars, split_words, starts_with, string_of,
    trim, trim_chars, trim_start, views, words, blank};

verus! {

/// A monitor as `xrandr --listmonitors` reports it.
#[derive(Debug, Clone, PartialEq, Eq)]
pub struct MonitorDescriptor {
    pub connector: String,
    pub label: String,
    pub width: u32,
    pub height: u32,
    pub x: i32,
    pub y: i32,
    pub is_primary: bool,
}

pub struct MonitorView {
    pub connector: Seq<char>,
    pub label: Seq<char>,
    pub width: u32,
    pub height: u32,
    pub x: i32,
    pub y: i32,
    pub is_primary: bool,
}

impl View for MonitorDescriptor {
    type V = MonitorView;

    open spec fn view(&self) -> MonitorView {
        MonitorView {
            connector: self.connector@,
            label: self.label@,
            width: self.width,
            height: self.height,
            x: self.x,
            y: self.y,
            is_primary: self.is_primary,
        }
    }
}

pub open spec fn monitor_views(v: Seq<MonitorDescriptor>) -> Seq<MonitorView> {
    v.map_values(|m: MonitorDescriptor| m@)
}

/// A top-level window as `xwininfo -root -tree` lists it.
#[derive(Debug, Clone, PartialEq, Eq)]
pub struct WindowDescriptor {
    pub id: String,
    pub title: String,
    pub width: u32,
    pub height: u32,
    pub x: i32,
    pub y: i32,
}

pub struct WindowView {
    pub id: Seq<char>,
    pub title: Seq<char>,
    pub width: u32,
    pub height: u32,
    pub x: i32,
    pub y: i32,
}

impl View for WindowDescriptor {
    type V = WindowView;

    open spec fn view(&self) -> WindowView {
        WindowView { id: self.id@, title: self.title@, width: self.width, height: self.height, x: self.x, y: self.y }
    }
}

pub open spec fn window_views(v: Seq<WindowDescriptor>) -> Seq<WindowView> {
    v.map_values(|w: WindowDescriptor| w@)
}

/// `s` up to the first `c` (`s.split(c).next()`).
pub open spec fn before_char(s: Seq<char>, c: char) -> Seq<char> {
    match split_once(s, c) {
        Some((a, _)) => a,
        None => s,
    }
}

fn before_char_chars(s: &[char], c: char) -> (r: Vec<char>)
    ensures
        r@ == before_char(s@, c),
{
    match split_once_chars(s, c) {
        Some((a, _)) => a,
        None => slice_chars(s, 0, s.len()),
    }
}

/// `WxH+X+Y` with optional `/mm` after each size, as xrandr prints it.
pub open spec fn monitor_geometry(input: Seq<char>) -> Option<(u32, u32, i32, i32)> {
    match split_once(input, '+') {
        None => None,
        Some((res, offs)) => match split_once(res, 'x') {
            None => None,
            Some((wt, ht)) => match (parse_u32_spec(before_char(wt, '/')), parse_u32_spec(before_char(ht, '/'))) {
                (Some(w), Some(h)) => match split_once(offs, '+') {
                    None => None,
                    Some((xt, yt)) => match (parse_i32_spec(xt), parse_i32_spec(yt)) {
                        (Some(x), Some(y)) => Some((w, h, x, y)),
                        _ => None,
                    },
                },
                _ => None,
            },
        },
    }
}

/// `WxH+X+Y`, as xwininfo prints it.
pub open spec fn window_geometry(input: Seq<char>) -> Option<(u32, u32, i32, i32)> {
    match split_once(input, '+') {
        None => None,
        Some((size, offs)) => match split_once(size, 'x') {
            None => None,
            Some((wt, ht)) => match (parse_u32_spec(wt), parse_u32_spec(ht)) {
                (Some(w), Some(h)) => match split_once(offs, '+') {
                    None => None,
                    Some((xt, yt)) => match (parse_i32_spec(xt), parse_i32_spec(yt)) {
                        (Some(x), Some(y)) => Some((w, h, x, y)),
                        _ => None,
                    },
                },
                _ => None,
            },
        },
    }
}

fn geometry_of(input: &[char], strip_mm: bool) -> (r: Option<(u32, u32, i32, i32)>)
    ensures
        r == if strip_mm { monitor_geometry(input@) } else { window_geometry(input@) },
{
    let (res, offs) = match split_once_chars(input, '+') {
        Some(p) => p,
        None => {
            return None;
        },
    };
    let (wt, ht) = match split_once_chars(&res, 'x') {
        Some(p) => p,
        None => {
            return None;
        },
    };
    let (wt, ht) = if strip_mm { (before_char_chars(&wt, '/'), before_char_chars(&ht, '/')) } else { (wt, ht) };
    let w = match parse_u32(&wt) {
        Some(w) => w,
        None => {
            return None;
        },
    };
    let h = match parse_u32(&ht) {
        Some(h) => h,
        None => {
            return None;
        },
    };
    let (xt, yt) = match split_once_chars(&offs, '+') {
        Some(p) => p,
        None => {
            return None;
        },
    };
    let x = match parse_i32(&xt) {
        Some(x) => x,
        None => {
            return None;
        },
    };
    let y = match parse_i32(&yt) {
        Some(y) => y,
        None => {
            return None;
        },
    };
    Some((w, h, x, y))
}

pub fn parse_monitor_geometry(input: &str) -> (r: Option<(u32, u32, i32, i32)>)
    ensures
        r == monitor_geometry(input@),
{
    geometry_of(&chars_of(input), true)
}

pub fn parse_window_geometry(input: &str) -> (r: Option<(u32, u32, i32, i32)>)
    ensures
        r == window_geometry(input@),
{
    geometry_of(&chars_of(input), false)
}

pub open spec fn monitor_label(position: nat, connector: Seq<char>, primary: bool) -> Seq<char> {
    if primary {
        "Display "@ + dec(position) + " · Primary ("@ + connector + ")"@
    } else {
        "Display "@ + dec(position) + " · "@ + connector
    }
}

/// The monitors of an `xrandr --listmonitors` listing from line `i` on,
/// `count` monitors having been read before: the header line, blank
/// lines, short lines and lines whose geometry does not parse are skipped.
pub open spec fn monitors_from(ls: Seq<Seq<char>>, i: int, count: nat) -> Seq<MonitorView>
    decreases ls.len() - i,
{
    if i < 0 || i >= ls.len() {
        seq![]
    } else if i == 0 || is_blank(ls[i]) {
        monitors_from(ls, i + 1, count)
    } else {
        let toks = words(ls[i]);
        if toks.len() < 4 {
            monitors_from(ls, i + 1, count)
        } else {
            match monitor_geometry(toks[2]) {
                None => monitors_from(ls, i + 1, count),
                Some((w, h, x, y)) => {
                    let primary = contains(toks[1], seq!['*']);
                    seq![MonitorView {
                        connector: toks.last(),
                        label: monitor_label(count + 1, toks.last(), primary),
                        width: w,
                        height: h,
                        x,
                        y,
                        is_primary: primary,
                    }] + monitors_from(ls, i + 1, count + 1)
                },
            }
        }
    }
}

/// The monitors of an `xrandr --listmonitors` listing.
pub fn parse_monitors(listing: &str) -> (r: Vec<MonitorDescriptor>)
    ensures
        monitor_views(r@) == monitors_from(lines(listing@), 0, 0),
{
    let ls = split_lines(&chars_of(listing));
    let ghost all = views(ls@);
    let star: Vec<char> = vec!['*'];
    assert(star@ == seq!['*']);
    let mut r: Vec<MonitorDescriptor> = Vec::new();
    let mut i: usize = 0;
    while i < ls.len()
        invariant
            i <= ls@.len(),
            all == views(ls@),
            all == lines(listing@),
            star@ == seq!['*'],
            r@.len() <= i,
            monitor_views(r@) + monitors_from(all, i as int, r@.len() as nat) == monitors_from(all, 0, 0),
        decreases ls@.len() - i,
    {
        assert(all[i as int] == ls@[i as int]@);
        let line = &ls[i];
        if i == 0 || trim_chars(line).len() == 0 {
            i += 1;
            continue;
        }
        let toks = split_words(line);
        if toks.len() < 4 {
            i += 1;
            continue;
        }
        assert(views(toks@)[2] == toks@[2]@);
        assert(views(toks@)[1] == toks@[1]@);
        assert(views(toks@).last() == toks@[toks@.len() - 1]@);
        match geometry_of(&toks[2], true) {
            None => {},
            Some((w, h, x, y)) => {
                let connector = string_of(&toks[toks.len() - 1]);
                let primary = contains_chars(&toks[1], &star);
                let position = r.len() as u64 + 1;
                let mut label = String::from_str("Display ");
                push_dec(&mut label, position);
                if primary {
                    push_str(&mut label, " · Primary (");
                    push_str(&mut label, connector.as_str());
                    push_str(&mut label, ")");
                } else {
                    push_str(&mut label, " · ");
                    push_str(&mut label, connector.as_str());
                }
                let m = MonitorDescriptor { connector, label, width: w, height: h, x, y, is_primary: primary };
                let ghost before = monitor_views(r@);
                r.push(m);
                assert(monitor_views(r@) == before.push(m@));
                assert(before.push(m@) + monitors_from(all, i + 1, r@.len() as nat)
                    == before + (seq![m@] + monitors_from(all, i + 1, r@.len() as nat)));
            },
        }
        i += 1;
    }
    assert(monitors_from(all, i as int, r@.len() as nat) == Seq::<MonitorView>::empty());
    assert(monitor_views(r@) + Seq::<MonitorView>::empty() == monitor_views(r@));
    r
}

/// The window a line of an `xwininfo -root -tree` listing describes:
/// `0x<id> "<title>": (<class>) WxH+X+Y ...`; lines without an id, a
/// quoted title (not blank, not `(has no name)`), a class or a geometry
/// give none.
pub open spec fn window_of_line(line: Seq<char>) -> Option<WindowView> {
    let t = trim_start(line);
    if !has_prefix(t, "0x"@) {
        None
    } else {
        let id_end = find_from(t, seq![' '], 0);
        if id_end == -1 {
            None
        } else {
            let q1 = find_from(t, seq!['"'], id_end);
            if q1 == -1 {
                None
            } else {
                let title_start = q1 + 1;
                let q2 = find_from(t, seq!['"'], title_start);
                if q2 == -1 {
                    None
                } else {
                    let title = trim(t.subrange(title_start, q2));
                    if title.len() == 0 || title == "(has no name)"@ {
                        None
                    } else {
                        let after = t.subrange(q2 + 1, t.len() as int);
                        let c = find_from(after, seq![')'], 0);
                        if c == -1 {
                            None
                        } else {
                            let ws = words(after.subrange(c + 1, after.len() as int));
                            if ws.len() == 0 {
                                None
                            } else {
                                match window_geometry(ws[0]) {
                                    None => None,
                                    Some((w, h, x, y)) => Some(WindowView {
                                        id: t.subrange(0, id_end),
                                        title,
                                        width: w,
                                        height: h,
                                        x,
                                        y,
                                    }),
                                }
                            }
                        }
                    }
                }
            }
        }
    }
}

fn find_char(s: &[char], c: char, from: usize) -> (r: Option<usize>)
    requires
        from <= s@.len(),
    ensures
        match r {
            Some(i) => i as int == find_from(s@, seq![c], from as int) && from <= i < s@.len() && s@[i as int] == c,
            None => find_from(s@, seq![c], from as int) == -1,
        },
{
    let p: Vec<char> = vec![c];
    assert(p@ == seq![c]);
    proof { lemma_find_from(s@, p@, from as int); }
    match find(s, &p, from) {
        Some(i) => {
            assert(occurs_at(s@, p@, i as int));
            assert(s@.subrange(i as int, i + 1)[0] == s@[i as int]);
            Some(i)
        },
        None => None,
    }
}

pub fn parse_window_line(line: &str) -> (r: Option<WindowDescriptor>)
    ensures
        match r {
            Some(w) => window_of_line(line@) == Some(w@),
            None => window_of_line(line@) is None,
        },
{
    let lc = chars_of(line);
    let n = lc.len();
    let lo = skip_ws(&lc, 0);
    assert(lc@.subrange(0, n as int) == lc@);
    let t = slice_chars(&lc, lo, n);
    assert(t@ == trim_start(line@));
    if !starts_with(&t, &chars_of("0x")) {
        return None;
    }
    let id_end = match find_char(&t, ' ', 0) {
        Some(i) => i,
        None => {
            return None;
        },
    };
    let q1 = match find_char(&t, '"', id_end) {
        Some(i) => i,
        None => {
            return None;
        },
    };
    let title_start = q1 + 1;
    let q2 = match find_char(&t, '"', title_start) {
        Some(i) => i,
        None => {
            return None;
        },
    };
    let title = trim_chars(&slice_chars(&t, title_start, q2));
    if title.len() == 0 || crate::text::str_eq(string_of(&title).as_str(), "(has no name)") {
        return None;
    }
    let tn = t.len();
    let after = slice_chars(&t, q2 + 1, tn);
    let an = after.len();
    let c = match find_char(&after, ')', 0) {
        Some(i) => i,
        None => {
            return None;
        },
    };
    let ws = split_words(&slice_chars(&after, c + 1, an));
    if ws.len() == 0 {
        return None;
    }
    assert(views(ws@)[0] == ws@[0]@);
    match geometry_of(&ws[0], false) {
        None => None,
        Some((w, h, x, y)) => Some(WindowDescriptor {
            id: string_of(&slice_chars(&t, 0, id_end)),
            title: string_of(&title),
            width: w,
            height: h,
            x,
            y,
        }),
    }
}

/// Whether a listed window is offered as a target: large enough, and not
/// the recorder itself or the desktop icons.
pub open spec fn window_kept(w: WindowView) -> bool {
    w.width >= 240 && w.height >= 160 && !has_prefix(w.title, "Record Screen"@) && !has_prefix(w.title, "Desktop Icons"@)
}

pub open spec fn windows_from(ls: Seq<Seq<char>>, i: int) -> Seq<WindowView>
    decreases ls.len() - i,
{
    if i < 0 || i >= ls.len() {
        seq![]
    } else {
        match window_of_line(ls[i]) {
            Some(w) => if window_kept(w) {
                seq![w] + windows_from(ls, i + 1)
            } else {
                windows_from(ls, i + 1)
            },
            None => windows_from(ls, i + 1),
        }
    }
}

/// The windows of an `xwininfo -root -tree` listing that can be recorded.
pub fn parse_windows(listing: &str) -> (r: Vec<WindowDescriptor>)
    ensures
        window_views(r@) == windows_from(lines(listing@), 0),
{
    let ls = split_lines(&chars_of(listing));
    let ghost all = views(ls@);
    let rs = chars_of("Record Screen");
    let di = chars_of("Desktop Icons");
    let mut r: Vec<WindowDescriptor> = Vec::new();
    let mut i: usize = 0;
    while i < ls.len()
        invariant
            i <= ls@.len(),
            all == views(ls@),
            all == lines(listing@),
            rs@ == "Record Screen"@,
            di@ == "Desktop Icons"@,
            window_views(r@) + windows_from(all, i as int) == windows_from(all, 0),
        decreases ls@.len() - i,
    {
        assert(all[i as int] == ls@[i as int]@);
        let line = string_of(&ls[i]);
        match parse_window_line(line.as_str()) {
            Some(w) => {
                let tc = chars_of(w.title.as_str());
                if w.width >= 240 && w.height >= 160 && !starts_with(&tc, &rs) && !starts_with(&tc, &di) {
                    let ghost before = window_views(r@);
                    let ghost wv = w@;
                    r.push(w);
                    assert(window_views(r@) == before.push(wv));
                    assert(before.push(wv) + windows_from(all, i + 1) == before + (seq![wv] + windows_from(all, i + 1)));
                }
            },
            None => {},
        }
        i += 1;
    }
    assert(windows_from(all, i as int) == Seq::<WindowView>::empty());
    assert(window_views(r@) + Seq::<WindowView>::empty() == window_views(r@));
    r
}

// ---------------------------------------------------------------------------
// Where a target lies

/// A capture target resolved to a label, an origin and, when known, a size.
#[derive(Debug, Clone, PartialEq, Eq)]
pub struct ResolvedTarget {
    pub label: String,
    pub origin_x: i32,
    pub origin_y: i32,
    pub video_size: Option<(u32, u32)>,
}

pub struct ResolvedView {
    pub label: Seq<char>,
    pub origin_x: i32,
    pub origin_y: i32,
    pub video_size: Option<(u32, u32)>,
}

impl View for ResolvedTarget {
    type V = ResolvedView;

    open spec fn view(&self) -> ResolvedView {
        ResolvedView { label: self.label@, origin_x: self.origin_x, origin_y: self.origin_y, video_size: self.video_size }
    }
}

pub open spec fn right_edge(m: MonitorView) -> int {
    m.x + (m.width as i32)
}

pub open spec fn bottom_edge(m: MonitorView) -> int {
    m.y + (m.height as i32)
}

pub open spec fn min_x(v: Seq<MonitorView>) -> int
    decreases v.len(),
{
    if v.len() <= 1 { if v.len() == 1 { v[0].x as int } else { 0 } } else {
        let a = min_x(v.drop_last());
        if v.last().x < a { v.last().x as int } else { a }
    }
}

pub open spec fn min_y(v: Seq<MonitorView>) -> int
    decreases v.len(),
{
    if v.len() <= 1 { if v.len() == 1 { v[0].y as int } else { 0 } } else {
        let a = min_y(v.drop_last());
        if v.last().y < a { v.last().y as int } else { a }
    }
}

pub open spec fn max_right(v: Seq<MonitorView>) -> int
    decreases v.len(),
{
    if v.len() <= 1 { if v.len() == 1 { right_edge(v[0]) } else { 0 } } else {
        let a = max_right(v.drop_last());
        if right_edge(v.last()) > a { right_edge(v.last()) } else { a }
    }
}

pub open spec fn max_bottom(v: Seq<MonitorView>) -> int
    decreases v.len(),
{
    if v.len() <= 1 { if v.len() == 1 { bottom_edge(v[0]) } else { 0 } } else {
        let a = max_bottom(v.drop_last());
        if bottom_edge(v.last()) > a { bottom_edge(v.last()) } else { a }
    }
}

/// The monitors' far edges and the desktop's extent fit in `i32`, as the
/// bounding-box arithmetic needs.
pub open spec fn desktop_fits(v: Seq<MonitorView>) -> bool {
    &&& forall|i: int| 0 <= i < v.len() ==> i32::MIN <= #[trigger] right_edge(v[i]) <= i32::MAX
    &&& forall|i: int| 0 <= i < v.len() ==> i32::MIN <= #[trigger] bottom_edge(v[i]) <= i32::MAX
    &&& i32::MIN <= max_right(v) - min_x(v) <= i32::MAX
    &&& i32::MIN <= max_bottom(v) - min_y(v) <= i32::MAX
}

/// The whole desktop: the bounding box of all monitors, or no size when
/// no monitor is known.
pub open spec fn full_desktop_spec(v: Seq<MonitorView>) -> ResolvedView {
    if v.len() == 0 {
        ResolvedView { label: "Full desktop"@, origin_x: 0, origin_y: 0, video_size: None }
    } else {
        ResolvedView {
            label: "Full desktop"@,
            origin_x: min_x(v) as i32,
            origin_y: min_y(v) as i32,
            video_size: Some((((max_right(v) - min_x(v)) as i32) as u32, ((max_bottom(v) - min_y(v)) as i32) as u32)),
        }
    }
}

pub open spec fn fits_i32(x: int) -> bool {
    i32::MIN <= x <= i32::MAX
}

pub open spec fn edges_fit(m: MonitorView) -> bool {
    fits_i32(right_edge(m)) && fits_i32(bottom_edge(m))
}

/// Whether the bounding-box arithmetic over these monitors stays within
/// `i32`.
pub fn desktop_fits_check(monitors: &[MonitorDescriptor]) -> (r: bool)
    ensures
        r == desktop_fits(monitor_views(monitors@)),
{
    let ghost v = monitor_views(monitors@);
    let n = monitors.len();
    if n == 0 {
        return true;
    }
    assert(v[0] == monitors@[0]@);
    let mut lx: i64 = monitors[0].x as i64;
    let mut ly: i64 = monitors[0].y as i64;
    let mut hx: i64 = monitors[0].x as i64 + (#[verifier::truncate] (monitors[0].width as i32)) as i64;
    let mut hy: i64 = monitors[0].y as i64 + (#[verifier::truncate] (monitors[0].height as i32)) as i64;
    let mut ok: bool = fits_in_i32(hx) && fits_in_i32(hy);
    assert(v.subrange(0, 1) == seq![v[0]]);
    assert(hx == right_edge(v[0]) && hy == bottom_edge(v[0]));
    assert(ok == edges_fit(v[0]));
    assert(ok == forall|j: int| 0 <= j < 1 ==> #[trigger] edges_fit(v[j])) by {
        if !ok {
            assert(!edges_fit(v[0]));
        }
    }
    let mut i: usize = 1;
    while i < n
        invariant
            1 <= i <= n,
            n == monitors@.len(),
            v == monitor_views(monitors@),
            lx == min_x(v.subrange(0, i as int)),
            ly == min_y(v.subrange(0, i as int)),
            hx == max_right(v.subrange(0, i as int)),
            hy == max_bottom(v.subrange(0, i as int)),
            i32::MIN <= lx <= i32::MAX,
            i32::MIN <= ly <= i32::MAX,
            2 * i32::MIN <= hx <= 2 * i32::MAX,
            2 * i32::MIN <= hy <= 2 * i32::MAX,
            ok == forall|j: int| 0 <= j < i ==> #[trigger] edges_fit(v[j]),
        decreases n - i,
    {
        let m = &monitors[i];
        assert(v[i as int] == m@);
        assert(v.subrange(0, i + 1).drop_last() == v.subrange(0, i as int));
        assert(v.subrange(0, i + 1).last() == v[i as int]);
        let rx: i64 = m.x as i64 + (#[verifier::truncate] (m.width as i32)) as i64;
        let by: i64 = m.y as i64 + (#[verifier::truncate] (m.height as i32)) as i64;
        let here = fits_in_i32(rx) && fits_in_i32(by);
        proof {
            if ok && here {
                assert forall|j: int| 0 <= j < i + 1 implies #[trigger] edges_fit(v[j]) by {}
            }
            if !here {
                assert(!edges_fit(v[i as int]));
            }
        }
        ok = ok && here;
        if (m.x as i64) < lx {
            lx = m.x as i64;
        }
        if (m.y as i64) < ly {
            ly = m.y as i64;
        }
        if rx > hx {
            hx = rx;
        }
        if by > hy {
            hy = by;
        }
        i += 1;
    }
    assert(v.subrange(0, n as int) == v);
    proof {
        assert(ok == (forall|j: int| 0 <= j < v.len() ==> #[trigger] edges_fit(v[j])));
        if ok {
            assert forall|j: int| 0 <= j < v.len() implies i32::MIN <= #[trigger] right_edge(v[j]) <= i32::MAX by {
                assert(edges_fit(v[j]));
            }
            assert forall|j: int| 0 <= j < v.len() implies i32::MIN <= #[trigger] bottom_edge(v[j]) <= i32::MAX by {
                assert(edges_fit(v[j]));
            }
        } else {
            let j = choose|j: int| 0 <= j < v.len() && !#[trigger] edges_fit(v[j]);
            assert(!fits_i32(right_edge(v[j])) || !fits_i32(bottom_edge(v[j])));
        }
    }
    ok && fits_in_i32(hx - lx) && fits_in_i32(hy - ly)
}

pub fn fits_in_i32(x: i64) -> (r: bool)
    ensures
        r == fits_i32(x as int),
{
    i32::MIN as i64 <= x && x <= i32::MAX as i64
}

pub fn resolve_full_desktop_target(monitors: &[MonitorDescriptor]) -> (r: ResolvedTarget)
    requires
        desktop_fits(monitor_views(monitors@)),
    ensures
        r@ == full_desktop_spec(monitor_views(monitors@)),
{
    let ghost v = monitor_views(monitors@);
    if monitors.len() == 0 {
        return ResolvedTarget { label: String::from_str("Full desktop"), origin_x: 0, origin_y: 0, video_size: None };
    }
    assert(v[0] == monitors@[0]@);
    assert(i32::MIN <= right_edge(v[0]) <= i32::MAX);
    assert(i32::MIN <= bottom_edge(v[0]) <= i32::MAX);
    let mut lx = monitors[0].x;
    let mut ly = monitors[0].y;
    let mut hx = monitors[0].x + monitors[0].width as i32;
    let mut hy = monitors[0].y + monitors[0].height as i32;
    assert(v.subrange(0, 1) == seq![v[0]]);
    let mut i: usize = 1;
    while i < monitors.len()
        invariant
            1 <= i <= monitors@.len(),
            v == monitor_views(monitors@),
            desktop_fits(v),
            lx == min_x(v.subrange(0, i as int)),
            ly == min_y(v.subrange(0, i as int)),
            hx == max_right(v.subrange(0, i as int)),
            hy == max_bottom(v.subrange(0, i as int)),
        decreases monitors@.len() - i,
    {
        let m = &monitors[i];
        assert(v[i as int] == m@);
        assert(v.subrange(0, i + 1).drop_last() == v.subrange(0, i as int));
        assert(v.subrange(0, i + 1).last() == v[i as int]);
        assert(i32::MIN <= right_edge(v[i as int]) <= i32::MAX);
        assert(i32::MIN <= bottom_edge(v[i as int]) <= i32::MAX);
        let rx = m.x + m.width as i32;
        let by = m.y + m.height as i32;
        if m.x < lx {
            lx = m.x;
        }
        if m.y < ly {
            ly = m.y;
        }
        if rx > hx {
            hx = rx;
        }
        if by > hy {
            hy = by;
        }
        i += 1;
    }
    assert(v.subrange(0, i as int) == v);
    ResolvedTarget {
        label: String::from_str("Full desktop"),
        origin_x: lx,
        origin_y: ly,
        video_size: Some(((hx - lx) as u32, (hy - ly) as u32)),
    }
}

/// What resolving a target comes to: a place on the desktop, an
/// unavailable target with its message, or the window listing's error.
pub enum ResolveOutcome {
    Target(ResolvedView),
    Unavailable(Seq<char>),
    WindowsFailed,
}

pub open spec fn first_connector(v: Seq<MonitorView>, c: Seq<char>, i: int) -> int
    decreases v.len() - i,
{
    if i < 0 || i >= v.len() { -1 } else if v[i].connector == c { i } else { first_connector(v, c, i + 1) }
}

pub open spec fn first_window(v: Seq<WindowView>, id: Seq<char>, i: int) -> int
    decreases v.len() - i,
{
    if i < 0 || i >= v.len() { -1 } else if lower(v[i].id) == lower(id) { i } else { first_window(v, id, i + 1) }
}

pub open spec fn custom_region_label(x: u32, y: u32, w: u32, h: u32) -> Seq<char> {
    "Custom region · "@ + dec(x as nat) + ", "@ + dec(y as nat) + " · "@ + dec(w as nat) + " x "@ + dec(h as nat)
}

pub open spec fn at_least_64(v: u32) -> u32 {
    if v >= 64 { v } else { 64 }
}

/// Where a capture target lies: the full desktop, a listed monitor
/// (`monitor:<connector>`), a listed window (`window:<id>`, any ASCII
/// case) or the custom region.
pub open spec fn resolve_spec(
    id: Seq<char>,
    region: (u32, u32, u32, u32),
    monitors: Seq<MonitorView>,
    windows: Option<Seq<WindowView>>,
) -> ResolveOutcome {
    if id == FULL_DESKTOP_TARGET_ID@ {
        ResolveOutcome::Target(full_desktop_spec(monitors))
    } else if has_prefix(id, "monitor:"@) {
        let c = id.subrange(8, id.len() as int);
        let k = first_connector(monitors, c, 0);
        if k == -1 {
            ResolveOutcome::Unavailable("the selected monitor `"@ + c + "` is no longer available"@)
        } else {
            ResolveOutcome::Target(ResolvedView {
                label: monitors[k].label,
                origin_x: monitors[k].x,
                origin_y: monitors[k].y,
                video_size: Some((monitors[k].width, monitors[k].height)),
            })
        }
    } else if has_prefix(id, "window:"@) {
        let wid = id.subrange(7, id.len() as int);
        match windows {
            None => ResolveOutcome::WindowsFailed,
            Some(ws) => {
                let k = first_window(ws, wid, 0);
                if k == -1 {
                    ResolveOutcome::Unavailable("the selected window `"@ + wid + "` is no longer available"@)
                } else {
                    ResolveOutcome::Target(ResolvedView {
                        label: "Window · "@ + ws[k].title,
                        origin_x: ws[k].x,
                        origin_y: ws[k].y,
                        video_size: Some((ws[k].width, ws[k].height)),
                    })
                }
            },
        }
    } else if id == CUSTOM_REGION_TARGET_ID@ {
        ResolveOutcome::Target(ResolvedView {
            label: custom_region_label(region.0, region.1, region.2, region.3),
            origin_x: region.0 as i32,
            origin_y: region.1 as i32,
            video_size: Some((at_least_64(region.2), at_least_64(region.3))),
        })
    } else {
        ResolveOutcome::Unavailable("unknown Linux capture target: "@ + id)
    }
}

pub open spec fn windows_listing(w: Result<Vec<WindowDescriptor>, CaptureError>) -> Option<Seq<WindowView>> {
    match w {
        Ok(v) => Some(window_views(v@)),
        Err(_) => None,
    }
}

fn unavailable_error(prefix: &str, middle: &[char], suffix: &str) -> (e: CaptureError)
    ensures
        e matches CaptureError::BackendUnavailable(m) && m@ == prefix@ + middle@ + suffix@,
{
    let mut m = String::from_str(prefix);
    let mid = string_of(middle);
    push_str(&mut m, mid.as_str());
    push_str(&mut m, suffix);
    CaptureError::BackendUnavailable(m)
}

/// Resolves the target of a recording against the listed monitors and
/// the window listing (`Err` when `xwininfo` failed, which only matters
/// for a window target).
#[verifier::loop_isolation(false)]
pub fn resolve_target_with_monitors(
    options: &RecordingOptions,
    monitors: &[MonitorDescriptor],
    windows: &Result<Vec<WindowDescriptor>, CaptureError>,
) -> (r: Result<ResolvedTarget, CaptureError>)
    requires
        options.capture_target_id@ == FULL_DESKTOP_TARGET_ID@ ==> desktop_fits(monitor_views(monitors@)),
    ensures
        match resolve_spec(options.capture_target_id@,
            (options.region_x, options.region_y, options.region_width, options.region_height),
            monitor_views(monitors@), windows_listing(*windows)) {
            ResolveOutcome::Target(v) => r matches Ok(t) && t@ == v,
            ResolveOutcome::Unavailable(m) => r matches Err(CaptureError::BackendUnavailable(x)) && x@ == m,
            ResolveOutcome::WindowsFailed => *windows matches Err(e) && r == Err::<ResolvedTarget, CaptureError>(e),
        },
{
    proof {
        reveal_strlit("monitor:");
        reveal_strlit("window:");
        reveal_strlit("");
        reveal_strlit("full-desktop");
        reveal_strlit("region:custom");
    }
    let id = chars_of(options.capture_target_id.as_str());
    if str_eq(options.capture_target_id.as_str(), FULL_DESKTOP_TARGET_ID) {
        return Ok(resolve_full_desktop_target(monitors));
    }
    let n = id.len();
    if starts_with(&id, &chars_of("monitor:")) {
        let c = slice_chars(&id, 8, n);
        let ghost mv = monitor_views(monitors@);
        let mut i: usize = 0;
        while i < monitors.len()
            invariant
                i <= monitors@.len(),
                mv == monitor_views(monitors@),
                first_connector(mv, c@, 0) == first_connector(mv, c@, i as int),
            decreases monitors@.len() - i,
        {
            assert(mv[i as int] == monitors@[i as int]@);
            if str_eq(monitors[i].connector.as_str(), string_of(&c).as_str()) {
                let m = &monitors[i];
                return Ok(ResolvedTarget {
                    label: m.label.clone(),
                    origin_x: m.x,
                    origin_y: m.y,
                    video_size: Some((m.width, m.height)),
                });
            }
            i += 1;
        }
        return Err(unavailable_error("the selected monitor `", &c, "` is no longer available"));
    }
    if starts_with(&id, &chars_of("window:")) {
        let wid = slice_chars(&id, 7, n);
        let ws = match windows {
            Ok(ws) => ws,
            Err(e) => {
                return Err(e.clone_error());
            },
        };
        let lw = to_lower(&wid);
        let ghost wv = window_views(ws@);
        let mut i: usize = 0;
        while i < ws.len()
            invariant
                i <= ws@.len(),
                wv == window_views(ws@),
                lw@ == lower(wid@),
                first_window(wv, wid@, 0) == first_window(wv, wid@, i as int),
            decreases ws@.len() - i,
        {
            assert(wv[i as int] == ws@[i as int]@);
            let li = to_lower(&chars_of(ws[i].id.as_str()));
            if str_eq(string_of(&li).as_str(), string_of(&lw).as_str()) {
                let w = &ws[i];
                let mut label = String::from_str("Window · ");
                push_str(&mut label, w.title.as_str());
                return Ok(ResolvedTarget {
                    label,
                    origin_x: w.x,
                    origin_y: w.y,
                    video_size: Some((w.width, w.height)),
                });
            }
            i += 1;
        }
        return Err(unavailable_error("the selected window `", &wid, "` is no longer available"));
    }
    if str_eq(options.capture_target_id.as_str(), CUSTOM_REGION_TARGET_ID) {
        let mut label = String::from_str("Custom region · ");
        push_dec(&mut label, options.region_x as u64);
        push_str(&mut label, ", ");
        push_dec(&mut label, options.region_y as u64);
        push_str(&mut label, " · ");
        push_dec(&mut label, options.region_width as u64);
        push_str(&mut label, " x ");
        push_dec(&mut label, options.region_height as u64);
        return Ok(ResolvedTarget {
            label,
            origin_x: options.region_x as i32,
            origin_y: options.region_y as i32,
            video_size: Some((
                if options.region_width >= 64 { options.region_width } else { 64 },
                if options.region_height >= 64 { options.region_height } else { 64 },
            )),
        });
    }
    Err(unavailable_error("unknown Linux capture target: ", &id, ""))
}

pub open spec fn placement_text(w: u32, h: u32, x: i32, y: i32) -> Seq<char> {
    dec(w as nat) + " x "@ + dec(h as nat) + " at "@ + idec(x as int) + ", "@ + idec(y as int)
}

pub fn placement(w: u32, h: u32, x: i32, y: i32) -> (r: String)
    ensures
        r@ == placement_text(w, h, x, y),
{
    let mut r = String::new();
    push_dec(&mut r, w as u64);
    push_str(&mut r, " x ");
    push_dec(&mut r, h as u64);
    push_str(&mut r, " at ");
    push_idec(&mut r, x as i64);
    push_str(&mut r, ", ");
    push_idec(&mut r, y as i64);
    r
}

pub open spec fn monitor_target(m: MonitorView) -> CaptureTargetView {
    CaptureTargetView { id: "monitor:"@ + m.connector, label: m.label, description: placement_text(m.width, m.height, m.x, m.y) }
}

pub open spec fn window_target(w: WindowView) -> CaptureTargetView {
    CaptureTargetView { id: "window:"@ + w.id, label: "Window · "@ + w.title, description: placement_text(w.width, w.height, w.x, w.y) }
}

pub open spec fn full_desktop_view() -> CaptureTargetView {
    CaptureTargetView {
        id: FULL_DESKTOP_TARGET_ID@,
        label: "Full desktop"@,
        description: "Record the entire active desktop layout across all connected displays."@,
    }
}

/// The targets the launcher offers: the full desktop, then each listed
/// monitor, then each listed window (a failed listing adds none).
pub fn list_capture_targets(monitors: Option<&Vec<MonitorDescriptor>>, windows: Option<&Vec<WindowDescriptor>>) -> (r: Vec<CaptureTargetOption>)
    ensures
        target_views(r@) == seq![full_desktop_view()]
            + match monitors { Some(m) => m@.map_values(|d: MonitorDescriptor| monitor_target(d@)), None => seq![] }
            + match windows { Some(w) => w@.map_values(|d: WindowDescriptor| window_target(d@)), None => seq![] },
{
    let mut r: Vec<CaptureTargetOption> = Vec::new();
    let fd = full_desktop_target();
    r.push(fd);
    assert(target_views(r@) == seq![full_desktop_view()]);
    let ghost base = target_views(r@);
    match monitors {
        Some(ms) => {
            let mut i: usize = 0;
            while i < ms.len()
                invariant
                    i <= ms@.len(),
                    target_views(r@) == base + ms@.subrange(0, i as int).map_values(|d: MonitorDescriptor| monitor_target(d@)),
                decreases ms@.len() - i,
            {
                let m = &ms[i];
                let mut id = String::from_str("monitor:");
                push_str(&mut id, m.connector.as_str());
                let t = CaptureTargetOption { id, label: m.label.clone(), description: placement(m.width, m.height, m.x, m.y) };
                let ghost before = target_views(r@);
                r.push(t);
                assert(target_views(r@) == before.push(t@));
                assert(ms@.subrange(0, i + 1).map_values(|d: MonitorDescriptor| monitor_target(d@))
                    == ms@.subrange(0, i as int).map_values(|d: MonitorDescriptor| monitor_target(d@)).push(t@));
                i += 1;
            }
            assert(ms@.subrange(0, ms@.len() as int) == ms@);
        },
        None => {},
    }
    let ghost mid = target_views(r@);
    match windows {
        Some(ws) => {
            let mut i: usize = 0;
            while i < ws.len()
                invariant
                    i <= ws@.len(),
                    target_views(r@) == mid + ws@.subrange(0, i as int).map_values(|d: WindowDescriptor| window_target(d@)),
                decreases ws@.len() - i,
            {
                let w = &ws[i];
                let mut id = String::from_str("window:");
                push_str(&mut id, w.id.as_str());
                let mut label = String::from_str("Window · ");
                push_str(&mut label, w.title.as_str());
                let t = CaptureTargetOption { id, label, description: placement(w.width, w.height, w.x, w.y) };
                let ghost before = target_views(r@);
                r.push(t);
                assert(target_views(r@) == before.push(t@));
                assert(ws@.subrange(0, i + 1).map_values(|d: WindowDescriptor| window_target(d@))
                    == ws@.subrange(0, i as int).map_values(|d: WindowDescriptor| window_target(d@)).push(t@));
                i += 1;
            }
            assert(ws@.subrange(0, ws@.len() as int) == ws@);
        },
        None => {
            assert(target_views(r@) == mid + Seq::<CaptureTargetView>::empty());
        },
    }
    r
}

pub open spec fn default_input_view(preferred: Option<Seq<char>>) -> AudioInputView {
    AudioInputView {
        id: DEFAULT_AUDIO_INPUT_ID@,
        label: "Default input"@,
        description: match preferred {
            Some(p) => "Use the preferred Linux input source: "@ + p + "."@,
            None => "Use the system default microphone or audio input device."@,
        },
        kind: AudioInputKind::Default,
    }
}

pub open spec fn ok_inputs(r: Result<Vec<AudioInputOption>, CaptureError>) -> Seq<AudioInputView> {
    match r {
        Ok(v) => input_views(v@),
        Err(_) => seq![],
    }
}

fn copy_inputs(v: &Vec<AudioInputOption>) -> (r: Vec<AudioInputOption>)
    ensures
        input_views(r@) == input_views(v@),
{
    let mut r: Vec<AudioInputOption> = Vec::new();
    let mut i: usize = 0;
    while i < v.len()
        invariant
            i <= v@.len(),
            input_views(r@) == input_views(v@.subrange(0, i as int)),
        decreases v@.len() - i,
    {
        let o = copy_input(&v[i]);
        let ghost before = input_views(r@);
        r.push(o);
        assert(input_views(r@) == before.push(o@));
        assert(input_views(v@.subrange(0, i + 1)) == input_views(v@.subrange(0, i as int)).push(o@));
        i += 1;
    }
    assert(v@.subrange(0, v@.len() as int) == v@);
    r
}

/// The inputs the launcher offers: the default input (naming the
/// preferred source when discovery found one), then the discovered inputs.
pub fn list_audio_inputs(preferred_input: Option<&str>, discovered: &Result<Vec<AudioInputOption>, CaptureError>) -> (r: Vec<AudioInputOption>)
    ensures
        input_views(r@) == seq![default_input_view(opt_view(preferred_input))] + ok_inputs(*discovered),
{
    let mut d = default_audio_input();
    match preferred_input {
        Some(p) => {
            let mut desc = String::from_str("Use the preferred Linux input source: ");
            push_str(&mut desc, p);
            push_str(&mut desc, ".");
            d.description = desc;
        },
        None => {},
    }
    let mut r: Vec<AudioInputOption> = Vec::new();
    r.push(d);
    let rest = match discovered {
        Ok(v) => copy_inputs(v),
        Err(_) => Vec::new(),
    };
    let ghost before = input_views(r@);
    let mut rest = rest;
    r.append(&mut rest);
    assert(input_views(r@) == before + ok_inputs(*discovered));
    r
}

/// The discovered inputs, or the error for a discovery that found none.
pub fn query_audio_inputs(native_inputs: Vec<AudioInputOption>) -> (r: Result<Vec<AudioInputOption>, CaptureError>)
    ensures
        native_inputs@.len() > 0 ==> r == Ok::<Vec<AudioInputOption>, CaptureError>(native_inputs),
        native_inputs@.len() == 0 ==> (r matches Err(CaptureError::BackendUnavailable(m)) && m@ ==
            "Linux could not discover any usable microphone or monitor sources through PipeWire/PulseAudio."@),
{
    if native_inputs.len() > 0 {
        Ok(native_inputs)
    } else {
        Err(CaptureError::BackendUnavailable(String::from_str(
            "Linux could not discover any usable microphone or monitor sources through PipeWire/PulseAudio.")))
    }
}

pub open spec fn count_kind(v: Seq<AudioInputView>, k: AudioInputKind) -> nat
    decreases v.len(),
{
    if v.len() == 0 { 0 } else { count_kind(v.drop_last(), k) + if v.last().kind == k { 1nat } else { 0nat } }
}

fn count_of_kind(v: &Vec<AudioInputOption>, k: AudioInputKind) -> (n: usize)
    ensures
        n == count_kind(input_views(v@), k),
{
    let ghost all = input_views(v@);
    let mut n: usize = 0;
    let mut i: usize = 0;
    while i < v.len()
        invariant
            i <= v@.len(),
            n <= i,
            all == input_views(v@),
            n == count_kind(all.subrange(0, i as int), k),
        decreases v@.len() - i,
    {
        assert(all.subrange(0, i + 1).drop_last() == all.subrange(0, i as int));
        assert(all[i as int] == v@[i as int]@);
        if v[i].kind == k {
            n += 1;
        }
        i += 1;
    }
    assert(all.subrange(0, i as int) == all);
    n
}

pub open spec fn source_plural(n: nat) -> Seq<char> {
    if n == 1 { seq![] } else { "s"@ }
}

pub open spec fn audio_summary_spec(discovered: Result<Vec<AudioInputOption>, CaptureError>, pipewire: Option<Seq<char>>) -> Seq<char> {
    match discovered {
        Ok(v) => {
            let m = count_kind(input_views(v@), AudioInputKind::Microphone);
            let s = count_kind(input_views(v@), AudioInputKind::System);
            let base = "Linux audio discovery is ready. Found "@ + dec(m) + " microphone source"@ + source_plural(m)
                + " and "@ + dec(s) + " system-audio source"@ + source_plural(s) + "."@;
            match pipewire { Some(p) => base + " "@ + p, None => base }
        },
        Err(e) => match pipewire {
            Some(p) => "Linux audio discovery failed. "@ + p + " "@ + error_text(e),
            None => "Linux audio discovery failed. "@ + error_text(e),
        },
    }
}

/// What the launcher is told about audio discovery; `pipewire_summary`
/// is the audio lane's runtime summary.
pub fn audio_input_support_summary(discovered: &Result<Vec<AudioInputOption>, CaptureError>, pipewire_summary: Option<&str>) -> (r: String)
    ensures
        r@ == audio_summary_spec(*discovered, opt_view(pipewire_summary)),
{
    match discovered {
        Ok(v) => {
            let m = count_of_kind(v, AudioInputKind::Microphone);
            let s = count_of_kind(v, AudioInputKind::System);
            let mut r = String::from_str("Linux audio discovery is ready. Found ");
            push_dec(&mut r, m as u64);
            push_str(&mut r, " microphone source");
            if m != 1 {
                push_str(&mut r, "s");
            }
            push_str(&mut r, " and ");
            push_dec(&mut r, s as u64);
            push_str(&mut r, " system-audio source");
            if s != 1 {
                push_str(&mut r, "s");
            }
            push_str(&mut r, ".");
            match pipewire_summary {
                Some(p) => {
                    push_str(&mut r, " ");
                    push_str(&mut r, p);
                },
                None => {},
            }
            r
        },
        Err(e) => {
            let mut r = String::from_str("Linux audio discovery failed. ");
            match pipewire_summary {
                Some(p) => {
                    push_str(&mut r, p);
                    push_str(&mut r, " ");
                },
                None => {},
            }
            let t = e.message();
            push_str(&mut r, t.as_str());
            r
        },
    }
}

/// The source a recording reads for `audio_input_id`, given the inputs
/// discovery found (`None` when it failed): an explicit id is kept; the
/// default input resolves to the best microphone, else to `default`.
pub open spec fn snapshot_input_spec(id: Seq<char>, inputs: Option<Seq<AudioInputOption>>) -> Seq<char> {
    if id == DEFAULT_AUDIO_INPUT_ID@ {
        match inputs {
            Some(v) => match resolve_audio_input_spec(id, v) {
                Some(x) => x,
                None => DEFAULT_AUDIO_INPUT_ID@,
            },
            None => DEFAULT_AUDIO_INPUT_ID@,
        }
    } else {
        id
    }
}

pub open spec fn opt_inputs(v: Option<&[AudioInputOption]>) -> Option<Seq<AudioInputOption>> {
    match v {
        Some(x) => Some(x@),
        None => None,
    }
}

pub fn resolve_audio_input_from_snapshot(audio_input_id: &str, audio_inputs: Option<&[AudioInputOption]>) -> (r: Result<String, CaptureError>)
    ensures
        r matches Ok(s) && s@ == snapshot_input_spec(audio_input_id@, opt_inputs(audio_inputs)),
{
    if str_eq(audio_input_id, DEFAULT_AUDIO_INPUT_ID) {
        let resolved = match audio_inputs {
            Some(inputs) => resolve_audio_input_id(audio_input_id, inputs),
            None => None,
        };
        return match resolved {
            Some(x) => Ok(x),
            None => Ok(String::from_str(DEFAULT_AUDIO_INPUT_ID)),
        };
    }
    Ok(String::from_str(audio_input_id))
}

pub open spec fn ok_input_seq(r: Result<Vec<AudioInputOption>, CaptureError>) -> Option<Seq<AudioInputOption>> {
    match r {
        Ok(v) => Some(v@),
        Err(_) => None,
    }
}

/// The microphone source of a recording, from what discovery returned.
pub fn resolve_audio_input(audio_input_id: &str, discovered: &Result<Vec<AudioInputOption>, CaptureError>) -> (r: Result<String, CaptureError>)
    ensures
        r matches Ok(s) && s@ == snapshot_input_spec(audio_input_id@, ok_input_seq(*discovered)),
{
    if !str_eq(audio_input_id, DEFAULT_AUDIO_INPUT_ID) {
        return Ok(String::from_str(audio_input_id));
    }
    match discovered {
        Ok(v) => resolve_audio_input_from_snapshot(audio_input_id, Some(v.as_slice())),
        Err(_) => resolve_audio_input_from_snapshot(audio_input_id, None),
    }
}

/// The `device=` of the microphone branch: none for the default input,
/// else the resolved source.
pub fn gst_audio_input_device(audio_input_id: &str, discovered: &Result<Vec<AudioInputOption>, CaptureError>) -> (r: Result<Option<String>, CaptureError>)
    ensures
        audio_input_id@ == DEFAULT_AUDIO_INPUT_ID@ ==> r matches Ok(None),
        audio_input_id@ != DEFAULT_AUDIO_INPUT_ID@ ==> (r matches Ok(Some(s)) && s@ == audio_input_id@),
{
    if str_eq(audio_input_id, DEFAULT_AUDIO_INPUT_ID) {
        return Ok(None);
    }
    match resolve_audio_input(audio_input_id, discovered) {
        Ok(s) => Ok(Some(s)),
        Err(e) => Err(e),
    }
}

/// The monitor source for system audio: the best system input of what
/// discovery found; discovery's own error when it failed.
pub fn resolve_system_audio_input(discovered: &Result<Vec<AudioInputOption>, CaptureError>) -> (r: Result<String, CaptureError>)
    ensures
        match *discovered {
            Err(e) => r == Err::<String, CaptureError>(e),
            Ok(v) => match best_candidate(v@, true) {
                Some(i) => r matches Ok(s) && s@ == v@[i].id@,
                None => r matches Err(CaptureError::BackendUnavailable(m)) && m@ ==
                    "Linux could not find a usable system-audio monitor source. Disable system audio and try again."@,
            },
        },
{
    match discovered {
        Err(e) => Err(e.clone_error()),
        Ok(v) => match preferred_system_audio_input(v.as_slice()) {
            Some(o) => Ok(o.id.clone()),
            None => Err(CaptureError::BackendUnavailable(String::from_str(
                "Linux could not find a usable system-audio monitor source. Disable system audio and try again."))),
        },
    }
}

/// Where a target lies, for the launcher's preview: origin and size
/// (640 x 360 when the size is unknown).
pub fn preview_target_bounds(
    capture_target_id: &str,
    region_x: u32,
    region_y: u32,
    region_width: u32,
    region_height: u32,
    monitors: &[MonitorDescriptor],
    windows: &Result<Vec<WindowDescriptor>, CaptureError>,
) -> (r: Result<(i32, i32, u32, u32), CaptureError>)
    requires
        capture_target_id@ == FULL_DESKTOP_TARGET_ID@ ==> desktop_fits(monitor_views(monitors@)),
    ensures
        match resolve_spec(capture_target_id@, (region_x, region_y, region_width, region_height),
            monitor_views(monitors@), windows_listing(*windows)) {
            ResolveOutcome::Target(v) => r == Ok::<(i32, i32, u32, u32), CaptureError>((v.origin_x, v.origin_y,
                match v.video_size { Some(s) => s.0, None => 640 }, match v.video_size { Some(s) => s.1, None => 360 })),
            ResolveOutcome::Unavailable(m) => r matches Err(CaptureError::BackendUnavailable(x)) && x@ == m,
            ResolveOutcome::WindowsFailed => *windows matches Err(e) && r == Err::<(i32, i32, u32, u32), CaptureError>(e),
        },
{
    let options = RecordingOptions {
        output_path: String::from_str("record-screen-preview.mp4"),
        quality_preset: String::from_str("1080p / 30 fps"),
        mic_enabled: false,
        system_audio_enabled: false,
        capture_target_id: String::from_str(capture_target_id),
        audio_input_id: String::from_str(DEFAULT_AUDIO_INPUT_ID),
        portal_parent_window: None,
        portal_restore_token: None,
        region_x,
        region_y,
        region_width,
        region_height,
        region_source_capture_target_id: String::from_str(FULL_DESKTOP_TARGET_ID),
        region_source_origin_x: 0,
        region_source_origin_y: 0,
        region_source_scale_factor_milli: 1000,
    };
    match resolve_target_with_monitors(&options, monitors, windows) {
        Ok(t) => {
            let (w, h) = match t.video_size {
                Some(s) => s,
                None => (640, 360),
            };
            Ok((t.origin_x, t.origin_y, w, h))
        },
        Err(e) => Err(e),
    }
}

} // verus!
