//! The `gst-launch-1.0` pipelines of the two Linux capture lanes and the
//! runtime plans they are built from.
use vstd::prelude::*;
use vstd::string::*;
use crate::capture::{opt_sview, static_views, AudioInputOption, CaptureError, RecordingOptions, best_candidate,
    DEFAULT_AUDIO_INPUT_ID};
use crate::linux::{normalize_display, normalized_display, session_view, LinuxDesktopSession, SessionView};
use crate::linux::encoder::{encoder_plan_for_quality, encoder_plan_spec, GstreamerEncoderPlan,
    GstreamerEncoderPlanView, GstreamerEncoderSupport};
use crate::linux::encoding::{quality_settings, quality_settings_spec};
use crate::linux::targets::{desktop_fits, desktop_fits_check, fits_in_i32, gst_audio_input_device, min_x, min_y, monitor_views, ok_input_seq,
    resolve_audio_input, resolve_spec, resolve_system_audio_input, resolve_target_with_monitors, snapshot_input_spec,
    windows_listing, MonitorDescriptor, ResolveOutcome, ResolvedView, WindowDescriptor};
use crate::text::{dec, idec, push_dec, push_idec, push_str, string_views, str_eq};

verus! {

/// What the Wayland lane records: the portal stream, the encoder and the
/// optional microphone source.
#[derive(Debug, Clone, PartialEq, Eq)]
pub struct WaylandPortalRuntimePlan {
    pub target_label: String,
    pub encoder_label: String,
    pub encoder_plan: GstreamerEncoderPlan,
    pub stream_node_id: u32,
    pub stream_target_id: Option<String>,
    pub width: u32,
    pub height: u32,
    pub fps: u32,
    pub microphone_device: Option<String>,
}

/// What the X11 lane records: the display area, the encoder and the
/// optional microphone and system-audio sources.
#[derive(Debug, Clone, PartialEq, Eq)]
pub struct X11GstreamerRuntimePlan {
    pub target_label: String,
    pub encoder_label: String,
    pub encoder_plan: GstreamerEncoderPlan,
    pub display_name: String,
    pub origin_x: i32,
    pub origin_y: i32,
    pub source_width: Option<u32>,
    pub source_height: Option<u32>,
    pub output_width: u32,
    pub output_height: u32,
    pub fps: u32,
    pub microphone_device: Option<String>,
    pub system_audio_device: Option<String>,
}

fn push_items(v: &mut Vec<String>, items: &[&'static str])
    ensures
        string_views(final(v)@) == string_views(old(v)@) + static_views(items@),
{
    let ghost start = string_views(v@);
    let mut i: usize = 0;
    while i < items.len()
        invariant
            i <= items@.len(),
            string_views(v@) == start + static_views(items@.subrange(0, i as int)),
        decreases items@.len() - i,
    {
        let ghost before = string_views(v@);
        let s = String::from_str(items[i]);
        v.push(s);
        assert(string_views(v@) == before.push(s@));
        assert(static_views(items@.subrange(0, i + 1)) == static_views(items@.subrange(0, i as int)).push(items@[i as int]@));
        i += 1;
    }
    assert(items@.subrange(0, items@.len() as int) == items@);
}

fn push_one(v: &mut Vec<String>, s: String)
    ensures
        string_views(final(v)@) == string_views(old(v)@).push(s@),
{
    v.push(s);
    assert(string_views(v@) == string_views(old(v)@).push(s@));
}

fn push_strings(v: &mut Vec<String>, items: &Vec<String>)
    ensures
        string_views(final(v)@) == string_views(old(v)@) + string_views(items@),
{
    let ghost start = string_views(v@);
    let mut i: usize = 0;
    while i < items.len()
        invariant
            i <= items@.len(),
            string_views(v@) == start + string_views(items@.subrange(0, i as int)),
        decreases items@.len() - i,
    {
        let ghost before = string_views(v@);
        let s = items[i].clone();
        v.push(s);
        assert(string_views(v@) == before.push(s@));
        assert(string_views(items@.subrange(0, i + 1)) == string_views(items@.subrange(0, i as int)).push(items@[i as int]@));
        i += 1;
    }
    assert(items@.subrange(0, items@.len() as int) == items@);
}

fn labelled(prefix: &str, value: &str) -> (r: String)
    ensures
        r@ == prefix@ + value@,
{
    let mut r = String::from_str(prefix);
    push_str(&mut r, value);
    r
}

pub open spec fn caps_text(w: u32, h: u32, fps: u32) -> Seq<char> {
    "video/x-raw,width="@ + dec(w as nat) + ",height="@ + dec(h as nat) + ",framerate="@ + dec(fps as nat) + "/1"@
}

fn caps(w: u32, h: u32, fps: u32) -> (r: String)
    ensures
        r@ == caps_text(w, h, fps),
{
    let mut r = String::from_str("video/x-raw,width=");
    push_dec(&mut r, w as u64);
    push_str(&mut r, ",height=");
    push_dec(&mut r, h as u64);
    push_str(&mut r, ",framerate=");
    push_dec(&mut r, fps as u64);
    push_str(&mut r, "/1");
    r
}

/// Scaling, rate conversion and encoding of the captured video into the muxer.
pub open spec fn video_chain(w: u32, h: u32, fps: u32, enc: GstreamerEncoderPlanView) -> Seq<Seq<char>> {
    seq!["!"@, "queue"@, "!"@, "videoconvert"@, "!"@, "videoscale"@, "!"@, "videorate"@, "!"@, caps_text(w, h, fps),
        "!"@, enc.element_name]
        + enc.property_args
        + seq!["!"@, "h264parse"@, "config-interval=-1"@, "!"@, "queue"@, "!"@, "mux.video_0"@]
}

pub open spec fn aac_tail() -> Seq<Seq<char>> {
    seq!["!"@, "audioconvert"@, "!"@, "audioresample"@, "!"@, "voaacenc"@, "bitrate=192000"@, "!"@, "aacparse"@,
        "!"@, "queue"@, "!"@, "mux.audio_0"@]
}

pub open spec fn mux_tail(output: Seq<char>) -> Seq<Seq<char>> {
    seq!["mp4mux"@, "name=mux"@, "faststart=true"@, "!"@, "filesink"@, "location="@ + output]
}

/// The Wayland pipeline: the portal's PipeWire stream, the video chain,
/// an optional microphone branch, and the MP4 file.
pub open spec fn wayland_args(output: Seq<char>, mic_enabled: bool, plan: WaylandPortalRuntimePlan) -> Seq<Seq<char>> {
    seq!["-e"@, "pipewiresrc"@, "fd=3"@, "path="@ + dec(plan.stream_node_id as nat), "autoconnect=true"@,
        "always-copy=true"@, "do-timestamp=true"@, "keepalive-time=1000"@]
        + video_chain(plan.width, plan.height, plan.fps, plan.encoder_plan@)
        + (if mic_enabled {
            seq!["pulsesrc"@, "do-timestamp=true"@]
                + (match plan.microphone_device { Some(d) => seq!["device="@ + d@], None => seq![] })
                + seq!["!"@, "queue"@] + aac_tail()
        } else {
            seq![]
        })
        + mux_tail(output)
}

fn push_video_chain(args: &mut Vec<String>, w: u32, h: u32, fps: u32, enc: &GstreamerEncoderPlan)
    ensures
        string_views(final(args)@) == string_views(old(args)@) + video_chain(w, h, fps, enc@),
{
    let a: [&'static str; 9] = ["!", "queue", "!", "videoconvert", "!", "videoscale", "!", "videorate", "!"];
    push_items(args, &a);
    push_one(args, caps(w, h, fps));
    let b: [&'static str; 1] = ["!"];
    push_items(args, &b);
    push_one(args, String::from_str(enc.element_name));
    push_strings(args, &enc.property_args);
    let c: [&'static str; 7] = ["!", "h264parse", "config-interval=-1", "!", "queue", "!", "mux.video_0"];
    push_items(args, &c);
    assert(string_views(args@) == string_views(old(args)@) + video_chain(w, h, fps, enc@));
}

fn push_aac_tail(args: &mut Vec<String>)
    ensures
        string_views(final(args)@) == string_views(old(args)@) + aac_tail(),
{
    let t: [&'static str; 13] = ["!", "audioconvert", "!", "audioresample", "!", "voaacenc", "bitrate=192000", "!",
        "aacparse", "!", "queue", "!", "mux.audio_0"];
    push_items(args, &t);
    assert(static_views(t@) == aac_tail());
}

fn push_mux_tail(args: &mut Vec<String>, output: &str)
    ensures
        string_views(final(args)@) == string_views(old(args)@) + mux_tail(output@),
{
    let t: [&'static str; 5] = ["mp4mux", "name=mux", "faststart=true", "!", "filesink"];
    push_items(args, &t);
    push_one(args, labelled("location=", output));
    assert(string_views(args@) == string_views(old(args)@) + mux_tail(output@));
}

/// The `gst-launch-1.0` arguments of the Wayland lane.
pub fn build_wayland_gstreamer_args(options: &RecordingOptions, plan: &WaylandPortalRuntimePlan) -> (r: Result<Vec<String>, CaptureError>)
    ensures
        r matches Ok(args) && string_views(args@) == wayland_args(options.output_path@, options.mic_enabled, *plan),
{
    let mut args: Vec<String> = Vec::new();
    let head: [&'static str; 3] = ["-e", "pipewiresrc", "fd=3"];
    push_items(&mut args, &head);
    let mut path = String::from_str("path=");
    push_dec(&mut path, plan.stream_node_id as u64);
    push_one(&mut args, path);
    let flags: [&'static str; 4] = ["autoconnect=true", "always-copy=true", "do-timestamp=true", "keepalive-time=1000"];
    push_items(&mut args, &flags);
    let ghost head_views = string_views(args@);
    assert(head_views == seq!["-e"@, "pipewiresrc"@, "fd=3"@, "path="@ + dec(plan.stream_node_id as nat),
        "autoconnect=true"@, "always-copy=true"@, "do-timestamp=true"@, "keepalive-time=1000"@]);
    push_video_chain(&mut args, plan.width, plan.height, plan.fps, &plan.encoder_plan);
    let ghost with_video = string_views(args@);
    if options.mic_enabled {
        let p: [&'static str; 2] = ["pulsesrc", "do-timestamp=true"];
        push_items(&mut args, &p);
        match &plan.microphone_device {
            Some(d) => push_one(&mut args, labelled("device=", d.as_str())),
            None => {},
        }
        let q: [&'static str; 2] = ["!", "queue"];
        push_items(&mut args, &q);
        push_aac_tail(&mut args);
    }
    let ghost with_audio = string_views(args@);
    push_mux_tail(&mut args, options.output_path.as_str());
    assert(string_views(args@) == wayland_args(options.output_path@, options.mic_enabled, *plan));
    Ok(args)
}

pub open spec fn pulsesrc_branch(device: Seq<char>) -> Seq<Seq<char>> {
    seq!["pulsesrc"@, "do-timestamp=true"@, "device="@ + device, "!"@, "queue"@]
}

pub open spec fn convert_into_mixer() -> Seq<Seq<char>> {
    seq!["!"@, "audioconvert"@, "!"@, "audioresample"@, "!"@, "amix."@]
}

/// The audio branches of the X11 lane: none, one source, or both mixed.
pub open spec fn x11_audio_args(mic: Option<Seq<char>>, system: Option<Seq<char>>) -> Seq<Seq<char>> {
    match (mic, system) {
        (None, None) => seq![],
        (Some(d), None) | (None, Some(d)) => pulsesrc_branch(d) + aac_tail(),
        (Some(m), Some(s)) => pulsesrc_branch(m) + convert_into_mixer() + pulsesrc_branch(s) + convert_into_mixer()
            + seq!["audiomixer"@, "name=amix"@, "!"@, "audioconvert"@, "!"@, "audioresample"@, "!"@, "voaacenc"@,
                "bitrate=192000"@, "!"@, "aacparse"@, "!"@, "queue"@, "!"@, "mux.audio_0"@],
    }
}

/// The area `ximagesrc` grabs, when the source size is known.
pub open spec fn x11_area_args(plan: X11GstreamerRuntimePlan) -> Seq<Seq<char>> {
    match (plan.source_width, plan.source_height) {
        (Some(w), Some(h)) => seq!["startx="@ + idec(plan.origin_x as int), "starty="@ + idec(plan.origin_y as int),
            "endx="@ + idec(plan.origin_x + (w as i32) - 1), "endy="@ + idec(plan.origin_y + (h as i32) - 1)],
        _ => seq![],
    }
}

/// The far corner of the grabbed area fits in `i32`.
pub open spec fn x11_area_fits(plan: X11GstreamerRuntimePlan) -> bool {
    match (plan.source_width, plan.source_height) {
        (Some(w), Some(h)) => i32::MIN <= plan.origin_x + (w as i32) - 1 <= i32::MAX
            && i32::MIN <= plan.origin_y + (h as i32) - 1 <= i32::MAX
            && i32::MIN <= plan.origin_x + (w as i32) <= i32::MAX
            && i32::MIN <= plan.origin_y + (h as i32) <= i32::MAX,
        _ => true,
    }
}

/// The X11 pipeline: `ximagesrc` on the display and area, the video
/// chain, the audio branches, and the MP4 file.
pub open spec fn x11_args(output: Seq<char>, plan: X11GstreamerRuntimePlan) -> Seq<Seq<char>> {
    seq!["-e"@, "ximagesrc"@, "display-name="@ + plan.display_name@, "show-pointer=true"@, "use-damage=false"@]
        + x11_area_args(plan)
        + video_chain(plan.output_width, plan.output_height, plan.fps, plan.encoder_plan@)
        + x11_audio_args(opt_sview(plan.microphone_device), opt_sview(plan.system_audio_device))
        + mux_tail(output)
}

/// The audio branch of one PulseAudio source `d`: captured with
/// timestamps, queued, converted and resampled, encoded as AAC at
/// 192 kbit/s and fed to the muxer's audio pad.
pub open spec fn single_source_audio_branch(d: Seq<char>) -> Seq<Seq<char>> {
    seq!["pulsesrc"@, "do-timestamp=true"@, "device="@ + d, "!"@, "queue"@, "!"@, "audioconvert"@, "!"@,
        "audioresample"@, "!"@, "voaacenc"@, "bitrate=192000"@, "!"@, "aacparse"@, "!"@, "queue"@, "!"@,
        "mux.audio_0"@]
}

/// With exactly one audio device in the plan (the microphone or the
/// system-audio monitor), the X11 arguments hold that device's complete
/// audio branch: nothing planned is left out of the recording.
pub proof fn law_x11_single_device_is_recorded(output: Seq<char>, plan: X11GstreamerRuntimePlan, d: Seq<char>)
    requires
        (opt_sview(plan.microphone_device) == Some(d) && plan.system_audio_device is None)
            || (plan.microphone_device is None && opt_sview(plan.system_audio_device) == Some(d)),
    ensures
        exists|k: int| 0 <= k && k + 18 <= x11_args(output, plan).len()
            && #[trigger] x11_args(output, plan).subrange(k, k + 18) == single_source_audio_branch(d),
{
    let pre = seq!["-e"@, "ximagesrc"@, "display-name="@ + plan.display_name@, "show-pointer=true"@,
        "use-damage=false"@] + x11_area_args(plan)
        + video_chain(plan.output_width, plan.output_height, plan.fps, plan.encoder_plan@);
    let audio = x11_audio_args(opt_sview(plan.microphone_device), opt_sview(plan.system_audio_device));
    let args = x11_args(output, plan);
    assert(audio =~= single_source_audio_branch(d));
    assert(args =~= pre + audio + mux_tail(output));
    let k = pre.len() as int;
    assert(args.subrange(k, k + 18) =~= audio);
}

/// With both a microphone and a system-audio device in the plan, the X11
/// arguments open a `pulsesrc` on each of them, and the mixed audio reaches
/// the muxer's audio pad.
pub proof fn law_x11_both_devices_are_recorded(output: Seq<char>, plan: X11GstreamerRuntimePlan, m: Seq<char>,
    s: Seq<char>)
    requires
        opt_sview(plan.microphone_device) == Some(m),
        opt_sview(plan.system_audio_device) == Some(s),
    ensures
        exists|k: int| 0 <= k && k + 3 <= x11_args(output, plan).len()
            && #[trigger] x11_args(output, plan).subrange(k, k + 3) == seq!["pulsesrc"@, "do-timestamp=true"@,
                "device="@ + m],
        exists|k: int| 0 <= k && k + 3 <= x11_args(output, plan).len()
            && #[trigger] x11_args(output, plan).subrange(k, k + 3) == seq!["pulsesrc"@, "do-timestamp=true"@,
                "device="@ + s],
        exists|k: int| 0 <= k < x11_args(output, plan).len() && #[trigger] x11_args(output, plan)[k]
            == "mux.audio_0"@,
{
    let pre = seq!["-e"@, "ximagesrc"@, "display-name="@ + plan.display_name@, "show-pointer=true"@,
        "use-damage=false"@] + x11_area_args(plan)
        + video_chain(plan.output_width, plan.output_height, plan.fps, plan.encoder_plan@);
    let audio = x11_audio_args(opt_sview(plan.microphone_device), opt_sview(plan.system_audio_device));
    let args = x11_args(output, plan);
    assert(args =~= pre + audio + mux_tail(output));
    let k = pre.len() as int;
    assert(args.subrange(k, k + 3) =~= seq!["pulsesrc"@, "do-timestamp=true"@, "device="@ + m]);
    let j = k + 11;
    assert(args.subrange(j, j + 3) =~= seq!["pulsesrc"@, "do-timestamp=true"@, "device="@ + s]);
    assert(audio.len() == 37);
    assert(args[k + 36] == "mux.audio_0"@);
}

fn push_pulsesrc(args: &mut Vec<String>, device: &str)
    ensures
        string_views(final(args)@) == string_views(old(args)@) + pulsesrc_branch(device@),
{
    let p: [&'static str; 2] = ["pulsesrc", "do-timestamp=true"];
    push_items(args, &p);
    push_one(args, labelled("device=", device));
    let q: [&'static str; 2] = ["!", "queue"];
    push_items(args, &q);
    assert(string_views(args@) == string_views(old(args)@) + pulsesrc_branch(device@));
}

fn append_x11_audio_args(args: &mut Vec<String>, plan: &X11GstreamerRuntimePlan)
    ensures
        string_views(final(args)@) == string_views(old(args)@)
            + x11_audio_args(opt_sview(plan.microphone_device), opt_sview(plan.system_audio_device)),
{
    match (&plan.microphone_device, &plan.system_audio_device) {
        (None, None) => {
            assert(string_views(args@) == string_views(old(args)@) + Seq::<Seq<char>>::empty());
        },
        (Some(d), None) | (None, Some(d)) => {
            push_pulsesrc(args, d.as_str());
            push_aac_tail(args);
        },
        (Some(m), Some(s)) => {
            let mix: [&'static str; 6] = ["!", "audioconvert", "!", "audioresample", "!", "amix."];
            push_pulsesrc(args, m.as_str());
            push_items(args, &mix);
            push_pulsesrc(args, s.as_str());
            push_items(args, &mix);
            let t: [&'static str; 15] = ["audiomixer", "name=amix", "!", "audioconvert", "!", "audioresample", "!",
                "voaacenc", "bitrate=192000", "!", "aacparse", "!", "queue", "!", "mux.audio_0"];
            push_items(args, &t);
            assert(static_views(mix@) == convert_into_mixer());
        },
    }
}

/// Whether the far edges of the plan's capture area fit in `i32`.
pub fn x11_area_fits_check(plan: &X11GstreamerRuntimePlan) -> (r: bool)
    ensures
        r == x11_area_fits(*plan),
{
    match (plan.source_width, plan.source_height) {
        (Some(w), Some(h)) => {
            let right: i64 = plan.origin_x as i64 + (#[verifier::truncate] (w as i32)) as i64;
            let bottom: i64 = plan.origin_y as i64 + (#[verifier::truncate] (h as i32)) as i64;
            fits_in_i32(right - 1) && fits_in_i32(bottom - 1) && fits_in_i32(right) && fits_in_i32(bottom)
        },
        _ => true,
    }
}

/// The `gst-launch-1.0` arguments of the X11 lane.
pub fn build_x11_gstreamer_args(options: &RecordingOptions, plan: &X11GstreamerRuntimePlan) -> (r: Result<Vec<String>, CaptureError>)
    requires
        x11_area_fits(*plan),
    ensures
        r matches Ok(args) && string_views(args@) == x11_args(options.output_path@, *plan),
{
    let mut args: Vec<String> = Vec::new();
    let head: [&'static str; 2] = ["-e", "ximagesrc"];
    push_items(&mut args, &head);
    push_one(&mut args, labelled("display-name=", plan.display_name.as_str()));
    let flags: [&'static str; 2] = ["show-pointer=true", "use-damage=false"];
    push_items(&mut args, &flags);
    let ghost head_views = string_views(args@);
    match (plan.source_width, plan.source_height) {
        (Some(w), Some(h)) => {
            let end_x = plan.origin_x + w as i32 - 1;
            let end_y = plan.origin_y + h as i32 - 1;
            let mut a = String::from_str("startx=");
            push_idec(&mut a, plan.origin_x as i64);
            push_one(&mut args, a);
            let mut b = String::from_str("starty=");
            push_idec(&mut b, plan.origin_y as i64);
            push_one(&mut args, b);
            let mut c = String::from_str("endx=");
            push_idec(&mut c, end_x as i64);
            push_one(&mut args, c);
            let mut d = String::from_str("endy=");
            push_idec(&mut d, end_y as i64);
            push_one(&mut args, d);
        },
        _ => {},
    }
    assert(string_views(args@) == head_views + x11_area_args(*plan));
    push_video_chain(&mut args, plan.output_width, plan.output_height, plan.fps, &plan.encoder_plan);
    append_x11_audio_args(&mut args, plan);
    push_mux_tail(&mut args, options.output_path.as_str());
    assert(string_views(args@) == x11_args(options.output_path@, *plan));
    Ok(args)
}

/// The microphone source of a Wayland recording: none without the
/// microphone or for the default input.
pub open spec fn wayland_mic_device(options: RecordingOptions) -> Option<Seq<char>> {
    if options.mic_enabled && options.audio_input_id@ != DEFAULT_AUDIO_INPUT_ID@ {
        Some(options.audio_input_id@)
    } else {
        None
    }
}

/// Plans a Wayland recording from the portal's stream node ids and
/// target ids, the encoders GStreamer offers and the discovered inputs.
pub fn build_wayland_runtime_plan(
    options: &RecordingOptions,
    stream_node_ids: &[u32],
    stream_target_ids: &[String],
    support: GstreamerEncoderSupport,
    discovered: &Result<Vec<AudioInputOption>, CaptureError>,
) -> (r: Result<WaylandPortalRuntimePlan, CaptureError>)
    ensures
        stream_node_ids@.len() == 0 ==> (r matches Err(CaptureError::BackendUnavailable(m))
            && m@ == "the ScreenCast portal did not return any PipeWire stream node IDs"@),
        stream_node_ids@.len() > 0 && encoder_plan_spec(options.quality_preset@, support) is None ==>
            (r matches Err(CaptureError::BackendUnavailable(m))
                && m@ == "the Linux native GStreamer lane could not resolve a usable H.264 encoder"@),
        stream_node_ids@.len() > 0 && encoder_plan_spec(options.quality_preset@, support) is Some ==> (r matches Ok(plan)
            && plan.target_label@ == "Wayland ScreenCast selection"@
            && Some(plan.encoder_plan@) == encoder_plan_spec(options.quality_preset@, support)
            && plan.encoder_label@ == "gstreamer / pipewiresrc · "@ + plan.encoder_plan@.label
            && plan.stream_node_id == stream_node_ids@[0]
            && opt_sview(plan.stream_target_id) == (if stream_target_ids@.len() > 0 { Some(stream_target_ids@[0]@) } else { None })
            && (plan.width, plan.height, plan.fps) == quality_settings_spec(options.quality_preset@)
            && opt_sview(plan.microphone_device) == wayland_mic_device(*options)),
{
    if stream_node_ids.len() == 0 {
        return Err(CaptureError::BackendUnavailable(String::from_str(
            "the ScreenCast portal did not return any PipeWire stream node IDs")));
    }
    let stream_node_id = stream_node_ids[0];
    let (width, height, fps) = quality_settings(options.quality_preset.as_str());
    let encoder_plan = match encoder_plan_for_quality(options.quality_preset.as_str(), support) {
        Some(p) => p,
        None => {
            return Err(CaptureError::BackendUnavailable(String::from_str(
                "the Linux native GStreamer lane could not resolve a usable H.264 encoder")));
        },
    };
    let stream_target_id = if stream_target_ids.len() > 0 { Some(stream_target_ids[0].clone()) } else { None };
    let microphone_device = if options.mic_enabled {
        match gst_audio_input_device(options.audio_input_id.as_str(), discovered) {
            Ok(d) => d,
            Err(e) => {
                return Err(e);
            },
        }
    } else {
        None
    };
    let encoder_label = labelled("gstreamer / pipewiresrc · ", encoder_plan.label.as_str());
    Ok(WaylandPortalRuntimePlan {
        target_label: String::from_str("Wayland ScreenCast selection"),
        encoder_label,
        encoder_plan,
        stream_node_id,
        stream_target_id,
        width,
        height,
        fps,
        microphone_device,
    })
}

/// The X11 display the lane records from, if the session has one.
pub open spec fn x11_display_of(s: SessionView) -> Option<Seq<char>> {
    match s {
        SessionView::X11(d) => Some(normalized_display(d)),
        SessionView::WaylandWithX11(_, d) => Some(normalized_display(d)),
        _ => None,
    }
}

pub open spec fn x11_plan_fits(options: RecordingOptions, monitors: Seq<crate::linux::targets::MonitorView>, windows: Option<Seq<crate::linux::targets::WindowView>>) -> bool {
    &&& options.capture_target_id@ == crate::capture::FULL_DESKTOP_TARGET_ID@ ==> desktop_fits(monitors)
    &&& match resolve_spec(options.capture_target_id@,
            (options.region_x, options.region_y, options.region_width, options.region_height), monitors, windows) {
        ResolveOutcome::Target(v) => i32::MIN <= v.origin_x - min_x(monitors) <= i32::MAX
            && i32::MIN <= v.origin_y - min_y(monitors) <= i32::MAX,
        _ => true,
    }
}

/// Whether an X11 recording of these monitors and windows can be planned
/// within `i32`: the desktop's extent for a full-desktop recording, and the
/// target's offset from the desktop's top-left corner.
pub fn x11_plan_fits_check(
    options: &RecordingOptions,
    monitors: &[MonitorDescriptor],
    windows: &Result<Vec<WindowDescriptor>, CaptureError>,
) -> (r: bool)
    ensures
        r == x11_plan_fits(*options, monitor_views(monitors@), windows_listing(*windows)),
{
    if str_eq(options.capture_target_id.as_str(), crate::capture::FULL_DESKTOP_TARGET_ID) && !desktop_fits_check(monitors) {
        return false;
    }
    match resolve_target_with_monitors(options, monitors, windows) {
        Ok(t) => {
            let (mx, my) = desktop_origin(monitors);
            fits_in_i32(t.origin_x as i64 - mx as i64) && fits_in_i32(t.origin_y as i64 - my as i64)
        },
        Err(_) => true,
    }
}

/// Plans an X11 recording: the session's display, the resolved target
/// (relative to the desktop's top-left corner), the encoder, and the
/// microphone and system-audio sources.
pub fn build_x11_runtime_plan(
    options: &RecordingOptions,
    session: &LinuxDesktopSession,
    monitors: &[MonitorDescriptor],
    windows: &Result<Vec<WindowDescriptor>, CaptureError>,
    support: GstreamerEncoderSupport,
    discovered: &Result<Vec<AudioInputOption>, CaptureError>,
) -> (r: Result<X11GstreamerRuntimePlan, CaptureError>)
    requires
        x11_plan_fits(*options, monitor_views(monitors@), windows_listing(*windows)),
    ensures
        x11_display_of(session_view(*session)) is None ==> (r matches Err(CaptureError::BackendUnavailable(m))
            && m@ == "The Linux GStreamer X11 lane is only used in X11/XWayland sessions."@),
        r matches Ok(plan) ==> {
            &&& x11_display_of(session_view(*session)) == Some(plan.display_name@)
            &&& resolve_spec(options.capture_target_id@,
                (options.region_x, options.region_y, options.region_width, options.region_height),
                monitor_views(monitors@), windows_listing(*windows)) matches ResolveOutcome::Target(t)
            &&& plan.target_label@ == t.label
            &&& plan.origin_x == t.origin_x - min_x(monitor_views(monitors@))
            &&& plan.origin_y == t.origin_y - min_y(monitor_views(monitors@))
            &&& plan.source_width == match t.video_size { Some(s) => Some(s.0), None => None }
            &&& plan.source_height == match t.video_size { Some(s) => Some(s.1), None => None }
            &&& Some(plan.encoder_plan@) == encoder_plan_spec(options.quality_preset@, support)
            &&& plan.encoder_label@ == "gstreamer / ximagesrc · "@ + plan.encoder_plan@.label
            &&& (plan.output_width, plan.output_height, plan.fps) == quality_settings_spec(options.quality_preset@)
            &&& opt_sview(plan.microphone_device) == if options.mic_enabled {
                Some(snapshot_input_spec(options.audio_input_id@, ok_input_seq(*discovered)))
            } else {
                None
            }
            &&& options.system_audio_enabled ==> (*discovered matches Ok(v) && best_candidate(v@, true) matches Some(i)
                && opt_sview(plan.system_audio_device) == Some(v@[i].id@))
            &&& !options.system_audio_enabled ==> plan.system_audio_device is None
        },
        x11_display_of(session_view(*session)) is Some ==> match resolve_spec(options.capture_target_id@,
            (options.region_x, options.region_y, options.region_width, options.region_height),
            monitor_views(monitors@), windows_listing(*windows)) {
            ResolveOutcome::Unavailable(m) => r matches Err(CaptureError::BackendUnavailable(x)) && x@ == m,
            ResolveOutcome::WindowsFailed => *windows matches Err(e)
                && r == Err::<X11GstreamerRuntimePlan, CaptureError>(e),
            ResolveOutcome::Target(_) => if encoder_plan_spec(options.quality_preset@, support) is None {
                r matches Err(CaptureError::BackendUnavailable(x))
                    && x@ == "the Linux native GStreamer lane could not resolve a usable H.264 encoder"@
            } else if !options.system_audio_enabled {
                r is Ok
            } else {
                match *discovered {
                    Err(e) => r == Err::<X11GstreamerRuntimePlan, CaptureError>(e),
                    Ok(v) => match best_candidate(v@, true) {
                        Some(_) => r is Ok,
                        None => r matches Err(CaptureError::BackendUnavailable(x)) && x@ ==
                            "Linux could not find a usable system-audio monitor source. Disable system audio and try again."@,
                    },
                }
            },
        },
{
    let display_name = match session {
        LinuxDesktopSession::X11 { display } => normalize_display(display.as_str()),
        LinuxDesktopSession::WaylandWithX11 { x11_display, .. } => normalize_display(x11_display.as_str()),
        _ => {
            return Err(CaptureError::BackendUnavailable(String::from_str(
                "The Linux GStreamer X11 lane is only used in X11/XWayland sessions.")));
        },
    };
    let target = match resolve_target_with_monitors(options, monitors, windows) {
        Ok(t) => t,
        Err(e) => {
            return Err(e);
        },
    };
    let (dx, dy) = desktop_origin(monitors);
    let (output_width, output_height, fps) = quality_settings(options.quality_preset.as_str());
    let encoder_plan = match encoder_plan_for_quality(options.quality_preset.as_str(), support) {
        Some(p) => p,
        None => {
            return Err(CaptureError::BackendUnavailable(String::from_str(
                "the Linux native GStreamer lane could not resolve a usable H.264 encoder")));
        },
    };
    let microphone_device = if options.mic_enabled {
        match resolve_audio_input(options.audio_input_id.as_str(), discovered) {
            Ok(d) => Some(d),
            Err(e) => {
                return Err(e);
            },
        }
    } else {
        None
    };
    let system_audio_device = if options.system_audio_enabled {
        match resolve_system_audio_input(discovered) {
            Ok(d) => Some(d),
            Err(e) => {
                return Err(e);
            },
        }
    } else {
        None
    };
    let encoder_label = labelled("gstreamer / ximagesrc · ", encoder_plan.label.as_str());
    let (source_width, source_height) = match target.video_size {
        Some((w, h)) => (Some(w), Some(h)),
        None => (None, None),
    };
    Ok(X11GstreamerRuntimePlan {
        target_label: target.label,
        encoder_label,
        encoder_plan,
        display_name,
        origin_x: target.origin_x - dx,
        origin_y: target.origin_y - dy,
        source_width,
        source_height,
        output_width,
        output_height,
        fps,
        microphone_device,
        system_audio_device,
    })
}

/// The desktop's top-left corner: the smallest monitor coordinates, 0
/// without monitors.
fn desktop_origin(monitors: &[MonitorDescriptor]) -> (r: (i32, i32))
    ensures
        r.0 == min_x(monitor_views(monitors@)),
        r.1 == min_y(monitor_views(monitors@)),
{
    let ghost v = monitor_views(monitors@);
    if monitors.len() == 0 {
        return (0, 0);
    }
    assert(v[0] == monitors@[0]@);
    let mut lx = monitors[0].x;
    let mut ly = monitors[0].y;
    assert(v.subrange(0, 1) == seq![v[0]]);
    let mut i: usize = 1;
    while i < monitors.len()
        invariant
            1 <= i <= monitors@.len(),
            v == monitor_views(monitors@),
            lx == min_x(v.subrange(0, i as int)),
            ly == min_y(v.subrange(0, i as int)),
        decreases monitors@.len() - i,
    {
        assert(v[i as int] == monitors@[i as int]@);
        assert(v.subrange(0, i + 1).drop_last() == v.subrange(0, i as int));
        assert(v.subrange(0, i + 1).last() == v[i as int]);
        if monitors[i].x < lx {
            lx = monitors[i].x;
        }
        if monitors[i].y < ly {
            ly = monitors[i].y;
        }
        i += 1;
    }
    assert(v.subrange(0, i as int) == v);
    (lx, ly)
}

} // verus!
