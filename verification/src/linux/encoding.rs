//! What a quality preset asks of the Linux GStreamer pipeline.
use vstd::prelude::*;
use vstd::string::*;
use crate::text::str_eq;

verus! {

/// Output width, height and frame rate of a preset; unknown presets get
/// 1080p at 60 fps.
pub open spec fn quality_settings_spec(p: Seq<char>) -> (u32, u32, u32) {
    if p == "720p / 30 fps"@ {
        (1280, 720, 30)
    } else if p == "1080p / 30 fps"@ {
        (1920, 1080, 30)
    } else if p == "1080p / 60 fps"@ {
        (1920, 1080, 60)
    } else if p == "1440p / 60 fps"@ {
        (2560, 1440, 60)
    } else if p == "4K / 60 fps"@ {
        (3840, 2160, 60)
    } else {
        (1920, 1080, 60)
    }
}

pub fn quality_settings(preset: &str) -> (r: (u32, u32, u32))
    ensures
        r == quality_settings_spec(preset@),
{
    if str_eq(preset, "720p / 30 fps") {
        (1280, 720, 30)
    } else if str_eq(preset, "1080p / 30 fps") {
        (1920, 1080, 30)
    } else if str_eq(preset, "1080p / 60 fps") {
        (1920, 1080, 60)
    } else if str_eq(preset, "1440p / 60 fps") {
        (2560, 1440, 60)
    } else if str_eq(preset, "4K / 60 fps") {
        (3840, 2160, 60)
    } else {
        (1920, 1080, 60)
    }
}

/// The x264 speed preset: faster for the heavier presets.
pub open spec fn cpu_preset_spec(p: Seq<char>) -> Seq<char> {
    if p == "4K / 60 fps"@ || p == "1440p / 60 fps"@ {
        "ultrafast"@
    } else if p == "1080p / 60 fps"@ {
        "superfast"@
    } else {
        "veryfast"@
    }
}

pub fn cpu_preset_for_quality(preset: &str) -> (r: &'static str)
    ensures
        r@ == cpu_preset_spec(preset@),
{
    if str_eq(preset, "4K / 60 fps") || str_eq(preset, "1440p / 60 fps") {
        "ultrafast"
    } else if str_eq(preset, "1080p / 60 fps") {
        "superfast"
    } else {
        "veryfast"
    }
}

/// Encoder bitrate in kbit/s; unknown presets get 8000.
pub open spec fn gst_bitrate_spec(p: Seq<char>) -> u32 {
    if p == "720p / 30 fps"@ {
        4000
    } else if p == "1080p / 30 fps"@ {
        8000
    } else if p == "1080p / 60 fps"@ {
        12000
    } else if p == "1440p / 60 fps"@ {
        18000
    } else if p == "4K / 60 fps"@ {
        30000
    } else {
        8000
    }
}

pub fn gst_bitrate_for_quality(preset: &str) -> (r: u32)
    ensures
        r == gst_bitrate_spec(preset@),
{
    if str_eq(preset, "720p / 30 fps") {
        4000
    } else if str_eq(preset, "1080p / 30 fps") {
        8000
    } else if str_eq(preset, "1080p / 60 fps") {
        12000
    } else if str_eq(preset, "1440p / 60 fps") {
        18000
    } else if str_eq(preset, "4K / 60 fps") {
        30000
    } else {
        8000
    }
}

} // verus!
