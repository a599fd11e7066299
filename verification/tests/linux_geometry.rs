use record_screen::capture::{CaptureError, RecordingOptions, FULL_DESKTOP_TARGET_ID};
use record_screen::linux::encoder::{GstreamerEncoderPlan, GstreamerEncoderSupport};
use record_screen::linux::LinuxDesktopSession;
use record_screen::linux::pipeline::{build_x11_runtime_plan, x11_area_fits_check, x11_plan_fits_check, X11GstreamerRuntimePlan};
use record_screen::linux::targets::{desktop_fits_check, MonitorDescriptor, WindowDescriptor};

fn monitor(connector: &str, width: u32, height: u32, x: i32, y: i32) -> MonitorDescriptor {
    MonitorDescriptor {
        connector: connector.to_string(),
        label: connector.to_string(),
        width,
        height,
        x,
        y,
        is_primary: false,
    }
}

fn options(target: &str) -> RecordingOptions {
    RecordingOptions {
        output_path: "/tmp/out.mp4".to_string(),
        quality_preset: "1080p / 30 fps".to_string(),
        mic_enabled: false,
        system_audio_enabled: false,
        capture_target_id: target.to_string(),
        audio_input_id: "default".to_string(),
        portal_parent_window: None,
        portal_restore_token: None,
        region_x: 160,
        region_y: 120,
        region_width: 1280,
        region_height: 720,
        region_source_capture_target_id: FULL_DESKTOP_TARGET_ID.to_string(),
        region_source_origin_x: 0,
        region_source_origin_y: 0,
        region_source_scale_factor_milli: 1000,
    }
}

fn no_windows() -> Result<Vec<WindowDescriptor>, CaptureError> {
    Ok(Vec::new())
}

#[test]
fn ordinary_desktops_fit_and_overflowing_ones_do_not() {
    let two = vec![monitor("DP-1", 1920, 1080, 0, 0), monitor("HDMI-1", 2560, 1440, 1920, -200)];
    assert!(desktop_fits_check(&two));
    assert!(desktop_fits_check(&[]));
    let far = vec![monitor("DP-1", 1920, 1080, i32::MAX - 100, 0)];
    assert!(!desktop_fits_check(&far));
    let wide = vec![monitor("DP-1", 100, 100, i32::MIN, 0), monitor("DP-2", 100, 100, i32::MAX - 200, 0)];
    assert!(!desktop_fits_check(&wide));
}

#[test]
fn x11_plan_check_follows_the_desktop_and_the_target_offset() {
    let two = vec![monitor("DP-1", 1920, 1080, 0, 0), monitor("HDMI-1", 2560, 1440, 1920, 0)];
    assert!(x11_plan_fits_check(&options(FULL_DESKTOP_TARGET_ID), &two, &no_windows()));
    assert!(x11_plan_fits_check(&options("monitor:HDMI-1"), &two, &no_windows()));
    let far = vec![monitor("DP-1", 1920, 1080, i32::MAX - 100, 0)];
    assert!(!x11_plan_fits_check(&options(FULL_DESKTOP_TARGET_ID), &far, &no_windows()));
    assert!(x11_plan_fits_check(&options("monitor:missing"), &two, &no_windows()));
}

#[test]
fn x11_area_check_looks_at_the_far_edges() {
    let plan = |x: i32, w: Option<u32>| X11GstreamerRuntimePlan {
        target_label: "Full desktop".to_string(),
        encoder_label: "x264".to_string(),
        encoder_plan: GstreamerEncoderPlan { element_name: "x264enc", label: "x264".to_string(), property_args: Vec::new() },
        display_name: ":0.0".to_string(),
        origin_x: x,
        origin_y: 0,
        source_width: w,
        source_height: Some(1080),
        output_width: 1920,
        output_height: 1080,
        fps: 30,
        microphone_device: None,
        system_audio_device: None,
    };
    assert!(x11_area_fits_check(&plan(0, Some(1920))));
    assert!(!x11_area_fits_check(&plan(i32::MAX - 10, Some(1920))));
    assert!(x11_area_fits_check(&plan(i32::MAX - 10, None)));
}

#[test]
fn x11_plan_failures_name_their_cause() {
    let session = LinuxDesktopSession::X11 { display: ":0".to_string() };
    let monitors = vec![monitor("DP-1", 1920, 1080, 0, 0)];
    let x264 = GstreamerEncoderSupport { nvh264enc: false, x264enc: true, vaapih264enc: false };
    let none = GstreamerEncoderSupport { nvh264enc: false, x264enc: false, vaapih264enc: false };
    let discovered = Ok(Vec::new());
    match build_x11_runtime_plan(&options(FULL_DESKTOP_TARGET_ID), &session, &monitors, &no_windows(), none, &discovered) {
        Err(CaptureError::BackendUnavailable(m)) => {
            assert_eq!(m, "the Linux native GStreamer lane could not resolve a usable H.264 encoder")
        }
        other => panic!("unexpected {other:?}"),
    }
    let mut with_system = options(FULL_DESKTOP_TARGET_ID);
    with_system.system_audio_enabled = true;
    match build_x11_runtime_plan(&with_system, &session, &monitors, &no_windows(), x264, &discovered) {
        Err(CaptureError::BackendUnavailable(m)) => assert_eq!(
            m,
            "Linux could not find a usable system-audio monitor source. Disable system audio and try again."
        ),
        other => panic!("unexpected {other:?}"),
    }
    assert!(build_x11_runtime_plan(&options(FULL_DESKTOP_TARGET_ID), &session, &monitors, &no_windows(), x264, &discovered).is_ok());
}
